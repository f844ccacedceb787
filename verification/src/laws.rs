//! What holds of every publishing run, stated over the machine of the
//! workflow module and proved from its definition.

use crate::release::{
    asset_names, assets_of_text, first_named, first_named_found, first_named_unique,
    is_first_named, release_name, release_names, release_of_text, releases_of_text, AssetModel,
    ReleaseModel,
};
use crate::request::{create_text, update_text, Method, PayloadModel};
use crate::status::success;
use crate::text::{
    asset_address, asset_name, is_hex_text, is_space, release_address, releases_address, trimmed,
    trimmed_drops_trailing_space,
};
use crate::workflow::{
    at, halted, initial, next, resolved, send, well_formed, ActionModel, EventModel, Failure,
    PublisherModel, Stage,
};
use vstd::prelude::*;

verus! {

/// Whether an action asks for a release to be created: a POST with a JSON
/// body.
pub open spec fn is_create(action: ActionModel) -> bool {
    match action {
        ActionModel::Send(request) => request.method == Method::Post
            && request.payload is Text,
        _ => false,
    }
}

/// Whether an action asks for an asset to be deleted.
pub open spec fn is_delete(action: ActionModel) -> bool {
    match action {
        ActionModel::Send(request) => request.method == Method::Delete,
        _ => false,
    }
}

/// Whether an action uploads an artifact: a POST with file bytes.
pub open spec fn is_upload(action: ActionModel) -> bool {
    match action {
        ActionModel::Send(request) => request.method == Method::Post
            && request.payload is File,
        _ => false,
    }
}

/// Whether a stage waits for the response to a request.
pub open spec fn awaits_response(stage: Stage) -> bool {
    stage == Stage::ListingReleases || stage == Stage::Creating || stage == Stage::Updating
        || stage == Stage::ListingAssets || stage == Stage::Deleting || stage == Stage::Uploading
}

/// Where the list of releases holds none named "master", the release is asked
/// to be created as a draft with tag and name "master", at the repository's
/// address for releases.
pub proof fn missing_release_is_created(
    pre: PublisherModel,
    code: u32,
    body: Seq<char>,
    list: Seq<ReleaseModel>,
)
    requires
        pre.stage == Stage::ListingReleases,
        success(code),
        releases_of_text(body) == Some(list),
        forall|i: int| 0 <= i < list.len() ==> list[i].name != release_name(),
    ensures
        next(pre, EventModel::Response { code, body }) == (
            at(pre, Stage::Creating),
            send(Method::Post, releases_address(pre.repo), PayloadModel::Text(create_text())),
        ),
{
    let names = release_names(list);
    if first_named(names, release_name()).is_some() {
        let i = choose|i: int| is_first_named(names, release_name(), i);
        assert(names[i] == list[i].name);
    }
}

/// After the creation was asked for, the release that the answer describes is
/// the one the run goes on with, and the commit is asked for next: nothing is
/// created a second time.
pub proof fn created_release_is_taken(
    pre: PublisherModel,
    code: u32,
    body: Seq<char>,
    release: ReleaseModel,
)
    requires
        pre.stage == Stage::Creating,
        success(code),
        release_of_text(body) == Some(release),
    ensures
        next(pre, EventModel::Response { code, body }) == resolved(pre, release),
        !is_create(next(pre, EventModel::Response { code, body }).1),
{
}

/// A creation is asked for in one situation only: the list of releases came,
/// well formed and with a success status, and holds no release named
/// "master".
pub proof fn create_only_for_missing_release(pre: PublisherModel, event: EventModel)
    ensures
        is_create(next(pre, event).1) <==> {
            &&& pre.stage == Stage::ListingReleases
            &&& event matches EventModel::Response { code, body }
            &&& success(code)
            &&& releases_of_text(body) matches Some(list)
            &&& !release_names(list).contains(release_name())
        },
{
    if pre.stage == Stage::ListingReleases {
        if let EventModel::Response { code, body } = event {
            if let Some(list) = releases_of_text(body) {
                first_named_found(release_names(list), release_name());
            }
        }
    }
}

/// Where the list of releases holds one named "master", the first such
/// release is taken, wherever in the list it stands, and nothing is created.
pub proof fn existing_release_is_taken(
    pre: PublisherModel,
    code: u32,
    body: Seq<char>,
    list: Seq<ReleaseModel>,
    i: int,
)
    requires
        pre.stage == Stage::ListingReleases,
        success(code),
        releases_of_text(body) == Some(list),
        0 <= i < list.len(),
        list[i].name == release_name(),
        forall|j: int| 0 <= j < i ==> list[j].name != release_name(),
    ensures
        next(pre, EventModel::Response { code, body }) == resolved(pre, list[i]),
        !is_create(next(pre, EventModel::Response { code, body }).1),
{
    let names = release_names(list);
    assert(is_first_named(names, release_name(), i));
    let k = choose|k: int| is_first_named(names, release_name(), k);
    first_named_unique(names, release_name(), i, k);
}

/// Once the commit is known, the release is patched at its own address: its
/// target becomes the commit as reported, without the white space around it,
/// and its draft flag false.
pub proof fn commit_is_published(pre: PublisherModel, raw: Seq<char>, release: ReleaseModel)
    requires
        pre.stage == Stage::ReadingCommit,
        pre.release == Some(release),
    ensures
        next(pre, EventModel::Commit(raw)) == (
            at(pre, Stage::Updating),
            send(
                Method::Patch,
                release_address(pre.repo, release.id),
                PayloadModel::Text(update_text(trimmed(raw))),
            ),
        ),
{
}

/// Where the version-control system prints a hexadecimal commit hash and
/// white space behind it, the release's target becomes exactly that hash.
pub proof fn hex_commit_is_published_as_it_is(
    pre: PublisherModel,
    commit: Seq<char>,
    space: Seq<char>,
    release: ReleaseModel,
)
    requires
        pre.stage == Stage::ReadingCommit,
        pre.release == Some(release),
        is_hex_text(commit),
        forall|i: int| 0 <= i < space.len() ==> is_space(#[trigger] space[i]),
    ensures
        next(pre, EventModel::Commit(commit + space)) == (
            at(pre, Stage::Updating),
            send(
                Method::Patch,
                release_address(pre.repo, release.id),
                PayloadModel::Text(update_text(commit)),
            ),
        ),
{
    trimmed_drops_trailing_space(commit, space);
}

/// A regular file's asset name is made of its stem, the host triple and the
/// executable suffix, and the assets are listed before anything else is done
/// with it; an entry that is no regular file changes nothing.
pub proof fn entry_names_the_asset(
    pre: PublisherModel,
    stem: Seq<char>,
    regular: bool,
    length: u64,
    release: ReleaseModel,
)
    requires
        pre.stage == Stage::Idle,
        pre.release == Some(release),
    ensures
        ({
            let (post, action) = next(pre, EventModel::Entry { stem, regular, length });
            if regular {
                &&& post.stage == Stage::ListingAssets
                &&& post.filename == asset_name(stem, pre.host, pre.suffix)
                &&& post.length == length
                &&& action matches ActionModel::Send(request)
                &&& request.method == Method::Get
                &&& request.url == release.assets_url
                &&& request.fresh == pre.fresh
            } else {
                post == pre && action == ActionModel::NextEntry
            }
        }),
{
}

/// Where the list of assets holds one that has the artifact's name, the first
/// such asset is asked to be deleted, by its id.
pub proof fn duplicate_is_deleted(
    pre: PublisherModel,
    code: u32,
    body: Seq<char>,
    list: Seq<AssetModel>,
    i: int,
)
    requires
        pre.stage == Stage::ListingAssets,
        success(code),
        assets_of_text(body) == Some(list),
        0 <= i < list.len(),
        list[i].name == pre.filename,
        forall|j: int| 0 <= j < i ==> list[j].name != pre.filename,
    ensures
        next(pre, EventModel::Response { code, body }) == (
            at(pre, Stage::Deleting),
            send(Method::Delete, asset_address(pre.repo, list[i].id), PayloadModel::Empty),
        ),
{
    let names = asset_names(list);
    assert(is_first_named(names, pre.filename, i));
    let k = choose|k: int| is_first_named(names, pre.filename, k);
    first_named_unique(names, pre.filename, i, k);
}

/// A deletion is asked for in one situation only: the list of assets came,
/// well formed and with a success status, and holds an asset that has the
/// artifact's name. So none is asked for where no asset has that name, and
/// none follows a deletion.
pub proof fn delete_only_for_duplicate(pre: PublisherModel, event: EventModel)
    ensures
        is_delete(next(pre, event).1) <==> {
            &&& pre.stage == Stage::ListingAssets
            &&& event matches EventModel::Response { code, body }
            &&& success(code)
            &&& assets_of_text(body) matches Some(list)
            &&& asset_names(list).contains(pre.filename)
        },
{
    if pre.stage == Stage::ListingAssets {
        if let EventModel::Response { code, body } = event {
            if let Some(list) = assets_of_text(body) {
                first_named_found(asset_names(list), pre.filename);
            }
        }
    }
}

/// An upload starts only after the assets were listed or one was deleted, so
/// once for each regular file.
pub proof fn upload_only_after_listing(pre: PublisherModel, event: EventModel)
    requires
        is_upload(next(pre, event).1),
    ensures
        pre.stage == Stage::ListingAssets || pre.stage == Stage::Deleting,
        event is Response,
        next(pre, event).0.stage == Stage::Uploading,
{
}

/// A response whose status code is below 200 or above 299 ends the run,
/// whatever its body, with that code as the reason.
pub proof fn failed_response_ends_the_run(pre: PublisherModel, code: u32, body: Seq<char>)
    requires
        awaits_response(pre.stage),
        !success(code),
    ensures
        next(pre, EventModel::Response { code, body }) == halted(pre, Failure::Status(code)),
{
}

/// A run ends over a status code only where a response came with that code
/// and the code is no success: a code from 200 to 299 never ends it so.
pub proof fn status_failure_only_for_failed_response(
    pre: PublisherModel,
    event: EventModel,
    code: u32,
)
    requires
        next(pre, event).1 == ActionModel::Abort(Failure::Status(code)),
    ensures
        awaits_response(pre.stage),
        event matches EventModel::Response { code: c, body } && c == code,
        !success(code),
{
}

/// A new run is well formed, and every event leaves a well-formed run well
/// formed.
pub proof fn run_stays_well_formed(
    repo: Seq<char>,
    host: Seq<char>,
    suffix: Seq<char>,
    pre: PublisherModel,
    event: EventModel,
)
    ensures
        well_formed(initial(repo, host, suffix)),
        well_formed(pre) ==> well_formed(next(pre, event).0),
{
}

/// In a well-formed run, an event of the kind that the stage waits for is
/// never refused as unexpected.
pub proof fn awaited_event_is_accepted(pre: PublisherModel, event: EventModel)
    requires
        well_formed(pre),
        next(pre, event).1 == ActionModel::Abort(Failure::Unexpected),
    ensures
        match pre.stage {
            Stage::Start => !(event is Begin),
            Stage::ReadingCommit => !(event is Commit),
            Stage::Idle => !(event is Entry) && !(event is NoMoreEntries),
            Stage::Finished | Stage::Failed => true,
            _ => !(event is Response),
        },
{
}

/// The run never changes the repository, the host triple or the suffix that
/// it was made for.
pub proof fn settings_stay(pre: PublisherModel, event: EventModel)
    ensures
        next(pre, event).0.repo == pre.repo,
        next(pre, event).0.host == pre.host,
        next(pre, event).0.suffix == pre.suffix,
{
}

/// A run that has ended stays ended: every further event is refused.
pub proof fn ended_run_stays_ended(pre: PublisherModel, event: EventModel)
    requires
        pre.stage == Stage::Finished || pre.stage == Stage::Failed,
    ensures
        next(pre, event) == halted(pre, Failure::Unexpected),
{
}

} // verus!
