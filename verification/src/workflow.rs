//! The publishing run as a machine: each outcome that the caller reports is
//! answered with the next thing to do.
//!
//! The run finds the release named "master" or creates it, points it at the
//! current commit and publishes it, and then, for each artifact, removes the
//! asset that has the artifact's name, if there is one, and uploads the
//! artifact.

use crate::release::{
    asset_names, asset_of_text, assets_of_text, decode_asset, decode_assets, decode_release,
    decode_releases, find_asset, find_master, first_named, release_name, release_names,
    release_of_text, releases_of_text, Release, ReleaseModel,
};
use crate::json::is_plain;
use crate::request::{
    create_body, create_literal, create_text, update_body, update_plain, update_text, Method,
    Payload, PayloadModel, Request, RequestModel,
};
use crate::status::{is_success, success};
use crate::text::{
    asset_address, asset_filename, asset_name, asset_url, decimal, decimal_text, release_address,
    release_url, releases_address, releases_url, trim, trimmed, upload_address, upload_endpoint,
};
use vstd::prelude::*;
use vstd::string::*;

verus! {

/// Where the run stands.
#[derive(Clone, Copy, Debug, PartialEq, Eq, Structural)]
pub enum Stage {
    /// Nothing was done yet.
    Start,
    /// The list of releases was asked for.
    ListingReleases,
    /// The release was asked to be created.
    Creating,
    /// The current commit was asked for.
    ReadingCommit,
    /// The release was asked to be updated.
    Updating,
    /// The next entry of the artifact directory was asked for.
    Idle,
    /// The list of assets was asked for.
    ListingAssets,
    /// An asset was asked to be deleted.
    Deleting,
    /// An artifact is being uploaded.
    Uploading,
    /// Every artifact was uploaded.
    Finished,
    /// The run was given up.
    Failed,
}

/// Why a run was given up.
#[derive(Clone, Copy, Debug, PartialEq, Eq, Structural)]
pub enum Failure {
    /// A response came with this status code, which is no success.
    Status(u32),
    /// A response body did not describe what was asked for.
    Decode,
    /// The release's upload URL holds no `{`.
    Template,
    /// The event does not answer what the run was waiting for.
    Unexpected,
}

/// The name of the operation that a stage waits for.
pub open spec fn operation(stage: Stage) -> Seq<char> {
    match stage {
        Stage::ListingReleases => "listing the releases"@,
        Stage::Creating => "creating the release"@,
        Stage::Updating => "updating the release"@,
        Stage::ListingAssets => "listing the assets"@,
        Stage::Deleting => "deleting the previous asset"@,
        Stage::Uploading => "uploading the asset"@,
        _ => "publishing"@,
    }
}

/// What is to be said of a failure by itself. For a status code and for a
/// body that could not be read, it ends with the response body.
pub open spec fn reason(why: Failure, body: Seq<char>) -> Seq<char> {
    match why {
        Failure::Status(code) => "failed to get 200: status "@ + decimal(code as nat) + ", body "@
            + body,
        Failure::Decode => "failed to decode the response: "@ + body,
        Failure::Template => "the release's upload URL holds no template"@,
        Failure::Unexpected => "the event does not answer the last action"@,
    }
}

/// The line that tells why a run was given up: the operation that failed, a
/// colon, and the reason.
pub open spec fn diagnostic(stage: Stage, why: Failure, body: Seq<char>) -> Seq<char> {
    operation(stage) + ": "@ + reason(why, body)
}

/// Writes the line that tells why a run was given up; `stage` is the stage
/// in which the run was when the failing event came, and `body` is the body
/// of the response that came last.
pub fn describe(stage: Stage, why: Failure, body: &str) -> (line: String)
    ensures
        line@ == diagnostic(stage, why, body@),
{
    let name = match stage {
        Stage::ListingReleases => "listing the releases",
        Stage::Creating => "creating the release",
        Stage::Updating => "updating the release",
        Stage::ListingAssets => "listing the assets",
        Stage::Deleting => "deleting the previous asset",
        Stage::Uploading => "uploading the asset",
        _ => "publishing",
    };
    let start = String::from_str(name).concat(": ");
    let line = match why {
        Failure::Status(code) => {
            let number = decimal_text(code as u64);
            start.concat("failed to get 200: status ").concat(number.as_str()).concat(
                ", body ",
            ).concat(body)
        },
        Failure::Decode => start.concat("failed to decode the response: ").concat(body),
        Failure::Template => start.concat("the release's upload URL holds no template"),
        Failure::Unexpected => start.concat("the event does not answer the last action"),
    };
    assert(line@ =~= diagnostic(stage, why, body@));
    line
}

/// What the caller reports.
#[derive(Debug)]
pub enum Event {
    /// The run is to start.
    Begin,
    /// The response to the request that was sent last.
    Response { code: u32, body: String },
    /// What the version-control system printed for the current commit.
    Commit(String),
    /// The next entry of the artifact directory: the stem of its file name,
    /// whether it is a regular file, and its size in bytes.
    Entry { stem: String, regular: bool, length: u64 },
    /// The artifact directory has no further entry.
    NoMoreEntries,
}

/// What an `Event` holds.
pub enum EventModel {
    Begin,
    Response { code: u32, body: Seq<char> },
    Commit(Seq<char>),
    Entry { stem: Seq<char>, regular: bool, length: u64 },
    NoMoreEntries,
}

impl View for Event {
    type V = EventModel;

    open spec fn view(&self) -> EventModel {
        match self {
            Event::Begin => EventModel::Begin,
            Event::Response { code, body } => EventModel::Response { code: *code, body: body@ },
            Event::Commit(raw) => EventModel::Commit(raw@),
            Event::Entry { stem, regular, length } => EventModel::Entry {
                stem: stem@,
                regular: *regular,
                length: *length,
            },
            Event::NoMoreEntries => EventModel::NoMoreEntries,
        }
    }
}

/// What the caller is to do next.
#[derive(Debug)]
pub enum Action {
    /// Send this request and report the response.
    Send(Request),
    /// Ask the version-control system for the current commit and report it.
    QueryCommit,
    /// Report the next entry of the artifact directory.
    NextEntry,
    /// Stop: the run is done.
    Finish,
    /// Stop: the run failed.
    Abort(Failure),
}

/// What an `Action` holds.
pub enum ActionModel {
    Send(RequestModel),
    QueryCommit,
    NextEntry,
    Finish,
    Abort(Failure),
}

impl View for Action {
    type V = ActionModel;

    open spec fn view(&self) -> ActionModel {
        match self {
            Action::Send(request) => ActionModel::Send(request@),
            Action::QueryCommit => ActionModel::QueryCommit,
            Action::NextEntry => ActionModel::NextEntry,
            Action::Finish => ActionModel::Finish,
            Action::Abort(why) => ActionModel::Abort(*why),
        }
    }
}

/// The state of a publishing run.
#[derive(Debug)]
pub struct Publisher {
    /// The repository, as `owner/name`.
    pub repo: String,
    /// The host triple of the build.
    pub host: String,
    /// The platform's executable suffix.
    pub suffix: String,
    pub stage: Stage,
    /// Whether the next listing of assets must go out on a new connection.
    pub fresh: bool,
    /// The release, once it is known.
    pub release: Option<Release>,
    /// The asset name of the artifact at hand.
    pub filename: String,
    /// The size in bytes of the artifact at hand.
    pub length: u64,
}

/// What a `Publisher` holds.
pub struct PublisherModel {
    pub repo: Seq<char>,
    pub host: Seq<char>,
    pub suffix: Seq<char>,
    pub stage: Stage,
    pub fresh: bool,
    pub release: Option<ReleaseModel>,
    pub filename: Seq<char>,
    pub length: u64,
}

impl View for Publisher {
    type V = PublisherModel;

    open spec fn view(&self) -> PublisherModel {
        PublisherModel {
            repo: self.repo@,
            host: self.host@,
            suffix: self.suffix@,
            stage: self.stage,
            fresh: self.fresh,
            release: match self.release {
                Some(r) => Some(r@),
                None => None,
            },
            filename: self.filename@,
            length: self.length,
        }
    }
}

/// A run that has not started.
pub open spec fn initial(repo: Seq<char>, host: Seq<char>, suffix: Seq<char>) -> PublisherModel {
    PublisherModel {
        repo,
        host,
        suffix,
        stage: Stage::Start,
        fresh: false,
        release: None,
        filename: Seq::empty(),
        length: 0,
    }
}

/// Whether a run's state hangs together: from the moment the commit is asked
/// for until the run ends, the release is known.
pub open spec fn well_formed(run: PublisherModel) -> bool {
    match run.stage {
        Stage::ReadingCommit | Stage::Updating | Stage::Idle | Stage::ListingAssets
        | Stage::Deleting | Stage::Uploading | Stage::Finished => run.release.is_some(),
        _ => true,
    }
}

/// A request with this method, address and body, on the connection in use.
pub open spec fn send(method: Method, url: Seq<char>, payload: PayloadModel) -> ActionModel {
    ActionModel::Send(RequestModel { method, url, payload, fresh: false })
}

/// The run given up.
pub open spec fn halted(pre: PublisherModel, why: Failure) -> (PublisherModel, ActionModel) {
    (PublisherModel { stage: Stage::Failed, ..pre }, ActionModel::Abort(why))
}

/// The run moved to another stage.
pub open spec fn at(pre: PublisherModel, stage: Stage) -> PublisherModel {
    PublisherModel { stage, ..pre }
}

/// The release is known: the commit is asked for next.
pub open spec fn resolved(pre: PublisherModel, release: ReleaseModel) -> (
    PublisherModel,
    ActionModel,
) {
    (
        PublisherModel { stage: Stage::ReadingCommit, release: Some(release), ..pre },
        ActionModel::QueryCommit,
    )
}

/// The start of a run: the list of releases is asked for.
pub open spec fn after_begin(pre: PublisherModel) -> (PublisherModel, ActionModel) {
    (
        at(pre, Stage::ListingReleases),
        send(Method::Get, releases_address(pre.repo), PayloadModel::Empty),
    )
}

/// The answer to the list of releases: the first release named "master" is
/// taken; where there is none, one is asked to be created.
pub open spec fn after_release_list(pre: PublisherModel, code: u32, body: Seq<char>) -> (
    PublisherModel,
    ActionModel,
) {
    if !success(code) {
        halted(pre, Failure::Status(code))
    } else {
        match releases_of_text(body) {
            None => halted(pre, Failure::Decode),
            Some(list) => match first_named(release_names(list), release_name()) {
                Some(i) => resolved(pre, list[i]),
                None => (
                    at(pre, Stage::Creating),
                    send(
                        Method::Post,
                        releases_address(pre.repo),
                        PayloadModel::Text(create_text()),
                    ),
                ),
            },
        }
    }
}

/// The answer to the creation: the release that the body describes is taken.
pub open spec fn after_created(pre: PublisherModel, code: u32, body: Seq<char>) -> (
    PublisherModel,
    ActionModel,
) {
    if !success(code) {
        halted(pre, Failure::Status(code))
    } else {
        match release_of_text(body) {
            None => halted(pre, Failure::Decode),
            Some(release) => resolved(pre, release),
        }
    }
}

/// The commit is known: the release is asked to point at it, without the
/// white space around it, and to leave its draft state.
pub open spec fn after_commit(pre: PublisherModel, raw: Seq<char>) -> (
    PublisherModel,
    ActionModel,
) {
    match pre.release {
        None => halted(pre, Failure::Unexpected),
        Some(release) => (
            at(pre, Stage::Updating),
            send(
                Method::Patch,
                release_address(pre.repo, release.id),
                PayloadModel::Text(update_text(trimmed(raw))),
            ),
        ),
    }
}

/// The answer to the update: the artifacts come next, and the first listing
/// of assets goes out on a new connection.
pub open spec fn after_updated(pre: PublisherModel, code: u32, body: Seq<char>) -> (
    PublisherModel,
    ActionModel,
) {
    if !success(code) {
        halted(pre, Failure::Status(code))
    } else if release_of_text(body).is_none() {
        halted(pre, Failure::Decode)
    } else {
        (PublisherModel { stage: Stage::Idle, fresh: true, ..pre }, ActionModel::NextEntry)
    }
}

/// An entry of the artifact directory: what is no regular file is passed
/// over; for a regular file the assets of the release are listed.
pub open spec fn after_entry(pre: PublisherModel, stem: Seq<char>, regular: bool, length: u64) -> (
    PublisherModel,
    ActionModel,
) {
    if !regular {
        (pre, ActionModel::NextEntry)
    } else {
        match pre.release {
            None => halted(pre, Failure::Unexpected),
            Some(release) => (
                PublisherModel {
                    stage: Stage::ListingAssets,
                    fresh: false,
                    filename: asset_name(stem, pre.host, pre.suffix),
                    length,
                    ..pre
                },
                ActionModel::Send(
                    RequestModel {
                        method: Method::Get,
                        url: release.assets_url,
                        payload: PayloadModel::Empty,
                        fresh: pre.fresh,
                    },
                ),
            ),
        }
    }
}

/// The upload of the artifact at hand.
pub open spec fn upload_started(pre: PublisherModel) -> (PublisherModel, ActionModel) {
    match pre.release {
        None => halted(pre, Failure::Unexpected),
        Some(release) => match upload_address(release.upload_url, pre.filename) {
            None => halted(pre, Failure::Template),
            Some(url) => (
                at(pre, Stage::Uploading),
                send(Method::Post, url, PayloadModel::File(pre.length)),
            ),
        },
    }
}

/// The answer to the list of assets: the first asset that has the artifact's
/// name is asked to be deleted; where there is none, the upload starts.
pub open spec fn after_asset_list(pre: PublisherModel, code: u32, body: Seq<char>) -> (
    PublisherModel,
    ActionModel,
) {
    if !success(code) {
        halted(pre, Failure::Status(code))
    } else {
        match assets_of_text(body) {
            None => halted(pre, Failure::Decode),
            Some(list) => match first_named(asset_names(list), pre.filename) {
                Some(i) => (
                    at(pre, Stage::Deleting),
                    send(
                        Method::Delete,
                        asset_address(pre.repo, list[i].id),
                        PayloadModel::Empty,
                    ),
                ),
                None => upload_started(pre),
            },
        }
    }
}

/// The answer to the deletion: the upload starts.
pub open spec fn after_deleted(pre: PublisherModel, code: u32) -> (PublisherModel, ActionModel) {
    if !success(code) {
        halted(pre, Failure::Status(code))
    } else {
        upload_started(pre)
    }
}

/// The answer to the upload: the body must describe the new asset; the next
/// entry is asked for.
pub open spec fn after_uploaded(pre: PublisherModel, code: u32, body: Seq<char>) -> (
    PublisherModel,
    ActionModel,
) {
    if !success(code) {
        halted(pre, Failure::Status(code))
    } else if asset_of_text(body).is_none() {
        halted(pre, Failure::Decode)
    } else {
        (at(pre, Stage::Idle), ActionModel::NextEntry)
    }
}

/// The whole machine: the state after an event, and what is to be done next.
/// An event that does not answer what the run was waiting for ends the run.
pub open spec fn next(pre: PublisherModel, event: EventModel) -> (PublisherModel, ActionModel) {
    match (pre.stage, event) {
        (Stage::Start, EventModel::Begin) => after_begin(pre),
        (Stage::ListingReleases, EventModel::Response { code, body }) => after_release_list(
            pre,
            code,
            body,
        ),
        (Stage::Creating, EventModel::Response { code, body }) => after_created(pre, code, body),
        (Stage::ReadingCommit, EventModel::Commit(raw)) => after_commit(pre, raw),
        (Stage::Updating, EventModel::Response { code, body }) => after_updated(pre, code, body),
        (Stage::Idle, EventModel::Entry { stem, regular, length }) => after_entry(
            pre,
            stem,
            regular,
            length,
        ),
        (Stage::Idle, EventModel::NoMoreEntries) => (at(pre, Stage::Finished), ActionModel::Finish),
        (Stage::ListingAssets, EventModel::Response { code, body }) => after_asset_list(
            pre,
            code,
            body,
        ),
        (Stage::Deleting, EventModel::Response { code, body }) => after_deleted(pre, code),
        (Stage::Uploading, EventModel::Response { code, body }) => after_uploaded(pre, code, body),
        _ => halted(pre, Failure::Unexpected),
    }
}

impl Publisher {
    /// A run for this repository and host that has not started.
    pub fn new(repo: &str, host: &str, suffix: &str) -> (run: Publisher)
        ensures
            run@ == initial(repo@, host@, suffix@),
    {
        Publisher {
            repo: String::from_str(repo),
            host: String::from_str(host),
            suffix: String::from_str(suffix),
            stage: Stage::Start,
            fresh: false,
            release: None,
            filename: String::new(),
            length: 0,
        }
    }

    /// Whether the run has ended, well or badly.
    pub fn is_over(&self) -> (over: bool)
        ensures
            over == (self@.stage == Stage::Finished || self@.stage == Stage::Failed),
    {
        match self.stage {
            Stage::Finished => true,
            Stage::Failed => true,
            _ => false,
        }
    }

    fn halt(&mut self, why: Failure) -> (action: Action)
        ensures
            (final(self)@, action@) == halted(old(self)@, why),
    {
        self.stage = Stage::Failed;
        Action::Abort(why)
    }

    fn resolve(&mut self, release: Release) -> (action: Action)
        ensures
            (final(self)@, action@) == resolved(old(self)@, release@),
    {
        self.release = Some(release);
        self.stage = Stage::ReadingCommit;
        Action::QueryCommit
    }

    fn on_begin(&mut self) -> (action: Action)
        ensures
            (final(self)@, action@) == after_begin(old(self)@),
    {
        let url = releases_url(self.repo.as_str());
        self.stage = Stage::ListingReleases;
        Action::Send(Request { method: Method::Get, url, payload: Payload::Empty, fresh: false })
    }

    fn on_release_list(&mut self, code: u32, body: &str) -> (action: Action)
        ensures
            (final(self)@, action@) == after_release_list(old(self)@, code, body@),
            action@ matches ActionModel::Send(request) ==> request.payload == PayloadModel::Text(
                create_literal(),
            ),
    {
        if !is_success(code) {
            return self.halt(Failure::Status(code));
        }
        let mut list = match decode_releases(body) {
            Some(list) => list,
            None => { return self.halt(Failure::Decode); },
        };
        match find_master(&list) {
            Some(i) => {
                let release = list.remove(i);
                self.resolve(release)
            },
            None => {
                let url = releases_url(self.repo.as_str());
                let text = create_body();
                self.stage = Stage::Creating;
                Action::Send(
                    Request { method: Method::Post, url, payload: Payload::Text(text), fresh: false },
                )
            },
        }
    }

    fn on_created(&mut self, code: u32, body: &str) -> (action: Action)
        ensures
            (final(self)@, action@) == after_created(old(self)@, code, body@),
    {
        if !is_success(code) {
            return self.halt(Failure::Status(code));
        }
        match decode_release(body) {
            Some(release) => self.resolve(release),
            None => self.halt(Failure::Decode),
        }
    }

    fn on_commit(&mut self, raw: &str) -> (action: Action)
        ensures
            (final(self)@, action@) == after_commit(old(self)@, raw@),
            is_plain(trimmed(raw@)) ==> (action@ matches ActionModel::Send(request)
                ==> request.payload == PayloadModel::Text(update_plain(trimmed(raw@), false))),
    {
        let id = match &self.release {
            Some(release) => release.id,
            None => { return self.halt(Failure::Unexpected); },
        };
        let commit = trim(raw);
        let url = release_url(self.repo.as_str(), id);
        let text = update_body(commit.as_str());
        self.stage = Stage::Updating;
        Action::Send(
            Request { method: Method::Patch, url, payload: Payload::Text(text), fresh: false },
        )
    }

    fn on_updated(&mut self, code: u32, body: &str) -> (action: Action)
        ensures
            (final(self)@, action@) == after_updated(old(self)@, code, body@),
    {
        if !is_success(code) {
            return self.halt(Failure::Status(code));
        }
        if decode_release(body).is_none() {
            return self.halt(Failure::Decode);
        }
        self.stage = Stage::Idle;
        self.fresh = true;
        Action::NextEntry
    }

    fn on_entry(&mut self, stem: &str, regular: bool, length: u64) -> (action: Action)
        ensures
            (final(self)@, action@) == after_entry(old(self)@, stem@, regular, length),
    {
        if !regular {
            return Action::NextEntry;
        }
        let url = match &self.release {
            Some(release) => release.assets_url.clone(),
            None => { return self.halt(Failure::Unexpected); },
        };
        let fresh = self.fresh;
        self.filename = asset_filename(stem, self.host.as_str(), self.suffix.as_str());
        self.length = length;
        self.fresh = false;
        self.stage = Stage::ListingAssets;
        Action::Send(Request { method: Method::Get, url, payload: Payload::Empty, fresh })
    }

    fn start_upload(&mut self) -> (action: Action)
        ensures
            (final(self)@, action@) == upload_started(old(self)@),
    {
        let target = match &self.release {
            Some(release) => upload_endpoint(release.upload_url.as_str(), self.filename.as_str()),
            None => { return self.halt(Failure::Unexpected); },
        };
        match target {
            Some(url) => {
                self.stage = Stage::Uploading;
                Action::Send(
                    Request {
                        method: Method::Post,
                        url,
                        payload: Payload::File(self.length),
                        fresh: false,
                    },
                )
            },
            None => self.halt(Failure::Template),
        }
    }

    fn on_asset_list(&mut self, code: u32, body: &str) -> (action: Action)
        ensures
            (final(self)@, action@) == after_asset_list(old(self)@, code, body@),
    {
        if !is_success(code) {
            return self.halt(Failure::Status(code));
        }
        let list = match decode_assets(body) {
            Some(list) => list,
            None => { return self.halt(Failure::Decode); },
        };
        match find_asset(&list, &self.filename) {
            Some(i) => {
                let url = asset_url(self.repo.as_str(), list[i].id);
                self.stage = Stage::Deleting;
                Action::Send(
                    Request { method: Method::Delete, url, payload: Payload::Empty, fresh: false },
                )
            },
            None => self.start_upload(),
        }
    }

    fn on_deleted(&mut self, code: u32) -> (action: Action)
        ensures
            (final(self)@, action@) == after_deleted(old(self)@, code),
    {
        if !is_success(code) {
            return self.halt(Failure::Status(code));
        }
        self.start_upload()
    }

    fn on_uploaded(&mut self, code: u32, body: &str) -> (action: Action)
        ensures
            (final(self)@, action@) == after_uploaded(old(self)@, code, body@),
    {
        if !is_success(code) {
            return self.halt(Failure::Status(code));
        }
        if decode_asset(body).is_none() {
            return self.halt(Failure::Decode);
        }
        self.stage = Stage::Idle;
        Action::NextEntry
    }

    /// Takes in what the caller reports and says what is to be done next.
    /// The body that creates the release is fixed letter by letter, and so is
    /// the body that publishes a commit in which nothing needs an escape.
    pub fn step(&mut self, event: Event) -> (action: Action)
        ensures
            (final(self)@, action@) == next(old(self)@, event@),
            old(self)@.stage == Stage::ListingReleases ==> (action@ matches ActionModel::Send(
                request,
            ) ==> request.payload == PayloadModel::Text(create_literal())),
            old(self)@.stage == Stage::ReadingCommit ==> (event@ matches EventModel::Commit(raw)
                ==> is_plain(trimmed(raw)) ==> (action@ matches ActionModel::Send(request)
                ==> request.payload == PayloadModel::Text(update_plain(trimmed(raw), false)))),
    {
        let stage = self.stage;
        match (stage, event) {
            (Stage::Start, Event::Begin) => self.on_begin(),
            (Stage::ListingReleases, Event::Response { code, body }) => self.on_release_list(
                code,
                body.as_str(),
            ),
            (Stage::Creating, Event::Response { code, body }) => self.on_created(
                code,
                body.as_str(),
            ),
            (Stage::ReadingCommit, Event::Commit(raw)) => self.on_commit(raw.as_str()),
            (Stage::Updating, Event::Response { code, body }) => self.on_updated(
                code,
                body.as_str(),
            ),
            (Stage::Idle, Event::Entry { stem, regular, length }) => self.on_entry(
                stem.as_str(),
                regular,
                length,
            ),
            (Stage::Idle, Event::NoMoreEntries) => {
                self.stage = Stage::Finished;
                Action::Finish
            },
            (Stage::ListingAssets, Event::Response { code, body }) => self.on_asset_list(
                code,
                body.as_str(),
            ),
            (Stage::Deleting, Event::Response { code, body }) => self.on_deleted(code),
            (Stage::Uploading, Event::Response { code, body }) => self.on_uploaded(
                code,
                body.as_str(),
            ),
            _ => self.halt(Failure::Unexpected),
        }
    }
}

} // verus!
