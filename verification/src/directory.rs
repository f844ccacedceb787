//! Whole runs: a run over a list of events, and what holds of a run over an
//! artifact directory. Where every reply is a success and well formed, each
//! regular file is listed for once and uploaded once, under its own name, and
//! nothing is asked for on account of any other entry.

use crate::release::{asset_names, asset_of_text, assets_of_text, first_named};
use crate::request::{Method, PayloadModel, RequestModel};
use crate::status::success;
use crate::text::{asset_address, asset_name, template_start, upload_address};
use crate::workflow::{
    next, send, Action, ActionModel, Event, EventModel, Publisher, PublisherModel, Stage,
};
use vstd::prelude::*;

verus! {

/// An entry of the artifact directory.
pub struct EntryModel {
    pub stem: Seq<char>,
    pub regular: bool,
    pub length: u64,
}

/// A reply of the server.
pub struct ReplyModel {
    pub code: u32,
    pub body: Seq<char>,
}

/// The replies that the server has ready for one file: to the listing of the
/// assets, to a deletion if one is asked for, and to the upload.
pub struct Replies {
    pub listing: ReplyModel,
    pub deletion: ReplyModel,
    pub upload: ReplyModel,
}

/// The run after a list of events, and the actions that it asked for, in
/// their order.
pub open spec fn run(pre: PublisherModel, events: Seq<EventModel>) -> (
    PublisherModel,
    Seq<ActionModel>,
)
    decreases events.len(),
{
    if events.len() == 0 {
        (pre, Seq::empty())
    } else {
        let (mid, actions) = run(pre, events.drop_last());
        let (post, action) = next(mid, events.last());
        (post, actions.push(action))
    }
}

/// What a list of events holds, one by one.
pub open spec fn event_models(events: Seq<Event>) -> Seq<EventModel> {
    Seq::new(events.len(), |i: int| events[i]@)
}

/// What a list of actions holds, one by one.
pub open spec fn action_models(actions: Seq<Action>) -> Seq<ActionModel> {
    Seq::new(actions.len(), |i: int| actions[i]@)
}

/// A run over one more event is the run so far and one step.
pub proof fn run_one_more(pre: PublisherModel, events: Seq<EventModel>, event: EventModel)
    ensures
        run(pre, events.push(event)) == ({
            let (mid, actions) = run(pre, events);
            let (post, action) = next(mid, event);
            (post, actions.push(action))
        }),
{
    assert(events.push(event).drop_last() =~= events);
}

/// Carries a run over a list of events that were recorded beforehand, and
/// gives the actions that it asks for, in their order.
pub fn publish(run: &mut Publisher, events: Vec<Event>) -> (actions: Vec<Action>)
    ensures
        (final(run)@, action_models(actions@)) == self::run(
            old(run)@,
            event_models(events@),
        ),
{
    let mut rest = events;
    let mut actions: Vec<Action> = Vec::new();
    let ghost all = event_models(events@);
    let ghost done: int = 0;
    assert(all.take(0) =~= Seq::<EventModel>::empty());
    assert(action_models(actions@) =~= Seq::<ActionModel>::empty());
    while rest.len() > 0
        invariant
            all == event_models(events@),
            0 <= done <= all.len(),
            rest@.len() == all.len() - done,
            event_models(rest@) == all.skip(done),
            self::run(old(run)@, all.take(done)) == (run@, action_models(actions@)),
        decreases rest.len(),
    {
        let ghost before = action_models(actions@);
        let ghost left = rest@;
        let event = rest.remove(0);
        proof {
            assert(event@ == event_models(left)[0]);
            assert(all.skip(done)[0] == all[done]);
            assert(event@ == all[done]);
            assert(all.take(done + 1) =~= all.take(done).push(all[done]));
            run_one_more(old(run)@, all.take(done), all[done]);
            assert(event_models(rest@) =~= all.skip(done + 1)) by {
                assert forall|i: int| 0 <= i < rest@.len() implies event_models(rest@)[i]
                    == all.skip(done + 1)[i] by {
                    assert(rest@[i] == left[i + 1]);
                    assert(event_models(left)[i + 1] == all.skip(done)[i + 1]);
                }
            }
        }
        let action = run.step(event);
        actions.push(action);
        proof {
            assert(action_models(actions@) =~= before.push(action@));
            done = done + 1;
        }
    }
    assert(all.take(done) =~= all);
    actions
}

/// The event that reports a reply.
pub open spec fn answer(reply: ReplyModel) -> EventModel {
    EventModel::Response { code: reply.code, body: reply.body }
}

/// Whether the replies for a file are successes and well formed.
pub open spec fn all_well(replies: Replies) -> bool {
    &&& success(replies.listing.code)
    &&& success(replies.deletion.code)
    &&& success(replies.upload.code)
    &&& assets_of_text(replies.listing.body).is_some()
    &&& asset_of_text(replies.upload.body).is_some()
}

/// Whether a run waits for an entry, with a release whose upload URL has a
/// template.
pub open spec fn ready(pre: PublisherModel) -> bool {
    &&& pre.stage == Stage::Idle
    &&& pre.release matches Some(release)
    &&& template_start(release.upload_url).is_some()
}

/// The name under which an entry is uploaded.
pub open spec fn name_of(pre: PublisherModel, entry: EntryModel) -> Seq<char> {
    asset_name(entry.stem, pre.host, pre.suffix)
}

/// The id of the first listed asset that has the entry's name.
pub open spec fn duplicate_id(pre: PublisherModel, entry: EntryModel, replies: Replies) -> Option<
    u64,
> {
    match assets_of_text(replies.listing.body) {
        Some(list) => match first_named(asset_names(list), name_of(pre, entry)) {
            Some(i) => Some(list[i].id),
            None => None,
        },
        None => None,
    }
}

/// What the caller reports on account of one entry: the entry, and for a
/// regular file the replies to the requests that it leads to.
pub open spec fn file_events(pre: PublisherModel, entry: EntryModel, replies: Replies) -> Seq<
    EventModel,
> {
    let first = EventModel::Entry { stem: entry.stem, regular: entry.regular, length: entry.length };
    if !entry.regular {
        seq![first]
    } else if duplicate_id(pre, entry, replies).is_some() {
        seq![first, answer(replies.listing), answer(replies.deletion), answer(replies.upload)]
    } else {
        seq![first, answer(replies.listing), answer(replies.upload)]
    }
}

/// The request that uploads a regular file.
pub open spec fn upload_of(pre: PublisherModel, entry: EntryModel) -> RequestModel {
    RequestModel {
        method: Method::Post,
        url: upload_address(pre.release.unwrap().upload_url, name_of(pre, entry)).unwrap(),
        payload: PayloadModel::File(entry.length),
        fresh: false,
    }
}

/// The request that lists the assets.
pub open spec fn listing_of(pre: PublisherModel) -> RequestModel {
    RequestModel {
        method: Method::Get,
        url: pre.release.unwrap().assets_url,
        payload: PayloadModel::Empty,
        fresh: pre.fresh,
    }
}

/// What is asked for on account of one entry.
pub open spec fn file_actions(pre: PublisherModel, entry: EntryModel, replies: Replies) -> Seq<
    ActionModel,
> {
    let listing = ActionModel::Send(listing_of(pre));
    let upload = ActionModel::Send(upload_of(pre, entry));
    if !entry.regular {
        seq![ActionModel::NextEntry]
    } else {
        match duplicate_id(pre, entry, replies) {
            Some(id) => seq![
                listing,
                send(Method::Delete, asset_address(pre.repo, id), PayloadModel::Empty),
                upload,
                ActionModel::NextEntry,
            ],
            None => seq![listing, upload, ActionModel::NextEntry],
        }
    }
}

/// The run after one entry was dealt with.
pub open spec fn after_file(pre: PublisherModel, entry: EntryModel) -> PublisherModel {
    if entry.regular {
        PublisherModel {
            fresh: false,
            filename: name_of(pre, entry),
            length: entry.length,
            ..pre
        }
    } else {
        pre
    }
}

/// The upload requests among a list of actions, in their order.
pub open spec fn uploads(actions: Seq<ActionModel>) -> Seq<RequestModel>
    decreases actions.len(),
{
    if actions.len() == 0 {
        Seq::empty()
    } else {
        match actions.last() {
            ActionModel::Send(request) => if request.method == Method::Post && request.payload
                is File {
                uploads(actions.drop_last()).push(request)
            } else {
                uploads(actions.drop_last())
            },
            _ => uploads(actions.drop_last()),
        }
    }
}

/// How many requests of a method are among a list of actions.
pub open spec fn count(actions: Seq<ActionModel>, method: Method) -> nat
    decreases actions.len(),
{
    if actions.len() == 0 {
        0
    } else {
        match actions.last() {
            ActionModel::Send(request) => if request.method == method {
                count(actions.drop_last(), method) + 1
            } else {
                count(actions.drop_last(), method)
            },
            _ => count(actions.drop_last(), method),
        }
    }
}

/// What the caller reports over a whole directory.
pub open spec fn directory_events(
    pre: PublisherModel,
    entries: Seq<EntryModel>,
    replies: Seq<Replies>,
) -> Seq<EventModel>
    decreases entries.len(),
{
    if entries.len() == 0 {
        Seq::empty()
    } else {
        directory_events(pre, entries.drop_last(), replies.drop_last()) + file_events(
            pre,
            entries.last(),
            replies.last(),
        )
    }
}

/// The uploads that a directory calls for: one for each regular file, in the
/// order of the entries.
pub open spec fn expected_uploads(pre: PublisherModel, entries: Seq<EntryModel>) -> Seq<
    RequestModel,
>
    decreases entries.len(),
{
    if entries.len() == 0 {
        Seq::empty()
    } else if entries.last().regular {
        expected_uploads(pre, entries.drop_last()).push(upload_of(pre, entries.last()))
    } else {
        expected_uploads(pre, entries.drop_last())
    }
}

/// How many entries are regular files.
pub open spec fn regular_files(entries: Seq<EntryModel>) -> nat
    decreases entries.len(),
{
    if entries.len() == 0 {
        0
    } else if entries.last().regular {
        regular_files(entries.drop_last()) + 1
    } else {
        regular_files(entries.drop_last())
    }
}

/// A run over two lists of events, one after the other, is the run over the
/// first, carried on over the second.
pub proof fn run_in_two_parts(pre: PublisherModel, first: Seq<EventModel>, second: Seq<EventModel>)
    ensures
        run(pre, first + second) == ({
            let (mid, actions) = run(pre, first);
            let (post, more) = run(mid, second);
            (post, actions + more)
        }),
    decreases second.len(),
{
    let (mid, actions) = run(pre, first);
    if second.len() == 0 {
        assert(first + second =~= first);
        assert(actions + Seq::<ActionModel>::empty() =~= actions);
    } else {
        assert((first + second).drop_last() =~= first + second.drop_last());
        assert((first + second).last() == second.last());
        run_in_two_parts(pre, first, second.drop_last());
        let (before, some) = run(mid, second.drop_last());
        let (post, action) = next(before, second.last());
        assert((actions + some).push(action) =~= actions + some.push(action));
    }
}

/// The uploads and the requests of a method in two lists of actions are
/// those of the first and those of the second.
pub proof fn actions_in_two_parts(
    first: Seq<ActionModel>,
    second: Seq<ActionModel>,
    method: Method,
)
    ensures
        uploads(first + second) == uploads(first) + uploads(second),
        count(first + second, method) == count(first, method) + count(second, method),
    decreases second.len(),
{
    if second.len() == 0 {
        assert(first + second =~= first);
        assert(uploads(first) + Seq::<RequestModel>::empty() =~= uploads(first));
    } else {
        assert((first + second).drop_last() =~= first + second.drop_last());
        assert((first + second).last() == second.last());
        actions_in_two_parts(first, second.drop_last(), method);
        match second.last() {
            ActionModel::Send(request) => {
                assert((uploads(first) + uploads(second.drop_last())).push(request) =~= uploads(
                    first,
                ) + uploads(second.drop_last()).push(request));
            },
            _ => {},
        }
    }
}

/// The run while the requests for one file are under way.
pub open spec fn during_file(pre: PublisherModel, entry: EntryModel, stage: Stage) -> PublisherModel {
    PublisherModel { stage, ..after_file(pre, entry) }
}

proof fn entry_step(pre: PublisherModel, entry: EntryModel)
    requires
        ready(pre),
    ensures
        next(
            pre,
            EventModel::Entry { stem: entry.stem, regular: entry.regular, length: entry.length },
        ) == (if entry.regular {
            (during_file(pre, entry, Stage::ListingAssets), ActionModel::Send(listing_of(pre)))
        } else {
            (pre, ActionModel::NextEntry)
        }),
{
}

proof fn upload_step(pre: PublisherModel, entry: EntryModel, from: Stage)
    requires
        ready(pre),
        entry.regular,
    ensures
        crate::workflow::upload_started(during_file(pre, entry, from)) == (
            during_file(pre, entry, Stage::Uploading),
            ActionModel::Send(upload_of(pre, entry)),
        ),
{
}

proof fn listed_step(pre: PublisherModel, entry: EntryModel, replies: Replies)
    requires
        ready(pre),
        all_well(replies),
        entry.regular,
    ensures
        next(during_file(pre, entry, Stage::ListingAssets), answer(replies.listing)) == (
            match duplicate_id(pre, entry, replies) {
                Some(id) => (
                    during_file(pre, entry, Stage::Deleting),
                    send(Method::Delete, asset_address(pre.repo, id), PayloadModel::Empty),
                ),
                None => (
                    during_file(pre, entry, Stage::Uploading),
                    ActionModel::Send(upload_of(pre, entry)),
                ),
            }
        ),
{
    upload_step(pre, entry, Stage::ListingAssets);
}

proof fn deleted_step(pre: PublisherModel, entry: EntryModel, replies: Replies)
    requires
        ready(pre),
        all_well(replies),
        entry.regular,
    ensures
        next(during_file(pre, entry, Stage::Deleting), answer(replies.deletion)) == (
            during_file(pre, entry, Stage::Uploading),
            ActionModel::Send(upload_of(pre, entry)),
        ),
{
    upload_step(pre, entry, Stage::Deleting);
}

proof fn uploaded_step(pre: PublisherModel, entry: EntryModel, replies: Replies)
    requires
        ready(pre),
        all_well(replies),
        entry.regular,
    ensures
        next(during_file(pre, entry, Stage::Uploading), answer(replies.upload)) == (
            after_file(pre, entry),
            ActionModel::NextEntry,
        ),
{
}

/// One entry, with good replies: a regular file leads to the listing of the
/// assets, to the deletion of the asset that has its name if there is one,
/// and to its upload, in this order and nothing else; any other entry leads
/// to nothing. The run then waits for the next entry.
pub proof fn file_is_uploaded_once(pre: PublisherModel, entry: EntryModel, replies: Replies)
    requires
        ready(pre),
        all_well(replies),
    ensures
        run(pre, file_events(pre, entry, replies)) == (
            after_file(pre, entry),
            file_actions(pre, entry, replies),
        ),
        ready(after_file(pre, entry)),
{
    let none = Seq::<EventModel>::empty();
    let nothing = Seq::<ActionModel>::empty();
    let first = EventModel::Entry { stem: entry.stem, regular: entry.regular, length: entry.length };
    let l = answer(replies.listing);
    let d = answer(replies.deletion);
    let u = answer(replies.upload);
    let listing = ActionModel::Send(listing_of(pre));
    let upload = ActionModel::Send(upload_of(pre, entry));
    assert(run(pre, none) == (pre, nothing));
    entry_step(pre, entry);
    run_one_more(pre, none, first);
    if !entry.regular {
        assert(file_events(pre, entry, replies) =~= none.push(first));
        assert(file_actions(pre, entry, replies) =~= nothing.push(ActionModel::NextEntry));
    } else {
        listed_step(pre, entry, replies);
        deleted_step(pre, entry, replies);
        uploaded_step(pre, entry, replies);
        run_one_more(pre, none.push(first), l);
        match duplicate_id(pre, entry, replies) {
            Some(id) => {
                let delete = send(Method::Delete, asset_address(pre.repo, id), PayloadModel::Empty);
                run_one_more(pre, none.push(first).push(l), d);
                run_one_more(pre, none.push(first).push(l).push(d), u);
                assert(file_events(pre, entry, replies) =~= none.push(first).push(l).push(d).push(
                    u,
                ));
                assert(file_actions(pre, entry, replies) =~= nothing.push(listing).push(
                    delete,
                ).push(upload).push(ActionModel::NextEntry));
            },
            None => {
                run_one_more(pre, none.push(first).push(l), u);
                assert(file_events(pre, entry, replies) =~= none.push(first).push(l).push(u));
                assert(file_actions(pre, entry, replies) =~= nothing.push(listing).push(
                    upload,
                ).push(ActionModel::NextEntry));
            },
        }
    }
}

/// The actions on account of one entry hold one listing and one upload for a
/// regular file, and none for any other entry.
pub proof fn file_actions_counted(pre: PublisherModel, entry: EntryModel, replies: Replies)
    ensures
        uploads(file_actions(pre, entry, replies)) == (if entry.regular {
            seq![upload_of(pre, entry)]
        } else {
            Seq::empty()
        }),
        count(file_actions(pre, entry, replies), Method::Get) == (if entry.regular {
            1nat
        } else {
            0nat
        }),
{
    reveal_with_fuel(uploads, 6);
    reveal_with_fuel(count, 6);
    let actions = file_actions(pre, entry, replies);
    let listing = ActionModel::Send(listing_of(pre));
    let upload = ActionModel::Send(upload_of(pre, entry));
    if !entry.regular {
        assert(actions.drop_last() =~= Seq::<ActionModel>::empty());
    } else {
        match duplicate_id(pre, entry, replies) {
            Some(id) => {
                let delete = send(Method::Delete, asset_address(pre.repo, id), PayloadModel::Empty);
                assert(actions.drop_last() =~= seq![listing, delete, upload]);
                assert(seq![listing, delete, upload].drop_last() =~= seq![listing, delete]);
                assert(seq![listing, delete].drop_last() =~= seq![listing]);
                assert(seq![listing].drop_last() =~= Seq::<ActionModel>::empty());
                assert(uploads(seq![listing]) =~= Seq::<RequestModel>::empty());
                assert(uploads(seq![listing, delete]) =~= Seq::<RequestModel>::empty());
                assert(uploads(seq![listing, delete, upload]) =~= seq![upload_of(pre, entry)]);
                assert(count(seq![listing], Method::Get) == 1);
                assert(count(seq![listing, delete], Method::Get) == 1);
                assert(count(seq![listing, delete, upload], Method::Get) == 1);
            },
            None => {
                assert(actions.drop_last() =~= seq![listing, upload]);
                assert(seq![listing, upload].drop_last() =~= seq![listing]);
                assert(seq![listing].drop_last() =~= Seq::<ActionModel>::empty());
                assert(uploads(seq![listing]) =~= Seq::<RequestModel>::empty());
                assert(uploads(seq![listing, upload]) =~= seq![upload_of(pre, entry)]);
                assert(count(seq![listing], Method::Get) == 1);
                assert(count(seq![listing, upload], Method::Get) == 1);
            },
        }
    }
}

/// A whole directory, with good replies throughout: the uploads that the run
/// asks for are exactly one for each regular file, in the order of the
/// entries, each under the file's own name and with its length; the assets
/// are listed exactly once for each regular file; and the run ends waiting
/// for the next entry, with the release, the repository, the host and the
/// suffix that it had.
pub proof fn directory_is_uploaded(
    pre: PublisherModel,
    entries: Seq<EntryModel>,
    replies: Seq<Replies>,
)
    requires
        ready(pre),
        replies.len() == entries.len(),
        forall|i: int| 0 <= i < replies.len() ==> all_well(#[trigger] replies[i]),
    ensures
        ({
            let (post, actions) = run(pre, directory_events(pre, entries, replies));
            &&& uploads(actions) == expected_uploads(pre, entries)
            &&& count(actions, Method::Get) == regular_files(entries)
            &&& ready(post)
            &&& post.release == pre.release
            &&& post.repo == pre.repo
            &&& post.host == pre.host
            &&& post.suffix == pre.suffix
        }),
    decreases entries.len(),
{
    if entries.len() > 0 {
        let last = entries.last();
        let reply = replies.last();
        let before = directory_events(pre, entries.drop_last(), replies.drop_last());
        assert forall|i: int| 0 <= i < replies.drop_last().len() implies all_well(
            #[trigger] replies.drop_last()[i],
        ) by {
            assert(replies.drop_last()[i] == replies[i]);
        }
        directory_is_uploaded(pre, entries.drop_last(), replies.drop_last());
        let (mid, actions) = run(pre, before);
        assert(all_well(replies[replies.len() - 1]));
        assert(file_events(mid, last, reply) == file_events(pre, last, reply));
        file_is_uploaded_once(mid, last, reply);
        file_actions_counted(mid, last, reply);
        run_in_two_parts(pre, before, file_events(pre, last, reply));
        actions_in_two_parts(actions, file_actions(mid, last, reply), Method::Get);
        assert(upload_of(mid, last) == upload_of(pre, last));
        if last.regular {
            assert(uploads(actions) + seq![upload_of(pre, last)] =~= uploads(actions).push(
                upload_of(pre, last),
            ));
        } else {
            assert(uploads(actions) + Seq::<RequestModel>::empty() =~= uploads(actions));
        }
    }
}

/// After the last entry the run is done.
pub proof fn end_of_directory(pre: PublisherModel)
    requires
        ready(pre),
    ensures
        next(pre, EventModel::NoMoreEntries) == (
            PublisherModel { stage: Stage::Finished, ..pre },
            ActionModel::Finish,
        ),
{
}

} // verus!
