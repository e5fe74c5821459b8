//! Whole runs of the sync workflow, and what holds of every one of them.

use vstd::prelude::*;
use crate::record::{RepoSyncStatus, SyncRecordView};
use crate::remote::{address_starts_at, lemma_no_address};
use crate::sync::{
    start_spec,
    step_spec,
    CommandOutputView,
    OutcomeView,
    SyncActionView,
    SyncEventView,
    SyncStateView,
};

verus! {

/// What the caller reported, and the time at which it did.
pub struct Report {
    pub event: SyncEventView,
    pub now: int,
}

/// The actions that the machine asks for, one per report, when it is in
/// `state` and the caller reports `reports` in turn.
pub open spec fn actions_from(state: SyncStateView, reports: Seq<Report>) -> Seq<SyncActionView>
    decreases reports.len(),
{
    if reports.len() == 0 {
        Seq::empty()
    } else {
        let (next, action) = step_spec(state, reports[0].event, reports[0].now);
        seq![action] + actions_from(next, reports.drop_first())
    }
}

/// Every action of the run on the directory `name` in which the caller
/// reports `reports`: the first action, then one per report.
pub open spec fn run(name: Seq<char>, reports: Seq<Report>) -> Seq<SyncActionView> {
    seq![start_spec(name).1] + actions_from(start_spec(name).0, reports)
}

/// Whether an action changes the repository's git configuration, sends
/// anything to the mirror, or writes to the store.
pub open spec fn changes_something(action: SyncActionView) -> bool {
    ||| action is RemoveRemote
    ||| action is AddRemote
    ||| action is Push
    ||| action is PushTags
    ||| action is Save
}

/// Whether none of the actions changes anything.
pub open spec fn changes_nothing(actions: Seq<SyncActionView>) -> bool {
    forall|k: int| 0 <= k < actions.len() ==> !changes_something(#[trigger] actions[k])
}

/// Once the work on a directory is done, whatever is reported changes
/// nothing more.
pub proof fn lemma_done_changes_nothing(reports: Seq<Report>)
    ensures
        changes_nothing(actions_from(SyncStateView::Done, reports)),
    decreases reports.len(),
{
    if reports.len() > 0 {
        lemma_done_changes_nothing(reports.drop_first());
    }
}

/// A repository whose record says that it succeeded is left alone: in a run
/// where the store answers the lookup with such a record, no action changes
/// git, the mirror or the store, whatever else is reported.
pub proof fn lemma_succeeded_is_left_alone(name: Seq<char>, reports: Seq<Report>)
    requires
        reports.len() >= 2,
        reports[1].event matches SyncEventView::Found(Some(record)) && record.succeeded(),
    ensures
        changes_nothing(run(name, reports)),
{
    let first = step_spec(start_spec(name).0, reports[0].event, reports[0].now);
    let rest = reports.drop_first();
    assert(rest[0] == reports[1]);
    let second = step_spec(first.0, rest[0].event, rest[0].now);
    assert(second.0 == SyncStateView::Done);
    lemma_done_changes_nothing(rest.drop_first());
    assert(actions_from(first.0, rest) == seq![second.1] + actions_from(
        second.0,
        rest.drop_first(),
    ));
}

/// A repository whose remote listing holds no GitHub address keeps its
/// record as it is: in a run where the listing reported is such a text, no
/// action changes git, the mirror or the store.
pub proof fn lemma_no_address_changes_nothing(name: Seq<char>, reports: Seq<Report>)
    requires
        reports.len() >= 3,
        reports[2].event matches SyncEventView::Ran(output) && forall|i: int|
            !address_starts_at(output.stdout, i),
    ensures
        changes_nothing(run(name, reports)),
{
    let listing = reports[2].event->Ran_0;
    lemma_no_address(listing.stdout);
    let first = step_spec(start_spec(name).0, reports[0].event, reports[0].now);
    let rest = reports.drop_first();
    assert(rest[0] == reports[1]);
    let second = step_spec(first.0, rest[0].event, rest[0].now);
    let rest2 = rest.drop_first();
    assert(rest2[0] == reports[2]);
    let third = step_spec(second.0, rest2[0].event, rest2[0].now);
    assert(third.0 == SyncStateView::Done);
    lemma_done_changes_nothing(rest2.drop_first());
    assert(actions_from(second.0, rest2) == seq![third.1] + actions_from(
        third.0,
        rest2.drop_first(),
    ));
    assert(actions_from(first.0, rest) == seq![second.1] + actions_from(second.0, rest2));
}

/// The status store as the workflow sees it: at most one record under each
/// name.
pub type Store = Map<Seq<char>, SyncRecordView>;

/// The store after the caller carried out `actions` in turn: each `Save`
/// puts its record under the record's name, in place of what was there, and
/// no other action touches the store.
pub open spec fn store_after(store: Store, actions: Seq<SyncActionView>) -> Store
    decreases actions.len(),
{
    if actions.len() == 0 {
        store
    } else {
        let next = match actions[0] {
            SyncActionView::Save(record) => store.insert(record.crate_name, record),
            _ => store,
        };
        store_after(next, actions.drop_first())
    }
}

/// Actions that change nothing leave the store as it was.
pub proof fn lemma_unchanged_store(store: Store, actions: Seq<SyncActionView>)
    requires
        changes_nothing(actions),
    ensures
        store_after(store, actions) == store,
    decreases actions.len(),
{
    if actions.len() > 0 {
        let rest = actions.drop_first();
        assert forall|k: int| 0 <= k < rest.len() implies !changes_something(#[trigger] rest[k]) by {
            assert(rest[k] == actions[k + 1]);
        }
        assert(!changes_something(actions[0]));
        lemma_unchanged_store(store, rest);
    }
}

/// A second run over a repository that succeeded leaves the store exactly
/// as the first run left it.
pub proof fn lemma_second_run_keeps_store(store: Store, name: Seq<char>, reports: Seq<Report>)
    requires
        reports.len() >= 2,
        reports[1].event matches SyncEventView::Found(Some(record)) && record.succeeded(),
    ensures
        store_after(store, run(name, reports)) == store,
{
    lemma_succeeded_is_left_alone(name, reports);
    lemma_unchanged_store(store, run(name, reports));
}

/// Two records saved under one name leave one record in the store, the
/// later: directories of the same name collide, and the last write wins.
pub proof fn lemma_last_write_wins(store: Store, earlier: SyncRecordView, later: SyncRecordView)
    requires
        earlier.crate_name == later.crate_name,
    ensures
        store_after(store, seq![SyncActionView::Save(earlier), SyncActionView::Save(later)])
            == store.insert(later.crate_name, later),
        store_after(store, seq![SyncActionView::Save(earlier), SyncActionView::Save(later)])[
            earlier.crate_name
        ] == later,
{
    let actions = seq![SyncActionView::Save(earlier), SyncActionView::Save(later)];
    let rest = actions.drop_first();
    assert(rest[0] == SyncActionView::Save(later));
    assert(rest.drop_first().len() == 0);
    let one = store.insert(earlier.crate_name, earlier);
    let two = one.insert(later.crate_name, later);
    assert(store_after(two, rest.drop_first()) == two);
    assert(store_after(one, rest) == two);
    assert(two =~= store.insert(later.crate_name, later));
}

/// The record that is saved carries the outcome of the branch push, whatever
/// it held before and however the push of the tags ended: `Succeed` and no
/// error text after a push that succeeded, `Failed` and the push's error
/// stream after one that did not.
pub proof fn lemma_saved_record_carries_outcome(
    record: SyncRecordView,
    push: CommandOutputView,
    tags: CommandOutputView,
    now: int,
)
    ensures
        step_spec(SyncStateView::PushingTags { record, push }, SyncEventView::Ran(tags), now).1
            matches SyncActionView::Save(saved) && saved.updated_at == now && if push.success {
            saved.status == Some(RepoSyncStatus::Succeed) && saved.err_message is None
        } else {
            saved.status == Some(RepoSyncStatus::Failed) && saved.err_message == Some(push.stderr)
        },
{
}

/// The store is asked by the directory's name alone, and a new record is
/// made under that name: two directories of one name, wherever they lie,
/// share one record.
pub proof fn lemma_name_is_the_key(name: Seq<char>, entered_at: int, found_at: int)
    ensures
        step_spec(start_spec(name).0, SyncEventView::Entered(true), entered_at).1
            == SyncActionView::FindRecord(name),
        step_spec(SyncStateView::Finding { name }, SyncEventView::Found(None), found_at).0
            == (SyncStateView::Listing { record: SyncRecordView::fresh(name, found_at) }),
        SyncRecordView::fresh(name, found_at).crate_name == name,
{
}

/// Whether a state that holds a record on its way to the mirror holds both
/// addresses in it.
pub open spec fn carries_urls(state: SyncStateView) -> bool {
    match state {
        SyncStateView::Removing { record, .. } => record.github_url is Some && record.mega_url
            is Some,
        SyncStateView::Adding { record } => record.github_url is Some && record.mega_url is Some,
        SyncStateView::Pushing { record } => record.github_url is Some && record.mega_url is Some,
        SyncStateView::PushingTags { record, .. } => record.github_url is Some && record.mega_url
            is Some,
        _ => true,
    }
}

/// Whether every record that the actions save is complete and consistent.
pub open spec fn saves_are_settled(actions: Seq<SyncActionView>) -> bool {
    forall|k: int|
        0 <= k < actions.len() ==> (#[trigger] actions[k] matches SyncActionView::Save(record)
            ==> record.complete() && record.consistent())
}

/// A step keeps both addresses in the record on its way, and saves only a
/// record that is complete and consistent.
pub proof fn lemma_step_keeps_urls(state: SyncStateView, event: SyncEventView, now: int)
    requires
        carries_urls(state),
    ensures
        carries_urls(step_spec(state, event, now).0),
        step_spec(state, event, now).1 matches SyncActionView::Save(record) ==> record.complete()
            && record.consistent(),
{
}

/// From a state that carries both addresses, every record saved is
/// complete and consistent.
pub proof fn lemma_saves_are_settled_from(state: SyncStateView, reports: Seq<Report>)
    requires
        carries_urls(state),
    ensures
        saves_are_settled(actions_from(state, reports)),
    decreases reports.len(),
{
    if reports.len() > 0 {
        lemma_step_keeps_urls(state, reports[0].event, reports[0].now);
        let next = step_spec(state, reports[0].event, reports[0].now);
        lemma_saves_are_settled_from(next.0, reports.drop_first());
    }
}

/// Whatever is reported in a run, every record that it saves has a source
/// address, a mirror path and a status, and an error text only beside the
/// status `Failed`: it can be published as a message.
pub proof fn lemma_saved_records_are_settled(name: Seq<char>, reports: Seq<Report>)
    ensures
        saves_are_settled(run(name, reports)),
{
    lemma_saves_are_settled_from(start_spec(name).0, reports);
}

} // verus!
