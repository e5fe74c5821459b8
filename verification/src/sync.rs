//! The sync workflow of one repository directory, as a state machine.
//!
//! The caller owns everything that touches the outside: it changes the
//! working directory, asks the status store, runs git and saves. The machine
//! decides. It starts with [`start`], which names the first thing to do; the
//! caller does it, reports what happened as a [`SyncEvent`] to [`step`], and
//! goes on with the action that `step` returns until that is `Finish` or
//! `Abort`.

use vstd::prelude::*;
use vstd::string::StringExecFns;
use crate::mirror::{derive_mirror, mirror_of, MirrorError};
use crate::record::{SyncRecord, SyncRecordView};
use crate::remote::{address_starts_at, find_github_url, first_github_address, lemma_no_address};

verus! {

/// Name of the git remote that points at the mirror.
pub const MIRROR_REMOTE: &'static str = "nju";

/// Depth below the workspace root at which repositories lie.
pub const REPOSITORY_DEPTH: usize = 2;

/// Whether an entry met while walking the workspace is a repository: a
/// directory exactly two levels below the root.
pub fn is_repository_entry(is_dir: bool, depth: usize) -> (selected: bool)
    ensures
        selected == (is_dir && depth == REPOSITORY_DEPTH),
{
    is_dir && depth == REPOSITORY_DEPTH
}

/// How a git command ended.
#[derive(Debug, PartialEq, Eq)]
pub struct CommandOutput {
    /// Whether the exit code was zero.
    pub success: bool,
    pub stdout: String,
    pub stderr: String,
}

/// Mathematical value of a [`CommandOutput`].
pub struct CommandOutputView {
    pub success: bool,
    pub stdout: Seq<char>,
    pub stderr: Seq<char>,
}

impl View for CommandOutput {
    type V = CommandOutputView;

    open spec fn view(&self) -> CommandOutputView {
        CommandOutputView { success: self.success, stdout: self.stdout@, stderr: self.stderr@ }
    }
}

/// What the caller reports back after an action.
#[derive(Debug, PartialEq, Eq)]
pub enum SyncEvent {
    /// The working directory was changed (`true`) or could not be.
    Entered(bool),
    /// The store's answer to a lookup by name.
    Found(Option<SyncRecord>),
    /// A git command ran and ended.
    Ran(CommandOutput),
    /// The store took the record.
    Saved,
}

/// Mathematical value of a [`SyncEvent`].
pub enum SyncEventView {
    Entered(bool),
    Found(Option<SyncRecordView>),
    Ran(CommandOutputView),
    Saved,
}

impl View for SyncEvent {
    type V = SyncEventView;

    open spec fn view(&self) -> SyncEventView {
        match self {
            SyncEvent::Entered(ok) => SyncEventView::Entered(*ok),
            SyncEvent::Found(Some(record)) => SyncEventView::Found(Some(record@)),
            SyncEvent::Found(None) => SyncEventView::Found(None),
            SyncEvent::Ran(output) => SyncEventView::Ran(output@),
            SyncEvent::Saved => SyncEventView::Saved,
        }
    }
}

/// How the work on one directory ended.
#[derive(Debug, PartialEq, Eq)]
pub enum Outcome {
    /// An earlier run mirrored the repository; nothing was done.
    AlreadySucceeded,
    /// `git remote -v` failed; its error stream is kept.
    ListingFailed(String),
    /// The remote listing holds no GitHub address.
    NoSourceUrl,
    /// No mirror address could be derived from the source address.
    NoMirror(MirrorError),
    /// The repository was pushed and its record saved; the output of the
    /// branch push is kept.
    Pushed(CommandOutput),
    /// An event arrived that does not answer the action asked for.
    OutOfTurn,
}

/// Mathematical value of an [`Outcome`].
pub enum OutcomeView {
    AlreadySucceeded,
    ListingFailed(Seq<char>),
    NoSourceUrl,
    NoMirror(MirrorError),
    Pushed(CommandOutputView),
    OutOfTurn,
}

impl View for Outcome {
    type V = OutcomeView;

    open spec fn view(&self) -> OutcomeView {
        match self {
            Outcome::AlreadySucceeded => OutcomeView::AlreadySucceeded,
            Outcome::ListingFailed(stderr) => OutcomeView::ListingFailed(stderr@),
            Outcome::NoSourceUrl => OutcomeView::NoSourceUrl,
            Outcome::NoMirror(e) => OutcomeView::NoMirror(*e),
            Outcome::Pushed(output) => OutcomeView::Pushed(output@),
            Outcome::OutOfTurn => OutcomeView::OutOfTurn,
        }
    }
}

/// What the caller is to do next.
#[derive(Debug, PartialEq, Eq)]
pub enum SyncAction {
    /// Change the working directory to the repository.
    EnterDirectory,
    /// Look up the record with this name in the store.
    FindRecord(String),
    /// Run `git remote -v`.
    ListRemotes,
    /// Run `git remote remove` with this name.
    RemoveRemote(String),
    /// Run `git remote add` with this name and this address.
    AddRemote(String, String),
    /// Run `git push` to this remote.
    Push(String),
    /// Run `git push --tags` to this remote.
    PushTags(String),
    /// Insert or update this record in the store.
    Save(SyncRecord),
    /// Nothing is left to do for this directory.
    Finish(Outcome),
    /// The whole run ends in failure.
    Abort,
}

/// Mathematical value of a [`SyncAction`].
pub enum SyncActionView {
    EnterDirectory,
    FindRecord(Seq<char>),
    ListRemotes,
    RemoveRemote(Seq<char>),
    AddRemote(Seq<char>, Seq<char>),
    Push(Seq<char>),
    PushTags(Seq<char>),
    Save(SyncRecordView),
    Finish(OutcomeView),
    Abort,
}

impl View for SyncAction {
    type V = SyncActionView;

    open spec fn view(&self) -> SyncActionView {
        match self {
            SyncAction::EnterDirectory => SyncActionView::EnterDirectory,
            SyncAction::FindRecord(name) => SyncActionView::FindRecord(name@),
            SyncAction::ListRemotes => SyncActionView::ListRemotes,
            SyncAction::RemoveRemote(name) => SyncActionView::RemoveRemote(name@),
            SyncAction::AddRemote(name, url) => SyncActionView::AddRemote(name@, url@),
            SyncAction::Push(name) => SyncActionView::Push(name@),
            SyncAction::PushTags(name) => SyncActionView::PushTags(name@),
            SyncAction::Save(record) => SyncActionView::Save(record@),
            SyncAction::Finish(outcome) => SyncActionView::Finish(outcome@),
            SyncAction::Abort => SyncActionView::Abort,
        }
    }
}

/// Where the work on one directory stands: the action that was asked for
/// last, with what is needed to go on once it is answered.
#[derive(Debug, PartialEq, Eq)]
pub enum SyncState {
    Entering { name: String },
    Finding { name: String },
    Listing { record: SyncRecord },
    Removing { record: SyncRecord, mirror_url: String },
    Adding { record: SyncRecord },
    Pushing { record: SyncRecord },
    PushingTags { record: SyncRecord, push: CommandOutput },
    Saving { push: CommandOutput },
    Done,
}

/// Mathematical value of a [`SyncState`].
pub enum SyncStateView {
    Entering { name: Seq<char> },
    Finding { name: Seq<char> },
    Listing { record: SyncRecordView },
    Removing { record: SyncRecordView, mirror_url: Seq<char> },
    Adding { record: SyncRecordView },
    Pushing { record: SyncRecordView },
    PushingTags { record: SyncRecordView, push: CommandOutputView },
    Saving { push: CommandOutputView },
    Done,
}

impl View for SyncState {
    type V = SyncStateView;

    open spec fn view(&self) -> SyncStateView {
        match self {
            SyncState::Entering { name } => SyncStateView::Entering { name: name@ },
            SyncState::Finding { name } => SyncStateView::Finding { name: name@ },
            SyncState::Listing { record } => SyncStateView::Listing { record: record@ },
            SyncState::Removing { record, mirror_url } => SyncStateView::Removing {
                record: record@,
                mirror_url: mirror_url@,
            },
            SyncState::Adding { record } => SyncStateView::Adding { record: record@ },
            SyncState::Pushing { record } => SyncStateView::Pushing { record: record@ },
            SyncState::PushingTags { record, push } => SyncStateView::PushingTags {
                record: record@,
                push: push@,
            },
            SyncState::Saving { push } => SyncStateView::Saving { push: push@ },
            SyncState::Done => SyncStateView::Done,
        }
    }
}

/// The answer to an event that does not belong to the state.
pub open spec fn out_of_turn() -> (SyncStateView, SyncActionView) {
    (SyncStateView::Done, SyncActionView::Finish(OutcomeView::OutOfTurn))
}

/// State and first action for the directory called `name`.
pub open spec fn start_spec(name: Seq<char>) -> (SyncStateView, SyncActionView) {
    (SyncStateView::Entering { name }, SyncActionView::EnterDirectory)
}

/// What follows the store's answer `found` to the lookup of `name`: a record
/// that succeeded ends the work; any other, or a new one made at `now`, goes
/// on to the remote listing.
pub open spec fn after_lookup_spec(name: Seq<char>, found: Option<SyncRecordView>, now: int) -> (
    SyncStateView,
    SyncActionView,
) {
    match found {
        None => (
            SyncStateView::Listing { record: SyncRecordView::fresh(name, now) },
            SyncActionView::ListRemotes,
        ),
        Some(record) => if record.succeeded() {
            (SyncStateView::Done, SyncActionView::Finish(OutcomeView::AlreadySucceeded))
        } else {
            (SyncStateView::Listing { record }, SyncActionView::ListRemotes)
        },
    }
}

/// What follows the remote listing `output`: where it failed, held no GitHub
/// address, or gave one with no mirror address, the work ends and the record
/// is dropped as it was; else the record takes both addresses and the mirror
/// remote is removed first.
pub open spec fn after_listing_spec(record: SyncRecordView, output: CommandOutputView) -> (
    SyncStateView,
    SyncActionView,
) {
    if !output.success {
        (SyncStateView::Done, SyncActionView::Finish(OutcomeView::ListingFailed(output.stderr)))
    } else {
        match first_github_address(output.stdout) {
            None => (SyncStateView::Done, SyncActionView::Finish(OutcomeView::NoSourceUrl)),
            Some(source) => match mirror_of(source) {
                Err(e) => (SyncStateView::Done, SyncActionView::Finish(OutcomeView::NoMirror(e))),
                Ok(target) => (
                    SyncStateView::Removing {
                        record: record.with_urls(source, target.path),
                        mirror_url: target.url,
                    },
                    SyncActionView::RemoveRemote(MIRROR_REMOTE@),
                ),
            },
        }
    }
}

/// The transition function: the state and action that follow `event` in
/// `state`, at time `now`.
pub open spec fn step_spec(state: SyncStateView, event: SyncEventView, now: int) -> (
    SyncStateView,
    SyncActionView,
) {
    match (state, event) {
        (SyncStateView::Entering { name }, SyncEventView::Entered(ok)) => if ok {
            (SyncStateView::Finding { name }, SyncActionView::FindRecord(name))
        } else {
            (SyncStateView::Done, SyncActionView::Abort)
        },
        (SyncStateView::Finding { name }, SyncEventView::Found(found)) => after_lookup_spec(
            name,
            found,
            now,
        ),
        (SyncStateView::Listing { record }, SyncEventView::Ran(output)) => after_listing_spec(
            record,
            output,
        ),
        (SyncStateView::Removing { record, mirror_url }, SyncEventView::Ran(_)) => (
            SyncStateView::Adding { record },
            SyncActionView::AddRemote(MIRROR_REMOTE@, mirror_url),
        ),
        (SyncStateView::Adding { record }, SyncEventView::Ran(_)) => (
            SyncStateView::Pushing { record },
            SyncActionView::Push(MIRROR_REMOTE@),
        ),
        (SyncStateView::Pushing { record }, SyncEventView::Ran(push)) => (
            SyncStateView::PushingTags { record, push },
            SyncActionView::PushTags(MIRROR_REMOTE@),
        ),
        (SyncStateView::PushingTags { record, push }, SyncEventView::Ran(_)) => (
            SyncStateView::Saving { push },
            SyncActionView::Save(record.with_push_outcome(push.success, push.stderr, now)),
        ),
        (SyncStateView::Saving { push }, SyncEventView::Saved) => (
            SyncStateView::Done,
            SyncActionView::Finish(OutcomeView::Pushed(push)),
        ),
        _ => out_of_turn(),
    }
}

/// Begins the work on the directory called `name`.
pub fn start(name: String) -> (out: (SyncState, SyncAction))
    ensures
        (out.0@, out.1@) == start_spec(name@),
{
    (SyncState::Entering { name }, SyncAction::EnterDirectory)
}

/// Decides what follows the store's answer to the lookup of `name`.
pub fn after_lookup(name: String, found: Option<SyncRecord>, now: i64) -> (out: (
    SyncState,
    SyncAction,
))
    ensures
        (out.0@, out.1@) == after_lookup_spec(
            name@,
            match found {
                Some(record) => Some(record@),
                None => None,
            },
            now as int,
        ),
{
    match found {
        None => (SyncState::Listing { record: SyncRecord::new(name, now) }, SyncAction::ListRemotes),
        Some(record) => if record.is_succeeded() {
            (SyncState::Done, SyncAction::Finish(Outcome::AlreadySucceeded))
        } else {
            (SyncState::Listing { record }, SyncAction::ListRemotes)
        },
    }
}

/// Decides what follows the remote listing.
pub fn after_listing(record: SyncRecord, output: CommandOutput) -> (out: (SyncState, SyncAction))
    ensures
        (out.0@, out.1@) == after_listing_spec(record@, output@),
{
    if !output.success {
        return (SyncState::Done, SyncAction::Finish(Outcome::ListingFailed(output.stderr)));
    }
    let source = match find_github_url(output.stdout.as_str()) {
        Some(source) => source,
        None => return (SyncState::Done, SyncAction::Finish(Outcome::NoSourceUrl)),
    };
    match derive_mirror(source.as_str()) {
        Err(e) => (SyncState::Done, SyncAction::Finish(Outcome::NoMirror(e))),
        Ok(target) => (
            SyncState::Removing {
                record: record.set_urls(source, target.path),
                mirror_url: target.url,
            },
            SyncAction::RemoveRemote(String::from_str(MIRROR_REMOTE)),
        ),
    }
}

/// Takes one step of the workflow: given where the work stands and what the
/// caller reports, returns where it stands now and what to do next.
pub fn step(state: SyncState, event: SyncEvent, now: i64) -> (out: (SyncState, SyncAction))
    ensures
        (out.0@, out.1@) == step_spec(state@, event@, now as int),
{
    match state {
        SyncState::Entering { name } => match event {
            SyncEvent::Entered(ok) => if ok {
                let key = name.clone();
                (SyncState::Finding { name }, SyncAction::FindRecord(key))
            } else {
                (SyncState::Done, SyncAction::Abort)
            },
            _ => (SyncState::Done, SyncAction::Finish(Outcome::OutOfTurn)),
        },
        SyncState::Finding { name } => match event {
            SyncEvent::Found(found) => after_lookup(name, found, now),
            _ => (SyncState::Done, SyncAction::Finish(Outcome::OutOfTurn)),
        },
        SyncState::Listing { record } => match event {
            SyncEvent::Ran(output) => after_listing(record, output),
            _ => (SyncState::Done, SyncAction::Finish(Outcome::OutOfTurn)),
        },
        SyncState::Removing { record, mirror_url } => match event {
            SyncEvent::Ran(_) => (
                SyncState::Adding { record },
                SyncAction::AddRemote(String::from_str(MIRROR_REMOTE), mirror_url),
            ),
            _ => (SyncState::Done, SyncAction::Finish(Outcome::OutOfTurn)),
        },
        SyncState::Adding { record } => match event {
            SyncEvent::Ran(_) => (
                SyncState::Pushing { record },
                SyncAction::Push(String::from_str(MIRROR_REMOTE)),
            ),
            _ => (SyncState::Done, SyncAction::Finish(Outcome::OutOfTurn)),
        },
        SyncState::Pushing { record } => match event {
            SyncEvent::Ran(push) => (
                SyncState::PushingTags { record, push },
                SyncAction::PushTags(String::from_str(MIRROR_REMOTE)),
            ),
            _ => (SyncState::Done, SyncAction::Finish(Outcome::OutOfTurn)),
        },
        SyncState::PushingTags { record, push } => match event {
            SyncEvent::Ran(_) => {
                let stderr = push.stderr.clone();
                let settled = record.record_push_outcome(push.success, stderr, now);
                (SyncState::Saving { push }, SyncAction::Save(settled))
            },
            _ => (SyncState::Done, SyncAction::Finish(Outcome::OutOfTurn)),
        },
        SyncState::Saving { push } => match event {
            SyncEvent::Saved => (SyncState::Done, SyncAction::Finish(Outcome::Pushed(push))),
            _ => (SyncState::Done, SyncAction::Finish(Outcome::OutOfTurn)),
        },
        SyncState::Done => (SyncState::Done, SyncAction::Finish(Outcome::OutOfTurn)),
    }
}

} // verus!
