//! The status record kept for each repository, and the message built from it.

use vstd::prelude::*;

verus! {

/// Classification of a repository.
#[derive(Clone, Copy, Debug, PartialEq, Eq, Structural)]
pub enum CrateType {
    Lib,
    Application,
}

/// Outcome of mirroring one repository.
#[derive(Clone, Copy, Debug, PartialEq, Eq, Structural)]
pub enum RepoSyncStatus {
    Pending,
    Succeed,
    Failed,
}

/// One row of the status store, keyed by `crate_name`.
///
/// `id`, `mega_url` and `status` are `None` until they have been given a
/// value: a record that was never stored has no `id`, and one whose source
/// address was never found has neither `mega_url` nor `status`.
/// Timestamps are microseconds since the Unix epoch, UTC.
#[derive(Debug, PartialEq, Eq)]
pub struct SyncRecord {
    pub id: Option<i64>,
    pub crate_name: String,
    pub github_url: Option<String>,
    pub mega_url: Option<String>,
    pub crate_type: CrateType,
    pub status: Option<RepoSyncStatus>,
    pub err_message: Option<String>,
    pub created_at: i64,
    pub updated_at: i64,
}

/// Mathematical value of a [`SyncRecord`].
pub struct SyncRecordView {
    pub id: Option<i64>,
    pub crate_name: Seq<char>,
    pub github_url: Option<Seq<char>>,
    pub mega_url: Option<Seq<char>>,
    pub crate_type: CrateType,
    pub status: Option<RepoSyncStatus>,
    pub err_message: Option<Seq<char>>,
    pub created_at: int,
    pub updated_at: int,
}

impl View for SyncRecord {
    type V = SyncRecordView;

    open spec fn view(&self) -> SyncRecordView {
        SyncRecordView {
            id: self.id,
            crate_name: self.crate_name@,
            github_url: self.github_url.deep_view(),
            mega_url: self.mega_url.deep_view(),
            crate_type: self.crate_type,
            status: self.status,
            err_message: self.err_message.deep_view(),
            created_at: self.created_at as int,
            updated_at: self.updated_at as int,
        }
    }
}

impl SyncRecordView {
    /// The record of a repository met for the first time at `now`.
    pub open spec fn fresh(name: Seq<char>, now: int) -> SyncRecordView {
        SyncRecordView {
            id: None,
            crate_name: name,
            github_url: None,
            mega_url: None,
            crate_type: CrateType::Lib,
            status: None,
            err_message: None,
            created_at: now,
            updated_at: now,
        }
    }

    /// What a record must satisfy once a run has settled its status: an error
    /// text only beside `Failed`, and a mirror path wherever a source
    /// address is known.
    pub open spec fn consistent(self) -> bool {
        &&& self.err_message is Some ==> self.status == Some(RepoSyncStatus::Failed)
        &&& self.github_url is Some ==> self.mega_url is Some
    }

    /// Whether a sync run leaves this record alone.
    pub open spec fn succeeded(self) -> bool {
        self.status == Some(RepoSyncStatus::Succeed)
    }

    /// Whether every field that a message needs has a value.
    pub open spec fn complete(self) -> bool {
        self.mega_url is Some && self.status is Some
    }

    /// The record after its source address and mirror path were found.
    pub open spec fn with_urls(self, github_url: Seq<char>, mega_url: Seq<char>) -> SyncRecordView {
        SyncRecordView { github_url: Some(github_url), mega_url: Some(mega_url), ..self }
    }

    /// The record after a push that ended with `success`, having written
    /// `stderr` to its error stream, stamped at `now`.
    pub open spec fn with_push_outcome(self, success: bool, stderr: Seq<char>, now: int) -> SyncRecordView {
        if success {
            SyncRecordView {
                status: Some(RepoSyncStatus::Succeed),
                err_message: None,
                updated_at: now,
                ..self
            }
        } else {
            SyncRecordView {
                status: Some(RepoSyncStatus::Failed),
                err_message: Some(stderr),
                updated_at: now,
                ..self
            }
        }
    }
}

impl SyncRecord {
    /// Creates the record for a directory that the store does not know yet:
    /// default type, no addresses, no status, both timestamps at `now`.
    pub fn new(crate_name: String, now: i64) -> (record: SyncRecord)
        ensures
            record@ == SyncRecordView::fresh(crate_name@, now as int),
            record@.consistent(),
            !record@.succeeded(),
    {
        SyncRecord {
            id: None,
            crate_name,
            github_url: None,
            mega_url: None,
            crate_type: CrateType::Lib,
            status: None,
            err_message: None,
            created_at: now,
            updated_at: now,
        }
    }

    /// Whether the repository was mirrored by an earlier run.
    pub fn is_succeeded(&self) -> (done: bool)
        ensures
            done == self@.succeeded(),
    {
        match self.status {
            Some(RepoSyncStatus::Succeed) => true,
            _ => false,
        }
    }

    /// Whether a message can be built from this record.
    pub fn is_complete(&self) -> (complete: bool)
        ensures
            complete == self@.complete(),
    {
        self.mega_url.is_some() && self.status.is_some()
    }

    /// Stores the source address as it was found and the mirror path derived
    /// from it; every other field is kept.
    pub fn set_urls(self, github_url: String, mega_url: String) -> (record: SyncRecord)
        ensures
            record@ == self@.with_urls(github_url@, mega_url@),
    {
        SyncRecord {
            github_url: Some(github_url),
            mega_url: Some(mega_url),
            ..self
        }
    }

    /// Settles the status after the branch push. On success the status is
    /// `Succeed` and the error text is cleared, whatever it held; otherwise
    /// the status is `Failed` and the error text is `stderr`. `updated_at`
    /// becomes `now`; every other field is kept.
    pub fn record_push_outcome(self, success: bool, stderr: String, now: i64) -> (record: SyncRecord)
        ensures
            record@ == self@.with_push_outcome(success, stderr@, now as int),
            success ==> record@.status == Some(RepoSyncStatus::Succeed) && record@.err_message is None,
            !success ==> record@.status == Some(RepoSyncStatus::Failed) && record@.err_message == Some(
                stderr@,
            ),
            self@.github_url is Some ==> self@.mega_url is Some ==> record@.consistent(),
    {
        if success {
            SyncRecord {
                status: Some(RepoSyncStatus::Succeed),
                err_message: None,
                updated_at: now,
                ..self
            }
        } else {
            SyncRecord {
                status: Some(RepoSyncStatus::Failed),
                err_message: Some(stderr),
                updated_at: now,
                ..self
            }
        }
    }
}

} // verus!
