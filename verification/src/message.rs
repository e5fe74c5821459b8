//! The message that tells other services how the sync of a repository went.

use vstd::prelude::*;
use crate::record::{CrateType, RepoSyncStatus, SyncRecord, SyncRecordView};

verus! {

/// A status record as it is published: the fields of the record without
/// its identifier and timestamps.
#[derive(Debug, PartialEq, Eq)]
pub struct RepoMessage {
    pub crate_name: String,
    pub github_url: Option<String>,
    pub mega_url: String,
    pub crate_type: CrateType,
    pub status: RepoSyncStatus,
    pub err_message: Option<String>,
}

/// Mathematical value of a [`RepoMessage`].
pub struct RepoMessageView {
    pub crate_name: Seq<char>,
    pub github_url: Option<Seq<char>>,
    pub mega_url: Seq<char>,
    pub crate_type: CrateType,
    pub status: RepoSyncStatus,
    pub err_message: Option<Seq<char>>,
}

impl View for RepoMessage {
    type V = RepoMessageView;

    open spec fn view(&self) -> RepoMessageView {
        RepoMessageView {
            crate_name: self.crate_name@,
            github_url: self.github_url.deep_view(),
            mega_url: self.mega_url@,
            crate_type: self.crate_type,
            status: self.status,
            err_message: self.err_message.deep_view(),
        }
    }
}

/// The field of a record that a message needs and that has no value.
#[derive(Clone, Copy, Debug, PartialEq, Eq, Structural)]
pub enum MissingField {
    MegaUrl,
    Status,
}

/// The message of a record in which mirror path and status have a value.
pub open spec fn message_of(record: SyncRecordView) -> RepoMessageView
    recommends
        record.complete(),
{
    RepoMessageView {
        crate_name: record.crate_name,
        github_url: record.github_url,
        mega_url: record.mega_url->Some_0,
        crate_type: record.crate_type,
        status: record.status->Some_0,
        err_message: record.err_message,
    }
}

/// The message of a record, or the first field that it lacks: the mirror
/// path before the status.
pub open spec fn checked_message_of(record: SyncRecordView) -> Result<RepoMessageView, MissingField> {
    if record.mega_url is None {
        Err(MissingField::MegaUrl)
    } else if record.status is None {
        Err(MissingField::Status)
    } else {
        Ok(message_of(record))
    }
}

impl RepoMessage {
    /// Builds the message of a record whose mirror path and status are set.
    pub fn from(value: SyncRecord) -> (message: RepoMessage)
        requires
            value@.complete(),
        ensures
            message@ == message_of(value@),
    {
        RepoMessage {
            crate_name: value.crate_name,
            github_url: value.github_url,
            mega_url: value.mega_url.unwrap(),
            crate_type: value.crate_type,
            status: value.status.unwrap(),
            err_message: value.err_message,
        }
    }

    /// Builds the message of a record, or names the first field that the
    /// record lacks.
    pub fn try_from_record(value: SyncRecord) -> (out: Result<RepoMessage, MissingField>)
        ensures
            match out {
                Ok(message) => checked_message_of(value@) == Ok::<RepoMessageView, MissingField>(
                    message@,
                ),
                Err(field) => checked_message_of(value@) == Err::<RepoMessageView, MissingField>(
                    field,
                ),
            },
    {
        if value.mega_url.is_none() {
            Err(MissingField::MegaUrl)
        } else if value.status.is_none() {
            Err(MissingField::Status)
        } else {
            Ok(RepoMessage::from(value))
        }
    }
}

} // verus!
