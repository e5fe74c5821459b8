use repo_sync::message::{MissingField, RepoMessage};
use repo_sync::record::{CrateType, RepoSyncStatus, SyncRecord};
use repo_sync::sync::{
    after_listing, after_lookup, is_repository_entry, start, step, CommandOutput, Outcome,
    SyncAction, SyncEvent, SyncState,
};

fn ran(success: bool, stdout: &str, stderr: &str) -> SyncEvent {
    SyncEvent::Ran(CommandOutput {
        success,
        stdout: stdout.to_string(),
        stderr: stderr.to_string(),
    })
}

fn stored(name: &str, status: Option<RepoSyncStatus>, err: Option<&str>) -> SyncRecord {
    SyncRecord {
        id: Some(7),
        crate_name: name.to_string(),
        github_url: Some("https://github.com/acme/widget.git".to_string()),
        mega_url: Some("/third-part/acme/widget.git".to_string()),
        crate_type: CrateType::Lib,
        status,
        err_message: err.map(|e| e.to_string()),
        created_at: 100,
        updated_at: 200,
    }
}

const LISTING: &str = "origin\thttps://github.com/acme/widget.git (fetch)\norigin\thttps://github.com/acme/widget.git (push)\n";

/// Feeds the reports to the machine and collects every action it asks for.
fn drive(name: &str, reports: Vec<(SyncEvent, i64)>) -> Vec<SyncAction> {
    let (mut state, first) = start(name.to_string());
    let mut actions = vec![first];
    for (event, now) in reports {
        let (next, action) = step(state, event, now);
        state = next;
        actions.push(action);
    }
    actions
}

fn changes_something(action: &SyncAction) -> bool {
    matches!(
        action,
        SyncAction::RemoveRemote(_)
            | SyncAction::AddRemote(_, _)
            | SyncAction::Push(_)
            | SyncAction::PushTags(_)
            | SyncAction::Save(_)
    )
}

#[test]
fn only_directories_at_depth_two_are_repositories() {
    assert!(is_repository_entry(true, 2));
    assert!(!is_repository_entry(false, 2));
    assert!(!is_repository_entry(true, 0));
    assert!(!is_repository_entry(true, 1));
    assert!(!is_repository_entry(true, 3));
}

#[test]
fn new_record_has_defaults() {
    let record = SyncRecord::new("widget".to_string(), 42);
    assert_eq!(
        record,
        SyncRecord {
            id: None,
            crate_name: "widget".to_string(),
            github_url: None,
            mega_url: None,
            crate_type: CrateType::Lib,
            status: None,
            err_message: None,
            created_at: 42,
            updated_at: 42,
        }
    );
    assert!(!record.is_succeeded());
    assert!(!record.is_complete());
}

#[test]
fn push_failure_is_recorded_with_its_error_stream() {
    let record = stored("widget", Some(RepoSyncStatus::Pending), None)
        .record_push_outcome(false, "fatal: unable to access\n".to_string(), 900);
    assert_eq!(record.status, Some(RepoSyncStatus::Failed));
    assert_eq!(record.err_message, Some("fatal: unable to access\n".to_string()));
    assert_eq!(record.updated_at, 900);
    assert_eq!(record.created_at, 100);
    assert_eq!(record.id, Some(7));
}

#[test]
fn push_success_clears_an_earlier_error() {
    let record = stored("widget", Some(RepoSyncStatus::Failed), Some("old failure"))
        .record_push_outcome(true, "warning on stderr".to_string(), 901);
    assert_eq!(record.status, Some(RepoSyncStatus::Succeed));
    assert_eq!(record.err_message, None);
    assert_eq!(record.updated_at, 901);
    assert!(record.is_succeeded());
}

#[test]
fn push_failure_replaces_an_earlier_error() {
    let record = stored("widget", Some(RepoSyncStatus::Failed), Some("old failure"))
        .record_push_outcome(false, String::new(), 5);
    assert_eq!(record.status, Some(RepoSyncStatus::Failed));
    assert_eq!(record.err_message, Some(String::new()));
}

#[test]
fn set_urls_keeps_the_rest() {
    let record = SyncRecord::new("widget".to_string(), 1)
        .set_urls("https://github.com/a/b".to_string(), "/third-part/a/b".to_string());
    assert_eq!(record.github_url, Some("https://github.com/a/b".to_string()));
    assert_eq!(record.mega_url, Some("/third-part/a/b".to_string()));
    assert_eq!(record.crate_name, "widget");
    assert_eq!(record.status, None);
    assert_eq!(record.created_at, 1);
}

#[test]
fn start_asks_to_enter_the_directory() {
    let (state, action) = start("widget".to_string());
    assert_eq!(state, SyncState::Entering { name: "widget".to_string() });
    assert_eq!(action, SyncAction::EnterDirectory);
}

#[test]
fn failing_to_enter_aborts_the_run() {
    let actions = drive("widget", vec![(SyncEvent::Entered(false), 1)]);
    assert_eq!(actions, vec![SyncAction::EnterDirectory, SyncAction::Abort]);
}

#[test]
fn lookup_is_by_directory_name() {
    let actions = drive("widget", vec![(SyncEvent::Entered(true), 1)]);
    assert_eq!(actions[1], SyncAction::FindRecord("widget".to_string()));
}

#[test]
fn succeeded_repository_is_skipped() {
    let actions = drive(
        "widget",
        vec![
            (SyncEvent::Entered(true), 1),
            (SyncEvent::Found(Some(stored("widget", Some(RepoSyncStatus::Succeed), None))), 2),
        ],
    );
    assert_eq!(
        actions,
        vec![
            SyncAction::EnterDirectory,
            SyncAction::FindRecord("widget".to_string()),
            SyncAction::Finish(Outcome::AlreadySucceeded),
        ]
    );
    assert!(actions.iter().all(|a| !changes_something(a)));
}

#[test]
fn nothing_follows_a_skipped_repository() {
    let actions = drive(
        "widget",
        vec![
            (SyncEvent::Entered(true), 1),
            (SyncEvent::Found(Some(stored("widget", Some(RepoSyncStatus::Succeed), None))), 2),
            (ran(true, LISTING, ""), 3),
            (ran(true, "", ""), 4),
            (SyncEvent::Saved, 5),
        ],
    );
    assert!(actions.iter().all(|a| !changes_something(a)));
    assert_eq!(actions[3], SyncAction::Finish(Outcome::OutOfTurn));
    assert_eq!(actions[5], SyncAction::Finish(Outcome::OutOfTurn));
}

#[test]
fn failed_repository_is_tried_again() {
    let (state, action) = after_lookup(
        "widget".to_string(),
        Some(stored("widget", Some(RepoSyncStatus::Failed), Some("boom"))),
        9,
    );
    assert_eq!(action, SyncAction::ListRemotes);
    assert_eq!(
        state,
        SyncState::Listing { record: stored("widget", Some(RepoSyncStatus::Failed), Some("boom")) }
    );
}

#[test]
fn pending_repository_is_processed() {
    let (_, action) = after_lookup(
        "widget".to_string(),
        Some(stored("widget", Some(RepoSyncStatus::Pending), None)),
        9,
    );
    assert_eq!(action, SyncAction::ListRemotes);
}

#[test]
fn unknown_repository_gets_a_new_record() {
    let (state, action) = after_lookup("widget".to_string(), None, 77);
    assert_eq!(action, SyncAction::ListRemotes);
    assert_eq!(state, SyncState::Listing { record: SyncRecord::new("widget".to_string(), 77) });
}

#[test]
fn failed_listing_is_reported_and_changes_nothing() {
    let actions = drive(
        "widget",
        vec![
            (SyncEvent::Entered(true), 1),
            (SyncEvent::Found(None), 2),
            (ran(false, LISTING, "fatal: not a git repository\n"), 3),
        ],
    );
    assert_eq!(
        actions[3],
        SyncAction::Finish(Outcome::ListingFailed("fatal: not a git repository\n".to_string()))
    );
    assert!(actions.iter().all(|a| !changes_something(a)));
}

#[test]
fn listing_without_address_changes_nothing() {
    let actions = drive(
        "widget",
        vec![
            (SyncEvent::Entered(true), 1),
            (SyncEvent::Found(Some(stored("widget", Some(RepoSyncStatus::Failed), Some("x")))), 2),
            (ran(true, "origin\tgit@gitee.com:acme/widget.git (fetch)\n", ""), 3),
        ],
    );
    assert_eq!(actions[3], SyncAction::Finish(Outcome::NoSourceUrl));
    assert!(actions.iter().all(|a| !changes_something(a)));
}

#[test]
fn empty_listing_changes_nothing() {
    let (state, action) = after_listing(
        SyncRecord::new("widget".to_string(), 1),
        CommandOutput { success: true, stdout: String::new(), stderr: String::new() },
    );
    assert_eq!(state, SyncState::Done);
    assert_eq!(action, SyncAction::Finish(Outcome::NoSourceUrl));
}

#[test]
fn whole_run_of_a_new_repository_that_pushes() {
    let actions = drive(
        "widget",
        vec![
            (SyncEvent::Entered(true), 10),
            (SyncEvent::Found(None), 20),
            (ran(true, LISTING, ""), 30),
            (ran(false, "", "error: No such remote: 'nju'\n"), 40),
            (ran(true, "", ""), 50),
            (ran(true, "pushed\n", "To http://localhost:8000/third-part/acme/widget.git\n"), 60),
            (ran(false, "", "tags failed\n"), 70),
            (SyncEvent::Saved, 80),
        ],
    );
    let saved = SyncRecord {
        id: None,
        crate_name: "widget".to_string(),
        github_url: Some("https://github.com/acme/widget.git".to_string()),
        mega_url: Some("/third-part/acme/widget.git".to_string()),
        crate_type: CrateType::Lib,
        status: Some(RepoSyncStatus::Succeed),
        err_message: None,
        created_at: 20,
        updated_at: 70,
    };
    assert_eq!(
        actions,
        vec![
            SyncAction::EnterDirectory,
            SyncAction::FindRecord("widget".to_string()),
            SyncAction::ListRemotes,
            SyncAction::RemoveRemote("nju".to_string()),
            SyncAction::AddRemote(
                "nju".to_string(),
                "http://localhost:8000/third-part/acme/widget.git".to_string()
            ),
            SyncAction::Push("nju".to_string()),
            SyncAction::PushTags("nju".to_string()),
            SyncAction::Save(saved),
            SyncAction::Finish(Outcome::Pushed(CommandOutput {
                success: true,
                stdout: "pushed\n".to_string(),
                stderr: "To http://localhost:8000/third-part/acme/widget.git\n".to_string(),
            })),
        ]
    );
}

#[test]
fn whole_run_of_a_repository_whose_push_fails() {
    let actions = drive(
        "widget",
        vec![
            (SyncEvent::Entered(true), 10),
            (SyncEvent::Found(Some(stored("widget", Some(RepoSyncStatus::Failed), Some("old")))), 20),
            (ran(true, "origin\thttps://github.com/acme/widget (push)\n", ""), 30),
            (ran(true, "", ""), 40),
            (ran(true, "", ""), 50),
            (ran(false, "", "fatal: repository not found\n"), 60),
            (ran(true, "", ""), 70),
            (SyncEvent::Saved, 80),
        ],
    );
    assert_eq!(
        actions[4],
        SyncAction::AddRemote(
            "nju".to_string(),
            "http://localhost:8000/third-part/acme/widget".to_string()
        )
    );
    assert_eq!(
        actions[7],
        SyncAction::Save(SyncRecord {
            id: Some(7),
            crate_name: "widget".to_string(),
            github_url: Some("https://github.com/acme/widget".to_string()),
            mega_url: Some("/third-part/acme/widget".to_string()),
            crate_type: CrateType::Lib,
            status: Some(RepoSyncStatus::Failed),
            err_message: Some("fatal: repository not found\n".to_string()),
            created_at: 100,
            updated_at: 70,
        })
    );
    assert_eq!(
        actions[8],
        SyncAction::Finish(Outcome::Pushed(CommandOutput {
            success: false,
            stdout: String::new(),
            stderr: "fatal: repository not found\n".to_string(),
        }))
    );
}

#[test]
fn same_name_in_two_places_asks_for_the_same_record() {
    let under_one_owner = drive("widget", vec![(SyncEvent::Entered(true), 1)]);
    let under_another = drive("widget", vec![(SyncEvent::Entered(true), 2)]);
    assert_eq!(under_one_owner[1], under_another[1]);
    let (first, _) = after_lookup("widget".to_string(), None, 1);
    let (second, _) = after_lookup("widget".to_string(), None, 1);
    assert_eq!(first, second);
}

#[test]
fn event_out_of_turn_ends_the_work() {
    let (state, action) = step(SyncState::Entering { name: "w".to_string() }, SyncEvent::Saved, 1);
    assert_eq!(state, SyncState::Done);
    assert_eq!(action, SyncAction::Finish(Outcome::OutOfTurn));
    let (state, action) = step(SyncState::Done, SyncEvent::Entered(true), 1);
    assert_eq!(state, SyncState::Done);
    assert_eq!(action, SyncAction::Finish(Outcome::OutOfTurn));
    let (_, action) = step(
        SyncState::Saving {
            push: CommandOutput { success: true, stdout: String::new(), stderr: String::new() },
        },
        ran(true, "", ""),
        1,
    );
    assert_eq!(action, SyncAction::Finish(Outcome::OutOfTurn));
}

#[test]
fn message_of_a_complete_record() {
    let record = stored("widget", Some(RepoSyncStatus::Failed), Some("boom"));
    assert!(record.is_complete());
    assert_eq!(
        RepoMessage::from(record),
        RepoMessage {
            crate_name: "widget".to_string(),
            github_url: Some("https://github.com/acme/widget.git".to_string()),
            mega_url: "/third-part/acme/widget.git".to_string(),
            crate_type: CrateType::Lib,
            status: RepoSyncStatus::Failed,
            err_message: Some("boom".to_string()),
        }
    );
}

#[test]
fn message_of_an_incomplete_record_names_the_field() {
    let fresh = SyncRecord::new("widget".to_string(), 1);
    assert_eq!(RepoMessage::try_from_record(fresh), Err(MissingField::MegaUrl));
    let no_status = stored("widget", None, None);
    assert_eq!(RepoMessage::try_from_record(no_status), Err(MissingField::Status));
    let complete = stored("widget", Some(RepoSyncStatus::Succeed), None);
    assert_eq!(
        RepoMessage::try_from_record(complete),
        Ok(RepoMessage {
            crate_name: "widget".to_string(),
            github_url: Some("https://github.com/acme/widget.git".to_string()),
            mega_url: "/third-part/acme/widget.git".to_string(),
            crate_type: CrateType::Lib,
            status: RepoSyncStatus::Succeed,
            err_message: None,
        })
    );
}
