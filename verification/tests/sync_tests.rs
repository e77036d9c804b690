//! WorkspaceSynchronizer policy on concrete flag combinations.

use grm::clone::{completion_path, GitClone};
use grm::commands::{ConfigError, Get};
use grm::sync::{after_removal, decide_action, resolve_target, GetError, RemoveOutcome, SyncAction};

#[test]
fn missing_path_is_clone_only_whatever_the_flags() {
    assert_eq!(decide_action(false, false, false), SyncAction::CloneFresh);
    assert_eq!(decide_action(false, true, false), SyncAction::CloneFresh);
    assert_eq!(decide_action(false, false, true), SyncAction::CloneFresh);
    assert_eq!(decide_action(false, true, true), SyncAction::CloneFresh);
}

#[test]
fn replace_on_existing_path_removes_first() {
    assert_eq!(decide_action(true, false, true), SyncAction::RemoveThenClone);
    assert_eq!(decide_action(true, true, true), SyncAction::RemoveThenClone);
}

#[test]
fn update_on_existing_path_pulls() {
    assert_eq!(decide_action(true, true, false), SyncAction::Update);
}

#[test]
fn existing_path_without_flags_is_a_noop() {
    assert_eq!(decide_action(true, false, false), SyncAction::Nothing);
}

#[test]
fn clone_follows_only_a_successful_removal() {
    assert!(matches!(after_removal(RemoveOutcome::Removed), Ok(SyncAction::CloneFresh)));
}

#[test]
fn failed_removal_aborts_with_its_own_error() {
    let r = after_removal(RemoveOutcome::RemoveFailed(b"permission denied".to_vec()));
    match r {
        Err(GetError::ErrRemoveFailed(msg)) => assert_eq!(msg, b"permission denied".to_vec()),
        _ => panic!("expected the removal error to surface"),
    }
}

#[test]
fn get_twice_clones_then_does_nothing() {
    // Two identical `get` calls without flags: the first finds no checkout
    // and clones; the second finds the checkout the first produced and is
    // a successful no-op.
    let request = Get {
        update: false,
        ssh: false,
        replace: false,
        remote: Some(b"https://example.com/group/proj.git".to_vec()),
    };
    let first_path = resolve_target(b"/ws", &request).unwrap();
    let first_action = decide_action(false, request.update, request.replace);
    assert_eq!(first_action, SyncAction::CloneFresh);

    let second_path = resolve_target(b"/ws", &request).unwrap();
    assert_eq!(first_path, second_path);
    let second_action = decide_action(true, request.update, request.replace);
    assert_eq!(second_action, SyncAction::Nothing);
}

#[test]
fn clone_operation_starts_at_the_target() {
    let clone = GitClone::new(
        b"/ws/example.com/group/proj".to_vec(),
        false,
        b"https://example.com/group/proj.git".to_vec(),
    );
    assert_eq!(clone.into, b"/ws/example.com/group/proj".to_vec());
    assert_eq!(clone.remote, b"https://example.com/group/proj.git".to_vec());
    assert_eq!(clone.progress.working_path, b"/ws/example.com/group/proj".to_vec());
    assert!(!clone.progress.line_open);
    assert_eq!(clone.progress.total_units, 0);
    assert_eq!(clone.progress.completed_units, 0);
}

#[test]
fn clone_announces_its_destination() {
    let clone = GitClone::new(b"/ws/x".to_vec(), false, b"https://example.com/x.git".to_vec());
    assert_eq!(clone.announcement(), b"Cloning into '/ws/x'".to_vec());
}

#[test]
fn finished_clone_reports_workdir_or_storage_path() {
    assert_eq!(
        completion_path(Some(b"/ws/x".to_vec()), b"/ws/x/.git".to_vec()),
        b"/ws/x".to_vec()
    );
    assert_eq!(completion_path(None, b"/ws/x.git".to_vec()), b"/ws/x.git".to_vec());
}

#[test]
fn config_errors_name_their_cause() {
    assert_eq!(
        ConfigError::ErrConfigNotFound.message(),
        "No git config found, do you have git installed?"
    );
    assert_eq!(ConfigError::ErrHomeNotFound.message(), "No home directory found");
}
