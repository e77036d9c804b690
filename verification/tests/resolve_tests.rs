//! PathResolver and `get` target resolution on concrete inputs.

use grm::commands::Get;
use grm::remote::{parse_remote, ParsedRemote};
use grm::resolve::{contains_parent_segment, resolve_workspace_path, PathError};
use grm::sync::{resolve_target, GetError};

#[test]
fn https_scenario_resolves_under_root() {
    let request = Get {
        update: false,
        ssh: false,
        replace: false,
        remote: Some(b"https://example.com/group/proj.git".to_vec()),
    };
    let path = resolve_target(b"/ws", &request).unwrap();
    assert_eq!(path, b"/ws/example.com/group/proj".to_vec());
}

#[test]
fn ssh_scenario_resolves_to_same_path() {
    let request = Get {
        update: false,
        ssh: false,
        replace: false,
        remote: Some(b"git@example.com:group/proj.git".to_vec()),
    };
    let path = resolve_target(b"/ws", &request).unwrap();
    assert_eq!(path, b"/ws/example.com/group/proj".to_vec());
}

#[test]
fn resolution_is_stable_across_calls() {
    let request = Get {
        update: false,
        ssh: false,
        replace: false,
        remote: Some(b"https://example.com/group/proj.git".to_vec()),
    };
    let first = resolve_target(b"/ws", &request).unwrap();
    let second = resolve_target(b"/ws", &request).unwrap();
    assert_eq!(first, second);
}

#[test]
fn empty_project_degenerates_to_root_and_host() {
    let remote = parse_remote(b"https://example.com").unwrap();
    let path = resolve_workspace_path(b"/ws", &remote).unwrap();
    assert_eq!(path, b"/ws/example.com".to_vec());
}

#[test]
fn missing_remote_is_a_hard_error() {
    let request = Get { update: false, ssh: false, replace: false, remote: None };
    assert!(matches!(resolve_target(b"/ws", &request), Err(GetError::ErrNoRemote)));
}

#[test]
fn malformed_remote_surfaces_through_get() {
    let request = Get {
        update: false,
        ssh: false,
        replace: false,
        remote: Some(b"no such address".to_vec()),
    };
    assert!(matches!(resolve_target(b"/ws", &request), Err(GetError::ErrMalformedRemote)));
}

#[test]
fn parent_segments_are_detected() {
    assert!(contains_parent_segment(b".."));
    assert!(contains_parent_segment(b"../x"));
    assert!(contains_parent_segment(b"a/../b"));
    assert!(contains_parent_segment(b"a/.."));
    assert!(!contains_parent_segment(b"a/..b/c"));
    assert!(!contains_parent_segment(b"a..b"));
    assert!(!contains_parent_segment(b"group/proj"));
    assert!(!contains_parent_segment(b""));
}

#[test]
fn traversing_project_path_is_rejected() {
    let remote = ParsedRemote {
        host: b"example.com".to_vec(),
        project_path: b"../escape".to_vec(),
        original_address: b"https://example.com/../escape".to_vec(),
    };
    assert!(matches!(
        resolve_workspace_path(b"/ws", &remote),
        Err(PathError::ErrParentTraversal)
    ));
}
