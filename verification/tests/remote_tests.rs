//! RemoteLocator behaviour on concrete addresses.

use grm::remote::{parse_remote, rewrite_ssh_shorthand, RemoteError};

#[test]
fn https_address_yields_host_and_project() {
    let r = parse_remote(b"https://example.com/group/proj.git").unwrap();
    assert_eq!(r.host, b"example.com".to_vec());
    assert_eq!(r.project_path, b"group/proj".to_vec());
    assert_eq!(r.original_address, b"https://example.com/group/proj.git".to_vec());
}

#[test]
fn ssh_shorthand_yields_host_and_project() {
    let r = parse_remote(b"git@example.com:group/proj.git").unwrap();
    assert_eq!(r.host, b"example.com".to_vec());
    assert_eq!(r.project_path, b"group/proj".to_vec());
}

#[test]
fn ssh_shorthand_matches_https_form() {
    let ssh = parse_remote(b"git@example.com:group/proj.git").unwrap();
    let https = parse_remote(b"https://example.com/group/proj.git").unwrap();
    assert_eq!(ssh.host, https.host);
    assert_eq!(ssh.project_path, https.project_path);
}

#[test]
fn ssh_shorthand_rewrites_first_colon_only() {
    let rewritten = rewrite_ssh_shorthand(b"git@example.com:group/proj.git");
    assert_eq!(rewritten, b"ssh://git@example.com/group/proj.git".to_vec());
}

#[test]
fn https_address_is_not_rewritten() {
    let rewritten = rewrite_ssh_shorthand(b"https://example.com/group/proj.git");
    assert_eq!(rewritten, b"https://example.com/group/proj.git".to_vec());
}

#[test]
fn address_without_dot_git_suffix_is_kept() {
    let r = parse_remote(b"https://example.com/group/proj").unwrap();
    assert_eq!(r.host, b"example.com".to_vec());
    assert_eq!(r.project_path, b"group/proj".to_vec());
}

#[test]
fn strips_exactly_one_dot_git() {
    let r = parse_remote(b"https://example.com/proj.git.git").unwrap();
    assert_eq!(r.project_path, b"proj.git".to_vec());
}

#[test]
fn empty_project_path_is_accepted() {
    // `https://example.com` parses to the path `/`; the project path
    // degenerates to empty, deliberately not an error.
    let r = parse_remote(b"https://example.com").unwrap();
    assert_eq!(r.host, b"example.com".to_vec());
    assert_eq!(r.project_path, b"".to_vec());
}

#[test]
fn internal_structure_is_preserved() {
    let r = parse_remote(b"https://example.com/a/b/c/d.git").unwrap();
    assert_eq!(r.project_path, b"a/b/c/d".to_vec());
}

#[test]
fn malformed_address_is_rejected() {
    assert!(matches!(
        parse_remote(b"not a remote address"),
        Err(RemoteError::ErrMalformedRemote)
    ));
}

#[test]
fn address_without_host_is_rejected() {
    assert!(matches!(parse_remote(b"file:///tmp/x"), Err(RemoteError::ErrMalformedRemote)));
}

#[test]
fn empty_address_is_rejected() {
    assert!(matches!(parse_remote(b""), Err(RemoteError::ErrMalformedRemote)));
}

#[test]
fn full_plain_alphabet_round_trips() {
    let r = parse_remote(b"https://ex-ample.com/A_b~c-9/x.git").unwrap();
    assert_eq!(r.host, b"ex-ample.com".to_vec());
    assert_eq!(r.project_path, b"A_b~c-9/x".to_vec());
}

#[test]
fn shorthand_user_names_are_not_limited_to_git() {
    let r = parse_remote(b"a.b-c_9@host.name:x/y.git").unwrap();
    assert_eq!(r.host, b"host.name".to_vec());
    assert_eq!(r.project_path, b"x/y".to_vec());
}

#[test]
fn hosts_with_digits_in_labels_parse_verbatim() {
    let r = parse_remote(b"https://s3.amazonaws.com/bucket/proj.git").unwrap();
    assert_eq!(r.host, b"s3.amazonaws.com".to_vec());
    assert_eq!(r.project_path, b"bucket/proj".to_vec());
}

#[test]
fn ace_shaped_host_label_is_rejected_by_the_parser() {
    // An `xn--` label ending in `-` fails domain processing; the locator
    // reports the address as malformed, and no contract of this crate
    // claims otherwise (such hosts are not plain).
    assert!(matches!(
        parse_remote(b"https://xn--abc-.example/p.git"),
        Err(RemoteError::ErrMalformedRemote)
    ));
}
