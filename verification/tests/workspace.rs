use code_relay::listener::listen_address;
use code_relay::workspace::{interpreter, Workspace};

const ID: &str = "123e4567-e89b-42d3-a456-426614174000";

#[test]
fn fresh_identifier_is_a_hyphenated_version_4_uuid() {
    let workspace = Workspace::fresh();
    let id: Vec<char> = workspace.id().chars().collect();
    assert_eq!(id.len(), 36);
    for (i, c) in id.iter().enumerate() {
        if i == 8 || i == 13 || i == 18 || i == 23 {
            assert_eq!(*c, '-');
        } else {
            assert!(matches!(*c, '0'..='9' | 'a'..='f'));
        }
    }
    assert_eq!(id[14], '4');
    assert!(matches!(id[19], '8' | '9' | 'a' | 'b'));
}

#[test]
fn fresh_identifiers_differ() {
    let a = Workspace::fresh();
    let b = Workspace::fresh();
    assert_ne!(a.id(), b.id());
    assert_ne!(a.dir_path(), b.dir_path());
    assert_ne!(a.script_path(), b.script_path());
}

#[test]
fn fresh_identifier_is_accepted_by_name() {
    let fresh = Workspace::fresh();
    let named = Workspace::with_id(fresh.id().to_string()).unwrap();
    assert_eq!(named.id(), fresh.id());
    assert_eq!(named.dir_path(), fresh.dir_path());
}

#[test]
fn paths_lie_under_the_root() {
    let workspace = Workspace::with_id(ID.to_string()).unwrap();
    assert_eq!(workspace.id(), ID);
    assert_eq!(workspace.dir_path(), "temp/123e4567-e89b-42d3-a456-426614174000");
    assert_eq!(
        workspace.script_path(),
        "temp/123e4567-e89b-42d3-a456-426614174000/script.js"
    );
}

#[test]
fn names_of_another_form_are_refused() {
    assert!(Workspace::with_id(String::new()).is_none());
    assert!(Workspace::with_id("..".to_string()).is_none());
    assert!(Workspace::with_id("../../etc/passwd".to_string()).is_none());
    assert!(Workspace::with_id("123e4567-e89b-42d3-a456-42661417400".to_string()).is_none());
    assert!(Workspace::with_id("123e4567-e89b-42d3-a456-4266141740000".to_string()).is_none());
    assert!(Workspace::with_id("123E4567-E89B-42D3-A456-426614174000".to_string()).is_none());
    assert!(Workspace::with_id("123e4567e89b-42d3-a456-4266141740000".to_string()).is_none());
    assert!(Workspace::with_id("123e4567-e89b-42d3-a456-42661417/000".to_string()).is_none());
    assert!(Workspace::with_id("123e4567-e89b-42d3-a456-42661417400g".to_string()).is_none());
    assert!(Workspace::with_id("123e4567-e89b-42d3-a456-42661417400\u{e9}".to_string()).is_none());
}

#[test]
fn names_of_another_version_or_variant_are_refused() {
    assert!(Workspace::with_id("123e4567-e89b-12d3-a456-426614174000".to_string()).is_none());
    assert!(Workspace::with_id("123e4567-e89b-42d3-c456-426614174000".to_string()).is_none());
    assert!(Workspace::with_id("123e4567-e89b-42d3-7456-426614174000".to_string()).is_none());
    assert!(Workspace::with_id("123e4567-e89b-42d3-8456-426614174000".to_string()).is_some());
    assert!(Workspace::with_id("123e4567-e89b-42d3-9456-426614174000".to_string()).is_some());
    assert!(Workspace::with_id("123e4567-e89b-42d3-b456-426614174000".to_string()).is_some());
    assert!(Workspace::with_id("00000000-0000-4000-8000-000000000000".to_string()).is_some());
    assert!(Workspace::with_id("ffffffff-ffff-4fff-bfff-ffffffffffff".to_string()).is_some());
}

#[test]
fn interpreter_is_node() {
    assert_eq!(interpreter(), "node");
}

#[test]
fn listen_address_is_loopback_with_the_port() {
    assert_eq!(listen_address(8000), "127.0.0.1:8000");
    assert_eq!(listen_address(0), "127.0.0.1:0");
    assert_eq!(listen_address(7), "127.0.0.1:7");
    assert_eq!(listen_address(80), "127.0.0.1:80");
    assert_eq!(listen_address(1009), "127.0.0.1:1009");
    assert_eq!(listen_address(65535), "127.0.0.1:65535");
}
