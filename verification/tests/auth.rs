use dispatch::auth::AuthRequest;
use dispatch::client::{format_feedback, Feedback};
use dispatch::endpoints::check_format;

#[test]
fn valid_credentials_at_the_limit() {
    let r = AuthRequest { username: "abcdefgh", password: "12345678" };
    assert!(r.is_valid());
    assert!(!r.is_empty());
}

#[test]
fn too_long_username_is_invalid() {
    let r = AuthRequest { username: "abcdefghi", password: "x" };
    assert!(!r.is_valid());
    assert!(!r.is_empty());
}

#[test]
fn too_long_password_is_invalid() {
    let r = AuthRequest { username: "a", password: "123456789" };
    assert!(!r.is_valid());
}

#[test]
fn empty_fields_are_invalid_and_empty() {
    let r = AuthRequest { username: "", password: "secret" };
    assert!(!r.is_valid());
    assert!(r.is_empty());
    let r = AuthRequest { username: "user", password: "" };
    assert!(!r.is_valid());
    assert!(r.is_empty());
}

#[test]
fn length_limit_is_in_bytes() {
    // Four Cyrillic letters are eight bytes; five are ten.
    let r = AuthRequest { username: "мама", password: "p" };
    assert!(r.is_valid());
    let r = AuthRequest { username: "мамам", password: "p" };
    assert!(!r.is_valid());
}

#[test]
fn valid_request_passes_the_server_format_check() {
    let r = AuthRequest { username: "alice", password: "pw" };
    assert!(r.is_valid());
    assert!(check_format(Some(&r)).is_none());
    assert!(format_feedback(&r).is_none());
}

#[test]
fn server_format_check_rejects_unparsed_body() {
    let rej = check_format(None).unwrap();
    assert_eq!(rej.status_code, 409);
    assert_eq!(rej.status_text, "Conflict");
    assert_eq!(rej.body, "Wrong format");
    // A body that parsed goes on to the database, empty fields or not.
    let r = AuthRequest { username: "", password: "pw" };
    assert!(check_format(Some(&r)).is_none());
}

#[test]
fn client_format_feedback_is_red_wrong_format() {
    let r = AuthRequest { username: "toolongname", password: "pw" };
    match format_feedback(&r) {
        Some(Feedback::Failure(t)) => assert_eq!(t, "Wrong format"),
        _ => panic!("expected a failure"),
    }
}
