use dispatch::endpoints::signin_reply;
use dispatch::session::{
    admission, check_token, echo_step, is_websocket_upgrade, Admission, EchoStep, Incoming, Session,
    SessionAction,
};

const SECRET: &[u8] = b"another-long-enough-secret";

fn token_for(user: &str) -> String {
    signin_reply(SECRET, user, 1, false).unwrap().body
}

#[test]
fn websocket_upgrade_header() {
    assert!(is_websocket_upgrade("GET /connect HTTP/1.1\r\nUpgrade: websocket\r\n"));
    assert!(!is_websocket_upgrade("GET /connect HTTP/1.1\r\nUpgrade: WebSocket\r\n"));
    assert!(!is_websocket_upgrade(""));
}

#[test]
fn admission_from_check_results() {
    assert!(matches!(admission(None), Admission::Refused));
    assert!(matches!(admission(Some(None)), Admission::NoSubject));
    match admission(Some(Some("bob".to_string()))) {
        Admission::Admitted(u) => assert_eq!(u, "bob"),
        _ => panic!("expected admission"),
    }
}

#[test]
fn signed_token_is_admitted() {
    match check_token(SECRET, &token_for("alice")) {
        Admission::Admitted(u) => assert_eq!(u, "alice"),
        _ => panic!("expected admission"),
    }
}

#[test]
fn foreign_or_malformed_tokens_are_refused() {
    let token = token_for("alice");
    assert!(matches!(check_token(b"a-different-secret-key", &token), Admission::Refused));
    assert!(matches!(check_token(SECRET, "not-a-token"), Admission::Refused));
    assert!(matches!(check_token(b"short", &token), Admission::Refused));
}

#[test]
fn full_session() {
    let mut s = Session::new();
    match s.receive(SECRET, Incoming::Text(token_for("alice"))) {
        SessionAction::Join(u) => assert_eq!(u, "alice"),
        _ => panic!("expected join"),
    }
    match s.receive(SECRET, Incoming::Text("hello".to_string())) {
        SessionAction::Publish(u, m) => {
            assert_eq!(u, "alice");
            assert_eq!(m, "hello");
        }
        _ => panic!("expected publish"),
    }
    match s.receive(SECRET, Incoming::Other) {
        SessionAction::Leave(u) => assert_eq!(u, "alice"),
        _ => panic!("expected leave"),
    }
    assert!(matches!(s.receive(SECRET, Incoming::Text("late".to_string())), SessionAction::Finish));
}

#[test]
fn refused_session_is_rejected_then_over() {
    let mut s = Session::new();
    assert!(matches!(s.receive(SECRET, Incoming::Text("x.y.z".to_string())), SessionAction::Reject));
    assert!(matches!(s.receive(SECRET, Incoming::Text("hi".to_string())), SessionAction::Finish));
}

#[test]
fn session_without_token_finishes() {
    let mut s = Session::new();
    assert!(matches!(s.receive(SECRET, Incoming::Closed), SessionAction::Finish));
    let mut s = Session::new();
    assert!(matches!(s.receive(SECRET, Incoming::Failed), SessionAction::Finish));
}

#[test]
fn chat_ends_on_error_or_close() {
    let mut s = Session::new();
    s.receive(SECRET, Incoming::Text(token_for("bob")));
    match s.receive(SECRET, Incoming::Failed) {
        SessionAction::Leave(u) => assert_eq!(u, "bob"),
        _ => panic!("expected leave"),
    }
}

#[test]
fn echo_rules() {
    match echo_step(Incoming::Text("ping".to_string())) {
        EchoStep::Echo(t) => assert_eq!(t, "ping"),
        _ => panic!("expected echo"),
    }
    assert!(matches!(echo_step(Incoming::Other), EchoStep::Skip));
    assert!(matches!(echo_step(Incoming::Closed), EchoStep::Stop));
    assert!(matches!(echo_step(Incoming::Failed), EchoStep::Fail));
}
