use dispatch::client::{outgoing_message, signin_step, signup_feedback, Feedback, ServerAnswer, SigninStep};

#[test]
fn outgoing_trims_trailing_whitespace() {
    assert_eq!(outgoing_message("hello  \n\t"), Some("hello".to_string()));
    assert_eq!(outgoing_message("  hi there "), Some("  hi there".to_string()));
    assert_eq!(outgoing_message("wide\u{3000}"), Some("wide".to_string()));
}

#[test]
fn outgoing_drops_blank_input() {
    assert_eq!(outgoing_message(""), None);
    assert_eq!(outgoing_message(" \t\r\n\u{a0}"), None);
}

#[test]
fn outgoing_is_idempotent() {
    let once = outgoing_message("text \u{2003}").unwrap();
    assert_eq!(outgoing_message(&once), Some(once.clone()));
}

#[test]
fn signup_feedback_lines() {
    match signup_feedback(ServerAnswer::Accepted("Success".to_string())) {
        Feedback::Success(t) => assert_eq!(t, "Success"),
        _ => panic!(),
    }
    match signup_feedback(ServerAnswer::Refused("Already exists".to_string())) {
        Feedback::Failure(t) => assert_eq!(t, "Already exists"),
        _ => panic!(),
    }
    match signup_feedback(ServerAnswer::Unreachable) {
        Feedback::Failure(t) => assert_eq!(t, "Failed connection"),
        _ => panic!(),
    }
}

#[test]
fn signin_steps() {
    match signin_step(ServerAnswer::Accepted("a.b.c".to_string())) {
        SigninStep::EnterChat(t) => assert_eq!(t, "a.b.c"),
        _ => panic!(),
    }
    match signin_step(ServerAnswer::Refused("Already in".to_string())) {
        SigninStep::Show(Feedback::Failure(t)) => assert_eq!(t, "Already in"),
        _ => panic!(),
    }
    match signin_step(ServerAnswer::Unreachable) {
        SigninStep::Show(Feedback::Failure(t)) => assert_eq!(t, "Failed connection"),
        _ => panic!(),
    }
}
