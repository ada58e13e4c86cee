use vstd::prelude::*;

use crate::auth::{acceptable_credentials, AuthRequest};
use crate::text::{chars_of, trim_end, trim_end_len};

verus! {

/// What the client got back for a sign-in or sign-up request.
#[derive(Debug)]
pub enum ServerAnswer {
    /// A success status, with the response body.
    Accepted(String),
    /// An error status, with the response body.
    Refused(String),
    /// No response at all.
    Unreachable,
}

/// The status line under the login form: green on success, red on failure.
#[derive(Debug)]
pub enum Feedback {
    Success(String),
    Failure(String),
}

/// The client's check before it sends credentials: a request that is not valid is
/// answered on the spot with a red `Wrong format`.
pub fn format_feedback(request: &AuthRequest) -> (f: Option<Feedback>)
    ensures
        f is None <==> acceptable_credentials(request.username@, request.password@),
        f matches Some(fb) ==> fb matches Feedback::Failure(t) && t@ == "Wrong format"@,
{
    if request.is_valid() {
        None
    } else {
        Some(Feedback::Failure("Wrong format".to_owned()))
    }
}

/// The text the client shows when the server cannot be reached.
pub open spec fn unreachable_text() -> Seq<char> {
    "Failed connection"@
}

/// The status line after a sign-up: the response body, green on success and red on
/// an error status; a red `Failed connection` when no response came.
pub fn signup_feedback(answer: ServerAnswer) -> (f: Feedback)
    ensures
        match answer {
            ServerAnswer::Accepted(b) => f matches Feedback::Success(t) && t@ == b@,
            ServerAnswer::Refused(b) => f matches Feedback::Failure(t) && t@ == b@,
            ServerAnswer::Unreachable => f matches Feedback::Failure(t) && t@ == unreachable_text(),
        },
{
    match answer {
        ServerAnswer::Accepted(body) => Feedback::Success(body),
        ServerAnswer::Refused(body) => Feedback::Failure(body),
        ServerAnswer::Unreachable => Feedback::Failure("Failed connection".to_owned()),
    }
}

/// What the client does after a sign-in.
#[derive(Debug)]
pub enum SigninStep {
    /// Open the chat with this session token.
    EnterChat(String),
    /// Stay on the login form and show this status line.
    Show(Feedback),
}

/// After a sign-in: a success body is the session token and opens the chat; an error
/// status shows its body in red; no response shows a red `Failed connection`.
pub fn signin_step(answer: ServerAnswer) -> (s: SigninStep)
    ensures
        match answer {
            ServerAnswer::Accepted(b) => s matches SigninStep::EnterChat(t) && t@ == b@,
            ServerAnswer::Refused(b) => s matches SigninStep::Show(Feedback::Failure(t)) && t@ == b@,
            ServerAnswer::Unreachable => s matches SigninStep::Show(Feedback::Failure(t)) && t@
                == unreachable_text(),
        },
{
    match answer {
        ServerAnswer::Accepted(token) => SigninStep::EnterChat(token),
        ServerAnswer::Refused(body) => SigninStep::Show(Feedback::Failure(body)),
        ServerAnswer::Unreachable => SigninStep::Show(Feedback::Failure("Failed connection".to_owned())),
    }
}

/// The message the chat input sends for `text`: the text without trailing white space,
/// or nothing when that leaves it empty.
pub fn outgoing_message(text: &str) -> (m: Option<String>)
    ensures
        m is Some <==> trim_end(text@).len() > 0,
        m matches Some(msg) ==> msg@ == trim_end(text@),
{
    let chars = chars_of(text);
    let n = trim_end_len(&chars);
    if n == 0 {
        None
    } else {
        Some(text.substring_char(0, n).to_owned())
    }
}

} // verus!
