use vstd::prelude::*;

use crate::auth::AuthRequest;
use crate::response::{http_response, Response};
use crate::token::{
    count_char, hs256_authentic, sign_session_token, token_lifetime_seconds, verified_subject,
    MIN_SECRET_BYTES,
};

verus! {

/// A reply of the REST endpoints: status line and plain-text body.
#[derive(Debug)]
pub struct Reply {
    pub status_code: u16,
    pub status_text: String,
    pub body: String,
}

impl Reply {
    /// True when the reply has exactly this status and body.
    pub open spec fn is(&self, status_code: u16, status_text: Seq<char>, body: Seq<char>) -> bool {
        &&& self.status_code == status_code
        &&& self.status_text@ == status_text
        &&& self.body@ == body
    }

    /// The bytes written to the socket for this reply.
    pub fn to_bytes(&self) -> (bytes: Vec<u8>)
        ensures
            bytes@ == http_response(
                self.status_code as nat,
                vstd::utf8::encode_utf8(self.status_text@),
                vstd::utf8::encode_utf8(self.body@),
            ),
    {
        Response::new(self.status_code, self.status_text.as_str(), self.body.as_str())
    }
}

fn reply(status_code: u16, status_text: &str, body: &str) -> (r: Reply)
    ensures
        r.is(status_code, status_text@, body@),
{
    Reply { status_code, status_text: status_text.to_owned(), body: body.to_owned() }
}

/// `409 Conflict` with body `Wrong format`: the answer to a malformed request body.
pub fn wrong_format() -> (r: Reply)
    ensures
        r.is(409, "Conflict"@, "Wrong format"@),
{
    reply(409, "Conflict", "Wrong format")
}

/// Checks a request body that was parsed (or not) as an `AuthRequest`: a body that did
/// not parse is answered with `wrong_format`; one that parsed goes on to the database.
pub fn check_format(request: Option<&AuthRequest>) -> (rejection: Option<Reply>)
    ensures
        rejection is Some <==> request is None,
        rejection matches Some(r) ==> r.is(409, "Conflict"@, "Wrong format"@),
{
    match request {
        Some(_) => None,
        None => Some(wrong_format()),
    }
}

/// What the sign-in endpoint decides once it knows whether the credentials matched a
/// stored user and whether that user is connected already.
#[derive(PartialEq, Eq, Structural, Debug, Clone, Copy)]
pub enum SigninDecision {
    Grant,
    AlreadyIn,
    WrongCredentials,
}

/// The sign-in decision: credentials that match no row are refused; a matching user
/// who is connected already is refused; anyone else gets a token.
pub open spec fn spec_signin_decision(rows_affected: nat, already_connected: bool) -> SigninDecision {
    if rows_affected == 0 {
        SigninDecision::WrongCredentials
    } else if already_connected {
        SigninDecision::AlreadyIn
    } else {
        SigninDecision::Grant
    }
}

/// Decides a sign-in from the number of rows that matched the credentials and whether
/// the user is connected already.
pub fn signin_decision(rows_affected: u64, already_connected: bool) -> (d: SigninDecision)
    ensures
        d == spec_signin_decision(rows_affected as nat, already_connected),
{
    if rows_affected != 0 {
        if !already_connected {
            SigninDecision::Grant
        } else {
            SigninDecision::AlreadyIn
        }
    } else {
        SigninDecision::WrongCredentials
    }
}

/// The reply to a sign-in that was refused: `409 Conflict / Already in` or
/// `401 Unauthorized / Wrong username/password`.
pub open spec fn refusal_matches(d: SigninDecision, r: Reply) -> bool {
    match d {
        SigninDecision::AlreadyIn => r.is(409, "Conflict"@, "Already in"@),
        SigninDecision::WrongCredentials => r.is(401, "Unauthorized"@, "Wrong username/password"@),
        SigninDecision::Grant => false,
    }
}

/// The reply to a granted sign-in: `200 OK` with the session token as body.
pub fn grant_reply(token: &str) -> (r: Reply)
    ensures
        r.is(200, "OK"@, token@),
{
    reply(200, "OK", token)
}

/// The reply to a refused sign-in.
pub fn refusal_reply(d: SigninDecision) -> (r: Reply)
    requires
        d != SigninDecision::Grant,
    ensures
        refusal_matches(d, r),
{
    match d {
        SigninDecision::AlreadyIn => reply(409, "Conflict", "Already in"),
        _ => reply(401, "Unauthorized", "Wrong username/password"),
    }
}

/// How long a session token stays valid, in minutes.
pub const SESSION_TOKEN_MINUTES: u64 = 1;

/// Errors of the sign-in endpoint other than its replies.
#[derive(PartialEq, Eq, Structural, Debug, Clone, Copy)]
pub enum SigninError {
    /// The session token could not be signed (for instance, the secret is too short).
    TokenSigning,
}

/// The sign-in endpoint after the credential lookup: refuses or signs a session token
/// for `username` with `secret` and answers with it.
pub fn signin_reply(secret: &[u8], username: &str, rows_affected: u64, already_connected: bool) -> (res: Result<Reply, SigninError>)
    ensures
        spec_signin_decision(rows_affected as nat, already_connected) != SigninDecision::Grant ==> (
            res matches Ok(r) && refusal_matches(spec_signin_decision(rows_affected as nat, already_connected), r)),
        spec_signin_decision(rows_affected as nat, already_connected) == SigninDecision::Grant ==> {
            &&& secret@.len() < MIN_SECRET_BYTES ==> res == Err::<Reply, SigninError>(SigninError::TokenSigning)
            &&& secret@.len() >= MIN_SECRET_BYTES ==> res is Ok
            &&& res matches Ok(r) ==> r.status_code == 200 && r.status_text@ == "OK"@ && count_char(r.body@, '.') == 2
            &&& res matches Ok(r) ==> verified_subject(r.body@) == Some(username@)
            &&& res matches Ok(r) ==> hs256_authentic(secret@, r.body@)
            &&& res matches Ok(r) ==> token_lifetime_seconds(r.body@) == Some(SESSION_TOKEN_MINUTES * 60)
        },
{
    let d = signin_decision(rows_affected, already_connected);
    match d {
        SigninDecision::Grant => {
            match sign_session_token(secret, username, SESSION_TOKEN_MINUTES) {
                Ok(token) => Ok(grant_reply(token.as_str())),
                Err(_) => Err(SigninError::TokenSigning),
            }
        },
        _ => Ok(refusal_reply(d)),
    }
}

/// What the sign-up endpoint decides once it has looked the username up.
#[derive(PartialEq, Eq, Structural, Debug, Clone, Copy)]
pub enum SignupDecision {
    /// The username is free: store the user.
    Register,
    /// The username is taken.
    AlreadyExists,
}

/// Decides a sign-up from the number of rows that hold the username: a free username
/// is to be stored, a taken one is not.
pub fn signup_decision(rows_affected: u64) -> (d: SignupDecision)
    ensures
        (d == SignupDecision::Register) == (rows_affected == 0),
{
    if rows_affected == 0 {
        SignupDecision::Register
    } else {
        SignupDecision::AlreadyExists
    }
}

/// The sign-up endpoint's answer once its decision is carried out (`stored`: whether
/// the new user was stored). A taken username is answered `409 Conflict / Already
/// exists`; a stored user `200 OK / Success`; a user that could not be stored gets no
/// answer (the handler fails with the database error): `200` means registered.
pub fn signup_reply(decision: SignupDecision, stored: bool) -> (r: Option<Reply>)
    ensures
        decision == SignupDecision::AlreadyExists ==> (r matches Some(reply) && reply.is(
            409,
            "Conflict"@,
            "Already exists"@,
        )),
        decision == SignupDecision::Register && stored ==> (r matches Some(reply) && reply.is(
            200,
            "OK"@,
            "Success"@,
        )),
        decision == SignupDecision::Register && !stored ==> r is None,
{
    match decision {
        SignupDecision::AlreadyExists => Some(reply(409, "Conflict", "Already exists")),
        SignupDecision::Register => {
            if stored {
                Some(reply(200, "OK", "Success"))
            } else {
                None
            }
        },
    }
}

} // verus!
