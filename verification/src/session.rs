use vstd::prelude::*;

use crate::text::{contains, contains_seq};
use crate::token::{
    count_char, hs256_authentic, verified_subject, verify_session_token, MIN_SECRET_BYTES,
};

verus! {

/// Whether a `GET /connect` request asks for a websocket: its headers hold
/// `Upgrade: websocket`.
pub fn is_websocket_upgrade(headers: &str) -> (b: bool)
    ensures
        b == contains_seq(headers@, "Upgrade: websocket"@),
{
    contains(headers, "Upgrade: websocket")
}

/// What the next read of a websocket gave.
#[derive(Debug)]
pub enum Incoming {
    /// A text frame.
    Text(String),
    /// Any other frame (binary, ping, pong, close).
    Other,
    /// A read error.
    Failed,
    /// The end of the stream.
    Closed,
}

/// The outcome of checking the session token that a client sends first.
#[derive(Debug)]
pub enum Admission {
    /// The token is valid and names this user.
    Admitted(String),
    /// The token is invalid or expired.
    Refused,
    /// The token is valid but names nobody.
    NoSubject,
}

/// The admission for a token check that failed (`None`) or gave the token's subject.
pub fn admission(checked: Option<Option<String>>) -> (a: Admission)
    ensures
        match checked {
            None => a is Refused,
            Some(None) => a is NoSubject,
            Some(Some(user)) => a matches Admission::Admitted(u) && u@ == user@,
        },
{
    match checked {
        None => Admission::Refused,
        Some(None) => Admission::NoSubject,
        Some(Some(user)) => Admission::Admitted(user),
    }
}

/// Checks a session token with the server's secret. A secret shorter than
/// `MIN_SECRET_BYTES` or a token that is not three dot-separated parts is refused; a
/// token that passes is authentic under `secret` and admits the user its claims name,
/// or names nobody.
pub fn check_token(secret: &[u8], token: &str) -> (a: Admission)
    ensures
        secret@.len() < MIN_SECRET_BYTES ==> a is Refused,
        count_char(token@, '.') != 2 ==> a is Refused,
        a matches Admission::Admitted(u) ==> verified_subject(token@) == Some(u@),
        a is NoSubject ==> verified_subject(token@) is None,
        !(a is Refused) ==> hs256_authentic(secret@, token@),
{
    match verify_session_token(secret, token) {
        Ok(subject) => admission(Some(subject)),
        Err(_) => admission(None),
    }
}

/// Where a websocket session of the chat stands.
#[derive(Debug)]
pub enum SessionState {
    /// Connected; the first frame must carry the session token.
    AwaitingToken,
    /// The user is in the chat.
    Chatting(String),
    /// The session is over.
    Over,
}

/// What the server does after a frame of a session.
#[derive(Debug)]
pub enum SessionAction {
    /// Nothing more: the handler returns.
    Finish,
    /// Register the connection under this username and replay the stored messages.
    Join(String),
    /// Close the websocket: the token was refused.
    Reject,
    /// The token names nobody: the handler gives up with a panic.
    Abort,
    /// Publish a message from a user: the user and the body.
    Publish(String, String),
    /// Unregister this username and close its connection.
    Leave(String),
}

/// The session protocol: from a state and a frame (with the admission of the token
/// when the frame is the first one) to the next state and the server's action.
pub open spec fn transition(state: SessionState, frame: Incoming, adm: Admission) -> (SessionState, SessionAction) {
    match state {
        SessionState::AwaitingToken => match frame {
            Incoming::Text(_) => match adm {
                Admission::Admitted(u) => (SessionState::Chatting(u), SessionAction::Join(u)),
                Admission::Refused => (SessionState::Over, SessionAction::Reject),
                Admission::NoSubject => (SessionState::Over, SessionAction::Abort),
            },
            _ => (SessionState::Over, SessionAction::Finish),
        },
        SessionState::Chatting(u) => match frame {
            Incoming::Text(m) => (SessionState::Chatting(u), SessionAction::Publish(u, m)),
            _ => (SessionState::Over, SessionAction::Leave(u)),
        },
        SessionState::Over => (SessionState::Over, SessionAction::Finish),
    }
}

/// The server side of one websocket session of the chat.
pub struct Session {
    state: SessionState,
}

impl Session {
    /// The session's current state.
    pub closed spec fn state(&self) -> SessionState {
        self.state
    }

    /// A new session, waiting for the token.
    pub fn new() -> (s: Self)
        ensures
            s.state() is AwaitingToken,
    {
        Session { state: SessionState::AwaitingToken }
    }

    /// Feeds the next frame of the websocket to the session: the first frame's text is
    /// checked as a session token with `secret`.
    pub fn receive(&mut self, secret: &[u8], frame: Incoming) -> (action: SessionAction)
        ensures
            exists|adm: Admission|
                #![trigger transition(old(self).state(), frame, adm)]
                {
                    &&& (final(self).state(), action) == transition(old(self).state(), frame, adm)
                    &&& (old(self).state() is AwaitingToken && frame is Text) ==> {
                        &&& secret@.len() < MIN_SECRET_BYTES ==> adm is Refused
                        &&& (frame matches Incoming::Text(t) && count_char(t@, '.') != 2) ==> adm is Refused
                        &&& frame matches Incoming::Text(t) ==> (adm matches Admission::Admitted(u)
                            ==> verified_subject(t@) == Some(u@))
                        &&& frame matches Incoming::Text(t) ==> (adm is NoSubject ==> verified_subject(t@) is None)
                        &&& frame matches Incoming::Text(t) ==> (!(adm is Refused) ==> hs256_authentic(secret@, t@))
                    }
                },
            old(self).state() matches SessionState::Chatting(u) ==> match frame {
                Incoming::Text(m) => final(self).state() == SessionState::Chatting(u) && (action matches SessionAction::Publish(
                    v,
                    b,
                ) && v@ == u@ && b@ == m@),
                _ => final(self).state() is Over && (action matches SessionAction::Leave(v) && v@ == u@),
            },
            !(frame is Text) ==> final(self).state() is Over,
            old(self).state() is Over ==> final(self).state() is Over && action is Finish,
            old(self).state() is AwaitingToken && !(frame is Text) ==> action is Finish,
    {
        let mut state = SessionState::Over;
        std::mem::swap(&mut state, &mut self.state);
        let ghost old_state = state;
        let ghost mut witness = Admission::Refused;
        let (next, action) = match state {
            SessionState::AwaitingToken => match frame {
                Incoming::Text(token) => {
                    let adm = check_token(secret, token.as_str());
                    proof {
                        witness = adm;
                    }
                    match adm {
                        Admission::Admitted(u) => {
                            let name = u.clone();
                            (SessionState::Chatting(u), SessionAction::Join(name))
                        },
                        Admission::Refused => (SessionState::Over, SessionAction::Reject),
                        Admission::NoSubject => (SessionState::Over, SessionAction::Abort),
                    }
                },
                _ => (SessionState::Over, SessionAction::Finish),
            },
            SessionState::Chatting(u) => match frame {
                Incoming::Text(m) => {
                    let name = u.clone();
                    (SessionState::Chatting(u), SessionAction::Publish(name, m))
                },
                _ => (SessionState::Over, SessionAction::Leave(u)),
            },
            SessionState::Over => (SessionState::Over, SessionAction::Finish),
        };
        self.state = next;
        assert((self.state, action) == transition(old_state, frame, witness));
        action
    }
}

/// What the echo server does with the next read of a websocket.
#[derive(Debug)]
pub enum EchoStep {
    /// Print the text and send it back.
    Echo(String),
    /// Ignore a frame that is not text.
    Skip,
    /// The stream ended: the handler returns.
    Stop,
    /// The read failed: the handler gives up with a panic.
    Fail,
}

/// The echo server's rule: text is echoed, other frames are skipped.
pub fn echo_step(frame: Incoming) -> (step: EchoStep)
    ensures
        match frame {
            Incoming::Text(t) => step matches EchoStep::Echo(e) && e@ == t@,
            Incoming::Other => step is Skip,
            Incoming::Failed => step is Fail,
            Incoming::Closed => step is Stop,
        },
{
    match frame {
        Incoming::Text(t) => EchoStep::Echo(t),
        Incoming::Other => EchoStep::Skip,
        Incoming::Failed => EchoStep::Fail,
        Incoming::Closed => EchoStep::Stop,
    }
}


/// A session that is over stays over and does nothing more.
pub proof fn lemma_over_is_final(frame: Incoming, adm: Admission)
    ensures
        transition(SessionState::Over, frame, adm) == (SessionState::Over, SessionAction::Finish),
{
}

/// Every message a session publishes comes from the user it joined as, and publishing
/// keeps the session in the chat.
pub proof fn lemma_publish_only_as_joined(state: SessionState, frame: Incoming, adm: Admission)
    ensures
        ({
            let (next, action) = transition(state, frame, adm);
            action matches SessionAction::Publish(u, m) ==> state == SessionState::Chatting(u)
                && next == state && frame == Incoming::Text(m)
        }),
{
}

/// A session joins only from the token check and leaves only from the chat, and it
/// leaves as the user it joined as; a refused token never joins.
pub proof fn lemma_join_and_leave(state: SessionState, frame: Incoming, adm: Admission)
    ensures
        ({
            let (next, action) = transition(state, frame, adm);
            &&& action matches SessionAction::Join(u) ==> state is AwaitingToken && next
                == SessionState::Chatting(u) && adm == Admission::Admitted(u)
            &&& action matches SessionAction::Leave(u) ==> state == SessionState::Chatting(u) && next
                is Over
            &&& (state is AwaitingToken && adm is Refused) ==> !(action is Join) && next is Over
        }),
{
}


/// A session that sign-in's token opens joins as the user the token was issued to, and
/// only under a secret the token is authentic under: whatever admission the token check
/// gives (as `check_token` and `Session::receive` state it), a join names `issued_to`.
pub proof fn lemma_session_joins_as_token_user(
    secret: Seq<u8>,
    token: String,
    issued_to: Seq<char>,
    adm: Admission,
)
    requires
        verified_subject(token@) == Some(issued_to),
        adm matches Admission::Admitted(u) ==> verified_subject(token@) == Some(u@),
        !(adm is Refused) ==> hs256_authentic(secret, token@),
    ensures
        ({
            let (next, action) = transition(SessionState::AwaitingToken, Incoming::Text(token), adm);
            action matches SessionAction::Join(u) ==> u@ == issued_to && hs256_authentic(secret, token@)
                && next == SessionState::Chatting(u)
        }),
{
}

/// A user in the chat stays in it on each text frame, which is published as that user,
/// and leaves on anything else (another frame, a read error or the end of the stream):
/// the session is then over and the user is to be unregistered.
pub proof fn lemma_chat_leaves_on_any_non_text(user: String, frame: Incoming, adm: Admission)
    ensures
        ({
            let (next, action) = transition(SessionState::Chatting(user), frame, adm);
            match frame {
                Incoming::Text(m) => next == SessionState::Chatting(user) && action == SessionAction::Publish(user, m),
                _ => next == SessionState::Over && action == SessionAction::Leave(user),
            }
        }),
{
}

/// Only a session in the chat leaves, and a session that is not in the chat ends on
/// any frame that is not text without leaving.
pub proof fn lemma_leave_exactly_from_chat(state: SessionState, frame: Incoming, adm: Admission)
    ensures
        (transition(state, frame, adm).1 is Leave) <==> (state is Chatting && !(frame is Text)),
        !(frame is Text) ==> transition(state, frame, adm).0 == SessionState::Over,
{
}

} // verus!
