use vstd::prelude::*;

verus! {

/// Longest username or password, in bytes, that the client submits.
pub const MAX_CREDENTIAL_BYTES: usize = 8;

/// Credentials that the client may submit: both fields non-empty and each at most
/// `MAX_CREDENTIAL_BYTES` bytes long in UTF-8.
pub open spec fn acceptable_credentials(username: Seq<char>, password: Seq<char>) -> bool {
    &&& username.len() > 0
    &&& password.len() > 0
    &&& vstd::utf8::encode_utf8(username).len() <= MAX_CREDENTIAL_BYTES
    &&& vstd::utf8::encode_utf8(password).len() <= MAX_CREDENTIAL_BYTES
}

/// A sign-in or sign-up request: the body of `POST /signin` and `POST /signup`.
pub struct AuthRequest<'a> {
    pub username: &'a str,
    pub password: &'a str,
}

impl<'a> AuthRequest<'a> {
    /// The server's format check: true when either field is empty.
    pub fn is_empty(&self) -> (empty: bool)
        ensures
            empty == (self.username@.len() == 0 || self.password@.len() == 0),
    {
        self.username.is_empty() || self.password.is_empty()
    }

    /// The client's format check: both fields non-empty and at most eight bytes each.
    pub fn is_valid(&self) -> (valid: bool)
        ensures
            valid == acceptable_credentials(self.username@, self.password@),
    {
        let is_empty = self.username.is_empty() || self.password.is_empty();
        let username_bytes: &[u8] = self.username.as_bytes();
        let password_bytes: &[u8] = self.password.as_bytes();
        let correct_length = username_bytes.len() <= MAX_CREDENTIAL_BYTES
            && password_bytes.len() <= MAX_CREDENTIAL_BYTES;
        !is_empty && correct_length
    }
}

/// Whatever the client accepts, the server's format check accepts too.
pub proof fn lemma_valid_request_is_not_empty(username: Seq<char>, password: Seq<char>)
    requires
        acceptable_credentials(username, password),
    ensures
        !(username.len() == 0 || password.len() == 0),
{
}

} // verus!
