use jwt_simple::prelude::MACLike;
use vstd::prelude::*;

verus! {

/// The error type of jwt_simple (a re-export of `anyhow::Error`).
#[verifier::external_type_specification]
#[verifier::external_body]
pub struct ExJwtError(jwt_simple::Error);

/// Number of occurrences of `c` in `s`.
pub open spec fn count_char(s: Seq<char>, c: char) -> nat
    decreases s.len(),
{
    if s.len() == 0 {
        0
    } else {
        count_char(s.drop_last(), c) + if s.last() == c { 1nat } else { 0nat }
    }
}

/// The subject that jwt_simple's `MACLike::verify_token` gives back for `token` when
/// verification succeeds: the `sub` claim that the token's middle part encodes.
pub uninterp spec fn verified_subject(token: Seq<char>) -> Option<Seq<char>>;

/// Whether `token` is authentic under `secret`: its third part is the HMAC-SHA256, keyed
/// with `secret`, of its first two parts (the check jwt_simple's HS256 keys make).
pub uninterp spec fn hs256_authentic(secret: Seq<u8>, token: Seq<char>) -> bool;

/// The lifetime, in seconds, that `token` carries: its `exp` claim minus its `iat`
/// claim, as the token's middle part encodes them (`None` without both).
pub uninterp spec fn token_lifetime_seconds(token: Seq<char>) -> Option<int>;

/// The string views of an optional string.
pub open spec fn option_view(o: Option<String>) -> Option<Seq<char>> {
    match o {
        Some(s) => Some(s@),
        None => None,
    }
}

/// Shortest HMAC secret, in bytes, that jwt_simple signs or verifies with.
pub const MIN_SECRET_BYTES: usize = 12;

/// Longest lifetime, in minutes, that session tokens are signed with here (about two
/// years): far from overflowing jwt_simple's 32.32 fixed-point timestamps.
pub const MAX_TOKEN_MINUTES: u64 = 1_000_000;

/// Signs a session token for `username` that is valid for `valid_for_minutes` minutes.
///
/// Calls jwt_simple's `HS256Key::from_bytes`, `Duration::from_mins`, `Claims::create`,
/// `JWTClaims::with_subject` and `MACLike::authenticate`. Trusted: jwt_simple refuses
/// keys shorter than twelve bytes (`JWTError::WeakKey`) and otherwise signs (the JSON
/// and base64 steps of `Token::build` cannot fail for these claims); a token it builds
/// is three base64url parts joined by two dots, the third the HMAC-SHA256 of the first
/// two under `secret` (`hs256_authentic`); its claims carry `username` as `sub`,
/// which verification reads back (`verified_subject`), and an `exp` that lies
/// `valid_for_minutes` minutes after its `iat`, in whole seconds. The issue time itself
/// is left unsaid: it is the clock's.
#[verifier::external_body]
pub(crate) fn sign_session_token(secret: &[u8], username: &str, valid_for_minutes: u64) -> (token: Result<String, jwt_simple::Error>)
    requires
        valid_for_minutes <= MAX_TOKEN_MINUTES,
    ensures
        secret@.len() < MIN_SECRET_BYTES <==> token is Err,
        token matches Ok(t) ==> count_char(t@, '.') == 2,
        token matches Ok(t) ==> verified_subject(t@) == Some(username@),
        token matches Ok(t) ==> hs256_authentic(secret@, t@),
        token matches Ok(t) ==> token_lifetime_seconds(t@) == Some(valid_for_minutes * 60),
{
    let key = jwt_simple::prelude::HS256Key::from_bytes(secret);
    let claims = jwt_simple::claims::Claims::create(jwt_simple::prelude::Duration::from_mins(valid_for_minutes))
        .with_subject(username);
    key.authenticate(claims)
}

/// Verifies a session token and hands back its subject.
///
/// Calls jwt_simple's `HS256Key::from_bytes` and `MACLike::verify_token` with the
/// default verification options, and picks the `subject` field of the claims.
/// Trusted: verification fails for keys shorter than twelve bytes (`JWTError::WeakKey`)
/// and for tokens that are not three parts joined by two dots
/// (`JWTError::CompactEncodingError`); a token passes only if it is authentic under
/// `secret` (otherwise `JWTError::InvalidAuthenticationTag`); the subject of a token that passes is the `sub`
/// claim its middle part encodes, a function of the token (`verified_subject`). Whether
/// a well-formed token passes is left unsaid: it depends on the current time and on the
/// HMAC.
#[verifier::external_body]
pub(crate) fn verify_session_token(secret: &[u8], token: &str) -> (subject: Result<Option<String>, jwt_simple::Error>)
    ensures
        secret@.len() < MIN_SECRET_BYTES ==> subject is Err,
        count_char(token@, '.') != 2 ==> subject is Err,
        subject matches Ok(sub) ==> option_view(sub) == verified_subject(token@),
        subject is Ok ==> hs256_authentic(secret@, token@),
{
    let key = jwt_simple::prelude::HS256Key::from_bytes(secret);
    key.verify_token::<jwt_simple::claims::NoCustomClaims>(token, None).map(|claims| claims.subject)
}

} // verus!
