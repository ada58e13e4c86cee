use vstd::prelude::*;

verus! {

/// A version-4 (random) UUID in its 128-bit form: version nibble 4 and the RFC 4122
/// variant bits `10`.
pub open spec fn is_random_uuid(id: u128) -> bool {
    &&& (id >> 76u128) & 0xfu128 == 4
    &&& (id >> 62u128) & 0x3u128 == 2
}

/// A fresh random connection id.
///
/// Calls uuid's `Uuid::new_v4` and `Uuid::as_u128`. Trusted: `new_v4` masks random bits
/// into a version-4 UUID with the RFC 4122 variant. Which id comes out is chance.
#[verifier::external_body]
fn random_connection_id() -> (id: u128)
    ensures
        is_random_uuid(id),
{
    uuid::Uuid::new_v4().as_u128()
}

/// A user's connection: a random id, the username and the sending half of the channel
/// that feeds the user's socket.
pub struct Connection<S> {
    id: u128,
    username: String,
    channel_sender: S,
}

impl<S> Connection<S> {
    /// The connection's id.
    pub closed spec fn spec_id(&self) -> u128 {
        self.id
    }

    /// The connection's username.
    pub closed spec fn spec_username(&self) -> Seq<char> {
        self.username@
    }

    /// The connection's channel sender.
    pub closed spec fn spec_channel_sender(&self) -> S {
        self.channel_sender
    }

    /// A connection of `username` that sends through `sender`, under a fresh random id.
    pub fn new(username: String, sender: S) -> (c: Self)
        ensures
            c.spec_username() == username@,
            c.spec_channel_sender() == sender,
            is_random_uuid(c.spec_id()),
    {
        Connection { id: random_connection_id(), username, channel_sender: sender }
    }

    /// The connection's id.
    pub fn id(&self) -> (id: u128)
        ensures
            id == self.spec_id(),
    {
        self.id
    }

    /// The connection's username.
    pub fn username(&self) -> (name: String)
        ensures
            name@ == self.spec_username(),
    {
        self.username.clone()
    }

    /// The connection's channel sender.
    pub fn channel_sender(&self) -> (sender: &S)
        ensures
            *sender == self.spec_channel_sender(),
    {
        &self.channel_sender
    }
}

} // verus!
