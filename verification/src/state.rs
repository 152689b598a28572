//! The authenticator's state: a shared secret and the counter expected next.

use vstd::prelude::*;

verus! {

/// Why a message was not accepted.
#[derive(Debug, Clone, Copy, PartialEq, Eq, Structural)]
pub enum ReceiveError {
    /// The keyed primitive refused the secret. HMAC-SHA256 takes a key of
    /// any length, so with it no secret is refused; this is what a refusal
    /// by the primitive is reported as.
    BadKey,
    /// The tag is not the one expected at the current counter.
    BadSignature,
}

impl From<hmac::digest::InvalidLength> for ReceiveError {
    /// A refused key is a key error.
    fn from(e: hmac::digest::InvalidLength) -> (r: ReceiveError) {
        ReceiveError::BadKey
    }
}

impl vstd::std_specs::convert::FromSpecImpl<hmac::digest::InvalidLength> for ReceiveError {
    open spec fn obeys_from_spec() -> bool {
        true
    }

    open spec fn from_spec(e: hmac::digest::InvalidLength) -> ReceiveError {
        ReceiveError::BadKey
    }
}

impl From<hmac::digest::MacError> for ReceiveError {
    /// A tag mismatch is an authentication failure.
    fn from(e: hmac::digest::MacError) -> (r: ReceiveError) {
        ReceiveError::BadSignature
    }
}

impl vstd::std_specs::convert::FromSpecImpl<hmac::digest::MacError> for ReceiveError {
    open spec fn obeys_from_spec() -> bool {
        true
    }

    open spec fn from_spec(e: hmac::digest::MacError) -> ReceiveError {
        ReceiveError::BadSignature
    }
}

/// The counter that follows `counter`: one more, and zero after the largest.
pub open spec fn next_counter(counter: u64) -> u64 {
    if counter == u64::MAX {
        0
    } else {
        (counter + 1) as u64
    }
}

/// What an authenticator is, mathematically.
pub struct AuthState {
    /// The shared secret.
    pub secret: Seq<u8>,
    /// The counter that the next accepted tag must be bound to.
    pub counter: u64,
}

impl AuthState {
    /// The state after one accepted message: same secret, next counter.
    pub open spec fn advanced(self) -> AuthState {
        AuthState { secret: self.secret, counter: next_counter(self.counter) }
    }
}

/// One party's authenticator. The secret is borrowed for the authenticator's
/// lifetime and never changes; the counter starts where the caller says and
/// moves only through [`Private::bump`].
pub struct Private<'a> {
    key: &'a [u8],
    counter: u64,
}

impl<'a> View for Private<'a> {
    type V = AuthState;

    closed spec fn view(&self) -> AuthState {
        AuthState { secret: self.key@, counter: self.counter }
    }
}

impl<'a> Private<'a> {
    /// An authenticator for `key` that expects counter zero.
    pub fn new(key: &'a [u8]) -> (p: Self)
        ensures
            p@ == (AuthState { secret: key@, counter: 0 }),
    {
        Private { key, counter: u64::MIN }
    }

    /// An authenticator for `key` that expects `counter`, for a party that
    /// joins a session already under way.
    pub fn with_counter(key: &'a [u8], counter: u64) -> (p: Self)
        ensures
            p@ == (AuthState { secret: key@, counter }),
    {
        Private { key, counter }
    }

    /// The counter expected next.
    pub fn counter(&self) -> (c: u64)
        ensures
            c == self@.counter,
    {
        self.counter
    }

    /// The shared secret.
    pub(crate) fn key(&self) -> (k: &'a [u8])
        ensures
            k@ == self@.secret,
    {
        self.key
    }

    /// Moves the counter on by one, wrapping to zero after the largest value.
    /// The secret stays.
    pub fn bump(&mut self)
        ensures
            final(self)@ == old(self)@.advanced(),
    {
        self.counter = self.counter.wrapping_add(1);
    }

    /// Applies the outcome of a tag comparison: a match moves the counter on
    /// by one; a mismatch is reported as [`ReceiveError::BadSignature`] and
    /// leaves the state as it was.
    pub fn settle(&mut self, outcome: Result<(), hmac::digest::MacError>) -> (r: Result<
        (),
        ReceiveError,
    >)
        ensures
            outcome is Ok ==> r == Ok::<(), ReceiveError>(()),
            outcome is Ok ==> final(self)@ == old(self)@.advanced(),
            outcome is Err ==> r == Err::<(), ReceiveError>(ReceiveError::BadSignature),
            outcome is Err ==> final(self)@ == old(self)@,
    {
        match outcome {
            Ok(()) => {
                self.bump();
                Ok(())
            },
            Err(e) => Err(ReceiveError::from(e)),
        }
    }
}

} // verus!
