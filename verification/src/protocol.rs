//! The tag protocol: a tag binds a message to the counter at which it is
//! sent, and is accepted once, by a receiver that expects that counter.

use crate::primitive::{
    absorb, finish, hmac_sha256, mac_data, mac_key, start, verify, HmacSha256, TAG_LEN,
};
use crate::state::{AuthState, Private, ReceiveError};
use vstd::bytes::{spec_u64_to_le_bytes, u64_to_le_bytes};
use vstd::prelude::*;

verus! {

/// The bytes that are authenticated for `message` at `counter`: the message,
/// then the counter as eight bytes, least significant first.
pub open spec fn mac_input(message: Seq<u8>, counter: u64) -> Seq<u8> {
    message + spec_u64_to_le_bytes(counter)
}

impl AuthState {
    /// The one tag that this state accepts for `message`.
    pub open spec fn tag(self, message: Seq<u8>) -> Seq<u8> {
        hmac_sha256(self.secret, mac_input(message, self.counter))
    }

    /// The transition on a received message: the expected tag advances the
    /// counter, any other candidate is an authentication failure and changes
    /// nothing.
    pub open spec fn receive(self, message: Seq<u8>, candidate: Seq<u8>) -> (
        AuthState,
        Result<(), ReceiveError>,
    ) {
        if candidate == self.tag(message) {
            (self.advanced(), Ok(()))
        } else {
            (self, Err(ReceiveError::BadSignature))
        }
    }
}

/// Starts the keyed computation for `p` and feeds it `message` and the
/// current counter.
fn bind(p: &Private<'_>, message: &[u8]) -> (r: Result<HmacSha256, ReceiveError>)
    ensures
        r matches Ok(mac) && mac_key(mac) == p@.secret && mac_data(mac) == mac_input(
            message@,
            p@.counter,
        ),
{
    let mut mac = match start(p.key()) {
        Ok(mac) => mac,
        Err(e) => {
            return Err(ReceiveError::from(e));
        },
    };
    absorb(&mut mac, message);
    let suffix = u64_to_le_bytes(p.counter());
    absorb(&mut mac, suffix.as_slice());
    Ok(mac)
}

/// Computes the tag for `message` at the current counter. The state is only
/// read. HMAC-SHA256 takes a key of any length, so the call succeeds for
/// every secret.
pub fn send_message(p: &Private<'_>, message: &[u8]) -> (r: Result<Vec<u8>, ReceiveError>)
    ensures
        r matches Ok(tag) && tag@ == p@.tag(message@) && tag@.len() == TAG_LEN,
{
    let mac = bind(p, message)?;
    Ok(finish(mac))
}

/// Compares `authentication_tag` with the tag expected for `message` at the
/// current counter, in time that does not depend on where the two differ.
/// On a match the counter moves on by one; otherwise the state stays as it
/// was, so that the same position can be tried again. A candidate of any
/// length but [`TAG_LEN`] is a mismatch.
pub fn receive_message(p: &mut Private<'_>, message: &[u8], authentication_tag: &[u8]) -> (r:
    Result<(), ReceiveError>)
    ensures
        (final(p)@, r) == old(p)@.receive(message@, authentication_tag@),
        authentication_tag@.len() != TAG_LEN ==> r == Err::<(), ReceiveError>(
            ReceiveError::BadSignature,
        ),
{
    let mac = bind(p, message)?;
    let outcome = verify(mac, authentication_tag);
    p.settle(outcome)
}

} // verus!
