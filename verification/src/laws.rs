//! What the protocol guarantees, proved over the model in
//! [`AuthState`](crate::state::AuthState).
//!
//! HMAC-SHA256 maps inputs of any length to 32 bytes, so two inputs with one
//! tag exist, though none is known. The guarantees that rest on the tag
//! telling two inputs apart say so in their `requires`, through
//! [`collide`]; the others hold of every input.

use crate::primitive::hmac_sha256;
use crate::protocol::mac_input;
use crate::state::{next_counter, AuthState, ReceiveError};
use vstd::bytes::{lemma_auto_spec_u64_to_from_le_bytes, spec_u64_to_le_bytes};
use vstd::prelude::*;

verus! {

/// Two different inputs that have one tag under `key`.
pub open spec fn collide(key: Seq<u8>, a: Seq<u8>, b: Seq<u8>) -> bool {
    a != b && hmac_sha256(key, a) == hmac_sha256(key, b)
}

/// `tag` with bit number `bit` of the byte at `index` inverted.
pub open spec fn flip_bit(tag: Seq<u8>, index: int, bit: u8) -> Seq<u8> {
    tag.update(index, tag[index] ^ (1u8 << bit))
}

/// The authenticated bytes determine both the message and the counter: no
/// two pairs of message and counter are authenticated as the same bytes.
pub proof fn lemma_mac_input_injective(m1: Seq<u8>, c1: u64, m2: Seq<u8>, c2: u64)
    requires
        mac_input(m1, c1) == mac_input(m2, c2),
    ensures
        m1 == m2,
        c1 == c2,
{
    lemma_auto_spec_u64_to_from_le_bytes();
    let s1 = spec_u64_to_le_bytes(c1);
    let s2 = spec_u64_to_le_bytes(c2);
    let whole = mac_input(m1, c1);
    assert(m1 =~= whole.subrange(0, m1.len() as int));
    assert(m2 =~= whole.subrange(0, m2.len() as int));
    assert(s1 =~= whole.subrange(m1.len() as int, whole.len() as int));
    assert(s2 =~= whole.subrange(m2.len() as int, whole.len() as int));
}

/// The counter after an accepted message is the counter before it plus one,
/// modulo 2^64, and never the same counter.
pub proof fn lemma_next_counter(counter: u64)
    ensures
        next_counter(counter) as int == (counter + 1) % 0x1_0000_0000_0000_0000,
        next_counter(counter) != counter,
{
}

/// A tag computed for a message at the current counter is accepted at that
/// counter, and accepting it moves the counter on by one, modulo 2^64, and
/// keeps the secret.
pub proof fn law_own_tag_accepted(state: AuthState, message: Seq<u8>)
    ensures
        state.receive(message, state.tag(message)) == (
            state.advanced(),
            Ok::<(), ReceiveError>(()),
        ),
        state.advanced().secret == state.secret,
        state.advanced().counter as int == (state.counter + 1) % 0x1_0000_0000_0000_0000,
{
    lemma_next_counter(state.counter);
}

/// A candidate that is not accepted changes nothing, and the failure is an
/// authentication failure, never a key error.
pub proof fn law_rejection_keeps_state(state: AuthState, message: Seq<u8>, candidate: Seq<u8>)
    requires
        state.receive(message, candidate).1 is Err,
    ensures
        state.receive(message, candidate) == (
            state,
            Err::<(), ReceiveError>(ReceiveError::BadSignature),
        ),
{
}

/// A tag is bound to its counter: a tag that is accepted for `message` at
/// one counter is an authentication failure for that message at any other
/// counter, and the state stays as it was, unless HMAC-SHA256 gives the
/// message one tag at both counters.
pub proof fn law_tag_bound_to_counter(
    state: AuthState,
    message: Seq<u8>,
    tag: Seq<u8>,
    other: u64,
)
    requires
        state.receive(message, tag).1 is Ok,
        other != state.counter,
        !collide(state.secret, mac_input(message, state.counter), mac_input(message, other)),
    ensures
        (AuthState { secret: state.secret, counter: other }).receive(message, tag) == (
            AuthState { secret: state.secret, counter: other },
            Err::<(), ReceiveError>(ReceiveError::BadSignature),
        ),
{
    if mac_input(message, state.counter) == mac_input(message, other) {
        lemma_mac_input_injective(message, state.counter, message, other);
    }
}

/// Replay: once `tag` has been accepted for `message`, presenting the same
/// pair again is an authentication failure and leaves the counter where the
/// first acceptance put it, unless HMAC-SHA256 gives the message one tag at
/// both counters.
pub proof fn law_replay_rejected(state: AuthState, message: Seq<u8>, tag: Seq<u8>)
    requires
        state.receive(message, tag).1 is Ok,
        !collide(
            state.secret,
            mac_input(message, state.counter),
            mac_input(message, next_counter(state.counter)),
        ),
    ensures
        state.receive(message, tag).0 == state.advanced(),
        state.advanced().receive(message, tag) == (
            state.advanced(),
            Err::<(), ReceiveError>(ReceiveError::BadSignature),
        ),
{
    lemma_next_counter(state.counter);
    law_tag_bound_to_counter(state, message, tag, next_counter(state.counter));
}

/// Tampering: a tag that is accepted is no longer accepted once any one of
/// its bits is inverted, and the state stays as it was.
pub proof fn law_flipped_bit_rejected(
    state: AuthState,
    message: Seq<u8>,
    tag: Seq<u8>,
    index: int,
    bit: u8,
)
    requires
        state.receive(message, tag).1 is Ok,
        0 <= index < tag.len(),
        bit < 8,
    ensures
        state.receive(message, flip_bit(tag, index, bit)) == (
            state,
            Err::<(), ReceiveError>(ReceiveError::BadSignature),
        ),
{
    let byte = tag[index];
    assert(byte ^ (1u8 << bit) != byte) by (bit_vector)
        requires
            bit < 8,
    ;
}

/// Cross-message: a tag that is accepted for one message is an
/// authentication failure for any other message at the same counter, and
/// the state stays as it was, unless HMAC-SHA256 gives the two messages one
/// tag at that counter.
pub proof fn law_other_message_rejected(
    state: AuthState,
    message: Seq<u8>,
    other: Seq<u8>,
    tag: Seq<u8>,
)
    requires
        state.receive(message, tag).1 is Ok,
        other != message,
        !collide(
            state.secret,
            mac_input(message, state.counter),
            mac_input(other, state.counter),
        ),
    ensures
        state.receive(other, tag) == (
            state,
            Err::<(), ReceiveError>(ReceiveError::BadSignature),
        ),
{
    if mac_input(message, state.counter) == mac_input(other, state.counter) {
        lemma_mac_input_injective(message, state.counter, other, state.counter);
    }
}

} // verus!
