//! The keyed primitive: HMAC-SHA256 as the `hmac` and `sha2` crates compute it.
//!
//! Nothing in this module is proved. It holds the declarations through which
//! the rest of the crate reaches the two crates, each with the contract that
//! the proofs elsewhere take on trust.

use hmac::Mac;
use vstd::prelude::*;

verus! {

/// Length in bytes of an HMAC-SHA256 tag.
pub const TAG_LEN: usize = 32;

/// `hmac::digest::InvalidLength`: the error with which keyed initialisation
/// refuses a key. Opaque here; it carries no data.
#[verifier::external_type_specification]
#[verifier::external_body]
pub struct ExInvalidLength(hmac::digest::InvalidLength);

/// `hmac::digest::MacError`: the error with which a tag comparison reports
/// a mismatch. Opaque here; it carries no data.
#[verifier::external_type_specification]
#[verifier::external_body]
pub struct ExMacError(hmac::digest::MacError);

/// A running HMAC-SHA256 computation, `hmac::Hmac<sha2::Sha256>`.
///
/// The verifier sees nothing inside it. What the contracts say of a value
/// goes through [`mac_key`] and [`mac_data`].
#[verifier::external_body]
pub struct HmacSha256 {
    inner: hmac::Hmac<sha2::Sha256>,
}

/// The key that a running computation was started with.
pub uninterp spec fn mac_key(mac: HmacSha256) -> Seq<u8>;

/// The bytes that a running computation has taken in so far, in order.
pub uninterp spec fn mac_data(mac: HmacSha256) -> Seq<u8>;

/// The HMAC-SHA256 tag of `data` under `key`: what `Mac::finalize` yields
/// for a computation started with `key` that has taken in `data`.
pub uninterp spec fn hmac_sha256(key: Seq<u8>, data: Seq<u8>) -> Seq<u8>;

/// `Mac::new_from_slice` on `Hmac<Sha256>`.
///
/// Trusted: the call succeeds for every key, of any length (a key longer
/// than the hash's block is hashed first, a shorter one padded), and the
/// computation it starts has that key and has taken in nothing.
#[verifier::external_body]
pub(crate) fn start(key: &[u8]) -> (r: Result<HmacSha256, hmac::digest::InvalidLength>)
    ensures
        r is Ok,
        r matches Ok(mac) ==> mac_key(mac) == key@ && mac_data(mac) == Seq::<u8>::empty(),
{
    match hmac::Hmac::<sha2::Sha256>::new_from_slice(key) {
        Ok(inner) => Ok(HmacSha256 { inner }),
        Err(e) => Err(e),
    }
}

/// `Mac::update`.
///
/// Trusted: the key stays, and `data` is appended to what the computation
/// has taken in.
#[verifier::external_body]
pub(crate) fn absorb(mac: &mut HmacSha256, data: &[u8])
    ensures
        mac_key(*final(mac)) == mac_key(*old(mac)),
        mac_data(*final(mac)) == mac_data(*old(mac)) + data@,
{
    mac.inner.update(data);
}

/// `Mac::finalize`, with the tag copied out of its fixed-size array.
///
/// Trusted: the bytes are the tag of the input taken in so far under the
/// computation's key, and there are [`TAG_LEN`] of them.
#[verifier::external_body]
pub(crate) fn finish(mac: HmacSha256) -> (tag: Vec<u8>)
    ensures
        tag@ == hmac_sha256(mac_key(mac), mac_data(mac)),
        tag@.len() == TAG_LEN,
{
    mac.inner.finalize().into_bytes().to_vec()
}

/// `Mac::verify_slice`: the comparison of a candidate with the computed
/// tag, in time that does not depend on where the two differ.
///
/// Trusted: the call returns `Ok` exactly when `candidate` is the tag of the
/// input taken in so far under the computation's key; a candidate of any
/// length but [`TAG_LEN`] is refused.
#[verifier::external_body]
pub(crate) fn verify(mac: HmacSha256, candidate: &[u8]) -> (r: Result<(), hmac::digest::MacError>)
    ensures
        r is Ok <==> candidate@ == hmac_sha256(mac_key(mac), mac_data(mac)),
        r is Ok ==> candidate@.len() == TAG_LEN,
{
    mac.inner.verify_slice(candidate)
}

} // verus!
