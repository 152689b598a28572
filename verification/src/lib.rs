//! Replay-resistant message authentication.
//!
//! Each party holds a shared secret and a counter. A tag is the HMAC-SHA256,
//! under the secret, of the message followed by the sender's counter; a
//! receiver accepts a tag only if it is the one expected at its own counter,
//! and then moves that counter on by one. A tag that was accepted once is
//! therefore not accepted again.
//!
//! - [`state`]: the authenticator, its mathematical model and its errors.
//! - [`protocol`]: computing a tag and receiving one.
//! - [`laws`]: what the protocol guarantees, proved over the model.
//! - [`primitive`]: HMAC-SHA256 itself, taken on trust from the `hmac` and
//!   `sha2` crates.

pub mod laws;
pub mod primitive;
pub mod protocol;
pub mod state;
