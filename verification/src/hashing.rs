//! Trusted boundary around the incremental SHA-1 accumulator.
//!
//! The accumulator is fed the body chunks in arrival order and finalized
//! once the stream ends. Verified code reasons about it through two names:
//! the sequence of bytes fed so far, and the digest as a pure function of
//! a byte sequence. Nothing here restates the SHA-1 algorithm; the crate
//! that implements it is relied on through the contracts below.

use sha1::{Digest, Sha1};
use vstd::prelude::*;

verus! {

#[verifier::external_type_specification]
#[verifier::external_body]
pub struct ExSha1(Sha1);

/// The bytes fed so far to a running SHA-1 accumulator, in order.
pub uninterp spec fn sha1_fed(h: Sha1) -> Seq<u8>;

/// The 20-byte SHA-1 digest of a byte sequence, a function of the bytes
/// alone; the same bytes always digest to the same value.
pub uninterp spec fn sha1_of(bytes: Seq<u8>) -> Seq<u8>;

/// Relies on `sha1::Sha1::new` (via `digest::Digest`): a fresh
/// accumulator has been fed nothing.
#[verifier::external_body]
pub(crate) fn sha1_new() -> (h: Sha1)
    ensures
        sha1_fed(h) == Seq::<u8>::empty(),
{
    Sha1::new()
}

/// Relies on `sha1::Sha1::update` (via `digest::Digest`): appends the
/// chunk to the bytes the accumulator has been fed.
#[verifier::external_body]
pub(crate) fn sha1_update(h: &mut Sha1, chunk: &[u8])
    ensures
        sha1_fed(*final(h)) == sha1_fed(*old(h)) + chunk@,
{
    h.update(chunk);
}

/// Relies on `sha1::Sha1::finalize` (via `digest::Digest`): returns the
/// 20-byte SHA-1 digest of everything the accumulator was fed.
#[verifier::external_body]
pub(crate) fn sha1_finalize(h: Sha1) -> (r: Vec<u8>)
    ensures
        r@ == sha1_of(sha1_fed(h)),
        r@.len() == 20,
{
    h.finalize().to_vec()
}

} // verus!
