//! The hash-to-scalar step of the Fiat-Shamir transcript.
//!
//! The transcript bytes are digested with SHA-256; the first eight digest
//! bytes, read big endian and reduced modulo the subgroup order
//! [`crate::group::Q`], are the challenge scalar. The digest itself is an
//! outside computation; everything after it is verified.

use vstd::prelude::*;
use crate::group::Q;

verus! {

/// The SHA-256 digest of `bytes`: a fixed function of the input alone.
pub uninterp spec fn digest_of(bytes: Seq<u8>) -> Seq<u8>;

/// Relies on sha2's `Sha256::digest`: the 32-byte SHA-256 digest of the
/// input, a function of the input bytes alone.
#[verifier::external_body]
fn sha256_digest(bytes: &[u8]) -> (r: Vec<u8>)
    ensures
        r@ == digest_of(bytes@),
        r@.len() == 32,
{
    <sha2::Sha256 as sha2::Digest>::digest(bytes).to_vec()
}

/// The scalar carried by the first eight bytes of `s`, big endian.
pub open spec fn scalar_of_bytes(s: Seq<u8>) -> u64 {
    ((s[0] as int) * 0x100000000000000 + (s[1] as int) * 0x1000000000000 + (s[2] as int)
        * 0x10000000000 + (s[3] as int) * 0x100000000 + (s[4] as int) * 0x1000000 + (s[5] as int)
        * 0x10000 + (s[6] as int) * 0x100 + (s[7] as int)) as u64
}

/// The challenge scalar derived from transcript bytes.
pub open spec fn challenge_of_bytes(bytes: Seq<u8>) -> u64 {
    (scalar_of_bytes(digest_of(bytes)) as int % (Q as int)) as u64
}

/// Hashes transcript bytes to a challenge scalar below [`Q`].
pub fn hash_to_challenge(bytes: &Vec<u8>) -> (r: u64)
    ensures
        r == challenge_of_bytes(bytes@),
        r < Q,
{
    let digest = sha256_digest(bytes.as_slice());
    let scalar: u64 = (digest[0] as u64) * 0x100000000000000 + (digest[1] as u64)
        * 0x1000000000000 + (digest[2] as u64) * 0x10000000000 + (digest[3] as u64) * 0x100000000
        + (digest[4] as u64) * 0x1000000 + (digest[5] as u64) * 0x10000 + (digest[6] as u64) * 0x100
        + (digest[7] as u64);
    scalar % Q
}

} // verus!
