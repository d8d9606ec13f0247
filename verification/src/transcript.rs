//! Challenge accumulator: the ordered Fiat-Shamir transcript.
//!
//! Commitments are appended in a strict order; `finalize` serializes the
//! whole ordered list plus the nonce into bytes and hashes them to a single
//! challenge scalar. Identical ordered inputs always give identical output.

use vstd::prelude::*;
use crate::group::P;
use crate::hash::{challenge_of_bytes, hash_to_challenge};
use crate::types::{Nonce, VerifierError};

verus! {

/// A group element fit to enter the transcript: a nonzero residue.
pub open spec fn commitment_in_range(c: u64) -> bool {
    1 <= c < P
}

/// The eight-byte big-endian image of `x`.
pub open spec fn be_bytes(x: u64) -> Seq<u8> {
    seq![
        (x / 0x100000000000000) as u8,
        ((x / 0x1000000000000) % 0x100) as u8,
        ((x / 0x10000000000) % 0x100) as u8,
        ((x / 0x100000000) % 0x100) as u8,
        ((x / 0x1000000) % 0x100) as u8,
        ((x / 0x10000) % 0x100) as u8,
        ((x / 0x100) % 0x100) as u8,
        (x % 0x100) as u8,
    ]
}

/// The serialization of the first `k` commitments, in order.
pub open spec fn commitment_bytes(commitments: Seq<u64>, k: int) -> Seq<u8>
    decreases k,
{
    if k <= 0 {
        Seq::empty()
    } else {
        commitment_bytes(commitments, k - 1) + be_bytes(commitments[k - 1])
    }
}

/// The full transcript: every commitment in order, then the nonce.
pub open spec fn transcript_bytes(commitments: Seq<u64>, nonce: u64) -> Seq<u8> {
    commitment_bytes(commitments, commitments.len() as int) + be_bytes(nonce)
}

/// The challenge that a commitment list and a nonce determine.
pub open spec fn challenge_of(commitments: Seq<u64>, nonce: u64) -> u64 {
    challenge_of_bytes(transcript_bytes(commitments, nonce))
}

/// Appends the eight big-endian bytes of `x` to `out`.
fn push_be_bytes(out: &mut Vec<u8>, x: u64)
    ensures
        final(out)@ == old(out)@ + be_bytes(x),
{
    out.push((x / 0x100000000000000) as u8);
    out.push(((x / 0x1000000000000) % 0x100) as u8);
    out.push(((x / 0x10000000000) % 0x100) as u8);
    out.push(((x / 0x100000000) % 0x100) as u8);
    out.push(((x / 0x1000000) % 0x100) as u8);
    out.push(((x / 0x10000) % 0x100) as u8);
    out.push(((x / 0x100) % 0x100) as u8);
    out.push((x % 0x100) as u8);
    proof {
        assert(out@ =~= old(out)@ + be_bytes(x));
    }
}

/// Deterministic hash-based transcript folding ordered commitments and a
/// nonce into one challenge scalar.
pub struct ChallengeAccumulator {
    pub commitments: Vec<u64>,
}

impl View for ChallengeAccumulator {
    type V = Seq<u64>;

    open spec fn view(&self) -> Seq<u64> {
        self.commitments@
    }
}

impl ChallengeAccumulator {
    /// Creates an empty transcript.
    pub fn new() -> (r: ChallengeAccumulator)
        ensures
            r@ == Seq::<u64>::empty(),
    {
        ChallengeAccumulator { commitments: Vec::new() }
    }

    /// Appends one commitment; rejects a value outside the group.
    pub fn add_commitment(&mut self, c: u64) -> (r: Result<(), VerifierError>)
        ensures
            match r {
                Ok(()) => commitment_in_range(c) && final(self)@ == old(self)@.push(c),
                Err(e) => e == VerifierError::MalformedCommitment && !commitment_in_range(c)
                    && final(self)@ == old(self)@,
            },
    {
        if c == 0 || c >= P {
            Err(VerifierError::MalformedCommitment)
        } else {
            self.commitments.push(c);
            Ok(())
        }
    }

    /// Hashes the full ordered transcript plus the nonce into the challenge.
    pub fn finalize(&self, nonce: &Nonce) -> (r: u64)
        ensures
            r == challenge_of(self@, nonce.value),
            r < crate::group::Q,
    {
        let mut bytes: Vec<u8> = Vec::new();
        let mut i: usize = 0;
        while i < self.commitments.len()
            invariant
                i <= self.commitments.len(),
                bytes@ == commitment_bytes(self@, i as int),
            decreases self.commitments.len() - i,
        {
            push_be_bytes(&mut bytes, self.commitments[i]);
            i += 1;
        }
        push_be_bytes(&mut bytes, nonce.value);
        hash_to_challenge(&bytes)
    }
}

} // verus!
