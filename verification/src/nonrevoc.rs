//! Non-revocation proof verifier: recomputes the accumulator-membership
//! commitment tied to a revocation registry.
//!
//! The holder proves knowledge of a witness exponent `u` with
//! `h ^ u == accumulator`; the verifier reconstructs the prover's
//! commitment as `h ^ u_hat * accumulator ^ -c`. When the registry's
//! accumulator moves past the credential, the same responses reconstruct a
//! different commitment and the challenge comparison fails.

use vstd::prelude::*;
use crate::group::{mul_mod, mul_mod_spec, neg_exp, neg_exp_spec, pow_mod, pow_mod_spec};
use crate::types::{NonRevocSubProof, RevocationKeyPublic, RevocationRegistry};

verus! {

/// The reconstructed accumulator-membership commitment.
pub open spec fn non_revoc_commitment(
    rk: RevocationKeyPublic,
    reg: RevocationRegistry,
    sub: NonRevocSubProof,
    c: u64,
) -> u64 {
    mul_mod_spec(
        pow_mod_spec(rk.h, sub.u_hat),
        pow_mod_spec(reg.accumulator, neg_exp_spec(c)),
    )
}

/// Recomputes the non-revocation commitment from the holder's response and
/// the embedded challenge `c`.
pub fn compute_non_revoc_commitment(
    rk: &RevocationKeyPublic,
    reg: &RevocationRegistry,
    sub: &NonRevocSubProof,
    c: u64,
) -> (r: u64)
    ensures
        r == non_revoc_commitment(*rk, *reg, *sub, c),
{
    mul_mod(pow_mod(rk.h, sub.u_hat), pow_mod(reg.accumulator, neg_exp(c)))
}

} // verus!
