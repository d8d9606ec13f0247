//! Modular arithmetic for the prime-order group in which all commitments
//! live.
//!
//! Every group element is a residue modulo the public prime `P`; honest
//! participants work inside the subgroup of quadratic residues, whose prime
//! order is `Q = (P - 1) / 2`. Response scalars and challenges are reduced
//! modulo `Q`, so a negated exponent `-c` is represented as `Q - c`.

use vstd::prelude::*;
use vstd::calc;
use vstd::arithmetic::power::{
    pow, lemma_pow1, lemma_pow_adds, lemma_pow_mod_noop, lemma_pow_multiplies,
    lemma_square_is_pow2,
};
use vstd::arithmetic::div_mod::{lemma_mul_mod_noop_general, lemma_mul_mod_noop_right};

verus! {

/// The group modulus: a safe prime.
pub const P: u64 = 2000000579;

/// The order of the subgroup of quadratic residues: `(P - 1) / 2`, prime.
pub const Q: u64 = 1000000289;

/// The product of `a` and `b` reduced modulo `P`.
pub open spec fn mul_mod_spec(a: u64, b: u64) -> u64 {
    ((a as int * b as int) % (P as int)) as u64
}

/// `b` raised to the power `e`, reduced modulo `P`.
pub open spec fn pow_mod_spec(b: u64, e: u64) -> u64 {
    (pow(b as int, e as nat) % (P as int)) as u64
}

/// The exponent standing for `-c` on scalars reduced modulo `Q`.
pub open spec fn neg_exp_spec(c: u64) -> u64 {
    ((Q as int - (c as int % (Q as int))) % (Q as int)) as u64
}

/// Multiplies two residues modulo `P`.
pub fn mul_mod(a: u64, b: u64) -> (r: u64)
    ensures
        r == mul_mod_spec(a, b),
        r < P,
{
    proof {
        assert(a as int * b as int <= u64::MAX as int * u64::MAX as int) by (nonlinear_arith)
            requires
                a <= u64::MAX,
                b <= u64::MAX,
        ;
    }
    let wide: u128 = (a as u128) * (b as u128) % (P as u128);
    wide as u64
}

/// Raises `b` to the power `e` modulo `P` by square and multiply.
pub fn pow_mod(b: u64, e: u64) -> (r: u64)
    ensures
        r == pow_mod_spec(b, e),
        r < P,
{
    let mut result: u64 = 1;
    let mut base: u64 = b % P;
    let mut exp: u64 = e;
    proof {
        lemma_pow_mod_noop(b as int, e as nat, P as int);
    }
    while exp > 0
        invariant
            result < P,
            base < P,
            (result as int * pow(base as int, exp as nat)) % (P as int) == pow(
                b as int,
                e as nat,
            ) % (P as int),
        decreases exp,
    {
        let ghost result0 = result as int;
        let ghost base0 = base as int;
        let ghost exp0 = exp as nat;
        if exp % 2 == 1 {
            result = mul_mod(result, base);
        }
        base = mul_mod(base, base);
        exp = exp / 2;
        proof {
            let p = P as int;
            let half = exp as nat;
            // pow(base0^2 mod P, half) mod P == pow(base0, 2 * half) mod P
            lemma_square_is_pow2(base0);
            lemma_pow_multiplies(base0, 2, half);
            lemma_pow_mod_noop(base0 * base0, half, p);
            assert(pow(base as int, half) % p == pow(base0, (2 * half) as nat) % p);
            if exp0 % 2 == 1 {
                assert(exp0 == 2 * half + 1);
                lemma_pow1(base0);
                lemma_pow_adds(base0, 1, (2 * half) as nat);
                assert(pow(base0, exp0) == base0 * pow(base0, (2 * half) as nat));
                // fold the new result and the new base back into the invariant
                calc! {
                    (==)
                    (result as int * pow(base as int, half)) % p; {
                        lemma_mul_mod_noop_right(result as int, pow(base as int, half), p);
                        lemma_mul_mod_noop_right(result as int, pow(base0, (2 * half) as nat), p);
                    }
                    (result as int * pow(base0, (2 * half) as nat)) % p; {
                        lemma_mul_mod_noop_general(
                            result0 * base0,
                            pow(base0, (2 * half) as nat),
                            p,
                        );
                        vstd::arithmetic::mul::lemma_mul_is_associative(
                            result0,
                            base0,
                            pow(base0, (2 * half) as nat),
                        );
                    }
                    (result0 * (base0 * pow(base0, (2 * half) as nat))) % p; {}
                    (result0 * pow(base0, exp0)) % p;
                }
            } else {
                assert(exp0 == 2 * half);
                calc! {
                    (==)
                    (result as int * pow(base as int, half)) % p; {
                        lemma_mul_mod_noop_right(result as int, pow(base as int, half), p);
                        lemma_mul_mod_noop_right(result as int, pow(base0, (2 * half) as nat), p);
                    }
                    (result0 * pow(base0, exp0)) % p;
                }
            }
        }
    }
    proof {
        vstd::arithmetic::power::lemma_pow0(base as int);
    }
    result
}

/// The exponent standing for `-c`: `Q - (c mod Q)`, reduced modulo `Q`.
pub fn neg_exp(c: u64) -> (r: u64)
    ensures
        r == neg_exp_spec(c),
{
    let reduced: u64 = c % Q;
    if reduced == 0 {
        0
    } else {
        Q - reduced
    }
}

} // verus!
