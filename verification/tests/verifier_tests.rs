//! End-to-end tests: an honest prover is simulated over the same group and
//! transcript the verifier uses, then the verifier is driven through the
//! positive and negative paths.

use indy_crypto::group::{mul_mod, pow_mod, P, Q};
use indy_crypto::orchestrator::Verifier;
use indy_crypto::transcript::ChallengeAccumulator;
use indy_crypto::types::{
    CredentialPublicKey, CredentialSchema, NonRevocSubProof, Nonce, Predicate, PredicateProof,
    PrimarySubProof, Proof, RevocationKeyPublic, RevocationRegistry, SubProof, SubProofRequest,
    VerifierError,
};

/// Generator of the prime-order subgroup of quadratic residues.
const G: u64 = 4;

/// `(a + c * b) mod Q`: the prover's response equation.
fn madd(a: u64, c: u64, b: u64) -> u64 {
    ((a as u128 + c as u128 * b as u128) % Q as u128) as u64
}

fn schema() -> CredentialSchema {
    CredentialSchema {
        attr_names: vec!["name".to_string(), "age".to_string(), "sex".to_string()],
    }
}

fn request() -> SubProofRequest {
    SubProofRequest {
        revealed_attrs: vec!["name".to_string()],
        predicates: vec![Predicate { attr_name: "age".to_string(), lower_bound: 18 }],
    }
}

struct RevSetup {
    h: u64,
    u: u64,
    acc: u64,
    u_t: u64,
}

/// One mock credential: attribute values, a signature satisfying the
/// public-key relation, and the prover's commitment randomizers.
struct Setup {
    s: u64,
    r: [u64; 3],
    z: u64,
    a_prime: u64,
    e: u64,
    v: u64,
    m: [u64; 3],
    e_t: u64,
    v_t: u64,
    m_t: [u64; 3],
    d_t: u64,
    d_commit: u64,
    rev: Option<RevSetup>,
}

fn make_setup(seed: u64, with_rev: bool) -> Setup {
    let m = [5 + seed, 30 + seed, 1 + seed];
    let s = pow_mod(G, 111 + seed);
    let r = [pow_mod(G, 51 + seed), pow_mod(G, 52 + seed), pow_mod(G, 53 + seed)];
    let a_prime = pow_mod(G, 77 + seed);
    let e = 131 + seed;
    let v = 997 + seed;
    let mut z = mul_mod(pow_mod(a_prime, e), pow_mod(s, v));
    for i in 0..3 {
        z = mul_mod(z, pow_mod(r[i], m[i]));
    }
    let rev = if with_rev {
        let h = pow_mod(G, 29 + seed);
        let u = 123 + seed;
        Some(RevSetup { h, u, acc: pow_mod(h, u), u_t: 555 + seed })
    } else {
        None
    };
    Setup {
        s,
        r,
        z,
        a_prime,
        e,
        v,
        m,
        e_t: 12345 + seed,
        v_t: 6789 + seed,
        m_t: [0, 4001 + seed, 4002 + seed],
        d_t: 4242 + seed,
        d_commit: pow_mod(r[1], m[1] - 18),
        rev,
    }
}

/// The prover's original commitments, in the canonical transcript order:
/// disclosed attribute, predicate, signature, then non-revocation.
fn commitments(su: &Setup) -> Vec<u64> {
    let t_name = pow_mod(su.r[0], su.m[0]);
    let t_pred = pow_mod(su.r[1], su.d_t);
    let mut t_sig = mul_mod(pow_mod(su.a_prime, su.e_t), pow_mod(su.s, su.v_t));
    t_sig = mul_mod(t_sig, mul_mod(pow_mod(su.r[1], su.m_t[1]), pow_mod(su.r[2], su.m_t[2])));
    let mut out = vec![t_name, t_pred, t_sig];
    if let Some(rv) = &su.rev {
        out.push(pow_mod(rv.h, rv.u_t));
    }
    out
}

/// Folds commitment lists of all credentials plus the nonce into the
/// challenge, exactly as the verifier recomputes it.
fn challenge(all: &[u64], nonce: &Nonce) -> u64 {
    let mut acc = ChallengeAccumulator::new();
    for &t in all {
        acc.add_commitment(t).unwrap();
    }
    acc.finalize(nonce)
}

/// The prover's responses for the challenge `c`.
fn responses(su: &Setup, c: u64) -> SubProof {
    let primary = PrimarySubProof {
        a_prime: su.a_prime,
        e_hat: madd(su.e_t, c, su.e),
        v_hat: madd(su.v_t, c, su.v),
        m_hat: vec![0, madd(su.m_t[1], c, su.m[1]), madd(su.m_t[2], c, su.m[2])],
        revealed_values: vec![su.m[0]],
        predicate_proofs: vec![
            PredicateProof { d_hat: madd(su.d_t, c, su.m[1] - 18), d_commit: su.d_commit },
        ],
    };
    let non_revoc = su.rev.as_ref().map(|rv| NonRevocSubProof { u_hat: madd(rv.u_t, c, rv.u) });
    SubProof { primary, non_revoc }
}

fn pk_of(su: &Setup) -> CredentialPublicKey {
    CredentialPublicKey { z: su.z, s: su.s, r_attrs: vec![su.r[0], su.r[1], su.r[2]] }
}

fn rev_params(su: &Setup) -> (Option<RevocationKeyPublic>, Option<RevocationRegistry>) {
    match &su.rev {
        Some(rv) => (
            Some(RevocationKeyPublic { h: rv.h }),
            Some(RevocationRegistry { accumulator: rv.acc }),
        ),
        None => (None, None),
    }
}

/// Builds the full honest proof for one credential.
fn honest_proof(su: &Setup, nonce: &Nonce) -> Proof {
    let ts = commitments(su);
    let c = challenge(&ts, nonce);
    Proof { sub_proofs: vec![responses(su, c)], challenge: c }
}

#[test]
fn new_proof_verifier_works() {
    let verifier = Verifier::new_proof_verifier();
    assert_eq!(verifier.entries.len(), 0);
    assert!(!verifier.consumed);

    // with nothing registered, verification is well defined: it succeeds
    // exactly against an equally empty proof
    let nonce = Nonce { value: 42 };
    let c = ChallengeAccumulator::new().finalize(&nonce);
    let mut verifier = Verifier::new_proof_verifier();
    let proof = Proof { sub_proofs: vec![], challenge: c };
    assert_eq!(verifier.verify(&proof, &nonce), Ok(true));

    let mut verifier = Verifier::new_proof_verifier();
    let wrong = Proof { sub_proofs: vec![], challenge: c.wrapping_add(1) };
    assert_eq!(verifier.verify(&wrong, &nonce), Ok(false));
}

#[test]
fn add_sub_proof_request_works() {
    let su = make_setup(0, false);
    let mut verifier = Verifier::new_proof_verifier();
    let res = verifier.add_sub_proof_request(
        "key_id".to_string(),
        request(),
        schema(),
        pk_of(&su),
        None,
        None,
    );
    assert_eq!(res, Ok(()));
    assert_eq!(verifier.entries.len(), 1);
}

#[test]
fn duplicate_key_ids_permitted() {
    let su = make_setup(0, false);
    let mut verifier = Verifier::new_proof_verifier();
    for _ in 0..2 {
        let res = verifier.add_sub_proof_request(
            "key_id".to_string(),
            request(),
            schema(),
            pk_of(&su),
            None,
            None,
        );
        assert_eq!(res, Ok(()));
    }
    assert_eq!(verifier.entries.len(), 2);

    // a proof presenting the same credential twice verifies
    let nonce = Nonce { value: 7 };
    let mut all = commitments(&su);
    all.extend(commitments(&su));
    let c = challenge(&all, &nonce);
    let proof = Proof { sub_proofs: vec![responses(&su, c), responses(&su, c)], challenge: c };
    assert_eq!(verifier.verify(&proof, &nonce), Ok(true));
}

#[test]
fn verify_works_for_primary_proof() {
    let su = make_setup(0, false);
    let nonce = Nonce { value: 123456789 };
    let proof = honest_proof(&su, &nonce);
    let mut verifier = Verifier::new_proof_verifier();
    verifier
        .add_sub_proof_request("key_id".to_string(), request(), schema(), pk_of(&su), None, None)
        .unwrap();
    assert_eq!(verifier.verify(&proof, &nonce), Ok(true));
}

#[test]
fn verify_works_for_revocation_proof() {
    let su = make_setup(0, true);
    let nonce = Nonce { value: 987654321 };
    let proof = honest_proof(&su, &nonce);
    let (rk, rr) = rev_params(&su);
    let mut verifier = Verifier::new_proof_verifier();
    verifier
        .add_sub_proof_request("key_id".to_string(), request(), schema(), pk_of(&su), rk, rr)
        .unwrap();
    assert_eq!(verifier.verify(&proof, &nonce), Ok(true));
}

#[test]
fn verify_fails_for_wrong_nonce() {
    let su = make_setup(0, false);
    let proof = honest_proof(&su, &Nonce { value: 1 });
    let mut verifier = Verifier::new_proof_verifier();
    verifier
        .add_sub_proof_request("key_id".to_string(), request(), schema(), pk_of(&su), None, None)
        .unwrap();
    assert_eq!(verifier.verify(&proof, &Nonce { value: 2 }), Ok(false));
}

#[test]
fn verify_fails_for_changed_disclosed_value() {
    let su = make_setup(0, false);
    let nonce = Nonce { value: 11 };
    let mut proof = honest_proof(&su, &nonce);
    proof.sub_proofs[0].primary.revealed_values[0] += 1;
    let mut verifier = Verifier::new_proof_verifier();
    verifier
        .add_sub_proof_request("key_id".to_string(), request(), schema(), pk_of(&su), None, None)
        .unwrap();
    assert_eq!(verifier.verify(&proof, &nonce), Ok(false));
}

#[test]
fn verify_fails_for_wrong_public_key() {
    let su = make_setup(0, false);
    let other = make_setup(9, false);
    let nonce = Nonce { value: 31 };
    let proof = honest_proof(&su, &nonce);
    let mut verifier = Verifier::new_proof_verifier();
    verifier
        .add_sub_proof_request("key_id".to_string(), request(), schema(), pk_of(&other), None, None)
        .unwrap();
    assert_eq!(verifier.verify(&proof, &nonce), Ok(false));
}

#[test]
fn verify_fails_for_reversed_registration_order() {
    let su1 = make_setup(1, false);
    let su2 = make_setup(2, false);
    let nonce = Nonce { value: 77 };
    let mut all = commitments(&su1);
    all.extend(commitments(&su2));
    let c = challenge(&all, &nonce);
    let proof = Proof { sub_proofs: vec![responses(&su1, c), responses(&su2, c)], challenge: c };

    // registered in the holder's order: valid
    let mut forward = Verifier::new_proof_verifier();
    forward
        .add_sub_proof_request("key_a".to_string(), request(), schema(), pk_of(&su1), None, None)
        .unwrap();
    forward
        .add_sub_proof_request("key_b".to_string(), request(), schema(), pk_of(&su2), None, None)
        .unwrap();
    assert_eq!(forward.verify(&proof, &nonce), Ok(true));

    // same two requests registered in reversed order: invalid
    let mut reversed = Verifier::new_proof_verifier();
    reversed
        .add_sub_proof_request("key_b".to_string(), request(), schema(), pk_of(&su2), None, None)
        .unwrap();
    reversed
        .add_sub_proof_request("key_a".to_string(), request(), schema(), pk_of(&su1), None, None)
        .unwrap();
    assert_eq!(reversed.verify(&proof, &nonce), Ok(false));
}

#[test]
fn verify_is_deterministic() {
    let su = make_setup(0, false);
    let nonce = Nonce { value: 5 };
    let proof = honest_proof(&su, &nonce);
    let mut results = Vec::new();
    for _ in 0..2 {
        let mut verifier = Verifier::new_proof_verifier();
        verifier
            .add_sub_proof_request(
                "key_id".to_string(),
                request(),
                schema(),
                pk_of(&su),
                None,
                None,
            )
            .unwrap();
        results.push(verifier.verify(&proof, &nonce));
    }
    assert_eq!(results[0], results[1]);
    assert_eq!(results[0], Ok(true));
}

#[test]
fn verify_twice_fails_with_already_consumed() {
    let su = make_setup(0, false);
    let nonce = Nonce { value: 5 };
    let proof = honest_proof(&su, &nonce);
    let mut verifier = Verifier::new_proof_verifier();
    verifier
        .add_sub_proof_request("key_id".to_string(), request(), schema(), pk_of(&su), None, None)
        .unwrap();
    assert_eq!(verifier.verify(&proof, &nonce), Ok(true));
    assert_eq!(verifier.verify(&proof, &nonce), Err(VerifierError::VerifierAlreadyConsumed));
}

#[test]
fn add_after_verify_fails_with_already_consumed() {
    let su = make_setup(0, false);
    let nonce = Nonce { value: 5 };
    let proof = honest_proof(&su, &nonce);
    let mut verifier = Verifier::new_proof_verifier();
    verifier
        .add_sub_proof_request("key_id".to_string(), request(), schema(), pk_of(&su), None, None)
        .unwrap();
    verifier.verify(&proof, &nonce).unwrap();
    let res = verifier.add_sub_proof_request(
        "key_id".to_string(),
        request(),
        schema(),
        pk_of(&su),
        None,
        None,
    );
    assert_eq!(res, Err(VerifierError::VerifierAlreadyConsumed));
    assert_eq!(verifier.entries.len(), 1);
}

#[test]
fn add_unknown_revealed_attribute_fails() {
    let su = make_setup(0, false);
    let mut verifier = Verifier::new_proof_verifier();
    let bad_request = SubProofRequest {
        revealed_attrs: vec!["height".to_string()],
        predicates: vec![],
    };
    let res = verifier.add_sub_proof_request(
        "key_id".to_string(),
        bad_request,
        schema(),
        pk_of(&su),
        None,
        None,
    );
    assert_eq!(res, Err(VerifierError::AttributeNotFoundInSchema));
    assert_eq!(verifier.entries.len(), 0);
}

#[test]
fn add_unknown_predicate_attribute_fails() {
    let su = make_setup(0, false);
    let mut verifier = Verifier::new_proof_verifier();
    let bad_request = SubProofRequest {
        revealed_attrs: vec!["name".to_string()],
        predicates: vec![Predicate { attr_name: "height".to_string(), lower_bound: 150 }],
    };
    let res = verifier.add_sub_proof_request(
        "key_id".to_string(),
        bad_request,
        schema(),
        pk_of(&su),
        None,
        None,
    );
    assert_eq!(res, Err(VerifierError::AttributeNotFoundInSchema));
    assert_eq!(verifier.entries.len(), 0);
}

#[test]
fn add_with_half_revocation_params_fails() {
    let su = make_setup(0, true);
    let (rk, rr) = rev_params(&su);
    let mut verifier = Verifier::new_proof_verifier();
    let res = verifier.add_sub_proof_request(
        "key_id".to_string(),
        request(),
        schema(),
        pk_of(&su),
        rk,
        None,
    );
    assert_eq!(res, Err(VerifierError::RevocationParamsMismatch));
    let res = verifier.add_sub_proof_request(
        "key_id".to_string(),
        request(),
        schema(),
        pk_of(&su),
        None,
        rr,
    );
    assert_eq!(res, Err(VerifierError::RevocationParamsMismatch));
    assert_eq!(verifier.entries.len(), 0);
}

#[test]
fn verify_fails_for_sub_proof_count_mismatch() {
    let su = make_setup(0, false);
    let nonce = Nonce { value: 5 };
    let mut verifier = Verifier::new_proof_verifier();
    verifier
        .add_sub_proof_request("key_id".to_string(), request(), schema(), pk_of(&su), None, None)
        .unwrap();
    let empty = Proof { sub_proofs: vec![], challenge: 0 };
    assert_eq!(verifier.verify(&empty, &nonce), Err(VerifierError::ProofStructureMismatch));
}

#[test]
fn verify_fails_for_response_count_mismatch() {
    let su = make_setup(0, false);
    let nonce = Nonce { value: 5 };
    let mut proof = honest_proof(&su, &nonce);
    proof.sub_proofs[0].primary.m_hat.pop();
    let mut verifier = Verifier::new_proof_verifier();
    verifier
        .add_sub_proof_request("key_id".to_string(), request(), schema(), pk_of(&su), None, None)
        .unwrap();
    assert_eq!(verifier.verify(&proof, &nonce), Err(VerifierError::ProofStructureMismatch));
}

#[test]
fn verify_fails_for_missing_non_revoc_sub_proof() {
    let su = make_setup(0, true);
    let nonce = Nonce { value: 5 };
    let mut proof = honest_proof(&su, &nonce);
    proof.sub_proofs[0].non_revoc = None;
    let (rk, rr) = rev_params(&su);
    let mut verifier = Verifier::new_proof_verifier();
    verifier
        .add_sub_proof_request("key_id".to_string(), request(), schema(), pk_of(&su), rk, rr)
        .unwrap();
    assert_eq!(verifier.verify(&proof, &nonce), Err(VerifierError::ProofStructureMismatch));
}

#[test]
fn verify_fails_for_malformed_commitment() {
    let su = make_setup(0, false);
    let nonce = Nonce { value: 5 };
    let mut proof = honest_proof(&su, &nonce);
    // a zero signature component collapses the reconstructed signature
    // commitment to zero, which the transcript rejects
    proof.sub_proofs[0].primary.a_prime = 0;
    let mut verifier = Verifier::new_proof_verifier();
    verifier
        .add_sub_proof_request("key_id".to_string(), request(), schema(), pk_of(&su), None, None)
        .unwrap();
    assert_eq!(verifier.verify(&proof, &nonce), Err(VerifierError::MalformedCommitment));
}

#[test]
fn revocation_scenario() {
    let su = make_setup(0, true);
    let nonce = Nonce { value: 99 };
    let proof = honest_proof(&su, &nonce);
    let (rk, rr) = rev_params(&su);

    // valid against the registry state the witness was built for
    let mut verifier = Verifier::new_proof_verifier();
    verifier
        .add_sub_proof_request("key_id".to_string(), request(), schema(), pk_of(&su), rk, rr)
        .unwrap();
    assert_eq!(verifier.verify(&proof, &nonce), Ok(true));

    // the registry moves past the credential: the same unchanged proof
    // no longer verifies
    let rv = su.rev.as_ref().unwrap();
    let updated = RevocationRegistry { accumulator: pow_mod(rv.h, rv.u + 1) };
    let mut verifier = Verifier::new_proof_verifier();
    verifier
        .add_sub_proof_request(
            "key_id".to_string(),
            request(),
            schema(),
            pk_of(&su),
            Some(RevocationKeyPublic { h: rv.h }),
            Some(updated),
        )
        .unwrap();
    assert_eq!(verifier.verify(&proof, &nonce), Ok(false));
}

#[test]
fn challenge_accumulator_rejects_out_of_group_commitments() {
    let mut acc = ChallengeAccumulator::new();
    assert_eq!(acc.add_commitment(0), Err(VerifierError::MalformedCommitment));
    assert_eq!(acc.add_commitment(P), Err(VerifierError::MalformedCommitment));
    assert_eq!(acc.add_commitment(1), Ok(()));
    assert_eq!(acc.add_commitment(P - 1), Ok(()));
}

#[test]
fn challenge_accumulator_is_deterministic_and_order_sensitive() {
    let nonce = Nonce { value: 13 };
    let mut a = ChallengeAccumulator::new();
    a.add_commitment(2).unwrap();
    a.add_commitment(3).unwrap();
    let mut b = ChallengeAccumulator::new();
    b.add_commitment(2).unwrap();
    b.add_commitment(3).unwrap();
    assert_eq!(a.finalize(&nonce), b.finalize(&nonce));

    let mut c = ChallengeAccumulator::new();
    c.add_commitment(3).unwrap();
    c.add_commitment(2).unwrap();
    assert_ne!(a.finalize(&nonce), c.finalize(&nonce));
    assert_ne!(a.finalize(&nonce), a.finalize(&Nonce { value: 14 }));
}

#[test]
fn group_arithmetic_exact_values() {
    assert_eq!(mul_mod(3, 5), 15);
    assert_eq!(mul_mod(P - 1, P - 1), 1);
    assert_eq!(pow_mod(4, 3), 64);
    assert_eq!(pow_mod(2, 0), 1);
    // the generator spans the whole subgroup of order Q
    assert_eq!(pow_mod(G, Q), 1);
    assert_eq!(indy_crypto::group::neg_exp(5), Q - 5);
    assert_eq!(indy_crypto::group::neg_exp(0), 0);
    assert_eq!(indy_crypto::group::neg_exp(Q), 0);
}

#[test]
fn challenge_depends_on_the_whole_transcript() {
    // two transcripts sharing a prefix but differing later must hash apart
    let nonce = Nonce { value: 0 };
    let mut a = ChallengeAccumulator::new();
    a.add_commitment(7).unwrap();
    a.add_commitment(8).unwrap();
    let mut b = ChallengeAccumulator::new();
    b.add_commitment(7).unwrap();
    b.add_commitment(9).unwrap();
    assert_ne!(a.finalize(&nonce), b.finalize(&nonce));
}
