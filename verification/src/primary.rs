//! Primary proof verifier: recomputes the Fiat-Shamir commitments for one
//! credential's signature-possession sub-proof.
//!
//! From the issuer public key, the schema, the disclosure request and the
//! holder's responses, together with the challenge embedded in the proof,
//! the verifier reconstructs the commitments the prover originally fed into
//! the transcript, in the canonical order: one commitment per disclosed
//! attribute, then one per predicate, then the signature commitment.

use vstd::prelude::*;
use crate::group::{mul_mod, mul_mod_spec, neg_exp, neg_exp_spec, pow_mod, pow_mod_spec};
use crate::types::{
    contains_attr, contains_name, distinct_names, find_attr, index_of_name, CredentialPublicKey,
    CredentialPublicKeyView, CredentialSchema, PredicateProof, PredicateView, PrimarySubProof,
    PrimarySubProofView, SubProofRequest, SubProofRequestView,
};

verus! {

/// The schema binds distinct attribute names.
pub open spec fn schema_wf(schema: Seq<Seq<char>>) -> bool {
    distinct_names(schema)
}

/// The issuer key carries one attribute generator per schema attribute.
pub open spec fn key_fits_schema(pk: CredentialPublicKeyView, schema: Seq<Seq<char>>) -> bool {
    pk.r_attrs.len() == schema.len()
}

/// Every attribute the request names exists in the schema.
pub open spec fn request_in_schema(schema: Seq<Seq<char>>, req: SubProofRequestView) -> bool {
    (forall|i: int|
        0 <= i < req.revealed_attrs.len() ==> contains_name(schema, #[trigger] req.revealed_attrs[i]))
        && (forall|i: int|
        0 <= i < req.predicates.len() ==> contains_name(
            schema,
            (#[trigger] req.predicates[i]).attr_name,
        ))
}

/// The sub-proof carries one response per schema attribute, one disclosed
/// value per revealed attribute, and one proof per predicate.
pub open spec fn primary_structure_ok(
    schema: Seq<Seq<char>>,
    req: SubProofRequestView,
    sub: PrimarySubProofView,
) -> bool {
    sub.m_hat.len() == schema.len() && sub.revealed_values.len() == req.revealed_attrs.len()
        && sub.predicate_proofs.len() == req.predicates.len()
}

/// The commitment a disclosed attribute contributes: its generator raised
/// to the disclosed value.
pub open spec fn disclosed_commitment(
    pk: CredentialPublicKeyView,
    schema: Seq<Seq<char>>,
    name: Seq<char>,
    value: u64,
) -> u64 {
    pow_mod_spec(pk.r_attrs[index_of_name(schema, name)], value)
}

/// The first `k` disclosed-attribute commitments, in request order.
pub open spec fn disclosed_commitments(
    pk: CredentialPublicKeyView,
    schema: Seq<Seq<char>>,
    req: SubProofRequestView,
    sub: PrimarySubProofView,
    k: int,
) -> Seq<u64>
    decreases k,
{
    if k <= 0 {
        Seq::empty()
    } else {
        disclosed_commitments(pk, schema, req, sub, k - 1).push(
            disclosed_commitment(pk, schema, req.revealed_attrs[k - 1], sub.revealed_values[k - 1]),
        )
    }
}

/// The product of the first `k` disclosed-attribute commitments.
pub open spec fn disclosed_factor(
    pk: CredentialPublicKeyView,
    schema: Seq<Seq<char>>,
    req: SubProofRequestView,
    sub: PrimarySubProofView,
    k: int,
) -> u64
    decreases k,
{
    if k <= 0 {
        1
    } else {
        mul_mod_spec(
            disclosed_factor(pk, schema, req, sub, k - 1),
            disclosed_commitment(pk, schema, req.revealed_attrs[k - 1], sub.revealed_values[k - 1]),
        )
    }
}

/// The commitment one predicate contributes: the attribute generator raised
/// to the response, times the difference commitment raised to `-c`.
pub open spec fn predicate_commitment(
    pk: CredentialPublicKeyView,
    schema: Seq<Seq<char>>,
    pred: PredicateView,
    pp: PredicateProof,
    c: u64,
) -> u64 {
    mul_mod_spec(
        pow_mod_spec(pk.r_attrs[index_of_name(schema, pred.attr_name)], pp.d_hat),
        pow_mod_spec(pp.d_commit, neg_exp_spec(c)),
    )
}

/// The first `k` predicate commitments, in request order.
pub open spec fn predicate_commitments(
    pk: CredentialPublicKeyView,
    schema: Seq<Seq<char>>,
    req: SubProofRequestView,
    sub: PrimarySubProofView,
    c: u64,
    k: int,
) -> Seq<u64>
    decreases k,
{
    if k <= 0 {
        Seq::empty()
    } else {
        predicate_commitments(pk, schema, req, sub, c, k - 1).push(
            predicate_commitment(pk, schema, req.predicates[k - 1], sub.predicate_proofs[k - 1], c),
        )
    }
}

/// The product of `r_i ^ m_hat_i` over the hidden attributes among the
/// first `k` schema positions.
pub open spec fn hidden_factor(
    pk: CredentialPublicKeyView,
    schema: Seq<Seq<char>>,
    revealed: Seq<Seq<char>>,
    m_hat: Seq<u64>,
    k: int,
) -> u64
    decreases k,
{
    if k <= 0 {
        1
    } else {
        let prev = hidden_factor(pk, schema, revealed, m_hat, k - 1);
        if contains_name(revealed, schema[k - 1]) {
            prev
        } else {
            mul_mod_spec(prev, pow_mod_spec(pk.r_attrs[k - 1], m_hat[k - 1]))
        }
    }
}

/// The reconstructed signature commitment: the blinded signature component
/// raised to the response exponents, times the hidden-attribute responses,
/// times `z ^ -c * (disclosed factor) ^ c` — the challenge-weighted quotient
/// of the public key component by the disclosed-attribute values. When the
/// responses satisfy the challenge equation this reproduces the prover's
/// original commitment.
pub open spec fn signature_commitment(
    pk: CredentialPublicKeyView,
    schema: Seq<Seq<char>>,
    req: SubProofRequestView,
    sub: PrimarySubProofView,
    c: u64,
) -> u64 {
    mul_mod_spec(
        mul_mod_spec(
            mul_mod_spec(pow_mod_spec(sub.a_prime, sub.e_hat), pow_mod_spec(pk.s, sub.v_hat)),
            hidden_factor(pk, schema, req.revealed_attrs, sub.m_hat, schema.len() as int),
        ),
        mul_mod_spec(
            pow_mod_spec(pk.z, neg_exp_spec(c)),
            pow_mod_spec(disclosed_factor(pk, schema, req, sub, req.revealed_attrs.len() as int), c),
        ),
    )
}

/// Every commitment this sub-proof feeds into the transcript, in canonical
/// order: disclosed attributes, predicates, then the signature commitment.
pub open spec fn primary_commitments(
    pk: CredentialPublicKeyView,
    schema: Seq<Seq<char>>,
    req: SubProofRequestView,
    sub: PrimarySubProofView,
    c: u64,
) -> Seq<u64> {
    disclosed_commitments(pk, schema, req, sub, req.revealed_attrs.len() as int)
        + predicate_commitments(pk, schema, req, sub, c, req.predicates.len() as int) + seq![
        signature_commitment(pk, schema, req, sub, c),
    ]
}

/// Recomputes the primary sub-proof's commitments from the holder's
/// responses and the embedded challenge `c`.
pub fn compute_primary_commitments(
    pk: &CredentialPublicKey,
    schema: &CredentialSchema,
    req: &SubProofRequest,
    sub: &PrimarySubProof,
    c: u64,
) -> (r: Vec<u64>)
    requires
        schema_wf(schema@),
        key_fits_schema(pk@, schema@),
        request_in_schema(schema@, req@),
        primary_structure_ok(schema@, req@, sub@),
    ensures
        r@ == primary_commitments(pk@, schema@, req@, sub@, c),
{
    let mut out: Vec<u64> = Vec::new();
    let mut disclosed: u64 = 1;
    let mut j: usize = 0;
    while j < req.revealed_attrs.len()
        invariant
            j <= req.revealed_attrs.len(),
            schema_wf(schema@),
            key_fits_schema(pk@, schema@),
            request_in_schema(schema@, req@),
            primary_structure_ok(schema@, req@, sub@),
            out@ == disclosed_commitments(pk@, schema@, req@, sub@, j as int),
            disclosed == disclosed_factor(pk@, schema@, req@, sub@, j as int),
        decreases req.revealed_attrs.len() - j,
    {
        proof {
            assert(req@.revealed_attrs[j as int] == req.revealed_attrs@[j as int]@);
        }
        match find_attr(schema, &req.revealed_attrs[j]) {
            Some(i) => {
                let t = pow_mod(pk.r_attrs[i], sub.revealed_values[j]);
                out.push(t);
                disclosed = mul_mod(disclosed, t);
            },
            None => {
                proof {
                    assert(false);
                }
            },
        }
        j += 1;
    }
    let ghost disclosed_part = out@;
    let ghost disclosed_full = disclosed;
    let mut j: usize = 0;
    while j < req.predicates.len()
        invariant
            j <= req.predicates.len(),
            schema_wf(schema@),
            key_fits_schema(pk@, schema@),
            request_in_schema(schema@, req@),
            primary_structure_ok(schema@, req@, sub@),
            disclosed_part == disclosed_commitments(
                pk@,
                schema@,
                req@,
                sub@,
                req@.revealed_attrs.len() as int,
            ),
            out@ == disclosed_part + predicate_commitments(pk@, schema@, req@, sub@, c, j as int),
        decreases req.predicates.len() - j,
    {
        proof {
            assert(req@.predicates[j as int] == req.predicates@[j as int]@);
        }
        match find_attr(schema, &req.predicates[j].attr_name) {
            Some(i) => {
                let pp = sub.predicate_proofs[j];
                let t = mul_mod(pow_mod(pk.r_attrs[i], pp.d_hat), pow_mod(pp.d_commit, neg_exp(c)));
                out.push(t);
            },
            None => {
                proof {
                    assert(false);
                }
            },
        }
        j += 1;
    }
    let mut hidden: u64 = 1;
    let mut i: usize = 0;
    while i < schema.attr_names.len()
        invariant
            i <= schema.attr_names.len(),
            schema_wf(schema@),
            key_fits_schema(pk@, schema@),
            primary_structure_ok(schema@, req@, sub@),
            hidden == hidden_factor(pk@, schema@, req@.revealed_attrs, sub@.m_hat, i as int),
        decreases schema.attr_names.len() - i,
    {
        proof {
            assert(schema@[i as int] == schema.attr_names@[i as int]@);
        }
        if !contains_attr(&req.revealed_attrs, &schema.attr_names[i]) {
            hidden = mul_mod(hidden, pow_mod(pk.r_attrs[i], sub.m_hat[i]));
        }
        i += 1;
    }
    let t_sig = mul_mod(
        mul_mod(mul_mod(pow_mod(sub.a_prime, sub.e_hat), pow_mod(pk.s, sub.v_hat)), hidden),
        mul_mod(pow_mod(pk.z, neg_exp(c)), pow_mod(disclosed, c)),
    );
    out.push(t_sig);
    proof {
        assert(out@ =~= primary_commitments(pk@, schema@, req@, sub@, c));
    }
    out
}

} // verus!
