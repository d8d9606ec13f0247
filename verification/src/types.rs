//! Data model of the verification core.
//!
//! All cryptographic objects are plain public values: group elements are
//! residues modulo [`crate::group::P`], scalars are residues modulo
//! [`crate::group::Q`]. The holder-produced [`Proof`] is the only input the
//! verifier treats as adversarial; schemas, keys and requests come from the
//! relying party's trust policy and are assumed well formed.

use vstd::prelude::*;

verus! {

/// Errors the verification core reports.
///
/// Cryptographic invalidity is not an error: an invalid proof is the
/// ordinary `Ok(false)` outcome of `verify`.
#[derive(Clone, Copy, Debug, PartialEq, Eq, Structural)]
pub enum VerifierError {
    /// A commitment fed to the challenge accumulator is outside the group.
    MalformedCommitment,
    /// A sub-proof request names an attribute the schema does not bind.
    AttributeNotFoundInSchema,
    /// Exactly one of the two revocation parameters was supplied.
    RevocationParamsMismatch,
    /// The proof's shape does not match the registered requests.
    ProofStructureMismatch,
    /// The single-use verifier was used again after `verify`.
    VerifierAlreadyConsumed,
}

/// Single-use random challenge value issued by the verifier side.
#[derive(Clone, Copy, Debug, PartialEq, Eq, Structural)]
pub struct Nonce {
    pub value: u64,
}

/// Ordered set of attribute names a credential binds.
pub struct CredentialSchema {
    pub attr_names: Vec<String>,
}

impl View for CredentialSchema {
    type V = Seq<Seq<char>>;

    open spec fn view(&self) -> Seq<Seq<char>> {
        self.attr_names@.map_values(|s: String| s@)
    }
}

/// A predicate demand: the named attribute must be proven to be at least
/// `lower_bound` without being revealed.
pub struct Predicate {
    pub attr_name: String,
    pub lower_bound: u64,
}

/// Ghost image of a [`Predicate`].
pub struct PredicateView {
    pub attr_name: Seq<char>,
    pub lower_bound: u64,
}

impl View for Predicate {
    type V = PredicateView;

    open spec fn view(&self) -> PredicateView {
        PredicateView { attr_name: self.attr_name@, lower_bound: self.lower_bound }
    }
}

/// What one credential must disclose and what it must prove.
pub struct SubProofRequest {
    pub revealed_attrs: Vec<String>,
    pub predicates: Vec<Predicate>,
}

/// Ghost image of a [`SubProofRequest`].
pub struct SubProofRequestView {
    pub revealed_attrs: Seq<Seq<char>>,
    pub predicates: Seq<PredicateView>,
}

impl View for SubProofRequest {
    type V = SubProofRequestView;

    open spec fn view(&self) -> SubProofRequestView {
        SubProofRequestView {
            revealed_attrs: self.revealed_attrs@.map_values(|s: String| s@),
            predicates: self.predicates@.map_values(|p: Predicate| p@),
        }
    }
}

/// Issuer's public verification key for primary signatures.
///
/// `r_attrs` holds one generator per schema attribute, in schema order.
pub struct CredentialPublicKey {
    pub z: u64,
    pub s: u64,
    pub r_attrs: Vec<u64>,
}

/// Ghost image of a [`CredentialPublicKey`].
pub struct CredentialPublicKeyView {
    pub z: u64,
    pub s: u64,
    pub r_attrs: Seq<u64>,
}

impl View for CredentialPublicKey {
    type V = CredentialPublicKeyView;

    open spec fn view(&self) -> CredentialPublicKeyView {
        CredentialPublicKeyView { z: self.z, s: self.s, r_attrs: self.r_attrs@ }
    }
}

/// Public key component of a revocation registry.
#[derive(Clone, Copy, Debug, PartialEq, Eq, Structural)]
pub struct RevocationKeyPublic {
    pub h: u64,
}

/// Public accumulator state of a revocation registry.
#[derive(Clone, Copy, Debug, PartialEq, Eq, Structural)]
pub struct RevocationRegistry {
    pub accumulator: u64,
}

/// Holder's proof for one predicate demand.
#[derive(Clone, Copy, Debug, PartialEq, Eq, Structural)]
pub struct PredicateProof {
    /// Response scalar for the bounded difference.
    pub d_hat: u64,
    /// Public commitment to the difference between attribute and bound.
    pub d_commit: u64,
}

/// Holder's signature-possession sub-proof for one credential.
pub struct PrimarySubProof {
    /// Blinded signature component.
    pub a_prime: u64,
    /// Response scalar for the signature exponent.
    pub e_hat: u64,
    /// Response scalar for the blinding exponent.
    pub v_hat: u64,
    /// One response scalar per schema attribute, in schema order; entries at
    /// revealed positions are ignored.
    pub m_hat: Vec<u64>,
    /// Disclosed attribute values, aligned with the request's revealed list.
    pub revealed_values: Vec<u64>,
    /// One entry per predicate of the request, in request order.
    pub predicate_proofs: Vec<PredicateProof>,
}

/// Ghost image of a [`PrimarySubProof`].
pub struct PrimarySubProofView {
    pub a_prime: u64,
    pub e_hat: u64,
    pub v_hat: u64,
    pub m_hat: Seq<u64>,
    pub revealed_values: Seq<u64>,
    pub predicate_proofs: Seq<PredicateProof>,
}

impl View for PrimarySubProof {
    type V = PrimarySubProofView;

    open spec fn view(&self) -> PrimarySubProofView {
        PrimarySubProofView {
            a_prime: self.a_prime,
            e_hat: self.e_hat,
            v_hat: self.v_hat,
            m_hat: self.m_hat@,
            revealed_values: self.revealed_values@,
            predicate_proofs: self.predicate_proofs@,
        }
    }
}

/// Holder's accumulator-membership sub-proof.
#[derive(Clone, Copy, Debug, PartialEq, Eq, Structural)]
pub struct NonRevocSubProof {
    /// Response scalar for the witness exponent.
    pub u_hat: u64,
}

/// The part of a presentation proof that belongs to one credential.
pub struct SubProof {
    pub primary: PrimarySubProof,
    pub non_revoc: Option<NonRevocSubProof>,
}

/// Ghost image of a [`SubProof`].
pub struct SubProofView {
    pub primary: PrimarySubProofView,
    pub non_revoc: Option<NonRevocSubProof>,
}

impl View for SubProof {
    type V = SubProofView;

    open spec fn view(&self) -> SubProofView {
        SubProofView { primary: self.primary@, non_revoc: self.non_revoc }
    }
}

/// Holder-produced presentation proof: one sub-proof per credential plus the
/// aggregated challenge the holder computed.
pub struct Proof {
    pub sub_proofs: Vec<SubProof>,
    pub challenge: u64,
}

/// Ghost image of a [`Proof`].
pub struct ProofView {
    pub sub_proofs: Seq<SubProofView>,
    pub challenge: u64,
}

impl View for Proof {
    type V = ProofView;

    open spec fn view(&self) -> ProofView {
        ProofView {
            sub_proofs: self.sub_proofs@.map_values(|s: SubProof| s@),
            challenge: self.challenge,
        }
    }
}

/// No two entries of `names` are the same name.
pub open spec fn distinct_names(names: Seq<Seq<char>>) -> bool {
    forall|i: int, j: int| 0 <= i < j < names.len() ==> names[i] != names[j]
}

/// `name` occurs somewhere in `names`.
pub open spec fn contains_name(names: Seq<Seq<char>>, name: Seq<char>) -> bool {
    exists|j: int| 0 <= j < names.len() && names[j] == name
}

/// The position of `name` in `names`; meaningful when the names are
/// distinct and `name` occurs.
pub open spec fn index_of_name(names: Seq<Seq<char>>, name: Seq<char>) -> int {
    choose|j: int| 0 <= j < names.len() && names[j] == name
}

/// Whether `name` occurs among `names`.
pub fn contains_attr(names: &Vec<String>, name: &String) -> (b: bool)
    ensures
        b == contains_name(names@.map_values(|s: String| s@), name@),
{
    let ghost view = names@.map_values(|s: String| s@);
    let mut i: usize = 0;
    while i < names.len()
        invariant
            i <= names.len(),
            view == names@.map_values(|s: String| s@),
            forall|j: int| 0 <= j < i ==> view[j] != name@,
        decreases names.len() - i,
    {
        if names[i] == *name {
            proof {
                assert(view[i as int] == name@);
            }
            return true;
        }
        i += 1;
    }
    false
}

/// Finds the position of `name` among the schema's attribute names.
///
/// When the names are distinct, the found position is the one the ghost
/// [`index_of_name`] denotes.
pub fn find_attr(schema: &CredentialSchema, name: &String) -> (r: Option<usize>)
    ensures
        match r {
            Some(i) => i < schema@.len() && schema@[i as int] == name@ && (distinct_names(schema@)
                ==> i == index_of_name(schema@, name@)),
            None => !contains_name(schema@, name@),
        },
{
    let ghost view = schema@;
    let mut i: usize = 0;
    while i < schema.attr_names.len()
        invariant
            i <= schema.attr_names.len(),
            view == schema@,
            forall|j: int| 0 <= j < i ==> view[j] != name@,
        decreases schema.attr_names.len() - i,
    {
        if schema.attr_names[i] == *name {
            proof {
                assert(view[i as int] == name@);
                if distinct_names(view) {
                    let j = index_of_name(view, name@);
                    assert(0 <= j < view.len() && view[j] == name@);
                    if j != i as int {
                        assert(view[i as int] != view[j]);
                    }
                }
            }
            return Some(i);
        }
        i += 1;
    }
    None
}

} // verus!
