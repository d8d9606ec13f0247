//! Proof verifier orchestrator: the single-use aggregator that drives the
//! primary and non-revocation verifiers across all sub-proofs of one
//! presentation.
//!
//! Lifecycle: created empty, zero or more sub-proof requests appended in
//! the holder's registration order, then exactly one `verify` call, which
//! consumes the instance. Verification recomputes every commitment, folds
//! them into one challenge transcript together with the nonce, and accepts
//! exactly when the recomputed challenge equals the one embedded in the
//! proof.

use vstd::prelude::*;
use crate::nonrevoc::{compute_non_revoc_commitment, non_revoc_commitment};
use crate::primary::{
    compute_primary_commitments, key_fits_schema, primary_commitments, primary_structure_ok,
    request_in_schema, schema_wf,
};
use crate::transcript::{challenge_of, commitment_in_range, ChallengeAccumulator};
use crate::types::{
    contains_attr, contains_name, CredentialPublicKey, CredentialPublicKeyView, CredentialSchema,
    Nonce, Proof, ProofView, RevocationKeyPublic, RevocationRegistry, SubProof, SubProofRequest,
    SubProofRequestView, SubProofView, VerifierError,
};

verus! {

/// One registered verification context: everything needed to check one
/// credential's sub-proof.
pub struct VerifierEntry {
    /// Diagnostic identifier of the issuer key; not cryptographically bound.
    pub key_id: String,
    pub sub_proof_request: SubProofRequest,
    pub credential_schema: CredentialSchema,
    pub credential_pub_key: CredentialPublicKey,
    /// Revocation context; present exactly when the credential type carries
    /// revocation support.
    pub revocation: Option<(RevocationKeyPublic, RevocationRegistry)>,
}

/// Ghost image of a [`VerifierEntry`].
pub struct EntryView {
    pub key_id: Seq<char>,
    pub request: SubProofRequestView,
    pub schema: Seq<Seq<char>>,
    pub pk: CredentialPublicKeyView,
    pub rev: Option<(RevocationKeyPublic, RevocationRegistry)>,
}

impl View for VerifierEntry {
    type V = EntryView;

    open spec fn view(&self) -> EntryView {
        EntryView {
            key_id: self.key_id@,
            request: self.sub_proof_request@,
            schema: self.credential_schema@,
            pk: self.credential_pub_key@,
            rev: self.revocation,
        }
    }
}

/// A registered entry is well formed: named key, distinct schema names, a
/// generator per attribute, and every requested attribute bound by the
/// schema.
pub open spec fn entry_wf(e: EntryView) -> bool {
    e.key_id.len() > 0 && schema_wf(e.schema) && key_fits_schema(e.pk, e.schema)
        && request_in_schema(e.schema, e.request)
}

/// Ghost image of a [`ProofVerifier`].
pub struct ProofVerifierView {
    pub entries: Seq<EntryView>,
    pub consumed: bool,
}

/// Every registered entry is well formed.
pub open spec fn verifier_wf(v: ProofVerifierView) -> bool {
    forall|i: int| 0 <= i < v.entries.len() ==> entry_wf(#[trigger] v.entries[i])
}

/// The sub-proof's shape fits the registered entry: response counts match
/// the schema and the request, and a non-revocation sub-proof is present
/// exactly when the entry carries a revocation context.
pub open spec fn entry_matches(e: EntryView, sp: SubProofView) -> bool {
    primary_structure_ok(e.schema, e.request, sp.primary) && (e.rev is Some <==> sp.non_revoc
        is Some)
}

/// Every commitment one (entry, sub-proof) pair feeds into the transcript:
/// the primary commitments, then the non-revocation commitment if any.
pub open spec fn entry_commitments(e: EntryView, sp: SubProofView, c: u64) -> Seq<u64> {
    primary_commitments(e.pk, e.schema, e.request, sp.primary, c) + match (e.rev, sp.non_revoc) {
        (Some(rr), Some(nr)) => seq![non_revoc_commitment(rr.0, rr.1, nr, c)],
        _ => Seq::<u64>::empty(),
    }
}

/// Some commitment of `cs` lies outside the group.
pub open spec fn exists_bad(cs: Seq<u64>) -> bool {
    exists|i: int| 0 <= i < cs.len() && !commitment_in_range(cs[i])
}

/// Processes the (entry, sub-proof) pairs from position `k` on, in order:
/// the commitments they contribute, or the first error met.
pub open spec fn process_entries(
    entries: Seq<EntryView>,
    subs: Seq<SubProofView>,
    c: u64,
    k: int,
) -> Result<Seq<u64>, VerifierError>
    decreases entries.len() - k,
{
    if k < 0 || k >= entries.len() {
        Ok(Seq::<u64>::empty())
    } else if !entry_matches(entries[k], subs[k]) {
        Err(VerifierError::ProofStructureMismatch)
    } else if exists_bad(entry_commitments(entries[k], subs[k], c)) {
        Err(VerifierError::MalformedCommitment)
    } else {
        match process_entries(entries, subs, c, k + 1) {
            Ok(rest) => Ok(entry_commitments(entries[k], subs[k], c) + rest),
            Err(e) => Err(e),
        }
    }
}

/// What `verify` returns for a registry state, a proof and a nonce: the
/// sole verification predicate is equality of the recomputed challenge with
/// the embedded one.
pub open spec fn verify_outcome(entries: Seq<EntryView>, proof: ProofView, nonce: u64) -> Result<
    bool,
    VerifierError,
> {
    if proof.sub_proofs.len() != entries.len() {
        Err(VerifierError::ProofStructureMismatch)
    } else {
        match process_entries(entries, proof.sub_proofs, proof.challenge, 0) {
            Ok(cs) => Ok(challenge_of(cs, nonce) == proof.challenge),
            Err(e) => Err(e),
        }
    }
}

/// Mutable, single-use aggregator of verification contexts.
pub struct ProofVerifier {
    pub entries: Vec<VerifierEntry>,
    pub consumed: bool,
}

impl View for ProofVerifier {
    type V = ProofVerifierView;

    open spec fn view(&self) -> ProofVerifierView {
        ProofVerifierView {
            entries: self.entries@.map_values(|e: VerifierEntry| e@),
            consumed: self.consumed,
        }
    }
}

/// Entry point of the verifier side of the protocol.
pub struct Verifier;

impl Verifier {
    /// Creates an empty proof verifier in its building state.
    pub fn new_proof_verifier() -> (r: ProofVerifier)
        ensures
            r@.entries.len() == 0,
            !r@.consumed,
            verifier_wf(r@),
    {
        ProofVerifier { entries: Vec::new(), consumed: false }
    }
}

impl ProofVerifier {
    /// Appends one verification context to the ordered registry.
    ///
    /// Checks, in order: the verifier has not been consumed; every
    /// attribute the request names exists in the schema; the two
    /// revocation parameters are both present or both absent. On any error
    /// the registry is left unchanged. Duplicate key identifiers are
    /// permitted: a presentation may hold two credentials of one issuer.
    #[verifier::loop_isolation(false)]
    pub fn add_sub_proof_request(
        &mut self,
        key_id: String,
        sub_proof_request: SubProofRequest,
        credential_schema: CredentialSchema,
        credential_pub_key: CredentialPublicKey,
        rev_key_pub: Option<RevocationKeyPublic>,
        rev_reg: Option<RevocationRegistry>,
    ) -> (r: Result<(), VerifierError>)
        requires
            key_id@.len() > 0,
            schema_wf(credential_schema@),
            key_fits_schema(credential_pub_key@, credential_schema@),
        ensures
            match r {
                Ok(()) => !old(self)@.consumed && request_in_schema(
                    credential_schema@,
                    sub_proof_request@,
                ) && (rev_key_pub is Some <==> rev_reg is Some) && final(self)@ == (
                ProofVerifierView {
                    consumed: false,
                    entries: old(self)@.entries.push(
                        EntryView {
                            key_id: key_id@,
                            request: sub_proof_request@,
                            schema: credential_schema@,
                            pk: credential_pub_key@,
                            rev: match (rev_key_pub, rev_reg) {
                                (Some(rk), Some(rr)) => Some((rk, rr)),
                                _ => None,
                            },
                        },
                    ),
                }),
                Err(e) => final(self)@ == old(self)@ && ((e
                    == VerifierError::VerifierAlreadyConsumed && old(self)@.consumed) || (e
                    == VerifierError::AttributeNotFoundInSchema && !old(self)@.consumed
                    && !request_in_schema(credential_schema@, sub_proof_request@)) || (e
                    == VerifierError::RevocationParamsMismatch && !old(self)@.consumed
                    && request_in_schema(credential_schema@, sub_proof_request@) && (rev_key_pub
                    is Some <==> rev_reg is None))),
            },
            verifier_wf(old(self)@) ==> verifier_wf(final(self)@),
    {
        if self.consumed {
            return Err(VerifierError::VerifierAlreadyConsumed);
        }
        let ghost schema_v = credential_schema@;
        let ghost req_v = sub_proof_request@;
        let mut i: usize = 0;
        while i < sub_proof_request.revealed_attrs.len()
            invariant
                i <= sub_proof_request.revealed_attrs.len(),
                schema_v == credential_schema@,
                req_v == sub_proof_request@,
                forall|j: int|
                    0 <= j < i ==> contains_name(schema_v, #[trigger] req_v.revealed_attrs[j]),
            decreases sub_proof_request.revealed_attrs.len() - i,
        {
            if !contains_attr(&credential_schema.attr_names, &sub_proof_request.revealed_attrs[i]) {
                proof {
                    assert(req_v.revealed_attrs[i as int] == sub_proof_request.revealed_attrs@[
                        i as int]@);
                    assert(!contains_name(schema_v, req_v.revealed_attrs[i as int]));
                    assert(!request_in_schema(schema_v, req_v));
                }
                return Err(VerifierError::AttributeNotFoundInSchema);
            }
            i += 1;
        }
        let mut i: usize = 0;
        while i < sub_proof_request.predicates.len()
            invariant
                i <= sub_proof_request.predicates.len(),
                schema_v == credential_schema@,
                req_v == sub_proof_request@,
                forall|j: int|
                    0 <= j < req_v.revealed_attrs.len() ==> contains_name(
                        schema_v,
                        #[trigger] req_v.revealed_attrs[j],
                    ),
                forall|j: int|
                    0 <= j < i ==> contains_name(
                        schema_v,
                        (#[trigger] req_v.predicates[j]).attr_name,
                    ),
            decreases sub_proof_request.predicates.len() - i,
        {
            if !contains_attr(
                &credential_schema.attr_names,
                &sub_proof_request.predicates[i].attr_name,
            ) {
                proof {
                    assert(req_v.predicates[i as int] == sub_proof_request.predicates@[i as int]@);
                    assert(!contains_name(schema_v, req_v.predicates[i as int].attr_name));
                    assert(!request_in_schema(schema_v, req_v));
                }
                return Err(VerifierError::AttributeNotFoundInSchema);
            }
            i += 1;
        }
        let revocation: Option<(RevocationKeyPublic, RevocationRegistry)> = match (
            rev_key_pub,
            rev_reg,
        ) {
            (Some(rk), Some(rr)) => Some((rk, rr)),
            (None, None) => None,
            _ => {
                return Err(VerifierError::RevocationParamsMismatch);
            },
        };
        self.entries.push(
            VerifierEntry {
                key_id,
                sub_proof_request,
                credential_schema,
                credential_pub_key,
                revocation,
            },
        );
        proof {
            assert(self@.entries =~= old(self)@.entries.push(self.entries@.last()@));
        }
        Ok(())
    }

    /// Verifies the proof against the registered requests and the nonce,
    /// consuming the verifier: any further call fails.
    ///
    /// A structurally sound but cryptographically invalid proof is the
    /// ordinary `Ok(false)` outcome, not an error.
    #[verifier::rlimit(100)]
    #[verifier::loop_isolation(false)]
    pub fn verify(&mut self, proof: &Proof, nonce: &Nonce) -> (r: Result<bool, VerifierError>)
        requires
            verifier_wf(old(self)@),
        ensures
            old(self)@.consumed ==> r == Err::<bool, VerifierError>(
                VerifierError::VerifierAlreadyConsumed,
            ) && final(self)@ == old(self)@,
            !old(self)@.consumed ==> final(self)@ == (ProofVerifierView {
                consumed: true,
                entries: old(self)@.entries,
            }) && r == verify_outcome(old(self)@.entries, proof@, nonce.value),
            verifier_wf(final(self)@),
    {
        if self.consumed {
            return Err(VerifierError::VerifierAlreadyConsumed);
        }
        self.consumed = true;
        let ghost entries_v = self@.entries;
        let ghost subs_v = proof@.sub_proofs;
        if proof.sub_proofs.len() != self.entries.len() {
            return Err(VerifierError::ProofStructureMismatch);
        }
        proof {
            assert(entries_v.len() == self.entries@.len());
            assert(subs_v.len() == proof.sub_proofs@.len());
        }
        let c = proof.challenge;
        let mut acc = ChallengeAccumulator::new();
        let mut k: usize = 0;
        while k < self.entries.len()
            invariant
                k <= self.entries.len(),
                process_entries(entries_v, subs_v, c, k as int) is Ok ==> process_entries(
                    entries_v,
                    subs_v,
                    c,
                    0,
                ) == Ok::<Seq<u64>, VerifierError>(
                    acc@ + process_entries(entries_v, subs_v, c, k as int)->Ok_0,
                ),
                process_entries(entries_v, subs_v, c, k as int) is Err ==> process_entries(
                    entries_v,
                    subs_v,
                    c,
                    0,
                ) == process_entries(entries_v, subs_v, c, k as int),
            decreases self.entries.len() - k,
        {
            let entry = &self.entries[k];
            let sp = &proof.sub_proofs[k];
            proof {
                assert(entry@ == entries_v[k as int]);
                assert(sp@ == subs_v[k as int]);
                assert(entry_wf(entry@));
            }
            let structure_ok = sp.primary.m_hat.len() == entry.credential_schema.attr_names.len()
                && sp.primary.revealed_values.len()
                == entry.sub_proof_request.revealed_attrs.len()
                && sp.primary.predicate_proofs.len() == entry.sub_proof_request.predicates.len()
                && (entry.revocation.is_some() == sp.non_revoc.is_some());
            if !structure_ok {
                proof {
                    assert(!entry_matches(entries_v[k as int], subs_v[k as int]));
                    assert(process_entries(entries_v, subs_v, c, k as int) == Err::<
                        Seq<u64>,
                        VerifierError,
                    >(VerifierError::ProofStructureMismatch));
                }
                return Err(VerifierError::ProofStructureMismatch);
            }
            let mut cs = compute_primary_commitments(
                &entry.credential_pub_key,
                &entry.credential_schema,
                &entry.sub_proof_request,
                &sp.primary,
                c,
            );
            match (&entry.revocation, &sp.non_revoc) {
                (Some(rr), Some(nr)) => {
                    let t = compute_non_revoc_commitment(&rr.0, &rr.1, nr, c);
                    cs.push(t);
                },
                _ => {},
            }
            proof {
                assert(entry_matches(entries_v[k as int], subs_v[k as int]));
                assert(cs@ =~= entry_commitments(entries_v[k as int], subs_v[k as int], c));
            }
            let ghost acc0 = acc@;
            let mut m: usize = 0;
            while m < cs.len()
                invariant
                    m <= cs.len(),
                    acc@ == acc0 + cs@.take(m as int),
                    forall|j: int| 0 <= j < m ==> commitment_in_range(#[trigger] cs@[j]),
                decreases cs.len() - m,
            {
                match acc.add_commitment(cs[m]) {
                    Ok(()) => {
                        proof {
                            assert(acc@ =~= acc0 + cs@.take(m as int + 1));
                        }
                    },
                    Err(e) => {
                        proof {
                            assert(!commitment_in_range(cs@[m as int]));
                            assert(exists_bad(cs@));
                            assert(process_entries(entries_v, subs_v, c, k as int) == Err::<
                                Seq<u64>,
                                VerifierError,
                            >(VerifierError::MalformedCommitment));
                        }
                        return Err(e);
                    },
                }
                m += 1;
            }
            proof {
                assert(cs@.take(cs@.len() as int) =~= cs@);
                assert(acc@ == acc0 + cs@);
                assert(!exists_bad(cs@));
                let next = process_entries(entries_v, subs_v, c, k as int + 1);
                if next is Ok {
                    assert(process_entries(entries_v, subs_v, c, k as int) == Ok::<
                        Seq<u64>,
                        VerifierError,
                    >(cs@ + next->Ok_0));
                    assert((acc0 + cs@) + next->Ok_0 =~= acc0 + (cs@ + next->Ok_0));
                } else {
                    assert(process_entries(entries_v, subs_v, c, k as int) == next);
                }
            }
            k += 1;
        }
        proof {
            assert(process_entries(entries_v, subs_v, c, k as int) == Ok::<
                Seq<u64>,
                VerifierError,
            >(Seq::<u64>::empty()));
            assert(acc@ + Seq::<u64>::empty() =~= acc@);
        }
        let c_ver = acc.finalize(nonce);
        Ok(c_ver == proof.challenge)
    }
}

/// With matching structure and in-group commitments from position `k` on,
/// processing the remaining entries cannot fail.
proof fn lemma_process_entries_ok(
    entries: Seq<EntryView>,
    subs: Seq<SubProofView>,
    c: u64,
    k: int,
)
    requires
        0 <= k <= entries.len(),
        entries.len() == subs.len(),
        forall|i: int|
            k <= i < entries.len() ==> entry_matches(#[trigger] entries[i], subs[i]),
        forall|i: int|
            k <= i < entries.len() ==> !exists_bad(
                entry_commitments(#[trigger] entries[i], subs[i], c),
            ),
    ensures
        process_entries(entries, subs, c, k) is Ok,
    decreases entries.len() - k,
{
    if k < entries.len() {
        lemma_process_entries_ok(entries, subs, c, k + 1);
    }
}

/// The acceptance criterion: when the proof's shape fits the registry and
/// every reconstructed commitment lies in the group, verification reports
/// no error, and it accepts exactly when the challenge recomputed from the
/// full reconstructed transcript equals the one embedded in the proof.
/// Equality of challenges is the sole verification predicate: an honestly
/// constructed proof embeds that very challenge and is accepted, and a
/// proof is rejected exactly when its embedded challenge differs from the
/// recomputed one.
pub proof fn lemma_acceptance_criterion(entries: Seq<EntryView>, proof: ProofView, nonce: u64)
    requires
        proof.sub_proofs.len() == entries.len(),
        forall|i: int|
            0 <= i < entries.len() ==> entry_matches(#[trigger] entries[i], proof.sub_proofs[i]),
        forall|i: int|
            0 <= i < entries.len() ==> !exists_bad(
                entry_commitments(#[trigger] entries[i], proof.sub_proofs[i], proof.challenge),
            ),
    ensures
        verify_outcome(entries, proof, nonce) == Ok::<bool, VerifierError>(
            challenge_of(
                process_entries(entries, proof.sub_proofs, proof.challenge, 0)->Ok_0,
                nonce,
            ) == proof.challenge,
        ),
{
    lemma_process_entries_ok(entries, proof.sub_proofs, proof.challenge, 0);
}

/// Determinism: the outcome of verification is a function of the registry
/// state, the proof and the nonce alone; two verifications of the same
/// triple always agree.
pub proof fn lemma_verify_deterministic(
    entries: Seq<EntryView>,
    proof: ProofView,
    nonce: u64,
    r1: Result<bool, VerifierError>,
    r2: Result<bool, VerifierError>,
)
    requires
        r1 == verify_outcome(entries, proof, nonce),
        r2 == verify_outcome(entries, proof, nonce),
    ensures
        r1 == r2,
{
}

} // verus!
