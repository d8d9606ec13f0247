//! Verifier core for an anonymous-credential presentation protocol.
//!
//! A holder presents a combined zero-knowledge proof built from one or more
//! issued credentials. The relying party registers, in order, one sub-proof
//! request per presented credential (schema, issuer public key, disclosure
//! and predicate demands, optional revocation context) and then verifies the
//! proof against a fresh nonce: the verifier recomputes every commitment
//! from the proof's responses and the embedded challenge, folds them into a
//! single Fiat-Shamir transcript, and accepts exactly when the recomputed
//! challenge equals the one the holder embedded.

pub mod group;
pub mod hash;
pub mod nonrevoc;
pub mod orchestrator;
pub mod primary;
pub mod transcript;
pub mod types;
