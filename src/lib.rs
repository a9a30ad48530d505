//! Aggregation layer of a publicly verifiable secret sharing scheme over
//! BLS12-381: homomorphic accumulation of encrypted shares and commitments,
//! signed decomposition proofs, and transcripts that fold shares together
//! with deduplication and equivocation detection.
pub mod errors;
pub mod group;
pub mod pvss;
pub mod share;
pub mod transcript_lemmas;

pub use errors::PVSSError;
pub use pvss::{PVSSCore, PVSSShareSecrets};
pub use share::{message_from_pi_i, DecompProof, PVSSAggregatedShare, PVSSShare, SignedProof};
