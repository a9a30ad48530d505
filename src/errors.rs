use vstd::prelude::*;

verus! {

/// Every way in which building, merging or checking a transcript can fail.
#[derive(Debug, Clone, Copy, PartialEq, Eq, Structural)]
pub enum PVSSError {
    /// The commitment vector of the left operand is empty.
    EmptyEncryptionsVectorError,
    /// The two commitment vectors differ in length.
    MismatchedCommitmentsError(usize, usize),
    /// The two encryption vectors differ in length.
    MismatchedEncryptionsError(usize, usize),
    /// Within one operand, commitments and encryptions differ in length.
    MismatchedCommitmentsEncryptionsError(usize, usize),
    /// A byte string does not encode a point of its group.
    InvalidGroupElementError,
    /// Two transcripts were built for different degrees or participant counts.
    TranscriptDifferentConfig(usize, usize, usize, usize),
    /// Two transcripts disagree on the commitment of one participant.
    TranscriptDifferentCommitments,
    /// A decomposition proof could not be turned into its signing message.
    SerializationError,
    /// A decomposition proof failed its own verification.
    DecompProofInvalid,
    /// The signature over a decomposition proof failed verification.
    SignatureInvalid,
}

} // verus!
