use vstd::prelude::*;

verus! {

/// Every way a key generation, a signing session or a verification can fail.
#[derive(Debug, Clone, Copy, PartialEq, Eq, Structural)]
pub enum FrostError {
    /// The threshold is larger than the number of participants.
    ThresholdExceedsParticipants,
    /// The threshold is zero: no set of signers could be enough.
    ZeroThreshold,
    /// A participant's proof of knowledge of its secret did not verify.
    ProofOfKnowledgeInvalid(u32),
    /// A participant received a number of shares other than `n - 1`.
    ShareCountMismatch(usize, usize),
    /// The second round of key generation refused the shares handed to this participant.
    ShareVerificationFailed(u32),
    /// Two participants derived different group keys.
    GroupKeyMismatch,
    /// Fewer signers than the threshold: (signers given, threshold).
    InsufficientSigners(usize, u32),
    /// A signer index occurs twice in the signer set.
    DuplicateSigner(u32),
    /// A signer index is not one of the participants `1..=n`.
    UnknownSignerIndex(u32),
    /// A signer's partial signature did not verify.
    PartialSignatureInvalid(u32),
    /// The aggregator could not combine the partial signatures.
    AggregationFailed,
    /// The signature does not verify for this key and message.
    SignatureVerificationFailed,
    /// The key material is not well formed (wrong size, not a group element).
    MalformedKeyMaterial,
    /// A signature encoding of the wrong length: (expected, actual).
    MalformedSignatureEncoding(usize, usize),
}

} // verus!
