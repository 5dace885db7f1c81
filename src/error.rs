use vstd::prelude::*;

verus! {

/// The fatal outcomes of one submission, one per failing step.
#[derive(Debug, Clone, Copy, PartialEq, Eq, Structural)]
pub enum SubmitError {
    /// The signer's secret is not base-58, or does not decode to a valid keypair.
    InvalidKeyEncoding,
    /// A recipient is not base-58, or does not decode to exactly 32 bytes.
    InvalidAddressEncoding,
    /// No freshness token could be fetched from the network.
    NetworkUnavailable,
    /// The envelope could not be signed or serialized.
    SigningFailed,
    /// The relay could not be reached, or answered with no usable reply.
    RelaySubmissionFailed,
}

/// What a relay that understood the request answered.
#[derive(Debug, PartialEq, Eq)]
pub enum RelayResult {
    /// The relay took the envelope; carries its identifier or message.
    Accepted(String),
    /// The relay declined the envelope; carries its error detail.
    Rejected(String),
}

} // verus!
