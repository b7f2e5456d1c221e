//! Errors of the manifest generator and of the helper-output parsers.
use vstd::prelude::*;

verus! {

/// Why a manifest, a signature or a configuration could not be produced.
#[derive(Clone, Copy, Debug, PartialEq, Eq, Structural)]
pub enum AuthManifestError {
    /// More image metadata entries than the manifest has room for.
    TooManyImageMetadata { count: usize },
    /// A signing helper signs for the owner ECC key, but no owner manifest ECC
    /// public key was given in the optional configuration.
    MissingOwnerEccPubKey,
    /// A signing helper signs for the owner LMS key, but no owner manifest LMS
    /// public key was given in the optional configuration.
    MissingOwnerLmsPubKey,
    /// A signing helper was asked for an ECC signature and returned none.
    ExpectedEccSignature,
    /// A signing helper was asked for an LMS signature and returned none.
    ExpectedLmsSignature,
    /// A signature scalar longer than 48 bytes.
    InvalidScalarLength,
    /// Signing-helper output that is not DER at all.
    MalformedDer,
    /// Signing-helper output that is not a DER SEQUENCE of two INTEGERs.
    InvalidEcdsaDer,
    /// An LMS signature whose encoding does not have the expected length.
    InvalidLmsSignatureLength { got: usize },
    /// Text that is not an even number of hexadecimal digits.
    InvalidHex,
    /// Two image metadata entries with the same firmware id.
    DuplicateFirmwareId,
    /// A reply that does not answer the request that the session made.
    UnexpectedReply,
}

} // verus!
