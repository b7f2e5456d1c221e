//! What an external signing helper is given and what is read back from it.
//! Running the helper (a child process, files, pipes) is left to the caller.
use vstd::prelude::*;
use vstd::string::StringSliceAdditionalSpecFns;
use crate::der::{parse_ecdsa_der, spec_der_blocks, spec_ecdsa_components, strip_leading_zeros};
use crate::error::AuthManifestError;
use crate::hexcodec::{hex_decode, hex_decoded, hex_encode, hex_lower, is_hex_text};
use crate::image::{ImageDigest, ImageEccSignature, ImageLmsSignature, LMS_SIGNATURE_BYTE_SIZE};
use crate::words::{be_words_48, bytes_to_u32_array, digest_to_be_bytes, left_pad_48, words_be_bytes};

verus! {

/// The signatures a signing helper produced (one of the two, by request).
#[derive(Clone, Copy, Debug)]
pub struct SignaturePair {
    pub ecdsa: Option<ImageEccSignature>,
    pub lms: Option<ImageLmsSignature>,
}

/// The (r, s) words that DER signature bytes stand for, or why there are none.
pub open spec fn spec_ecc_signature_from_der(der: Seq<u8>) -> Result<(Seq<u32>, Seq<u32>), AuthManifestError> {
    match spec_der_blocks(der) {
        None => Err(AuthManifestError::MalformedDer),
        Some(blocks) => match spec_ecdsa_components(blocks) {
            None => Err(AuthManifestError::InvalidEcdsaDer),
            Some((r, s)) => {
                let r = strip_leading_zeros(r);
                let s = strip_leading_zeros(s);
                if r.len() > 48 || s.len() > 48 {
                    Err(AuthManifestError::InvalidScalarLength)
                } else {
                    Ok((be_words_48(left_pad_48(r)), be_words_48(left_pad_48(s))))
                }
            },
        },
    }
}

/// Reads an ECDSA P-384 signature from its DER encoding: both components
/// become twelve big-endian words, left-padded with zeros.
pub fn ecc_signature_from_der(der: &[u8]) -> (res: Result<ImageEccSignature, AuthManifestError>)
    ensures
        match spec_ecc_signature_from_der(der@) {
            Ok((r, s)) => res matches Ok(sig) && sig.r@ == r && sig.s@ == s,
            Err(e) => res == Err::<ImageEccSignature, AuthManifestError>(e),
        },
{
    let (r_bytes, s_bytes) = parse_ecdsa_der(der)?;
    let r = bytes_to_u32_array(r_bytes.as_slice())?;
    let s = bytes_to_u32_array(s_bytes.as_slice())?;
    Ok(ImageEccSignature { r, s })
}

/// Takes an encoded LMS signature as it is, provided it has exactly the
/// length of one.
pub fn lms_signature_from_bytes(bytes: &[u8]) -> (res: Result<ImageLmsSignature, AuthManifestError>)
    ensures
        res is Ok <==> bytes@.len() == LMS_SIGNATURE_BYTE_SIZE,
        res matches Ok(sig) ==> sig.bytes@ == bytes@,
        res matches Err(e) ==> e == (AuthManifestError::InvalidLmsSignatureLength { got: bytes@.len() as usize }),
{
    let len = bytes.len();
    if len != LMS_SIGNATURE_BYTE_SIZE {
        return Err(AuthManifestError::InvalidLmsSignatureLength { got: len });
    }
    let mut sig = ImageLmsSignature::zeroed();
    let mut i: usize = 0;
    while i < LMS_SIGNATURE_BYTE_SIZE
        invariant
            len == bytes@.len() == 1620,
            0 <= i <= 1620,
            sig.bytes@.len() == 1620,
            forall|j: int| 0 <= j < i ==> sig.bytes@[j] == bytes@[j],
        decreases 1620 - i,
    {
        sig.bytes[i] = bytes[i];
        i = i + 1;
    }
    assert(sig.bytes@ =~= bytes@);
    Ok(sig)
}

/// What a helper's raw answer stands for: an ECC signature in DER, or the
/// encoded LMS signature.
pub open spec fn spec_helper_answer(answer: Seq<u8>, is_ecdsa384: bool, pair: SignaturePair) -> bool {
    if is_ecdsa384 {
        &&& spec_ecc_signature_from_der(answer) is Ok
        &&& pair.lms is None
        &&& pair.ecdsa matches Some(sig) && sig.r@ == spec_ecc_signature_from_der(answer)->Ok_0.0
            && sig.s@ == spec_ecc_signature_from_der(answer)->Ok_0.1
    } else {
        &&& answer.len() == LMS_SIGNATURE_BYTE_SIZE
        &&& pair.ecdsa is None
        &&& pair.lms matches Some(sig) && sig.bytes@ == answer
    }
}

/// The error a helper's raw answer gives, if it gives one.
pub open spec fn spec_helper_answer_error(answer: Seq<u8>, is_ecdsa384: bool) -> Option<AuthManifestError> {
    if is_ecdsa384 {
        match spec_ecc_signature_from_der(answer) {
            Ok(_) => None,
            Err(e) => Some(e),
        }
    } else if answer.len() == LMS_SIGNATURE_BYTE_SIZE {
        None
    } else {
        Some(AuthManifestError::InvalidLmsSignatureLength { got: answer.len() as usize })
    }
}

/// Reads the signature a helper wrote back as raw bytes (into its file):
/// DER for ECC, the encoded signature for LMS.
pub fn signature_pair_from_helper_bytes(answer: &[u8], is_ecdsa384: bool)
    -> (res: Result<SignaturePair, AuthManifestError>)
    ensures
        match spec_helper_answer_error(answer@, is_ecdsa384) {
            Some(e) => res == Err::<SignaturePair, AuthManifestError>(e),
            None => res matches Ok(pair) && spec_helper_answer(answer@, is_ecdsa384, pair),
        },
{
    if is_ecdsa384 {
        let sig = ecc_signature_from_der(answer)?;
        Ok(SignaturePair { ecdsa: Some(sig), lms: None })
    } else {
        let sig = lms_signature_from_bytes(answer)?;
        Ok(SignaturePair { ecdsa: None, lms: Some(sig) })
    }
}

/// Reads the signature a helper printed as hexadecimal text (already
/// trimmed of surrounding whitespace).
pub fn signature_pair_from_helper_hex(answer: &str, is_ecdsa384: bool)
    -> (res: Result<SignaturePair, AuthManifestError>)
    ensures
        !is_hex_text(answer.spec_bytes()) ==> res == Err::<SignaturePair, AuthManifestError>(
            AuthManifestError::InvalidHex,
        ),
        is_hex_text(answer.spec_bytes()) ==> match spec_helper_answer_error(hex_decoded(answer.spec_bytes()), is_ecdsa384) {
            Some(e) => res == Err::<SignaturePair, AuthManifestError>(e),
            None => res matches Ok(pair) && spec_helper_answer(hex_decoded(answer.spec_bytes()), is_ecdsa384, pair),
        },
{
    match hex_decode(answer.as_bytes()) {
        Ok(bytes) => signature_pair_from_helper_bytes(bytes.as_slice(), is_ecdsa384),
        Err(()) => Err(AuthManifestError::InvalidHex),
    }
}

/// The digest as a helper receives it through a file: 48 big-endian bytes.
pub fn helper_request_bytes(digest: &ImageDigest) -> (r: Vec<u8>)
    ensures
        r@ == words_be_bytes(digest@),
{
    digest_to_be_bytes(digest)
}

/// The digest as a helper receives it on its standard input: the 48
/// big-endian bytes in lower-case hexadecimal.
pub fn helper_request_hex(digest: &ImageDigest) -> (r: String)
    ensures
        r@ == hex_lower(words_be_bytes(digest@)),
{
    let bytes = digest_to_be_bytes(digest);
    hex_encode(bytes.as_slice())
}

} // verus!
