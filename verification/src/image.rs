//! Key, signature and digest types of the image format.
//!
//! ECC values are held as twelve 32-bit words; the LMS key and signature
//! structures are held as their raw encodings, since the generator never looks
//! inside them.
use vstd::prelude::*;

verus! {

/// Number of 32-bit words in a P-384 scalar or a SHA-384 digest.
pub const ECC384_SCALAR_WORD_SIZE: usize = 12;

/// Number of bytes in a P-384 scalar or a SHA-384 digest.
pub const ECC384_SCALAR_BYTE_SIZE: usize = 48;

/// Size in bytes of an encoded LMS public key.
pub const LMS_PUB_KEY_BYTE_SIZE: usize = 48;

/// Size in bytes of an encoded LMS private key.
pub const LMS_PRIV_KEY_BYTE_SIZE: usize = 48;

/// Size in bytes of an encoded LMS signature (SHA-192, W=8, tree height 15).
pub const LMS_SIGNATURE_BYTE_SIZE: usize = 1620;

/// A P-384 scalar as twelve words, most significant word first.
pub type ImageScalar = [u32; ECC384_SCALAR_WORD_SIZE];

/// A SHA-384 digest as twelve words, most significant word first.
pub type ImageDigest = [u32; ECC384_SCALAR_WORD_SIZE];

/// A P-384 private key.
pub type ImageEccPrivKey = [u32; ECC384_SCALAR_WORD_SIZE];

/// A P-384 public key.
#[derive(Clone, Copy, Debug)]
pub struct ImageEccPubKey {
    pub x: ImageScalar,
    pub y: ImageScalar,
}

/// An ECDSA P-384 signature.
#[derive(Clone, Copy, Debug)]
pub struct ImageEccSignature {
    pub r: ImageScalar,
    pub s: ImageScalar,
}

/// An encoded LMS public key.
#[derive(Clone, Copy, Debug)]
pub struct ImageLmsPublicKey {
    pub bytes: [u8; LMS_PUB_KEY_BYTE_SIZE],
}

/// An encoded LMS private key.
#[derive(Clone, Copy, Debug)]
pub struct ImageLmsPrivKey {
    pub bytes: [u8; LMS_PRIV_KEY_BYTE_SIZE],
}

/// An encoded LMS signature.
#[derive(Clone, Copy, Debug)]
pub struct ImageLmsSignature {
    pub bytes: [u8; LMS_SIGNATURE_BYTE_SIZE],
}

/// Twelve zero words.
pub open spec fn zero_words() -> Seq<u32> {
    Seq::new(12, |i: int| 0u32)
}

/// `n` zero bytes.
pub open spec fn zero_bytes(n: nat) -> Seq<u8> {
    Seq::new(n, |i: int| 0u8)
}

/// The scalar of twelve zero words.
pub open spec fn spec_zero_scalar() -> ImageScalar {
    vstd::array::spec_array_fill_for_copy_type::<u32, ECC384_SCALAR_WORD_SIZE>(0u32)
}

/// A scalar of twelve zero words.
pub fn zero_scalar() -> (r: ImageScalar)
    ensures
        r@ == zero_words(),
        r == spec_zero_scalar(),
{
    let r: ImageScalar = [0u32; ECC384_SCALAR_WORD_SIZE];
    assert(r@ =~= zero_words());
    r
}

impl ImageEccPubKey {
    pub open spec fn spec_zeroed() -> Self {
        ImageEccPubKey { x: spec_zero_scalar(), y: spec_zero_scalar() }
    }

    /// The all-zero public key (the default value).
    pub fn zeroed() -> (r: Self)
        ensures
            r == Self::spec_zeroed(),
            r.x@ == zero_words(),
            r.y@ == zero_words(),
    {
        ImageEccPubKey { x: zero_scalar(), y: zero_scalar() }
    }
}

impl ImageEccSignature {
    pub open spec fn spec_zeroed() -> Self {
        ImageEccSignature { r: spec_zero_scalar(), s: spec_zero_scalar() }
    }

    /// The all-zero signature (the default value).
    pub fn zeroed() -> (r: Self)
        ensures
            r == Self::spec_zeroed(),
            r.r@ == zero_words(),
            r.s@ == zero_words(),
    {
        ImageEccSignature { r: zero_scalar(), s: zero_scalar() }
    }
}

impl ImageLmsPublicKey {
    pub open spec fn spec_zeroed() -> Self {
        ImageLmsPublicKey { bytes: vstd::array::spec_array_fill_for_copy_type::<u8, LMS_PUB_KEY_BYTE_SIZE>(0u8) }
    }

    /// The all-zero public key (the default value).
    pub fn zeroed() -> (r: Self)
        ensures
            r == Self::spec_zeroed(),
            r.bytes@ == zero_bytes(48),
    {
        let r = ImageLmsPublicKey { bytes: [0u8; LMS_PUB_KEY_BYTE_SIZE] };
        assert(r.bytes@ =~= zero_bytes(48));
        r
    }
}

impl ImageLmsPrivKey {
    pub open spec fn spec_zeroed() -> Self {
        ImageLmsPrivKey { bytes: vstd::array::spec_array_fill_for_copy_type::<u8, LMS_PRIV_KEY_BYTE_SIZE>(0u8) }
    }

    /// The all-zero private key (the default value).
    pub fn zeroed() -> (r: Self)
        ensures
            r == Self::spec_zeroed(),
            r.bytes@ == zero_bytes(48),
    {
        let r = ImageLmsPrivKey { bytes: [0u8; LMS_PRIV_KEY_BYTE_SIZE] };
        assert(r.bytes@ =~= zero_bytes(48));
        r
    }
}

impl ImageLmsSignature {
    pub open spec fn spec_zeroed() -> Self {
        ImageLmsSignature { bytes: vstd::array::spec_array_fill_for_copy_type::<u8, LMS_SIGNATURE_BYTE_SIZE>(0u8) }
    }

    /// The all-zero signature (the default value).
    pub fn zeroed() -> (r: Self)
        ensures
            r == Self::spec_zeroed(),
            r.bytes@ == zero_bytes(1620),
    {
        let r = ImageLmsSignature { bytes: [0u8; LMS_SIGNATURE_BYTE_SIZE] };
        assert(r.bytes@ =~= zero_bytes(1620));
        r
    }
}

} // verus!
