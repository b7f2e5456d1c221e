//! The authorization manifest and the structures it is made of.
use vstd::prelude::*;
use crate::image::{
    zero_bytes, zero_words, ImageEccPrivKey, ImageEccPubKey, ImageEccSignature, ImageLmsPrivKey,
    ImageLmsPublicKey, ImageLmsSignature, ECC384_SCALAR_BYTE_SIZE,
};

verus! {

/// Marker that opens every authorization manifest preamble.
pub const AUTH_MANIFEST_MARKER: u32 = 0x4154_4D4E;

/// Number of image metadata entries that a manifest has room for.
pub const AUTH_MANIFEST_IMAGE_METADATA_MAX_COUNT: usize = 127;

/// Size in bytes of an encoded `AuthManifestPreamble`.
pub const AUTH_MANIFEST_PREAMBLE_SIZE: u32 = 7168;

/// Manifest flags, as stored in the preamble.
#[derive(Clone, Copy, Debug)]
pub struct AuthManifestFlags {
    pub bits: u32,
}

/// Flag bit: the image metadata collection must carry vendor signatures.
pub const VENDOR_SIGNATURE_REQUIRED: u32 = 0b1;

impl AuthManifestFlags {
    /// Whether the vendor-signature-required bit is set.
    pub open spec fn spec_vendor_signature_required(self) -> bool {
        self.bits & VENDOR_SIGNATURE_REQUIRED == VENDOR_SIGNATURE_REQUIRED
    }

    /// Whether the vendor-signature-required bit is set.
    pub fn vendor_signature_required(&self) -> (r: bool)
        ensures
            r == self.spec_vendor_signature_required(),
    {
        self.bits & VENDOR_SIGNATURE_REQUIRED == VENDOR_SIGNATURE_REQUIRED
    }
}

/// The ECC and LMS public keys of one signer.
#[derive(Clone, Copy, Debug)]
pub struct AuthManifestPubKeys {
    pub ecc_pub_key: ImageEccPubKey,
    pub lms_pub_key: ImageLmsPublicKey,
}

/// The ECC and LMS private keys of one signer.
#[derive(Clone, Copy, Debug)]
pub struct AuthManifestPrivKeys {
    pub ecc_priv_key: ImageEccPrivKey,
    pub lms_priv_key: ImageLmsPrivKey,
}

/// An ECC signature and an LMS signature over the same digest.
#[derive(Clone, Copy, Debug)]
pub struct AuthManifestSignatures {
    pub ecc_sig: ImageEccSignature,
    pub lms_sig: ImageLmsSignature,
}

/// The manifest preamble: keys and signatures.
#[derive(Clone, Copy, Debug)]
pub struct AuthManifestPreamble {
    pub marker: u32,
    pub size: u32,
    pub version: u32,
    pub flags: u32,
    pub vendor_pub_keys: AuthManifestPubKeys,
    pub vendor_pub_keys_signatures: AuthManifestSignatures,
    pub owner_pub_keys: AuthManifestPubKeys,
    pub owner_pub_keys_signatures: AuthManifestSignatures,
    pub vendor_image_metdata_signatures: AuthManifestSignatures,
    pub owner_image_metdata_signatures: AuthManifestSignatures,
}

/// Metadata of one authorized image.
#[derive(Clone, Copy, Debug)]
pub struct AuthManifestImageMetadata {
    pub fw_id: u32,
    pub flags: u32,
    pub digest: [u8; ECC384_SCALAR_BYTE_SIZE],
}

/// The image metadata collection: a count and a fixed-size table.
#[derive(Clone, Copy, Debug)]
pub struct AuthManifestImageMetadataCollection {
    pub entry_count: u32,
    pub image_metadata_list: [AuthManifestImageMetadata; AUTH_MANIFEST_IMAGE_METADATA_MAX_COUNT],
}

/// The authorization manifest: preamble and image metadata collection.
#[derive(Clone, Copy, Debug)]
pub struct AuthorizationManifest {
    pub preamble: AuthManifestPreamble,
    pub image_metadata_col: AuthManifestImageMetadataCollection,
}

/// The structure that a security-version signature covers.
#[derive(Clone, Copy, Debug)]
pub struct AspeedAuthorizationManifest {
    pub version: u32,
    pub sec_version: u32,
    pub flags: u32,
    pub owner_pub_keys: AuthManifestPubKeys,
}

impl AuthManifestPubKeys {
    /// Both keys zero.
    pub open spec fn spec_is_zero(self) -> bool {
        &&& self.ecc_pub_key.x@ == zero_words()
        &&& self.ecc_pub_key.y@ == zero_words()
        &&& self.lms_pub_key.bytes@ == zero_bytes(48)
    }

    pub open spec fn spec_zeroed() -> Self {
        AuthManifestPubKeys { ecc_pub_key: ImageEccPubKey::spec_zeroed(), lms_pub_key: ImageLmsPublicKey::spec_zeroed() }
    }

    /// Both keys zero (the default value).
    pub fn zeroed() -> (r: Self)
        ensures
            r == Self::spec_zeroed(),
            r.spec_is_zero(),
    {
        AuthManifestPubKeys { ecc_pub_key: ImageEccPubKey::zeroed(), lms_pub_key: ImageLmsPublicKey::zeroed() }
    }
}

impl AuthManifestSignatures {
    /// Both signatures zero.
    pub open spec fn spec_is_zero(self) -> bool {
        &&& self.ecc_sig.r@ == zero_words()
        &&& self.ecc_sig.s@ == zero_words()
        &&& self.lms_sig.bytes@ == zero_bytes(1620)
    }

    pub open spec fn spec_zeroed() -> Self {
        AuthManifestSignatures { ecc_sig: ImageEccSignature::spec_zeroed(), lms_sig: ImageLmsSignature::spec_zeroed() }
    }

    /// Both signatures zero (the default value).
    pub fn zeroed() -> (r: Self)
        ensures
            r == Self::spec_zeroed(),
            r.spec_is_zero(),
    {
        AuthManifestSignatures { ecc_sig: ImageEccSignature::zeroed(), lms_sig: ImageLmsSignature::zeroed() }
    }
}

impl AuthManifestImageMetadata {
    /// An all-zero entry (the default value).
    pub open spec fn spec_is_zero(self) -> bool {
        &&& self.fw_id == 0
        &&& self.flags == 0
        &&& self.digest@ == zero_bytes(48)
    }

    pub open spec fn spec_zeroed() -> Self {
        AuthManifestImageMetadata {
            fw_id: 0,
            flags: 0,
            digest: vstd::array::spec_array_fill_for_copy_type::<u8, ECC384_SCALAR_BYTE_SIZE>(0u8),
        }
    }

    /// An all-zero entry (the default value).
    pub fn zeroed() -> (r: Self)
        ensures
            r == Self::spec_zeroed(),
            r.spec_is_zero(),
    {
        let r = AuthManifestImageMetadata { fw_id: 0, flags: 0, digest: [0u8; ECC384_SCALAR_BYTE_SIZE] };
        assert(r.digest@ =~= zero_bytes(48));
        r
    }
}

} // verus!
