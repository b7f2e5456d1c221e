//! Generator configurations.
use vstd::prelude::*;
use crate::image::{
    ImageEccPrivKey, ImageEccPubKey, ImageLmsPrivKey, ImageLmsPublicKey,
};
use crate::manifest::{
    AuthManifestFlags, AuthManifestImageMetadata, AuthManifestPrivKeys, AuthManifestPubKeys,
};

verus! {

/// Keys of one signer: the public keys, and the private keys where this
/// generator signs for it.
#[derive(Clone, Copy, Debug)]
pub struct AuthManifestGeneratorKeyConfig {
    pub pub_keys: AuthManifestPubKeys,
    pub priv_keys: Option<AuthManifestPrivKeys>,
}

/// Configuration of a standard manifest.
#[derive(Debug)]
pub struct AuthManifestGeneratorConfig {
    pub version: u32,
    pub flags: AuthManifestFlags,
    pub vendor_fw_key_info: AuthManifestGeneratorKeyConfig,
    pub vendor_man_key_info: AuthManifestGeneratorKeyConfig,
    pub owner_fw_key_info: Option<AuthManifestGeneratorKeyConfig>,
    pub owner_man_key_info: Option<AuthManifestGeneratorKeyConfig>,
    pub image_metadata_list: Vec<AuthManifestImageMetadata>,
}

/// An ECC key pair.
#[derive(Clone, Copy, Debug)]
pub struct AuthManifestECCKeyPair {
    pub ecc_pub_key: ImageEccPubKey,
    pub ecc_priv_key: ImageEccPrivKey,
}

/// An LMS key pair.
#[derive(Clone, Copy, Debug)]
pub struct AuthManifestLmsKeyPair {
    pub lms_pub_key: ImageLmsPublicKey,
    pub lms_priv_key: ImageLmsPrivKey,
}

/// ECC key pairs of one party: the firmware key (signs the manifest key)
/// and the manifest key (signs the image metadata).
#[derive(Clone, Copy, Debug)]
pub struct AuthManifestGeneratorEccKeyConfig {
    pub fw_ecc_key_pair: AuthManifestECCKeyPair,
    pub man_ecc_key_pair: AuthManifestECCKeyPair,
}

/// Owner manifest ECC keys given on their own, for use with a signing helper.
#[derive(Clone, Copy, Debug)]
pub struct AuthManifestGeneratorEccKeyOptionalConfig {
    pub man_ecc_pub_key: Option<ImageEccPubKey>,
    pub man_ecc_priv_key: Option<ImageEccPrivKey>,
}

/// LMS key pairs of one party: the firmware key and the manifest key.
#[derive(Clone, Copy, Debug)]
pub struct AuthManifestGeneratorLmsKeyConfig {
    pub fw_lms_key_pair: AuthManifestLmsKeyPair,
    pub man_lms_key_pair: AuthManifestLmsKeyPair,
}

/// Owner manifest LMS keys given on their own, for use with a signing helper.
#[derive(Clone, Copy, Debug)]
pub struct AuthManifestGeneratorLmsKeyOptionalConfig {
    pub man_lms_pub_key: Option<ImageLmsPublicKey>,
    pub man_lms_priv_key: Option<ImageLmsPrivKey>,
}

/// External signing helpers (command lines) for owner keys that this
/// generator does not hold, and whether they exchange data through files.
#[derive(Debug)]
pub struct AspeedAuthManifestSignHelper {
    pub owner_ecc_fw_key_sign_helper: Option<String>,
    pub owner_ecc_man_key_sign_helper: Option<String>,
    pub owner_lms_fw_key_sign_helper: Option<String>,
    pub owner_lms_man_key_sign_helper: Option<String>,
    pub by_file: Option<bool>,
}

/// Configuration of a manifest whose owner keys may be held by signing helpers.
#[derive(Debug)]
pub struct AspeedAuthManifestGeneratorConfig {
    pub version: u32,
    pub flags: AuthManifestFlags,
    pub vendor_ecc_key_config: Option<AuthManifestGeneratorEccKeyConfig>,
    pub vendor_lms_key_config: Option<AuthManifestGeneratorLmsKeyConfig>,
    pub owner_ecc_key_config: Option<AuthManifestGeneratorEccKeyConfig>,
    pub owner_lms_key_config: Option<AuthManifestGeneratorLmsKeyConfig>,
    pub owner_ecc_key_optional_config: AuthManifestGeneratorEccKeyOptionalConfig,
    pub owner_lms_key_optional_config: AuthManifestGeneratorLmsKeyOptionalConfig,
    pub image_metadata_list: Vec<AuthManifestImageMetadata>,
    pub sign_helper: AspeedAuthManifestSignHelper,
}

/// The helper command line an optional setting stands for (empty if unset).
pub open spec fn helper_cmd(o: Option<String>) -> Seq<char> {
    match o {
        Some(s) => s@,
        None => Seq::empty(),
    }
}

/// The helper command line an optional setting stands for (empty if unset).
pub fn helper_cmd_of(o: &Option<String>) -> (r: String)
    ensures
        r@ == helper_cmd(*o),
{
    match o {
        Some(s) => s.clone(),
        None => String::new(),
    }
}

} // verus!
