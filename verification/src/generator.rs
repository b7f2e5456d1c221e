//! The authorization manifest generator: what each kind of manifest holds
//! before signing, and the plan of digests and signatures that signs it.
use vstd::prelude::*;
use crate::config::{
    helper_cmd, helper_cmd_of, AspeedAuthManifestGeneratorConfig, AuthManifestGeneratorConfig,
};
use crate::error::AuthManifestError;
use crate::image::{
    spec_zero_scalar, zero_scalar, ImageEccPrivKey, ImageEccPubKey, ImageLmsPrivKey, ImageLmsPublicKey,
};
use crate::layout::{
    aspeed_manifest_bytes, collection_bytes, lemma_aspeed_manifest_field_offsets, pub_keys_bytes, u32_le_bytes,
    vendor_signed_bytes,
};
use crate::manifest::{
    AspeedAuthorizationManifest, AuthManifestImageMetadata, AuthManifestImageMetadataCollection,
    AuthManifestPreamble, AuthManifestPubKeys, AuthManifestSignatures, AuthorizationManifest,
    AUTH_MANIFEST_IMAGE_METADATA_MAX_COUNT, AUTH_MANIFEST_MARKER, AUTH_MANIFEST_PREAMBLE_SIZE,
};
use crate::session::{
    lemma_run_keeps_signed_data, lemma_run_keeps_untargeted_slot, signatures_at, spec_run, step_targets,
    steps_view, PlanStep, Reply, SessionView, SigSlot, SigningSession, StepView,
};

verus! {

/// The authorization manifest generator. Each generating method checks the
/// configuration, fills in everything that is not a signature, and returns a
/// `SigningSession` that asks its caller for each digest and signature in the
/// order they are made.
#[derive(Clone, Copy, Debug)]
pub struct AuthManifestGenerator {}

/// The collection holds `list`, in order, and zero entries after it.
pub open spec fn collection_holds(c: AuthManifestImageMetadataCollection, list: Seq<AuthManifestImageMetadata>) -> bool {
    &&& c.entry_count == list.len()
    &&& forall|i: int| 0 <= i < list.len() ==> #[trigger] c.image_metadata_list@[i] == list[i]
    &&& forall|i: int| list.len() <= i < 127 ==> #[trigger] c.image_metadata_list@[i]
        == AuthManifestImageMetadata::spec_zeroed()
}

/// A preamble with the marker, its size, version and flags, the given keys
/// and no signatures yet.
pub open spec fn preamble_holds(
    p: AuthManifestPreamble,
    version: u32,
    flags: u32,
    vendor_pub_keys: AuthManifestPubKeys,
    owner_pub_keys: AuthManifestPubKeys,
) -> bool {
    &&& p.marker == AUTH_MANIFEST_MARKER
    &&& p.size == AUTH_MANIFEST_PREAMBLE_SIZE
    &&& p.version == version
    &&& p.flags == flags
    &&& p.vendor_pub_keys == vendor_pub_keys
    &&& p.owner_pub_keys == owner_pub_keys
    &&& p.vendor_pub_keys_signatures == AuthManifestSignatures::spec_zeroed()
    &&& p.owner_pub_keys_signatures == AuthManifestSignatures::spec_zeroed()
    &&& p.vendor_image_metdata_signatures == AuthManifestSignatures::spec_zeroed()
    &&& p.owner_image_metdata_signatures == AuthManifestSignatures::spec_zeroed()
}

pub open spec fn ecc_step(priv_key: ImageEccPrivKey, pub_key: ImageEccPubKey, slot: SigSlot) -> StepView {
    StepView::EccSign { priv_key, pub_key, slot }
}

pub open spec fn lms_step(priv_key: ImageLmsPrivKey, slot: SigSlot) -> StepView {
    StepView::LmsSign { priv_key, slot }
}

pub open spec fn helper_step(cmd: Seq<char>, by_file: Option<bool>, is_ecdsa384: bool, slot: SigSlot) -> StepView {
    StepView::HelperSign { helper_cmd: cmd, by_file, is_ecdsa384, slot }
}

// ---------------------------------------------------------------------------
// Standard manifests

/// The owner public keys of a standard manifest: the owner manifest keys
/// when both owner key configurations are given, else zero.
pub open spec fn generate_owner_pub_keys(c: AuthManifestGeneratorConfig) -> AuthManifestPubKeys {
    if c.owner_fw_key_info is Some && c.owner_man_key_info is Some {
        c.owner_man_key_info->0.pub_keys
    } else {
        AuthManifestPubKeys::spec_zeroed()
    }
}

/// The unsigned standard manifest.
pub open spec fn generate_manifest_holds(c: AuthManifestGeneratorConfig, m: AuthorizationManifest) -> bool {
    &&& preamble_holds(m.preamble, c.version, c.flags.bits, c.vendor_man_key_info.pub_keys, generate_owner_pub_keys(c))
    &&& collection_holds(m.image_metadata_col, c.image_metadata_list@)
}

/// The signing plan of a standard manifest `m`:
/// 1. hash the vendor-signed part of the preamble; if the vendor firmware
///    private keys are given, sign it with them (ECC, then LMS);
/// 2. if both owner key configurations are given, hash the owner manifest
///    public keys and, if the owner firmware private keys are given, sign
///    them with those;
/// 3. hash the image metadata collection; if the flags require vendor
///    signatures and the vendor manifest private keys are given, sign it with
///    them; if the owner manifest private keys are given, sign it with them.
pub open spec fn generate_steps(c: AuthManifestGeneratorConfig, m: AuthorizationManifest) -> Seq<StepView> {
    let vendor_fw = c.vendor_fw_key_info;
    let vendor_man = c.vendor_man_key_info;
    let vendor_keys_sigs = match vendor_fw.priv_keys {
        Some(k) => seq![
            ecc_step(k.ecc_priv_key, vendor_fw.pub_keys.ecc_pub_key, SigSlot::VendorPubKeys),
            lms_step(k.lms_priv_key, SigSlot::VendorPubKeys),
        ],
        None => Seq::empty(),
    };
    let owner_keys = if c.owner_fw_key_info is Some && c.owner_man_key_info is Some {
        let fw = c.owner_fw_key_info->0;
        seq![StepView::Digest(pub_keys_bytes(c.owner_man_key_info->0.pub_keys))] + match fw.priv_keys {
            Some(k) => seq![
                ecc_step(k.ecc_priv_key, fw.pub_keys.ecc_pub_key, SigSlot::OwnerPubKeys),
                lms_step(k.lms_priv_key, SigSlot::OwnerPubKeys),
            ],
            None => Seq::empty(),
        }
    } else {
        Seq::empty()
    };
    let vendor_imc = if c.flags.spec_vendor_signature_required() && vendor_man.priv_keys is Some {
        let k = vendor_man.priv_keys->0;
        seq![
            ecc_step(k.ecc_priv_key, vendor_man.pub_keys.ecc_pub_key, SigSlot::VendorImageMetadata),
            lms_step(k.lms_priv_key, SigSlot::VendorImageMetadata),
        ]
    } else {
        Seq::empty()
    };
    let owner_imc = if c.owner_man_key_info is Some && c.owner_man_key_info->0.priv_keys is Some {
        let man = c.owner_man_key_info->0;
        let k = man.priv_keys->0;
        seq![
            ecc_step(k.ecc_priv_key, man.pub_keys.ecc_pub_key, SigSlot::OwnerImageMetadata),
            lms_step(k.lms_priv_key, SigSlot::OwnerImageMetadata),
        ]
    } else {
        Seq::empty()
    };
    seq![StepView::Digest(vendor_signed_bytes(m.preamble))] + vendor_keys_sigs + owner_keys
        + seq![StepView::Digest(collection_bytes(m.image_metadata_col))] + vendor_imc + owner_imc
}

// ---------------------------------------------------------------------------
// Manifests whose owner keys may be held by signing helpers

/// The owner manifest ECC public key: from the owner ECC configuration;
/// else, when the owner firmware ECC key is held by a helper, from the
/// optional configuration, where it must be given; else zero.
pub open spec fn aspeed_owner_ecc_pub_key(c: AspeedAuthManifestGeneratorConfig) -> Result<ImageEccPubKey, AuthManifestError> {
    match c.owner_ecc_key_config {
        Some(k) => Ok(k.man_ecc_key_pair.ecc_pub_key),
        None => if helper_cmd(c.sign_helper.owner_ecc_fw_key_sign_helper).len() > 0 {
            match c.owner_ecc_key_optional_config.man_ecc_pub_key {
                Some(k) => Ok(k),
                None => Err(AuthManifestError::MissingOwnerEccPubKey),
            }
        } else {
            Ok(ImageEccPubKey::spec_zeroed())
        },
    }
}

/// The owner manifest LMS public key, chosen as the ECC one is.
pub open spec fn aspeed_owner_lms_pub_key(c: AspeedAuthManifestGeneratorConfig) -> Result<ImageLmsPublicKey, AuthManifestError> {
    match c.owner_lms_key_config {
        Some(k) => Ok(k.man_lms_key_pair.lms_pub_key),
        None => if helper_cmd(c.sign_helper.owner_lms_fw_key_sign_helper).len() > 0 {
            match c.owner_lms_key_optional_config.man_lms_pub_key {
                Some(k) => Ok(k),
                None => Err(AuthManifestError::MissingOwnerLmsPubKey),
            }
        } else {
            Ok(ImageLmsPublicKey::spec_zeroed())
        },
    }
}

/// The owner public keys, or the error of the first key that is missing.
pub open spec fn aspeed_owner_pub_keys(c: AspeedAuthManifestGeneratorConfig) -> Result<AuthManifestPubKeys, AuthManifestError> {
    match aspeed_owner_ecc_pub_key(c) {
        Err(e) => Err(e),
        Ok(ecc) => match aspeed_owner_lms_pub_key(c) {
            Err(e) => Err(e),
            Ok(lms) => Ok(AuthManifestPubKeys { ecc_pub_key: ecc, lms_pub_key: lms }),
        },
    }
}

/// The vendor public keys: the vendor manifest keys where configured, else zero.
pub open spec fn aspeed_vendor_pub_keys(c: AspeedAuthManifestGeneratorConfig) -> AuthManifestPubKeys {
    AuthManifestPubKeys {
        ecc_pub_key: match c.vendor_ecc_key_config {
            Some(k) => k.man_ecc_key_pair.ecc_pub_key,
            None => ImageEccPubKey::spec_zeroed(),
        },
        lms_pub_key: match c.vendor_lms_key_config {
            Some(k) => k.man_lms_key_pair.lms_pub_key,
            None => ImageLmsPublicKey::spec_zeroed(),
        },
    }
}

/// The unsigned manifest (its owner keys matter only when they can be chosen).
pub open spec fn aspeed_manifest_holds(c: AspeedAuthManifestGeneratorConfig, m: AuthorizationManifest) -> bool {
    &&& preamble_holds(
        m.preamble,
        c.version,
        c.flags.bits,
        aspeed_vendor_pub_keys(c),
        match aspeed_owner_pub_keys(c) {
            Ok(k) => k,
            Err(_) => m.preamble.owner_pub_keys,
        },
    )
    &&& collection_holds(m.image_metadata_col, c.image_metadata_list@)
}

/// Signing with the owner firmware ECC key, or with its helper.
pub open spec fn aspeed_owner_fw_ecc_step(c: AspeedAuthManifestGeneratorConfig, slot: SigSlot) -> Seq<StepView> {
    match c.owner_ecc_key_config {
        Some(k) => seq![ecc_step(k.fw_ecc_key_pair.ecc_priv_key, k.fw_ecc_key_pair.ecc_pub_key, slot)],
        None => {
            let cmd = helper_cmd(c.sign_helper.owner_ecc_fw_key_sign_helper);
            if cmd.len() > 0 {
                seq![helper_step(cmd, c.sign_helper.by_file, true, slot)]
            } else {
                Seq::empty()
            }
        },
    }
}

/// Signing with the owner firmware LMS key, or with its helper.
pub open spec fn aspeed_owner_fw_lms_step(c: AspeedAuthManifestGeneratorConfig, slot: SigSlot) -> Seq<StepView> {
    match c.owner_lms_key_config {
        Some(k) => seq![lms_step(k.fw_lms_key_pair.lms_priv_key, slot)],
        None => {
            let cmd = helper_cmd(c.sign_helper.owner_lms_fw_key_sign_helper);
            if cmd.len() > 0 {
                seq![helper_step(cmd, c.sign_helper.by_file, false, slot)]
            } else {
                Seq::empty()
            }
        },
    }
}

/// The owner ECC signature over the image metadata: with the owner manifest
/// key pair; else with the key pair of the optional configuration if both
/// halves are given; else with the owner manifest ECC helper if one is set;
/// else none (the signature stays zero).
pub open spec fn aspeed_owner_man_ecc_step(c: AspeedAuthManifestGeneratorConfig) -> Seq<StepView> {
    match c.owner_ecc_key_config {
        Some(k) => seq![ecc_step(k.man_ecc_key_pair.ecc_priv_key, k.man_ecc_key_pair.ecc_pub_key, SigSlot::OwnerImageMetadata)],
        None => {
            let o = c.owner_ecc_key_optional_config;
            if o.man_ecc_priv_key is Some && o.man_ecc_pub_key is Some {
                seq![ecc_step(o.man_ecc_priv_key->0, o.man_ecc_pub_key->0, SigSlot::OwnerImageMetadata)]
            } else {
                let cmd = helper_cmd(c.sign_helper.owner_ecc_man_key_sign_helper);
                if cmd.len() > 0 {
                    seq![helper_step(cmd, c.sign_helper.by_file, true, SigSlot::OwnerImageMetadata)]
                } else {
                    Seq::empty()
                }
            }
        },
    }
}

/// The owner LMS signature over the image metadata: with the owner manifest
/// key; else with the owner manifest LMS helper if one is set; else none.
pub open spec fn aspeed_owner_man_lms_step(c: AspeedAuthManifestGeneratorConfig) -> Seq<StepView> {
    match c.owner_lms_key_config {
        Some(k) => seq![lms_step(k.man_lms_key_pair.lms_priv_key, SigSlot::OwnerImageMetadata)],
        None => {
            let cmd = helper_cmd(c.sign_helper.owner_lms_man_key_sign_helper);
            if cmd.len() > 0 {
                seq![helper_step(cmd, c.sign_helper.by_file, false, SigSlot::OwnerImageMetadata)]
            } else {
                Seq::empty()
            }
        },
    }
}

/// The signing plan: hash the vendor-signed part and sign it with the vendor
/// firmware keys that are configured; then fail if an owner public key
/// needed by a helper is missing; else hash the owner public keys and sign
/// them with the owner firmware keys or helpers, hash the image metadata,
/// sign it with the vendor manifest keys if the flags require it, and sign
/// it with the owner manifest keys or helpers.
pub open spec fn aspeed_steps(c: AspeedAuthManifestGeneratorConfig, m: AuthorizationManifest) -> Seq<StepView> {
    let head = seq![StepView::Digest(vendor_signed_bytes(m.preamble))]
        + match c.vendor_ecc_key_config {
            Some(k) => seq![ecc_step(k.fw_ecc_key_pair.ecc_priv_key, k.fw_ecc_key_pair.ecc_pub_key, SigSlot::VendorPubKeys)],
            None => Seq::empty(),
        }
        + match c.vendor_lms_key_config {
            Some(k) => seq![lms_step(k.fw_lms_key_pair.lms_priv_key, SigSlot::VendorPubKeys)],
            None => Seq::empty(),
        };
    match aspeed_owner_pub_keys(c) {
        Err(e) => head + seq![StepView::Fail(e)],
        Ok(owner) => {
            let vendor_imc = if c.flags.spec_vendor_signature_required() {
                (match c.vendor_ecc_key_config {
                    Some(k) => seq![ecc_step(k.man_ecc_key_pair.ecc_priv_key, k.man_ecc_key_pair.ecc_pub_key, SigSlot::VendorImageMetadata)],
                    None => Seq::empty(),
                }) + (match c.vendor_lms_key_config {
                    Some(k) => seq![lms_step(k.man_lms_key_pair.lms_priv_key, SigSlot::VendorImageMetadata)],
                    None => Seq::empty(),
                })
            } else {
                Seq::empty()
            };
            head + seq![StepView::Digest(pub_keys_bytes(owner))]
                + aspeed_owner_fw_ecc_step(c, SigSlot::OwnerPubKeys)
                + aspeed_owner_fw_lms_step(c, SigSlot::OwnerPubKeys)
                + seq![StepView::Digest(collection_bytes(m.image_metadata_col))]
                + vendor_imc
                + aspeed_owner_man_ecc_step(c)
                + aspeed_owner_man_lms_step(c)
        },
    }
}

/// The structure that the security-version signatures cover.
pub open spec fn sig_svn_manifest(svn: u32, c: AspeedAuthManifestGeneratorConfig, owner: AuthManifestPubKeys) -> AspeedAuthorizationManifest {
    AspeedAuthorizationManifest { version: c.version, sec_version: svn, flags: c.flags.bits, owner_pub_keys: owner }
}

/// The signing plan of the security-version signatures: hash the version,
/// the security version, the flags and the owner public keys, and sign that
/// with the owner firmware keys or helpers into the detached signatures.
pub open spec fn sig_svn_steps(svn: u32, c: AspeedAuthManifestGeneratorConfig, owner: AuthManifestPubKeys) -> Seq<StepView> {
    seq![StepView::Digest(aspeed_manifest_bytes(sig_svn_manifest(svn, c, owner)))]
        + aspeed_owner_fw_ecc_step(c, SigSlot::Detached)
        + aspeed_owner_fw_lms_step(c, SigSlot::Detached)
}

/// A standard manifest's signatures are made over its own bytes: whatever
/// the answers, the plan hashes the vendor-signed part of the resulting
/// preamble first, hashes the resulting image metadata collection, and,
/// when both owner configurations are given, the resulting owner keys.
pub proof fn lemma_generate_signs_resulting_manifest(
    c: AuthManifestGeneratorConfig,
    start: SessionView,
    replies: Seq<Reply>,
)
    requires
        generate_manifest_holds(c, start.manifest),
        start.steps == generate_steps(c, start.manifest),
    ensures
        ({
            let end = spec_run(start, replies);
            &&& end.steps[0] == StepView::Digest(vendor_signed_bytes(end.manifest.preamble))
            &&& end.steps.contains(StepView::Digest(collection_bytes(end.manifest.image_metadata_col)))
            &&& (c.owner_fw_key_info is Some && c.owner_man_key_info is Some) ==> end.steps.contains(
                StepView::Digest(pub_keys_bytes(end.manifest.preamble.owner_pub_keys)),
            )
        }),
{
    lemma_run_keeps_signed_data(start, replies);
    let end = spec_run(start, replies);
    let steps = start.steps;
    let m = start.manifest;
    let n1: int = if c.vendor_fw_key_info.priv_keys is Some { 2 } else { 0 };
    let n2: int = if c.owner_fw_key_info is Some && c.owner_man_key_info is Some {
        if c.owner_fw_key_info->0.priv_keys is Some { 3 } else { 1 }
    } else {
        0
    };
    assert(steps[1 + n1 + n2] == StepView::Digest(collection_bytes(m.image_metadata_col)));
    if c.owner_fw_key_info is Some && c.owner_man_key_info is Some {
        assert(steps[1 + n1] == StepView::Digest(pub_keys_bytes(m.preamble.owner_pub_keys)));
    }
}

/// Unless the flags require vendor signatures over the image metadata, a
/// standard manifest's vendor image metadata signatures stay zero, however
/// the caller answers.
pub proof fn lemma_generate_vendor_metadata_signatures_need_flag(
    c: AuthManifestGeneratorConfig,
    start: SessionView,
    replies: Seq<Reply>,
)
    requires
        !c.flags.spec_vendor_signature_required(),
        generate_manifest_holds(c, start.manifest),
        start.steps == generate_steps(c, start.manifest),
    ensures
        signatures_at(spec_run(start, replies), SigSlot::VendorImageMetadata) == AuthManifestSignatures::spec_zeroed(),
{
    assert forall|i: int| 0 <= i < start.steps.len() implies !step_targets(
        #[trigger] start.steps[i],
        SigSlot::VendorImageMetadata,
    ) by {}
    lemma_run_keeps_untargeted_slot(start, replies, SigSlot::VendorImageMetadata);
}

/// The same holds of a manifest whose owner keys may be held by helpers:
/// whatever the answers, the plan hashes the vendor-signed part of the
/// resulting preamble first and, unless an owner key is missing, the
/// resulting owner keys and the resulting image metadata collection.
pub proof fn lemma_aspeed_signs_resulting_manifest(
    c: AspeedAuthManifestGeneratorConfig,
    start: SessionView,
    replies: Seq<Reply>,
)
    requires
        aspeed_manifest_holds(c, start.manifest),
        start.steps == aspeed_steps(c, start.manifest),
    ensures
        ({
            let end = spec_run(start, replies);
            &&& end.steps[0] == StepView::Digest(vendor_signed_bytes(end.manifest.preamble))
            &&& aspeed_owner_pub_keys(c) is Ok ==> {
                &&& end.steps.contains(StepView::Digest(pub_keys_bytes(end.manifest.preamble.owner_pub_keys)))
                &&& end.steps.contains(StepView::Digest(collection_bytes(end.manifest.image_metadata_col)))
            }
        }),
{
    lemma_run_keeps_signed_data(start, replies);
    let steps = start.steps;
    let m = start.manifest;
    let h: int = 1 + (if c.vendor_ecc_key_config is Some { 1int } else { 0int })
        + (if c.vendor_lms_key_config is Some { 1int } else { 0int });
    if aspeed_owner_pub_keys(c) is Ok {
        let f: int = (aspeed_owner_fw_ecc_step(c, SigSlot::OwnerPubKeys).len() + aspeed_owner_fw_lms_step(c, SigSlot::OwnerPubKeys).len()) as int;
        assert(steps[h] == StepView::Digest(pub_keys_bytes(m.preamble.owner_pub_keys)));
        assert(steps[h + 1 + f] == StepView::Digest(collection_bytes(m.image_metadata_col)));
    }
}

/// In a standard manifest the owner manifest keys, when their private keys
/// are given, sign the image metadata collection whatever the flags: the plan
/// hashes the collection and, with no other digest in between, asks for an
/// ECC signature and then an LMS signature with the owner manifest keys, both
/// filed as owner image metadata signatures.
pub proof fn lemma_generate_owner_signs_image_metadata(c: AuthManifestGeneratorConfig, m: AuthorizationManifest)
    requires
        c.owner_man_key_info is Some,
        c.owner_man_key_info->0.priv_keys is Some,
    ensures
        ({
            let steps = generate_steps(c, m);
            let man = c.owner_man_key_info->0;
            let k = man.priv_keys->0;
            exists|i: int, j: int| {
                &&& 0 <= i < j
                &&& j + 1 < steps.len()
                &&& #[trigger] steps[i] == StepView::Digest(collection_bytes(m.image_metadata_col))
                &&& #[trigger] steps[j] == StepView::EccSign {
                    priv_key: k.ecc_priv_key,
                    pub_key: man.pub_keys.ecc_pub_key,
                    slot: SigSlot::OwnerImageMetadata,
                }
                &&& steps[j + 1] == StepView::LmsSign { priv_key: k.lms_priv_key, slot: SigSlot::OwnerImageMetadata }
                &&& forall|l: int| i < l < j ==> !(#[trigger] steps[l] is Digest)
            }
        }),
{
    let steps = generate_steps(c, m);
    let man = c.owner_man_key_info->0;
    let k = man.priv_keys->0;
    let n1: int = if c.vendor_fw_key_info.priv_keys is Some { 2 } else { 0 };
    let n2: int = if c.owner_fw_key_info is Some && c.owner_man_key_info is Some {
        if c.owner_fw_key_info->0.priv_keys is Some { 3 } else { 1 }
    } else {
        0
    };
    let n3: int = if c.flags.spec_vendor_signature_required() && c.vendor_man_key_info.priv_keys is Some { 2 } else { 0 };
    let i = 1 + n1 + n2;
    let j = i + 1 + n3;
    assert(steps.len() == j + 2);
    assert(steps[i] == StepView::Digest(collection_bytes(m.image_metadata_col)));
    assert(steps[j] == StepView::EccSign {
        priv_key: k.ecc_priv_key,
        pub_key: man.pub_keys.ecc_pub_key,
        slot: SigSlot::OwnerImageMetadata,
    });
    assert(steps[j + 1] == StepView::LmsSign { priv_key: k.lms_priv_key, slot: SigSlot::OwnerImageMetadata });
    assert forall|l: int| i < l < j implies !(#[trigger] steps[l] is Digest) by {}
}

/// Unless the flags require vendor signatures over the image metadata, a
/// manifest whose owner keys may be held by helpers keeps zero vendor image
/// metadata signatures, whatever vendor keys are configured and however the
/// caller answers.
pub proof fn lemma_aspeed_vendor_metadata_signatures_need_flag(
    c: AspeedAuthManifestGeneratorConfig,
    start: SessionView,
    replies: Seq<Reply>,
)
    requires
        !c.flags.spec_vendor_signature_required(),
        aspeed_manifest_holds(c, start.manifest),
        start.steps == aspeed_steps(c, start.manifest),
    ensures
        signatures_at(spec_run(start, replies), SigSlot::VendorImageMetadata) == AuthManifestSignatures::spec_zeroed(),
{
    let steps = start.steps;
    assert forall|i: int| 0 <= i < steps.len() implies !step_targets(
        #[trigger] steps[i],
        SigSlot::VendorImageMetadata,
    ) by {
        let s1 = aspeed_owner_fw_ecc_step(c, SigSlot::OwnerPubKeys);
        let s2 = aspeed_owner_fw_lms_step(c, SigSlot::OwnerPubKeys);
        let s3 = aspeed_owner_man_ecc_step(c);
        let s4 = aspeed_owner_man_lms_step(c);
        assert(forall|x: int| 0 <= x < s1.len() ==> !step_targets(#[trigger] s1[x], SigSlot::VendorImageMetadata));
        assert(forall|x: int| 0 <= x < s2.len() ==> !step_targets(#[trigger] s2[x], SigSlot::VendorImageMetadata));
        assert(forall|x: int| 0 <= x < s3.len() ==> !step_targets(#[trigger] s3[x], SigSlot::VendorImageMetadata));
        assert(forall|x: int| 0 <= x < s4.len() ==> !step_targets(#[trigger] s4[x], SigSlot::VendorImageMetadata));
    }
    lemma_run_keeps_untargeted_slot(start, replies, SigSlot::VendorImageMetadata);
}

/// The security-version signatures are made over the configured version,
/// then the security version `svn`, then the configured flags, then the
/// owner public keys, each word little-endian: the plan's first step hashes
/// exactly those 156 bytes, and every later step signs that digest.
pub proof fn lemma_sig_svn_signs_version_then_svn(svn: u32, c: AspeedAuthManifestGeneratorConfig, owner: AuthManifestPubKeys)
    ensures
        sig_svn_steps(svn, c, owner)[0] matches StepView::Digest(d) && {
            &&& d.len() == 156
            &&& d.subrange(0, 4) == u32_le_bytes(c.version)
            &&& d.subrange(4, 8) == u32_le_bytes(svn)
            &&& d.subrange(8, 12) == u32_le_bytes(c.flags.bits)
            &&& d.subrange(12, 156) == pub_keys_bytes(owner)
        },
        forall|l: int| 1 <= l < sig_svn_steps(svn, c, owner).len() ==> !(#[trigger] sig_svn_steps(svn, c, owner)[l] is Digest),
{
    lemma_aspeed_manifest_field_offsets(sig_svn_manifest(svn, c, owner));
}

// ---------------------------------------------------------------------------
// Building blocks

fn push_step(steps: &mut Vec<PlanStep>, step: PlanStep)
    ensures
        steps_view(final(steps)@) == steps_view(old(steps)@).push(step@),
{
    steps.push(step);
    assert(steps_view(steps@) =~= steps_view(old(steps)@).push(step@));
}

/// A collection holding `list` followed by zero entries.
pub fn new_collection(list: &Vec<AuthManifestImageMetadata>) -> (c: AuthManifestImageMetadataCollection)
    requires
        list@.len() <= AUTH_MANIFEST_IMAGE_METADATA_MAX_COUNT,
    ensures
        collection_holds(c, list@),
{
    let zero = AuthManifestImageMetadata::zeroed();
    let mut table = [zero; AUTH_MANIFEST_IMAGE_METADATA_MAX_COUNT];
    let len = list.len();
    let mut i: usize = 0;
    while i < len
        invariant
            len == list@.len() <= 127,
            0 <= i <= len,
            table@.len() == 127,
            forall|j: int| 0 <= j < i ==> #[trigger] table@[j] == list@[j],
            forall|j: int| i <= j < 127 ==> #[trigger] table@[j] == AuthManifestImageMetadata::spec_zeroed(),
        decreases len - i,
    {
        table[i] = list[i];
        i = i + 1;
    }
    AuthManifestImageMetadataCollection { entry_count: len as u32, image_metadata_list: table }
}

/// A preamble with marker, size, version, flags and keys, without signatures.
fn new_preamble(
    version: u32,
    flags: u32,
    vendor_pub_keys: AuthManifestPubKeys,
    owner_pub_keys: AuthManifestPubKeys,
) -> (p: AuthManifestPreamble)
    ensures
        preamble_holds(p, version, flags, vendor_pub_keys, owner_pub_keys),
{
    AuthManifestPreamble {
        marker: AUTH_MANIFEST_MARKER,
        size: AUTH_MANIFEST_PREAMBLE_SIZE,
        version,
        flags,
        vendor_pub_keys,
        vendor_pub_keys_signatures: AuthManifestSignatures::zeroed(),
        owner_pub_keys,
        owner_pub_keys_signatures: AuthManifestSignatures::zeroed(),
        vendor_image_metdata_signatures: AuthManifestSignatures::zeroed(),
        owner_image_metdata_signatures: AuthManifestSignatures::zeroed(),
    }
}

fn is_set(cmd: &String) -> (r: bool)
    ensures
        r == (cmd@.len() > 0),
{
    !cmd.as_str().is_empty()
}

fn owner_ecc_pub_key_of(c: &AspeedAuthManifestGeneratorConfig) -> (r: Result<ImageEccPubKey, AuthManifestError>)
    ensures
        r == aspeed_owner_ecc_pub_key(*c),
{
    match &c.owner_ecc_key_config {
        Some(k) => Ok(k.man_ecc_key_pair.ecc_pub_key),
        None => {
            let cmd = helper_cmd_of(&c.sign_helper.owner_ecc_fw_key_sign_helper);
            if is_set(&cmd) {
                match c.owner_ecc_key_optional_config.man_ecc_pub_key {
                    Some(k) => Ok(k),
                    None => Err(AuthManifestError::MissingOwnerEccPubKey),
                }
            } else {
                Ok(ImageEccPubKey::zeroed())
            }
        },
    }
}

fn owner_lms_pub_key_of(c: &AspeedAuthManifestGeneratorConfig) -> (r: Result<ImageLmsPublicKey, AuthManifestError>)
    ensures
        r == aspeed_owner_lms_pub_key(*c),
{
    match &c.owner_lms_key_config {
        Some(k) => Ok(k.man_lms_key_pair.lms_pub_key),
        None => {
            let cmd = helper_cmd_of(&c.sign_helper.owner_lms_fw_key_sign_helper);
            if is_set(&cmd) {
                match c.owner_lms_key_optional_config.man_lms_pub_key {
                    Some(k) => Ok(k),
                    None => Err(AuthManifestError::MissingOwnerLmsPubKey),
                }
            } else {
                Ok(ImageLmsPublicKey::zeroed())
            }
        },
    }
}

/// The owner public keys of a manifest whose owner keys may be held by
/// signing helpers, or the error of the first one that is missing.
pub fn owner_pub_keys_of(c: &AspeedAuthManifestGeneratorConfig) -> (r: Result<AuthManifestPubKeys, AuthManifestError>)
    ensures
        r == aspeed_owner_pub_keys(*c),
{
    let ecc = owner_ecc_pub_key_of(c)?;
    let lms = owner_lms_pub_key_of(c)?;
    Ok(AuthManifestPubKeys { ecc_pub_key: ecc, lms_pub_key: lms })
}

fn vendor_pub_keys_of(c: &AspeedAuthManifestGeneratorConfig) -> (r: AuthManifestPubKeys)
    ensures
        r == aspeed_vendor_pub_keys(*c),
{
    AuthManifestPubKeys {
        ecc_pub_key: match &c.vendor_ecc_key_config {
            Some(k) => k.man_ecc_key_pair.ecc_pub_key,
            None => ImageEccPubKey::zeroed(),
        },
        lms_pub_key: match &c.vendor_lms_key_config {
            Some(k) => k.man_lms_key_pair.lms_pub_key,
            None => ImageLmsPublicKey::zeroed(),
        },
    }
}

fn push_owner_fw_ecc(steps: &mut Vec<PlanStep>, c: &AspeedAuthManifestGeneratorConfig, slot: SigSlot)
    ensures
        steps_view(final(steps)@) == steps_view(old(steps)@) + aspeed_owner_fw_ecc_step(*c, slot),
{
    match &c.owner_ecc_key_config {
        Some(k) => push_step(steps, PlanStep::EccSign {
            priv_key: k.fw_ecc_key_pair.ecc_priv_key,
            pub_key: k.fw_ecc_key_pair.ecc_pub_key,
            slot,
        }),
        None => {
            let cmd = helper_cmd_of(&c.sign_helper.owner_ecc_fw_key_sign_helper);
            if is_set(&cmd) {
                push_step(steps, PlanStep::HelperSign {
                    helper_cmd: cmd,
                    by_file: c.sign_helper.by_file,
                    is_ecdsa384: true,
                    slot,
                });
            }
        },
    }
    assert(steps_view(steps@) =~= steps_view(old(steps)@) + aspeed_owner_fw_ecc_step(*c, slot));
}

fn push_owner_fw_lms(steps: &mut Vec<PlanStep>, c: &AspeedAuthManifestGeneratorConfig, slot: SigSlot)
    ensures
        steps_view(final(steps)@) == steps_view(old(steps)@) + aspeed_owner_fw_lms_step(*c, slot),
{
    match &c.owner_lms_key_config {
        Some(k) => push_step(steps, PlanStep::LmsSign { priv_key: k.fw_lms_key_pair.lms_priv_key, slot }),
        None => {
            let cmd = helper_cmd_of(&c.sign_helper.owner_lms_fw_key_sign_helper);
            if is_set(&cmd) {
                push_step(steps, PlanStep::HelperSign {
                    helper_cmd: cmd,
                    by_file: c.sign_helper.by_file,
                    is_ecdsa384: false,
                    slot,
                });
            }
        },
    }
    assert(steps_view(steps@) =~= steps_view(old(steps)@) + aspeed_owner_fw_lms_step(*c, slot));
}

fn push_owner_man_ecc(steps: &mut Vec<PlanStep>, c: &AspeedAuthManifestGeneratorConfig)
    ensures
        steps_view(final(steps)@) == steps_view(old(steps)@) + aspeed_owner_man_ecc_step(*c),
{
    match &c.owner_ecc_key_config {
        Some(k) => push_step(steps, PlanStep::EccSign {
            priv_key: k.man_ecc_key_pair.ecc_priv_key,
            pub_key: k.man_ecc_key_pair.ecc_pub_key,
            slot: SigSlot::OwnerImageMetadata,
        }),
        None => {
            let o = c.owner_ecc_key_optional_config;
            if let (Some(priv_key), Some(pub_key)) = (o.man_ecc_priv_key, o.man_ecc_pub_key) {
                push_step(steps, PlanStep::EccSign { priv_key, pub_key, slot: SigSlot::OwnerImageMetadata });
            } else {
                let cmd = helper_cmd_of(&c.sign_helper.owner_ecc_man_key_sign_helper);
                if is_set(&cmd) {
                    push_step(steps, PlanStep::HelperSign {
                        helper_cmd: cmd,
                        by_file: c.sign_helper.by_file,
                        is_ecdsa384: true,
                        slot: SigSlot::OwnerImageMetadata,
                    });
                }
            }
        },
    }
    assert(steps_view(steps@) =~= steps_view(old(steps)@) + aspeed_owner_man_ecc_step(*c));
}

fn push_owner_man_lms(steps: &mut Vec<PlanStep>, c: &AspeedAuthManifestGeneratorConfig)
    ensures
        steps_view(final(steps)@) == steps_view(old(steps)@) + aspeed_owner_man_lms_step(*c),
{
    match &c.owner_lms_key_config {
        Some(k) => push_step(steps, PlanStep::LmsSign {
            priv_key: k.man_lms_key_pair.lms_priv_key,
            slot: SigSlot::OwnerImageMetadata,
        }),
        None => {
            let cmd = helper_cmd_of(&c.sign_helper.owner_lms_man_key_sign_helper);
            if is_set(&cmd) {
                push_step(steps, PlanStep::HelperSign {
                    helper_cmd: cmd,
                    by_file: c.sign_helper.by_file,
                    is_ecdsa384: false,
                    slot: SigSlot::OwnerImageMetadata,
                });
            }
        },
    }
    assert(steps_view(steps@) =~= steps_view(old(steps)@) + aspeed_owner_man_lms_step(*c));
}

impl AuthManifestGenerator {
    /// A generator.
    pub fn new() -> (r: Self) {
        AuthManifestGenerator {}
    }

    /// Starts generating a standard manifest. Refused when the metadata list
    /// has more entries than the manifest has room for; otherwise the
    /// session holds the unsigned manifest and the plan `generate_steps`.
    pub fn generate(&self, config: &AuthManifestGeneratorConfig) -> (res: Result<SigningSession, AuthManifestError>)
        ensures
            res is Err <==> config.image_metadata_list@.len() > AUTH_MANIFEST_IMAGE_METADATA_MAX_COUNT,
            res matches Err(e) ==> e == (AuthManifestError::TooManyImageMetadata {
                count: config.image_metadata_list@.len() as usize,
            }),
            res matches Ok(s) ==> {
                &&& s@.pos == 0
                &&& s@.error is None
                &&& s@.digest == spec_zero_scalar()
                &&& s@.detached == AuthManifestSignatures::spec_zeroed()
                &&& generate_manifest_holds(*config, s@.manifest)
                &&& s@.steps == generate_steps(*config, s@.manifest)
            },
    {
        let count = config.image_metadata_list.len();
        if count > AUTH_MANIFEST_IMAGE_METADATA_MAX_COUNT {
            return Err(AuthManifestError::TooManyImageMetadata { count });
        }
        let col = new_collection(&config.image_metadata_list);
        let owner_pub_keys = match (&config.owner_fw_key_info, &config.owner_man_key_info) {
            (Some(_), Some(man)) => man.pub_keys,
            _ => AuthManifestPubKeys::zeroed(),
        };
        let preamble = new_preamble(
            config.version,
            config.flags.bits,
            config.vendor_man_key_info.pub_keys,
            owner_pub_keys,
        );
        let manifest = AuthorizationManifest { preamble, image_metadata_col: col };
        let ghost m = manifest;

        let mut steps: Vec<PlanStep> = Vec::new();

        // Vendor manifest public keys.
        push_step(&mut steps, PlanStep::Digest(manifest.preamble.vendor_signed_data()));
        let vendor_fw = config.vendor_fw_key_info;
        if let Some(k) = vendor_fw.priv_keys {
            push_step(&mut steps, PlanStep::EccSign {
                priv_key: k.ecc_priv_key,
                pub_key: vendor_fw.pub_keys.ecc_pub_key,
                slot: SigSlot::VendorPubKeys,
            });
            push_step(&mut steps, PlanStep::LmsSign { priv_key: k.lms_priv_key, slot: SigSlot::VendorPubKeys });
        }

        // Owner manifest public keys.
        if let (Some(fw), Some(man)) = (&config.owner_fw_key_info, &config.owner_man_key_info) {
            push_step(&mut steps, PlanStep::Digest(man.pub_keys.as_bytes()));
            if let Some(k) = fw.priv_keys {
                push_step(&mut steps, PlanStep::EccSign {
                    priv_key: k.ecc_priv_key,
                    pub_key: fw.pub_keys.ecc_pub_key,
                    slot: SigSlot::OwnerPubKeys,
                });
                push_step(&mut steps, PlanStep::LmsSign { priv_key: k.lms_priv_key, slot: SigSlot::OwnerPubKeys });
            }
        }

        // Image metadata collection.
        push_step(&mut steps, PlanStep::Digest(manifest.image_metadata_col.as_bytes()));
        let vendor_man = config.vendor_man_key_info;
        if config.flags.vendor_signature_required() {
            if let Some(k) = vendor_man.priv_keys {
                push_step(&mut steps, PlanStep::EccSign {
                    priv_key: k.ecc_priv_key,
                    pub_key: vendor_man.pub_keys.ecc_pub_key,
                    slot: SigSlot::VendorImageMetadata,
                });
                push_step(&mut steps, PlanStep::LmsSign { priv_key: k.lms_priv_key, slot: SigSlot::VendorImageMetadata });
            }
        }
        if let Some(man) = &config.owner_man_key_info {
            if let Some(k) = man.priv_keys {
                push_step(&mut steps, PlanStep::EccSign {
                    priv_key: k.ecc_priv_key,
                    pub_key: man.pub_keys.ecc_pub_key,
                    slot: SigSlot::OwnerImageMetadata,
                });
                push_step(&mut steps, PlanStep::LmsSign { priv_key: k.lms_priv_key, slot: SigSlot::OwnerImageMetadata });
            }
        }
        assert(steps_view(steps@) =~= generate_steps(*config, m));
        Ok(SigningSession::start(steps, zero_scalar(), manifest, AuthManifestSignatures::zeroed()))
    }

    /// Starts generating a manifest whose owner keys may be held by signing
    /// helpers. Refused when the metadata list has more entries than the
    /// manifest has room for; otherwise the session holds the unsigned
    /// manifest and the plan `aspeed_steps`.
    #[verifier::spinoff_prover]
    #[verifier::rlimit(40)]
    pub fn aspeed_generate(&self, config: &AspeedAuthManifestGeneratorConfig) -> (res: Result<SigningSession, AuthManifestError>)
        ensures
            res is Err <==> config.image_metadata_list@.len() > AUTH_MANIFEST_IMAGE_METADATA_MAX_COUNT,
            res matches Err(e) ==> e == (AuthManifestError::TooManyImageMetadata {
                count: config.image_metadata_list@.len() as usize,
            }),
            res matches Ok(s) ==> {
                &&& s@.pos == 0
                &&& s@.error is None
                &&& s@.digest == spec_zero_scalar()
                &&& s@.detached == AuthManifestSignatures::spec_zeroed()
                &&& aspeed_manifest_holds(*config, s@.manifest)
                &&& s@.steps == aspeed_steps(*config, s@.manifest)
            },
    {
        let count = config.image_metadata_list.len();
        if count > AUTH_MANIFEST_IMAGE_METADATA_MAX_COUNT {
            return Err(AuthManifestError::TooManyImageMetadata { count });
        }
        let col = new_collection(&config.image_metadata_list);
        let owner = owner_pub_keys_of(config);
        let owner_pub_keys = match owner {
            Ok(k) => k,
            Err(_) => AuthManifestPubKeys::zeroed(),
        };
        let preamble = new_preamble(config.version, config.flags.bits, vendor_pub_keys_of(config), owner_pub_keys);
        let manifest = AuthorizationManifest { preamble, image_metadata_col: col };
        let ghost m = manifest;

        let mut steps: Vec<PlanStep> = Vec::new();

        // Vendor manifest public keys.
        push_step(&mut steps, PlanStep::Digest(manifest.preamble.vendor_signed_data()));
        if let Some(k) = &config.vendor_ecc_key_config {
            push_step(&mut steps, PlanStep::EccSign {
                priv_key: k.fw_ecc_key_pair.ecc_priv_key,
                pub_key: k.fw_ecc_key_pair.ecc_pub_key,
                slot: SigSlot::VendorPubKeys,
            });
        }
        if let Some(k) = &config.vendor_lms_key_config {
            push_step(&mut steps, PlanStep::LmsSign { priv_key: k.fw_lms_key_pair.lms_priv_key, slot: SigSlot::VendorPubKeys });
        }

        match owner {
            Err(e) => {
                push_step(&mut steps, PlanStep::Fail(e));
            },
            Ok(owner_keys) => {
                // Owner manifest public keys.
                push_step(&mut steps, PlanStep::Digest(owner_keys.as_bytes()));
                push_owner_fw_ecc(&mut steps, config, SigSlot::OwnerPubKeys);
                push_owner_fw_lms(&mut steps, config, SigSlot::OwnerPubKeys);
                // Image metadata collection.
                push_step(&mut steps, PlanStep::Digest(manifest.image_metadata_col.as_bytes()));
                if config.flags.vendor_signature_required() {
                    if let Some(k) = &config.vendor_ecc_key_config {
                        push_step(&mut steps, PlanStep::EccSign {
                            priv_key: k.man_ecc_key_pair.ecc_priv_key,
                            pub_key: k.man_ecc_key_pair.ecc_pub_key,
                            slot: SigSlot::VendorImageMetadata,
                        });
                    }
                    if let Some(k) = &config.vendor_lms_key_config {
                        push_step(&mut steps, PlanStep::LmsSign {
                            priv_key: k.man_lms_key_pair.lms_priv_key,
                            slot: SigSlot::VendorImageMetadata,
                        });
                    }
                }
                push_owner_man_ecc(&mut steps, config);
                push_owner_man_lms(&mut steps, config);
            },
        }
        assert(steps_view(steps@) =~= aspeed_steps(*config, m));
        Ok(SigningSession::start(steps, zero_scalar(), manifest, AuthManifestSignatures::zeroed()))
    }

    /// Starts producing the security-version signatures: the owner firmware
    /// keys (or their helpers) sign the version, the security version `svn`,
    /// the flags and the owner public keys. Refused when an owner public key
    /// that a helper needs is missing; otherwise the session's plan is
    /// `sig_svn_steps` and its detached signatures are the result.
    pub fn generate_sig_svn(&self, svn: u32, config: &AspeedAuthManifestGeneratorConfig)
        -> (res: Result<SigningSession, AuthManifestError>)
        ensures
            aspeed_owner_pub_keys(*config) matches Err(e) ==> res == Err::<SigningSession, AuthManifestError>(e),
            aspeed_owner_pub_keys(*config) matches Ok(owner) ==> res matches Ok(s) && {
                &&& s@.pos == 0
                &&& s@.error is None
                &&& s@.digest == spec_zero_scalar()
                &&& s@.detached == AuthManifestSignatures::spec_zeroed()
                &&& s@.steps == sig_svn_steps(svn, *config, owner)
            },
    {
        let owner_keys = owner_pub_keys_of(config)?;
        let aspeed_manifest = AspeedAuthorizationManifest {
            version: config.version,
            sec_version: svn,
            flags: config.flags.bits,
            owner_pub_keys: owner_keys,
        };
        let mut steps: Vec<PlanStep> = Vec::new();
        push_step(&mut steps, PlanStep::Digest(aspeed_manifest.as_bytes()));
        push_owner_fw_ecc(&mut steps, config, SigSlot::Detached);
        push_owner_fw_lms(&mut steps, config, SigSlot::Detached);
        assert(steps_view(steps@) =~= sig_svn_steps(svn, *config, owner_keys));
        let empty: Vec<AuthManifestImageMetadata> = Vec::new();
        let manifest = AuthorizationManifest {
            preamble: new_preamble(0, 0, AuthManifestPubKeys::zeroed(), AuthManifestPubKeys::zeroed()),
            image_metadata_col: new_collection(&empty),
        };
        Ok(SigningSession::start(steps, zero_scalar(), manifest, AuthManifestSignatures::zeroed()))
    }
}

} // verus!
