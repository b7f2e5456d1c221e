use caliptra_auth_man_gen::image::{
    ImageDigest, ImageEccPubKey, ImageEccSignature, ImageLmsPrivKey, ImageLmsPublicKey, ImageLmsSignature,
};
use caliptra_auth_man_gen::manifest::{
    AuthManifestFlags, AuthManifestImageMetadata, AuthManifestPrivKeys, AuthManifestPubKeys,
    AuthManifestSignatures, AuthorizationManifest, AUTH_MANIFEST_MARKER,
};
use caliptra_auth_man_gen::{
    AspeedAuthManifestGeneratorConfig, AspeedAuthManifestSignHelper, AuthManifestECCKeyPair,
    AuthManifestError, AuthManifestGenerator, AuthManifestGeneratorConfig,
    AuthManifestGeneratorEccKeyConfig, AuthManifestGeneratorEccKeyOptionalConfig,
    AuthManifestGeneratorKeyConfig, AuthManifestGeneratorLmsKeyConfig,
    AuthManifestGeneratorLmsKeyOptionalConfig, AuthManifestLmsKeyPair, NextStep, Reply, Request,
    SignaturePair, SigningSession,
};

fn fake_digest(data: &[u8]) -> ImageDigest {
    let mut d = [0u32; 12];
    d[0] = data.len() as u32;
    d[1] = data.iter().map(|b| *b as u32).sum();
    d[2] = data.iter().enumerate().map(|(i, b)| (i as u32).wrapping_mul(*b as u32)).fold(0, u32::wrapping_add);
    d
}

fn ecc_sig(digest: &ImageDigest, priv_key: &[u32; 12]) -> ImageEccSignature {
    ImageEccSignature { r: *digest, s: *priv_key }
}

fn lms_sig(digest: &ImageDigest, priv_key: &ImageLmsPrivKey) -> ImageLmsSignature {
    let mut bytes = [0u8; 1620];
    bytes[0..4].copy_from_slice(&digest[0].to_le_bytes());
    bytes[4..8].copy_from_slice(&digest[1].to_le_bytes());
    bytes[8..56].copy_from_slice(&priv_key.bytes);
    ImageLmsSignature { bytes }
}

fn helper_sig(digest: &ImageDigest, is_ecdsa384: bool) -> SignaturePair {
    if is_ecdsa384 {
        SignaturePair { ecdsa: Some(ImageEccSignature { r: *digest, s: [0xEEEE_EEEE; 12] }), lms: None }
    } else {
        SignaturePair { ecdsa: None, lms: Some(lms_sig(digest, &ImageLmsPrivKey { bytes: [0xEE; 48] })) }
    }
}

/// Answers every request honestly (with the fake primitives) and returns the
/// requests in order and the final step.
fn drive(mut s: SigningSession) -> (Vec<String>, SigningSession, Option<AuthManifestError>) {
    let mut log = Vec::new();
    loop {
        match s.next() {
            NextStep::Done => return (log, s, None),
            NextStep::Failed(e) => return (log, s, Some(e)),
            NextStep::Request(Request::Sha384Digest { data }) => {
                log.push(format!("digest:{}", data.len()));
                s.answer(Reply::Digest(fake_digest(&data)));
            }
            NextStep::Request(Request::Ecdsa384Sign { digest, priv_key, pub_key }) => {
                log.push(format!("ecc:{:x}:{:x}", priv_key[0], pub_key.x[0]));
                s.answer(Reply::EccSignature(ecc_sig(&digest, &priv_key)));
            }
            NextStep::Request(Request::LmsSign { digest, priv_key }) => {
                log.push(format!("lms:{:x}", priv_key.bytes[0]));
                s.answer(Reply::LmsSignature(lms_sig(&digest, &priv_key)));
            }
            NextStep::Request(Request::SignWithHelper { digest, helper_cmd, by_file, is_ecdsa384 }) => {
                log.push(format!("helper:{}:{:?}:{}", helper_cmd, by_file, is_ecdsa384));
                s.answer(Reply::Helper(helper_sig(&digest, is_ecdsa384)));
            }
        }
    }
}

fn ecc_pub(tag: u32) -> ImageEccPubKey {
    ImageEccPubKey { x: [tag; 12], y: [tag + 1; 12] }
}

fn lms_pub(tag: u8) -> ImageLmsPublicKey {
    ImageLmsPublicKey { bytes: [tag; 48] }
}

fn lms_priv(tag: u8) -> ImageLmsPrivKey {
    ImageLmsPrivKey { bytes: [tag; 48] }
}

fn key_info(tag: u32, with_priv: bool) -> AuthManifestGeneratorKeyConfig {
    AuthManifestGeneratorKeyConfig {
        pub_keys: AuthManifestPubKeys { ecc_pub_key: ecc_pub(tag), lms_pub_key: lms_pub(tag as u8) },
        priv_keys: if with_priv {
            Some(AuthManifestPrivKeys { ecc_priv_key: [tag + 0x100; 12], lms_priv_key: lms_priv(tag as u8 + 0x40) })
        } else {
            None
        },
    }
}

fn metadata(n: usize) -> Vec<AuthManifestImageMetadata> {
    (0..n).map(|i| AuthManifestImageMetadata { fw_id: i as u32, flags: 3, digest: [i as u8; 48] }).collect()
}

fn config(flags: u32, owner: bool) -> AuthManifestGeneratorConfig {
    AuthManifestGeneratorConfig {
        version: 0x10,
        flags: AuthManifestFlags { bits: flags },
        vendor_fw_key_info: key_info(0x1, true),
        vendor_man_key_info: key_info(0x2, true),
        owner_fw_key_info: if owner { Some(key_info(0x3, true)) } else { None },
        owner_man_key_info: if owner { Some(key_info(0x4, true)) } else { None },
        image_metadata_list: metadata(3),
    }
}

fn zero_sigs(s: &AuthManifestSignatures) -> bool {
    s.ecc_sig.r == [0; 12] && s.ecc_sig.s == [0; 12] && s.lms_sig.bytes.iter().all(|b| *b == 0)
}

#[test]
fn generate_signs_every_part() {
    let gen = AuthManifestGenerator::new();
    let (log, s, err) = drive(gen.generate(&config(1, true)).unwrap());
    assert_eq!(err, None);
    assert_eq!(
        log,
        vec![
            "digest:152", "ecc:101:1", "lms:41",
            "digest:144", "ecc:103:3", "lms:43",
            "digest:7116", "ecc:102:2", "lms:42", "ecc:104:4", "lms:44",
        ]
    );
    let m: AuthorizationManifest = s.manifest();
    let p = m.preamble;
    assert_eq!(p.marker, AUTH_MANIFEST_MARKER);
    assert_eq!(p.size, 7168);
    assert_eq!(p.version, 0x10);
    assert_eq!(p.flags, 1);
    assert_eq!(p.vendor_pub_keys.ecc_pub_key.x, [2; 12]);
    assert_eq!(p.owner_pub_keys.ecc_pub_key.x, [4; 12]);
    assert_eq!(m.image_metadata_col.entry_count, 3);
    assert_eq!(m.image_metadata_col.image_metadata_list[2].digest, [2; 48]);
    assert_eq!(m.image_metadata_col.image_metadata_list[3].fw_id, 0);

    let vendor_digest = fake_digest(&p.vendor_signed_data());
    assert_eq!(p.vendor_pub_keys_signatures.ecc_sig.r, vendor_digest);
    assert_eq!(p.vendor_pub_keys_signatures.ecc_sig.s, [0x101; 12]);
    assert_eq!(p.vendor_pub_keys_signatures.lms_sig.bytes[8], 0x41);
    let owner_digest = fake_digest(&p.owner_pub_keys.as_bytes());
    assert_eq!(p.owner_pub_keys_signatures.ecc_sig.r, owner_digest);
    assert_eq!(p.owner_pub_keys_signatures.ecc_sig.s, [0x103; 12]);
    let imc_digest = fake_digest(&m.image_metadata_col.as_bytes());
    assert_eq!(p.vendor_image_metdata_signatures.ecc_sig.r, imc_digest);
    assert_eq!(p.vendor_image_metdata_signatures.ecc_sig.s, [0x102; 12]);
    assert_eq!(p.owner_image_metdata_signatures.ecc_sig.r, imc_digest);
    assert_eq!(p.owner_image_metdata_signatures.lms_sig.bytes[8], 0x44);
}

#[test]
fn generate_without_flag_or_owner() {
    let gen = AuthManifestGenerator::new();
    let (log, s, err) = drive(gen.generate(&config(0, false)).unwrap());
    assert_eq!(err, None);
    assert_eq!(log, vec!["digest:152", "ecc:101:1", "lms:41", "digest:7116"]);
    let p = s.manifest().preamble;
    assert!(zero_sigs(&p.vendor_image_metdata_signatures));
    assert!(zero_sigs(&p.owner_image_metdata_signatures));
    assert!(zero_sigs(&p.owner_pub_keys_signatures));
    assert_eq!(p.owner_pub_keys.ecc_pub_key.x, [0; 12]);
}

#[test]
fn generate_without_private_keys_only_hashes() {
    let mut c = config(1, true);
    c.vendor_fw_key_info = key_info(1, false);
    c.vendor_man_key_info = key_info(2, false);
    c.owner_fw_key_info = Some(key_info(3, false));
    c.owner_man_key_info = Some(key_info(4, false));
    let (log, _, err) = drive(AuthManifestGenerator::new().generate(&c).unwrap());
    assert_eq!(err, None);
    assert_eq!(log, vec!["digest:152", "digest:144", "digest:7116"]);
}

#[test]
fn generate_refuses_too_many_entries() {
    let mut c = config(0, false);
    c.image_metadata_list = metadata(128);
    assert_eq!(
        AuthManifestGenerator::new().generate(&c).err(),
        Some(AuthManifestError::TooManyImageMetadata { count: 128 })
    );
    c.image_metadata_list = metadata(127);
    let s = AuthManifestGenerator::new().generate(&c).unwrap();
    assert_eq!(s.manifest().image_metadata_col.entry_count, 127);
}

#[test]
fn wrong_or_late_answers_fail_the_session() {
    let mut s = AuthManifestGenerator::new().generate(&config(0, false)).unwrap();
    s.answer(Reply::EccSignature(ImageEccSignature::zeroed()));
    assert!(matches!(s.next(), NextStep::Failed(AuthManifestError::UnexpectedReply)));
    // A failed session stays failed.
    s.answer(Reply::Digest([0; 12]));
    assert!(matches!(s.next(), NextStep::Failed(AuthManifestError::UnexpectedReply)));

    let (_, mut done, _) = drive(AuthManifestGenerator::new().generate(&config(0, false)).unwrap());
    assert!(matches!(done.next(), NextStep::Done));
    done.answer(Reply::Digest([0; 12]));
    assert!(matches!(done.next(), NextStep::Failed(AuthManifestError::UnexpectedReply)));
}

fn ecc_pair(tag: u32) -> AuthManifestECCKeyPair {
    AuthManifestECCKeyPair { ecc_pub_key: ecc_pub(tag), ecc_priv_key: [tag + 0x100; 12] }
}

fn lms_pair(tag: u8) -> AuthManifestLmsKeyPair {
    AuthManifestLmsKeyPair { lms_pub_key: lms_pub(tag), lms_priv_key: lms_priv(tag + 0x40) }
}

fn ecc_cfg(fw: u32, man: u32) -> AuthManifestGeneratorEccKeyConfig {
    AuthManifestGeneratorEccKeyConfig { fw_ecc_key_pair: ecc_pair(fw), man_ecc_key_pair: ecc_pair(man) }
}

fn lms_cfg(fw: u8, man: u8) -> AuthManifestGeneratorLmsKeyConfig {
    AuthManifestGeneratorLmsKeyConfig { fw_lms_key_pair: lms_pair(fw), man_lms_key_pair: lms_pair(man) }
}

fn helpers(ecc_fw: Option<&str>, ecc_man: Option<&str>, lms_fw: Option<&str>, lms_man: Option<&str>) -> AspeedAuthManifestSignHelper {
    AspeedAuthManifestSignHelper {
        owner_ecc_fw_key_sign_helper: ecc_fw.map(|s| s.to_string()),
        owner_ecc_man_key_sign_helper: ecc_man.map(|s| s.to_string()),
        owner_lms_fw_key_sign_helper: lms_fw.map(|s| s.to_string()),
        owner_lms_man_key_sign_helper: lms_man.map(|s| s.to_string()),
        by_file: Some(true),
    }
}

fn aspeed_config(owner_keys: bool, sign_helper: AspeedAuthManifestSignHelper) -> AspeedAuthManifestGeneratorConfig {
    AspeedAuthManifestGeneratorConfig {
        version: 0x20,
        flags: AuthManifestFlags { bits: 1 },
        vendor_ecc_key_config: Some(ecc_cfg(1, 2)),
        vendor_lms_key_config: Some(lms_cfg(1, 2)),
        owner_ecc_key_config: if owner_keys { Some(ecc_cfg(3, 4)) } else { None },
        owner_lms_key_config: if owner_keys { Some(lms_cfg(3, 4)) } else { None },
        owner_ecc_key_optional_config: AuthManifestGeneratorEccKeyOptionalConfig { man_ecc_pub_key: Some(ecc_pub(9)), man_ecc_priv_key: None },
        owner_lms_key_optional_config: AuthManifestGeneratorLmsKeyOptionalConfig { man_lms_pub_key: Some(lms_pub(9)), man_lms_priv_key: None },
        image_metadata_list: metadata(2),
        sign_helper,
    }
}

#[test]
fn aspeed_generate_with_owner_keys() {
    let c = aspeed_config(true, helpers(None, None, None, None));
    let (log, s, err) = drive(AuthManifestGenerator::new().aspeed_generate(&c).unwrap());
    assert_eq!(err, None);
    assert_eq!(
        log,
        vec![
            "digest:152", "ecc:101:1", "lms:41",
            "digest:144", "ecc:103:3", "lms:43",
            "digest:7116", "ecc:102:2", "lms:42", "ecc:104:4", "lms:44",
        ]
    );
    let p = s.manifest().preamble;
    assert_eq!(p.vendor_pub_keys.ecc_pub_key.x, [2; 12]);
    assert_eq!(p.vendor_pub_keys.lms_pub_key.bytes, [2; 48]);
    assert_eq!(p.owner_pub_keys.ecc_pub_key.x, [4; 12]);
    assert_eq!(p.owner_image_metdata_signatures.ecc_sig.s, [0x104; 12]);
}

#[test]
fn aspeed_generate_with_helpers() {
    let c = aspeed_config(false, helpers(Some("ecc-fw"), Some("ecc-man"), Some("lms-fw"), Some("lms-man")));
    let (log, s, err) = drive(AuthManifestGenerator::new().aspeed_generate(&c).unwrap());
    assert_eq!(err, None);
    assert_eq!(
        log,
        vec![
            "digest:152", "ecc:101:1", "lms:41",
            "digest:144", "helper:ecc-fw:Some(true):true", "helper:lms-fw:Some(true):false",
            "digest:7116", "ecc:102:2", "lms:42",
            "helper:ecc-man:Some(true):true", "helper:lms-man:Some(true):false",
        ]
    );
    let m = s.manifest();
    let p = m.preamble;
    // Owner public keys come from the optional configuration.
    assert_eq!(p.owner_pub_keys.ecc_pub_key.x, [9; 12]);
    assert_eq!(p.owner_pub_keys.lms_pub_key.bytes, [9; 48]);
    assert_eq!(p.owner_pub_keys_signatures.ecc_sig.s, [0xEEEE_EEEE; 12]);
    assert_eq!(p.owner_pub_keys_signatures.ecc_sig.r, fake_digest(&p.owner_pub_keys.as_bytes()));
    assert_eq!(p.owner_image_metdata_signatures.ecc_sig.r, fake_digest(&m.image_metadata_col.as_bytes()));
}

#[test]
fn aspeed_generate_optional_key_pair_signs_metadata() {
    let mut c = aspeed_config(false, helpers(None, Some("unused"), None, None));
    c.owner_ecc_key_optional_config.man_ecc_priv_key = Some([0x77; 12]);
    let (log, s, err) = drive(AuthManifestGenerator::new().aspeed_generate(&c).unwrap());
    assert_eq!(err, None);
    assert_eq!(log, vec!["digest:152", "ecc:101:1", "lms:41", "digest:144", "digest:7116", "ecc:102:2", "lms:42", "ecc:77:9"]);
    let p = s.manifest().preamble;
    // Without helpers for the firmware keys the owner public keys stay zero.
    assert_eq!(p.owner_pub_keys.ecc_pub_key.x, [0; 12]);
    assert!(zero_sigs(&p.owner_pub_keys_signatures));
    assert_eq!(p.owner_image_metdata_signatures.lms_sig.bytes, [0; 1620]);
}

#[test]
fn aspeed_generate_missing_owner_key_fails_after_vendor_signing() {
    let mut c = aspeed_config(false, helpers(Some("ecc-fw"), None, Some("lms-fw"), None));
    c.owner_ecc_key_optional_config.man_ecc_pub_key = None;
    let (log, _, err) = drive(AuthManifestGenerator::new().aspeed_generate(&c).unwrap());
    assert_eq!(log, vec!["digest:152", "ecc:101:1", "lms:41"]);
    assert_eq!(err, Some(AuthManifestError::MissingOwnerEccPubKey));

    let mut c = aspeed_config(false, helpers(Some("ecc-fw"), None, Some("lms-fw"), None));
    c.owner_lms_key_optional_config.man_lms_pub_key = None;
    let (_, _, err) = drive(AuthManifestGenerator::new().aspeed_generate(&c).unwrap());
    assert_eq!(err, Some(AuthManifestError::MissingOwnerLmsPubKey));
}

#[test]
fn helper_answer_without_the_asked_signature_fails() {
    let c = aspeed_config(false, helpers(Some("ecc-fw"), None, None, None));
    let mut s = AuthManifestGenerator::new().aspeed_generate(&c).unwrap();
    loop {
        match s.next() {
            NextStep::Request(Request::SignWithHelper { .. }) => {
                s.answer(Reply::Helper(SignaturePair { ecdsa: None, lms: None }));
            }
            NextStep::Request(Request::Sha384Digest { .. }) => s.answer(Reply::Digest([1; 12])),
            NextStep::Request(Request::Ecdsa384Sign { .. }) => s.answer(Reply::EccSignature(ImageEccSignature::zeroed())),
            NextStep::Request(Request::LmsSign { .. }) => s.answer(Reply::LmsSignature(ImageLmsSignature::zeroed())),
            NextStep::Failed(e) => {
                assert_eq!(e, AuthManifestError::ExpectedEccSignature);
                break;
            }
            NextStep::Done => panic!("the helper gave no signature"),
        }
    }
}

#[test]
fn aspeed_generate_refuses_too_many_entries() {
    let mut c = aspeed_config(true, helpers(None, None, None, None));
    c.image_metadata_list = metadata(200);
    assert_eq!(
        AuthManifestGenerator::new().aspeed_generate(&c).err(),
        Some(AuthManifestError::TooManyImageMetadata { count: 200 })
    );
}

#[test]
fn sig_svn_signs_version_and_owner_keys() {
    let c = aspeed_config(true, helpers(None, None, None, None));
    let (log, s, err) = drive(AuthManifestGenerator::new().generate_sig_svn(5, &c).unwrap());
    assert_eq!(err, None);
    assert_eq!(log, vec!["digest:156", "ecc:103:3", "lms:43"]);
    let sigs = s.signatures();
    assert_eq!(sigs.ecc_sig.s, [0x103; 12]);
    assert_eq!(sigs.ecc_sig.r[0], 156);
    assert_eq!(sigs.lms_sig.bytes[8], 0x43);
}

#[test]
fn sig_svn_with_helpers_and_missing_key() {
    let c = aspeed_config(false, helpers(Some("e"), None, Some("l"), None));
    let (log, s, err) = drive(AuthManifestGenerator::new().generate_sig_svn(1, &c).unwrap());
    assert_eq!(err, None);
    assert_eq!(log, vec!["digest:156", "helper:e:Some(true):true", "helper:l:Some(true):false"]);
    assert_eq!(s.signatures().ecc_sig.s, [0xEEEE_EEEE; 12]);

    let mut c = aspeed_config(false, helpers(Some("e"), None, None, None));
    c.owner_ecc_key_optional_config.man_ecc_pub_key = None;
    assert_eq!(
        AuthManifestGenerator::new().generate_sig_svn(1, &c).err(),
        Some(AuthManifestError::MissingOwnerEccPubKey)
    );
    // An empty helper command counts as no helper.
    let mut c = aspeed_config(false, helpers(Some(""), None, None, None));
    c.owner_ecc_key_optional_config.man_ecc_pub_key = None;
    let (log, _, err) = drive(AuthManifestGenerator::new().generate_sig_svn(1, &c).unwrap());
    assert_eq!(err, None);
    assert_eq!(log, vec!["digest:156"]);
}

#[test]
fn helper_answer_without_lms_signature_fails() {
    let c = aspeed_config(false, helpers(None, None, Some("lms-fw"), None));
    let mut s = AuthManifestGenerator::new().aspeed_generate(&c).unwrap();
    let mut helper_calls = 0;
    loop {
        match s.next() {
            NextStep::Request(Request::SignWithHelper { is_ecdsa384, .. }) => {
                assert!(!is_ecdsa384);
                helper_calls += 1;
                // The helper answers with an ECC signature where an LMS one was asked for.
                s.answer(Reply::Helper(SignaturePair { ecdsa: Some(ImageEccSignature::zeroed()), lms: None }));
            }
            NextStep::Request(Request::Sha384Digest { .. }) => s.answer(Reply::Digest([1; 12])),
            NextStep::Request(Request::Ecdsa384Sign { .. }) => s.answer(Reply::EccSignature(ImageEccSignature::zeroed())),
            NextStep::Request(Request::LmsSign { .. }) => s.answer(Reply::LmsSignature(ImageLmsSignature::zeroed())),
            NextStep::Failed(e) => {
                assert_eq!(e, AuthManifestError::ExpectedLmsSignature);
                break;
            }
            NextStep::Done => panic!("the helper gave no LMS signature"),
        }
    }
    assert_eq!(helper_calls, 1);
}

#[test]
fn answering_past_a_failure_step_reports_it() {
    let mut c = aspeed_config(false, helpers(Some("ecc-fw"), None, None, None));
    c.owner_ecc_key_optional_config.man_ecc_pub_key = None;
    let mut s = AuthManifestGenerator::new().aspeed_generate(&c).unwrap();
    s.answer(Reply::Digest([0; 12]));
    s.answer(Reply::EccSignature(ImageEccSignature::zeroed()));
    s.answer(Reply::LmsSignature(ImageLmsSignature::zeroed()));
    assert!(matches!(s.next(), NextStep::Failed(AuthManifestError::MissingOwnerEccPubKey)));
    s.answer(Reply::Digest([0; 12]));
    assert!(matches!(s.next(), NextStep::Failed(AuthManifestError::MissingOwnerEccPubKey)));
}
