use caliptra_auth_man_gen::keyfiles::{ecc_key_pair_files, lms_key_pair_files, AspeedAuthManifestKeyConfigFromFile};
use caliptra_auth_man_gen::metadata::ImageMetadataFlags;
use caliptra_auth_man_gen::{image_metadata_config_from_file, AuthManifestError, ImageMetadataConfigFromFile};

fn entry(fw_id: u32, digest: String, source: u32, ignore: bool, stage: u32) -> ImageMetadataConfigFromFile {
    ImageMetadataConfigFromFile { digest, source, fw_id, ignore_auth_check: ignore, load_stage: stage }
}

fn digest_text(b: u8) -> String {
    (0..48).map(|i| format!("{:02x}", b.wrapping_add(i as u8))).collect()
}

#[test]
fn entries_become_metadata_in_order() {
    let cfg = vec![entry(1, digest_text(0x10), 1, true, 2), entry(7, digest_text(0xA0).to_uppercase(), 6, false, 33)];
    let list = image_metadata_config_from_file(&cfg).unwrap();
    assert_eq!(list.len(), 2);
    assert_eq!(list[0].fw_id, 1);
    assert_eq!(list[0].flags, 1 | 4 | (2 << 3));
    assert_eq!(list[0].digest[0], 0x10);
    assert_eq!(list[0].digest[47], 0x10 + 47);
    assert_eq!(list[1].fw_id, 7);
    // Source keeps its low two bits, the load stage its low five bits.
    assert_eq!(list[1].flags, 2 | (1 << 3));
    assert_eq!(list[1].digest[0], 0xA0);
}

#[test]
fn empty_list_is_accepted() {
    assert_eq!(image_metadata_config_from_file(&vec![]).unwrap().len(), 0);
}

#[test]
fn duplicate_firmware_id_is_refused() {
    let cfg = vec![entry(3, digest_text(0), 0, false, 0), entry(4, digest_text(1), 0, false, 0), entry(3, digest_text(2), 0, false, 0)];
    assert_eq!(image_metadata_config_from_file(&cfg).err(), Some(AuthManifestError::DuplicateFirmwareId));
}

#[test]
fn non_hex_digest_is_refused() {
    let cfg = vec![entry(3, "xyz".to_string(), 0, false, 0)];
    assert_eq!(image_metadata_config_from_file(&cfg).err(), Some(AuthManifestError::InvalidHex));
    let cfg = vec![entry(3, "abc".to_string(), 0, false, 0)];
    assert_eq!(image_metadata_config_from_file(&cfg).err(), Some(AuthManifestError::InvalidHex));
}

#[test]
fn first_failing_entry_decides() {
    // The second entry repeats an id; the third has a bad digest.
    let cfg = vec![entry(1, digest_text(0), 0, false, 0), entry(1, "zz".to_string(), 0, false, 0)];
    assert_eq!(image_metadata_config_from_file(&cfg).err(), Some(AuthManifestError::DuplicateFirmwareId));
    let cfg = vec![entry(1, "zz".to_string(), 0, false, 0), entry(1, digest_text(0), 0, false, 0)];
    assert_eq!(image_metadata_config_from_file(&cfg).err(), Some(AuthManifestError::InvalidHex));
}

#[test]
fn flags_fields() {
    let mut f = ImageMetadataFlags(0);
    f.set_ignore_auth_check(true);
    f.set_image_source(3);
    f.set_image_load_stage(0x1F);
    assert_eq!(f.0, 0b1111_1111);
    f.set_ignore_auth_check(false);
    assert_eq!(f.0, 0b1111_1011);
    f.set_image_source(0);
    assert_eq!(f.0, 0b1111_1000);
}

fn key_cfg(ecc: bool, lms: bool, tag: &str) -> AspeedAuthManifestKeyConfigFromFile {
    AspeedAuthManifestKeyConfigFromFile {
        ecc_pub_key: if ecc { Some(format!("{tag}-ecc-pub.pem")) } else { None },
        ecc_priv_key: if ecc { Some(format!("{tag}-ecc-priv.pem")) } else { None },
        lms_pub_key: if lms { Some(format!("{tag}-lms-pub.pem")) } else { None },
        lms_priv_key: Some(format!("{tag}-lms-priv.pem")),
    }
}

#[test]
fn key_pair_files_need_every_file() {
    let f = ecc_key_pair_files(&Some(key_cfg(true, false, "fw")), &Some(key_cfg(true, true, "man"))).unwrap();
    assert_eq!(f.fw_pub_key, "fw-ecc-pub.pem");
    assert_eq!(f.fw_priv_key, "fw-ecc-priv.pem");
    assert_eq!(f.man_pub_key, "man-ecc-pub.pem");
    assert_eq!(f.man_priv_key, "man-ecc-priv.pem");
    assert!(lms_key_pair_files(&Some(key_cfg(true, false, "fw")), &Some(key_cfg(true, true, "man"))).is_none());
    let f = lms_key_pair_files(&Some(key_cfg(false, true, "fw")), &Some(key_cfg(false, true, "man"))).unwrap();
    assert_eq!(f.man_priv_key, "man-lms-priv.pem");
    assert!(ecc_key_pair_files(&None, &Some(key_cfg(true, true, "man"))).is_none());
    assert!(ecc_key_pair_files(&Some(key_cfg(true, true, "fw")), &None).is_none());
}
