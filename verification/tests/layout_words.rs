use caliptra_auth_man_gen::image::{
    ImageEccPubKey, ImageEccSignature, ImageLmsPublicKey, ImageLmsSignature,
};
use caliptra_auth_man_gen::manifest::{
    AspeedAuthorizationManifest, AuthManifestImageMetadata, AuthManifestPreamble, AuthManifestPubKeys,
    AuthManifestSignatures, AuthorizationManifest, AUTH_MANIFEST_MARKER,
};
use caliptra_auth_man_gen::generator::new_collection;
use caliptra_auth_man_gen::words::{bytes_to_u32_array, digest_to_be_bytes};
use caliptra_auth_man_gen::AuthManifestError;

fn pub_keys(seed: u32) -> AuthManifestPubKeys {
    let mut x = [0u32; 12];
    let mut y = [0u32; 12];
    for i in 0..12 {
        x[i] = seed + i as u32;
        y[i] = seed + 100 + i as u32;
    }
    let mut lms = [0u8; 48];
    for i in 0..48 {
        lms[i] = (seed as u8).wrapping_add(i as u8);
    }
    AuthManifestPubKeys {
        ecc_pub_key: ImageEccPubKey { x, y },
        lms_pub_key: ImageLmsPublicKey { bytes: lms },
    }
}

fn preamble() -> AuthManifestPreamble {
    AuthManifestPreamble {
        marker: AUTH_MANIFEST_MARKER,
        size: 7168,
        version: 0x0102_0304,
        flags: 1,
        vendor_pub_keys: pub_keys(7),
        vendor_pub_keys_signatures: AuthManifestSignatures::zeroed(),
        owner_pub_keys: pub_keys(9),
        owner_pub_keys_signatures: AuthManifestSignatures::zeroed(),
        vendor_image_metdata_signatures: AuthManifestSignatures::zeroed(),
        owner_image_metdata_signatures: AuthManifestSignatures::zeroed(),
    }
}

#[test]
fn preamble_encoding_has_fixed_size_and_little_endian_words() {
    let p = preamble();
    let bytes = p.as_bytes();
    assert_eq!(bytes.len(), 7168);
    assert_eq!(&bytes[0..4], &[0x4E, 0x4D, 0x54, 0x41]);
    assert_eq!(&bytes[4..8], &[0x00, 0x1C, 0x00, 0x00]);
    assert_eq!(&bytes[8..12], &[0x04, 0x03, 0x02, 0x01]);
    assert_eq!(&bytes[12..16], &[1, 0, 0, 0]);
    // First word of the vendor ECC key x coordinate.
    assert_eq!(&bytes[16..20], &[7, 0, 0, 0]);
}

#[test]
fn vendor_signed_data_is_the_range_of_the_preamble() {
    let p = preamble();
    let (start, end) = AuthManifestPreamble::vendor_signed_data_range();
    assert_eq!((start, end), (8, 160));
    let all = p.as_bytes();
    let signed = p.vendor_signed_data();
    assert_eq!(signed.len(), 152);
    assert_eq!(&signed[..], &all[start as usize..end as usize]);
}

#[test]
fn pub_keys_encoding() {
    let k = pub_keys(3);
    let b = k.as_bytes();
    assert_eq!(b.len(), 144);
    assert_eq!(&b[0..4], &[3, 0, 0, 0]);
    assert_eq!(&b[48..52], &[103, 0, 0, 0]);
    assert_eq!(b[96], 3);
    assert_eq!(b[143], 3 + 47);
}

#[test]
fn collection_encoding() {
    let entry = AuthManifestImageMetadata { fw_id: 0x11223344, flags: 5, digest: [0xAB; 48] };
    let col = new_collection(&vec![entry, entry]);
    assert_eq!(col.entry_count, 2);
    let b = col.as_bytes();
    assert_eq!(b.len(), 7116);
    assert_eq!(&b[0..4], &[2, 0, 0, 0]);
    assert_eq!(&b[4..8], &[0x44, 0x33, 0x22, 0x11]);
    assert_eq!(&b[8..12], &[5, 0, 0, 0]);
    assert_eq!(b[12], 0xAB);
    assert_eq!(&b[60..64], &[0x44, 0x33, 0x22, 0x11]);
    // Third entry is zero.
    assert!(b[116..172].iter().all(|x| *x == 0));
}

#[test]
fn manifest_and_aspeed_encodings() {
    let m = AuthorizationManifest { preamble: preamble(), image_metadata_col: new_collection(&vec![]) };
    assert_eq!(m.as_bytes().len(), 7168 + 7116);
    let a = AspeedAuthorizationManifest { version: 2, sec_version: 3, flags: 1, owner_pub_keys: pub_keys(1) };
    let b = a.as_bytes();
    assert_eq!(b.len(), 156);
    assert_eq!(&b[0..12], &[2, 0, 0, 0, 3, 0, 0, 0, 1, 0, 0, 0]);
    assert_eq!(&b[12..], &pub_keys(1).as_bytes()[..]);
}

#[test]
fn zero_values() {
    let s = AuthManifestSignatures::zeroed();
    assert_eq!(s.ecc_sig.r, [0u32; 12]);
    assert!(s.lms_sig.bytes.iter().all(|b| *b == 0));
    let k = ImageEccPubKey::zeroed();
    assert_eq!(k.x, [0u32; 12]);
    let e = ImageEccSignature::zeroed();
    assert_eq!(e.s, [0u32; 12]);
    assert!(ImageLmsPublicKey::zeroed().bytes.iter().all(|b| *b == 0));
    assert!(ImageLmsSignature::zeroed().bytes.len() == 1620);
}

#[test]
fn bytes_to_u32_array_left_pads() {
    let a = bytes_to_u32_array(&[0x01, 0x02, 0x03, 0x04, 0x05]).unwrap();
    let mut expected = [0u32; 12];
    expected[10] = 0x01;
    expected[11] = 0x0203_0405;
    assert_eq!(a, expected);
    assert_eq!(bytes_to_u32_array(&[]).unwrap(), [0u32; 12]);
}

#[test]
fn bytes_to_u32_array_full_length() {
    let bytes: Vec<u8> = (0..48).map(|i| i as u8).collect();
    let a = bytes_to_u32_array(&bytes).unwrap();
    assert_eq!(a[0], 0x0001_0203);
    assert_eq!(a[11], 0x2C2D_2E2F);
}

#[test]
fn bytes_to_u32_array_refuses_long_input() {
    assert_eq!(bytes_to_u32_array(&[0u8; 49]), Err(AuthManifestError::InvalidScalarLength));
}

#[test]
fn digest_big_endian_bytes_and_roundtrip() {
    let mut d = [0u32; 12];
    for i in 0..12 {
        d[i] = 0x0102_0304u32.wrapping_mul(i as u32 + 1);
    }
    let b = digest_to_be_bytes(&d);
    assert_eq!(b.len(), 48);
    assert_eq!(&b[0..4], &[0x01, 0x02, 0x03, 0x04]);
    assert_eq!(bytes_to_u32_array(&b).unwrap(), d);
    let back = digest_to_be_bytes(&bytes_to_u32_array(&b).unwrap());
    assert_eq!(back, b);
}
