use caliptra_auth_man_gen::der::{ecdsa_components_from_der_blocks, int_to_bytes, parse_ecdsa_der, DerBlock, DerElement};
use caliptra_auth_man_gen::helper::{
    ecc_signature_from_der, helper_request_bytes, helper_request_hex, lms_signature_from_bytes,
    signature_pair_from_helper_bytes, signature_pair_from_helper_hex,
};
use caliptra_auth_man_gen::AuthManifestError;

fn der_sig(r: &[u8], s: &[u8]) -> Vec<u8> {
    let mut body = vec![0x02, r.len() as u8];
    body.extend_from_slice(r);
    body.push(0x02);
    body.push(s.len() as u8);
    body.extend_from_slice(s);
    let mut out = vec![0x30, body.len() as u8];
    out.extend_from_slice(&body);
    out
}

#[test]
fn int_to_bytes_strips_leading_zeros() {
    assert_eq!(int_to_bytes(&vec![0, 0, 5, 0]), vec![5, 0]);
    assert_eq!(int_to_bytes(&vec![0]), vec![0]);
    assert_eq!(int_to_bytes(&vec![0, 0]), vec![0]);
    assert_eq!(int_to_bytes(&vec![]), Vec::<u8>::new());
    assert_eq!(int_to_bytes(&vec![7, 0]), vec![7, 0]);
}

#[test]
fn components_from_blocks() {
    let blocks = vec![DerBlock::Sequence(vec![DerElement::Integer(vec![0, 1]), DerElement::Integer(vec![2])])];
    assert_eq!(ecdsa_components_from_der_blocks(&blocks), Ok((vec![1], vec![2])));
    let wrong = vec![DerBlock::Sequence(vec![DerElement::Integer(vec![1])])];
    assert_eq!(ecdsa_components_from_der_blocks(&wrong), Err(AuthManifestError::InvalidEcdsaDer));
    let wrong = vec![DerBlock::Sequence(vec![DerElement::Integer(vec![1]), DerElement::Other])];
    assert_eq!(ecdsa_components_from_der_blocks(&wrong), Err(AuthManifestError::InvalidEcdsaDer));
    let wrong = vec![DerBlock::Integer(vec![1]), DerBlock::Sequence(vec![])];
    assert_eq!(ecdsa_components_from_der_blocks(&wrong), Err(AuthManifestError::InvalidEcdsaDer));
    assert_eq!(ecdsa_components_from_der_blocks(&vec![]), Err(AuthManifestError::InvalidEcdsaDer));
}

#[test]
fn parse_ecdsa_der_reads_two_integers() {
    assert_eq!(parse_ecdsa_der(&der_sig(&[5], &[7])), Ok((vec![5], vec![7])));
    // A leading zero keeps a high-bit integer positive; the magnitude drops it.
    assert_eq!(parse_ecdsa_der(&der_sig(&[0x00, 0xFF], &[0x00, 0x80])), Ok((vec![0xFF], vec![0x80])));
    // Negative integers give their magnitude.
    assert_eq!(parse_ecdsa_der(&der_sig(&[0xFF], &[1])), Ok((vec![1], vec![1])));
}

#[test]
fn parse_ecdsa_der_errors() {
    assert_eq!(parse_ecdsa_der(&[0x30]), Err(AuthManifestError::MalformedDer));
    assert_eq!(parse_ecdsa_der(&[]), Err(AuthManifestError::MalformedDer));
    assert_eq!(parse_ecdsa_der(&[0x02, 0x01, 0x05]), Err(AuthManifestError::InvalidEcdsaDer));
    assert_eq!(parse_ecdsa_der(&[0x30, 0x03, 0x02, 0x01, 0x05]), Err(AuthManifestError::InvalidEcdsaDer));
}

#[test]
fn ecc_signature_from_der_pads_components() {
    let mut r = vec![0x00];
    r.extend_from_slice(&[0x91; 48]);
    let sig = ecc_signature_from_der(&der_sig(&r, &[0x01, 0x02])).unwrap();
    assert_eq!(sig.r, [0x9191_9191u32; 12]);
    let mut s = [0u32; 12];
    s[11] = 0x0102;
    assert_eq!(sig.s, s);
}

#[test]
fn ecc_signature_from_der_refuses_long_scalar() {
    let r = vec![0x11; 49];
    assert_eq!(ecc_signature_from_der(&der_sig(&r, &[1])).err(), Some(AuthManifestError::InvalidScalarLength));
}

#[test]
fn lms_signature_length_is_checked() {
    let bytes: Vec<u8> = (0..1620).map(|i| (i % 251) as u8).collect();
    let sig = lms_signature_from_bytes(&bytes).unwrap();
    assert_eq!(&sig.bytes[..], &bytes[..]);
    assert_eq!(lms_signature_from_bytes(&[0; 10]).err(), Some(AuthManifestError::InvalidLmsSignatureLength { got: 10 }));
}

#[test]
fn helper_answers_from_bytes() {
    let pair = signature_pair_from_helper_bytes(&der_sig(&[3], &[4]), true).unwrap();
    assert!(pair.lms.is_none());
    assert_eq!(pair.ecdsa.unwrap().r[11], 3);
    let lms = vec![9u8; 1620];
    let pair = signature_pair_from_helper_bytes(&lms, false).unwrap();
    assert!(pair.ecdsa.is_none());
    assert_eq!(pair.lms.unwrap().bytes[0], 9);
    assert_eq!(
        signature_pair_from_helper_bytes(&lms, true).err(),
        Some(AuthManifestError::MalformedDer)
    );
}

#[test]
fn helper_answers_from_hex() {
    let text = hex_of(&der_sig(&[0x0A], &[0x0B]));
    let pair = signature_pair_from_helper_hex(&text, true).unwrap();
    assert_eq!(pair.ecdsa.unwrap().s[11], 0x0B);
    let upper = text.to_uppercase();
    assert_eq!(signature_pair_from_helper_hex(&upper, true).unwrap().ecdsa.unwrap().r[11], 0x0A);
    assert_eq!(signature_pair_from_helper_hex("zz", true).err(), Some(AuthManifestError::InvalidHex));
    assert_eq!(signature_pair_from_helper_hex("abc", false).err(), Some(AuthManifestError::InvalidHex));
    assert_eq!(
        signature_pair_from_helper_hex("abcd", false).err(),
        Some(AuthManifestError::InvalidLmsSignatureLength { got: 2 })
    );
}

fn hex_of(b: &[u8]) -> String {
    b.iter().map(|x| format!("{:02x}", x)).collect()
}

#[test]
fn helper_requests() {
    let mut d = [0u32; 12];
    d[0] = 0x00AB_CDEF;
    d[11] = 0x1234_5678;
    let bytes = helper_request_bytes(&d);
    assert_eq!(&bytes[0..4], &[0x00, 0xAB, 0xCD, 0xEF]);
    assert_eq!(&bytes[44..48], &[0x12, 0x34, 0x56, 0x78]);
    let text = helper_request_hex(&d);
    assert_eq!(text.len(), 96);
    assert!(text.starts_with("00abcdef"));
    assert!(text.ends_with("12345678"));
    assert_eq!(text, hex_of(&bytes));
}
