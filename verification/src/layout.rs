//! Byte layout of the manifest structures: little-endian words, fields in
//! declaration order, no padding.
use vstd::prelude::*;
use crate::image::{ImageEccPubKey, ImageEccSignature};
use crate::manifest::{
    AspeedAuthorizationManifest, AuthManifestImageMetadata, AuthManifestImageMetadataCollection,
    AuthManifestPreamble, AuthManifestPubKeys, AuthManifestSignatures, AuthorizationManifest,
    AUTH_MANIFEST_IMAGE_METADATA_MAX_COUNT,
};

verus! {

/// The four little-endian bytes of a 32-bit word.
pub open spec fn u32_le_bytes(x: u32) -> Seq<u8> {
    seq![
        (x % 256) as u8,
        ((x / 256) % 256) as u8,
        ((x / 65536) % 256) as u8,
        ((x / 16777216) % 256) as u8,
    ]
}

/// Words laid out one after the other, each little-endian.
pub open spec fn words_le_bytes(w: Seq<u32>) -> Seq<u8>
    decreases w.len(),
{
    if w.len() == 0 {
        Seq::empty()
    } else {
        words_le_bytes(w.drop_last()) + u32_le_bytes(w.last())
    }
}

pub open spec fn ecc_pub_key_bytes(k: ImageEccPubKey) -> Seq<u8> {
    words_le_bytes(k.x@) + words_le_bytes(k.y@)
}

pub open spec fn ecc_signature_bytes(s: ImageEccSignature) -> Seq<u8> {
    words_le_bytes(s.r@) + words_le_bytes(s.s@)
}

pub open spec fn pub_keys_bytes(p: AuthManifestPubKeys) -> Seq<u8> {
    ecc_pub_key_bytes(p.ecc_pub_key) + p.lms_pub_key.bytes@
}

pub open spec fn signatures_bytes(s: AuthManifestSignatures) -> Seq<u8> {
    ecc_signature_bytes(s.ecc_sig) + s.lms_sig.bytes@
}

/// The encoding of the preamble.
pub open spec fn preamble_bytes(p: AuthManifestPreamble) -> Seq<u8> {
    u32_le_bytes(p.marker) + u32_le_bytes(p.size) + u32_le_bytes(p.version) + u32_le_bytes(p.flags)
        + pub_keys_bytes(p.vendor_pub_keys) + signatures_bytes(p.vendor_pub_keys_signatures)
        + pub_keys_bytes(p.owner_pub_keys) + signatures_bytes(p.owner_pub_keys_signatures)
        + signatures_bytes(p.vendor_image_metdata_signatures)
        + signatures_bytes(p.owner_image_metdata_signatures)
}

/// The part of the preamble that the vendor key signature covers: version,
/// flags and the vendor public keys.
pub open spec fn vendor_signed_bytes(p: AuthManifestPreamble) -> Seq<u8> {
    u32_le_bytes(p.version) + u32_le_bytes(p.flags) + pub_keys_bytes(p.vendor_pub_keys)
}

pub open spec fn metadata_bytes(m: AuthManifestImageMetadata) -> Seq<u8> {
    u32_le_bytes(m.fw_id) + u32_le_bytes(m.flags) + m.digest@
}

/// Metadata entries laid out one after the other.
pub open spec fn metadata_list_bytes(s: Seq<AuthManifestImageMetadata>) -> Seq<u8>
    decreases s.len(),
{
    if s.len() == 0 {
        Seq::empty()
    } else {
        metadata_list_bytes(s.drop_last()) + metadata_bytes(s.last())
    }
}

/// The encoding of the image metadata collection.
pub open spec fn collection_bytes(c: AuthManifestImageMetadataCollection) -> Seq<u8> {
    u32_le_bytes(c.entry_count) + metadata_list_bytes(c.image_metadata_list@)
}

/// The encoding of a whole manifest.
pub open spec fn manifest_bytes(m: AuthorizationManifest) -> Seq<u8> {
    preamble_bytes(m.preamble) + collection_bytes(m.image_metadata_col)
}

/// The encoding of the structure that a security-version signature covers.
pub open spec fn aspeed_manifest_bytes(a: AspeedAuthorizationManifest) -> Seq<u8> {
    u32_le_bytes(a.version) + u32_le_bytes(a.sec_version) + u32_le_bytes(a.flags)
        + pub_keys_bytes(a.owner_pub_keys)
}

pub proof fn lemma_words_le_bytes_len(w: Seq<u32>)
    ensures
        words_le_bytes(w).len() == 4 * w.len(),
    decreases w.len(),
{
    if w.len() > 0 {
        lemma_words_le_bytes_len(w.drop_last());
    }
}

pub proof fn lemma_metadata_list_bytes_len(s: Seq<AuthManifestImageMetadata>)
    ensures
        metadata_list_bytes(s).len() == 56 * s.len(),
    decreases s.len(),
{
    if s.len() > 0 {
        lemma_metadata_list_bytes_len(s.drop_last());
    }
}

/// Every preamble encodes to `AUTH_MANIFEST_PREAMBLE_SIZE` bytes, and the
/// vendor-signed part is the byte range [8, 160) of that encoding.
pub proof fn lemma_preamble_layout(p: AuthManifestPreamble)
    ensures
        preamble_bytes(p).len() == 7168,
        vendor_signed_bytes(p) == preamble_bytes(p).subrange(8, 160),
{
    lemma_words_le_bytes_len(p.vendor_pub_keys.ecc_pub_key.x@);
    lemma_words_le_bytes_len(p.vendor_pub_keys.ecc_pub_key.y@);
    lemma_words_le_bytes_len(p.owner_pub_keys.ecc_pub_key.x@);
    lemma_words_le_bytes_len(p.owner_pub_keys.ecc_pub_key.y@);
    lemma_words_le_bytes_len(p.vendor_pub_keys_signatures.ecc_sig.r@);
    lemma_words_le_bytes_len(p.vendor_pub_keys_signatures.ecc_sig.s@);
    lemma_words_le_bytes_len(p.owner_pub_keys_signatures.ecc_sig.r@);
    lemma_words_le_bytes_len(p.owner_pub_keys_signatures.ecc_sig.s@);
    lemma_words_le_bytes_len(p.vendor_image_metdata_signatures.ecc_sig.r@);
    lemma_words_le_bytes_len(p.vendor_image_metdata_signatures.ecc_sig.s@);
    lemma_words_le_bytes_len(p.owner_image_metdata_signatures.ecc_sig.r@);
    lemma_words_le_bytes_len(p.owner_image_metdata_signatures.ecc_sig.s@);
    assert(vendor_signed_bytes(p) =~= preamble_bytes(p).subrange(8, 160));
}

/// The public keys encode to 144 bytes and a signature pair to 1716.
pub proof fn lemma_key_and_signature_lengths(k: AuthManifestPubKeys, s: AuthManifestSignatures)
    ensures
        pub_keys_bytes(k).len() == 144,
        signatures_bytes(s).len() == 1716,
{
    lemma_words_le_bytes_len(k.ecc_pub_key.x@);
    lemma_words_le_bytes_len(k.ecc_pub_key.y@);
    lemma_words_le_bytes_len(s.ecc_sig.r@);
    lemma_words_le_bytes_len(s.ecc_sig.s@);
}

/// Every field of the preamble sits at a fixed offset of its encoding, in
/// declaration order: marker [0, 4), size [4, 8), version [8, 12), flags
/// [12, 16), vendor public keys [16, 160), their signatures [160, 1876),
/// owner public keys [1876, 2020), their signatures [2020, 3736), vendor
/// image metadata signatures [3736, 5452), owner image metadata signatures
/// [5452, 7168).
pub proof fn lemma_preamble_field_offsets(p: AuthManifestPreamble)
    ensures
        preamble_bytes(p).len() == 7168,
        preamble_bytes(p).subrange(0, 4) == u32_le_bytes(p.marker),
        preamble_bytes(p).subrange(4, 8) == u32_le_bytes(p.size),
        preamble_bytes(p).subrange(8, 12) == u32_le_bytes(p.version),
        preamble_bytes(p).subrange(12, 16) == u32_le_bytes(p.flags),
        preamble_bytes(p).subrange(16, 160) == pub_keys_bytes(p.vendor_pub_keys),
        preamble_bytes(p).subrange(160, 1876) == signatures_bytes(p.vendor_pub_keys_signatures),
        preamble_bytes(p).subrange(1876, 2020) == pub_keys_bytes(p.owner_pub_keys),
        preamble_bytes(p).subrange(2020, 3736) == signatures_bytes(p.owner_pub_keys_signatures),
        preamble_bytes(p).subrange(3736, 5452) == signatures_bytes(p.vendor_image_metdata_signatures),
        preamble_bytes(p).subrange(5452, 7168) == signatures_bytes(p.owner_image_metdata_signatures),
{
    lemma_key_and_signature_lengths(p.vendor_pub_keys, p.vendor_pub_keys_signatures);
    lemma_key_and_signature_lengths(p.owner_pub_keys, p.owner_pub_keys_signatures);
    lemma_key_and_signature_lengths(p.owner_pub_keys, p.vendor_image_metdata_signatures);
    lemma_key_and_signature_lengths(p.owner_pub_keys, p.owner_image_metdata_signatures);
    let b = preamble_bytes(p);
    assert(b.subrange(0, 4) =~= u32_le_bytes(p.marker));
    assert(b.subrange(4, 8) =~= u32_le_bytes(p.size));
    assert(b.subrange(8, 12) =~= u32_le_bytes(p.version));
    assert(b.subrange(12, 16) =~= u32_le_bytes(p.flags));
    assert(b.subrange(16, 160) =~= pub_keys_bytes(p.vendor_pub_keys));
    assert(b.subrange(160, 1876) =~= signatures_bytes(p.vendor_pub_keys_signatures));
    assert(b.subrange(1876, 2020) =~= pub_keys_bytes(p.owner_pub_keys));
    assert(b.subrange(2020, 3736) =~= signatures_bytes(p.owner_pub_keys_signatures));
    assert(b.subrange(3736, 5452) =~= signatures_bytes(p.vendor_image_metdata_signatures));
    assert(b.subrange(5452, 7168) =~= signatures_bytes(p.owner_image_metdata_signatures));
}

/// The structure that a security-version signature covers encodes to 156
/// bytes: version [0, 4), security version [4, 8), flags [8, 12), owner
/// public keys [12, 156).
pub proof fn lemma_aspeed_manifest_field_offsets(a: AspeedAuthorizationManifest)
    ensures
        aspeed_manifest_bytes(a).len() == 156,
        aspeed_manifest_bytes(a).subrange(0, 4) == u32_le_bytes(a.version),
        aspeed_manifest_bytes(a).subrange(4, 8) == u32_le_bytes(a.sec_version),
        aspeed_manifest_bytes(a).subrange(8, 12) == u32_le_bytes(a.flags),
        aspeed_manifest_bytes(a).subrange(12, 156) == pub_keys_bytes(a.owner_pub_keys),
{
    lemma_key_and_signature_lengths(a.owner_pub_keys, AuthManifestSignatures::spec_zeroed());
    let b = aspeed_manifest_bytes(a);
    assert(b.subrange(0, 4) =~= u32_le_bytes(a.version));
    assert(b.subrange(4, 8) =~= u32_le_bytes(a.sec_version));
    assert(b.subrange(8, 12) =~= u32_le_bytes(a.flags));
    assert(b.subrange(12, 156) =~= pub_keys_bytes(a.owner_pub_keys));
}

/// Appends the little-endian encoding of `x` to `out`.
pub fn push_u32_le(out: &mut Vec<u8>, x: u32)
    ensures
        final(out)@ == old(out)@ + u32_le_bytes(x),
{
    out.push((x % 256) as u8);
    out.push(((x / 256) % 256) as u8);
    out.push(((x / 65536) % 256) as u8);
    out.push(((x / 16777216) % 256) as u8);
    assert(out@ =~= old(out)@ + u32_le_bytes(x));
}

/// Appends twelve words, each little-endian.
pub fn push_words_le(out: &mut Vec<u8>, w: &[u32; 12])
    ensures
        final(out)@ == old(out)@ + words_le_bytes(w@),
{
    let ghost start = out@;
    let mut i: usize = 0;
    while i < 12
        invariant
            0 <= i <= 12,
            w@.len() == 12,
            out@ == start + words_le_bytes(w@.take(i as int)),
        decreases 12 - i,
    {
        push_u32_le(out, w[i]);
        assert(w@.take(i + 1).drop_last() =~= w@.take(i as int));
        i = i + 1;
        assert(out@ =~= start + words_le_bytes(w@.take(i as int)));
    }
    assert(w@.take(12) =~= w@);
}

/// Appends raw bytes.
pub fn push_bytes(out: &mut Vec<u8>, b: &[u8])
    ensures
        final(out)@ == old(out)@ + b@,
{
    let ghost start = out@;
    let mut i: usize = 0;
    while i < b.len()
        invariant
            0 <= i <= b@.len(),
            out@ == start + b@.take(i as int),
        decreases b@.len() - i,
    {
        out.push(b[i]);
        i = i + 1;
        assert(out@ =~= start + b@.take(i as int));
    }
    assert(b@.take(b@.len() as int) =~= b@);
}

pub fn push_pub_keys(out: &mut Vec<u8>, p: &AuthManifestPubKeys)
    ensures
        final(out)@ == old(out)@ + pub_keys_bytes(*p),
{
    push_words_le(out, &p.ecc_pub_key.x);
    push_words_le(out, &p.ecc_pub_key.y);
    push_bytes(out, p.lms_pub_key.bytes.as_slice());
    assert(out@ =~= old(out)@ + pub_keys_bytes(*p));
}

pub fn push_signatures(out: &mut Vec<u8>, s: &AuthManifestSignatures)
    ensures
        final(out)@ == old(out)@ + signatures_bytes(*s),
{
    push_words_le(out, &s.ecc_sig.r);
    push_words_le(out, &s.ecc_sig.s);
    push_bytes(out, s.lms_sig.bytes.as_slice());
    assert(out@ =~= old(out)@ + signatures_bytes(*s));
}

pub fn push_preamble(out: &mut Vec<u8>, p: &AuthManifestPreamble)
    ensures
        final(out)@ == old(out)@ + preamble_bytes(*p),
{
    push_u32_le(out, p.marker);
    push_u32_le(out, p.size);
    push_u32_le(out, p.version);
    push_u32_le(out, p.flags);
    push_pub_keys(out, &p.vendor_pub_keys);
    push_signatures(out, &p.vendor_pub_keys_signatures);
    push_pub_keys(out, &p.owner_pub_keys);
    push_signatures(out, &p.owner_pub_keys_signatures);
    push_signatures(out, &p.vendor_image_metdata_signatures);
    push_signatures(out, &p.owner_image_metdata_signatures);
    assert(out@ =~= old(out)@ + preamble_bytes(*p));
}

pub fn push_metadata(out: &mut Vec<u8>, m: &AuthManifestImageMetadata)
    ensures
        final(out)@ == old(out)@ + metadata_bytes(*m),
{
    push_u32_le(out, m.fw_id);
    push_u32_le(out, m.flags);
    push_bytes(out, m.digest.as_slice());
    assert(out@ =~= old(out)@ + metadata_bytes(*m));
}

pub fn push_collection(out: &mut Vec<u8>, c: &AuthManifestImageMetadataCollection)
    ensures
        final(out)@ == old(out)@ + collection_bytes(*c),
{
    push_u32_le(out, c.entry_count);
    let ghost start = out@;
    let mut i: usize = 0;
    while i < AUTH_MANIFEST_IMAGE_METADATA_MAX_COUNT
        invariant
            0 <= i <= 127,
            c.image_metadata_list@.len() == 127,
            out@ == start + metadata_list_bytes(c.image_metadata_list@.take(i as int)),
        decreases 127 - i,
    {
        push_metadata(out, &c.image_metadata_list[i]);
        assert(c.image_metadata_list@.take(i + 1).drop_last() =~= c.image_metadata_list@.take(i as int));
        i = i + 1;
        assert(out@ =~= start + metadata_list_bytes(c.image_metadata_list@.take(i as int)));
    }
    assert(c.image_metadata_list@.take(127) =~= c.image_metadata_list@);
    assert(out@ =~= old(out)@ + collection_bytes(*c));
}

impl AuthManifestPubKeys {
    /// The encoding of the keys.
    pub fn as_bytes(&self) -> (r: Vec<u8>)
        ensures
            r@ == pub_keys_bytes(*self),
    {
        let mut out: Vec<u8> = Vec::new();
        push_pub_keys(&mut out, self);
        assert(out@ =~= pub_keys_bytes(*self));
        out
    }
}

impl AuthManifestPreamble {
    /// The byte range of the encoded preamble that the vendor key signature
    /// covers, as (start, end).
    pub fn vendor_signed_data_range() -> (r: (u32, u32))
        ensures
            r == (8u32, 160u32),
    {
        (8, 160)
    }

    /// The encoding of the preamble.
    pub fn as_bytes(&self) -> (r: Vec<u8>)
        ensures
            r@ == preamble_bytes(*self),
            r@.len() == 7168,
    {
        let mut out: Vec<u8> = Vec::new();
        push_preamble(&mut out, self);
        assert(out@ =~= preamble_bytes(*self));
        proof { lemma_preamble_layout(*self); }
        out
    }

    /// The bytes that the vendor key signature covers: the range
    /// `vendor_signed_data_range()` of the encoded preamble.
    pub fn vendor_signed_data(&self) -> (r: Vec<u8>)
        ensures
            r@ == preamble_bytes(*self).subrange(8, 160),
            r@ == vendor_signed_bytes(*self),
    {
        let mut out: Vec<u8> = Vec::new();
        push_u32_le(&mut out, self.version);
        push_u32_le(&mut out, self.flags);
        push_pub_keys(&mut out, &self.vendor_pub_keys);
        assert(out@ =~= vendor_signed_bytes(*self));
        proof { lemma_preamble_layout(*self); }
        out
    }
}

impl AuthManifestImageMetadataCollection {
    /// The encoding of the collection.
    pub fn as_bytes(&self) -> (r: Vec<u8>)
        ensures
            r@ == collection_bytes(*self),
            r@.len() == 7116,
    {
        let mut out: Vec<u8> = Vec::new();
        push_collection(&mut out, self);
        assert(out@ =~= collection_bytes(*self));
        proof { lemma_metadata_list_bytes_len(self.image_metadata_list@); }
        out
    }
}

impl AuthorizationManifest {
    /// The encoding of the whole manifest.
    pub fn as_bytes(&self) -> (r: Vec<u8>)
        ensures
            r@ == manifest_bytes(*self),
    {
        let mut out: Vec<u8> = Vec::new();
        push_preamble(&mut out, &self.preamble);
        push_collection(&mut out, &self.image_metadata_col);
        assert(out@ =~= manifest_bytes(*self));
        out
    }
}

impl AspeedAuthorizationManifest {
    /// The encoding of the structure.
    pub fn as_bytes(&self) -> (r: Vec<u8>)
        ensures
            r@ == aspeed_manifest_bytes(*self),
    {
        let mut out: Vec<u8> = Vec::new();
        push_u32_le(&mut out, self.version);
        push_u32_le(&mut out, self.sec_version);
        push_u32_le(&mut out, self.flags);
        push_pub_keys(&mut out, &self.owner_pub_keys);
        assert(out@ =~= aspeed_manifest_bytes(*self));
        out
    }
}

} // verus!
