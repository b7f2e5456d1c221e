//! Conversions between big-endian byte strings and twelve-word scalars.
use vstd::prelude::*;
use crate::error::AuthManifestError;
use crate::image::{zero_bytes, ImageDigest, ImageScalar, ECC384_SCALAR_WORD_SIZE};

verus! {

/// The word whose big-endian bytes are `b0 b1 b2 b3`.
pub open spec fn be_word(b0: u8, b1: u8, b2: u8, b3: u8) -> u32 {
    (b0 as int * 16777216 + b1 as int * 65536 + b2 as int * 256 + b3 as int) as u32
}

/// The four big-endian bytes of a word.
pub open spec fn u32_be_bytes(x: u32) -> Seq<u8> {
    seq![
        ((x / 16777216) % 256) as u8,
        ((x / 65536) % 256) as u8,
        ((x / 256) % 256) as u8,
        (x % 256) as u8,
    ]
}

/// Words laid out one after the other, each big-endian.
pub open spec fn words_be_bytes(w: Seq<u32>) -> Seq<u8>
    decreases w.len(),
{
    if w.len() == 0 {
        Seq::empty()
    } else {
        words_be_bytes(w.drop_last()) + u32_be_bytes(w.last())
    }
}

/// A byte string of at most 48 bytes with zeros prepended to 48 bytes.
pub open spec fn left_pad_48(b: Seq<u8>) -> Seq<u8> {
    zero_bytes((48 - b.len()) as nat) + b
}

/// The twelve big-endian words of a 48-byte string.
pub open spec fn be_words_48(b: Seq<u8>) -> Seq<u32> {
    Seq::new(12, |i: int| be_word(b[4 * i], b[4 * i + 1], b[4 * i + 2], b[4 * i + 3]))
}

/// Converts a big-endian byte string of at most 48 bytes into twelve words,
/// most significant first, after left-padding it with zeros to 48 bytes.
/// Longer input is refused.
pub fn bytes_to_u32_array(bytes: &[u8]) -> (r: Result<ImageScalar, AuthManifestError>)
    ensures
        bytes@.len() > 48 <==> r is Err,
        r matches Err(e) ==> e == AuthManifestError::InvalidScalarLength,
        r matches Ok(a) ==> a@ == be_words_48(left_pad_48(bytes@)),
{
    let len = bytes.len();
    if len > 48 {
        return Err(AuthManifestError::InvalidScalarLength);
    }
    let mut full: [u8; 48] = [0u8; 48];
    let pad = 48 - len;
    assert(full@ =~= zero_bytes(48));
    let mut i: usize = 0;
    while i < len
        invariant
            len == bytes@.len(),
            len <= 48,
            pad == 48 - len,
            0 <= i <= len,
            full@.len() == 48,
            forall|j: int| 0 <= j < pad ==> full@[j] == 0u8,
            forall|j: int| 0 <= j < i ==> full@[pad + j] == bytes@[j],
        decreases len - i,
    {
        full[pad + i] = bytes[i];
        i = i + 1;
    }
    assert(full@ =~= left_pad_48(bytes@));
    let mut arr: ImageScalar = [0u32; ECC384_SCALAR_WORD_SIZE];
    let mut k: usize = 0;
    while k < 12
        invariant
            0 <= k <= 12,
            full@ == left_pad_48(bytes@),
            full@.len() == 48,
            arr@.len() == 12,
            forall|j: int| 0 <= j < k ==> arr@[j] == be_words_48(full@)[j],
        decreases 12 - k,
    {
        let b0 = full[4 * k];
        let b1 = full[4 * k + 1];
        let b2 = full[4 * k + 2];
        let b3 = full[4 * k + 3];
        let w: u32 = (b0 as u32) * 16777216 + (b1 as u32) * 65536 + (b2 as u32) * 256 + (b3 as u32);
        arr[k] = w;
        k = k + 1;
    }
    assert(arr@ =~= be_words_48(left_pad_48(bytes@)));
    Ok(arr)
}

/// The 48 big-endian bytes of a digest (each word most significant byte
/// first, words in order).
pub fn digest_to_be_bytes(digest: &ImageDigest) -> (r: Vec<u8>)
    ensures
        r@ == words_be_bytes(digest@),
        r@.len() == 48,
{
    let mut out: Vec<u8> = Vec::new();
    let mut i: usize = 0;
    while i < 12
        invariant
            0 <= i <= 12,
            digest@.len() == 12,
            out@ == words_be_bytes(digest@.take(i as int)),
        decreases 12 - i,
    {
        let x = digest[i];
        out.push(((x / 16777216) % 256) as u8);
        out.push(((x / 65536) % 256) as u8);
        out.push(((x / 256) % 256) as u8);
        out.push((x % 256) as u8);
        assert(digest@.take(i + 1).drop_last() =~= digest@.take(i as int));
        i = i + 1;
        assert(out@ =~= words_be_bytes(digest@.take(i as int)));
    }
    assert(digest@.take(12) =~= digest@);
    proof { lemma_words_be_bytes_len(digest@); }
    out
}

pub proof fn lemma_words_be_bytes_len(w: Seq<u32>)
    ensures
        words_be_bytes(w).len() == 4 * w.len(),
    decreases w.len(),
{
    if w.len() > 0 {
        lemma_words_be_bytes_len(w.drop_last());
    }
}

proof fn lemma_be_word_bytes(b0: u8, b1: u8, b2: u8, b3: u8)
    ensures
        u32_be_bytes(be_word(b0, b1, b2, b3)) == seq![b0, b1, b2, b3],
{
    let v: int = b0 as int * 16777216 + b1 as int * 65536 + b2 as int * 256 + b3 as int;
    assert(0 <= v < 4294967296);
    let w = be_word(b0, b1, b2, b3);
    assert(w == v);
    assert((v / 16777216) % 256 == b0) by (nonlinear_arith)
        requires v == b0 as int * 16777216 + b1 as int * 65536 + b2 as int * 256 + b3 as int,
            0 <= b0 < 256, 0 <= b1 < 256, 0 <= b2 < 256, 0 <= b3 < 256;
    assert((v / 65536) % 256 == b1) by (nonlinear_arith)
        requires v == b0 as int * 16777216 + b1 as int * 65536 + b2 as int * 256 + b3 as int,
            0 <= b0 < 256, 0 <= b1 < 256, 0 <= b2 < 256, 0 <= b3 < 256;
    assert((v / 256) % 256 == b2) by (nonlinear_arith)
        requires v == b0 as int * 16777216 + b1 as int * 65536 + b2 as int * 256 + b3 as int,
            0 <= b0 < 256, 0 <= b1 < 256, 0 <= b2 < 256, 0 <= b3 < 256;
    assert(v % 256 == b3) by (nonlinear_arith)
        requires v == b0 as int * 16777216 + b1 as int * 65536 + b2 as int * 256 + b3 as int,
            0 <= b0 < 256, 0 <= b1 < 256, 0 <= b2 < 256, 0 <= b3 < 256;
    assert(u32_be_bytes(w) =~= seq![b0, b1, b2, b3]);
}

proof fn lemma_word_be_bytes_word(x: u32)
    ensures
        ({
            let b = u32_be_bytes(x);
            be_word(b[0], b[1], b[2], b[3]) == x
        }),
{
    let v = x as int;
    assert(((v / 16777216) % 256) * 16777216 + ((v / 65536) % 256) * 65536 + ((v / 256) % 256) * 256
        + v % 256 == v) by (nonlinear_arith)
        requires 0 <= v < 4294967296;
}

/// Reading twelve words out of 48 big-endian bytes and laying them out again
/// gives back the same bytes.
pub proof fn lemma_be_bytes_roundtrip(b: Seq<u8>)
    requires
        b.len() == 48,
    ensures
        words_be_bytes(be_words_48(b)) == b,
{
    let w = be_words_48(b);
    assert forall|k: int| 0 <= k <= 12 implies #[trigger] words_be_bytes(w.take(k)) == b.take(4 * k) by {
        lemma_prefix_be(b, k);
    }
    assert(w.take(12) =~= w);
    assert(b.take(48) =~= b);
}

proof fn lemma_prefix_be(b: Seq<u8>, k: int)
    requires
        b.len() == 48,
        0 <= k <= 12,
    ensures
        words_be_bytes(be_words_48(b).take(k)) == b.take(4 * k),
    decreases k,
{
    let w = be_words_48(b);
    if k == 0 {
        assert(w.take(0) =~= Seq::<u32>::empty());
        assert(b.take(0) =~= Seq::<u8>::empty());
    } else {
        lemma_prefix_be(b, k - 1);
        assert(w.take(k).drop_last() =~= w.take(k - 1));
        lemma_be_word_bytes(b[4 * (k - 1)], b[4 * (k - 1) + 1], b[4 * (k - 1) + 2], b[4 * (k - 1) + 3]);
        assert(b.take(4 * k) =~= b.take(4 * (k - 1)) + seq![
            b[4 * (k - 1)], b[4 * (k - 1) + 1], b[4 * (k - 1) + 2], b[4 * (k - 1) + 3]]);
    }
}

/// Laying twelve words out as big-endian bytes and reading them back gives
/// back the same words.
pub proof fn lemma_be_words_roundtrip(w: Seq<u32>)
    requires
        w.len() == 12,
    ensures
        be_words_48(words_be_bytes(w)) == w,
{
    let b = words_be_bytes(w);
    lemma_words_be_bytes_len(w);
    assert forall|i: int| 0 <= i < 12 implies #[trigger] be_words_48(b)[i] == w[i] by {
        lemma_words_be_bytes_index(w, i);
        lemma_word_be_bytes_word(w[i]);
    }
    assert(be_words_48(b) =~= w);
}

proof fn lemma_words_be_bytes_index(w: Seq<u32>, i: int)
    requires
        0 <= i < w.len(),
    ensures
        words_be_bytes(w).len() == 4 * w.len(),
        words_be_bytes(w)[4 * i] == u32_be_bytes(w[i])[0],
        words_be_bytes(w)[4 * i + 1] == u32_be_bytes(w[i])[1],
        words_be_bytes(w)[4 * i + 2] == u32_be_bytes(w[i])[2],
        words_be_bytes(w)[4 * i + 3] == u32_be_bytes(w[i])[3],
    decreases w.len(),
{
    lemma_words_be_bytes_len(w);
    lemma_words_be_bytes_len(w.drop_last());
    if i < w.len() - 1 {
        lemma_words_be_bytes_index(w.drop_last(), i);
    }
}

/// Converting a scalar's big-endian bytes back with `bytes_to_u32_array`
/// restores it; converting 48 bytes to words and back restores the bytes.
pub proof fn lemma_scalar_bytes_roundtrip(w: Seq<u32>, b: Seq<u8>)
    requires
        w.len() == 12,
        b.len() == 48,
    ensures
        be_words_48(left_pad_48(words_be_bytes(w))) == w,
        words_be_bytes(be_words_48(left_pad_48(b))) == b,
{
    lemma_words_be_bytes_len(w);
    assert(left_pad_48(words_be_bytes(w)) =~= words_be_bytes(w));
    assert(left_pad_48(b) =~= b);
    lemma_be_words_roundtrip(w);
    lemma_be_bytes_roundtrip(b);
}

} // verus!
