//! Reading an ECDSA signature out of its DER encoding, through `simple_asn1`.
use vstd::prelude::*;
use crate::error::AuthManifestError;

verus! {

/// An element nested in a decoded SEQUENCE: integers are told apart from
/// everything else.
#[derive(Debug)]
pub enum DerElement {
    /// An INTEGER, as the big-endian bytes of its magnitude.
    Integer(Vec<u8>),
    /// Any other element.
    Other,
}

/// A top-level element of decoded DER.
#[derive(Debug)]
pub enum DerBlock {
    /// An INTEGER, as the big-endian bytes of its magnitude.
    Integer(Vec<u8>),
    /// A SEQUENCE and its elements.
    Sequence(Vec<DerElement>),
    /// Any other element.
    Other,
}

/// What `simple_asn1::from_der` makes of a byte string, in the shape of
/// `DerBlock`s (`None` where it reports an error).
pub uninterp spec fn spec_der_blocks(der: Seq<u8>) -> Option<Seq<DerBlock>>;

/// Calls `simple_asn1::from_der` and converts the blocks it returns: an
/// INTEGER becomes the magnitude that `BigInt::to_bytes_be` gives, a SEQUENCE
/// the list of its elements (there only integers are told apart), anything
/// else `Other`. The contract names the result; it also states what the
/// source shows plainly: `from_der` refuses input that decodes to no block
/// at all, so a success holds at least one block. Not stated: that the
/// decoder's recursion on deeply nested input could exhaust the stack.
#[verifier::external_body]
fn der_decode(der: &[u8]) -> (r: Result<Vec<DerBlock>, ()>)
    ensures
        r matches Ok(v) ==> spec_der_blocks(der@) == Some(v@) && v@.len() > 0,
        r is Err ==> spec_der_blocks(der@) is None,
{
    match simple_asn1::from_der(der) {
        Ok(blocks) => Ok(blocks.iter().map(|b| match b {
            simple_asn1::ASN1Block::Integer(_, n) => DerBlock::Integer(n.to_bytes_be().1),
            simple_asn1::ASN1Block::Sequence(_, items) => DerBlock::Sequence(items.iter().map(|i| match i {
                simple_asn1::ASN1Block::Integer(_, n) => DerElement::Integer(n.to_bytes_be().1),
                _ => DerElement::Other,
            }).collect()),
            _ => DerBlock::Other,
        }).collect()),
        Err(_) => Err(()),
    }
}

/// The two integer magnitudes of a signature: the first block must be a
/// SEQUENCE of exactly two INTEGERs.
pub open spec fn spec_ecdsa_components(blocks: Seq<DerBlock>) -> Option<(Seq<u8>, Seq<u8>)> {
    if blocks.len() > 0 && blocks[0] is Sequence {
        let items = blocks[0]->Sequence_0@;
        if items.len() == 2 && items[0] is Integer && items[1] is Integer {
            Some((items[0]->Integer_0@, items[1]->Integer_0@))
        } else {
            None
        }
    } else {
        None
    }
}

/// A big-endian byte string with its redundant leading zero bytes removed
/// (a single byte is always kept).
pub open spec fn strip_leading_zeros(b: Seq<u8>) -> Seq<u8>
    decreases b.len(),
{
    if b.len() > 1 && b[0] == 0 {
        strip_leading_zeros(b.drop_first())
    } else {
        b
    }
}

/// Big-endian value of a byte string.
pub open spec fn be_value(b: Seq<u8>) -> nat
    decreases b.len(),
{
    if b.len() == 0 {
        0
    } else {
        be_value(b.drop_last()) * 256 + b.last() as nat
    }
}

/// Removing leading zeros keeps the value, and leaves no leading zero unless
/// a single byte remains; the result is a suffix of the input.
pub proof fn lemma_strip_leading_zeros(b: Seq<u8>)
    ensures
        be_value(strip_leading_zeros(b)) == be_value(b),
        strip_leading_zeros(b).len() > 1 ==> strip_leading_zeros(b)[0] != 0,
        b.len() > 0 ==> strip_leading_zeros(b).len() > 0,
        strip_leading_zeros(b).len() <= b.len(),
        strip_leading_zeros(b) == b.skip(b.len() - strip_leading_zeros(b).len()),
    decreases b.len(),
{
    if b.len() > 1 && b[0] == 0 {
        lemma_strip_leading_zeros(b.drop_first());
        lemma_be_value_leading_zero(b);
        assert(strip_leading_zeros(b) == strip_leading_zeros(b.drop_first()));
        assert(strip_leading_zeros(b).len() <= b.drop_first().len());
        assert(b.drop_first().skip(b.drop_first().len() - strip_leading_zeros(b).len())
            =~= b.skip(b.len() - strip_leading_zeros(b).len()));
    } else {
        assert(b.skip(0) =~= b);
    }
}

proof fn lemma_be_value_leading_zero(b: Seq<u8>)
    requires
        b.len() > 0,
        b[0] == 0,
    ensures
        be_value(b) == be_value(b.drop_first()),
    decreases b.len(),
{
    if b.len() > 1 {
        lemma_be_value_leading_zero(b.drop_last());
        assert(b.drop_last().drop_first() =~= b.drop_first().drop_last());
        assert(b.drop_first().last() == b.last());
        assert(be_value(b.drop_last().drop_first()) == be_value(b.drop_first().drop_last()));
        assert(be_value(b.drop_first()) == be_value(b.drop_first().drop_last()) * 256 + b.drop_first().last() as nat);
    } else {
        assert(b.drop_first().len() == 0);
        assert(b.drop_last().len() == 0);
        assert(be_value(b.drop_last()) == 0);
        assert(b.last() == 0);
        assert(be_value(b.drop_first()) == 0);
    }
}

/// The unsigned big-endian bytes of an integer's magnitude, without
/// redundant leading zero bytes.
pub fn int_to_bytes(magnitude: &Vec<u8>) -> (r: Vec<u8>)
    ensures
        r@ == strip_leading_zeros(magnitude@),
{
    let len = magnitude.len();
    let mut k: usize = 0;
    assert(magnitude@.skip(0) =~= magnitude@);
    while k + 1 < len && magnitude[k] == 0
        invariant
            len == magnitude@.len(),
            k < len || (len == 0 && k == 0),
            strip_leading_zeros(magnitude@.skip(k as int)) == strip_leading_zeros(magnitude@),
        decreases len - k,
    {
        assert(magnitude@.skip(k as int).drop_first() =~= magnitude@.skip(k + 1));
        k = k + 1;
    }
    assert(strip_leading_zeros(magnitude@.skip(k as int)) == magnitude@.skip(k as int)) by {
        if len == 0 {
            assert(magnitude@.skip(k as int).len() == 0);
        }
    }
    let mut out: Vec<u8> = Vec::new();
    let mut i: usize = k;
    while i < len
        invariant
            len == magnitude@.len(),
            k <= i <= len,
            out@ == magnitude@.subrange(k as int, i as int),
        decreases len - i,
    {
        out.push(magnitude[i]);
        i = i + 1;
        assert(out@ =~= magnitude@.subrange(k as int, i as int));
    }
    assert(out@ =~= magnitude@.skip(k as int));
    out
}

/// The (r, s) components of a signature read from decoded DER blocks: the
/// first block must be a SEQUENCE of exactly two INTEGERs; their magnitudes
/// are returned without redundant leading zeros.
pub fn ecdsa_components_from_der_blocks(blocks: &Vec<DerBlock>)
    -> (res: Result<(Vec<u8>, Vec<u8>), AuthManifestError>)
    ensures
        res is Ok <==> spec_ecdsa_components(blocks@) is Some,
        res matches Err(e) ==> e == AuthManifestError::InvalidEcdsaDer,
        res matches Ok((r, s)) ==> {
            &&& r@ == strip_leading_zeros(spec_ecdsa_components(blocks@).unwrap().0)
            &&& s@ == strip_leading_zeros(spec_ecdsa_components(blocks@).unwrap().1)
        },
{
    if blocks.len() > 0 {
        if let DerBlock::Sequence(items) = &blocks[0] {
            if items.len() == 2 {
                if let (DerElement::Integer(r), DerElement::Integer(s)) = (&items[0], &items[1]) {
                    let r_bytes = int_to_bytes(r);
                    let s_bytes = int_to_bytes(s);
                    return Ok((r_bytes, s_bytes));
                }
            }
        }
    }
    Err(AuthManifestError::InvalidEcdsaDer)
}

/// Parses a DER-encoded ECDSA signature and returns its (r, s) components as
/// unsigned big-endian bytes. Input that `simple_asn1` cannot decode gives
/// `MalformedDer`; decoded input of another shape gives `InvalidEcdsaDer`.
pub fn parse_ecdsa_der(sig: &[u8]) -> (res: Result<(Vec<u8>, Vec<u8>), AuthManifestError>)
    ensures
        spec_der_blocks(sig@) is None <==> res == Err::<(Vec<u8>, Vec<u8>), AuthManifestError>(
            AuthManifestError::MalformedDer,
        ),
        spec_der_blocks(sig@) matches Some(blocks) ==> {
            &&& (res is Ok <==> spec_ecdsa_components(blocks) is Some)
            &&& (res is Err ==> res == Err::<(Vec<u8>, Vec<u8>), AuthManifestError>(
                AuthManifestError::InvalidEcdsaDer,
            ))
            &&& (res matches Ok((r, s)) ==> {
                &&& r@ == strip_leading_zeros(spec_ecdsa_components(blocks).unwrap().0)
                &&& s@ == strip_leading_zeros(spec_ecdsa_components(blocks).unwrap().1)
            })
        },
{
    match der_decode(sig) {
        Ok(blocks) => ecdsa_components_from_der_blocks(&blocks),
        Err(()) => Err(AuthManifestError::MalformedDer),
    }
}

} // verus!
