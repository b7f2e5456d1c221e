//! Hexadecimal text, through the `hex` crate.
use vstd::prelude::*;

verus! {

/// The value of one hexadecimal digit (either case), if `c` is one.
pub open spec fn hex_digit_value(c: u8) -> Option<u8> {
    if 48 <= c <= 57 {
        Some((c - 48) as u8)
    } else if 97 <= c <= 102 {
        Some((c - 87) as u8)
    } else if 65 <= c <= 70 {
        Some((c - 55) as u8)
    } else {
        None
    }
}

/// An even number of hexadecimal digits.
pub open spec fn is_hex_text(t: Seq<u8>) -> bool {
    &&& t.len() % 2 == 0
    &&& forall|i: int| 0 <= i < t.len() ==> (#[trigger] hex_digit_value(t[i])) is Some
}

/// The bytes that hexadecimal text stands for, two digits per byte, the
/// first digit of a pair being the high nibble.
pub open spec fn hex_decoded(t: Seq<u8>) -> Seq<u8> {
    Seq::new(
        t.len() / 2,
        |i: int| (hex_digit_value(t[2 * i])->0 * 16 + hex_digit_value(t[2 * i + 1])->0) as u8,
    )
}

/// The lower-case hexadecimal digit of a nibble.
pub open spec fn nibble_char(n: u8) -> char {
    if n < 10 {
        (48 + n) as char
    } else {
        (87 + n) as char
    }
}

/// Lower-case hexadecimal text of a byte string, high nibble first.
pub open spec fn hex_lower(data: Seq<u8>) -> Seq<char> {
    Seq::new(
        2 * data.len(),
        |i: int|
            if i % 2 == 0 {
                nibble_char(data[i / 2] / 16)
            } else {
                nibble_char(data[i / 2] % 16)
            },
    )
}

/// Calls `hex::decode`. The crate's `decode` refuses text of odd length and
/// text with a byte that is not a hexadecimal digit (either case), and
/// otherwise returns one byte per pair of digits, high nibble first; the
/// contract states exactly that. The error value itself is dropped.
#[verifier::external_body]
pub(crate) fn hex_decode(text: &[u8]) -> (r: Result<Vec<u8>, ()>)
    ensures
        r is Ok <==> is_hex_text(text@),
        r matches Ok(v) ==> v@ == hex_decoded(text@),
{
    hex::decode(text).map_err(|_| ())
}

/// Calls `hex::encode`, which writes each byte as two lower-case
/// hexadecimal digits, high nibble first; the contract states exactly that.
#[verifier::external_body]
pub(crate) fn hex_encode(data: &[u8]) -> (r: String)
    ensures
        r@ == hex_lower(data@),
{
    hex::encode(data)
}

} // verus!
