//! Hex text for stored digests: the encoding that the store keeps, the
//! decoding that a scan reads back, and the law that ties the two.

use vstd::prelude::*;

verus! {

/// The lower-case digit for a value below 16: '0'..'9', then 'a'..'f'.
pub open spec fn lower_hex_digit(n: int) -> char {
    if n < 10 {
        ('0' as int + n) as char
    } else {
        ('a' as int + n - 10) as char
    }
}

/// Two lower-case hex digits per byte, high nibble first.
pub open spec fn hex_encoding(bytes: Seq<u8>) -> Seq<char>
    decreases bytes.len(),
{
    if bytes.len() == 0 {
        Seq::empty()
    } else {
        seq![lower_hex_digit(bytes[0] as int / 16), lower_hex_digit(bytes[0] as int % 16)]
            + hex_encoding(bytes.drop_first())
    }
}

/// The value of one hex digit; either case is accepted.
pub open spec fn hex_value(c: char) -> Option<int> {
    if '0' <= c && c <= '9' {
        Some(c as int - '0' as int)
    } else if 'a' <= c && c <= 'f' {
        Some(c as int - 'a' as int + 10)
    } else if 'A' <= c && c <= 'F' {
        Some(c as int - 'A' as int + 10)
    } else {
        None
    }
}

/// Text that decodes: an even number of characters, each a hex digit.
pub open spec fn is_hex_text(s: Seq<char>) -> bool {
    &&& s.len() % 2 == 0
    &&& forall|i: int| 0 <= i < s.len() ==> (#[trigger] hex_value(s[i])) is Some
}

/// The bytes that hex text stands for, one per pair of digits.
pub open spec fn hex_decoding(s: Seq<char>) -> Seq<u8>
    decreases s.len(),
{
    if s.len() < 2 {
        Seq::empty()
    } else {
        seq![(hex_value(s[0])->0 * 16 + hex_value(s[1])->0) as u8] + hex_decoding(
            s.subrange(2, s.len() as int),
        )
    }
}

/// The error that `hex::decode` reports.
#[verifier::external_type_specification]
#[verifier::external_body]
pub struct ExFromHexError(hex::FromHexError);

/// `hex::encode`: two lower-case digits per byte, high nibble first
/// (the crate walks the bytes and looks each nibble up in "0123456789abcdef").
#[verifier::external_body]
pub(crate) fn encode_hex(data: &[u8]) -> (text: String)
    ensures
        text@ == hex_encoding(data@),
{
    hex::encode(data)
}

/// `hex::decode` on the bytes of `text`: it fails on an odd length or on a
/// byte that is not a digit of either case, and otherwise gives one byte per
/// pair. A character outside ASCII has only bytes at or above 0x80, none a
/// digit, so the claim is stated over the characters of `text`.
#[verifier::external_body]
pub(crate) fn decode_hex(text: &str) -> (bytes: Result<Vec<u8>, hex::FromHexError>)
    ensures
        bytes is Ok <==> is_hex_text(text@),
        bytes matches Ok(v) ==> v@ == hex_decoding(text@),
{
    hex::decode(text)
}

proof fn lemma_digit_value(n: int)
    requires
        0 <= n < 16,
    ensures
        hex_value(lower_hex_digit(n)) == Some(n),
{
}

/// Hex text written by the encoding decodes, and gives back the bytes.
pub proof fn lemma_decode_encode(bytes: Seq<u8>)
    ensures
        hex_encoding(bytes).len() == 2 * bytes.len(),
        is_hex_text(hex_encoding(bytes)),
        hex_decoding(hex_encoding(bytes)) == bytes,
    decreases bytes.len(),
{
    if bytes.len() > 0 {
        let rest = bytes.drop_first();
        lemma_decode_encode(rest);
        let b = bytes[0];
        lemma_digit_value(b as int / 16);
        lemma_digit_value(b as int % 16);
        let e = hex_encoding(bytes);
        assert(e.subrange(2, e.len() as int) =~= hex_encoding(rest));
        assert forall|i: int| 0 <= i < e.len() implies (#[trigger] hex_value(e[i])) is Some by {
            if i >= 2 {
                assert(e[i] == hex_encoding(rest)[i - 2]);
            }
        }
        assert(hex_decoding(e) =~= bytes);
    }
}

/// Hex text is two lower-case digits per byte: at `2 * i` the digit of the
/// byte's high nibble, at `2 * i + 1` that of its low nibble.
pub proof fn lemma_encoding_digits(bytes: Seq<u8>)
    ensures
        hex_encoding(bytes).len() == 2 * bytes.len(),
        forall|i: int|
            0 <= i < bytes.len() ==> hex_value(#[trigger] hex_encoding(bytes)[2 * i]) == Some(bytes[i] as int / 16)
                && hex_value(hex_encoding(bytes)[2 * i + 1]) == Some(bytes[i] as int % 16),
        forall|j: int|
            0 <= j < hex_encoding(bytes).len() ==> ('0' <= #[trigger] hex_encoding(bytes)[j] <= '9' || 'a'
                <= hex_encoding(bytes)[j] <= 'f'),
    decreases bytes.len(),
{
    if bytes.len() > 0 {
        let rest = bytes.drop_first();
        lemma_encoding_digits(rest);
        let e = hex_encoding(bytes);
        let b = bytes[0];
        lemma_digit_value(b as int / 16);
        lemma_digit_value(b as int % 16);
        assert forall|i: int| 0 <= i < bytes.len() implies hex_value(#[trigger] e[2 * i]) == Some(bytes[i] as int / 16)
            && hex_value(e[2 * i + 1]) == Some(bytes[i] as int % 16) by {
            if i > 0 {
                assert(e[2 * i] == hex_encoding(rest)[2 * (i - 1)]);
                assert(e[2 * i + 1] == hex_encoding(rest)[2 * (i - 1) + 1]);
                assert(bytes[i] == rest[i - 1]);
            }
        }
        assert forall|j: int| 0 <= j < e.len() implies ('0' <= #[trigger] e[j] <= '9' || 'a' <= e[j] <= 'f') by {
            if j >= 2 {
                assert(e[j] == hex_encoding(rest)[j - 2]);
            }
        }
    }
}

} // verus!
