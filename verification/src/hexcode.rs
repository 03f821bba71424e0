//! Hexadecimal decoding, as the GitHub signature check needs it: the spec of
//! what a hex string decodes to, a trusted wrapper around the decoder of the
//! `hex` crate, and the round trip with lower-case encoding.

use vstd::prelude::*;

verus! {

/// ASCII `0`..`9`, `A`..`F` or `a`..`f`.
pub open spec fn is_hex_digit(b: u8) -> bool {
    (48 <= b <= 57) || (65 <= b <= 70) || (97 <= b <= 102)
}

/// Numeric value of a hex digit.
pub open spec fn hex_digit_val(b: u8) -> u8 {
    if 48 <= b <= 57 {
        (b - 48) as u8
    } else if 65 <= b <= 70 {
        (b - 55) as u8
    } else {
        (b - 87) as u8
    }
}

/// A byte string is decodable as hex iff its length is even and every byte is
/// a hex digit, upper or lower case.
pub open spec fn hex_decodable(s: Seq<u8>) -> bool {
    s.len() % 2 == 0 && (forall|i: int| 0 <= i < s.len() ==> is_hex_digit(#[trigger] s[i]))
}

/// The bytes a decodable hex string stands for: one byte for each digit pair,
/// high digit first.
pub open spec fn hex_decode_spec(s: Seq<u8>) -> Seq<u8> {
    Seq::new(s.len() / 2, |i: int| (16 * hex_digit_val(s[2 * i]) + hex_digit_val(s[2 * i + 1])) as u8)
}

/// Lower-case hex digit for a value below 16.
pub open spec fn hex_digit_char(v: u8) -> u8 {
    if v < 10 {
        (48 + v) as u8
    } else {
        (87 + v) as u8
    }
}

/// The lower-case hex encoding of a byte string: two digits per byte.
pub open spec fn hex_encode_spec(d: Seq<u8>) -> Seq<u8> {
    Seq::new(
        d.len() * 2,
        |i: int|
            if i % 2 == 0 {
                hex_digit_char(d[i / 2] / 16)
            } else {
                hex_digit_char(d[i / 2] % 16)
            },
    )
}

/// Relies on `hex::decode`: it returns the decoded bytes exactly when the
/// input has even length and consists of hex digits of either case, pairing
/// digits high-first, and an error otherwise.
#[verifier::external_body]
pub fn hex_decode(s: &[u8]) -> (r: Option<Vec<u8>>)
    ensures
        r matches Some(v) ==> hex_decodable(s@) && v@ == hex_decode_spec(s@),
        r is None ==> !hex_decodable(s@),
{
    match hex::decode(s) {
        Ok(v) => Some(v),
        Err(_) => None,
    }
}

/// Decoding undoes lower-case encoding: the encoding of any byte string is
/// decodable, and decodes to that byte string.
pub proof fn lemma_hex_round_trip(d: Seq<u8>)
    ensures
        hex_decodable(hex_encode_spec(d)),
        hex_decode_spec(hex_encode_spec(d)) == d,
{
    let e = hex_encode_spec(d);
    assert(e.len() == d.len() * 2);
    assert forall|i: int| 0 <= i < e.len() implies is_hex_digit(#[trigger] e[i]) by {
        let b = d[i / 2];
        assert(b / 16 < 16 && b % 16 < 16);
    }
    assert forall|i: int| 0 <= i < d.len() implies hex_decode_spec(e)[i] == d[i] by {
        let b = d[i];
        assert(e[2 * i] == hex_digit_char(b / 16));
        assert(e[2 * i + 1] == hex_digit_char(b % 16));
        assert(hex_digit_val(hex_digit_char(b / 16)) == b / 16);
        assert(hex_digit_val(hex_digit_char(b % 16)) == b % 16);
        assert(16 * (b / 16) + b % 16 == b);
    }
    assert(hex_decode_spec(e) =~= d);
}

} // verus!
