//! Decoding of hexadecimal byte strings.
//!
//! Signatures and the authority key arrive as ASCII hexadecimal text; this
//! module turns such text into raw bytes and says exactly when it succeeds.

use vstd::prelude::*;

verus! {

/// The numeric value of one ASCII hexadecimal digit, or an out-of-range
/// marker (16) for a byte that is no such digit.
pub open spec fn hex_digit_value(b: u8) -> u8 {
    if 48 <= b && b <= 57 {
        (b - 48) as u8
    } else if 97 <= b && b <= 102 {
        (b - 97 + 10) as u8
    } else if 65 <= b && b <= 70 {
        (b - 65 + 10) as u8
    } else {
        16u8
    }
}

/// Whether a byte is an ASCII hexadecimal digit.
pub open spec fn is_hex_digit(b: u8) -> bool {
    hex_digit_value(b) < 16
}

/// Whether a byte string is well-formed hexadecimal: even length, every
/// byte a hexadecimal digit.
pub open spec fn is_hex_string(s: Seq<u8>) -> bool {
    &&& s.len() % 2 == 0
    &&& forall|i: int| 0 <= i < s.len() ==> is_hex_digit(#[trigger] s[i])
}

/// The bytes a well-formed hexadecimal string denotes: one byte for each
/// pair of digits, high digit first.
pub open spec fn hex_decoded(s: Seq<u8>) -> Seq<u8> {
    Seq::new((s.len() / 2) as nat, |i: int| (hex_digit_value(s[2 * i]) * 16 + hex_digit_value(
        s[2 * i + 1],
    )) as u8)
}

/// The value of one hexadecimal digit byte, or `None` if it is no digit.
pub fn hex_digit(b: u8) -> (r: Option<u8>)
    ensures
        r matches Some(v) ==> v == hex_digit_value(b) && v < 16,
        r is None <==> !is_hex_digit(b),
{
    if 48 <= b && b <= 57 {
        Some(b - 48)
    } else if 97 <= b && b <= 102 {
        Some(b - 97 + 10)
    } else if 65 <= b && b <= 70 {
        Some(b - 65 + 10)
    } else {
        None
    }
}

/// Decodes a hexadecimal byte string into the bytes it denotes.
///
/// Succeeds exactly on well-formed hexadecimal input, and then returns the
/// denoted bytes, whose count is half the digit count.
pub fn hex_decode(s: &[u8]) -> (r: Option<Vec<u8>>)
    ensures
        r matches Some(v) ==> is_hex_string(s@) && v@ == hex_decoded(s@),
        r is None <==> !is_hex_string(s@),
{
    if s.len() % 2 != 0 {
        return None;
    }
    let mut out: Vec<u8> = Vec::new();
    let mut i: usize = 0;
    while i < s.len()
        invariant
            i % 2 == 0,
            i <= s@.len(),
            s@.len() % 2 == 0,
            forall|j: int| 0 <= j < i ==> is_hex_digit(#[trigger] s@[j]),
            out@.len() == i / 2,
            forall|j: int|
                0 <= j < out@.len() ==> out@[j] == (hex_digit_value(s@[2 * j]) * 16
                    + hex_digit_value(s@[2 * j + 1])) as u8,
        decreases s@.len() - i,
    {
        let hi = match hex_digit(s[i]) {
            Some(v) => v,
            None => {
                return None;
            },
        };
        let lo = match hex_digit(s[i + 1]) {
            Some(v) => v,
            None => {
                return None;
            },
        };
        out.push(hi * 16 + lo);
        i = i + 2;
    }
    proof {
        assert(out@ =~= hex_decoded(s@));
    }
    Some(out)
}

} // verus!
