//! A scan of configuration text for the one escape that the INI parser
//! cannot decode.
//!
//! The parser reads `\x` and four hexadecimal digits as the character with
//! that code. The codes from D800 to DFFF name no character, and the parser
//! stops the program on them. Text is scanned for such an escape before it is
//! parsed.
//!
//! The scan is cautious. It looks for the six characters wherever they
//! stand, also in a comment or behind another backslash, where the parser
//! would not decode them.

use vstd::prelude::*;
use vstd::string::*;

verus! {

/// Whether `b` is an ASCII hexadecimal digit.
pub open spec fn is_hex_digit(b: u8) -> bool {
    (0x30 <= b && b <= 0x39) || (0x41 <= b && b <= 0x46) || (0x61 <= b && b <= 0x66)
}

/// Whether the six bytes from `i` on are a backslash, `x`, and four
/// hexadecimal digits whose value lies between D800 and DFFF: the first is
/// `d` or `D`, the second is 8 or more.
pub open spec fn surrogate_escape_at(bytes: Seq<u8>, i: int) -> bool {
    &&& 0 <= i
    &&& i + 6 <= bytes.len()
    &&& bytes[i] == 0x5c
    &&& bytes[i + 1] == 0x78
    &&& (bytes[i + 2] == 0x44 || bytes[i + 2] == 0x64)
    &&& is_hex_digit(bytes[i + 3])
    &&& bytes[i + 3] >= 0x38
    &&& is_hex_digit(bytes[i + 4])
    &&& is_hex_digit(bytes[i + 5])
}

/// Whether such an escape stands anywhere in `bytes`.
pub open spec fn escapes_surrogate(bytes: Seq<u8>) -> bool {
    exists|i: int| surrogate_escape_at(bytes, i)
}

/// Whether `b` is an ASCII hexadecimal digit.
fn hex_digit(b: u8) -> (r: bool)
    ensures
        r == is_hex_digit(b),
{
    (0x30 <= b && b <= 0x39) || (0x41 <= b && b <= 0x46) || (0x61 <= b && b <= 0x66)
}

/// Whether a surrogate escape starts at byte `i` of `bytes`.
fn escape_at(bytes: &[u8], i: usize) -> (r: bool)
    requires
        i + 6 <= bytes@.len(),
        bytes@.len() <= usize::MAX,
    ensures
        r == surrogate_escape_at(bytes@, i as int),
{
    let third: u8 = bytes[i + 2];
    let fourth: u8 = bytes[i + 3];
    bytes[i] == 0x5c && bytes[i + 1] == 0x78 && (third == 0x44 || third == 0x64) && hex_digit(
        fourth,
    ) && fourth >= 0x38 && hex_digit(bytes[i + 4]) && hex_digit(bytes[i + 5])
}

/// Whether `text` holds an escape for a code between D800 and DFFF.
pub fn has_surrogate_escape(text: &str) -> (r: bool)
    ensures
        r == escapes_surrogate(text.spec_bytes()),
{
    let bytes = text.as_bytes();
    let n: usize = bytes.len();
    if n < 6 {
        return false;
    }
    let last: usize = n - 6;
    let mut i: usize = 0;
    while i <= last
        invariant
            n == bytes@.len(),
            last == n - 6,
            i <= last + 1,
            bytes@ == text.spec_bytes(),
            forall|j: int| 0 <= j < i ==> !surrogate_escape_at(bytes@, j),
        decreases last + 1 - i,
    {
        if escape_at(bytes, i) {
            return true;
        }
        i = i + 1;
    }
    false
}

} // verus!
