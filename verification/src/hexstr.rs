//! Hexadecimal text: the shape of transaction identifiers and data payloads.
use vstd::prelude::*;

verus! {

/// A character is a hexadecimal digit: `0-9`, `a-f` or `A-F`.
pub open spec fn is_hex_digit(c: char) -> bool {
    (48 <= c as u32 && c as u32 <= 57)  // '0' ..= '9'
    || (97 <= c as u32 && c as u32 <= 102)  // 'a' ..= 'f'
    || (65 <= c as u32 && c as u32 <= 70)  // 'A' ..= 'F'
}

/// Every character of the sequence is a hexadecimal digit.
pub open spec fn is_hex_seq(s: Seq<char>) -> bool {
    forall|i: int| 0 <= i < s.len() ==> is_hex_digit(#[trigger] s[i])
}

/// The text form of a transaction identifier: exactly 64 hexadecimal digits,
/// the hex encoding of a 32-byte identifier.
pub open spec fn is_txid_text(s: Seq<char>) -> bool {
    s.len() == 64 && is_hex_seq(s)
}

/// The text form of a data-carrier payload: hexadecimal digits encoding whole
/// bytes, so the length is even.
pub open spec fn is_payload_text(s: Seq<char>) -> bool {
    s.len() % 2 == 0 && is_hex_seq(s)
}

/// Decide whether one character is a hexadecimal digit.
pub fn check_hex_digit(c: char) -> (r: bool)
    ensures
        r == is_hex_digit(c),
{
    let u = c as u32;
    (48 <= u && u <= 57) || (97 <= u && u <= 102) || (65 <= u && u <= 70)
}

/// Decide whether every character of `s` is a hexadecimal digit.
pub fn check_hex(s: &str) -> (r: bool)
    ensures
        r == is_hex_seq(s@),
{
    let n = s.unicode_len();
    let mut i: usize = 0;
    while i < n
        invariant
            n == s@.len(),
            i <= n,
            forall|j: int| 0 <= j < i ==> is_hex_digit(#[trigger] s@[j]),
        decreases n - i,
    {
        if !check_hex_digit(s.get_char(i)) {
            return false;
        }
        i = i + 1;
    }
    true
}

/// Decide whether `s` has the text form of a transaction identifier.
pub fn check_txid(s: &str) -> (r: bool)
    ensures
        r == is_txid_text(s@),
{
    s.unicode_len() == 64 && check_hex(s)
}

/// Decide whether `s` has the text form of a data-carrier payload.
pub fn check_payload(s: &str) -> (r: bool)
    ensures
        r == is_payload_text(s@),
{
    s.unicode_len() % 2 == 0 && check_hex(s)
}

} // verus!
