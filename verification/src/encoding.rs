//! Validity of UTF-8 byte sequences.
//!
//! A pointer handed across the boundary as "text" promises a well-formed
//! encoding; encoding validity is the one property of a caller-supplied
//! buffer that can actually be checked, so it gets a full specification
//! and a verified validator.

use vstd::prelude::*;

verus! {

/// A continuation byte of a multi-byte UTF-8 sequence.
pub open spec fn is_cont_byte(b: u8) -> bool {
    0x80 <= b && b <= 0xbf
}

/// Well-formedness of the suffix of `s` that starts at position `i`:
/// the bytes from `i` on split into complete, shortest-form UTF-8
/// code-point encodings (surrogates and values above U+10FFFF excluded).
///
/// Each arm mirrors one row of the UTF-8 byte-range table: the lead byte
/// picks the length and the admissible range of the first trailing byte.
pub open spec fn utf8_from(s: Seq<u8>, i: int) -> bool
    decreases s.len() - i,
{
    if i >= s.len() {
        true
    } else {
        let b0 = s[i];
        if b0 < 0x80 {
            utf8_from(s, i + 1)
        } else if 0xc2 <= b0 && b0 <= 0xdf {
            &&& i + 2 <= s.len()
            &&& is_cont_byte(s[i + 1])
            &&& utf8_from(s, i + 2)
        } else if b0 == 0xe0 {
            &&& i + 3 <= s.len()
            &&& 0xa0 <= s[i + 1] && s[i + 1] <= 0xbf
            &&& is_cont_byte(s[i + 2])
            &&& utf8_from(s, i + 3)
        } else if 0xe1 <= b0 && b0 <= 0xec {
            &&& i + 3 <= s.len()
            &&& is_cont_byte(s[i + 1])
            &&& is_cont_byte(s[i + 2])
            &&& utf8_from(s, i + 3)
        } else if b0 == 0xed {
            &&& i + 3 <= s.len()
            &&& 0x80 <= s[i + 1] && s[i + 1] <= 0x9f
            &&& is_cont_byte(s[i + 2])
            &&& utf8_from(s, i + 3)
        } else if 0xee <= b0 && b0 <= 0xef {
            &&& i + 3 <= s.len()
            &&& is_cont_byte(s[i + 1])
            &&& is_cont_byte(s[i + 2])
            &&& utf8_from(s, i + 3)
        } else if b0 == 0xf0 {
            &&& i + 4 <= s.len()
            &&& 0x90 <= s[i + 1] && s[i + 1] <= 0xbf
            &&& is_cont_byte(s[i + 2])
            &&& is_cont_byte(s[i + 3])
            &&& utf8_from(s, i + 4)
        } else if 0xf1 <= b0 && b0 <= 0xf3 {
            &&& i + 4 <= s.len()
            &&& is_cont_byte(s[i + 1])
            &&& is_cont_byte(s[i + 2])
            &&& is_cont_byte(s[i + 3])
            &&& utf8_from(s, i + 4)
        } else if b0 == 0xf4 {
            &&& i + 4 <= s.len()
            &&& 0x80 <= s[i + 1] && s[i + 1] <= 0x8f
            &&& is_cont_byte(s[i + 2])
            &&& is_cont_byte(s[i + 3])
            &&& utf8_from(s, i + 4)
        } else {
            false
        }
    }
}

/// A whole byte sequence is well-formed UTF-8.
pub open spec fn is_utf8(s: Seq<u8>) -> bool {
    utf8_from(s, 0)
}

/// Whether `b` is a continuation byte.
fn is_continuation(b: u8) -> (r: bool)
    ensures
        r == is_cont_byte(b),
{
    0x80 <= b && b <= 0xbf
}

/// Checks that `bytes` is a well-formed UTF-8 encoding.
pub fn validate_utf8(bytes: &[u8]) -> (ok: bool)
    ensures
        ok == is_utf8(bytes@),
{
    let n: usize = bytes.len();
    let mut i: usize = 0;
    while i < n
        invariant
            i <= n,
            n == bytes@.len(),
            is_utf8(bytes@) == utf8_from(bytes@, i as int),
        decreases n - i,
    {
        let b0 = bytes[i];
        if b0 < 0x80 {
            i = i + 1;
        } else if 0xc2 <= b0 && b0 <= 0xdf {
            if n - i < 2 || !is_continuation(bytes[i + 1]) {
                return false;
            }
            i = i + 2;
        } else if b0 == 0xe0 {
            if n - i < 3 || bytes[i + 1] < 0xa0 || bytes[i + 1] > 0xbf
                || !is_continuation(bytes[i + 2]) {
                return false;
            }
            i = i + 3;
        } else if 0xe1 <= b0 && b0 <= 0xec {
            if n - i < 3 || !is_continuation(bytes[i + 1]) || !is_continuation(bytes[i + 2]) {
                return false;
            }
            i = i + 3;
        } else if b0 == 0xed {
            if n - i < 3 || bytes[i + 1] < 0x80 || bytes[i + 1] > 0x9f
                || !is_continuation(bytes[i + 2]) {
                return false;
            }
            i = i + 3;
        } else if 0xee <= b0 && b0 <= 0xef {
            if n - i < 3 || !is_continuation(bytes[i + 1]) || !is_continuation(bytes[i + 2]) {
                return false;
            }
            i = i + 3;
        } else if b0 == 0xf0 {
            if n - i < 4 || bytes[i + 1] < 0x90 || bytes[i + 1] > 0xbf
                || !is_continuation(bytes[i + 2]) || !is_continuation(bytes[i + 3]) {
                return false;
            }
            i = i + 4;
        } else if 0xf1 <= b0 && b0 <= 0xf3 {
            if n - i < 4 || !is_continuation(bytes[i + 1]) || !is_continuation(bytes[i + 2])
                || !is_continuation(bytes[i + 3]) {
                return false;
            }
            i = i + 4;
        } else if b0 == 0xf4 {
            if n - i < 4 || bytes[i + 1] < 0x80 || bytes[i + 1] > 0x8f
                || !is_continuation(bytes[i + 2]) || !is_continuation(bytes[i + 3]) {
                return false;
            }
            i = i + 4;
        } else {
            return false;
        }
    }
    true
}

} // verus!
