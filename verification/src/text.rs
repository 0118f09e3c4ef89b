//! Text that arrives as bytes, and numbers that arrive as text.

use vstd::prelude::*;
use vstd::string::StringSliceAdditionalSpecFns;
use vstd::utf8::{decode_utf8, encode_utf8_decode_utf8, valid_utf8};

verus! {

/// Whether `c` is one of the ten ASCII digits.
pub open spec fn is_digit(c: char) -> bool {
    0x30 <= c as u32 <= 0x39
}

/// The number that the digits `s` spell in base ten, or `None` where a
/// character of `s` is no ASCII digit. No digits spell zero.
pub open spec fn digits(s: Seq<char>) -> Option<nat>
    decreases s.len(),
{
    if s.len() == 0 {
        Some(0)
    } else {
        match digits(s.drop_last()) {
            Some(v) => if is_digit(s.last()) {
                Some((v * 10 + (s.last() as u32 - 0x30)) as nat)
            } else {
                None
            },
            None => None,
        }
    }
}

/// The integer that the text `s` spells: an optional sign, `+` or `-`, and then
/// one or more ASCII digits, with nothing before, between or behind them.
pub open spec fn decimal(s: Seq<char>) -> Option<int> {
    if s.len() == 0 {
        None
    } else {
        let body = if s[0] == '+' || s[0] == '-' {
            s.skip(1)
        } else {
            s
        };
        if body.len() == 0 {
            None
        } else {
            match digits(body) {
                Some(v) => Some(
                    if s[0] == '-' {
                        -(v as int)
                    } else {
                        v as int
                    },
                ),
                None => None,
            }
        }
    }
}

/// What `str::parse::<i32>` makes of the characters `s`: the integer they
/// spell, where they spell one that an `i32` holds.
pub open spec fn parsed_i32(s: Seq<char>) -> Option<i32> {
    match decimal(s) {
        Some(v) => if i32::MIN <= v <= i32::MAX {
            Some(v as i32)
        } else {
            None
        },
        None => None,
    }
}

/// What `str::parse::<i64>` makes of the characters `s`: the integer they
/// spell, where they spell one that an `i64` holds.
pub open spec fn parsed_i64(s: Seq<char>) -> Option<i64> {
    match decimal(s) {
        Some(v) => if i64::MIN <= v <= i64::MAX {
            Some(v as i64)
        } else {
            None
        },
        None => None,
    }
}

/// `core::str::from_utf8`: the text that `bytes` encode, where they are valid
/// UTF-8, and nothing otherwise. The text borrows the bytes.
#[verifier::external_body]
pub(crate) fn str_from_utf8<'a>(bytes: &'a [u8]) -> (r: Option<&'a str>)
    ensures
        r is Some <==> valid_utf8(bytes@),
        r matches Some(s) ==> s@ == decode_utf8(bytes@) && s.spec_bytes() == bytes@,
{
    core::str::from_utf8(bytes).ok()
}

/// `str::parse::<i32>`: the integer that `s` spells in base ten, with an
/// optional sign before one or more ASCII digits, where an `i32` holds it.
/// Empty text, a sign alone, any other character and a number out of range
/// give nothing.
#[verifier::external_body]
pub(crate) fn parse_i32(s: &str) -> (r: Option<i32>)
    ensures
        r == parsed_i32(s@),
{
    s.parse::<i32>().ok()
}

/// `str::parse::<i64>`: the integer that `s` spells in base ten, with an
/// optional sign before one or more ASCII digits, where an `i64` holds it.
/// Empty text, a sign alone, any other character and a number out of range
/// give nothing.
#[verifier::external_body]
pub(crate) fn parse_i64(s: &str) -> (r: Option<i64>)
    ensures
        r == parsed_i64(s@),
{
    s.parse::<i64>().ok()
}

/// Whether two texts hold the same characters.
pub fn same_text(a: &str, b: &str) -> (r: bool)
    ensures
        r == (a@ == b@),
{
    let x = a.as_bytes();
    let y = b.as_bytes();
    if x.len() != y.len() {
        return false;
    }
    let n: usize = x.len();
    let mut i: usize = 0;
    while i < n
        invariant
            i <= n,
            n == x@.len(),
            n == y@.len(),
            x@ == a.spec_bytes(),
            y@ == b.spec_bytes(),
            forall|k: int| 0 <= k < i ==> x@[k] == y@[k],
        decreases n - i,
    {
        if x[i] != y[i] {
            return false;
        }
        i = i + 1;
    }
    proof {
        assert(x@ =~= y@);
        encode_utf8_decode_utf8(a@);
        encode_utf8_decode_utf8(b@);
    }
    true
}

} // verus!
