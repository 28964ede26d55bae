//! USB vendor and product numbers as device properties spell them.
use vstd::prelude::*;

use crate::number::{parse_u16, u16_in};
use crate::text::{chars_of, lower, to_lower, trim, trimmed};

verus! {

/// The vendor number of HyperX headsets.
pub const HYPERX_VENDOR_ID: u16 = 0x03f0;

/// The product numbers of the Cloud III S.
pub const CLOUD_III_S_PRODUCT_IDS: [u16; 2] = [0x06be, 0x02cc];

/// The part of a text behind its last colon; all of it where there is none.
pub open spec fn after_last_colon(s: Seq<char>) -> Seq<char>
    decreases s.len(),
{
    if s.len() == 0 || s.last() == ':' {
        seq![]
    } else {
        after_last_colon(s.drop_last()).push(s.last())
    }
}

/// The text without a leading `0x`.
pub open spec fn without_0x(s: Seq<char>) -> Seq<char> {
    if s.len() >= 2 && s[0] == '0' && s[1] == 'x' {
        s.skip(2)
    } else {
        s
    }
}

/// The digits of a device number: white space around it, a bus prefix that ends in a colon, a
/// leading `0x` and the case of its letters do not count.
pub open spec fn id_digits(raw: Seq<char>) -> Seq<char> {
    without_0x(after_last_colon(trimmed(raw).map_values(|c: char| lower(c))))
}

/// Whether a text denotes `expected`, read in hexadecimal or in decimal notation.
pub open spec fn denotes_id(raw: Seq<char>, expected: u16) -> bool {
    ||| u16_in(id_digits(raw), 16) == Some(expected as nat)
    ||| u16_in(id_digits(raw), 10) == Some(expected as nat)
}

/// Whether `raw` denotes `expected`, read in hexadecimal or in decimal notation.
pub fn id_value_matches(raw: &str, expected: u16) -> (r: bool)
    ensures
        r == denotes_id(raw@, expected),
{
    let trimmed_raw: Vec<char> = trim(&chars_of(raw));
    let ghost lowered = trimmed(raw@).map_values(|c: char| lower(c));
    let mut suffix: Vec<char> = Vec::new();
    for i in 0..trimmed_raw.len()
        invariant
            trimmed_raw@ == trimmed(raw@),
            lowered == trimmed(raw@).map_values(|c: char| lower(c)),
            suffix@ == after_last_colon(lowered.take(i as int)),
    {
        let c: char = to_lower(trimmed_raw[i]);
        assert(lowered.take(i + 1).drop_last() =~= lowered.take(i as int));
        assert(lowered.take(i + 1).last() == c);
        if c == ':' {
            suffix = Vec::new();
            assert(suffix@ =~= after_last_colon(lowered.take(i + 1)));
        } else {
            suffix.push(c);
        }
    }
    assert(lowered.take(lowered.len() as int) =~= lowered);
    let digits: Vec<char> = strip_0x(suffix);
    parse_u16(&digits, 16) == Some(expected) || parse_u16(&digits, 10) == Some(expected)
}

/// `chars` without a leading `0x`.
fn strip_0x(chars: Vec<char>) -> (r: Vec<char>)
    ensures
        r@ == without_0x(chars@),
{
    if chars.len() >= 2 && chars[0] == '0' && chars[1] == 'x' {
        let mut rest = chars;
        rest.split_off(2)
    } else {
        chars
    }
}

} // verus!
