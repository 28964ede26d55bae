//! Numbers in text: printed for messages and read from device properties.
use vstd::prelude::*;

verus! {

/// The character of a digit below thirty-six.
pub open spec fn digit_char(digit: int) -> char {
    if digit < 10 {
        ('0' as u32 + digit) as char
    } else {
        ('a' as u32 + digit - 10) as char
    }
}

/// What a character stands for as a digit, letters counting on from ten.
pub open spec fn digit_value(c: char) -> Option<nat> {
    if '0' <= c <= '9' {
        Some((c as u32 - '0' as u32) as nat)
    } else if 'a' <= c <= 'z' {
        Some((c as u32 - 'a' as u32 + 10) as nat)
    } else if 'A' <= c <= 'Z' {
        Some((c as u32 - 'A' as u32 + 10) as nat)
    } else {
        None
    }
}

/// `n` in decimal notation.
pub open spec fn decimal_text(n: nat) -> Seq<char>
    decreases n,
{
    if n < 10 {
        seq![digit_char(n as int)]
    } else {
        decimal_text(n / 10).push(digit_char((n % 10) as int))
    }
}

/// `n` in hexadecimal notation, filled up with zeros to four digits.
pub open spec fn hex4_text(n: u16) -> Seq<char> {
    seq![
        digit_char((n / 4096) as int),
        digit_char((n / 256 % 16) as int),
        digit_char((n / 16 % 16) as int),
        digit_char((n % 16) as int),
    ]
}

/// Whether `c` is a digit in the given radix.
pub open spec fn is_digit(c: char, radix: nat) -> bool {
    digit_value(c) matches Some(d) && d < radix
}

/// The value of a row of digits.
pub open spec fn digits_value(s: Seq<char>, radix: nat) -> nat
    decreases s.len(),
{
    if s.len() == 0 {
        0
    } else {
        digits_value(s.drop_last(), radix) * radix + digit_value(s.last())->0
    }
}

/// The text without one leading plus sign.
pub open spec fn without_plus(s: Seq<char>) -> Seq<char> {
    if s.len() > 0 && s[0] == '+' {
        s.drop_first()
    } else {
        s
    }
}

/// The sixteen-bit number that a text denotes in the given radix: an optional plus sign, then
/// digits only, at least one, of a value that fits.
pub open spec fn u16_in(s: Seq<char>, radix: nat) -> Option<nat> {
    let digits = without_plus(s);
    if digits.len() > 0 && (forall|i: int|
        0 <= i < digits.len() ==> is_digit(#[trigger] digits[i], radix)) && digits_value(
        digits,
        radix,
    ) <= u16::MAX {
        Some(digits_value(digits, radix))
    } else {
        None
    }
}

/// The value of more digits is no smaller.
proof fn lemma_value_grows(s: Seq<char>, i: int, radix: nat)
    requires
        0 <= i <= s.len(),
        radix >= 1,
    ensures
        digits_value(s.take(i), radix) <= digits_value(s, radix),
    decreases s.len() - i,
{
    if i == s.len() {
        assert(s.take(i) =~= s);
    } else {
        lemma_value_grows(s, i + 1, radix);
        assert(s.take(i + 1).drop_last() =~= s.take(i));
        let v = digits_value(s.take(i), radix);
        assert(v <= v * radix) by (nonlinear_arith)
            requires
                radix >= 1,
        ;
    }
}

/// What `c` stands for as a digit, where that is below `radix`.
pub(crate) fn read_digit(c: char, radix: u32) -> (r: Option<u32>)
    ensures
        r matches Some(d) ==> digit_value(c) == Some(d as nat) && d < radix,
        r is Some == is_digit(c, radix as nat),
{
    let digit: u32 = if '0' <= c && c <= '9' {
        c as u32 - '0' as u32
    } else if 'a' <= c && c <= 'z' {
        c as u32 - 'a' as u32 + 10
    } else if 'A' <= c && c <= 'Z' {
        c as u32 - 'A' as u32 + 10
    } else {
        return None;
    };
    if digit < radix {
        Some(digit)
    } else {
        None
    }
}

/// The sixteen-bit number that `chars` denote in the given radix.
pub fn parse_u16(chars: &Vec<char>, radix: u32) -> (r: Option<u16>)
    requires
        2 <= radix <= 36,
    ensures
        r matches Some(n) ==> u16_in(chars@, radix as nat) == Some(n as nat),
        r is None ==> u16_in(chars@, radix as nat) is None,
{
    let first: usize = if chars.len() > 0 && chars[0] == '+' {
        1
    } else {
        0
    };
    let ghost digits = without_plus(chars@);
    assert(digits =~= chars@.skip(first as int));
    if first == chars.len() {
        return None;
    }
    let mut value: u32 = 0;
    let mut i: usize = first;
    while i < chars.len()
        invariant
            2 <= radix <= 36,
            digits == without_plus(chars@),
            digits == chars@.skip(first as int),
            first <= i <= chars@.len(),
            value <= u16::MAX,
            value == digits_value(digits.take(i - first), radix as nat),
            forall|k: int| 0 <= k < i - first ==> is_digit(#[trigger] digits[k], radix as nat),
        decreases chars@.len() - i,
    {
        assert(digits[i - first] == chars@[i as int]);
        proof {
            assert(digits.take(i - first + 1).drop_last() =~= digits.take(i - first));
            assert(digits.take(i - first + 1).last() == chars@[i as int]);
        }
        match read_digit(chars[i], radix) {
            Some(digit) => {
                assert(value * radix <= 65535 * 36) by (nonlinear_arith)
                    requires
                        value <= 65535,
                        radix <= 36,
                ;
                value = value * radix + digit;
                if value > 65535 {
                    proof {
                        lemma_value_grows(digits, i - first + 1, radix as nat);
                    }
                    return None;
                }
            },
            None => {
                return None;
            },
        }
        i += 1;
    }
    assert(digits.take(digits.len() as int) =~= digits);
    Some(value as u16)
}

/// The character of a digit below thirty-six.
pub(crate) fn show_digit(digit: u8) -> (c: char)
    requires
        digit < 36,
    ensures
        c == digit_char(digit as int),
{
    if digit < 10 {
        (0x30 + digit) as char
    } else {
        (0x61 + (digit - 10)) as char
    }
}

/// `n` in decimal notation.
pub fn decimal(n: u64) -> (text: String)
    ensures
        text@ == decimal_text(n as nat),
    decreases n,
{
    let mut text = if n < 10 {
        String::new()
    } else {
        decimal(n / 10)
    };
    text.push(show_digit((n % 10) as u8));
    assert(n < 10 ==> text@ =~= decimal_text(n as nat));
    text
}

/// `n` in hexadecimal notation, filled up with zeros to four digits.
pub fn hex4(n: u16) -> (text: String)
    ensures
        text@ == hex4_text(n),
{
    let mut text = String::new();
    text.push(show_digit((n / 4096) as u8));
    text.push(show_digit((n / 256 % 16) as u8));
    text.push(show_digit((n / 16 % 16) as u8));
    text.push(show_digit((n % 16) as u8));
    assert(text@ =~= hex4_text(n));
    text
}

} // verus!
