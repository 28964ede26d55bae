//! What holds of numbers in text.
use vstd::prelude::*;

use crate::guarantees::words::{lemma_end, lemma_start, small};
use crate::number::{
    decimal_text, digit_value, digits_value, hex4_text, is_digit, u16_in, without_plus,
};
use crate::text::{is_white_space, lower, trimmed, trimmed_end, trimmed_start};
use crate::usb_id::{after_last_colon, denotes_id, id_digits, without_0x};

verus! {

/// What a character counts as a digit of the given radix.
pub open spec fn digit_in(c: char, radix: nat) -> Option<nat> {
    let code = c as u32;
    let digit = if 48 <= code <= 57 {
        code - 48
    } else if 97 <= code <= 122 {
        code - 87
    } else if 65 <= code <= 90 {
        code - 55
    } else {
        36
    };
    if digit < radix {
        Some(digit as nat)
    } else {
        None
    }
}

/// Numbers are read by place value: one digit has its own value, one more digit makes the number
/// so many times as large and adds its value, and what is no digit, or makes the number too large,
/// leaves no number.
pub proof fn numbers_are_read_by_place_value(s: Seq<char>, c: char, radix: nat)
    requires
        2 <= radix <= 36,
        s.len() > 0 ==> s[0] != '+',
    ensures
        u16_in(seq![], radix) is None,
        u16_in(seq![c], radix) == digit_in(c, radix),
        s.len() > 0 ==> u16_in(s.push(c), radix) == match (u16_in(s, radix), digit_in(c, radix)) {
            (Some(value), Some(digit)) => if value * radix + digit <= 65535 {
                Some((value * radix + digit) as nat)
            } else {
                None
            },
            _ => None,
        },
{
    let one = seq![c];
    assert(one.drop_last() =~= Seq::<char>::empty());
    assert(one.drop_first() =~= Seq::<char>::empty());
    assert(one.last() == c);
    assert(digits_value(Seq::<char>::empty(), radix) == 0);
    assert(digits_value(one, radix) == digits_value(one.drop_last(), radix) * radix
        + digit_value(c)->0);
    assert(0 * radix == 0) by (nonlinear_arith);
    assert(is_digit(c, radix) == (digit_in(c, radix) is Some));
    assert(one[0] == c);
    if s.len() > 0 {
        let more = s.push(c);
        assert(more.drop_last() =~= s);
        assert(more.last() == c);
        assert(more[0] == s[0]);
        assert(without_plus(more) == more);
        assert(without_plus(s) == s);
        let all_s = forall|i: int| 0 <= i < s.len() ==> is_digit(#[trigger] s[i], radix);
        let all_more = forall|i: int| 0 <= i < more.len() ==> is_digit(#[trigger] more[i], radix);
        if all_more {
            assert forall|i: int| 0 <= i < s.len() implies is_digit(#[trigger] s[i], radix) by {
                assert(more[i] == s[i]);
            }
            assert(more[more.len() - 1] == c);
        }
        if all_s && is_digit(c, radix) {
            assert forall|i: int| 0 <= i < more.len() implies is_digit(
                #[trigger] more[i],
                radix,
            ) by {
                if i < s.len() {
                    assert(more[i] == s[i]);
                }
            }
        }
        let v = digits_value(s, radix);
        assert(v > 65535 ==> v * radix > 65535) by (nonlinear_arith)
            requires
                radix >= 2,
        ;
    }
}

/// One plus sign in front of a number changes nothing, and a second one leaves no number.
pub proof fn one_plus_sign_does_not_count(s: Seq<char>, radix: nat)
    requires
        2 <= radix <= 36,
    ensures
        u16_in(seq!['+'] + s, radix) == if s.len() > 0 && s[0] == '+' {
            None
        } else {
            u16_in(s, radix)
        },
{
    let signed = seq!['+'] + s;
    assert(signed.drop_first() =~= s);
    if s.len() > 0 && s[0] == '+' {
        assert(!is_digit(s[0], radix));
    }
}

/// White space around a device number does not count, nor does the case of its letters.
pub proof fn space_and_case_do_not_count_in_ids(
    before: Seq<char>,
    s: Seq<char>,
    behind: Seq<char>,
    n: u16,
)
    requires
        forall|i: int| 0 <= i < before.len() ==> is_white_space(#[trigger] before[i]),
        forall|i: int| 0 <= i < behind.len() ==> is_white_space(#[trigger] behind[i]),
    ensures
        denotes_id(before + s + behind, n) == denotes_id(s, n),
        denotes_id(s.map_values(|c: char| small(c)), n) == denotes_id(s, n),
{
    lemma_start(before, s + behind);
    assert(before + s + behind =~= before + (s + behind));
    lemma_trimmed_of_spaced(s, behind);
    lemma_small_trimmed(s);
    let small_s = s.map_values(|c: char| small(c));
    assert(trimmed(small_s).map_values(|c: char| lower(c)) =~= trimmed(s).map_values(
        |c: char| lower(c),
    ));
}

/// White space behind a text does not count when it is trimmed.
proof fn lemma_trimmed_of_spaced(s: Seq<char>, space: Seq<char>)
    requires
        forall|i: int| 0 <= i < space.len() ==> is_white_space(#[trigger] space[i]),
    ensures
        trimmed(s + space) == trimmed(s),
    decreases s.len(),
{
    if s.len() > 0 && is_white_space(s[0]) {
        assert((s + space)[0] == s[0]);
        assert((s + space).drop_first() =~= s.drop_first() + space);
        lemma_trimmed_of_spaced(s.drop_first(), space);
    } else if s.len() > 0 {
        assert((s + space)[0] == s[0]);
        lemma_end(s, space);
    } else {
        assert(s + space =~= space);
        assert(space + s =~= space);
        lemma_start(space, s);
        assert(trimmed_start(s) =~= s);
        assert(trimmed_end(s) =~= s);
    }
}

/// Small letters are trimmed alike.
proof fn lemma_small_trimmed(s: Seq<char>)
    ensures
        trimmed(s.map_values(|c: char| small(c))) == trimmed(s).map_values(|c: char| small(c)),
    decreases s.len(),
{
    let f = |c: char| small(c);
    if s.len() > 0 && is_white_space(s[0]) {
        assert(s.map_values(f)[0] == s[0]);
        assert(s.map_values(f).drop_first() =~= s.drop_first().map_values(f));
        lemma_small_trimmed(s.drop_first());
    } else {
        if s.len() > 0 {
            assert(!is_white_space(s.map_values(f)[0]));
        }
        lemma_small_trimmed_end(s);
    }
}

/// Small letters are trimmed alike at the end.
proof fn lemma_small_trimmed_end(s: Seq<char>)
    ensures
        trimmed_end(s.map_values(|c: char| small(c))) == trimmed_end(s).map_values(
            |c: char| small(c),
        ),
    decreases s.len(),
{
    let f = |c: char| small(c);
    if s.len() > 0 {
        assert(s.map_values(f).last() == small(s.last()));
        if is_white_space(s.last()) {
            assert(s.map_values(f).drop_last() =~= s.drop_last().map_values(f));
            lemma_small_trimmed_end(s.drop_last());
        }
    }
}

/// Whether a text is the core of a device number: small letters, no colon, and no white space at
/// either end.
pub open spec fn is_core(s: Seq<char>) -> bool {
    &&& s.len() > 0
    &&& !is_white_space(s[0])
    &&& !is_white_space(s.last())
    &&& forall|i: int| 0 <= i < s.len() ==> #[trigger] s[i] != ':' && small(s[i]) == s[i]
}

/// A device number is read in hexadecimal and in decimal notation: behind whatever stands before
/// the last colon, and behind `0x` where it starts with that.
pub proof fn ids_are_read_in_both_notations(bus: Seq<char>, core: Seq<char>, n: u16)
    requires
        is_core(core),
    ensures
        denotes_id(bus + seq![':'] + core, n) == denotes_id(core, n),
        !(core.len() >= 2 && core[0] == '0' && core[1] == 'x') ==> (denotes_id(core, n) <==> u16_in(
            core,
            16,
        ) == Some(n as nat) || u16_in(core, 10) == Some(n as nat)),
        (denotes_id(seq!['0', 'x'] + core, n) <==> u16_in(core, 16) == Some(n as nat) || u16_in(
            core,
            10,
        ) == Some(n as nat)),
{
    let none = Seq::<char>::empty();
    lemma_core(none, core);
    let marked = seq!['0', 'x'] + core;
    assert forall|i: int| 0 <= i < marked.len() implies #[trigger] marked[i] != ':' && small(
        marked[i],
    ) == marked[i] by {
        if i >= 2 {
            assert(marked[i] == core[i - 2]);
        }
    }
    assert(marked.last() == core.last());
    lemma_core(none, marked);
    assert(marked.skip(2) =~= core);
    lemma_core(bus + seq![':'], core);
    assert(bus + seq![':'] + core =~= (bus + seq![':']) + core);
}

/// What is left of a prefix that ends in a colon, or of none, and a core.
proof fn lemma_core(prefix: Seq<char>, core: Seq<char>)
    requires
        is_core(core),
        prefix.len() > 0 ==> prefix.last() == ':',
    ensures
        id_digits(prefix + core) == without_0x(core),
{
    let f = |c: char| lower(c);
    let s = prefix + core;
    assert(s.last() == core.last());
    lemma_start_keeps_core(prefix, core);
    let kept = choose|k: Seq<char>|
        trimmed_start(s) == #[trigger] (k + core) && (k.len() > 0 ==> k.last() == ':');
    assert(trimmed_start(s) == kept + core);
    assert((kept + core).last() == core.last());
    assert(trimmed_end(kept + core) == kept + core);
    assert(trimmed(s) == kept + core);
    assert((kept + core).map_values(f) =~= kept.map_values(f) + core) by {
        assert forall|i: int| 0 <= i < core.len() implies lower(#[trigger] core[i]) == core[i] by {
            assert(small(core[i]) == core[i]);
        }
    }
    let front = kept.map_values(f);
    if front.len() > 0 {
        assert(front.last() == ':');
    }
    lemma_behind_colon(front, core, core.len() as int);
    assert(core.take(core.len() as int) =~= core);
}

/// Trimming at the start leaves a core, with what is left of its prefix.
proof fn lemma_start_keeps_core(prefix: Seq<char>, core: Seq<char>)
    requires
        is_core(core),
        prefix.len() > 0 ==> prefix.last() == ':',
    ensures
        exists|k: Seq<char>|
            trimmed_start(prefix + core) == #[trigger] (k + core) && (k.len() > 0 ==> k.last()
                == ':'),
    decreases prefix.len(),
{
    let s = prefix + core;
    if prefix.len() == 0 {
        assert(s =~= core);
        assert(trimmed_start(s) == prefix + core);
    } else if is_white_space(prefix[0]) {
        assert(s[0] == prefix[0]);
        assert(prefix.len() > 1);
        let rest = prefix.drop_first();
        assert(s.drop_first() =~= rest + core);
        assert(rest.last() == prefix.last());
        lemma_start_keeps_core(rest, core);
        let k = choose|k: Seq<char>|
            trimmed_start(rest + core) == #[trigger] (k + core) && (k.len() > 0 ==> k.last()
                == ':');
        assert(trimmed_start(s) == k + core);
    } else {
        assert(s[0] == prefix[0]);
        assert(trimmed_start(s) == prefix + core);
    }
}

/// What stands behind the last colon.
proof fn lemma_behind_colon(front: Seq<char>, core: Seq<char>, n: int)
    requires
        is_core(core),
        front.len() > 0 ==> front.last() == ':',
        0 <= n <= core.len(),
    ensures
        after_last_colon(front + core.take(n)) == core.take(n),
    decreases n,
{
    let s = front + core.take(n);
    if n == 0 {
        assert(s =~= front);
        assert(core.take(0) =~= Seq::<char>::empty());
    } else {
        lemma_behind_colon(front, core, n - 1);
        assert(s.drop_last() =~= front + core.take(n - 1));
        assert(s.last() == core[n - 1]);
        assert(core[n - 1] != ':');
        assert(core.take(n - 1).push(core[n - 1]) =~= core.take(n));
    }
}

/// A number in decimal notation is read back as itself, and has no more digits than it needs.
pub proof fn decimal_notation_reads_back(n: nat)
    ensures
        n <= 65535 ==> u16_in(decimal_text(n), 10) == Some(n),
        decimal_text(n).len() > 0,
        n < 10 ==> decimal_text(n) == seq![(48 + n) as char],
        n >= 10 ==> decimal_text(n) == decimal_text(n / 10).push((48 + n % 10) as char),
        decimal_text(n)[0] != '+',
    decreases n,
{
    if n < 10 {
        numbers_are_read_by_place_value(seq![], (48 + n) as char, 10);
    } else {
        decimal_notation_reads_back(n / 10);
        numbers_are_read_by_place_value(decimal_text(n / 10), (48 + n % 10) as char, 10);
    }
}

/// A number in hexadecimal notation has four digits and is read back as itself.
pub proof fn hexadecimal_notation_reads_back(n: u16)
    ensures
        hex4_text(n).len() == 4,
        u16_in(hex4_text(n), 16) == Some(n as nat),
        forall|i: int|
            0 <= i < 4 ==> small(#[trigger] hex4_text(n)[i]) == hex4_text(n)[i],
{
    let s = hex4_text(n);
    let a = seq![s[0]];
    let b = a.push(s[1]);
    let c = b.push(s[2]);
    assert(c.push(s[3]) =~= s);
    numbers_are_read_by_place_value(seq![], s[0], 16);
    numbers_are_read_by_place_value(a, s[1], 16);
    numbers_are_read_by_place_value(b, s[2], 16);
    numbers_are_read_by_place_value(c, s[3], 16);
    assert(n / 4096 < 16);
    assert((n / 4096) * 16 + n / 256 % 16 == n / 256);
    assert((n / 256) * 16 + n / 16 % 16 == n / 16);
    assert((n / 16) * 16 + n % 16 == n);
}

} // verus!
