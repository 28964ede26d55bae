//! What holds of names and numbers in text.
use vstd::prelude::*;

use crate::number::{decimal_text, digit_value, digits_value, hex4_text, is_digit, without_plus};
use crate::selection::is_headset;
use crate::sink::SinkView;
use crate::text::{
    is_normalized_equal, is_white_space, is_word_char, joined, lemma_words_nonempty, lower,
    normalized, trimmed, trimmed_start, words,
};
use crate::usb_id::{
    after_last_colon, denotes_id, id_digits, without_0x, CLOUD_III_S_PRODUCT_IDS, HYPERX_VENDOR_ID,
};

verus! {

/// Whether a word is one that stands in normalised text: small letters and digits, at least one.
pub open spec fn is_plain_word(word: Seq<char>) -> bool {
    word.len() > 0 && forall|i: int|
        0 <= i < word.len() ==> is_word_char(#[trigger] word[i]) && lower(word[i]) == word[i]
}

/// Words are plain.
proof fn lemma_words_are_plain(s: Seq<char>)
    ensures
        forall|k: int| 0 <= k < words(s).len() ==> is_plain_word(#[trigger] words(s)[k]),
    decreases s.len(),
{
    if s.len() > 0 {
        let before = s.drop_last();
        lemma_words_are_plain(before);
        let all = words(s);
        assert forall|k: int| 0 <= k < all.len() implies is_plain_word(#[trigger] all[k]) by {
            if is_word_char(s.last()) {
                if s.len() >= 2 && is_word_char(s[s.len() - 2]) {
                    assert(before.last() == s[s.len() - 2]);
                    lemma_words_nonempty(before);
                    let last = words(before).last();
                    assert(is_plain_word(words(before)[words(before).len() - 1]));
                    if k == all.len() - 1 {
                        assert(all[k] == last.push(lower(s.last())));
                        assert forall|i: int| 0 <= i < all[k].len() implies is_word_char(
                            #[trigger] all[k][i],
                        ) && lower(all[k][i]) == all[k][i] by {
                            if i < last.len() {
                                assert(all[k][i] == last[i]);
                            }
                        }
                    } else {
                        assert(all[k] == words(before)[k]);
                    }
                } else if k == all.len() - 1 {
                    assert(all[k] == seq![lower(s.last())]);
                } else {
                    assert(all[k] == words(before)[k]);
                }
            } else {
                assert(all[k] == words(before)[k]);
            }
        }
    }
}

/// A plain word behind a text that does not end inside a word is one more word.
proof fn lemma_words_of_sum(text: Seq<char>, word: Seq<char>)
    requires
        is_plain_word(word),
        text.len() == 0 || !is_word_char(text.last()),
    ensures
        words(text + word) == words(text).push(word),
    decreases word.len(),
{
    let sum = text + word;
    let c = word.last();
    assert(is_word_char(word[word.len() - 1]) && lower(word[word.len() - 1]) == c);
    assert(sum.last() == c);
    if word.len() == 1 {
        assert(sum.drop_last() =~= text);
        assert(word =~= seq![lower(c)]);
        if sum.len() >= 2 {
            assert(sum[sum.len() - 2] == text.last());
        }
    } else {
        let shorter = word.drop_last();
        assert forall|i: int| 0 <= i < shorter.len() implies is_word_char(#[trigger] shorter[i])
            && lower(shorter[i]) == shorter[i] by {
            assert(shorter[i] == word[i]);
        }
        lemma_words_of_sum(text, shorter);
        assert(sum.drop_last() =~= text + shorter);
        assert(sum[sum.len() - 2] == word[word.len() - 2]);
        let before = words(text + shorter);
        assert(before.last() == shorter);
        assert(before.drop_last() =~= words(text));
        assert(shorter.push(c) =~= word);
    }
}

/// Plain words joined by spaces are the words of the text that comes out.
proof fn lemma_words_of_joined(parts: Seq<Seq<char>>)
    requires
        forall|k: int| 0 <= k < parts.len() ==> is_plain_word(#[trigger] parts[k]),
    ensures
        words(joined(parts, seq![' '])) == parts,
    decreases parts.len(),
{
    if parts.len() == 0 {
        assert(joined(parts, seq![' ']) =~= seq![]);
        assert(words(joined(parts, seq![' '])) =~= parts);
    } else if parts.len() == 1 {
        assert(is_plain_word(parts[0]));
        let empty: Seq<char> = seq![];
        lemma_words_of_sum(empty, parts[0]);
        assert(empty + parts[0] =~= parts[0]);
        assert(words(empty) =~= seq![]);
        assert(words(parts[0]) =~= parts);
    } else {
        let before = parts.drop_last();
        assert forall|k: int| 0 <= k < before.len() implies is_plain_word(#[trigger] before[k]) by {
            assert(before[k] == parts[k]);
        }
        lemma_words_of_joined(before);
        let text = joined(before, seq![' ']) + seq![' '];
        assert(text.drop_last() =~= joined(before, seq![' ']));
        assert(words(text) == before);
        assert(is_plain_word(parts[parts.len() - 1]));
        lemma_words_of_sum(text, parts.last());
        assert(joined(parts, seq![' ']) =~= text + parts.last());
        assert(before.push(parts.last()) =~= parts);
    }
}

/// Normalising a text keeps its words, so normalising it again changes nothing.
pub proof fn normalizing_is_idempotent(s: Seq<char>)
    ensures
        words(normalized(s)) == words(s),
        normalized(normalized(s)) == normalized(s),
{
    lemma_words_are_plain(s);
    lemma_words_of_joined(words(s));
}

/// Capitals do not count.
pub proof fn normalizing_ignores_case(s: Seq<char>)
    ensures
        normalized(s.map_values(|c: char| lower(c))) == normalized(s),
{
    lemma_case(s);
}

/// The words of a text in small letters are its words.
proof fn lemma_case(s: Seq<char>)
    ensures
        words(s.map_values(|c: char| lower(c))) == words(s),
    decreases s.len(),
{
    let small = s.map_values(|c: char| lower(c));
    if s.len() > 0 {
        lemma_case(s.drop_last());
        assert(small.drop_last() =~= s.drop_last().map_values(|c: char| lower(c)));
        assert(small.last() == lower(s.last()));
        assert(is_word_char(small.last()) == is_word_char(s.last()));
        if s.len() >= 2 {
            assert(small[s.len() - 2] == lower(s[s.len() - 2]));
        }
    }
}

/// Having the same words is symmetric and transitive, and holds of a text and itself if it has a
/// word.
pub proof fn same_words_is_an_equivalence(a: Seq<char>, b: Seq<char>, c: Seq<char>)
    ensures
        is_normalized_equal(a, b) == is_normalized_equal(b, a),
        is_normalized_equal(a, b) && is_normalized_equal(b, c) ==> is_normalized_equal(a, c),
        normalized(a).len() > 0 ==> is_normalized_equal(a, a),
{
}

/// Whether a text is made of digits, at least one.
pub open spec fn is_number(s: Seq<char>, radix: nat) -> bool {
    s.len() > 0 && forall|i: int| 0 <= i < s.len() ==> is_digit(#[trigger] s[i], radix)
}

/// Decimal notation is made of digits and has the value of the number.
proof fn lemma_decimal(n: nat)
    ensures
        is_number(decimal_text(n), 10),
        digits_value(decimal_text(n), 10) == n,
    decreases n,
{
    let text = decimal_text(n);
    if n < 10 {
        assert(text.drop_last() =~= seq![]);
        assert(digits_value(text.drop_last(), 10) == 0);
        assert(digit_value(text[0]) == Some(n));
    } else {
        let before = decimal_text(n / 10);
        lemma_decimal(n / 10);
        assert(text.drop_last() =~= before);
        assert(digit_value(text.last()) == Some(n % 10));
        assert forall|i: int| 0 <= i < text.len() implies is_digit(#[trigger] text[i], 10) by {
            if i < before.len() {
                assert(text[i] == before[i]);
            }
        }
    }
}

/// Hexadecimal notation is made of digits and has the value of the number.
proof fn lemma_hex4(n: u16)
    ensures
        is_number(hex4_text(n), 16),
        digits_value(hex4_text(n), 16) == n,
{
    let text = hex4_text(n);
    let three = text.drop_last();
    let two = three.drop_last();
    let one = two.drop_last();
    assert(one.drop_last() =~= seq![]);
    assert(digits_value(one.drop_last(), 16) == 0);
    assert(digit_value(one.last()) == Some((n / 4096) as nat));
    assert(digit_value(two.last()) == Some((n / 256 % 16) as nat));
    assert(digit_value(three.last()) == Some((n / 16 % 16) as nat));
    assert(digit_value(text.last()) == Some((n % 16) as nat));
    assert(digits_value(one, 16) == n / 4096);
    assert(digits_value(two, 16) == n / 256);
    assert(digits_value(three, 16) == n / 16);
    assert forall|i: int| 0 <= i < text.len() implies is_digit(#[trigger] text[i], 16) by {
        assert(i == 0 || i == 1 || i == 2 || i == 3);
    }
}

/// White space at the start of a text is all in front of its first colon.
proof fn lemma_trimmed_start(prefix: Seq<char>, rest: Seq<char>)
    requires
        rest.len() > 0,
        !is_white_space(rest[0]),
    ensures
        trimmed_start(prefix + rest) == trimmed_start(prefix) + rest,
    decreases prefix.len(),
{
    if prefix.len() > 0 && is_white_space(prefix[0]) {
        lemma_trimmed_start(prefix.drop_first(), rest);
        assert((prefix + rest).drop_first() =~= prefix.drop_first() + rest);
    } else if prefix.len() == 0 {
        assert(prefix + rest =~= rest);
    }
}

/// What stands behind the last colon.
proof fn lemma_after_last_colon(prefix: Seq<char>, rest: Seq<char>)
    requires
        prefix.len() == 0 || prefix.last() == ':',
        forall|i: int| 0 <= i < rest.len() ==> #[trigger] rest[i] != ':',
    ensures
        after_last_colon(prefix + rest) == rest,
    decreases rest.len(),
{
    let sum = prefix + rest;
    if rest.len() == 0 {
        assert(sum =~= prefix);
        assert(after_last_colon(sum) =~= rest);
    } else {
        let shorter = rest.drop_last();
        assert forall|i: int| 0 <= i < shorter.len() implies #[trigger] shorter[i] != ':' by {
            assert(shorter[i] == rest[i]);
        }
        assert(rest[rest.len() - 1] != ':');
        lemma_after_last_colon(prefix, shorter);
        assert(sum.drop_last() =~= prefix + shorter);
        assert(shorter.push(rest.last()) =~= rest);
    }
}

/// The digits of a device number behind a bus prefix, or without one.
proof fn lemma_id_digits(bus: Seq<char>, rest: Seq<char>)
    requires
        rest.len() > 0,
        forall|i: int|
            0 <= i < rest.len() ==> {
                &&& #[trigger] rest[i] != ':'
                &&& !is_white_space(rest[i])
                &&& lower(rest[i]) == rest[i]
            },
    ensures
        id_digits(rest) == without_0x(rest),
        id_digits(bus + seq![':'] + rest) == without_0x(rest),
{
    let f = |c: char| lower(c);
    assert(rest[rest.len() - 1] == rest.last());
    assert(!is_white_space(rest[0]));
    assert(trimmed(rest) == rest);
    assert(rest.map_values(f) =~= rest);
    let empty: Seq<char> = seq![];
    lemma_after_last_colon(empty, rest);
    assert(empty + rest =~= rest);
    let tail = seq![':'] + rest;
    let raw = bus + seq![':'] + rest;
    assert(raw =~= bus + tail);
    lemma_trimmed_start(bus, tail);
    let kept = trimmed_start(bus);
    assert(trimmed_start(raw) =~= kept + tail);
    assert((kept + tail).last() == rest.last());
    assert(trimmed(raw) == kept + tail);
    let prefix = kept.map_values(f).push(':');
    assert((kept + tail).map_values(f) =~= prefix + rest);
    lemma_after_last_colon(prefix, rest);
}

/// A number is read whichever way it is spelt: in four hexadecimal digits, with `0x` in front of
/// them, or in decimal digits; and behind a bus prefix that ends in a colon, or without one.
pub proof fn common_id_formats_are_read(n: u16, bus: Seq<char>)
    ensures
        denotes_id(hex4_text(n), n),
        denotes_id(seq!['0', 'x'] + hex4_text(n), n),
        denotes_id(decimal_text(n as nat), n),
        denotes_id(bus + seq![':'] + hex4_text(n), n),
        denotes_id(bus + seq![':'] + (seq!['0', 'x'] + hex4_text(n)), n),
        denotes_id(bus + seq![':'] + decimal_text(n as nat), n),
{
    let hex = hex4_text(n);
    let marked = seq!['0', 'x'] + hex;
    let decimal = decimal_text(n as nat);
    lemma_hex4(n);
    lemma_decimal(n as nat);
    assert forall|i: int| 0 <= i < hex.len() implies {
        &&& #[trigger] hex[i] != ':'
        &&& !is_white_space(hex[i])
        &&& lower(hex[i]) == hex[i]
        &&& hex[i] != 'x'
        &&& hex[i] != '+'
    } by {
        assert(i == 0 || i == 1 || i == 2 || i == 3);
    }
    assert forall|i: int| 0 <= i < marked.len() implies {
        &&& #[trigger] marked[i] != ':'
        &&& !is_white_space(marked[i])
        &&& lower(marked[i]) == marked[i]
    } by {
        if i >= 2 {
            assert(marked[i] == hex[i - 2]);
        }
    }
    assert forall|i: int| 0 <= i < decimal.len() implies {
        &&& #[trigger] decimal[i] != ':'
        &&& !is_white_space(decimal[i])
        &&& lower(decimal[i]) == decimal[i]
        &&& decimal[i] != 'x'
        &&& decimal[i] != '+'
    } by {
        assert(is_digit(decimal[i], 10));
    }
    lemma_id_digits(bus, hex);
    lemma_id_digits(bus, marked);
    lemma_id_digits(bus, decimal);
    assert(marked.skip(2) =~= hex);
    assert(without_0x(hex) == hex);
    assert(without_0x(marked) == hex);
    assert(without_0x(decimal) == decimal);
    assert(without_plus(hex) == hex);
    assert(decimal[0] != '+');
    assert(without_plus(decimal) == decimal);
}

/// An output with the device numbers of a Cloud III S is the headset's, whatever its name, and
/// however the numbers are spelt.
pub proof fn headset_is_recognized_by_its_numbers(
    sink: SinkView,
    model: int,
    vendor_bus: Seq<char>,
    product_bus: Seq<char>,
)
    requires
        model == 0 || model == 1,
        ({
            let hex = hex4_text(HYPERX_VENDOR_ID);
            ||| sink.vendor_id == Some(hex)
            ||| sink.vendor_id == Some(seq!['0', 'x'] + hex)
            ||| sink.vendor_id == Some(decimal_text(HYPERX_VENDOR_ID as nat))
            ||| sink.vendor_id == Some(vendor_bus + seq![':'] + hex)
        }),
        ({
            let hex = hex4_text(CLOUD_III_S_PRODUCT_IDS@[model]);
            ||| sink.product_id == Some(hex)
            ||| sink.product_id == Some(seq!['0', 'x'] + hex)
            ||| sink.product_id == Some(decimal_text(CLOUD_III_S_PRODUCT_IDS@[model] as nat))
            ||| sink.product_id == Some(product_bus + seq![':'] + hex)
        }),
    ensures
        is_headset(sink),
{
    common_id_formats_are_read(HYPERX_VENDOR_ID, vendor_bus);
    common_id_formats_are_read(CLOUD_III_S_PRODUCT_IDS@[model], product_bus);
}

} // verus!
