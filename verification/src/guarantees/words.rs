//! What holds of text: its words, its parts, and the white space around it.
use vstd::prelude::*;

use crate::text::{
    has_part, is_nonempty_equal, is_normalized_equal, is_optional_normalized_equal, is_white_space,
    is_word_char, joined, lemma_words_nonempty, lower, normalized, part_at, trimmed, trimmed_end,
    trimmed_start, words,
};

verus! {

/// Whether a character is an ASCII letter or digit.
pub open spec fn is_alphanumeric(c: char) -> bool {
    ('0' <= c && c <= '9') || ('A' <= c && c <= 'Z') || ('a' <= c && c <= 'z')
}

/// A character with an ASCII capital made small.
pub open spec fn small(c: char) -> char {
    if 'A' <= c && c <= 'Z' {
        (c as u32 + 32) as char
    } else {
        c
    }
}

/// Letters and digits in a row are one word, and normalising only makes its capitals small.
pub proof fn letters_and_digits_are_one_word(s: Seq<char>)
    requires
        forall|i: int| 0 <= i < s.len() ==> is_alphanumeric(#[trigger] s[i]),
    ensures
        normalized(s) == s.map_values(|c: char| small(c)),
{
    lemma_one_word(s);
    if s.len() > 0 {
        assert(normalized(s) =~= s.map_values(|c: char| small(c)));
    } else {
        assert(words(s) =~= seq![]);
        assert(normalized(s) =~= s.map_values(|c: char| small(c)));
    }
}

/// The words of letters and digits in a row.
proof fn lemma_one_word(s: Seq<char>)
    requires
        forall|i: int| 0 <= i < s.len() ==> is_alphanumeric(#[trigger] s[i]),
    ensures
        s.len() > 0 ==> words(s) == seq![s.map_values(|c: char| small(c))],
    decreases s.len(),
{
    if s.len() > 0 {
        let before = s.drop_last();
        assert forall|i: int| 0 <= i < before.len() implies is_alphanumeric(#[trigger] before[i]) by {
            assert(before[i] == s[i]);
        }
        assert(is_alphanumeric(s[s.len() - 1]));
        lemma_one_word(before);
        let small_s = s.map_values(|c: char| small(c));
        if s.len() >= 2 {
            assert(is_alphanumeric(s[s.len() - 2]));
            let w = before.map_values(|c: char| small(c));
            assert(words(before) == seq![w]);
            assert(w.push(lower(s.last())) =~= small_s);
            let prior = words(before);
            assert(prior.drop_last() =~= Seq::<Seq<char>>::empty());
            assert(prior.last() == w);
            assert(is_word_char(s.last()) && is_word_char(s[s.len() - 2]));
            assert(words(s) == prior.drop_last().push(prior.last().push(lower(s.last()))));
            assert(words(s) =~= seq![small_s]);
        } else {
            assert(before.len() == 0);
            assert(words(before) =~= Seq::<Seq<char>>::empty());
            assert(seq![lower(s.last())] =~= small_s);
            assert(words(s) =~= seq![small_s]);
        }
    }
}

/// Any other character parts the words before it from those behind it, whatever the two texts are:
/// normalised text has a single space there, and none where one of the sides has no word.
pub proof fn other_characters_part_words(before: Seq<char>, c: char, behind: Seq<char>)
    requires
        !is_alphanumeric(c),
    ensures
        normalized(before + seq![c] + behind) == if normalized(before).len() == 0 {
            normalized(behind)
        } else if normalized(behind).len() == 0 {
            normalized(before)
        } else {
            normalized(before) + seq![' '] + normalized(behind)
        },
{
    lemma_words_of_both(before, c, behind);
    lemma_joined_of_both(words(before), words(behind));
    lemma_no_words(before);
    lemma_no_words(behind);
}

/// The words of two texts with another character in between.
proof fn lemma_words_of_both(before: Seq<char>, c: char, behind: Seq<char>)
    requires
        !is_alphanumeric(c),
    ensures
        words(before + seq![c] + behind) == words(before) + words(behind),
    decreases behind.len(),
{
    let all = before + seq![c] + behind;
    if behind.len() == 0 {
        assert(all.drop_last() =~= before);
        assert(all.last() == c);
        assert(words(before) + words(behind) =~= words(before));
    } else {
        let rest = behind.drop_last();
        lemma_words_of_both(before, c, rest);
        assert(all.drop_last() =~= before + seq![c] + rest);
        assert(all.last() == behind.last());
        let last = behind.last();
        if is_word_char(last) {
            if behind.len() >= 2 {
                assert(all[all.len() - 2] == behind[behind.len() - 2]);
                if is_word_char(behind[behind.len() - 2]) {
                    lemma_words_nonempty(rest);
                    assert(words(all) =~= words(before) + words(behind));
                } else {
                    assert(words(all) =~= words(before) + words(behind));
                }
            } else {
                assert(all[all.len() - 2] == c);
                assert(words(rest) =~= Seq::<Seq<char>>::empty());
                assert(words(all) =~= words(before) + words(behind));
            }
        }
    }
}

/// Two rows of words, joined.
proof fn lemma_joined_of_both(a: Seq<Seq<char>>, b: Seq<Seq<char>>)
    ensures
        joined(a + b, seq![' ']) == if a.len() == 0 {
            joined(b, seq![' '])
        } else if b.len() == 0 {
            joined(a, seq![' '])
        } else {
            joined(a, seq![' ']) + seq![' '] + joined(b, seq![' '])
        },
    decreases b.len(),
{
    if a.len() == 0 {
        assert(a + b =~= b);
    } else if b.len() == 0 {
        assert(a + b =~= a);
    } else {
        assert((a + b).drop_last() =~= a + b.drop_last());
        assert((a + b).last() == b.last());
        lemma_joined_of_both(a, b.drop_last());
        if b.len() == 1 {
            assert(b[0] == b.last());
            assert(a + b.drop_last() =~= a);
        } else {
            assert(joined(a + b, seq![' ']) =~= joined(a, seq![' ']) + seq![' '] + joined(
                b,
                seq![' '],
            ));
        }
    }
}

/// Normalised text is empty only where there are no words.
proof fn lemma_no_words(s: Seq<char>)
    ensures
        normalized(s).len() == 0 <==> words(s).len() == 0,
{
    lemma_words_not_empty(s);
    let all = words(s);
    if all.len() == 1 {
        assert(all[0].len() > 0);
    } else if all.len() > 1 {
        assert(all[all.len() - 1].len() > 0);
    }
}

/// No word is empty.
proof fn lemma_words_not_empty(s: Seq<char>)
    ensures
        forall|k: int| 0 <= k < words(s).len() ==> (#[trigger] words(s)[k]).len() > 0,
    decreases s.len(),
{
    if s.len() > 0 {
        let before = s.drop_last();
        lemma_words_not_empty(before);
        if is_word_char(s.last()) && s.len() >= 2 && is_word_char(s[s.len() - 2]) {
            lemma_words_nonempty(before);
        }
        assert forall|k: int| 0 <= k < words(s).len() implies (#[trigger] words(s)[k]).len() > 0 by {
            if k < words(before).len() - 1 {
                assert(words(s)[k] == words(before)[k]);
            } else if k < words(before).len() {
                assert(words(before)[k].len() > 0);
            }
        }
    }
}

/// A part is found wherever it stands, whatever is around it; and where it is found, the text is
/// made of what stands before it, the part itself, and what stands behind it.
pub proof fn parts_are_found_anywhere(
    before: Seq<char>,
    part: Seq<char>,
    behind: Seq<char>,
    s: Seq<char>,
)
    ensures
        has_part(before + part + behind, part),
        has_part(s, part) ==> exists|a: Seq<char>, b: Seq<char>| s == #[trigger] (a + part + b),
{
    let all = before + part + behind;
    assert(all.subrange(before.len() as int, (before.len() + part.len()) as int) =~= part);
    assert(part_at(all, part, before.len() as int));
    if has_part(s, part) {
        let i = choose|i: int| #[trigger] part_at(s, part, i);
        let a = s.take(i);
        let b = s.skip(i + part.len());
        assert(s =~= a + part + b);
    }
}

/// White space is taken off at both ends, all of it and nothing else.
pub proof fn white_space_is_taken_off_at_both_ends(
    before: Seq<char>,
    core: Seq<char>,
    behind: Seq<char>,
)
    requires
        forall|i: int| 0 <= i < before.len() ==> is_white_space(#[trigger] before[i]),
        forall|i: int| 0 <= i < behind.len() ==> is_white_space(#[trigger] behind[i]),
        core.len() > 0 ==> !is_white_space(core[0]) && !is_white_space(core.last()),
    ensures
        trimmed(before + core + behind) == core,
{
    lemma_start(before, core + behind);
    assert(before + core + behind =~= before + (core + behind));
    if core.len() > 0 {
        assert((core + behind)[0] == core[0]);
        lemma_end(core, behind);
    } else {
        assert(core + behind =~= behind);
        lemma_start(behind, core);
        assert(behind + core =~= behind);
        assert(trimmed_start(core) =~= core);
        assert(trimmed_end(core) =~= core);
    }
}

/// Nothing is left of a text only if it is white space throughout.
pub proof fn only_white_space_is_blank(s: Seq<char>)
    ensures
        trimmed(s).len() == 0 <==> forall|i: int|
            0 <= i < s.len() ==> is_white_space(#[trigger] s[i]),
{
    let none = Seq::<char>::empty();
    if forall|i: int| 0 <= i < s.len() ==> is_white_space(#[trigger] s[i]) {
        assert(s + none + none =~= s);
        white_space_is_taken_off_at_both_ends(s, none, none);
    } else {
        lemma_something_is_left(s);
    }
}

/// What is not white space throughout does not vanish.
proof fn lemma_something_is_left(s: Seq<char>)
    requires
        exists|i: int| 0 <= i < s.len() && !is_white_space(#[trigger] s[i]),
    ensures
        trimmed(s).len() > 0,
    decreases s.len(),
{
    let i = choose|i: int| 0 <= i < s.len() && !is_white_space(#[trigger] s[i]);
    if is_white_space(s[0]) {
        assert(s.drop_first()[i - 1] == s[i]);
        lemma_something_is_left(s.drop_first());
    } else {
        lemma_end_is_left(s);
    }
}

/// What starts with another character does not vanish at its end.
proof fn lemma_end_is_left(s: Seq<char>)
    requires
        s.len() > 0,
        !is_white_space(s[0]),
    ensures
        trimmed_end(s).len() > 0,
    decreases s.len(),
{
    if is_white_space(s.last()) {
        assert(s.len() > 1);
        assert(s.drop_last()[0] == s[0]);
        lemma_end_is_left(s.drop_last());
    }
}

/// White space at the start does not count.
pub(crate) proof fn lemma_start(space: Seq<char>, s: Seq<char>)
    requires
        forall|i: int| 0 <= i < space.len() ==> is_white_space(#[trigger] space[i]),
    ensures
        trimmed_start(space + s) == trimmed_start(s),
    decreases space.len(),
{
    if space.len() == 0 {
        assert(space + s =~= s);
    } else {
        let rest = space.drop_first();
        assert forall|i: int| 0 <= i < rest.len() implies is_white_space(#[trigger] rest[i]) by {
            assert(rest[i] == space[i + 1]);
        }
        assert((space + s).drop_first() =~= rest + s);
        lemma_start(rest, s);
        assert((space + s)[0] == space[0]);
        assert(is_white_space(space[0]));
    }
}

/// White space at the end does not count.
pub(crate) proof fn lemma_end(s: Seq<char>, space: Seq<char>)
    requires
        forall|i: int| 0 <= i < space.len() ==> is_white_space(#[trigger] space[i]),
    ensures
        trimmed_end(s + space) == trimmed_end(s),
    decreases space.len(),
{
    if space.len() == 0 {
        assert(s + space =~= s);
    } else {
        let rest = space.drop_last();
        assert forall|i: int| 0 <= i < rest.len() implies is_white_space(#[trigger] rest[i]) by {
            assert(rest[i] == space[i]);
        }
        assert((s + space).drop_last() =~= s + rest);
        lemma_end(s, rest);
        assert((s + space).last() == space.last());
        assert(is_white_space(space[space.len() - 1]));
    }
}

/// Texts that are not there are never equal to anything; texts that are there are equal if they
/// are the same and not empty, or have the same words and at least one.
pub proof fn only_what_is_there_can_be_equal(a: Seq<char>, b: Seq<char>, other: Option<Seq<char>>)
    ensures
        is_nonempty_equal(Some(a), Some(b)) <==> a == b && a.len() > 0,
        !is_nonempty_equal(None, other),
        !is_nonempty_equal(other, None),
        is_normalized_equal(a, b) <==> normalized(a) == normalized(b) && normalized(b).len() > 0,
        is_optional_normalized_equal(Some(a), Some(b)) <==> normalized(a) == normalized(b)
            && normalized(b).len() > 0,
        !is_optional_normalized_equal(None, other),
        !is_optional_normalized_equal(other, None),
{
}

} // verus!
