//! Text as the daemon compares it: normalised names, substrings, numbers and white space.
use vstd::prelude::*;

verus! {

/// Appends `c` to `s`: `String::push` of the standard library.
pub assume_specification[ String::push ](s: &mut String, c: char)
    ensures
        final(s)@ == old(s)@.push(c),
;

/// The ASCII letters and digits.
pub open spec fn is_word_char(c: char) -> bool {
    ||| '0' <= c <= '9'
    ||| 'a' <= c <= 'z'
    ||| 'A' <= c <= 'Z'
}

/// `c` with an ASCII capital made small.
pub open spec fn lower(c: char) -> char {
    if 'A' <= c <= 'Z' {
        (c as u32 + 32) as char
    } else {
        c
    }
}

/// The words of a text: its maximal runs of ASCII letters and digits, in small letters.
pub open spec fn words(s: Seq<char>) -> Seq<Seq<char>>
    decreases s.len(),
{
    if s.len() == 0 {
        seq![]
    } else {
        let before = words(s.drop_last());
        if !is_word_char(s.last()) {
            before
        } else if s.len() >= 2 && is_word_char(s[s.len() - 2]) {
            before.drop_last().push(before.last().push(lower(s.last())))
        } else {
            before.push(seq![lower(s.last())])
        }
    }
}

/// The parts in order, with one `separator` between neighbours.
pub open spec fn joined(parts: Seq<Seq<char>>, separator: Seq<char>) -> Seq<char>
    decreases parts.len(),
{
    if parts.len() == 0 {
        seq![]
    } else if parts.len() == 1 {
        parts[0]
    } else {
        joined(parts.drop_last(), separator) + separator + parts.last()
    }
}

/// The words of `s` with a single space between neighbours.
pub open spec fn normalized(s: Seq<char>) -> Seq<char> {
    joined(words(s), seq![' '])
}

/// Whether `part` occurs somewhere in `s`.
pub open spec fn has_part(s: Seq<char>, part: Seq<char>) -> bool {
    exists|i: int| #[trigger] part_at(s, part, i)
}

/// Whether `part` stands in `s` from position `i` on.
pub open spec fn part_at(s: Seq<char>, part: Seq<char>, i: int) -> bool {
    0 <= i && i + part.len() <= s.len() && s.subrange(i, i + part.len()) == part
}

/// The characters of `s`.
pub fn chars_of(s: &str) -> (chars: Vec<char>)
    ensures
        chars@ == s@,
{
    let mut chars: Vec<char> = Vec::new();
    for c in it: s.chars()
        invariant
            chars@ == s@.take(it.index() as int),
            it.seq() == s@,
    {
        chars.push(c);
    }
    chars
}

/// `c` in small letters, by ASCII.
pub fn to_lower(c: char) -> (r: char)
    ensures
        r == lower(c),
{
    if 'A' <= c && c <= 'Z' {
        (c as u8 + 32) as char
    } else {
        c
    }
}

/// Appending a word to a text that has one puts a space in between.
proof fn lemma_joined_push(parts: Seq<Seq<char>>, separator: Seq<char>, part: Seq<char>)
    ensures
        parts.len() > 0 ==> joined(parts.push(part), separator) == joined(parts, separator)
            + separator + part,
        parts.len() == 0 ==> joined(parts.push(part), separator) == part,
{
    assert(parts.push(part).drop_last() =~= parts);
}

/// A letter added to the last word is added at the end of the text.
proof fn lemma_joined_grow(parts: Seq<Seq<char>>, separator: Seq<char>, c: char)
    requires
        parts.len() > 0,
    ensures
        joined(parts.drop_last().push(parts.last().push(c)), separator) == joined(
            parts,
            separator,
        ).push(c),
{
    lemma_joined_push(parts.drop_last(), separator, parts.last().push(c));
    assert(parts.drop_last().push(parts.last()) =~= parts);
    lemma_joined_push(parts.drop_last(), separator, parts.last());
    assert(joined(parts.drop_last().push(parts.last().push(c)), separator) =~= joined(
        parts,
        separator,
    ).push(c));
}

/// A text whose last character belongs to a word has a word.
pub(crate) proof fn lemma_words_nonempty(s: Seq<char>)
    requires
        s.len() > 0,
        is_word_char(s.last()),
    ensures
        words(s).len() > 0,
{
}

/// The words of `raw` in small letters, with a single space between neighbours.
pub fn normalize_text(raw: &str) -> (text: String)
    ensures
        text@ == normalized(raw@),
{
    let mut text = String::new();
    let mut in_word: bool = false;
    let mut has_words: bool = false;
    for c in it: raw.chars()
        invariant
            it.seq() == raw@,
            text@ == normalized(raw@.take(it.index() as int)),
            has_words == (words(raw@.take(it.index() as int)).len() > 0),
            in_word == (it.index() > 0 && is_word_char(raw@[it.index() - 1])),
    {
        let ghost seen = raw@.take(it.index() as int);
        proof {
            let next = raw@.take(it.index() + 1);
            assert(next.drop_last() =~= seen);
            assert(next.last() == c);
            if in_word {
                lemma_words_nonempty(seen);
                lemma_joined_grow(words(seen), seq![' '], lower(c));
            }
            lemma_joined_push(words(seen), seq![' '], seq![lower(c)]);
        }
        let ghost before = text@;
        if is_ascii_word_char(c) {
            if !in_word && has_words {
                text.push(' ');
            }
            text.push(to_lower(c));
            assert(!in_word && has_words ==> text@ =~= before + seq![' '] + seq![lower(c)]);
            assert(!in_word && !has_words ==> text@ =~= seq![lower(c)]);
            in_word = true;
            has_words = true;
        } else {
            in_word = false;
        }
    }
    assert(raw@.take(raw@.len() as int) =~= raw@);
    text
}

/// Whether `c` is an ASCII letter or digit.
pub fn is_ascii_word_char(c: char) -> (r: bool)
    ensures
        r == is_word_char(c),
{
    ('0' <= c && c <= '9') || ('a' <= c && c <= 'z') || ('A' <= c && c <= 'Z')
}

/// Whether `part` occurs in `text`.
pub fn contains(text: &str, part: &str) -> (r: bool)
    ensures
        r == has_part(text@, part@),
{
    contains_chars(&chars_of(text), &chars_of(part))
}

/// Whether the characters of `part` occur in a row in `text`.
fn contains_chars(text: &Vec<char>, part: &Vec<char>) -> (r: bool)
    ensures
        r == has_part(text@, part@),
{
    if part.len() == 0 {
        assert(text@.subrange(0, 0) =~= part@);
        assert(part_at(text@, part@, 0));
        return true;
    }
    if part.len() > text.len() {
        return false;
    }
    let length: usize = text.len();
    let starts: usize = length - part.len() + 1;
    for start in 0..starts
        invariant
            length == text@.len(),
            starts + part@.len() == text@.len() + 1,
            forall|i: int| 0 <= i < start ==> !#[trigger] part_at(text@, part@, i),
    {
        let mut matched: usize = 0;
        while matched < part.len() && text[start + matched] == part[matched]
            invariant
                start < starts,
                starts + part@.len() == text@.len() + 1,
                length == text@.len(),
                matched <= part@.len(),
                forall|k: int| 0 <= k < matched ==> text@[start + k] == part@[k],
            decreases part@.len() - matched,
        {
            matched += 1;
        }
        if matched == part.len() {
            assert(text@.subrange(start as int, start + part@.len()) =~= part@);
            assert(part_at(text@, part@, start as int));
            return true;
        }
        assert(!part_at(text@, part@, start as int)) by {
            assert(text@[start + matched] != part@[matched as int]);
            if part_at(text@, part@, start as int) {
                assert(text@.subrange(start as int, start + part@.len())[matched as int]
                    == part@[matched as int]);
            }
        }
    }
    false
}

/// Whether two texts are the same.
pub fn same_text(left: &str, right: &str) -> (r: bool)
    ensures
        r == (left@ == right@),
{
    same_chars(&chars_of(left), &chars_of(right))
}

/// Whether two rows of characters are the same.
fn same_chars(left: &Vec<char>, right: &Vec<char>) -> (r: bool)
    ensures
        r == (left@ == right@),
{
    if left.len() != right.len() {
        return false;
    }
    for i in 0..left.len()
        invariant
            left@.len() == right@.len(),
            forall|k: int| 0 <= k < i ==> left@[k] == right@[k],
    {
        if left[i] != right[i] {
            return false;
        }
    }
    assert(left@ =~= right@);
    true
}

/// Whether both texts are there, not empty, and the same.
pub fn nonempty_equal(left: Option<&str>, right: Option<&str>) -> (r: bool)
    ensures
        r == is_nonempty_equal(view_of(left), view_of(right)),
{
    match (left, right) {
        (Some(left), Some(right)) => !left.is_empty() && same_text(left, right),
        _ => false,
    }
}

/// Whether both texts are there and have the same words, at least one of them.
pub fn optional_normalized_equal(left: Option<&str>, right: Option<&str>) -> (r: bool)
    ensures
        r == is_optional_normalized_equal(view_of(left), view_of(right)),
{
    match (left, right) {
        (Some(left), Some(right)) => normalized_equal(left, right),
        _ => false,
    }
}

/// Whether both texts have the same words, at least one of them.
pub fn normalized_equal(left: &str, right: &str) -> (r: bool)
    ensures
        r == is_normalized_equal(left@, right@),
{
    let left: String = normalize_text(left);
    !left.as_str().is_empty() && same_text(left.as_str(), normalize_text(right).as_str())
}

/// The text behind an optional string slice.
pub open spec fn view_of(s: Option<&str>) -> Option<Seq<char>> {
    match s {
        Some(text) => Some(text@),
        None => None,
    }
}

/// The text behind an optional string.
pub open spec fn text_of(s: Option<String>) -> Option<Seq<char>> {
    match s {
        Some(text) => Some(text@),
        None => None,
    }
}

/// Both texts are there, not empty, and the same.
pub open spec fn is_nonempty_equal(left: Option<Seq<char>>, right: Option<Seq<char>>) -> bool {
    left matches Some(text) && right == Some(text) && text.len() > 0
}

/// Both texts have the same words, at least one of them.
pub open spec fn is_normalized_equal(left: Seq<char>, right: Seq<char>) -> bool {
    normalized(left).len() > 0 && normalized(left) == normalized(right)
}

/// Both texts are there and have the same words, at least one of them.
pub open spec fn is_optional_normalized_equal(
    left: Option<Seq<char>>,
    right: Option<Seq<char>>,
) -> bool {
    left matches Some(l) && right matches Some(r) && is_normalized_equal(l, r)
}

/// A borrowed form of an optional string.
pub fn as_deref(s: &Option<String>) -> (r: Option<&str>)
    ensures
        view_of(r) == text_of(*s),
{
    match s {
        Some(text) => Some(text.as_str()),
        None => None,
    }
}

/// The characters with the Unicode property `White_Space`.
pub open spec fn is_white_space(c: char) -> bool {
    ||| '\u{9}' <= c <= '\u{d}'
    ||| c == '\u{20}'
    ||| c == '\u{85}'
    ||| c == '\u{a0}'
    ||| c == '\u{1680}'
    ||| '\u{2000}' <= c <= '\u{200a}'
    ||| c == '\u{2028}'
    ||| c == '\u{2029}'
    ||| c == '\u{202f}'
    ||| c == '\u{205f}'
    ||| c == '\u{3000}'
}

/// The text without white space at its start.
pub open spec fn trimmed_start(s: Seq<char>) -> Seq<char>
    decreases s.len(),
{
    if s.len() > 0 && is_white_space(s[0]) {
        trimmed_start(s.drop_first())
    } else {
        s
    }
}

/// The text without white space at its end.
pub open spec fn trimmed_end(s: Seq<char>) -> Seq<char>
    decreases s.len(),
{
    if s.len() > 0 && is_white_space(s.last()) {
        trimmed_end(s.drop_last())
    } else {
        s
    }
}

/// The text without white space at either end.
pub open spec fn trimmed(s: Seq<char>) -> Seq<char> {
    trimmed_end(trimmed_start(s))
}

/// Whether `c` has the Unicode property `White_Space`.
pub fn white_space(c: char) -> (r: bool)
    ensures
        r == is_white_space(c),
{
    ('\u{9}' <= c && c <= '\u{d}') || c == '\u{20}' || c == '\u{85}' || c == '\u{a0}' || c
        == '\u{1680}' || ('\u{2000}' <= c && c <= '\u{200a}') || c == '\u{2028}' || c
        == '\u{2029}' || c == '\u{202f}' || c == '\u{205f}' || c == '\u{3000}'
}

/// `chars` without white space at either end.
pub fn trim(chars: &Vec<char>) -> (r: Vec<char>)
    ensures
        r@ == trimmed(chars@),
{
    let mut start: usize = 0;
    assert(chars@.skip(0) =~= chars@);
    while start < chars.len() && white_space(chars[start])
        invariant
            start <= chars@.len(),
            trimmed_start(chars@) == trimmed_start(chars@.skip(start as int)),
        decreases chars@.len() - start,
    {
        assert(chars@.skip(start as int).drop_first() =~= chars@.skip(start + 1));
        start += 1;
    }
    assert(trimmed_start(chars@) == chars@.skip(start as int));
    let mut end: usize = chars.len();
    assert(chars@.subrange(start as int, end as int) =~= chars@.skip(start as int));
    while end > start && white_space(chars[end - 1])
        invariant
            start <= end <= chars@.len(),
            trimmed(chars@) == trimmed_end(chars@.subrange(start as int, end as int)),
        decreases end,
    {
        assert(chars@.subrange(start as int, end as int).drop_last() =~= chars@.subrange(
            start as int,
            end - 1,
        ));
        end -= 1;
    }
    let mut r: Vec<char> = Vec::new();
    for i in start..end
        invariant
            start <= i <= end <= chars@.len(),
            r@ == chars@.subrange(start as int, i as int),
    {
        r.push(chars[i]);
        assert(r@ =~= chars@.subrange(start as int, i + 1));
    }
    r
}

/// A copy of an optional string.
pub fn clone_text(s: &Option<String>) -> (r: Option<String>)
    ensures
        text_of(r) == text_of(*s),
{
    match s {
        Some(text) => Some(text.clone()),
        None => None,
    }
}

} // verus!
