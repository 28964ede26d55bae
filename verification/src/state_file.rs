//! The state file, which carries the remembered speakers from one run to the next.
use vstd::prelude::*;

use crate::number::{digit_char, digit_value, is_digit, read_digit, show_digit};
use crate::sink::{remembered_of, RememberedSink, RememberedView};
use crate::text::{as_deref, chars_of, clone_text, same_text, text_of, view_of};

verus! {

/// The keys of the state file with the punctuation around them, in order.
pub const FIELD_KEYS: [&'static str; 8] = [
    "{\"name\":",
    ",\"serial\":",
    ",\"vendor_id\":",
    ",\"product_id\":",
    ",\"product_name\":",
    ",\"description\":",
    ",\"card\":",
    ",\"profile\":",
];

/// The path of the state file: the configured one; else one below the directory for state files;
/// else one below the home directory.
pub open spec fn state_path(
    configured: Option<Seq<char>>,
    state_home: Option<Seq<char>>,
    home: Option<Seq<char>>,
) -> Option<Seq<char>> {
    if configured is Some {
        configured
    } else if state_home matches Some(dir) && dir.len() > 0 {
        Some(state_home->0 + "/hyperx-cloud-3-switchd/speaker.json"@)
    } else if home matches Some(dir) && dir.len() > 0 {
        Some(home->0 + "/.local/state/hyperx-cloud-3-switchd/speaker.json"@)
    } else {
        None
    }
}

/// The path of the state file, if there is a place for one.
pub fn state_file_path(
    configured: Option<&str>,
    state_home: Option<&str>,
    home: Option<&str>,
) -> (r: Option<String>)
    ensures
        text_of(r) == state_path(view_of(configured), view_of(state_home), view_of(home)),
{
    if let Some(path) = configured {
        return Some(path.to_owned());
    }
    if let Some(dir) = state_home {
        if !dir.is_empty() {
            return Some(dir.to_owned().concat("/hyperx-cloud-3-switchd/speaker.json"));
        }
    }
    if let Some(dir) = home {
        if !dir.is_empty() {
            return Some(
                dir.to_owned().concat("/.local/state/hyperx-cloud-3-switchd/speaker.json"),
            );
        }
    }
    None
}

/// A character as it is written between quotes: quotes and backslashes behind a backslash, control
/// characters by their number.
pub open spec fn escaped_char(c: char) -> Seq<char> {
    if c == '"' {
        seq!['\\', '"']
    } else if c == '\\' {
        seq!['\\', '\\']
    } else if ' ' > c {
        seq!['\\', 'u', '0', '0', digit_char(c as int / 16), digit_char(c as int % 16)]
    } else {
        seq![c]
    }
}

/// A text as it is written between quotes.
pub open spec fn escaped(s: Seq<char>) -> Seq<char>
    decreases s.len(),
{
    if s.len() == 0 {
        seq![]
    } else {
        escaped(s.drop_last()) + escaped_char(s.last())
    }
}

/// The characters of `null`.
pub open spec fn null_text() -> Seq<char> {
    seq!['n', 'u', 'l', 'l']
}

/// A text in quotes, or `null` where there is none.
pub open spec fn value_text(value: Option<Seq<char>>) -> Seq<char> {
    match value {
        Some(text) => seq!['"'] + escaped(text) + seq!['"'],
        None => null_text(),
    }
}

/// A key, its value, and what follows.
pub open spec fn field_text(key: Seq<char>, value: Option<Seq<char>>, rest: Seq<char>) -> Seq<char> {
    key + value_text(value) + rest
}

/// Keys and their values, up to the end of the object.
pub open spec fn object_text(keys: Seq<&str>, values: Seq<Option<Seq<char>>>) -> Seq<char>
    decreases keys.len(),
{
    if keys.len() == 0 {
        seq!['}']
    } else {
        field_text(keys[0]@, values[0], object_text(keys.drop_first(), values.drop_first()))
    }
}

/// What is remembered, in the order of the keys.
pub open spec fn field_values(memory: RememberedView) -> Seq<Option<Seq<char>>> {
    seq![
        Some(memory.name),
        memory.serial,
        memory.vendor_id,
        memory.product_id,
        memory.product_name,
        Some(memory.description),
        memory.card,
        memory.profile,
    ]
}

/// What is remembered, as a JSON object.
pub open spec fn encoded(memory: RememberedView) -> Seq<char> {
    object_text(FIELD_KEYS@, field_values(memory))
}

/// The first character of a text between quotes, and how many characters it takes there.
pub open spec fn read_char(s: Seq<char>) -> Option<(char, int)> {
    if s.len() == 0 || s[0] == '"' {
        None
    } else if s[0] != '\\' {
        if ' ' > s[0] {
            None
        } else {
            Some((s[0], 1))
        }
    } else if s.len() >= 2 && (s[1] == '"' || s[1] == '\\') {
        Some((s[1], 2))
    } else if s.len() >= 6 && s[1] == 'u' && s[2] == '0' && s[3] == '0' {
        if is_digit(s[4], 16) && is_digit(s[5], 16) {
            Some(((digit_value(s[4])->0 * 16 + digit_value(s[5])->0) as char, 6))
        } else {
            None
        }
    } else {
        None
    }
}

/// The text up to the closing quote, and what follows the quote.
pub open spec fn read_text(s: Seq<char>) -> Option<(Seq<char>, Seq<char>)>
    decreases s.len(),
{
    if s.len() > 0 && s[0] == '"' {
        Some((seq![], s.skip(1)))
    } else {
        match read_char(s) {
            Some((c, n)) => if 0 < n <= s.len() {
                match read_text(s.skip(n)) {
                    Some((text, rest)) => Some((seq![c] + text, rest)),
                    None => None,
                }
            } else {
                None
            },
            None => None,
        }
    }
}

/// What follows `part` at the start of a text.
pub open spec fn read_part(s: Seq<char>, part: Seq<char>) -> Option<Seq<char>> {
    if part.len() <= s.len() && s.take(part.len() as int) == part {
        Some(s.skip(part.len() as int))
    } else {
        None
    }
}

/// The value behind a key, and what follows.
pub open spec fn read_field(s: Seq<char>, key: Seq<char>) -> Option<(Option<Seq<char>>, Seq<char>)> {
    match read_part(s, key) {
        Some(s) => if s.len() > 0 && s[0] == '"' {
            match read_text(s.skip(1)) {
                Some((text, rest)) => Some((Some(text), rest)),
                None => None,
            }
        } else {
            match read_part(s, null_text()) {
                Some(rest) => Some((None, rest)),
                None => None,
            }
        },
        None => None,
    }
}

/// The values behind the keys, up to the end of the object.
pub open spec fn read_object(s: Seq<char>, keys: Seq<&str>) -> Option<Seq<Option<Seq<char>>>>
    decreases keys.len(),
{
    if keys.len() == 0 {
        if s == seq!['}'] {
            Some(seq![])
        } else {
            None
        }
    } else {
        match read_field(s, keys[0]@) {
            Some((value, rest)) => match read_object(rest, keys.drop_first()) {
                Some(values) => Some(seq![value] + values),
                None => None,
            },
            None => None,
        }
    }
}

/// What is remembered by the values of the keys; a name and a description have to be there.
pub open spec fn memory_in(values: Seq<Option<Seq<char>>>) -> Option<RememberedView> {
    match (values[0], values[5]) {
        (Some(name), Some(description)) => Some(
            RememberedView {
                name,
                serial: values[1],
                vendor_id: values[2],
                product_id: values[3],
                product_name: values[4],
                description,
                card: values[6],
                profile: values[7],
            },
        ),
        _ => None,
    }
}

/// What a state file says.
pub open spec fn decoded(s: Seq<char>) -> Option<RememberedView> {
    match read_object(s, FIELD_KEYS@) {
        Some(values) => memory_in(values),
        None => None,
    }
}

/// Appends a character as it is written between quotes.
fn push_escaped_char(out: &mut String, c: char)
    ensures
        final(out)@ == old(out)@ + escaped_char(c),
{
    let ghost start = out@;
    if c == '"' {
        out.push('\\');
        out.push('"');
    } else if c == '\\' {
        out.push('\\');
        out.push('\\');
    } else if ' ' > c {
        let code: u8 = c as u8;
        out.push('\\');
        out.push('u');
        out.push('0');
        out.push('0');
        out.push(show_digit(code / 16));
        out.push(show_digit(code % 16));
    } else {
        out.push(c);
    }
    assert(out@ =~= start + escaped_char(c));
}

/// Appends a text as it is written between quotes.
fn push_escaped(out: &mut String, text: &str)
    ensures
        final(out)@ == old(out)@ + escaped(text@),
{
    let ghost start = out@;
    assert(out@ =~= start + escaped(text@.take(0)));
    for c in it: text.chars()
        invariant
            it.seq() == text@,
            out@ == start + escaped(text@.take(it.index() as int)),
    {
        let ghost next = text@.take(it.index() + 1);
        assert(next.drop_last() =~= text@.take(it.index() as int));
        assert(next.last() == c);
        push_escaped_char(out, c);
        assert(out@ =~= start + escaped(next));
    }
    assert(text@.take(text@.len() as int) =~= text@);
}

/// Appends a key and its value.
fn push_field(out: &mut String, key: &str, value: Option<&str>)
    ensures
        final(out)@ == old(out)@ + key@ + value_text(view_of(value)),
{
    let ghost start = out@;
    out.append(key);
    match value {
        Some(text) => {
            out.push('"');
            push_escaped(out, text);
            out.push('"');
        },
        None => {
            out.push('n');
            out.push('u');
            out.push('l');
            out.push('l');
        },
    }
    assert(out@ =~= start + key@ + value_text(view_of(value)));
}

/// What is remembered, as a JSON object.
pub fn encode(memory: &RememberedSink) -> (text: String)
    ensures
        text@ == encoded(memory@),
{
    let values: Vec<Option<&str>> = vec![
        Some(memory.name.as_str()),
        as_deref(&memory.serial),
        as_deref(&memory.vendor_id),
        as_deref(&memory.product_id),
        as_deref(&memory.product_name),
        Some(memory.description.as_str()),
        as_deref(&memory.card),
        as_deref(&memory.profile),
    ];
    let ghost all = field_values(memory@);
    let mut text = String::new();
    assert(FIELD_KEYS@.skip(0) =~= FIELD_KEYS@);
    assert(all.skip(0) =~= all);
    assert(text@ + encoded(memory@) =~= encoded(memory@));
    for i in 0..8usize
        invariant
            values@.len() == 8,
            all == field_values(memory@),
            forall|k: int| 0 <= k < 8 ==> view_of(#[trigger] values@[k]) == all[k],
            encoded(memory@) == text@ + object_text(FIELD_KEYS@.skip(i as int), all.skip(i as int)),
    {
        assert(FIELD_KEYS@.skip(i as int).drop_first() =~= FIELD_KEYS@.skip(i + 1));
        assert(all.skip(i as int).drop_first() =~= all.skip(i + 1));
        let ghost before = text@;
        let ghost rest = object_text(FIELD_KEYS@.skip(i + 1), all.skip(i + 1));
        push_field(&mut text, FIELD_KEYS[i], values[i]);
        assert(before + field_text(FIELD_KEYS@[i as int]@, all[i as int], rest) =~= text@ + rest);
    }
    text.push('}');
    text
}

/// The first character of a text between quotes, and the position behind it.
fn take_char(chars: &Vec<char>, at: usize) -> (r: Option<(char, usize)>)
    requires
        at <= chars@.len(),
    ensures
        match read_char(chars@.skip(at as int)) {
            Some((c, n)) => r == Some((c, (at + n) as usize)) && 0 < n <= chars@.len() - at,
            None => r is None,
        },
{
    let left: usize = chars.len() - at;
    if left == 0 || chars[at] == '"' {
        None
    } else if chars[at] != '\\' {
        if ' ' > chars[at] {
            None
        } else {
            Some((chars[at], at + 1))
        }
    } else if left >= 2 && (chars[at + 1] == '"' || chars[at + 1] == '\\') {
        Some((chars[at + 1], at + 2))
    } else if left >= 6 && chars[at + 1] == 'u' && chars[at + 2] == '0' && chars[at + 3] == '0' {
        match (read_digit(chars[at + 4], 16), read_digit(chars[at + 5], 16)) {
            (Some(high), Some(low)) => Some((((high * 16 + low) as u8) as char, at + 6)),
            _ => None,
        }
    } else {
        None
    }
}

/// The text up to the closing quote, and the position behind the quote.
fn take_text(chars: &Vec<char>, at: usize) -> (r: Option<(String, usize)>)
    requires
        at <= chars@.len(),
    ensures
        match r {
            Some((text, next)) => next <= chars@.len() && read_text(chars@.skip(at as int))
                == Some((text@, chars@.skip(next as int))),
            None => read_text(chars@.skip(at as int)) is None,
        },
{
    let ghost whole = read_text(chars@.skip(at as int));
    let mut text = String::new();
    let mut i: usize = at;
    proof {
        if let Some((t, rest)) = whole {
            assert(text@ + t =~= t);
        }
    }
    loop
        invariant
            at <= i <= chars@.len(),
            whole == read_text(chars@.skip(at as int)),
            match read_text(chars@.skip(i as int)) {
                Some((t, rest)) => whole == Some((text@ + t, rest)),
                None => whole is None,
            },
        decreases chars@.len() - i,
    {
        if i < chars.len() && chars[i] == '"' {
            assert(chars@.skip(i as int).skip(1) =~= chars@.skip(i + 1));
            assert(text@ + Seq::<char>::empty() =~= text@);
            return Some((text, i + 1));
        }
        let ghost before = text@;
        match take_char(chars, i) {
            Some((c, next)) => {
                assert(chars@.skip(i as int).skip(next - i) =~= chars@.skip(next as int));
                text.push(c);
                proof {
                    if let Some((t, rest)) = read_text(chars@.skip(next as int)) {
                        assert(text@ + t =~= before + (seq![c] + t));
                    }
                }
                i = next;
            },
            None => {
                return None;
            },
        }
    }
}

/// The position behind `part`, where `part` stands.
fn take_part(chars: &Vec<char>, at: usize, part: &str) -> (r: Option<usize>)
    requires
        at <= chars@.len(),
    ensures
        match r {
            Some(next) => next <= chars@.len() && read_part(chars@.skip(at as int), part@) == Some(
                chars@.skip(next as int),
            ),
            None => read_part(chars@.skip(at as int), part@) is None,
        },
{
    take_chars(chars, at, &chars_of(part))
}

/// The position behind the characters of `part`, where they stand.
fn take_chars(chars: &Vec<char>, at: usize, part: &Vec<char>) -> (r: Option<usize>)
    requires
        at <= chars@.len(),
    ensures
        match r {
            Some(next) => next <= chars@.len() && read_part(chars@.skip(at as int), part@) == Some(
                chars@.skip(next as int),
            ),
            None => read_part(chars@.skip(at as int), part@) is None,
        },
{
    let length: usize = chars.len();
    let ghost rest = chars@.skip(at as int);
    if part.len() > chars.len() - at {
        return None;
    }
    for i in 0..part.len()
        invariant
            at <= chars@.len(),
            rest == chars@.skip(at as int),
            part@.len() <= rest.len(),
            length == chars@.len(),
            forall|k: int| 0 <= k < i ==> rest[k] == part@[k],
    {
        if chars[at + i] != part[i] {
            assert(rest.take(part@.len() as int)[i as int] != part@[i as int]);
            return None;
        }
    }
    assert(rest.take(part@.len() as int) =~= part@);
    assert(rest.skip(part@.len() as int) =~= chars@.skip(at + part@.len()));
    Some(at + part.len())
}

/// The value behind a key, and the position behind the value.
fn take_field(chars: &Vec<char>, at: usize, key: &str) -> (r: Option<(Option<String>, usize)>)
    requires
        at <= chars@.len(),
    ensures
        match r {
            Some((value, next)) => next <= chars@.len() && read_field(
                chars@.skip(at as int),
                key@,
            ) == Some((text_of(value), chars@.skip(next as int))),
            None => read_field(chars@.skip(at as int), key@) is None,
        },
{
    let at: usize = match take_part(chars, at, key) {
        Some(at) => at,
        None => {
            return None;
        },
    };
    if at < chars.len() && chars[at] == '"' {
        assert(chars@.skip(at as int).skip(1) =~= chars@.skip(at + 1));
        match take_text(chars, at + 1) {
            Some((text, next)) => Some((Some(text), next)),
            None => None,
        }
    } else {
        proof {
            reveal_strlit("null");
            assert("null"@ =~= null_text());
        }
        match take_part(chars, at, "null") {
            Some(next) => Some((None, next)),
            None => None,
        }
    }
}

/// The values behind the keys, up to the end of the object.
fn take_object(chars: &Vec<char>) -> (r: Option<Vec<Option<String>>>)
    ensures
        match r {
            Some(values) => read_object(chars@, FIELD_KEYS@) == Some(text_views(values@)),
            None => read_object(chars@, FIELD_KEYS@) is None,
        },
{
    let ghost whole = read_object(chars@, FIELD_KEYS@);
    let mut values: Vec<Option<String>> = Vec::new();
    let mut at: usize = 0;
    proof {
        assert(chars@.skip(0) =~= chars@);
        assert(FIELD_KEYS@.skip(0) =~= FIELD_KEYS@);
        if let Some(left) = whole {
            assert(text_views(values@) + left =~= left);
        }
    }
    for i in 0..8usize
        invariant
            at <= chars@.len(),
            whole == read_object(chars@, FIELD_KEYS@),
            match read_object(chars@.skip(at as int), FIELD_KEYS@.skip(i as int)) {
                Some(left) => whole == Some(text_views(values@) + left),
                None => whole is None,
            },
    {
        assert(FIELD_KEYS@.skip(i as int).drop_first() =~= FIELD_KEYS@.skip(i + 1));
        let ghost before = values@;
        match take_field(chars, at, FIELD_KEYS[i]) {
            Some((value, next)) => {
                values.push(value);
                proof {
                    if let Some(left) = read_object(
                        chars@.skip(next as int),
                        FIELD_KEYS@.skip(i + 1),
                    ) {
                        assert(text_views(values@) + left =~= text_views(before) + (seq![
                            text_of(value),
                        ] + left));
                    }
                }
                at = next;
            },
            None => {
                return None;
            },
        }
    }
    let ghost end = chars@.skip(at as int);
    if chars.len() - at == 1 && chars[at] == '}' {
        assert(end =~= seq!['}']);
        assert(text_views(values@) + Seq::<Option<Seq<char>>>::empty() =~= text_views(values@));
        Some(values)
    } else {
        assert(end != seq!['}']) by {
            if end == seq!['}'] {
                assert(end.len() == 1 && end[0] == '}');
            }
        }
        None
    }
}

/// The texts of a list of optional strings.
pub open spec fn text_views(values: Seq<Option<String>>) -> Seq<Option<Seq<char>>> {
    Seq::new(values.len(), |i: int| text_of(values[i]))
}

/// An object that could be read has a value for each key.
proof fn lemma_value_count(s: Seq<char>, keys: Seq<&str>)
    ensures
        read_object(s, keys) matches Some(values) ==> values.len() == keys.len(),
    decreases keys.len(),
{
    if keys.len() > 0 {
        if let Some((value, rest)) = read_field(s, keys[0]@) {
            lemma_value_count(rest, keys.drop_first());
        }
    }
}

/// What a state file says, where it is one.
pub fn decode(text: &str) -> (r: Option<RememberedSink>)
    ensures
        remembered_of(r) == decoded(text@),
{
    proof {
        lemma_value_count(text@, FIELD_KEYS@);
    }
    let values: Vec<Option<String>> = match take_object(&chars_of(text)) {
        Some(values) => values,
        None => {
            return None;
        },
    };
    assert(values@.len() == 8);
    match (&values[0], &values[5]) {
        (Some(name), Some(description)) => Some(
            RememberedSink {
                name: name.clone(),
                serial: clone_text(&values[1]),
                vendor_id: clone_text(&values[2]),
                product_id: clone_text(&values[3]),
                product_name: clone_text(&values[4]),
                description: description.clone(),
                card: clone_text(&values[6]),
                profile: clone_text(&values[7]),
            },
        ),
        _ => None,
    }
}

/// What is to be written: what is remembered, where the file says something else.
pub open spec fn unsaved_text(saved: Option<Seq<char>>, current: Option<RememberedView>) -> Option<
    Seq<char>,
> {
    match current {
        Some(memory) => if saved == Some(encoded(memory)) {
            None
        } else {
            Some(encoded(memory))
        },
        None => None,
    }
}

/// What is remembered by the content of a state file; a file that is not there says nothing.
pub open spec fn loaded(content: Option<Seq<char>>) -> Option<RememberedView> {
    match content {
        Some(text) => decoded(text),
        None => None,
    }
}

/// What the state file says, as far as it is known.
#[derive(Debug)]
pub struct StateFile {
    saved: Option<String>,
}

impl View for StateFile {
    type V = Option<Seq<char>>;

    closed spec fn view(&self) -> Option<Seq<char>> {
        text_of(self.saved)
    }
}

impl StateFile {
    /// The state file with the given content, and what it says.
    pub fn load(content: Option<String>) -> (r: (StateFile, Option<RememberedSink>))
        ensures
            r.0@ == text_of(content),
            remembered_of(r.1) == loaded(text_of(content)),
    {
        let remembered: Option<RememberedSink> = match &content {
            Some(text) => decode(text.as_str()),
            None => None,
        };
        (StateFile { saved: content }, remembered)
    }

    /// What is to be written so that the file says what is remembered, where it does not yet.
    /// Nothing that is remembered leaves the file as it is.
    pub fn unsaved(&self, remembered: Option<&RememberedSink>) -> (r: Option<String>)
        ensures
            text_of(r) == unsaved_text(
                self@,
                match remembered {
                    Some(memory) => Some(memory@),
                    None => None,
                },
            ),
    {
        match remembered {
            Some(memory) => {
                let text: String = encode(memory);
                match &self.saved {
                    Some(saved) => if same_text(saved.as_str(), text.as_str()) {
                        None
                    } else {
                        Some(text)
                    },
                    None => Some(text),
                }
            },
            None => None,
        }
    }

    /// Notes that `text` was written.
    pub fn written(&mut self, text: String)
        ensures
            final(self)@ == Some(text@),
    {
        self.saved = Some(text);
    }
}

} // verus!
