//! What the state file keeps.
use vstd::prelude::*;

use crate::number::{digit_char, digit_value};
use crate::guarantees::routing::missing_output_is_kept;
use crate::hid::HeadsetState;
use crate::router::{
    default_of, is_recalled, is_user_choice, routed, RouteErrorView, RouterView,
};
use crate::selection::{named_index, recalled_index};
use crate::sink::{memory_of, RememberedView, SinkView};
use crate::state_file::{
    decoded, encoded, escaped, escaped_char, field_text, field_values, loaded, memory_in,
    object_text, read_char, read_field, read_object, read_part, read_text, state_path,
    unsaved_text, value_text, FIELD_KEYS,
};

verus! {

/// A text is escaped character by character, from the front as well.
proof fn lemma_escaped_front(s: Seq<char>)
    requires
        s.len() > 0,
    ensures
        escaped(s) == escaped_char(s[0]) + escaped(s.drop_first()),
    decreases s.len(),
{
    let tail = s.drop_first();
    if s.len() == 1 {
        assert(s.drop_last() =~= Seq::<char>::empty());
        assert(tail =~= Seq::<char>::empty());
        assert(escaped(tail) =~= Seq::<char>::empty());
        assert(escaped(s) =~= escaped_char(s[0]) + escaped(tail));
    } else {
        lemma_escaped_front(s.drop_last());
        assert(s.drop_last().drop_first() =~= tail.drop_last());
        assert(escaped(s) =~= escaped_char(s[0]) + escaped(tail));
    }
}

/// A character is read back as it was written.
proof fn lemma_char_reads_back(c: char, rest: Seq<char>)
    ensures
        read_char(escaped_char(c) + rest) == Some((c, escaped_char(c).len() as int)),
        escaped_char(c).len() > 0,
        escaped_char(c)[0] != '"',
{
    let s = escaped_char(c) + rest;
    if c != '"' && c != '\\' && ' ' > c {
        let high = c as int / 16;
        let low = c as int % 16;
        assert(digit_value(digit_char(high)) == Some(high as nat));
        assert(digit_value(digit_char(low)) == Some(low as nat));
    }
}

/// A text in quotes is read back as it was written.
proof fn lemma_text_reads_back(text: Seq<char>, rest: Seq<char>)
    ensures
        read_text(escaped(text) + seq!['"'] + rest) == Some((text, rest)),
    decreases text.len(),
{
    let s = escaped(text) + seq!['"'] + rest;
    if text.len() == 0 {
        assert(s.skip(1) =~= rest);
    } else {
        let c = text[0];
        let tail = escaped(text.drop_first()) + seq!['"'] + rest;
        lemma_escaped_front(text);
        lemma_text_reads_back(text.drop_first(), rest);
        lemma_char_reads_back(c, tail);
        assert(s =~= escaped_char(c) + tail);
        assert(s.skip(escaped_char(c).len() as int) =~= tail);
        assert(seq![c] + text.drop_first() =~= text);
    }
}

/// A key and its value are read back as they were written.
proof fn lemma_field_reads_back(key: Seq<char>, value: Option<Seq<char>>, rest: Seq<char>)
    ensures
        read_field(field_text(key, value, rest), key) == Some((value, rest)),
{
    let s = field_text(key, value, rest);
    let behind = value_text(value) + rest;
    assert(s.take(key.len() as int) =~= key);
    assert(s.skip(key.len() as int) =~= behind);
    assert(read_part(s, key) == Some(behind));
    match value {
        Some(text) => {
            assert(behind.skip(1) =~= escaped(text) + seq!['"'] + rest);
            lemma_text_reads_back(text, rest);
        },
        None => {
            assert(behind.take(4) =~= value_text(value));
            assert(behind.skip(4) =~= rest);
        },
    }
}

/// Keys and their values are read back as they were written.
proof fn lemma_object_reads_back(keys: Seq<&str>, values: Seq<Option<Seq<char>>>)
    requires
        keys.len() == values.len(),
    ensures
        read_object(object_text(keys, values), keys) == Some(values),
    decreases keys.len(),
{
    if keys.len() == 0 {
        assert(values =~= seq![]);
    } else {
        let rest = object_text(keys.drop_first(), values.drop_first());
        lemma_object_reads_back(keys.drop_first(), values.drop_first());
        lemma_field_reads_back(keys[0]@, values[0], rest);
        assert(seq![values[0]] + values.drop_first() =~= values);
    }
}

/// Reading the state file gives back what was written to it, whatever characters the names hold.
pub proof fn saved_choice_reads_back(memory: RememberedView)
    ensures
        decoded(encoded(memory)) == Some(memory),
{
    lemma_object_reads_back(FIELD_KEYS@, field_values(memory));
    assert(memory_in(field_values(memory)) == Some(memory));
}

/// The file is one JSON object with the eight fields in order, each a text in quotes, or `null`
/// where there is none.
pub proof fn file_is_one_object(memory: RememberedView)
    ensures
        encoded(memory) == "{\"name\":"@ + value_text(Some(memory.name)) + (",\"serial\":"@
            + value_text(memory.serial) + (",\"vendor_id\":"@ + value_text(memory.vendor_id) + (
        ",\"product_id\":"@ + value_text(memory.product_id) + (",\"product_name\":"@ + value_text(
            memory.product_name,
        ) + (",\"description\":"@ + value_text(Some(memory.description)) + (",\"card\":"@
            + value_text(memory.card) + (",\"profile\":"@ + value_text(memory.profile) + seq!['}']
        ))))))),
        value_text(None) == seq!['n', 'u', 'l', 'l'],
        value_text(Some(memory.name)) == seq!['"'] + escaped(memory.name) + seq!['"'],
{
    lemma_object(FIELD_KEYS@, field_values(memory), 0);
    reveal_with_fuel(tail_text, 9);
}

/// What stands from the field at `i` on.
proof fn lemma_object(keys: Seq<&str>, values: Seq<Option<Seq<char>>>, i: int)
    requires
        0 <= i <= keys.len(),
        keys.len() == values.len(),
    ensures
        object_text(keys.skip(i), values.skip(i)) == tail_text(keys, values, i),
        i == 0 ==> object_text(keys, values) == tail_text(keys, values, 0),
    decreases keys.len() - i,
{
    reveal_with_fuel(tail_text, 9);
    if i < keys.len() {
        lemma_object(keys, values, i + 1);
        assert(keys.skip(i).drop_first() =~= keys.skip(i + 1));
        assert(values.skip(i).drop_first() =~= values.skip(i + 1));
    }
    assert(keys.skip(0) =~= keys);
    assert(values.skip(0) =~= values);
}

/// The fields from the one at `i` on, and the end of the object.
spec fn tail_text(keys: Seq<&str>, values: Seq<Option<Seq<char>>>, i: int) -> Seq<char>
    decreases keys.len() - i,
{
    if i >= keys.len() {
        seq!['}']
    } else {
        keys[i]@ + value_text(values[i]) + tail_text(keys, values, i + 1)
    }
}

/// A character as it is written between quotes holds no control character.
proof fn lemma_escaped_is_printable(c: char, k: int)
    requires
        0 <= k < escaped_char(c).len(),
    ensures
        escaped_char(c)[k] >= ' ',
{
    if c != '"' && c != '\\' && ' ' > c {
        assert(0 <= c as int / 16 < 2 && 0 <= c as int % 16 < 16);
        assert(digit_char(c as int / 16) >= ' ' && digit_char(c as int % 16) >= ' ');
        assert(k == 0 || k == 1 || k == 2 || k == 3 || k == 4 || k == 5);
    }
}

/// What stands between quotes is the text itself, character by character, but for quotes and
/// backslashes, which stand behind a backslash, and control characters, which are spelt out: none
/// of them stands there bare.
pub proof fn quoted_text_holds_no_bare_control_characters(s: Seq<char>, c: char, i: int)
    ensures
        escaped(seq![]) == Seq::<char>::empty(),
        escaped(s.push(c)).take(escaped(s).len() as int) == escaped(s),
        c != '"' && c != '\\' && c >= ' ' ==> escaped(s.push(c)) == escaped(s).push(c),
        c == '"' || c == '\\' ==> escaped(s.push(c)) == escaped(s).push('\\').push(c),
        0 <= i < escaped(s).len() ==> escaped(s)[i] >= ' ',
    decreases s.len(),
{
    assert(s.push(c).drop_last() =~= s);
    assert(escaped(s.push(c)) =~= escaped(s) + escaped_char(c));
    assert(escaped(s.push(c)).take(escaped(s).len() as int) =~= escaped(s));
    assert(c != '"' && c != '\\' && c >= ' ' ==> escaped(s) + escaped_char(c) =~= escaped(s).push(
        c,
    ));
    assert(c == '"' || c == '\\' ==> escaped(s) + escaped_char(c) =~= escaped(s).push('\\').push(
        c,
    ));
    if s.len() > 0 && 0 <= i < escaped(s).len() {
        let before = escaped(s.drop_last());
        let last = s.last();
        assert(escaped(s) == before + escaped_char(last));
        if i < before.len() {
            quoted_text_holds_no_bare_control_characters(s.drop_last(), last, i);
            assert(escaped(s)[i] == before[i]);
        } else {
            let k = i - before.len();
            assert(escaped(s)[i] == escaped_char(last)[k]);
            lemma_escaped_is_printable(last, k);
        }
    }
}

/// A file with anything behind the object says nothing.
pub proof fn nothing_may_follow_the_object(memory: RememberedView, extra: Seq<char>)
    requires
        extra.len() > 0,
    ensures
        decoded(encoded(memory) + extra) is None,
{
    lemma_followed_object(FIELD_KEYS@, field_values(memory), extra);
}

/// Keys and their values with something behind the end of the object are not read.
proof fn lemma_followed_object(
    keys: Seq<&str>,
    values: Seq<Option<Seq<char>>>,
    extra: Seq<char>,
)
    requires
        keys.len() == values.len(),
        extra.len() > 0,
    ensures
        read_object(object_text(keys, values) + extra, keys) is None,
    decreases keys.len(),
{
    let s = object_text(keys, values) + extra;
    if keys.len() == 0 {
        assert(s.len() == 1 + extra.len());
        assert(s != seq!['}']);
    } else {
        let rest = object_text(keys.drop_first(), values.drop_first());
        lemma_followed_object(keys.drop_first(), values.drop_first(), extra);
        assert(s =~= field_text(keys[0]@, values[0], rest + extra));
        lemma_field_reads_back(keys[0]@, values[0], rest + extra);
    }
}

/// A file that was written says what was to be remembered; one that is not there says nothing.
pub proof fn written_file_is_loaded(memory: RememberedView)
    ensures
        loaded(Some(encoded(memory))) == Some(memory),
        loaded(None) is None,
{
    saved_choice_reads_back(memory);
}

/// Two different choices are never written as the same text.
pub proof fn choices_are_told_apart(left: RememberedView, right: RememberedView)
    requires
        encoded(left) == encoded(right),
    ensures
        left == right,
{
    saved_choice_reads_back(left);
    saved_choice_reads_back(right);
}

/// What is written is all there is to write: once the file holds it, nothing is left to save until
/// another output is remembered, and then that one is saved.
pub proof fn changes_are_saved_once(
    saved: Option<Seq<char>>,
    memory: RememberedView,
    next: RememberedView,
)
    ensures
        unsaved_text(saved, Some(memory)) matches Some(text) ==> decoded(text) == Some(memory)
            && unsaved_text(Some(text), Some(memory)) is None,
        unsaved_text(saved, Some(memory)) is None ==> (saved matches Some(text) && decoded(text)
            == Some(memory)),
        next != memory ==> unsaved_text(Some(encoded(memory)), Some(next)) == Some(encoded(next)),
{
    saved_choice_reads_back(memory);
    if encoded(memory) == encoded(next) {
        choices_are_told_apart(memory, next);
    }
}

/// Nothing that is remembered leaves the file as it is.
pub proof fn nothing_is_saved_for_nothing(saved: Option<Seq<char>>)
    ensures
        unsaved_text(saved, None) is None,
{
}

/// A configured path is the path of the state file, whatever else is known. Without one, the file
/// stands below the directory for state files, or below the home directory where there is none.
/// Directories without a name do not count, and without any there is no file.
pub proof fn state_file_has_its_place(
    path: Seq<char>,
    state_home: Option<Seq<char>>,
    home: Option<Seq<char>>,
    dir: Seq<char>,
)
    requires
        dir.len() > 0,
    ensures
        state_path(Some(path), state_home, home) == Some(path),
        state_path(None, Some(dir), home) == Some(
            dir + "/hyperx-cloud-3-switchd/speaker.json"@,
        ),
        state_path(None, None, Some(dir)) == Some(
            dir + "/.local/state/hyperx-cloud-3-switchd/speaker.json"@,
        ),
        state_path(None, Some(seq![]), home) == state_path(None, None, home),
        state_path(None, None, Some(seq![])) is None,
        state_path(None, None, None) is None,
{
}

/// An output that was saved is used again after a restart, whatever the default is then, under
/// whatever name it is found again.
pub proof fn saved_choice_survives_a_restart(
    chosen: SinkView,
    sinks: Seq<SinkView>,
    i: int,
    default_name: Option<Seq<char>>,
)
    requires
        recalled_index(sinks, memory_of(chosen)) == Some(i),
    ensures
        ({
            let restarted = RouterView {
                remembered: decoded(encoded(memory_of(chosen))),
                previous: None,
                insisted: false,
                established: None,
            };
            routed(restarted, HeadsetState::Disconnected, sinks, default_name, None).1 == Ok::<
                SinkView,
                RouteErrorView,
            >(sinks[i])
        }),
{
    saved_choice_reads_back(memory_of(chosen));
}

/// An output that is missing stays in the state file while another one stands in for it.
pub proof fn missing_output_stays_saved(
    router: RouterView,
    state: HeadsetState,
    sinks: Seq<SinkView>,
    default_name: Option<Seq<char>>,
    saved: Option<Seq<char>>,
)
    requires
        router.remembered is Some,
        saved == Some(encoded(router.remembered->0)),
        !is_recalled(router, sinks),
        named_index(sinks, router.remembered->0.name) is None,
        !is_user_choice(router, sinks, default_of(sinks, default_name)),
    ensures
        unsaved_text(saved, routed(router, state, sinks, default_name, None).0.remembered) is None,
{
    missing_output_is_kept(router, state, sinks, default_name);
}

} // verus!
