//! Normalized key chords: a DOM key name plus the three modifier flags the
//! stage grammars distinguish. A lone alphabetic key is lowercased so that
//! `Shift` is carried only by the flag, never by the key's case.
use vstd::prelude::*;

use crate::text::{
    ascii_lower, char_is_alphabetic, char_to_lowercase, is_alphabetic_char, is_ascii_letter,
    lowercase_of, str_equal,
};

verus! {

/// A normalized key chord. The platform `meta` key is folded into `ctrl`
/// before a chord is built.
#[derive(Debug, Clone, PartialEq, Eq, Hash)]
pub struct KeyChord {
    pub key: String,
    pub shift: bool,
    pub ctrl: bool,
    pub alt: bool,
}

/// A chord as plain values: key text, shift, ctrl, alt.
pub type ChordView = (Seq<char>, bool, bool, bool);

/// The plain-value view of a chord.
pub open spec fn chord_view(c: KeyChord) -> ChordView {
    (c.key@, c.shift, c.ctrl, c.alt)
}

/// The table vocabulary for a raw key name: a single alphabetic character
/// is lowercased (its Unicode lowercase mapping); every other key passes
/// through unchanged.
pub open spec fn normalized_key(key: Seq<char>) -> Seq<char> {
    if key.len() == 1 && is_alphabetic_char(key[0]) {
        lowercase_of(key[0])
    } else {
        key
    }
}

/// Normalize a raw `KeyboardEvent.key` string into the table vocabulary.
/// A lone ASCII letter becomes its lowercase letter; any other ASCII key
/// text of one character, and every longer key, is unchanged.
fn normalize_key(key: &str) -> (k: String)
    ensures
        k@ == normalized_key(key@),
        key@.len() == 1 && (key@[0] as u32) < 128 ==> k@ == seq![ascii_lower(key@[0])],
{
    if key.unicode_len() == 1 {
        let c = key.get_char(0);
        if char_is_alphabetic(c) {
            return char_to_lowercase(c);
        }
        proof {
            if (c as u32) < 128 {
                assert(!is_ascii_letter(c));
                assert(key@ =~= seq![ascii_lower(c)]);
            }
        }
    }
    String::from_str(key)
}

impl KeyChord {
    /// Build a chord from raw parts, normalizing the key name. `ctrl` should
    /// already fold the platform `meta` key in.
    pub fn new(key: &str, shift: bool, ctrl: bool, alt: bool) -> (c: Self)
        ensures
            chord_view(c) == (normalized_key(key@), shift, ctrl, alt),
            key@.len() == 1 && (key@[0] as u32) < 128 ==> c.key@ == seq![ascii_lower(key@[0])],
    {
        KeyChord { key: normalize_key(key), shift, ctrl, alt }
    }
}

/// A chord whose key is already in table vocabulary.
pub(crate) fn table_chord(key: &str, shift: bool, ctrl: bool, alt: bool) -> (c: KeyChord)
    ensures
        chord_view(c) == (key@, shift, ctrl, alt),
{
    KeyChord { key: String::from_str(key), shift, ctrl, alt }
}

/// Whether two chords are the same chord.
pub(crate) fn same_chord(a: &KeyChord, b: &KeyChord) -> (eq: bool)
    ensures
        eq == (chord_view(*a) == chord_view(*b)),
{
    str_equal(a.key.as_str(), b.key.as_str()) && a.shift == b.shift && a.ctrl == b.ctrl && a.alt
        == b.alt
}

/// The action of the first row of `table` whose chord is `chord`; each row
/// is `((id, chord), (action, label))`.
pub open spec fn first_action<A>(table: Seq<((Seq<char>, ChordView), (A, Seq<char>))>, chord: ChordView) -> Option<A>
    decreases table.len(),
{
    if table.len() == 0 {
        None
    } else if table[0].0.1 == chord {
        Some(table[0].1.0)
    } else {
        first_action(table.drop_first(), chord)
    }
}

/// No two rows of `table` share a chord.
pub open spec fn chords_are_unique<A>(table: Seq<((Seq<char>, ChordView), (A, Seq<char>))>) -> bool {
    forall|i: int, j: int| 0 <= i < j < table.len() ==> table[i].0.1 != table[j].0.1
}

/// No two rows of `table` share an id.
pub open spec fn ids_are_unique<A>(table: Seq<((Seq<char>, ChordView), (A, Seq<char>))>) -> bool {
    forall|i: int, j: int| 0 <= i < j < table.len() ==> table[i].0.0 != table[j].0.0
}

/// In a table whose chords are unique, every row's chord resolves to that
/// row's own action.
pub proof fn lemma_unique_chords_resolve_to_their_rows<A>(
    table: Seq<((Seq<char>, ChordView), (A, Seq<char>))>,
    i: int,
)
    requires
        chords_are_unique(table),
        0 <= i < table.len(),
    ensures
        first_action(table, table[i].0.1) == Some(table[i].1.0),
    decreases i,
{
    if i > 0 {
        let rest = table.drop_first();
        assert forall|a: int, b: int| 0 <= a < b < rest.len() implies rest[a].0.1 != rest[b].0.1 by {
            assert(rest[a] == table[a + 1] && rest[b] == table[b + 1]);
        }
        assert(table[0].0.1 != table[i].0.1);
        assert(rest[i - 1] == table[i]);
        lemma_unique_chords_resolve_to_their_rows(rest, i - 1);
    }
}

/// Law: the case of a lone alphabetic key never reaches the chord — two
/// alphabetic keys with the same lowercase mapping (such as `N` and `n`)
/// normalize to the same key.
pub proof fn lemma_key_case_is_carried_by_shift_only(a: char, b: char)
    requires
        is_alphabetic_char(a),
        is_alphabetic_char(b),
        lowercase_of(a) == lowercase_of(b),
    ensures
        normalized_key(seq![a]) == normalized_key(seq![b]),
{
}

/// Whether an element with this tag name and `contenteditable` attribute
/// takes typed text: an input, a text area, a select, or an element whose
/// `contenteditable` is present and not `"false"`.
pub open spec fn takes_text(tag: Seq<char>, contenteditable: Option<Seq<char>>) -> bool {
    tag == "INPUT"@ || tag == "TEXTAREA"@ || tag == "SELECT"@ || match contenteditable {
        Some(v) => v != "false"@,
        None => false,
    }
}

/// True when a keydown's target element takes typed text, the guard that
/// keeps command-mode chords from firing while the user types.
pub fn is_text_entry_element(tag: &str, contenteditable: Option<&str>) -> (b: bool)
    ensures
        b == takes_text(
            tag@,
            match contenteditable {
                Some(v) => Some(v@),
                None => None,
            },
        ),
{
    if str_equal(tag, "INPUT") || str_equal(tag, "TEXTAREA") || str_equal(tag, "SELECT") {
        return true;
    }
    match contenteditable {
        Some(v) => !str_equal(v, "false"),
        None => false,
    }
}

} // verus!
