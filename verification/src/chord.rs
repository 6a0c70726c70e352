//! Reading the text of a keyboard shortcut, such as `Ctrl+Alt+Space`, into
//! a chord: modifiers joined by `+`, then one key.
use vstd::prelude::*;

use crate::recorder::{chord_text, has_modifier, ALT_MASK, CONTROL_MASK, SHIFT_MASK, SUPER_MASK};
use crate::shortcut::{ascii_upper, ShortcutChord, ShortcutKey, ShortcutModifiers};
use crate::text::{chars_equal, chars_of, is_ws, lemma_pieces_nonempty, pieces_from, trim_end, trim_start, parse_u16, parsed_u16, slice_chars, split_chars, split_on, trim, trim_chars};

verus! {

broadcast use vstd::string::group_string_axioms;

/// `c` with an ASCII upper-case letter made lower case.
pub open spec fn lower_char(c: char) -> char {
    if 'A' <= c && c <= 'Z' {
        ((c as u32) + 32) as char
    } else {
        c
    }
}

/// A word of a shortcut as it is compared: ASCII lower case, without `_`.
pub open spec fn key_word(s: Seq<char>) -> Seq<char>
    decreases s.len(),
{
    if s.len() == 0 {
        seq![]
    } else {
        let p = key_word(s.drop_last());
        if s.last() == '_' {
            p
        } else {
            p.push(lower_char(s.last()))
        }
    }
}

/// A modifier of a chord.
#[derive(Debug, Clone, Copy, PartialEq, Eq, Structural)]
pub enum Modifier {
    Ctrl,
    Alt,
    Shift,
    Super,
}

/// The modifier a word names: `ctrl` or `control`, `alt`, `shift`, and
/// `super` or `meta`.
pub open spec fn modifier_word(w: Seq<char>) -> Option<Modifier> {
    if w == "ctrl"@ || w == "control"@ {
        Some(Modifier::Ctrl)
    } else if w == "alt"@ {
        Some(Modifier::Alt)
    } else if w == "shift"@ {
        Some(Modifier::Shift)
    } else if w == "super"@ || w == "meta"@ {
        Some(Modifier::Super)
    } else {
        None
    }
}

/// `m` with the modifier `x` held too.
pub open spec fn add_modifier(m: ShortcutModifiers, x: Modifier) -> ShortcutModifiers {
    match x {
        Modifier::Ctrl => ShortcutModifiers { ctrl: true, ..m },
        Modifier::Alt => ShortcutModifiers { alt: true, ..m },
        Modifier::Shift => ShortcutModifiers { shift: true, ..m },
        Modifier::Super => ShortcutModifiers { super_key: true, ..m },
    }
}

/// The number of a function key word `f1` to `f24`.
pub open spec fn function_number(w: Seq<char>) -> Option<u8> {
    if w.len() >= 2 && w[0] == 'f' && parsed_u16(w.subrange(1, w.len() as int)) is Some {
        let n = parsed_u16(w.subrange(1, w.len() as int))->0;
        if 1 <= n <= 24 {
            Some(n as u8)
        } else {
            None
        }
    } else {
        None
    }
}

/// The key a part of a shortcut names: a key name in any case, `_`
/// ignored, or a single character.
pub open spec fn key_named(part: Seq<char>) -> Option<ShortcutKey> {
    let t = trim(part);
    let w = key_word(t);
    if w == "space"@ {
        Some(ShortcutKey::Space)
    } else if w == "escape"@ || w == "esc"@ {
        Some(ShortcutKey::Escape)
    } else if w == "enter"@ || w == "return"@ {
        Some(ShortcutKey::Enter)
    } else if w == "tab"@ {
        Some(ShortcutKey::Tab)
    } else if w == "backspace"@ {
        Some(ShortcutKey::Backspace)
    } else if w == "delete"@ || w == "del"@ {
        Some(ShortcutKey::Delete)
    } else if w == "insert"@ {
        Some(ShortcutKey::Insert)
    } else if w == "home"@ {
        Some(ShortcutKey::Home)
    } else if w == "end"@ {
        Some(ShortcutKey::End)
    } else if w == "pageup"@ {
        Some(ShortcutKey::PageUp)
    } else if w == "pagedown"@ {
        Some(ShortcutKey::PageDown)
    } else if function_number(w) is Some {
        Some(ShortcutKey::Function(function_number(w)->0))
    } else if t.len() == 1 {
        Some(ShortcutKey::Character(ascii_upper(t[0])))
    } else {
        None
    }
}

/// No modifier held.
pub open spec fn no_modifiers() -> ShortcutModifiers {
    ShortcutModifiers { ctrl: false, alt: false, shift: false, super_key: false }
}

/// The modifiers the first `n` parts name; none when one of them is not a
/// modifier.
pub open spec fn modifiers_from(parts: Seq<Seq<char>>, n: int) -> Option<ShortcutModifiers>
    decreases n,
{
    if n <= 0 {
        Some(no_modifiers())
    } else {
        match modifiers_from(parts, n - 1) {
            None => None,
            Some(m) => match modifier_word(key_word(trim(parts[n - 1]))) {
                Some(x) => Some(add_modifier(m, x)),
                None => None,
            },
        }
    }
}

/// The chord a shortcut text names, or why it names none.
pub open spec fn chord_of(text: Seq<char>) -> Result<ShortcutChord, Seq<char>> {
    let parts = split_on(text, '+');
    if exists|i: int| 0 <= i < parts.len() && trim(#[trigger] parts[i]).len() == 0 {
        Err("shortcut has an empty part"@)
    } else {
        match modifiers_from(parts, parts.len() - 1) {
            None => Err("unknown modifier in shortcut"@),
            Some(m) => match key_named(parts.last()) {
                None => Err("unsupported shortcut key"@),
                Some(k) => Ok(ShortcutChord { modifiers: m, key: k }),
            },
        }
    }
}

fn lower_of(c: char) -> (r: char)
    ensures
        r == lower_char(c),
{
    if 'A' <= c && c <= 'Z' {
        let u = (c as u32) + 32;
        let r = (u as u8) as char;
        proof {
            assert(r as u32 == u);
            vstd::utf8::char_u32_cast(r, u);
        }
        r
    } else {
        c
    }
}

fn key_word_of(s: &[char]) -> (r: Vec<char>)
    ensures
        r@ == key_word(s@),
{
    let mut out: Vec<char> = Vec::new();
    let mut i: usize = 0;
    while i < s.len()
        invariant
            i <= s@.len(),
            out@ == key_word(s@.subrange(0, i as int)),
        decreases s@.len() - i,
    {
        assert(s@.subrange(0, i + 1).drop_last() =~= s@.subrange(0, i as int));
        if s[i] != '_' {
            out.push(lower_of(s[i]));
        }
        i = i + 1;
    }
    assert(s@.subrange(0, i as int) =~= s@);
    out
}

fn word_is(w: &[char], name: &str) -> (b: bool)
    ensures
        b == (w@ == name@),
{
    let n = chars_of(name);
    chars_equal(w, n.as_slice())
}

fn modifier_of(w: &[char]) -> (r: Option<Modifier>)
    ensures
        r == modifier_word(w@),
{
    if word_is(w, "ctrl") || word_is(w, "control") {
        Some(Modifier::Ctrl)
    } else if word_is(w, "alt") {
        Some(Modifier::Alt)
    } else if word_is(w, "shift") {
        Some(Modifier::Shift)
    } else if word_is(w, "super") || word_is(w, "meta") {
        Some(Modifier::Super)
    } else {
        None
    }
}

fn function_of(w: &[char]) -> (r: Option<u8>)
    ensures
        r == function_number(w@),
{
    if w.len() >= 2 && w[0] == 'f' {
        let digits = slice_chars(w, 1, w.len());
        match parse_u16(digits.as_slice()) {
            Some(n) => {
                if 1 <= n && n <= 24 {
                    Some(n as u8)
                } else {
                    None
                }
            },
            None => None,
        }
    } else {
        None
    }
}

/// The key a part of a shortcut names.
pub fn key_from_part(part: &[char]) -> (r: Option<ShortcutKey>)
    ensures
        r == key_named(part@),
{
    let t = trim_chars(part);
    let w = key_word_of(t.as_slice());
    let ws = w.as_slice();
    if word_is(ws, "space") {
        Some(ShortcutKey::Space)
    } else if word_is(ws, "escape") || word_is(ws, "esc") {
        Some(ShortcutKey::Escape)
    } else if word_is(ws, "enter") || word_is(ws, "return") {
        Some(ShortcutKey::Enter)
    } else if word_is(ws, "tab") {
        Some(ShortcutKey::Tab)
    } else if word_is(ws, "backspace") {
        Some(ShortcutKey::Backspace)
    } else if word_is(ws, "delete") || word_is(ws, "del") {
        Some(ShortcutKey::Delete)
    } else if word_is(ws, "insert") {
        Some(ShortcutKey::Insert)
    } else if word_is(ws, "home") {
        Some(ShortcutKey::Home)
    } else if word_is(ws, "end") {
        Some(ShortcutKey::End)
    } else if word_is(ws, "pageup") {
        Some(ShortcutKey::PageUp)
    } else if word_is(ws, "pagedown") {
        Some(ShortcutKey::PageDown)
    } else {
        match function_of(ws) {
            Some(n) => Some(ShortcutKey::Function(n)),
            None => {
                if t.len() == 1 {
                    let c = t[0];
                    let up = if 'a' <= c && c <= 'z' {
                        let u = (c as u32) - 32;
                        let r = (u as u8) as char;
                        proof {
                            assert(r as u32 == u);
                            vstd::utf8::char_u32_cast(r, u);
                        }
                        r
                    } else {
                        c
                    };
                    Some(ShortcutKey::Character(up))
                } else {
                    None
                }
            },
        }
    }
}

impl ShortcutChord {
    /// Reads a shortcut text such as `Ctrl+Alt+Space`: parts separated by
    /// `+`, none of them blank, every part but the last a modifier and the
    /// last a key.
    pub fn parse(text: &str) -> (r: Result<ShortcutChord, String>)
        ensures
            match chord_of(text@) {
                Ok(c) => r == Ok::<ShortcutChord, String>(c),
                Err(e) => r matches Err(m) && m@ == e,
            },
    {
        let v = chars_of(text);
        let parts = split_chars(v.as_slice(), '+');
        let ghost pv = parts@.map_values(|p: Vec<char>| p@);
        assert(pv == split_on(text@, '+'));
        let mut i: usize = 0;
        while i < parts.len()
            invariant
                i <= parts@.len(),
                pv == parts@.map_values(|p: Vec<char>| p@),
                pv == split_on(text@, '+'),
                pv.len() == parts@.len(),
                forall|k: int| 0 <= k < i ==> trim(#[trigger] pv[k]).len() > 0,
            decreases parts@.len() - i,
        {
            let t = trim_chars(parts[i].as_slice());
            assert(pv[i as int] == parts@[i as int]@);
            if t.len() == 0 {
                assert(trim(pv[i as int]).len() == 0);
                assert(chord_of(text@) == Err::<ShortcutChord, Seq<char>>("shortcut has an empty part"@));
                return Err("shortcut has an empty part".to_string());
            }
            i = i + 1;
        }
        assert(pv.len() == parts@.len());
        assert(!exists|k: int| 0 <= k < pv.len() && trim(#[trigger] pv[k]).len() == 0);
        proof {
            lemma_pieces_nonempty(text@, '+', seq![]);
        }
        assert(pv.len() >= 1);
        let last = parts.len() - 1;
        let mut m = ShortcutModifiers { ctrl: false, alt: false, shift: false, super_key: false };
        let mut j: usize = 0;
        while j < last
            invariant
                j <= last,
                last == parts@.len() - 1,
                pv == parts@.map_values(|p: Vec<char>| p@),
                pv == split_on(text@, '+'),
                pv.len() == parts@.len(),
                !exists|k: int| 0 <= k < pv.len() && trim(#[trigger] pv[k]).len() == 0,
                modifiers_from(pv, j as int) == Some(m),
            decreases last - j,
        {
            let t = trim_chars(parts[j].as_slice());
            let w = key_word_of(t.as_slice());
            assert(pv[j as int] == parts@[j as int]@);
            match modifier_of(w.as_slice()) {
                Some(Modifier::Ctrl) => m.ctrl = true,
                Some(Modifier::Alt) => m.alt = true,
                Some(Modifier::Shift) => m.shift = true,
                Some(Modifier::Super) => m.super_key = true,
                None => {
                    proof {
                        assert(modifier_word(key_word(trim(pv[j as int]))) is None);
                        assert(modifiers_from(pv, j as int + 1) is None);
                        lemma_modifiers_stay_none(pv, j as int + 1, last as int);
                    }
                    return Err("unknown modifier in shortcut".to_string());
                },
            }
            j = j + 1;
        }
        assert(pv[last as int] == parts@[last as int]@);
        match key_from_part(parts[last].as_slice()) {
            Some(k) => Ok(ShortcutChord { modifiers: m, key: k }),
            None => Err("unsupported shortcut key".to_string()),
        }
    }
}

proof fn lemma_modifiers_stay_none(parts: Seq<Seq<char>>, i: int, n: int)
    requires
        0 <= i <= n,
        modifiers_from(parts, i) is None,
    ensures
        modifiers_from(parts, n) is None,
    decreases n - i,
{
    if i < n {
        lemma_modifiers_stay_none(parts, i, n - 1);
    }
}


/// The modifiers a key event's state holds.
pub open spec fn state_modifiers(state: u32) -> ShortcutModifiers {
    ShortcutModifiers {
        ctrl: has_modifier(state, CONTROL_MASK),
        alt: has_modifier(state, ALT_MASK),
        shift: has_modifier(state, SHIFT_MASK),
        super_key: has_modifier(state, SUPER_MASK),
    }
}

/// The words joined, each followed by `+`.
pub open spec fn plus_joined(ws: Seq<Seq<char>>) -> Seq<char>
    decreases ws.len(),
{
    if ws.len() == 0 {
        seq![]
    } else {
        ws[0] + seq!['+'] + plus_joined(ws.drop_first())
    }
}

proof fn lemma_plus_joined_push(ws: Seq<Seq<char>>, x: Seq<char>)
    ensures
        plus_joined(ws.push(x)) == plus_joined(ws) + x + seq!['+'],
    decreases ws.len(),
{
    if ws.len() == 0 {
        assert(ws.push(x).drop_first() =~= Seq::<Seq<char>>::empty());
        assert(plus_joined(Seq::<Seq<char>>::empty()) == Seq::<char>::empty());
        assert(plus_joined(ws.push(x)) =~= x + seq!['+']);
    } else {
        assert(ws.push(x).drop_first() =~= ws.drop_first().push(x));
        lemma_plus_joined_push(ws.drop_first(), x);
        assert(plus_joined(ws.push(x)) =~= plus_joined(ws) + x + seq!['+']);
    }
}

proof fn lemma_pieces_of_word(w: Seq<char>, rest: Seq<char>, cur: Seq<char>)
    requires
        !w.contains('+'),
    ensures
        pieces_from(w + seq!['+'] + rest, '+', cur) == seq![cur + w] + pieces_from(rest, '+', seq![]),
    decreases w.len(),
{
    let s = w + seq!['+'] + rest;
    if w.len() == 0 {
        assert(s[0] == '+');
        assert(s.drop_first() =~= rest);
        assert(cur + w =~= cur);
    } else {
        assert(s[0] == w[0]);
        assert(w[0] != '+') by {
            if w[0] == '+' {
                assert(w.contains('+'));
            }
        }
        assert(!w.drop_first().contains('+')) by {
            if w.drop_first().contains('+') {
                let i = choose|i: int| 0 <= i < w.drop_first().len() && w.drop_first()[i] == '+';
                assert(w[i + 1] == '+');
            }
        }
        assert(s.drop_first() =~= w.drop_first() + seq!['+'] + rest);
        lemma_pieces_of_word(w.drop_first(), rest, cur.push(w[0]));
        assert(cur.push(w[0]) + w.drop_first() =~= cur + w);
    }
}

proof fn lemma_pieces_of_last(k: Seq<char>, cur: Seq<char>)
    requires
        !k.contains('+'),
    ensures
        pieces_from(k, '+', cur) == seq![cur + k],
    decreases k.len(),
{
    if k.len() == 0 {
        assert(cur + k =~= cur);
    } else {
        assert(k[0] != '+') by {
            if k[0] == '+' {
                assert(k.contains('+'));
            }
        }
        assert(!k.drop_first().contains('+')) by {
            if k.drop_first().contains('+') {
                let i = choose|i: int| 0 <= i < k.drop_first().len() && k.drop_first()[i] == '+';
                assert(k[i + 1] == '+');
            }
        }
        lemma_pieces_of_last(k.drop_first(), cur.push(k[0]));
        assert(cur.push(k[0]) + k.drop_first() =~= cur + k);
    }
}

proof fn lemma_split_plus_joined(ws: Seq<Seq<char>>, k: Seq<char>)
    requires
        forall|i: int| 0 <= i < ws.len() ==> !(#[trigger] ws[i]).contains('+'),
        !k.contains('+'),
    ensures
        split_on(plus_joined(ws) + k, '+') == ws.push(k),
    decreases ws.len(),
{
    if ws.len() == 0 {
        lemma_pieces_of_last(k, seq![]);
        assert(plus_joined(ws) + k =~= k);
        assert(seq![Seq::<char>::empty() + k] =~= ws.push(k));
    } else {
        let rest = ws.drop_first();
        assert forall|i: int| 0 <= i < rest.len() implies !(#[trigger] rest[i]).contains('+') by {
            assert(rest[i] == ws[i + 1]);
        }
        lemma_split_plus_joined(rest, k);
        assert(plus_joined(ws) + k =~= ws[0] + seq!['+'] + (plus_joined(rest) + k));
        lemma_pieces_of_word(ws[0], plus_joined(rest) + k, seq![]);
        assert(Seq::<char>::empty() + ws[0] =~= ws[0]);
        assert(seq![ws[0]] + rest.push(k) =~= ws.push(k));
    }
}

proof fn lemma_key_word_of_letters(w: Seq<char>)
    requires
        !w.contains('_'),
    ensures
        key_word(w) == w.map_values(|c: char| lower_char(c)),
    decreases w.len(),
{
    if w.len() > 0 {
        assert(!w.drop_last().contains('_')) by {
            if w.drop_last().contains('_') {
                let i = choose|i: int| 0 <= i < w.drop_last().len() && w.drop_last()[i] == '_';
                assert(w[i] == '_');
            }
        }
        assert(w.last() != '_') by {
            if w.last() == '_' {
                assert(w.contains('_'));
            }
        }
        lemma_key_word_of_letters(w.drop_last());
        assert(w.map_values(|c: char| lower_char(c)) =~= w.drop_last().map_values(
            |c: char| lower_char(c),
        ).push(lower_char(w.last())));
    }
}

proof fn lemma_trim_unchanged(w: Seq<char>)
    requires
        w.len() > 0,
        !is_ws(w[0]),
        !is_ws(w.last()),
    ensures
        trim(w) == w,
{
    assert(trim_start(w) == w);
    assert(trim_end(w) == w);
}

/// What the parser needs of a modifier word `w` shown as `shown`, in the
/// text a recorder writes `written` (the word and `+`).
pub open spec fn modifier_word_reads(w: Seq<char>, written: Seq<char>, m: Modifier) -> bool {
    &&& written == w + seq!['+']
    &&& !w.contains('+')
    &&& trim(w).len() > 0
    &&& modifier_word(key_word(trim(w))) == Some(m)
}

proof fn lemma_word_reads(w: Seq<char>, written: Seq<char>, lower: Seq<char>, m: Modifier)
    requires
        written == w + seq!['+'],
        w.len() > 0,
        forall|i: int| 0 <= i < w.len() ==> #[trigger] w[i] != '+' && w[i] != '_',
        !is_ws(w[0]),
        !is_ws(w.last()),
        w.map_values(|c: char| lower_char(c)) == lower,
        modifier_word(lower) == Some(m),
    ensures
        modifier_word_reads(w, written, m),
{
    lemma_trim_unchanged(w);
    lemma_key_word_of_letters(w);
}

proof fn lemma_modifier_words_read()
    ensures
        modifier_word_reads("Ctrl"@, "Ctrl+"@, Modifier::Ctrl),
        modifier_word_reads("Alt"@, "Alt+"@, Modifier::Alt),
        modifier_word_reads("Shift"@, "Shift+"@, Modifier::Shift),
        modifier_word_reads("Super"@, "Super+"@, Modifier::Super),
{
    assert(modifier_word_reads("Ctrl"@, "Ctrl+"@, Modifier::Ctrl)) by {
        reveal_strlit("Ctrl");
        reveal_strlit("Ctrl+");
        reveal_strlit("ctrl");
        vstd::utf8::char_u32_cast('c', 99);
        assert("Ctrl"@.map_values(|c: char| lower_char(c)) =~= "ctrl"@);
        assert("Ctrl+"@ =~= "Ctrl"@ + seq!['+']);
        reveal_strlit("ctrl");
        reveal_strlit("control");
        reveal_strlit("alt");
        reveal_strlit("shift");
        lemma_word_reads("Ctrl"@, "Ctrl+"@, "ctrl"@, Modifier::Ctrl);
    }
    assert(modifier_word_reads("Alt"@, "Alt+"@, Modifier::Alt)) by {
        reveal_strlit("Alt");
        reveal_strlit("Alt+");
        reveal_strlit("alt");
        vstd::utf8::char_u32_cast('a', 97);
        assert("Alt"@.map_values(|c: char| lower_char(c)) =~= "alt"@);
        assert("Alt+"@ =~= "Alt"@ + seq!['+']);
        reveal_strlit("ctrl");
        reveal_strlit("control");
        reveal_strlit("alt");
        reveal_strlit("shift");
        lemma_word_reads("Alt"@, "Alt+"@, "alt"@, Modifier::Alt);
    }
    assert(modifier_word_reads("Shift"@, "Shift+"@, Modifier::Shift)) by {
        reveal_strlit("Shift");
        reveal_strlit("Shift+");
        reveal_strlit("shift");
        vstd::utf8::char_u32_cast('s', 115);
        assert("Shift"@.map_values(|c: char| lower_char(c)) =~= "shift"@);
        assert("Shift+"@ =~= "Shift"@ + seq!['+']);
        reveal_strlit("ctrl");
        reveal_strlit("control");
        reveal_strlit("alt");
        reveal_strlit("shift");
        lemma_word_reads("Shift"@, "Shift+"@, "shift"@, Modifier::Shift);
    }
    assert(modifier_word_reads("Super"@, "Super+"@, Modifier::Super)) by {
        reveal_strlit("Super");
        reveal_strlit("Super+");
        reveal_strlit("super");
        vstd::utf8::char_u32_cast('s', 115);
        assert("Super"@.map_values(|c: char| lower_char(c)) =~= "super"@);
        assert("Super+"@ =~= "Super"@ + seq!['+']);
        reveal_strlit("ctrl");
        reveal_strlit("control");
        reveal_strlit("alt");
        reveal_strlit("shift");
        assert("super"@ != "shift"@) by {
            assert("super"@[1] != "shift"@[1]);
        }
        lemma_word_reads("Super"@, "Super+"@, "super"@, Modifier::Super);
    }
}


/// The modifier words a key event's state holds, in the order the
/// recorder writes them.
pub open spec fn held_words(state: u32) -> Seq<Seq<char>> {
    let w0 = Seq::<Seq<char>>::empty();
    let w1 = if has_modifier(state, CONTROL_MASK) {
        w0.push("Ctrl"@)
    } else {
        w0
    };
    let w2 = if has_modifier(state, ALT_MASK) {
        w1.push("Alt"@)
    } else {
        w1
    };
    let w3 = if has_modifier(state, SHIFT_MASK) {
        w2.push("Shift"@)
    } else {
        w2
    };
    if has_modifier(state, SUPER_MASK) {
        w3.push("Super"@)
    } else {
        w3
    }
}

/// Whether `w` is one of the modifier words the recorder writes.
pub open spec fn is_written_modifier(w: Seq<char>) -> bool {
    w == "Ctrl"@ || w == "Alt"@ || w == "Shift"@ || w == "Super"@
}

/// A shortcut the recorder writes reads back as the chord it recorded:
/// the held modifiers and the named key. The key's name must be neither
/// blank nor contain `+`, which separates the parts.
pub proof fn lemma_recorded_chord_parses(state: u32, key: Seq<char>)
    requires
        trim(key).len() > 0,
        !key.contains('+'),
    ensures
        chord_of(chord_text(state, key)) == match key_named(key) {
            Some(k) => Ok::<ShortcutChord, Seq<char>>(
                ShortcutChord { modifiers: state_modifiers(state), key: k },
            ),
            None => Err::<ShortcutChord, Seq<char>>("unsupported shortcut key"@),
        },
{
    lemma_modifier_words_read();
    let c = has_modifier(state, CONTROL_MASK);
    let a = has_modifier(state, ALT_MASK);
    let sh = has_modifier(state, SHIFT_MASK);
    let su = has_modifier(state, SUPER_MASK);
    let w0 = Seq::<Seq<char>>::empty();
    let w1 = if c { w0.push("Ctrl"@) } else { w0 };
    let w2 = if a { w1.push("Alt"@) } else { w1 };
    let w3 = if sh { w2.push("Shift"@) } else { w2 };
    let w4 = if su { w3.push("Super"@) } else { w3 };
    assert(w4 == held_words(state));
    let p1 = if c { "Ctrl+"@ } else { Seq::<char>::empty() };
    let p2 = if a { "Alt+"@ } else { Seq::<char>::empty() };
    let p3 = if sh { "Shift+"@ } else { Seq::<char>::empty() };
    let p4 = if su { "Super+"@ } else { Seq::<char>::empty() };
    assert(plus_joined(w0) == Seq::<char>::empty());
    assert(plus_joined(w1) == p1) by {
        if c {
            lemma_plus_joined_push(w0, "Ctrl"@);
            assert(Seq::<char>::empty() + "Ctrl"@ + seq!['+'] =~= "Ctrl"@ + seq!['+']);
        }
    }
    assert(plus_joined(w2) == p1 + p2) by {
        if a {
            lemma_plus_joined_push(w1, "Alt"@);
            assert(p1 + "Alt"@ + seq!['+'] =~= p1 + ("Alt"@ + seq!['+']));
        } else {
            assert(p1 + p2 =~= p1);
        }
    }
    assert(plus_joined(w3) == p1 + p2 + p3) by {
        if sh {
            lemma_plus_joined_push(w2, "Shift"@);
            assert(p1 + p2 + "Shift"@ + seq!['+'] =~= p1 + p2 + ("Shift"@ + seq!['+']));
        } else {
            assert(p1 + p2 + p3 =~= p1 + p2);
        }
    }
    assert(plus_joined(w4) == p1 + p2 + p3 + p4) by {
        if su {
            lemma_plus_joined_push(w3, "Super"@);
            assert(p1 + p2 + p3 + "Super"@ + seq!['+'] =~= p1 + p2 + p3 + ("Super"@ + seq!['+']));
        } else {
            assert(p1 + p2 + p3 + p4 =~= p1 + p2 + p3);
        }
    }
    let text = chord_text(state, key);
    assert(text =~= plus_joined(w4) + key);
    assert forall|i: int| 0 <= i < w4.len() implies is_written_modifier(#[trigger] w4[i]) by {
        if su && i == w3.len() {
        } else if sh && i == w2.len() {
        } else if a && i == w1.len() {
        }
    }
    assert forall|i: int| 0 <= i < w4.len() implies !(#[trigger] w4[i]).contains('+') by {
        assert(is_written_modifier(w4[i]));
    }
    lemma_split_plus_joined(w4, key);
    let parts = w4.push(key);
    assert(split_on(text, '+') == parts);
    assert forall|i: int| 0 <= i < parts.len() implies trim(#[trigger] parts[i]).len() > 0 by {
        if i < w4.len() {
            assert(is_written_modifier(w4[i]));
        }
    }
    assert(!exists|i: int| 0 <= i < parts.len() && trim(#[trigger] parts[i]).len() == 0);
    let n1 = w1.len() as int;
    let n2 = w2.len() as int;
    let n3 = w3.len() as int;
    let n4 = w4.len() as int;
    let m1 = if c { add_modifier(no_modifiers(), Modifier::Ctrl) } else { no_modifiers() };
    let m2 = if a { add_modifier(m1, Modifier::Alt) } else { m1 };
    let m3 = if sh { add_modifier(m2, Modifier::Shift) } else { m2 };
    let m4 = if su { add_modifier(m3, Modifier::Super) } else { m3 };
    assert(modifiers_from(parts, 0) == Some(no_modifiers()));
    assert(modifiers_from(parts, n1) == Some(m1)) by {
        if c {
            assert(parts[0] == "Ctrl"@);
        }
    }
    assert(modifiers_from(parts, n2) == Some(m2)) by {
        if a {
            assert(parts[n1] == "Alt"@);
        }
    }
    assert(modifiers_from(parts, n3) == Some(m3)) by {
        if sh {
            assert(parts[n2] == "Shift"@);
        }
    }
    assert(modifiers_from(parts, n4) == Some(m4)) by {
        if su {
            assert(parts[n3] == "Super"@);
        }
    }
    assert(m4 == state_modifiers(state));
    assert(parts.len() - 1 == n4);
    assert(parts.last() == key);
}

/// The toolkit's name of a chord key, which the settings recorder writes
/// for a key that types no printable character: `Space`, `Escape`,
/// `Enter`, `Tab`, `BackSpace`, `Delete`, `Insert`, `Home`, `End`,
/// `Page_Up`, `Page_Down`, `F1` to `F24`; a character key is written as
/// the character itself.
pub open spec fn toolkit_key_name(k: ShortcutKey) -> Seq<char> {
    match k {
        ShortcutKey::Space => "Space"@,
        ShortcutKey::Escape => "Escape"@,
        ShortcutKey::Enter => "Enter"@,
        ShortcutKey::Tab => "Tab"@,
        ShortcutKey::Backspace => "BackSpace"@,
        ShortcutKey::Delete => "Delete"@,
        ShortcutKey::Insert => "Insert"@,
        ShortcutKey::Home => "Home"@,
        ShortcutKey::End => "End"@,
        ShortcutKey::PageUp => "Page_Up"@,
        ShortcutKey::PageDown => "Page_Down"@,
        ShortcutKey::Function(n) => seq!['F'] + crate::text::decimal(n as nat),
        ShortcutKey::Character(c) => seq![c],
    }
}

/// Whether a chord can name key `k`: function keys F1 to F24, and
/// characters that are not white space and not lower case (a shortcut
/// holds letters upper case).
pub open spec fn nameable_key(k: ShortcutKey) -> bool {
    match k {
        ShortcutKey::Function(n) => 1 <= n <= 24,
        ShortcutKey::Character(c) => !is_ws(c) && !('a' <= c <= 'z'),
        _ => true,
    }
}

proof fn lemma_key_word_concat(x: Seq<char>, y: Seq<char>)
    ensures
        key_word(x + y) == key_word(x) + key_word(y),
    decreases y.len(),
{
    if y.len() == 0 {
        assert(x + y =~= x);
        assert(key_word(x) + key_word(y) =~= key_word(x));
    } else {
        assert((x + y).drop_last() =~= x + y.drop_last());
        assert((x + y).last() == y.last());
        lemma_key_word_concat(x, y.drop_last());
        if y.last() != '_' {
            assert(key_word(x) + key_word(y) =~= (key_word(x) + key_word(y.drop_last())).push(
                lower_char(y.last()),
            ));
        }
    }
}

proof fn lemma_plain_word(name: Seq<char>, word: Seq<char>)
    requires
        name.len() == word.len(),
        forall|i: int| 0 <= i < name.len() ==> #[trigger] name[i] != '_' && lower_char(name[i]) == word[i],
    ensures
        key_word(name) == word,
{
    assert(!name.contains('_'));
    lemma_key_word_of_letters(name);
    assert(name.map_values(|c: char| lower_char(c)) =~= word);
}

proof fn lemma_key_literals()
    ensures
        "space"@ == seq!['s', 'p', 'a', 'c', 'e'],
        "escape"@ == seq!['e', 's', 'c', 'a', 'p', 'e'],
        "esc"@ == seq!['e', 's', 'c'],
        "enter"@ == seq!['e', 'n', 't', 'e', 'r'],
        "return"@ == seq!['r', 'e', 't', 'u', 'r', 'n'],
        "tab"@ == seq!['t', 'a', 'b'],
        "backspace"@ == seq!['b', 'a', 'c', 'k', 's', 'p', 'a', 'c', 'e'],
        "delete"@ == seq!['d', 'e', 'l', 'e', 't', 'e'],
        "del"@ == seq!['d', 'e', 'l'],
        "insert"@ == seq!['i', 'n', 's', 'e', 'r', 't'],
        "home"@ == seq!['h', 'o', 'm', 'e'],
        "end"@ == seq!['e', 'n', 'd'],
        "pageup"@ == seq!['p', 'a', 'g', 'e', 'u', 'p'],
        "pagedown"@ == seq!['p', 'a', 'g', 'e', 'd', 'o', 'w', 'n'],
{
    reveal_strlit("space");
    reveal_strlit("escape");
    reveal_strlit("esc");
    reveal_strlit("enter");
    reveal_strlit("return");
    reveal_strlit("tab");
    reveal_strlit("backspace");
    reveal_strlit("delete");
    reveal_strlit("del");
    reveal_strlit("insert");
    reveal_strlit("home");
    reveal_strlit("end");
    reveal_strlit("pageup");
    reveal_strlit("pagedown");
}

proof fn lemma_upper_lowers()
    ensures
        lower_char('S') == 's',
        lower_char('E') == 'e',
        lower_char('T') == 't',
        lower_char('B') == 'b',
        lower_char('D') == 'd',
        lower_char('I') == 'i',
        lower_char('H') == 'h',
        lower_char('P') == 'p',
        lower_char('U') == 'u',
        lower_char('F') == 'f',
{
    vstd::utf8::char_u32_cast('s', 115);
    vstd::utf8::char_u32_cast('e', 101);
    vstd::utf8::char_u32_cast('t', 116);
    vstd::utf8::char_u32_cast('b', 98);
    vstd::utf8::char_u32_cast('d', 100);
    vstd::utf8::char_u32_cast('i', 105);
    vstd::utf8::char_u32_cast('h', 104);
    vstd::utf8::char_u32_cast('p', 112);
    vstd::utf8::char_u32_cast('u', 117);
    vstd::utf8::char_u32_cast('f', 102);
}

proof fn lemma_plain_name_reads(name: Seq<char>, word: Seq<char>)
    requires
        name.len() > 0,
        !is_ws(name[0]),
        !is_ws(name.last()),
        name.len() == word.len(),
        forall|i: int| 0 <= i < name.len() ==> #[trigger] name[i] != '_' && lower_char(name[i]) == word[i],
    ensures
        key_word(trim(name)) == word,
{
    lemma_trim_unchanged(name);
    lemma_plain_word(name, word);
}

proof fn lemma_page_name_reads(tail: Seq<char>, lower_tail: Seq<char>)
    requires
        tail.len() > 0,
        !is_ws(tail.last()),
        tail.len() == lower_tail.len(),
        forall|i: int| 0 <= i < tail.len() ==> #[trigger] tail[i] != '_' && lower_char(tail[i]) == lower_tail[i],
        lower_char('P') == 'p',
    ensures
        key_word(trim(seq!['P', 'a', 'g', 'e', '_'] + tail)) == seq!['p', 'a', 'g', 'e'] + lower_tail,
{
    let name = seq!['P', 'a', 'g', 'e', '_'] + tail;
    assert(name =~= seq!['P', 'a', 'g', 'e'] + (seq!['_'] + tail));
    lemma_key_word_concat(seq!['P', 'a', 'g', 'e'], seq!['_'] + tail);
    lemma_key_word_concat(seq!['_'], tail);
    lemma_plain_word(seq!['P', 'a', 'g', 'e'], seq!['p', 'a', 'g', 'e']);
    lemma_plain_word(tail, lower_tail);
    assert(key_word(seq!['_']) =~= Seq::<char>::empty()) by {
        assert(seq!['_'].drop_last() =~= Seq::<char>::empty());
        assert(seq!['_'].last() == '_');
        assert(key_word(Seq::<char>::empty()) =~= Seq::<char>::empty());
    }
    assert(name.last() == tail.last());
    lemma_trim_unchanged(name);
    assert(Seq::<char>::empty() + lower_tail =~= lower_tail);
}

/// Each key name that the recorder writes reads back as the key it names:
/// `Page_Down` as Page Down, `F5` as F5, `M` as the M key, and so on for
/// every key a chord can name. Distinct keys thus have distinct names.
pub proof fn lemma_key_names_read_back(k: ShortcutKey)
    requires
        nameable_key(k),
    ensures
        key_named(toolkit_key_name(k)) == Some(k),
{
    lemma_key_literals();
    lemma_upper_lowers();
    let name = toolkit_key_name(k);
    match k {
        ShortcutKey::Space => {
            reveal_strlit("Space");
            lemma_plain_name_reads(name, seq!['s', 'p', 'a', 'c', 'e']);
        },
        ShortcutKey::Escape => {
            reveal_strlit("Escape");
            lemma_plain_name_reads(name, seq!['e', 's', 'c', 'a', 'p', 'e']);
        },
        ShortcutKey::Enter => {
            reveal_strlit("Enter");
            lemma_plain_name_reads(name, seq!['e', 'n', 't', 'e', 'r']);
        },
        ShortcutKey::Tab => {
            reveal_strlit("Tab");
            lemma_plain_name_reads(name, seq!['t', 'a', 'b']);
        },
        ShortcutKey::Backspace => {
            reveal_strlit("BackSpace");
            lemma_plain_name_reads(name, seq!['b', 'a', 'c', 'k', 's', 'p', 'a', 'c', 'e']);
        },
        ShortcutKey::Delete => {
            reveal_strlit("Delete");
            lemma_plain_name_reads(name, seq!['d', 'e', 'l', 'e', 't', 'e']);
        },
        ShortcutKey::Insert => {
            reveal_strlit("Insert");
            lemma_plain_name_reads(name, seq!['i', 'n', 's', 'e', 'r', 't']);
        },
        ShortcutKey::Home => {
            reveal_strlit("Home");
            lemma_plain_name_reads(name, seq!['h', 'o', 'm', 'e']);
        },
        ShortcutKey::End => {
            reveal_strlit("End");
            lemma_plain_name_reads(name, seq!['e', 'n', 'd']);
        },
        ShortcutKey::PageUp => {
            reveal_strlit("Page_Up");
            assert(name =~= seq!['P', 'a', 'g', 'e', '_'] + seq!['U', 'p']);
            lemma_page_name_reads(seq!['U', 'p'], seq!['u', 'p']);
            assert(seq!['p', 'a', 'g', 'e'] + seq!['u', 'p'] =~= seq!['p', 'a', 'g', 'e', 'u', 'p']);
        },
        ShortcutKey::PageDown => {
            reveal_strlit("Page_Down");
            assert(name =~= seq!['P', 'a', 'g', 'e', '_'] + seq!['D', 'o', 'w', 'n']);
            lemma_page_name_reads(seq!['D', 'o', 'w', 'n'], seq!['d', 'o', 'w', 'n']);
            assert(seq!['p', 'a', 'g', 'e'] + seq!['d', 'o', 'w', 'n'] =~= seq![
                'p',
                'a',
                'g',
                'e',
                'd',
                'o',
                'w',
                'n',
            ]);
        },
        ShortcutKey::Function(n) => {
            let d = crate::text::decimal(n as nat);
            crate::text::lemma_decimal_value(n as nat);
            assert(d.len() > 0);
            assert forall|i: int| 0 <= i < d.len() implies #[trigger] d[i] != '_' && lower_char(d[i])
                == d[i] && !is_ws(d[i]) && d[i] != '+' by {
                assert(crate::text::is_digit(d[i]));
            }
            lemma_plain_word(d, d);
            lemma_key_word_concat(seq!['F'], d);
            lemma_plain_word(seq!['F'], seq!['f']);
            assert(name.last() == d.last());
            lemma_trim_unchanged(name);
            let w = seq!['f'] + d;
            assert(key_word(trim(name)) == w);
            assert(w[0] == 'f');
            assert(w.subrange(1, w.len() as int) =~= d);
            assert(crate::text::unsigned_digits(d) == d);
            assert(parsed_u16(d) == Some(n as u16));
            assert(function_number(w) == Some(n));
        },
        ShortcutKey::Character(c) => {
            assert(name.last() == c);
            lemma_trim_unchanged(name);
            assert(seq![c].drop_last() =~= Seq::<char>::empty());
            assert(key_word(Seq::<char>::empty()) =~= Seq::<char>::empty());
            let w = key_word(name);
            assert(w.len() <= 1);
            assert(function_number(w) is None);
            assert(ascii_upper(c) == c);
        },
    }
}

/// A shortcut the settings recorder writes for a key press reads back as
/// the held modifiers and that very key, for every key a chord can name
/// (the `+` key aside, which separates the parts of the text).
pub proof fn lemma_recorded_key_reads_back(state: u32, k: ShortcutKey)
    requires
        nameable_key(k),
        k != ShortcutKey::Character('+'),
    ensures
        chord_of(chord_text(state, toolkit_key_name(k))) == Ok::<ShortcutChord, Seq<char>>(
            ShortcutChord { modifiers: state_modifiers(state), key: k },
        ),
{
    let name = toolkit_key_name(k);
    lemma_key_names_read_back(k);
    reveal_strlit("Space");
    reveal_strlit("Escape");
    reveal_strlit("Enter");
    reveal_strlit("Tab");
    reveal_strlit("BackSpace");
    reveal_strlit("Delete");
    reveal_strlit("Insert");
    reveal_strlit("Home");
    reveal_strlit("End");
    reveal_strlit("Page_Up");
    reveal_strlit("Page_Down");
    if let ShortcutKey::Function(n) = k {
        let d = crate::text::decimal(n as nat);
        crate::text::lemma_decimal_value(n as nat);
        assert forall|i: int| 0 <= i < d.len() implies #[trigger] d[i] != '+' by {
            assert(crate::text::is_digit(d[i]));
        }
        assert forall|i: int| 0 <= i < name.len() implies #[trigger] name[i] != '+' by {
            if i > 0 {
                assert(name[i] == d[i - 1]);
            }
        }
        assert(name.last() == d.last());
        lemma_trim_unchanged(name);
    } else if let ShortcutKey::Character(c) = k {
        assert(name.last() == c);
        lemma_trim_unchanged(name);
    } else {
        lemma_trim_unchanged(name);
    }
    assert(!name.contains('+'));
    lemma_recorded_chord_parses(state, name);
}

} // verus!
