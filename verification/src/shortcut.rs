//! Keyboard chords of shortcuts and the Linux input key codes that the
//! input daemon watches for them.
use vstd::prelude::*;

use crate::hotkey::KeyRequirement;
use crate::text::{push_decimal, push_str, decimal, string_from_chars};

verus! {

broadcast use vstd::string::group_string_axioms;

/// The modifiers of a chord.
#[derive(Debug, Clone, Copy, PartialEq, Eq, Structural)]
pub struct ShortcutModifiers {
    pub ctrl: bool,
    pub alt: bool,
    pub shift: bool,
    pub super_key: bool,
}

/// The non-modifier key of a chord.
#[derive(Debug, Clone, Copy, PartialEq, Eq, Structural)]
pub enum ShortcutKey {
    Character(char),
    Space,
    Escape,
    Enter,
    Tab,
    Backspace,
    Delete,
    Insert,
    Home,
    End,
    PageUp,
    PageDown,
    Function(u8),
}

/// Modifiers held with one key.
#[derive(Debug, Clone, Copy, PartialEq, Eq, Structural)]
pub struct ShortcutChord {
    pub modifiers: ShortcutModifiers,
    pub key: ShortcutKey,
}

/// Linux input key codes of the keys a chord can use.
pub const KEY_ESC: u16 = 1;
pub const KEY_1: u16 = 2;
pub const KEY_0: u16 = 11;
pub const KEY_MINUS: u16 = 12;
pub const KEY_EQUAL: u16 = 13;
pub const KEY_BACKSPACE: u16 = 14;
pub const KEY_TAB: u16 = 15;
pub const KEY_LEFTBRACE: u16 = 26;
pub const KEY_RIGHTBRACE: u16 = 27;
pub const KEY_ENTER: u16 = 28;
pub const KEY_LEFTCTRL: u16 = 29;
pub const KEY_SEMICOLON: u16 = 39;
pub const KEY_APOSTROPHE: u16 = 40;
pub const KEY_GRAVE: u16 = 41;
pub const KEY_LEFTSHIFT: u16 = 42;
pub const KEY_BACKSLASH: u16 = 43;
pub const KEY_V: u16 = 47;
pub const KEY_COMMA: u16 = 51;
pub const KEY_DOT: u16 = 52;
pub const KEY_SLASH: u16 = 53;
pub const KEY_RIGHTSHIFT: u16 = 54;
pub const KEY_LEFTALT: u16 = 56;
pub const KEY_SPACE: u16 = 57;
pub const KEY_F1: u16 = 59;
pub const KEY_RIGHTCTRL: u16 = 97;
pub const KEY_RIGHTALT: u16 = 100;
pub const KEY_HOME: u16 = 102;
pub const KEY_PAGEUP: u16 = 104;
pub const KEY_END: u16 = 107;
pub const KEY_PAGEDOWN: u16 = 109;
pub const KEY_INSERT: u16 = 110;
pub const KEY_DELETE: u16 = 111;
pub const KEY_LEFTMETA: u16 = 125;
pub const KEY_RIGHTMETA: u16 = 126;

/// `c` with ASCII lower-case letters made upper-case.
pub open spec fn ascii_upper(c: char) -> char {
    if 'a' <= c <= 'z' {
        ((c as u32) - 32) as char
    } else {
        c
    }
}

/// The key code of each letter, in alphabetical order.
pub open spec fn letter_codes() -> Seq<u16> {
    seq![
        30u16, 48, 46, 32, 18, 33, 34, 35, 23, 36, 37, 38, 50, 49, 24, 25, 16, 19, 31, 20, 22,
        47, 17, 45, 21, 44,
    ]
}

/// The key code of an ASCII upper-case character, where it has one.
pub open spec fn upper_char_code(c: char) -> Option<u16> {
    if 'A' <= c <= 'Z' {
        Some(letter_codes()[(c as u32) - ('A' as u32)])
    } else if '1' <= c <= '9' {
        Some((KEY_1 + ((c as u32) - ('1' as u32))) as u16)
    } else if c == '0' {
        Some(KEY_0)
    } else if c == '-' {
        Some(KEY_MINUS)
    } else if c == '=' {
        Some(KEY_EQUAL)
    } else if c == ',' {
        Some(KEY_COMMA)
    } else if c == '.' {
        Some(KEY_DOT)
    } else if c == '/' {
        Some(KEY_SLASH)
    } else if c == ';' {
        Some(KEY_SEMICOLON)
    } else if c == '\'' {
        Some(KEY_APOSTROPHE)
    } else if c == '`' {
        Some(KEY_GRAVE)
    } else if c == '[' {
        Some(KEY_LEFTBRACE)
    } else if c == ']' {
        Some(KEY_RIGHTBRACE)
    } else if c == '\\' {
        Some(KEY_BACKSLASH)
    } else {
        None
    }
}

/// The `Debug` text of a character: in single quotes, with escapes.
pub uninterp spec fn char_debug_text(c: char) -> Seq<char>;

/// The `Debug` text of a character (`<char as Debug>::fmt`, through
/// `format!`).
#[verifier::external_body]
fn char_debug(c: char) -> (s: String)
    ensures
        s@ == char_debug_text(c),
{
    format!("{c:?}")
}

/// The key code of a chord character, case-insensitive for letters.
pub fn keycode_for_character(character: char) -> (r: Result<u16, String>)
    ensures
        match upper_char_code(ascii_upper(character)) {
            Some(code) => r == Ok::<u16, String>(code),
            None => r matches Err(e) && e@ == "unsupported evdev shortcut character "@
                + char_debug_text(ascii_upper(character)),
        },
{
    let c = if 'a' <= character && character <= 'z' {
        ((character as u32) - 32) as u8 as char
    } else {
        character
    };
    assert(c == ascii_upper(character));
    if 'A' <= c && c <= 'Z' {
        let codes: [u16; 26] = [
            30, 48, 46, 32, 18, 33, 34, 35, 23, 36, 37, 38, 50, 49, 24, 25, 16, 19, 31, 20, 22, 47,
            17, 45, 21, 44,
        ];
        assert(codes@ =~= letter_codes());
        let i = (c as u32 - 'A' as u32) as usize;
        return Ok(codes[i]);
    }
    if '1' <= c && c <= '9' {
        return Ok(KEY_1 + (c as u32 - '1' as u32) as u16);
    }
    let code: Option<u16> = if c == '0' {
        Some(KEY_0)
    } else if c == '-' {
        Some(KEY_MINUS)
    } else if c == '=' {
        Some(KEY_EQUAL)
    } else if c == ',' {
        Some(KEY_COMMA)
    } else if c == '.' {
        Some(KEY_DOT)
    } else if c == '/' {
        Some(KEY_SLASH)
    } else if c == ';' {
        Some(KEY_SEMICOLON)
    } else if c == '\'' {
        Some(KEY_APOSTROPHE)
    } else if c == '`' {
        Some(KEY_GRAVE)
    } else if c == '[' {
        Some(KEY_LEFTBRACE)
    } else if c == ']' {
        Some(KEY_RIGHTBRACE)
    } else if c == '\\' {
        Some(KEY_BACKSLASH)
    } else {
        None
    };
    match code {
        Some(k) => Ok(k),
        None => {
            let mut out: Vec<char> = Vec::new();
            push_str(&mut out, "unsupported evdev shortcut character ");
            let d = char_debug(c);
            push_str(&mut out, d.as_str());
            Err(string_from_chars(out.as_slice()))
        },
    }
}

/// The key code of a chord key, where it has one.
pub open spec fn shortcut_key_code(key: ShortcutKey) -> Option<u16> {
    match key {
        ShortcutKey::Character(c) => upper_char_code(ascii_upper(c)),
        ShortcutKey::Space => Some(KEY_SPACE),
        ShortcutKey::Escape => Some(KEY_ESC),
        ShortcutKey::Enter => Some(KEY_ENTER),
        ShortcutKey::Tab => Some(KEY_TAB),
        ShortcutKey::Backspace => Some(KEY_BACKSPACE),
        ShortcutKey::Delete => Some(KEY_DELETE),
        ShortcutKey::Insert => Some(KEY_INSERT),
        ShortcutKey::Home => Some(KEY_HOME),
        ShortcutKey::End => Some(KEY_END),
        ShortcutKey::PageUp => Some(KEY_PAGEUP),
        ShortcutKey::PageDown => Some(KEY_PAGEDOWN),
        ShortcutKey::Function(n) => if 1 <= n <= 24 {
            Some((KEY_F1 + n - 1) as u16)
        } else {
            None
        },
    }
}

/// The key code of a chord key: F1 to F24 count up from F1's code;
/// other function keys and unmapped characters are refused.
pub fn keycode_for_shortcut_key(key: ShortcutKey) -> (r: Result<u16, String>)
    ensures
        match shortcut_key_code(key) {
            Some(code) => r == Ok::<u16, String>(code),
            None => r is Err,
        },
        match key {
            ShortcutKey::Function(n) => !(1 <= n <= 24) ==> (r matches Err(e) && e@
                == "unsupported function key F"@ + decimal(n as nat)),
            _ => true,
        },
{
    match key {
        ShortcutKey::Character(c) => keycode_for_character(c),
        ShortcutKey::Space => Ok(KEY_SPACE),
        ShortcutKey::Escape => Ok(KEY_ESC),
        ShortcutKey::Enter => Ok(KEY_ENTER),
        ShortcutKey::Tab => Ok(KEY_TAB),
        ShortcutKey::Backspace => Ok(KEY_BACKSPACE),
        ShortcutKey::Delete => Ok(KEY_DELETE),
        ShortcutKey::Insert => Ok(KEY_INSERT),
        ShortcutKey::Home => Ok(KEY_HOME),
        ShortcutKey::End => Ok(KEY_END),
        ShortcutKey::PageUp => Ok(KEY_PAGEUP),
        ShortcutKey::PageDown => Ok(KEY_PAGEDOWN),
        ShortcutKey::Function(n) => {
            if 1 <= n && n <= 24 {
                Ok(KEY_F1 + (n - 1) as u16)
            } else {
                let mut out: Vec<char> = Vec::new();
                push_str(&mut out, "unsupported function key F");
                push_decimal(&mut out, n as u64);
                Err(string_from_chars(out.as_slice()))
            }
        },
    }
}

/// The key sets a chord requires, in order: each held modifier with its
/// left and right keys, then the chord's key.
pub open spec fn chord_requirement_sets(m: ShortcutModifiers, key_code: u16) -> Seq<Set<u16>> {
    let s0 = Seq::<Set<u16>>::empty();
    let s1 = if m.ctrl {
        s0.push(set![KEY_LEFTCTRL, KEY_RIGHTCTRL])
    } else {
        s0
    };
    let s2 = if m.alt {
        s1.push(set![KEY_LEFTALT, KEY_RIGHTALT])
    } else {
        s1
    };
    let s3 = if m.shift {
        s2.push(set![KEY_LEFTSHIFT, KEY_RIGHTSHIFT])
    } else {
        s2
    };
    let s4 = if m.super_key {
        s3.push(set![KEY_LEFTMETA, KEY_RIGHTMETA])
    } else {
        s3
    };
    s4.push(set![key_code])
}

/// The key requirements of a chord for the daemon's state machine; a chord
/// whose key has no code is refused.
pub fn requirements_for_chord(chord: ShortcutChord) -> (r: Result<Vec<KeyRequirement<u16>>, String>)
    ensures
        match shortcut_key_code(chord.key) {
            Some(code) => r matches Ok(v) && v@.map_values(|q: KeyRequirement<u16>| q@)
                == chord_requirement_sets(chord.modifiers, code),
            None => r is Err,
        },
{
    let m = chord.modifiers;
    let mut requirements: Vec<KeyRequirement<u16>> = Vec::new();
    let ghost mut sets: Seq<Set<u16>> = Seq::empty();
    if m.ctrl {
        let q = KeyRequirement::any([KEY_LEFTCTRL, KEY_RIGHTCTRL]);
        assert(q@ =~= set![KEY_LEFTCTRL, KEY_RIGHTCTRL]);
        requirements.push(q);
        proof {
            sets = sets.push(set![KEY_LEFTCTRL, KEY_RIGHTCTRL]);
        }
    }
    assert(requirements@.map_values(|q: KeyRequirement<u16>| q@) =~= sets);
    if m.alt {
        let q = KeyRequirement::any([KEY_LEFTALT, KEY_RIGHTALT]);
        assert(q@ =~= set![KEY_LEFTALT, KEY_RIGHTALT]);
        requirements.push(q);
        proof {
            sets = sets.push(set![KEY_LEFTALT, KEY_RIGHTALT]);
        }
    }
    assert(requirements@.map_values(|q: KeyRequirement<u16>| q@) =~= sets);
    if m.shift {
        let q = KeyRequirement::any([KEY_LEFTSHIFT, KEY_RIGHTSHIFT]);
        assert(q@ =~= set![KEY_LEFTSHIFT, KEY_RIGHTSHIFT]);
        requirements.push(q);
        proof {
            sets = sets.push(set![KEY_LEFTSHIFT, KEY_RIGHTSHIFT]);
        }
    }
    assert(requirements@.map_values(|q: KeyRequirement<u16>| q@) =~= sets);
    if m.super_key {
        let q = KeyRequirement::any([KEY_LEFTMETA, KEY_RIGHTMETA]);
        assert(q@ =~= set![KEY_LEFTMETA, KEY_RIGHTMETA]);
        requirements.push(q);
        proof {
            sets = sets.push(set![KEY_LEFTMETA, KEY_RIGHTMETA]);
        }
    }
    assert(requirements@.map_values(|q: KeyRequirement<u16>| q@) =~= sets);
    let code = match keycode_for_shortcut_key(chord.key) {
        Ok(c) => c,
        Err(e) => return Err(e),
    };
    let q = KeyRequirement::any([code]);
    assert(q@ =~= set![code]);
    requirements.push(q);
    proof {
        sets = sets.push(set![code]);
    }
    assert(requirements@.map_values(|q: KeyRequirement<u16>| q@) =~= sets);
    Ok(requirements)
}

/// The Linux input event code (`input-event-codes.h`) of the key that
/// types a character, in either case for letters: `KEY_A` is 30, `KEY_M`
/// 50, `KEY_N` 49, `KEY_1` 2, `KEY_0` 11, and so on.
pub open spec fn linux_char_key(c: char) -> Option<u16> {
    match c {
        'A' | 'a' => Some(30u16),
        'B' | 'b' => Some(48u16),
        'C' | 'c' => Some(46u16),
        'D' | 'd' => Some(32u16),
        'E' | 'e' => Some(18u16),
        'F' | 'f' => Some(33u16),
        'G' | 'g' => Some(34u16),
        'H' | 'h' => Some(35u16),
        'I' | 'i' => Some(23u16),
        'J' | 'j' => Some(36u16),
        'K' | 'k' => Some(37u16),
        'L' | 'l' => Some(38u16),
        'M' | 'm' => Some(50u16),
        'N' | 'n' => Some(49u16),
        'O' | 'o' => Some(24u16),
        'P' | 'p' => Some(25u16),
        'Q' | 'q' => Some(16u16),
        'R' | 'r' => Some(19u16),
        'S' | 's' => Some(31u16),
        'T' | 't' => Some(20u16),
        'U' | 'u' => Some(22u16),
        'V' | 'v' => Some(47u16),
        'W' | 'w' => Some(17u16),
        'X' | 'x' => Some(45u16),
        'Y' | 'y' => Some(21u16),
        'Z' | 'z' => Some(44u16),
        '1' => Some(2u16),
        '2' => Some(3u16),
        '3' => Some(4u16),
        '4' => Some(5u16),
        '5' => Some(6u16),
        '6' => Some(7u16),
        '7' => Some(8u16),
        '8' => Some(9u16),
        '9' => Some(10u16),
        '0' => Some(11u16),
        '-' => Some(12u16),
        '=' => Some(13u16),
        ',' => Some(51u16),
        '.' => Some(52u16),
        '/' => Some(53u16),
        ';' => Some(39u16),
        '\'' => Some(40u16),
        '`' => Some(41u16),
        '[' => Some(26u16),
        ']' => Some(27u16),
        '\\' => Some(43u16),
        _ => None,
    }
}

/// The key code of a character key is the Linux input code of the key that
/// types it, letters in either case; characters without such a key have
/// none.
pub proof fn lemma_character_key_codes(c: char)
    ensures
        shortcut_key_code(ShortcutKey::Character(c)) == linux_char_key(c),
{
    if c == 'a' {
        vstd::utf8::char_u32_cast('A', 65);
    } else if c == 'b' {
        vstd::utf8::char_u32_cast('B', 66);
    } else if c == 'c' {
        vstd::utf8::char_u32_cast('C', 67);
    } else if c == 'd' {
        vstd::utf8::char_u32_cast('D', 68);
    } else if c == 'e' {
        vstd::utf8::char_u32_cast('E', 69);
    } else if c == 'f' {
        vstd::utf8::char_u32_cast('F', 70);
    } else if c == 'g' {
        vstd::utf8::char_u32_cast('G', 71);
    } else if c == 'h' {
        vstd::utf8::char_u32_cast('H', 72);
    } else if c == 'i' {
        vstd::utf8::char_u32_cast('I', 73);
    } else if c == 'j' {
        vstd::utf8::char_u32_cast('J', 74);
    } else if c == 'k' {
        vstd::utf8::char_u32_cast('K', 75);
    } else if c == 'l' {
        vstd::utf8::char_u32_cast('L', 76);
    } else if c == 'm' {
        vstd::utf8::char_u32_cast('M', 77);
    } else if c == 'n' {
        vstd::utf8::char_u32_cast('N', 78);
    } else if c == 'o' {
        vstd::utf8::char_u32_cast('O', 79);
    } else if c == 'p' {
        vstd::utf8::char_u32_cast('P', 80);
    } else if c == 'q' {
        vstd::utf8::char_u32_cast('Q', 81);
    } else if c == 'r' {
        vstd::utf8::char_u32_cast('R', 82);
    } else if c == 's' {
        vstd::utf8::char_u32_cast('S', 83);
    } else if c == 't' {
        vstd::utf8::char_u32_cast('T', 84);
    } else if c == 'u' {
        vstd::utf8::char_u32_cast('U', 85);
    } else if c == 'v' {
        vstd::utf8::char_u32_cast('V', 86);
    } else if c == 'w' {
        vstd::utf8::char_u32_cast('W', 87);
    } else if c == 'x' {
        vstd::utf8::char_u32_cast('X', 88);
    } else if c == 'y' {
        vstd::utf8::char_u32_cast('Y', 89);
    } else if c == 'z' {
        vstd::utf8::char_u32_cast('Z', 90);
    }
}

/// The key code of each named key is its Linux input event code
/// (`input-event-codes.h`): Space 57, Escape 1, Enter 28, Tab 15,
/// Backspace 14, Delete 111, Insert 110, Home 102, End 107, Page Up 104,
/// Page Down 109, and F1 to F24 counting up from 59.
pub proof fn lemma_named_key_codes(n: u8)
    ensures
        shortcut_key_code(ShortcutKey::Space) == Some(57u16),
        shortcut_key_code(ShortcutKey::Escape) == Some(1u16),
        shortcut_key_code(ShortcutKey::Enter) == Some(28u16),
        shortcut_key_code(ShortcutKey::Tab) == Some(15u16),
        shortcut_key_code(ShortcutKey::Backspace) == Some(14u16),
        shortcut_key_code(ShortcutKey::Delete) == Some(111u16),
        shortcut_key_code(ShortcutKey::Insert) == Some(110u16),
        shortcut_key_code(ShortcutKey::Home) == Some(102u16),
        shortcut_key_code(ShortcutKey::End) == Some(107u16),
        shortcut_key_code(ShortcutKey::PageUp) == Some(104u16),
        shortcut_key_code(ShortcutKey::PageDown) == Some(109u16),
        1 <= n <= 24 ==> shortcut_key_code(ShortcutKey::Function(n)) == Some((58 + n) as u16),
        !(1 <= n <= 24) ==> shortcut_key_code(ShortcutKey::Function(n)) is None,
{
}

} // verus!
