//! The shortcut recorder of the settings window: turns one key press, as
//! the toolkit reports it, into the text of a keyboard shortcut.
use vstd::prelude::*;

use crate::shortcut::ascii_upper;
use crate::text::{push_str, string_from_chars};

verus! {

broadcast use vstd::string::group_string_axioms;

/// Modifier bits of a key event's state.
pub const SHIFT_MASK: u32 = 0x1;
pub const CONTROL_MASK: u32 = 0x4;
pub const ALT_MASK: u32 = 0x8;
pub const SUPER_MASK: u32 = 0x400_0000;

/// Key values (keysyms) the recorder treats specially.
pub const KEYVAL_SPACE: u32 = 0x20;
pub const KEYVAL_RETURN: u32 = 0xff0d;
pub const KEYVAL_KP_ENTER: u32 = 0xff8d;
pub const KEYVAL_SHIFT_L: u32 = 0xffe1;
pub const KEYVAL_SHIFT_R: u32 = 0xffe2;
pub const KEYVAL_CONTROL_L: u32 = 0xffe3;
pub const KEYVAL_CONTROL_R: u32 = 0xffe4;
pub const KEYVAL_SHIFT_LOCK: u32 = 0xffe6;
pub const KEYVAL_META_L: u32 = 0xffe7;
pub const KEYVAL_META_R: u32 = 0xffe8;
pub const KEYVAL_ALT_L: u32 = 0xffe9;
pub const KEYVAL_ALT_R: u32 = 0xffea;
pub const KEYVAL_SUPER_L: u32 = 0xffeb;
pub const KEYVAL_SUPER_R: u32 = 0xffec;

/// Whether the key is a modifier on its own.
pub open spec fn modifier_keyval(k: u32) -> bool {
    k == KEYVAL_CONTROL_L || k == KEYVAL_CONTROL_R || k == KEYVAL_ALT_L || k == KEYVAL_ALT_R
        || k == KEYVAL_SHIFT_L || k == KEYVAL_SHIFT_R || k == KEYVAL_SHIFT_LOCK || k == KEYVAL_SUPER_L
        || k == KEYVAL_SUPER_R || k == KEYVAL_META_L || k == KEYVAL_META_R
}

/// Whether the key is a modifier on its own.
pub fn is_modifier_key(keyval: u32) -> (b: bool)
    ensures
        b == modifier_keyval(keyval),
{
    keyval == KEYVAL_CONTROL_L || keyval == KEYVAL_CONTROL_R || keyval == KEYVAL_ALT_L || keyval
        == KEYVAL_ALT_R || keyval == KEYVAL_SHIFT_L || keyval == KEYVAL_SHIFT_R || keyval
        == KEYVAL_SHIFT_LOCK || keyval == KEYVAL_SUPER_L || keyval == KEYVAL_SUPER_R || keyval
        == KEYVAL_META_L || keyval == KEYVAL_META_R
}

/// The modifiers of `state` a shortcut can use: Control, Alt, Shift and
/// Super; lock keys and mouse buttons are dropped.
pub fn significant_modifiers(state: u32) -> (m: u32)
    ensures
        m == state & (CONTROL_MASK | ALT_MASK | SHIFT_MASK | SUPER_MASK),
{
    state & (CONTROL_MASK | ALT_MASK | SHIFT_MASK | SUPER_MASK)
}

/// Whether `c` is a control character (general category `Cc`).
pub open spec fn control_char(c: char) -> bool {
    (c as u32) <= 0x1f || (0x7f <= (c as u32) && (c as u32) <= 0x9f)
}

/// The name a key has in a shortcut: `Enter` for both Return keys, `Space`
/// for the space bar, the upper-cased character where the key types one
/// that is not a control character, and otherwise the toolkit's name of
/// the key.
pub open spec fn config_key_name(keyval: u32, unicode: Option<char>, name: Option<Seq<char>>) -> Option<Seq<char>> {
    if keyval == KEYVAL_RETURN || keyval == KEYVAL_KP_ENTER {
        Some("Enter"@)
    } else if keyval == KEYVAL_SPACE {
        Some("Space"@)
    } else if unicode is Some && !control_char(unicode->0) {
        Some(seq![ascii_upper(unicode->0)])
    } else {
        name
    }
}

/// The name a key has in a shortcut. `unicode` is the character the key
/// types and `name` the key's name, as the toolkit reports them.
pub fn key_name_for_config(keyval: u32, unicode: Option<char>, name: Option<String>) -> (r: Option<String>)
    ensures
        match config_key_name(keyval, unicode, match name {
            Some(n) => Some(n@),
            None => None,
        }) {
            Some(t) => r matches Some(s) && s@ == t,
            None => r is None,
        },
{
    if keyval == KEYVAL_RETURN || keyval == KEYVAL_KP_ENTER {
        return Some("Enter".to_string());
    }
    if keyval == KEYVAL_SPACE {
        return Some("Space".to_string());
    }
    match unicode {
        Some(c) => {
            let u = c as u32;
            if !(u <= 0x1f || (0x7f <= u && u <= 0x9f)) {
                let up = if 'a' <= c && c <= 'z' {
                    ((u - 32) as u8) as char
                } else {
                    c
                };
                proof {
                    if 'a' <= c && c <= 'z' {
                        assert(up as u32 == u - 32);
                        vstd::utf8::char_u32_cast(up, (u - 32) as u32);
                    }
                }
                return Some(string_from_chars(&[up]));
            }
        },
        None => {},
    }
    name
}

/// Whether the modifier bit `mask` is set in `state`.
pub open spec fn has_modifier(state: u32, mask: u32) -> bool {
    state & mask == mask
}

/// The shortcut text of modifiers and a key name: `Ctrl`, `Alt`, `Shift`
/// and `Super` as held, in that order, then the key, joined by `+`.
pub open spec fn chord_text(state: u32, key: Seq<char>) -> Seq<char> {
    (if has_modifier(state, CONTROL_MASK) {
        "Ctrl+"@
    } else {
        Seq::empty()
    }) + (if has_modifier(state, ALT_MASK) {
        "Alt+"@
    } else {
        Seq::empty()
    }) + (if has_modifier(state, SHIFT_MASK) {
        "Shift+"@
    } else {
        Seq::empty()
    }) + (if has_modifier(state, SUPER_MASK) {
        "Super+"@
    } else {
        Seq::empty()
    }) + key
}

/// The shortcut a key press records. A modifier key alone is refused, and
/// so is a key that has no name.
pub fn shortcut_from_key_event(keyval: u32, state: u32, unicode: Option<char>, name: Option<String>) -> (r: Result<String, String>)
    ensures
        modifier_keyval(keyval) ==> (r matches Err(e) && e@
            == "Press a non-modifier key as part of the shortcut"@),
        !modifier_keyval(keyval) ==> match config_key_name(keyval, unicode, match name {
            Some(n) => Some(n@),
            None => None,
        }) {
            Some(k) => r matches Ok(s) && s@ == chord_text(state, k),
            None => r matches Err(e) && e@ == "Unsupported shortcut key"@,
        },
{
    if is_modifier_key(keyval) {
        return Err("Press a non-modifier key as part of the shortcut".to_string());
    }
    let modifiers = significant_modifiers(state);
    let key = match key_name_for_config(keyval, unicode, name) {
        Some(k) => k,
        None => return Err("Unsupported shortcut key".to_string()),
    };
    proof {
        assert((CONTROL_MASK | ALT_MASK | SHIFT_MASK | SUPER_MASK) == 0x400_000d) by (bit_vector);
        assert(((state & 0x400_000d) & CONTROL_MASK == CONTROL_MASK) == (state & CONTROL_MASK
            == CONTROL_MASK)) by (bit_vector);
        assert(((state & 0x400_000d) & ALT_MASK == ALT_MASK) == (state & ALT_MASK == ALT_MASK))
            by (bit_vector);
        assert(((state & 0x400_000d) & SHIFT_MASK == SHIFT_MASK) == (state & SHIFT_MASK
            == SHIFT_MASK)) by (bit_vector);
        assert(((state & 0x400_000d) & SUPER_MASK == SUPER_MASK) == (state & SUPER_MASK
            == SUPER_MASK)) by (bit_vector);
    }
    let mut out: Vec<char> = Vec::new();
    if modifiers & CONTROL_MASK == CONTROL_MASK {
        push_str(&mut out, "Ctrl+");
    }
    if modifiers & ALT_MASK == ALT_MASK {
        push_str(&mut out, "Alt+");
    }
    if modifiers & SHIFT_MASK == SHIFT_MASK {
        push_str(&mut out, "Shift+");
    }
    if modifiers & SUPER_MASK == SUPER_MASK {
        push_str(&mut out, "Super+");
    }
    push_str(&mut out, key.as_str());
    assert(out@ =~= chord_text(state, key@));
    Ok(string_from_chars(out.as_slice()))
}

} // verus!
