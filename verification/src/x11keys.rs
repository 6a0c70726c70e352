//! The X11 hotkey backend's decisions: which keysyms a chord key has,
//! which keycodes carry them, which modifier masks to grab, whether a
//! chord is held in a keymap, and which shortcuts start or stop.
use vstd::prelude::*;

use crate::runtime::same_str;
use crate::shortcut::{ShortcutChord, ShortcutKey, ShortcutModifiers};
use crate::text::{push_str, string_from_chars};

verus! {

broadcast use vstd::string::group_string_axioms;

/// X11 keysyms of the keys a chord can use.
pub const KEYSYM_BACKSPACE: u32 = 0xff08;
pub const KEYSYM_TAB: u32 = 0xff09;
pub const KEYSYM_RETURN: u32 = 0xff0d;
pub const KEYSYM_ESCAPE: u32 = 0xff1b;
pub const KEYSYM_HOME: u32 = 0xff50;
pub const KEYSYM_PAGE_UP: u32 = 0xff55;
pub const KEYSYM_END: u32 = 0xff57;
pub const KEYSYM_PAGE_DOWN: u32 = 0xff56;
pub const KEYSYM_INSERT: u32 = 0xff63;
pub const KEYSYM_DELETE: u32 = 0xffff;
pub const KEYSYM_F1: u32 = 0xffbe;
pub const KEYSYM_SHIFT_L: u32 = 0xffe1;
pub const KEYSYM_SHIFT_R: u32 = 0xffe2;
pub const KEYSYM_CONTROL_L: u32 = 0xffe3;
pub const KEYSYM_CONTROL_R: u32 = 0xffe4;
pub const KEYSYM_ALT_L: u32 = 0xffe9;
pub const KEYSYM_ALT_R: u32 = 0xffea;
pub const KEYSYM_SUPER_L: u32 = 0xffeb;
pub const KEYSYM_SUPER_R: u32 = 0xffec;
pub const KEYSYM_SPACE: u32 = 0x0020;

/// X11 modifier mask bits.
pub const MOD_SHIFT: u16 = 1;
pub const MOD_LOCK: u16 = 2;
pub const MOD_CONTROL: u16 = 4;
pub const MOD_M1: u16 = 8;
pub const MOD_M2: u16 = 16;
pub const MOD_M4: u16 = 64;

/// The modifier mask of a chord's modifiers: Control, Mod1 for Alt, Shift
/// and Mod4 for Super.
pub open spec fn base_mask(m: ShortcutModifiers) -> u16 {
    ((if m.ctrl {
        MOD_CONTROL
    } else {
        0
    }) + (if m.alt {
        MOD_M1
    } else {
        0
    }) + (if m.shift {
        MOD_SHIFT
    } else {
        0
    }) + (if m.super_key {
        MOD_M4
    } else {
        0
    })) as u16
}

/// The masks grabbed for a chord: its own, and with Caps Lock, Num Lock
/// (Mod2) or both also on, so the chord works whatever the lock state.
pub fn modifier_mask_variants(chord: ShortcutChord) -> (v: Vec<u16>)
    ensures
        v@ == seq![
            base_mask(chord.modifiers),
            (base_mask(chord.modifiers) + MOD_LOCK) as u16,
            (base_mask(chord.modifiers) + MOD_M2) as u16,
            (base_mask(chord.modifiers) + MOD_LOCK + MOD_M2) as u16,
        ],
{
    let m = chord.modifiers;
    let mut base: u16 = 0;
    if m.ctrl {
        base = base + MOD_CONTROL;
    }
    if m.alt {
        base = base + MOD_M1;
    }
    if m.shift {
        base = base + MOD_SHIFT;
    }
    if m.super_key {
        base = base + MOD_M4;
    }
    let mut v: Vec<u16> = Vec::new();
    v.push(base);
    v.push(base + MOD_LOCK);
    v.push(base + MOD_M2);
    v.push(base + MOD_LOCK + MOD_M2);
    v
}

/// Whether `c` is an ASCII letter.
pub open spec fn ascii_letter(c: char) -> bool {
    ('a' <= c <= 'z') || ('A' <= c <= 'Z')
}

/// The keysyms that stand for a chord key: both cases of a letter, the
/// code point of another character, the named keys' keysyms, and F1 up
/// for function keys.
pub open spec fn key_keysyms(key: ShortcutKey) -> Seq<u32> {
    match key {
        ShortcutKey::Character(c) => if ascii_letter(c) {
            if 'a' <= c <= 'z' {
                seq![(c as u32 - 32) as u32, c as u32]
            } else {
                seq![c as u32, (c as u32 + 32) as u32]
            }
        } else {
            seq![c as u32]
        },
        ShortcutKey::Space => seq![KEYSYM_SPACE],
        ShortcutKey::Escape => seq![KEYSYM_ESCAPE],
        ShortcutKey::Enter => seq![KEYSYM_RETURN],
        ShortcutKey::Tab => seq![KEYSYM_TAB],
        ShortcutKey::Backspace => seq![KEYSYM_BACKSPACE],
        ShortcutKey::Delete => seq![KEYSYM_DELETE],
        ShortcutKey::Insert => seq![KEYSYM_INSERT],
        ShortcutKey::Home => seq![KEYSYM_HOME],
        ShortcutKey::End => seq![KEYSYM_END],
        ShortcutKey::PageUp => seq![KEYSYM_PAGE_UP],
        ShortcutKey::PageDown => seq![KEYSYM_PAGE_DOWN],
        ShortcutKey::Function(n) => seq![
            (KEYSYM_F1 + (if n >= 1 {
                n - 1
            } else {
                0
            })) as u32,
        ],
    }
}

/// The keysyms of a chord key.
pub fn keysyms_for_key(key: ShortcutKey) -> (v: Vec<u32>)
    ensures
        v@ == key_keysyms(key),
{
    let mut v: Vec<u32> = Vec::new();
    match key {
        ShortcutKey::Character(c) => {
            if 'a' <= c && c <= 'z' {
                v.push(c as u32 - 32);
                v.push(c as u32);
            } else if 'A' <= c && c <= 'Z' {
                v.push(c as u32);
                v.push(c as u32 + 32);
            } else {
                v.push(c as u32);
            }
        },
        ShortcutKey::Space => v.push(KEYSYM_SPACE),
        ShortcutKey::Escape => v.push(KEYSYM_ESCAPE),
        ShortcutKey::Enter => v.push(KEYSYM_RETURN),
        ShortcutKey::Tab => v.push(KEYSYM_TAB),
        ShortcutKey::Backspace => v.push(KEYSYM_BACKSPACE),
        ShortcutKey::Delete => v.push(KEYSYM_DELETE),
        ShortcutKey::Insert => v.push(KEYSYM_INSERT),
        ShortcutKey::Home => v.push(KEYSYM_HOME),
        ShortcutKey::End => v.push(KEYSYM_END),
        ShortcutKey::PageUp => v.push(KEYSYM_PAGE_UP),
        ShortcutKey::PageDown => v.push(KEYSYM_PAGE_DOWN),
        ShortcutKey::Function(n) => v.push(KEYSYM_F1 + n.saturating_sub(1) as u32),
    }
    assert(v@ =~= key_keysyms(key));
    v
}

/// Whether bit `keycode` of an X11 keymap (32 bytes, one bit per keycode,
/// low bit first) is set.
pub open spec fn keymap_bit(keymap: Seq<u8>, keycode: u8) -> bool {
    (keymap[(keycode / 8) as int] >> (keycode % 8)) & 1u8 == 1u8
}

/// Whether a keycode is down in an X11 keymap.
pub fn keycode_is_down(keymap: &[u8; 32], keycode: u8) -> (b: bool)
    ensures
        b == keymap_bit(keymap@, keycode),
{
    let byte_index = (keycode / 8) as usize;
    let bit_index = keycode % 8;
    let byte = keymap[byte_index];
    let set = byte & (1u8 << bit_index) != 0;
    assert(set == ((byte >> bit_index) & 1u8 == 1u8)) by (bit_vector)
        requires
            bit_index < 8,
            set == (byte & (1u8 << bit_index) != 0),
    ;
    set
}

/// The server's keyboard mapping: `keysyms_per_keycode` keysyms for each
/// keycode from `min_keycode` to `max_keycode`, row after row.
pub struct KeyboardMapping {
    pub min_keycode: u8,
    pub max_keycode: u8,
    pub keysyms_per_keycode: u8,
    pub keysyms: Vec<u32>,
}

/// Whether row `offset` of the mapping exists and holds one of `wanted`.
pub open spec fn row_has_wanted(keysyms: Seq<u32>, per: int, offset: int, wanted: Seq<u32>) -> bool {
    (offset + 1) * per <= keysyms.len() && exists|j: int|
        offset * per <= j < (offset + 1) * per && #[trigger] wanted.contains(keysyms[j])
}

/// The keycodes among the first `n` rows that carry a wanted keysym, in
/// order.
pub open spec fn wanted_keycodes(
    min: u8,
    keysyms: Seq<u32>,
    per: int,
    wanted: Seq<u32>,
    n: int,
) -> Seq<u8>
    decreases n,
{
    if n <= 0 {
        Seq::empty()
    } else {
        let prev = wanted_keycodes(min, keysyms, per, wanted, n - 1);
        if row_has_wanted(keysyms, per, n - 1, wanted) {
            prev.push((min + n - 1) as u8)
        } else {
            prev
        }
    }
}

/// The number of keycodes the mapping covers, where it is valid.
pub open spec fn keycode_count(m: KeyboardMapping) -> Option<u8> {
    if m.max_keycode < m.min_keycode || m.max_keycode - m.min_keycode + 1 > 255 {
        None
    } else {
        Some((m.max_keycode - m.min_keycode + 1) as u8)
    }
}

fn contains_u32(v: &Vec<u32>, x: u32) -> (b: bool)
    ensures
        b == v@.contains(x),
{
    let mut i: usize = 0;
    while i < v.len()
        invariant
            i <= v@.len(),
            forall|j: int| 0 <= j < i ==> v@[j] != x,
        decreases v@.len() - i,
    {
        if v[i] == x {
            return true;
        }
        i = i + 1;
    }
    false
}

/// The keycodes whose mapping row holds any of `wanted`; refused when the
/// keycode range is invalid.
pub fn keycodes_for_any_keysym(mapping: &KeyboardMapping, wanted: &Vec<u32>) -> (r: Result<Vec<u8>, String>)
    ensures
        match keycode_count(*mapping) {
            None => r matches Err(e) && e@ == "invalid X11 keycode range"@,
            Some(count) => r matches Ok(v) && v@ == wanted_keycodes(
                mapping.min_keycode,
                mapping.keysyms@,
                mapping.keysyms_per_keycode as int,
                wanted@,
                count as int,
            ),
        },
{
    let min = mapping.min_keycode;
    let max = mapping.max_keycode;
    if max < min || max - min == 255 {
        return Err(
            string_from_chars(crate::text::chars_of("invalid X11 keycode range").as_slice()),
        );
    }
    let count: u8 = max - min + 1;
    let per = mapping.keysyms_per_keycode as usize;
    let mut keycodes: Vec<u8> = Vec::new();
    let mut offset: u8 = 0;
    while offset < count
        invariant
            offset <= count,
            count as int == max - min + 1,
            min == mapping.min_keycode,
            max == mapping.max_keycode,
            per == mapping.keysyms_per_keycode,
            keycodes@ == wanted_keycodes(min, mapping.keysyms@, per as int, wanted@, offset as int),
            per <= 255,
        decreases count - offset,
    {
        assert(offset as int * per <= 255 * 255) by (nonlinear_arith)
            requires
                offset <= 255,
                per <= 255,
        ;
        let start = offset as usize * per;
        let end = start + per;
        assert((offset + 1) * per == end) by (nonlinear_arith)
            requires
                start == offset * per,
                end == start + per,
        ;
        let mut hit = false;
        if end <= mapping.keysyms.len() {
            let mut j: usize = start;
            while j < end
                invariant
                    start <= j <= end,
                    end <= mapping.keysyms@.len(),
                    start == offset * per,
                    end == start + per,
                    (offset + 1) * per == end,
                    !hit ==> forall|k: int| start <= k < j ==> !wanted@.contains(#[trigger] mapping.keysyms@[k]),
                    hit ==> row_has_wanted(mapping.keysyms@, per as int, offset as int, wanted@),
                decreases end - j,
            {
                if !hit && contains_u32(wanted, mapping.keysyms[j]) {
                    hit = true;
                }
                j = j + 1;
            }
        }
        assert(hit == row_has_wanted(mapping.keysyms@, per as int, offset as int, wanted@)) by {
            assert((offset + 1) * per == offset * per + per) by (nonlinear_arith);
        }
        if hit {
            keycodes.push(min + offset);
        }
        offset = offset + 1;
    }
    Ok(keycodes)
}

/// The keycodes of one X11 shortcut: the ones that trigger it, and for
/// each required key the keycodes any of which holds it.
pub struct X11Grab {
    pub trigger_keycodes: Vec<u8>,
    pub required_keycode_groups: Vec<Vec<u8>>,
}

/// Whether some keycode of `group` is down in `keymap`.
pub open spec fn group_down(keymap: Seq<u8>, group: Seq<u8>) -> bool {
    exists|i: int| 0 <= i < group.len() && #[trigger] keymap_bit(keymap, group[i])
}

impl X11Grab {
    /// Whether every required key is held in `keymap`.
    pub fn is_pressed_in(&self, keymap: &[u8; 32]) -> (b: bool)
        ensures
            b == forall|g: int|
                0 <= g < self.required_keycode_groups@.len() ==> #[trigger] group_down(
                    keymap@,
                    self.required_keycode_groups@[g]@,
                ),
    {
        let mut g: usize = 0;
        while g < self.required_keycode_groups.len()
            invariant
                g <= self.required_keycode_groups@.len(),
                forall|h: int| 0 <= h < g ==> #[trigger] group_down(keymap@, self.required_keycode_groups@[h]@),
            decreases self.required_keycode_groups@.len() - g,
        {
            let group = &self.required_keycode_groups[g];
            let mut found = false;
            let mut i: usize = 0;
            while i < group.len()
                invariant
                    i <= group@.len(),
                    found == exists|k: int| 0 <= k < i && #[trigger] keymap_bit(keymap@, group@[k]),
                decreases group@.len() - i,
            {
                if keycode_is_down(keymap, group[i]) {
                    found = true;
                }
                i = i + 1;
            }
            if !found {
                assert(!group_down(keymap@, self.required_keycode_groups@[g as int]@));
                return false;
            }
            g = g + 1;
        }
        true
    }

    /// Whether the grab's trigger keycodes include `keycode`.
    pub fn triggered_by(&self, keycode: u8) -> (b: bool)
        ensures
            b == self.trigger_keycodes@.contains(keycode),
    {
        let mut i: usize = 0;
        while i < self.trigger_keycodes.len()
            invariant
                i <= self.trigger_keycodes@.len(),
                forall|j: int| 0 <= j < i ==> self.trigger_keycodes@[j] != keycode,
            decreases self.trigger_keycodes@.len() - i,
        {
            if self.trigger_keycodes[i] == keycode {
                return true;
            }
            i = i + 1;
        }
        false
    }
}

/// The keysym pairs (left and right) of a chord's held modifiers, in the
/// order Control, Alt, Shift, Super.
pub open spec fn modifier_keysyms(m: ShortcutModifiers) -> Seq<Seq<u32>> {
    let s0 = Seq::<Seq<u32>>::empty();
    let s1 = if m.ctrl {
        s0.push(seq![KEYSYM_CONTROL_L, KEYSYM_CONTROL_R])
    } else {
        s0
    };
    let s2 = if m.alt {
        s1.push(seq![KEYSYM_ALT_L, KEYSYM_ALT_R])
    } else {
        s1
    };
    let s3 = if m.shift {
        s2.push(seq![KEYSYM_SHIFT_L, KEYSYM_SHIFT_R])
    } else {
        s2
    };
    if m.super_key {
        s3.push(seq![KEYSYM_SUPER_L, KEYSYM_SUPER_R])
    } else {
        s3
    }
}

fn pair(a: u32, b: u32) -> (v: Vec<u32>)
    ensures
        v@ == seq![a, b],
{
    let mut v: Vec<u32> = Vec::new();
    v.push(a);
    v.push(b);
    v
}

/// The grab of a chord under a keyboard mapping: the keycodes of each held
/// modifier, then those of the chord's key, which also trigger it.
pub fn resolve_grab(chord: ShortcutChord, mapping: &KeyboardMapping) -> (r: Result<X11Grab, String>)
    ensures
        keycode_count(*mapping) is None ==> r is Err,
        match keycode_count(*mapping) {
            Some(count) => r matches Ok(g) && {
                let groups = modifier_keysyms(chord.modifiers).push(key_keysyms(chord.key));
                &&& g.required_keycode_groups@.len() == groups.len()
                &&& forall|i: int|
                    0 <= i < groups.len() ==> #[trigger] g.required_keycode_groups@[i]@
                        == wanted_keycodes(
                        mapping.min_keycode,
                        mapping.keysyms@,
                        mapping.keysyms_per_keycode as int,
                        groups[i],
                        count as int,
                    )
                &&& g.trigger_keycodes@ == wanted_keycodes(
                    mapping.min_keycode,
                    mapping.keysyms@,
                    mapping.keysyms_per_keycode as int,
                    key_keysyms(chord.key),
                    count as int,
                )
            },
            None => true,
        },
{
    if mapping.max_keycode < mapping.min_keycode || mapping.max_keycode - mapping.min_keycode
        == 255 {
        return Err(
            string_from_chars(crate::text::chars_of("invalid X11 keycode range").as_slice()),
        );
    }
    let m = chord.modifiers;
    let mut wanted_groups: Vec<Vec<u32>> = Vec::new();
    if m.ctrl {
        wanted_groups.push(pair(KEYSYM_CONTROL_L, KEYSYM_CONTROL_R));
    }
    if m.alt {
        wanted_groups.push(pair(KEYSYM_ALT_L, KEYSYM_ALT_R));
    }
    if m.shift {
        wanted_groups.push(pair(KEYSYM_SHIFT_L, KEYSYM_SHIFT_R));
    }
    if m.super_key {
        wanted_groups.push(pair(KEYSYM_SUPER_L, KEYSYM_SUPER_R));
    }
    wanted_groups.push(keysyms_for_key(chord.key));
    let ghost groups = modifier_keysyms(m).push(key_keysyms(chord.key));
    assert(wanted_groups@.map_values(|w: Vec<u32>| w@) =~= groups);
    let mut required: Vec<Vec<u8>> = Vec::new();
    let mut i: usize = 0;
    while i < wanted_groups.len()
        invariant
            i <= wanted_groups@.len(),
            wanted_groups@.map_values(|w: Vec<u32>| w@) == groups,
            required@.len() == i,
            keycode_count(*mapping) is Some,
            forall|k: int|
                0 <= k < i ==> #[trigger] required@[k]@ == wanted_keycodes(
                    mapping.min_keycode,
                    mapping.keysyms@,
                    mapping.keysyms_per_keycode as int,
                    groups[k],
                    keycode_count(*mapping)->0 as int,
                ),
        decreases wanted_groups@.len() - i,
    {
        assert(wanted_groups@[i as int]@ == groups[i as int]);
        match keycodes_for_any_keysym(mapping, &wanted_groups[i]) {
            Ok(codes) => required.push(codes),
            Err(e) => return Err(e),
        }
        i = i + 1;
    }
    let trigger = match keycodes_for_any_keysym(mapping, &wanted_groups[wanted_groups.len() - 1]) {
        Ok(codes) => codes,
        Err(e) => return Err(e),
    };
    assert(wanted_groups@[wanted_groups@.len() - 1]@ == key_keysyms(chord.key));
    Ok(X11Grab { trigger_keycodes: trigger, required_keycode_groups: required })
}

/// Refuses a grab whose trigger key has no keycode.
pub fn ensure_trigger_mapped(grab: &X11Grab, accelerator: &str) -> (r: Result<(), String>)
    ensures
        grab.trigger_keycodes@.len() == 0 ==> (r matches Err(e) && e@
            == "X11 shortcut trigger key has no keycode mapping for "@ + accelerator@),
        grab.trigger_keycodes@.len() > 0 ==> r is Ok,
{
    if grab.trigger_keycodes.len() == 0 {
        let mut out: Vec<char> = Vec::new();
        push_str(&mut out, "X11 shortcut trigger key has no keycode mapping for ");
        push_str(&mut out, accelerator);
        return Err(string_from_chars(out.as_slice()));
    }
    Ok(())
}

/// The ids of the shortcuts whose chord is held.
pub struct X11ActiveShortcuts {
    pub active: Vec<String>,
}

/// The held shortcut ids as a set.
pub open spec fn id_set(v: Seq<String>) -> Set<Seq<char>> {
    Set::new(|s: Seq<char>| exists|i: int| 0 <= i < v.len() && #[trigger] v[i]@ == s)
}

impl X11ActiveShortcuts {
    /// No shortcut held.
    pub fn new() -> (s: Self)
        ensures
            id_set(s.active@) == Set::<Seq<char>>::empty(),
    {
        let s = X11ActiveShortcuts { active: Vec::new() };
        assert(id_set(s.active@) =~= Set::<Seq<char>>::empty());
        s
    }

    fn index_of(&self, id: &str) -> (r: Option<usize>)
        ensures
            match r {
                Some(i) => i < self.active@.len() && self.active@[i as int]@ == id@,
                None => !id_set(self.active@).contains(id@),
            },
    {
        let mut i: usize = 0;
        while i < self.active.len()
            invariant
                i <= self.active@.len(),
                forall|j: int| 0 <= j < i ==> #[trigger] self.active@[j]@ != id@,
            decreases self.active@.len() - i,
        {
            if same_str(self.active[i].as_str(), id) {
                return Some(i);
            }
            i = i + 1;
        }
        None
    }

    /// A key press: the shortcut starts when its trigger key was pressed,
    /// its whole chord is held and it was not already held. Returns
    /// whether to start its recording.
    pub fn key_pressed(&mut self, id: &str, trigger_hit: bool, chord_held: bool) -> (start: bool)
        ensures
            start == (trigger_hit && chord_held && !id_set(old(self).active@).contains(id@)),
            id_set(final(self).active@) == (if start {
                id_set(old(self).active@).insert(id@)
            } else {
                id_set(old(self).active@)
            }),
    {
        if !(trigger_hit && chord_held) {
            return false;
        }
        if self.index_of(id).is_some() {
            return false;
        }
        let ghost before = self.active@;
        self.active.push(id.to_string());
        assert(id_set(self.active@) =~= id_set(before).insert(id@)) by {
            assert forall|s: Seq<char>| id_set(self.active@).contains(s) implies id_set(before).insert(id@).contains(s) by {
                let i = choose|i: int| 0 <= i < self.active@.len() && #[trigger] self.active@[i]@ == s;
                if i < before.len() {
                    assert(before[i]@ == s);
                }
            }
            assert forall|s: Seq<char>| id_set(before).insert(id@).contains(s) implies id_set(self.active@).contains(s) by {
                if s == id@ {
                    assert(self.active@[before.len() as int]@ == s);
                } else {
                    let i = choose|i: int| 0 <= i < before.len() && #[trigger] before[i]@ == s;
                    assert(self.active@[i]@ == s);
                }
            }
        }
        true
    }

    /// A key release: a held shortcut whose chord is no longer held stops.
    /// Returns whether to stop its recording.
    pub fn key_released(&mut self, id: &str, chord_held: bool) -> (stop: bool)
        ensures
            stop == (id_set(old(self).active@).contains(id@) && !chord_held),
            id_set(final(self).active@) == (if stop {
                id_set(old(self).active@).remove(id@)
            } else {
                id_set(old(self).active@)
            }),
    {
        if chord_held {
            return false;
        }
        let ghost before = self.active@;
        let mut kept: Vec<String> = Vec::new();
        let mut found = false;
        let mut i: usize = 0;
        while i < self.active.len()
            invariant
                i <= self.active@.len(),
                self.active@ == before,
                found == exists|j: int| 0 <= j < i && #[trigger] before[j]@ == id@,
                forall|s: Seq<char>| #[trigger] id_set(kept@).contains(s) <==> (s != id@ && exists|j: int| 0 <= j < i && #[trigger] before[j]@ == s),
            decreases self.active@.len() - i,
        {
            let ghost prev = kept@;
            if same_str(self.active[i].as_str(), id) {
                found = true;
            } else {
                kept.push(self.active[i].clone());
            }
            assert forall|s: Seq<char>| #[trigger] id_set(kept@).contains(s) <==> (s != id@ && exists|j: int| 0 <= j < i + 1 && #[trigger] before[j]@ == s) by {
                if id_set(kept@).contains(s) {
                    let k = choose|k: int| 0 <= k < kept@.len() && #[trigger] kept@[k]@ == s;
                    if k < prev.len() {
                        assert(prev[k]@ == s);
                        assert(id_set(prev).contains(s));
                    } else {
                        assert(before[i as int]@ == s);
                    }
                }
                if s != id@ && exists|j: int| 0 <= j < i + 1 && #[trigger] before[j]@ == s {
                    let j = choose|j: int| 0 <= j < i + 1 && #[trigger] before[j]@ == s;
                    if j < i {
                        assert(id_set(prev).contains(s));
                        let k = choose|k: int| 0 <= k < prev.len() && #[trigger] prev[k]@ == s;
                        assert(kept@[k] == prev[k]);
                    } else {
                        assert(kept@[prev.len() as int]@ == s);
                    }
                }
            }
            i = i + 1;
        }
        if !found {
            assert(!id_set(before).contains(id@));
            return false;
        }
        self.active = kept;
        assert(id_set(self.active@) =~= id_set(before).remove(id@));
        true
    }

    /// Stops every held shortcut, when the backend shuts down: the ids to
    /// stop, and nothing held afterwards.
    pub fn release_all(&mut self) -> (ids: Vec<String>)
        ensures
            ids@ == old(self).active@,
            id_set(final(self).active@) == Set::<Seq<char>>::empty(),
    {
        let mut ids: Vec<String> = Vec::new();
        std::mem::swap(&mut ids, &mut self.active);
        assert(id_set(self.active@) =~= Set::<Seq<char>>::empty());
        ids
    }
}

proof fn lemma_mask_bits(c: bool, a: bool, sh: bool, su: bool, w: u16)
    by (bit_vector)
    requires
        w == ((if c { 4u16 } else { 0u16 }) + (if a { 8u16 } else { 0u16 }) + (if sh { 1u16 } else { 0u16 }) + (if su { 64u16 } else { 0u16 })) as u16,
    ensures
        (w & 4u16 != 0) == c,
        (w & 8u16 != 0) == a,
        (w & 1u16 != 0) == sh,
        (w & 64u16 != 0) == su,
        w & 0xffb2u16 == 0,
        (w + 2u16) as u16 == w | 2u16,
        (w + 16u16) as u16 == w | 16u16,
        (w + 18u16) as u16 == w | 18u16,
{
}

/// The masks grabbed for a chord name its modifiers and nothing else: the
/// Control bit (4) is set exactly when Ctrl is held, Mod1 (8) exactly when
/// Alt is, Shift (1) exactly when Shift is and Mod4 (64) exactly when
/// Super is; the four masks add to that Caps Lock (2), Num Lock (16), both
/// or neither, and no other bit is set.
pub proof fn lemma_grab_masks_name_the_modifiers(m: ShortcutModifiers)
    ensures
        (base_mask(m) & 4u16 != 0) == m.ctrl,
        (base_mask(m) & 8u16 != 0) == m.alt,
        (base_mask(m) & 1u16 != 0) == m.shift,
        (base_mask(m) & 64u16 != 0) == m.super_key,
        base_mask(m) & 0xffb2u16 == 0,
        (base_mask(m) + MOD_LOCK) as u16 == base_mask(m) | 2u16,
        (base_mask(m) + MOD_M2) as u16 == base_mask(m) | 16u16,
        (base_mask(m) + MOD_LOCK + MOD_M2) as u16 == base_mask(m) | 18u16,
{
    lemma_mask_bits(m.ctrl, m.alt, m.shift, m.super_key, base_mask(m));
}

/// The keysyms grabbed for each named key are its X11 keysyms
/// (`keysymdef.h`): space 0x20, Escape 0xff1b, Return 0xff0d, Tab 0xff09,
/// BackSpace 0xff08, Delete 0xffff, Insert 0xff63, Home 0xff50, End
/// 0xff57, Page_Up 0xff55, Page_Down 0xff56, and F1 to F24 counting up
/// from 0xffbe; a letter is grabbed in both cases.
pub proof fn lemma_named_key_keysyms(n: u8, c: char)
    ensures
        key_keysyms(ShortcutKey::Space) == seq![0x20u32],
        key_keysyms(ShortcutKey::Escape) == seq![0xff1bu32],
        key_keysyms(ShortcutKey::Enter) == seq![0xff0du32],
        key_keysyms(ShortcutKey::Tab) == seq![0xff09u32],
        key_keysyms(ShortcutKey::Backspace) == seq![0xff08u32],
        key_keysyms(ShortcutKey::Delete) == seq![0xffffu32],
        key_keysyms(ShortcutKey::Insert) == seq![0xff63u32],
        key_keysyms(ShortcutKey::Home) == seq![0xff50u32],
        key_keysyms(ShortcutKey::End) == seq![0xff57u32],
        key_keysyms(ShortcutKey::PageUp) == seq![0xff55u32],
        key_keysyms(ShortcutKey::PageDown) == seq![0xff56u32],
        1 <= n ==> key_keysyms(ShortcutKey::Function(n)) == seq![(0xffbd + n) as u32],
        'A' <= c <= 'Z' ==> key_keysyms(ShortcutKey::Character(c)) == seq![c as u32, (c as u32 + 32) as u32],
        'a' <= c <= 'z' ==> key_keysyms(ShortcutKey::Character(c)) == seq![(c as u32 - 32) as u32, c as u32],
{
}

} // verus!
