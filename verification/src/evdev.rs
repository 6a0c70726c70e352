//! The input daemon's configured shortcuts: one chord state machine per
//! shortcut, fed with raw key events, telling which shortcuts went down or
//! up.
use vstd::prelude::*;

use crate::daemon::transition_from_evdev_value;
use crate::hotkey::{keys_of, HotkeyState, HotkeyStateMachine, HotkeyTransition, KeyTransition};
use crate::runtime_config::RuntimeShortcut;
use crate::shortcut::{chord_requirement_sets, requirements_for_chord, shortcut_key_code};

verus! {

broadcast use vstd::string::group_string_axioms;

/// One configured shortcut and the state of its chord.
pub struct EvdevShortcutMachine {
    pub shortcut_id: String,
    pub shortcut_name: String,
    pub accelerator: String,
    pub machine: HotkeyStateMachine<u16>,
}

/// The configured shortcuts and the keys any of them watches.
pub struct EvdevShortcuts {
    machines: Vec<EvdevShortcutMachine>,
    watched_keys: Vec<u16>,
}

/// A shortcut's id and chord state.
pub type MachineView = (Seq<char>, HotkeyState<u16>);

/// The shortcuts' ids and chord states, in order.
pub open spec fn machine_views(v: Seq<EvdevShortcutMachine>) -> Seq<MachineView> {
    v.map_values(|m: EvdevShortcutMachine| (m.shortcut_id@, m.machine@))
}

/// The keys the states watch.
pub open spec fn watched_by(states: Seq<MachineView>) -> Set<u16> {
    Set::new(|k: u16| exists|i: int| 0 <= i < states.len() && (#[trigger] states[i]).1.watched.contains(k))
}

/// The transitions a key event reports, with the ids of the shortcuts they
/// concern, in order; shortcuts the event leaves as they were are not
/// listed.
pub open spec fn reported(states: Seq<MachineView>, key: u16, t: KeyTransition) -> Seq<(Seq<char>, HotkeyTransition)>
    decreases states.len(),
{
    if states.len() == 0 {
        seq![]
    } else {
        let prev = reported(states.drop_last(), key, t);
        let (id, s) = states.last();
        let r = s.after_key(key, t).1;
        if r == HotkeyTransition::Unchanged {
            prev
        } else {
            prev.push((id, r))
        }
    }
}

/// The ids of the shortcuts that are down.
pub open spec fn active_ids(states: Seq<MachineView>) -> Seq<Seq<char>>
    decreases states.len(),
{
    if states.len() == 0 {
        seq![]
    } else {
        let prev = active_ids(states.drop_last());
        if states.last().1.active {
            prev.push(states.last().0)
        } else {
            prev
        }
    }
}

/// The fresh state machine of a chord whose key has the code `code`.
pub open spec fn fresh_state(s: RuntimeShortcut, code: u16) -> HotkeyState<u16> {
    let reqs = chord_requirement_sets(s.chord.modifiers, code);
    HotkeyState { requirements: reqs, watched: keys_of(reqs), pressed: Set::empty(), active: false }
}

impl EvdevShortcuts {
    /// The shortcuts' ids and chord states.
    pub closed spec fn states(&self) -> Seq<MachineView> {
        machine_views(self.machines@)
    }

    /// Every chord machine is well formed and the watched keys are those of
    /// the machines.
    pub closed spec fn well_formed(&self) -> bool {
        &&& forall|i: int| 0 <= i < self.machines@.len() ==> (#[trigger] self.machines@[i]).machine.well_formed()
        &&& self.watched_keys@.to_set() == watched_by(self.states())
    }

    /// No shortcut configured.
    pub fn empty() -> (s: Self)
        ensures
            s.well_formed(),
            s.states() == Seq::<MachineView>::empty(),
    {
        let s = EvdevShortcuts { machines: Vec::new(), watched_keys: Vec::new() };
        assert(s.watched_keys@.to_set() =~= watched_by(s.states()));
        s
    }

    /// The machines of the shortcuts, in order, nothing pressed; refused
    /// when a chord's key has no key code.
    pub fn from_shortcuts(shortcuts: Vec<RuntimeShortcut>) -> (r: Result<Self, String>)
        ensures
            (forall|i: int| 0 <= i < shortcuts@.len() ==> #[trigger] shortcut_key_code(shortcuts@[i].chord.key) is Some)
                <==> r is Ok,
            r matches Ok(s) ==> s.well_formed() && s.states().len() == shortcuts@.len() && forall|i: int|
                0 <= i < shortcuts@.len() ==> #[trigger] s.states()[i] == (
                    shortcuts@[i].id@,
                    fresh_state(shortcuts@[i], shortcut_key_code(shortcuts@[i].chord.key)->0),
                ),
    {
        let mut machines: Vec<EvdevShortcutMachine> = Vec::new();
        let mut watched: Vec<u16> = Vec::new();
        let mut i: usize = 0;
        while i < shortcuts.len()
            invariant
                i <= shortcuts@.len(),
                machines@.len() == i,
                forall|k: int| 0 <= k < i ==> #[trigger] shortcut_key_code(shortcuts@[k].chord.key) is Some,
                forall|k: int| 0 <= k < i ==> (#[trigger] machines@[k]).machine.well_formed(),
                forall|k: int|
                    0 <= k < i ==> #[trigger] machine_views(machines@)[k] == (
                        shortcuts@[k].id@,
                        fresh_state(shortcuts@[k], shortcut_key_code(shortcuts@[k].chord.key)->0),
                    ),
                watched@.to_set() == watched_by(machine_views(machines@)),
            decreases shortcuts@.len() - i,
        {
            let s = &shortcuts[i];
            let reqs = match requirements_for_chord(s.chord) {
                Ok(reqs) => reqs,
                Err(e) => return Err(e),
            };
            let machine = HotkeyStateMachine::new(reqs);
            let ghost before = machine_views(machines@);
            let keys = machine.watched_keys();
            let ghost wbefore = watched@;
            let mut j: usize = 0;
            while j < keys.len()
                invariant
                    j <= keys@.len(),
                    forall|x: u16| watched@.contains(x) <==> (wbefore.contains(x) || keys@.subrange(0, j as int).contains(x)),
                decreases keys@.len() - j,
            {
                let ghost prev = watched@;
                let ghost jj = j as int;
                watched.push(keys[j]);
                j = j + 1;
                assert forall|x: u16| watched@.contains(x) <==> (wbefore.contains(x) || keys@.subrange(0, j as int).contains(x)) by {
                    assert(keys@.subrange(0, j as int) == keys@.subrange(0, jj + 1));
                    assert(watched@ == prev.push(keys@[jj]));
                    assert(keys@.subrange(0, jj + 1)[jj] == keys@[jj]);
                    if watched@.contains(x) {
                        let w = choose|w: int| 0 <= w < watched@.len() && #[trigger] watched@[w] == x;
                        if w < prev.len() {
                            assert(prev[w] == x);
                            assert(prev.contains(x));
                            if keys@.subrange(0, jj).contains(x) {
                                let v = choose|v: int| 0 <= v < jj && #[trigger] keys@.subrange(0, jj)[v] == x;
                                assert(keys@.subrange(0, jj + 1)[v] == x);
                            }
                        } else {
                            assert(x == keys@[jj]);
                        }
                    }
                    if wbefore.contains(x) {
                        assert(prev.contains(x));
                        let w = choose|w: int| 0 <= w < prev.len() && #[trigger] prev[w] == x;
                        assert(watched@[w] == x);
                    }
                    if keys@.subrange(0, jj + 1).contains(x) {
                        let v = choose|v: int| 0 <= v < jj + 1 && #[trigger] keys@.subrange(0, jj + 1)[v] == x;
                        if v < jj {
                            assert(keys@.subrange(0, jj)[v] == x);
                            assert(prev.contains(x));
                            let w = choose|w: int| 0 <= w < prev.len() && #[trigger] prev[w] == x;
                            assert(watched@[w] == x);
                        } else {
                            assert(watched@[prev.len() as int] == x);
                        }
                    }
                }
            }
            assert(keys@.subrange(0, j as int) =~= keys@);
            machines.push(
                EvdevShortcutMachine {
                    shortcut_id: s.id.clone(),
                    shortcut_name: s.name.clone(),
                    accelerator: s.accelerator.clone(),
                    machine,
                },
            );
            let ghost after = machine_views(machines@);
            assert(after =~= before.push((s.id@, machine@)));
            assert forall|x: u16| watched@.to_set().contains(x) <==> watched_by(after).contains(x) by {
                if watched_by(after).contains(x) {
                    let w = choose|w: int| 0 <= w < after.len() && (#[trigger] after[w]).1.watched.contains(x);
                    if w < before.len() {
                        assert(before[w] == after[w]);
                        assert(watched_by(before).contains(x));
                    }
                }
                if wbefore.contains(x) {
                    assert(watched_by(before).contains(x));
                    let w = choose|w: int| 0 <= w < before.len() && (#[trigger] before[w]).1.watched.contains(x);
                    assert(after[w] == before[w]);
                }
                if keys@.contains(x) {
                    assert(after[before.len() as int].1.watched.contains(x));
                }
            }
            assert(watched@.to_set() =~= watched_by(after));
            i = i + 1;
        }
        let s = EvdevShortcuts { machines, watched_keys: watched };
        assert(s.states() == machine_views(s.machines@));
        Ok(s)
    }

    /// Feeds one key event (an evdev value: 0 release, 1 press, other
    /// repeat) to every machine. Repeats and keys no shortcut watches
    /// change nothing. Returns the shortcuts that went down or up, in
    /// order.
    pub fn handle_event(&mut self, keycode: u16, value: i32) -> (r: Vec<(String, HotkeyTransition)>)
        requires
            old(self).well_formed(),
        ensures
            final(self).well_formed(),
            final(self).states().len() == old(self).states().len(),
            ({
                let t = if value == 0 {
                    KeyTransition::Released
                } else if value == 1 {
                    KeyTransition::Pressed
                } else {
                    KeyTransition::Repeat
                };
                &&& r@.map_values(|x: (String, HotkeyTransition)| (x.0@, x.1)) == reported(
                    old(self).states(),
                    keycode,
                    t,
                )
                &&& forall|i: int|
                    0 <= i < old(self).states().len() ==> #[trigger] final(self).states()[i] == (
                        old(self).states()[i].0,
                        old(self).states()[i].1.after_key(keycode, t).0,
                    )
            }),
    {
        let transition = transition_from_evdev_value(value);
        let ghost old_states = self.states();
        let mut out: Vec<(String, HotkeyTransition)> = Vec::new();
        let mut i: usize = 0;
        while i < self.machines.len()
            invariant
                i <= self.machines@.len(),
                self.machines@.len() == old_states.len(),
                self.watched_keys == old(self).watched_keys,
                old_states == old(self).states(),
                forall|k: int| 0 <= k < self.machines@.len() ==> (#[trigger] self.machines@[k]).machine.well_formed(),
                forall|k: int|
                    0 <= k < i ==> #[trigger] machine_views(self.machines@)[k] == (
                        old_states[k].0,
                        old_states[k].1.after_key(keycode, transition).0,
                    ),
                forall|k: int| i <= k < old_states.len() ==> #[trigger] machine_views(self.machines@)[k] == old_states[k],
                out@.map_values(|x: (String, HotkeyTransition)| (x.0@, x.1)) == reported(
                    old_states.subrange(0, i as int),
                    keycode,
                    transition,
                ),
            decreases self.machines@.len() - i,
        {
            let ghost before_out = out@.map_values(|x: (String, HotkeyTransition)| (x.0@, x.1));
            assert(old_states.subrange(0, i + 1).drop_last() =~= old_states.subrange(0, i as int));
            assert(machine_views(self.machines@)[i as int] == old_states[i as int]);
            let ghost pre = self.machines@;
            let t = self.machines[i].machine.handle_key(keycode, transition);
            proof {
                assert(self.machines@.len() == pre.len());
                assert(self.machines@[i as int].shortcut_id == pre[i as int].shortcut_id);
                assert((self.machines@[i as int].machine@, t) == pre[i as int].machine@.after_key(keycode, transition));
                assert forall|k: int| 0 <= k < self.machines@.len() && k != i implies #[trigger] self.machines@[k] == pre[k] by {}
                assert forall|k: int| 0 <= k < self.machines@.len() implies (#[trigger] self.machines@[k]).machine.well_formed() by {
                    if k != i {
                        assert(self.machines@[k] == pre[k]);
                    }
                }
                assert forall|k: int| 0 <= k < i + 1 implies #[trigger] machine_views(self.machines@)[k] == (
                    old_states[k].0,
                    old_states[k].1.after_key(keycode, transition).0,
                ) by {
                    if k < i {
                        assert(self.machines@[k] == pre[k]);
                        assert(machine_views(pre)[k] == machine_views(self.machines@)[k]);
                    } else {
                        assert(machine_views(pre)[k] == old_states[k]);
                    }
                }
                assert forall|k: int| i + 1 <= k < old_states.len() implies #[trigger] machine_views(self.machines@)[k] == old_states[k] by {
                    assert(self.machines@[k] == pre[k]);
                    assert(machine_views(pre)[k] == old_states[k]);
                }
            }
            if t != HotkeyTransition::Unchanged {
                out.push((self.machines[i].shortcut_id.clone(), t));
                assert(out@.map_values(|x: (String, HotkeyTransition)| (x.0@, x.1)) =~= before_out.push(
                    (old_states[i as int].0, t),
                ));
            }
            i = i + 1;
        }
        assert(old_states.subrange(0, i as int) =~= old_states);
        proof {
            let s = self.states();
            assert forall|x: u16| #[trigger] watched_by(s).contains(x) <==> watched_by(old_states).contains(x) by {
                if watched_by(s).contains(x) {
                    let w = choose|w: int| 0 <= w < s.len() && (#[trigger] s[w]).1.watched.contains(x);
                    assert(old_states[w].1.watched.contains(x));
                }
                if watched_by(old_states).contains(x) {
                    let w = choose|w: int| 0 <= w < old_states.len() && (#[trigger] old_states[w]).1.watched.contains(x);
                    assert(s[w].1.watched.contains(x));
                }
            }
            assert(watched_by(s) =~= watched_by(old_states));
        }
        out
    }

    /// Releases every shortcut; returns the ids of those that were down, in
    /// order.
    pub fn reset_active(&mut self) -> (ids: Vec<String>)
        requires
            old(self).well_formed(),
        ensures
            final(self).well_formed(),
            final(self).states().len() == old(self).states().len(),
            ids@.map_values(|s: String| s@) == active_ids(old(self).states()),
            forall|i: int|
                0 <= i < old(self).states().len() ==> #[trigger] final(self).states()[i] == (
                    old(self).states()[i].0,
                    old(self).states()[i].1.after_reset().0,
                ),
    {
        let ghost old_states = self.states();
        let mut out: Vec<String> = Vec::new();
        let mut i: usize = 0;
        while i < self.machines.len()
            invariant
                i <= self.machines@.len(),
                self.machines@.len() == old_states.len(),
                self.watched_keys == old(self).watched_keys,
                old_states == old(self).states(),
                forall|k: int| 0 <= k < self.machines@.len() ==> (#[trigger] self.machines@[k]).machine.well_formed(),
                forall|k: int|
                    0 <= k < i ==> #[trigger] machine_views(self.machines@)[k] == (
                        old_states[k].0,
                        old_states[k].1.after_reset().0,
                    ),
                forall|k: int| i <= k < old_states.len() ==> #[trigger] machine_views(self.machines@)[k] == old_states[k],
                out@.map_values(|s: String| s@) == active_ids(old_states.subrange(0, i as int)),
            decreases self.machines@.len() - i,
        {
            let ghost before_out = out@.map_values(|s: String| s@);
            assert(old_states.subrange(0, i + 1).drop_last() =~= old_states.subrange(0, i as int));
            assert(machine_views(self.machines@)[i as int] == old_states[i as int]);
            let ghost pre = self.machines@;
            let t = self.machines[i].machine.reset();
            proof {
                assert(self.machines@.len() == pre.len());
                assert(self.machines@[i as int].shortcut_id == pre[i as int].shortcut_id);
                assert((self.machines@[i as int].machine@, t) == pre[i as int].machine@.after_reset());
                assert forall|k: int| 0 <= k < self.machines@.len() && k != i implies #[trigger] self.machines@[k] == pre[k] by {}
                assert forall|k: int| 0 <= k < self.machines@.len() implies (#[trigger] self.machines@[k]).machine.well_formed() by {
                    if k != i {
                        assert(self.machines@[k] == pre[k]);
                    }
                }
                assert forall|k: int| 0 <= k < i + 1 implies #[trigger] machine_views(self.machines@)[k] == (
                    old_states[k].0,
                    old_states[k].1.after_reset().0,
                ) by {
                    if k < i {
                        assert(self.machines@[k] == pre[k]);
                        assert(machine_views(pre)[k] == machine_views(self.machines@)[k]);
                    } else {
                        assert(machine_views(pre)[k] == old_states[k]);
                    }
                }
                assert forall|k: int| i + 1 <= k < old_states.len() implies #[trigger] machine_views(self.machines@)[k] == old_states[k] by {
                    assert(self.machines@[k] == pre[k]);
                    assert(machine_views(pre)[k] == old_states[k]);
                }
            }
            if t == HotkeyTransition::HotkeyUp {
                out.push(self.machines[i].shortcut_id.clone());
                assert(out@.map_values(|s: String| s@) =~= before_out.push(old_states[i as int].0));
            }
            i = i + 1;
        }
        assert(old_states.subrange(0, i as int) =~= old_states);
        proof {
            let s = self.states();
            assert forall|x: u16| #[trigger] watched_by(s).contains(x) <==> watched_by(old_states).contains(x) by {
                if watched_by(s).contains(x) {
                    let w = choose|w: int| 0 <= w < s.len() && (#[trigger] s[w]).1.watched.contains(x);
                    assert(old_states[w].1.watched.contains(x));
                }
                if watched_by(old_states).contains(x) {
                    let w = choose|w: int| 0 <= w < old_states.len() && (#[trigger] old_states[w]).1.watched.contains(x);
                    assert(s[w].1.watched.contains(x));
                }
            }
            assert(watched_by(s) =~= watched_by(old_states));
        }
        out
    }

    /// Whether some shortcut watches `keycode`.
    pub fn watches(&self, keycode: u16) -> (b: bool)
        requires
            self.well_formed(),
        ensures
            b == watched_by(self.states()).contains(keycode),
    {
        let mut i: usize = 0;
        while i < self.watched_keys.len()
            invariant
                self.well_formed(),
                i <= self.watched_keys@.len(),
                forall|k: int| 0 <= k < i ==> self.watched_keys@[k] != keycode,
            decreases self.watched_keys@.len() - i,
        {
            if self.watched_keys[i] == keycode {
                assert(self.watched_keys@.to_set().contains(keycode));
                return true;
            }
            i = i + 1;
        }
        assert(!self.watched_keys@.to_set().contains(keycode));
        false
    }

    /// The number of configured shortcuts.
    pub fn len(&self) -> (n: usize)
        ensures
            n == self.states().len(),
    {
        self.machines.len()
    }
}

} // verus!
