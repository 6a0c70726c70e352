//! The settings window's working copy of the configuration and whether it
//! has unsaved changes.
use vstd::prelude::*;

use crate::backend::ShortcutTriggerCapabilities;
use crate::config::{
    copy_config, copy_profile, copy_trigger, is_default_signal_trigger, is_new_profile, is_next_shortcut_id,
    new_profile_settings, next_shortcut_id, AppConfig, ShortcutProfile, ShortcutTrigger,
    DEFAULT_SHORTCUT_ID,
};
use crate::text::{chars_of, decimal, push_decimal, string_from_chars};
use crate::runtime::same_str;
use crate::signals::{resolve_signal_number, signal_resolution, SIGUSR1, SIGUSR2};

verus! {

broadcast use vstd::string::group_string_axioms;

/// The configuration being edited and whether it differs from the saved one.
pub struct SettingsDraft {
    pub config: AppConfig,
    pub dirty: bool,
}

/// The profiles of `s` without those whose id is `id`, in order.
pub open spec fn without_id(s: Seq<ShortcutProfile>, id: Seq<char>) -> Seq<ShortcutProfile> {
    s.filter(other_id(id))
}

/// Whether a profile's id is not `id`.
pub open spec fn other_id(id: Seq<char>) -> spec_fn(ShortcutProfile) -> bool {
    |p: ShortcutProfile| p.id@ != id
}

/// The signals a trigger listens to, when it is a signal pair whose both
/// signals resolve: the start signal, then the stop signal where it
/// differs.
pub open spec fn signal_keys(t: ShortcutTrigger) -> Option<Seq<i32>> {
    match t {
        ShortcutTrigger::LinuxSignal { start_signal, stop_signal } => match (
            signal_resolution(start_signal@),
            signal_resolution(stop_signal@),
        ) {
            (Ok(a), Ok(b)) => Some(
                if a == b {
                    seq![a]
                } else {
                    seq![a, b]
                },
            ),
            _ => None,
        },
        ShortcutTrigger::Keyboard { .. } => None,
    }
}

/// The signals of a profile.
pub fn shortcut_signal_keys(shortcut: &ShortcutProfile) -> (r: Option<Vec<i32>>)
    ensures
        match signal_keys(shortcut.trigger) {
            Some(k) => r matches Some(v) && v@ == k,
            None => r is None,
        },
{
    match &shortcut.trigger {
        ShortcutTrigger::LinuxSignal { start_signal, stop_signal } => {
            let a = match resolve_signal_number(start_signal.as_str()) {
                Ok(a) => a,
                Err(_) => return None,
            };
            let b = match resolve_signal_number(stop_signal.as_str()) {
                Ok(b) => b,
                Err(_) => return None,
            };
            if a == b {
                Some(vec![a])
            } else {
                Some(vec![a, b])
            }
        },
        ShortcutTrigger::Keyboard { .. } => None,
    }
}

/// The signals of the default signal pair.
pub open spec fn default_signal_keys() -> Seq<i32> {
    seq![SIGUSR1, SIGUSR2]
}

/// The signals a profile listens to once keyboard triggers are replaced by
/// the default signal pair.
pub open spec fn coerced_keys(p: ShortcutProfile) -> Option<Seq<i32>> {
    match p.trigger {
        ShortcutTrigger::Keyboard { .. } => Some(default_signal_keys()),
        _ => signal_keys(p.trigger),
    }
}

/// Whether one of `keys` is already taken.
pub open spec fn keys_conflict(keys: Option<Seq<i32>>, occupied: Set<i32>) -> bool {
    keys matches Some(k) && exists|i: int| 0 <= i < k.len() && occupied.contains(#[trigger] k[i])
}

/// `occupied` with `keys` added.
pub open spec fn with_keys(occupied: Set<i32>, keys: Option<Seq<i32>>) -> Set<i32> {
    match keys {
        Some(k) => Set::new(|x: i32| occupied.contains(x) || k.contains(x)),
        None => occupied,
    }
}

/// The signals taken by the enabled profiles before position `i`, after
/// coercion: a profile keeps its signals only when none was taken before.
pub open spec fn occupied_before(s: Seq<ShortcutProfile>, i: int) -> Set<i32>
    decreases i,
{
    if i <= 0 {
        Set::empty()
    } else {
        let occ = occupied_before(s, i - 1);
        let p = s[i - 1];
        if p.enabled && !keys_conflict(coerced_keys(p), occ) {
            with_keys(occ, coerced_keys(p))
        } else {
            occ
        }
    }
}

/// Whether the profile at `i` stays enabled after coercion: it was enabled
/// and none of its signals is taken by an earlier profile.
pub open spec fn stays_enabled(s: Seq<ShortcutProfile>, i: int) -> bool {
    s[i].enabled && !keys_conflict(coerced_keys(s[i]), occupied_before(s, i))
}

/// `after` is `before` with its trigger made a signal pair and its enabled
/// flag `enabled`; nothing else changed.
pub open spec fn coerced_profile(before: ShortcutProfile, after: ShortcutProfile, enabled: bool) -> bool {
    &&& after.id == before.id
    &&& after.name == before.name
    &&& after.model_id == before.model_id
    &&& after.language == before.language
    &&& after.output == before.output
    &&& after.mute_output_while_recording == before.mute_output_while_recording
    &&& after.beep_on_recording == before.beep_on_recording
    &&& after.beep_volume_percent == before.beep_volume_percent
    &&& after.enabled == enabled
    &&& match before.trigger {
        ShortcutTrigger::Keyboard { .. } => is_default_signal_trigger(after.trigger),
        _ => after.trigger == before.trigger,
    }
}

proof fn lemma_occupied_grows(s: Seq<ShortcutProfile>, i: int, j: int)
    requires
        0 <= i <= j,
    ensures
        forall|x: i32| occupied_before(s, i).contains(x) ==> occupied_before(s, j).contains(x),
    decreases j - i,
{
    if i < j {
        lemma_occupied_grows(s, i, j - 1);
    }
}

/// After coercion without keyboard grabs, no signal is listened to by two
/// profiles that stay enabled.
pub proof fn lemma_coerced_signals_distinct(s: Seq<ShortcutProfile>, i: int, j: int, x: i32)
    requires
        0 <= i < j < s.len(),
        stays_enabled(s, i),
        stays_enabled(s, j),
        coerced_keys(s[i]) matches Some(a) && a.contains(x),
    ensures
        !(coerced_keys(s[j]) matches Some(b) && b.contains(x)),
{
    let a = coerced_keys(s[i])->0;
    assert(occupied_before(s, i + 1) == with_keys(occupied_before(s, i), coerced_keys(s[i])));
    assert(occupied_before(s, i + 1).contains(x));
    lemma_occupied_grows(s, i + 1, j);
    if coerced_keys(s[j]) is Some && coerced_keys(s[j])->0.contains(x) {
        let b = coerced_keys(s[j])->0;
        let w = choose|w: int| 0 <= w < b.len() && b[w] == x;
        assert(occupied_before(s, j).contains(b[w]));
        assert(keys_conflict(coerced_keys(s[j]), occupied_before(s, j)));
    }
}

fn any_taken(keys: &Vec<i32>, occupied: &Vec<i32>) -> (b: bool)
    ensures
        b == exists|i: int| 0 <= i < keys@.len() && occupied@.contains(#[trigger] keys@[i]),
{
    let mut i: usize = 0;
    while i < keys.len()
        invariant
            i <= keys@.len(),
            forall|k: int| 0 <= k < i ==> !occupied@.contains(#[trigger] keys@[k]),
        decreases keys@.len() - i,
    {
        let mut j: usize = 0;
        while j < occupied.len()
            invariant
                i < keys@.len(),
                j <= occupied@.len(),
                forall|m: int| 0 <= m < j ==> occupied@[m] != keys@[i as int],
            decreases occupied@.len() - j,
        {
            if occupied[j] == keys[i] {
                assert(occupied@.contains(keys@[i as int]));
                return true;
            }
            j = j + 1;
        }
        i = i + 1;
    }
    false
}

/// Whether an enabled profile of `s` listens to `SIGUSR1` or `SIGUSR2`.
pub open spec fn default_pair_in_use(s: Seq<ShortcutProfile>) -> bool {
    exists|i: int| 0 <= i < s.len() && #[trigger] listens_to_default_pair(s[i])
}

/// Whether `p` is enabled and listens to `SIGUSR1` or `SIGUSR2`.
pub open spec fn listens_to_default_pair(p: ShortcutProfile) -> bool {
    p.enabled && match signal_keys(p.trigger) {
        Some(k) => has_default_key(k),
        None => false,
    }
}

/// Whether `SIGUSR1` or `SIGUSR2` is among `keys`.
pub open spec fn has_default_key(keys: Seq<i32>) -> bool {
    exists|w: int| 0 <= w < keys.len() && default_signal_keys().contains(#[trigger] keys[w])
}

proof fn lemma_default_keys_contains(x: i32)
    ensures
        default_signal_keys().contains(x) <==> (x == SIGUSR1 || x == SIGUSR2),
{
    if x == SIGUSR1 {
        assert(default_signal_keys()[0] == x);
    }
    if x == SIGUSR2 {
        assert(default_signal_keys()[1] == x);
    }
}

/// The name of the `n`-th shortcut.
pub open spec fn numbered_name(n: nat) -> Seq<char> {
    "Shortcut "@ + decimal(n)
}

impl SettingsDraft {
    /// A clean draft of `config`.
    pub fn new(config: AppConfig) -> (d: Self)
        ensures
            d.config == config,
            !d.dirty,
    {
        SettingsDraft { config, dirty: false }
    }

    /// A copy of the configuration being edited.
    pub fn snapshot(&self) -> (c: AppConfig)
        ensures
            c.shortcuts@ == self.config.shortcuts@,
            c.compute_backend == self.config.compute_backend,
            c.keep_model_loaded == self.config.keep_model_loaded,
    {
        copy_config(&self.config)
    }

    /// Marks the draft edited; returns whether that changed the flag, which
    /// is when the window is told.
    fn mark_dirty(&mut self) -> (changed: bool)
        ensures
            final(self).dirty,
            changed == !old(self).dirty,
            final(self).config == old(self).config,
    {
        let was = self.dirty;
        self.dirty = true;
        !was
    }

    /// Takes a saved configuration; the draft is clean again. Returns
    /// whether the dirty flag changed.
    pub fn replace(&mut self, config: AppConfig) -> (changed: bool)
        ensures
            final(self).config == config,
            !final(self).dirty,
            changed == old(self).dirty,
    {
        let was = self.dirty;
        self.config = config;
        self.dirty = false;
        was
    }

    /// Replaces the profile whose id is `shortcut_id` with `updated`; the
    /// draft is then dirty. Returns whether the flag changed; a missing id
    /// changes nothing.
    pub fn update_shortcut(&mut self, shortcut_id: &str, updated: ShortcutProfile) -> (changed: bool)
        ensures
            (exists|i: int|
                0 <= i < old(self).config.shortcuts@.len() && #[trigger] old(
                    self,
                ).config.shortcuts@[i].id@ == shortcut_id@) ==> final(self).dirty && changed
                == !old(self).dirty && final(self).config.shortcuts@.len() == old(
                self,
            ).config.shortcuts@.len(),
            !(exists|i: int|
                0 <= i < old(self).config.shortcuts@.len() && #[trigger] old(
                    self,
                ).config.shortcuts@[i].id@ == shortcut_id@) ==> final(self).config == old(
                self,
            ).config && final(self).dirty == old(self).dirty && !changed,
            final(self).config.compute_backend == old(self).config.compute_backend,
            final(self).config.keep_model_loaded == old(self).config.keep_model_loaded,
    {
        let mut i: usize = 0;
        while i < self.config.shortcuts.len()
            invariant
                i <= self.config.shortcuts@.len(),
                self.config == old(self).config,
                self.dirty == old(self).dirty,
                forall|j: int| 0 <= j < i ==> #[trigger] self.config.shortcuts@[j].id@ != shortcut_id@,
            decreases self.config.shortcuts@.len() - i,
        {
            if same_str(self.config.shortcuts[i].id.as_str(), shortcut_id) {
                self.config.shortcuts.set(i, updated);
                return self.mark_dirty();
            }
            i = i + 1;
        }
        false
    }

    /// Removes the profile with this id; the default shortcut cannot be
    /// removed. Returns whether a profile was removed, which makes the
    /// draft dirty.
    pub fn remove_shortcut(&mut self, shortcut_id: &str) -> (removed: bool)
        ensures
            shortcut_id@ == DEFAULT_SHORTCUT_ID@ ==> !removed && final(self).config == old(
                self,
            ).config,
            shortcut_id@ != DEFAULT_SHORTCUT_ID@ ==> final(self).config.shortcuts@ == without_id(
                old(self).config.shortcuts@,
                shortcut_id@,
            ),
            removed == (final(self).config.shortcuts@.len() != old(self).config.shortcuts@.len()),
            removed ==> final(self).dirty,
            !removed ==> final(self).dirty == old(self).dirty,
            final(self).config.compute_backend == old(self).config.compute_backend,
            final(self).config.keep_model_loaded == old(self).config.keep_model_loaded,
    {
        if same_str(shortcut_id, DEFAULT_SHORTCUT_ID) {
            return false;
        }
        let original_len = self.config.shortcuts.len();
        let ghost old_s = self.config.shortcuts@;
        let mut kept: Vec<ShortcutProfile> = Vec::new();
        let mut i: usize = 0;
        while i < self.config.shortcuts.len()
            invariant
                i <= self.config.shortcuts@.len(),
                self.config.shortcuts@ == old_s,
                kept@ == without_id(old_s.subrange(0, i as int), shortcut_id@),
            decreases self.config.shortcuts@.len() - i,
        {
            let ghost prefix = old_s.subrange(0, i as int);
            assert(old_s.subrange(0, i + 1) =~= prefix.push(old_s[i as int]));
            let p = &self.config.shortcuts[i];
            if !same_str(p.id.as_str(), shortcut_id) {
                kept.push(copy_profile(p));
            }
            proof {
                prefix.lemma_filter_push(old_s[i as int], other_id(shortcut_id@));
            }
            i = i + 1;
        }
        assert(old_s.subrange(0, i as int) =~= old_s);
        let removed = kept.len() != original_len;
        self.config.shortcuts = kept;
        if removed {
            self.mark_dirty();
        }
        removed
    }

    /// Gives every profile that still uses the factory model the model
    /// `model_id`; the draft becomes dirty if one did.
    pub fn assign_factory_model_to_shortcuts(&mut self, factory_model_id: &str, model_id: &str)
        ensures
            final(self).config.shortcuts@.len() == old(self).config.shortcuts@.len(),
            forall|i: int|
                0 <= i < final(self).config.shortcuts@.len() ==> {
                    let before = #[trigger] old(self).config.shortcuts@[i];
                    let after = final(self).config.shortcuts@[i];
                    &&& after.model_id@ == (if before.model_id@ == factory_model_id@ {
                        model_id@
                    } else {
                        before.model_id@
                    })
                    &&& after.id == before.id
                    &&& after.name == before.name
                    &&& after.enabled == before.enabled
                    &&& after.trigger == before.trigger
                },
            final(self).dirty == (old(self).dirty || exists|i: int|
                0 <= i < old(self).config.shortcuts@.len() && #[trigger] old(
                    self,
                ).config.shortcuts@[i].model_id@ == factory_model_id@),
            final(self).config.compute_backend == old(self).config.compute_backend,
            final(self).config.keep_model_loaded == old(self).config.keep_model_loaded,
    {
        let ghost old_s = self.config.shortcuts@;
        let mut changed = false;
        let mut i: usize = 0;
        while i < self.config.shortcuts.len()
            invariant
                i <= self.config.shortcuts@.len(),
                self.config.shortcuts@.len() == old_s.len(),
                self.config.compute_backend == old(self).config.compute_backend,
                self.config.keep_model_loaded == old(self).config.keep_model_loaded,
                self.dirty == old(self).dirty,
                old_s == old(self).config.shortcuts@,
                changed == (exists|k: int| 0 <= k < i && #[trigger] old_s[k].model_id@ == factory_model_id@),
                forall|k: int|
                    i <= k < old_s.len() ==> #[trigger] self.config.shortcuts@[k] == old_s[k],
                forall|k: int|
                    0 <= k < i ==> {
                        let before = #[trigger] old_s[k];
                        let after = self.config.shortcuts@[k];
                        &&& after.model_id@ == (if before.model_id@ == factory_model_id@ {
                            model_id@
                        } else {
                            before.model_id@
                        })
                        &&& after.id == before.id
                        &&& after.name == before.name
                        &&& after.enabled == before.enabled
                        &&& after.trigger == before.trigger
                    },
            decreases self.config.shortcuts@.len() - i,
        {
            assert(self.config.shortcuts@[i as int] == old_s[i as int]);
            if same_str(self.config.shortcuts[i].model_id.as_str(), factory_model_id) {
                let p = copy_profile(&self.config.shortcuts[i]);
                let q = ShortcutProfile { model_id: model_id.to_string(), ..p };
                self.config.shortcuts.set(i, q);
                changed = true;
            }
            i = i + 1;
        }
        if changed {
            self.mark_dirty();
        }
    }

    /// Without keyboard grabs, turns every keyboard trigger into the
    /// default signal pair and disables each enabled profile one of whose
    /// signals an earlier enabled profile already uses. With keyboard grabs
    /// nothing changes. The dirty flag is left as it is.
    pub fn coerce_trigger_capabilities(&mut self, capabilities: ShortcutTriggerCapabilities)
        ensures
            final(self).dirty == old(self).dirty,
            final(self).config.compute_backend == old(self).config.compute_backend,
            final(self).config.keep_model_loaded == old(self).config.keep_model_loaded,
            capabilities == ShortcutTriggerCapabilities::KeyboardAndSignals ==> final(self).config
                == old(self).config,
            capabilities == ShortcutTriggerCapabilities::SignalsOnly ==> {
                &&& final(self).config.shortcuts@.len() == old(self).config.shortcuts@.len()
                &&& forall|i: int|
                    0 <= i < old(self).config.shortcuts@.len() ==> coerced_profile(
                        #[trigger] old(self).config.shortcuts@[i],
                        final(self).config.shortcuts@[i],
                        stays_enabled(old(self).config.shortcuts@, i),
                    )
            },
    {
        if capabilities.keyboard_available() {
            return;
        }
        let ghost old_s = self.config.shortcuts@;
        let mut occupied: Vec<i32> = Vec::new();
        let mut i: usize = 0;
        while i < self.config.shortcuts.len()
            invariant
                i <= self.config.shortcuts@.len(),
                self.config.shortcuts@.len() == old_s.len(),
                self.dirty == old(self).dirty,
                self.config.compute_backend == old(self).config.compute_backend,
                self.config.keep_model_loaded == old(self).config.keep_model_loaded,
                old_s == old(self).config.shortcuts@,
                forall|x: i32| occupied@.contains(x) <==> occupied_before(old_s, i as int).contains(x),
                forall|k: int| i <= k < old_s.len() ==> #[trigger] self.config.shortcuts@[k] == old_s[k],
                forall|k: int|
                    0 <= k < i ==> coerced_profile(
                        #[trigger] old_s[k],
                        self.config.shortcuts@[k],
                        stays_enabled(old_s, k),
                    ),
            decreases self.config.shortcuts@.len() - i,
        {
            let p = copy_profile(&self.config.shortcuts[i]);
            assert(p == old_s[i as int]);
            let is_keyboard = match &p.trigger {
                ShortcutTrigger::Keyboard { .. } => true,
                _ => false,
            };
            let keys: Option<Vec<i32>> = if is_keyboard {
                Some(vec![SIGUSR1, SIGUSR2])
            } else {
                shortcut_signal_keys(&p)
            };
            let ghost occ = occupied_before(old_s, i as int);
            let conflict = match &keys {
                Some(k) => any_taken(k, &occupied),
                None => false,
            };
            proof {
                match &keys {
                    Some(k) => {
                        assert(k@ == coerced_keys(p).unwrap());
                        if conflict {
                            let w = choose|w: int| 0 <= w < k@.len() && occupied@.contains(#[trigger] k@[w]);
                            assert(occ.contains(k@[w]));
                        }
                        if keys_conflict(coerced_keys(p), occ) {
                            let w = choose|w: int| 0 <= w < k@.len() && occ.contains(#[trigger] k@[w]);
                            assert(occupied@.contains(k@[w]));
                        }
                    },
                    None => {},
                }
                assert(conflict == keys_conflict(coerced_keys(p), occ));
            }
            let enabled = p.enabled && !conflict;
            let ghost start = occupied@;
            if enabled {
                match &keys {
                    Some(k) => {
                        let ghost before = occupied@;
                        let mut j: usize = 0;
                        while j < k.len()
                            invariant
                                j <= k@.len(),
                                forall|x: i32| occupied@.contains(x) <==> (before.contains(x)
                                    || k@.subrange(0, j as int).contains(x)),
                            decreases k@.len() - j,
                        {
                            let ghost prev = occupied@;
                            occupied.push(k[j]);
                            let ghost jj: int = j as int;
                            j = j + 1;
                            assert forall|x: i32| occupied@.contains(x) <==> (before.contains(x)
                                || k@.subrange(0, j as int).contains(x)) by {
                                assert(k@.subrange(0, j as int) == k@.subrange(0, jj + 1));
                                assert(occupied@ == prev.push(k@[jj]));
                                assert(k@.subrange(0, jj + 1)[jj] == k@[jj]);
                                if occupied@.contains(x) {
                                    let w = choose|w: int| 0 <= w < occupied@.len() && #[trigger] occupied@[w] == x;
                                    if w < prev.len() {
                                        assert(prev[w] == x);
                                        assert(prev.contains(x));
                                        if k@.subrange(0, jj).contains(x) {
                                            let v = choose|v: int| 0 <= v < jj && #[trigger] k@.subrange(0, jj)[v] == x;
                                            assert(k@.subrange(0, jj + 1)[v] == x);
                                        }
                                    } else {
                                        assert(x == k@[jj]);
                                    }
                                }
                                if before.contains(x) {
                                    assert(prev.contains(x));
                                    let w = choose|w: int| 0 <= w < prev.len() && #[trigger] prev[w] == x;
                                    assert(occupied@[w] == x);
                                }
                                if k@.subrange(0, jj + 1).contains(x) {
                                    let v = choose|v: int| 0 <= v < jj + 1 && #[trigger] k@.subrange(0, jj + 1)[v] == x;
                                    if v < jj {
                                        assert(k@.subrange(0, jj)[v] == x);
                                        assert(prev.contains(x));
                                        let w = choose|w: int| 0 <= w < prev.len() && #[trigger] prev[w] == x;
                                        assert(occupied@[w] == x);
                                    } else {
                                        assert(occupied@[prev.len() as int] == x);
                                    }
                                }
                            }
                        }
                        assert(k@.subrange(0, j as int) =~= k@);
                        assert forall|x: i32| occupied@.contains(x) <==> (occ.contains(x)
                            || k@.contains(x)) by {
                            assert(before.contains(x) <==> occ.contains(x));
                            assert(k@.subrange(0, j as int).contains(x) <==> k@.contains(x));
                        }
                        assert(coerced_keys(p) == Some(k@));
                    },
                    None => {},
                }
            }
            proof {
                let next = occupied_before(old_s, i + 1);
                assert(next == (if p.enabled && !keys_conflict(coerced_keys(p), occ) {
                    with_keys(occ, coerced_keys(p))
                } else {
                    occ
                }));
                assert forall|x: i32| occupied@.contains(x) <==> next.contains(x) by {
                    if !enabled || keys is None {
                        assert(occupied@ == start);
                    }
                }
            }
            let trigger = if is_keyboard {
                ShortcutTrigger::default_linux_signal()
            } else {
                copy_trigger(&p.trigger)
            };
            let q = ShortcutProfile { trigger, enabled, ..p };
            self.config.shortcuts.set(i, q);
            i = i + 1;
        }
    }


    /// Adds `Shortcut n`, `n` one more than the number of profiles, with a
    /// fresh id, the model `model_id` and the starting settings. Without
    /// keyboard grabs its trigger is the default signal pair, and it starts
    /// disabled when an enabled profile already listens to one of those
    /// signals. The draft becomes dirty; the added profile is returned.
    pub fn add_shortcut(&mut self, capabilities: ShortcutTriggerCapabilities, model_id: String) -> (added: ShortcutProfile)
        requires
            old(self).config.shortcuts@.len() + 1 < usize::MAX,
        ensures
            final(self).config.shortcuts@ == old(self).config.shortcuts@.push(added),
            final(self).dirty,
            final(self).config.compute_backend == old(self).config.compute_backend,
            final(self).config.keep_model_loaded == old(self).config.keep_model_loaded,
            is_next_shortcut_id(old(self).config.shortcuts@, added.id@),
            added.name@ == numbered_name(old(self).config.shortcuts@.len() + 1),
            capabilities == ShortcutTriggerCapabilities::KeyboardAndSignals ==> is_new_profile(
                added,
                added.id@,
                added.name@,
                model_id@,
            ),
            capabilities == ShortcutTriggerCapabilities::SignalsOnly ==> {
                &&& new_profile_settings(added, added.id@, added.name@, model_id@)
                &&& is_default_signal_trigger(added.trigger)
                &&& added.enabled == !default_pair_in_use(old(self).config.shortcuts@)
            },
    {
        let id = next_shortcut_id(&self.config.shortcuts);
        let mut name_chars = chars_of("Shortcut ");
        push_decimal(&mut name_chars, (self.config.shortcuts.len() as u64) + 1);
        let name = string_from_chars(name_chars.as_slice());
        let mut shortcut = ShortcutProfile::new_profile(id, name, model_id);
        if !capabilities.keyboard_available() {
            shortcut.trigger = ShortcutTrigger::default_linux_signal();
            let ghost s = self.config.shortcuts@;
            let mut in_use = false;
            let mut i: usize = 0;
            while i < self.config.shortcuts.len() && !in_use
                invariant
                    i <= s.len(),
                    s == self.config.shortcuts@,
                    in_use ==> default_pair_in_use(s),
                    !in_use ==> forall|m: int| 0 <= m < i ==> !#[trigger] listens_to_default_pair(s[m]),
                decreases s.len() - i,
            {
                let p = &self.config.shortcuts[i];
                if p.enabled {
                    match shortcut_signal_keys(p) {
                        Some(keys) => {
                            let mut w: usize = 0;
                            while w < keys.len() && !in_use
                                invariant
                                    w <= keys@.len(),
                                    i < s.len(),
                                    s[i as int].enabled,
                                    signal_keys(s[i as int].trigger) == Some(keys@),
                                    in_use ==> default_pair_in_use(s),
                                    !in_use ==> forall|v: int| 0 <= v < w ==> !default_signal_keys().contains(#[trigger] keys@[v]),
                                decreases keys@.len() - w,
                            {
                                let key = keys[w];
                                proof {
                                    lemma_default_keys_contains(key);
                                }
                                if key == SIGUSR1 || key == SIGUSR2 {
                                    proof {
                                        let k = keys@;
                                        assert(default_signal_keys().contains(k[w as int]));
                                        assert(has_default_key(k));
                                        assert(s[i as int].enabled);
                                        assert(signal_keys(s[i as int].trigger) == Some(k));
                                        assert(listens_to_default_pair(s[i as int]));
                                        assert(default_pair_in_use(s));
                                    }
                                    in_use = true;
                                }
                                w = w + 1;
                            }
                            if !in_use {
                                assert(!listens_to_default_pair(s[i as int]));
                            }
                        },
                        None => {},
                    }
                }
                i = i + 1;
            }
            shortcut.enabled = !in_use;
        }
        let added = copy_profile(&shortcut);
        self.config.shortcuts.push(shortcut);
        self.mark_dirty();
        added
    }

}

} // verus!
