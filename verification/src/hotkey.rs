//! Chord detection for push-to-talk shortcuts: a chord is a list of
//! requirements, each met by any one of its alternative keys (left or
//! right modifier), and the chord is down while every requirement is met.
use vstd::prelude::*;

verus! {

/// A key identifier that can be compared.
pub trait HotkeyKey: Copy {
    fn same_key(&self, other: &Self) -> (b: bool)
        ensures
            b == (*self == *other),
    ;
}

impl HotkeyKey for u16 {
    fn same_key(&self, other: &Self) -> (b: bool) {
        *self == *other
    }
}

/// Whether `k` occurs in `v`.
fn vec_has<K: HotkeyKey>(v: &Vec<K>, k: K) -> (b: bool)
    ensures
        b == v@.contains(k),
{
    let mut i: usize = 0;
    while i < v.len()
        invariant
            i <= v@.len(),
            forall|j: int| 0 <= j < i ==> v@[j] != k,
        decreases v@.len() - i,
    {
        if v[i].same_key(&k) {
            return true;
        }
        i = i + 1;
    }
    false
}

/// A copy of `v`.
fn copy_keys<K: HotkeyKey>(v: &Vec<K>) -> (r: Vec<K>)
    ensures
        r@ == v@,
{
    let mut r: Vec<K> = Vec::new();
    let mut i: usize = 0;
    while i < v.len()
        invariant
            i <= v@.len(),
            r@ == v@.subrange(0, i as int),
        decreases v@.len() - i,
    {
        r.push(v[i]);
        i = i + 1;
    }
    assert(r@ =~= v@);
    r
}

proof fn lemma_push_to_set<K>(s: Seq<K>, x: K)
    ensures
        s.push(x).to_set() == s.to_set().insert(x),
{
    assert forall|y: K| s.push(x).to_set().contains(y) <==> s.to_set().insert(x).contains(y) by {
        if s.push(x).to_set().contains(y) {
            let i = choose|i: int| 0 <= i < s.push(x).len() && s.push(x)[i] == y;
            if i < s.len() {
                assert(s[i] == y);
            }
        }
        if s.to_set().insert(x).contains(y) {
            if y == x {
                assert(s.push(x)[s.len() as int] == y);
            } else {
                let i = choose|i: int| 0 <= i < s.len() && s[i] == y;
                assert(s.push(x)[i] == y);
            }
        }
    }
    assert(s.push(x).to_set() =~= s.to_set().insert(x));
}

/// Appends `k` to `v` unless it is already there.
fn vec_insert<K: HotkeyKey>(v: &mut Vec<K>, k: K)
    requires
        old(v)@.no_duplicates(),
    ensures
        final(v)@.no_duplicates(),
        final(v)@.to_set() == old(v)@.to_set().insert(k),
{
    if !vec_has(v, k) {
        v.push(k);
        proof {
            assert forall|i: int, j: int|
                0 <= i < v@.len() && 0 <= j < v@.len() && i != j implies v@[i] != v@[j] by {
                if i == v@.len() - 1 {
                    assert(old(v)@.contains(v@[j]));
                } else if j == v@.len() - 1 {
                    assert(old(v)@.contains(v@[i]));
                }
            }
            assert(v@.to_set() =~= old(v)@.to_set().insert(k)) by {
                assert forall|x: K| v@.to_set().contains(x) implies old(v)@.to_set().insert(
                    k,
                ).contains(x) by {
                    let i = choose|i: int| 0 <= i < v@.len() && v@[i] == x;
                    if i < old(v)@.len() {
                        assert(old(v)@[i] == x);
                    }
                }
                assert forall|x: K| old(v)@.to_set().insert(k).contains(x) implies v@.to_set().contains(
                    x,
                ) by {
                    if x == k {
                        assert(v@[v@.len() - 1] == k);
                    } else {
                        let i = choose|i: int| 0 <= i < old(v)@.len() && old(v)@[i] == x;
                        assert(v@[i] == x);
                    }
                }
            }
        }
    } else {
        assert(old(v)@.to_set().insert(k) =~= old(v)@.to_set());
    }
}

/// Removes `k` from `v`.
fn vec_remove<K: HotkeyKey>(v: &mut Vec<K>, k: K)
    requires
        old(v)@.no_duplicates(),
    ensures
        final(v)@.no_duplicates(),
        final(v)@.to_set() == old(v)@.to_set().remove(k),
{
    let ghost orig = v@;
    let mut out: Vec<K> = Vec::new();
    let mut i: usize = 0;
    while i < v.len()
        invariant
            i <= v@.len(),
            v@ == orig,
            orig.no_duplicates(),
            out@.no_duplicates(),
            forall|x: K| out@.contains(x) <==> (exists|j: int| 0 <= j < i && orig[j] == x && x != k),
        decreases v@.len() - i,
    {
        let x = v[i];
        if !x.same_key(&k) {
            proof {
                assert(!out@.contains(x)) by {
                    if out@.contains(x) {
                        let j = choose|j: int| 0 <= j < i && orig[j] == x && x != k;
                        assert(orig[j] == orig[i as int]);
                    }
                }
            }
            let ghost prev = out@;
            out.push(x);
            proof {
                assert(out@ == prev.push(x));
                assert forall|a: int, b: int|
                    0 <= a < out@.len() && 0 <= b < out@.len() && a != b implies out@[a]
                    != out@[b] by {
                    if a == out@.len() - 1 {
                        assert(prev[b] == out@[b]);
                        assert(prev.contains(out@[b]));
                    } else if b == out@.len() - 1 {
                        assert(prev[a] == out@[a]);
                        assert(prev.contains(out@[a]));
                    }
                }
                assert forall|y: K| out@.contains(y) <==> (exists|j: int|
                    0 <= j < i + 1 && orig[j] == y && y != k) by {
                    if out@.contains(y) {
                        let a = choose|a: int| 0 <= a < out@.len() && out@[a] == y;
                        if a < out@.len() - 1 {
                            assert(prev[a] == y);
                            assert(prev.contains(y));
                        } else {
                            assert(orig[i as int] == y);
                        }
                    }
                    if exists|j: int| 0 <= j < i + 1 && orig[j] == y && y != k {
                        let j = choose|j: int| 0 <= j < i + 1 && orig[j] == y && y != k;
                        if j < i {
                            assert(prev.contains(y));
                            let a = choose|a: int| 0 <= a < prev.len() && prev[a] == y;
                            assert(out@[a] == y);
                        } else {
                            assert(out@[out@.len() - 1] == y);
                        }
                    }
                }
            }
        } else {
            proof {
                assert forall|y: K| out@.contains(y) <==> (exists|j: int|
                    0 <= j < i + 1 && orig[j] == y && y != k) by {
                    if exists|j: int| 0 <= j < i + 1 && orig[j] == y && y != k {
                        let j = choose|j: int| 0 <= j < i + 1 && orig[j] == y && y != k;
                        assert(j < i);
                    }
                }
            }
        }
        i = i + 1;
    }
    proof {
        assert(out@.to_set() =~= orig.to_set().remove(k)) by {
            assert forall|y: K| out@.to_set().contains(y) <==> orig.to_set().remove(k).contains(
                y,
            ) by {
                if orig.to_set().remove(k).contains(y) {
                    let j = choose|j: int| 0 <= j < orig.len() && orig[j] == y;
                    assert(exists|j: int| 0 <= j < i && orig[j] == y && y != k);
                }
            }
        }
    }
    *v = out;
}

/// One requirement of a chord: met when any of its alternative keys is
/// pressed.
#[derive(Debug)]
pub struct KeyRequirement<K> {
    alternatives: Vec<K>,
}

impl<K> View for KeyRequirement<K> {
    type V = Set<K>;

    closed spec fn view(&self) -> Set<K> {
        self.alternatives@.to_set()
    }
}

/// Whether some key of `alternatives` is in `pressed`.
pub open spec fn requirement_met<K>(alternatives: Set<K>, pressed: Set<K>) -> bool {
    exists|k: K| alternatives.contains(k) && pressed.contains(k)
}

/// Whether every requirement is met by `pressed`.
pub open spec fn chord_met<K>(requirements: Seq<Set<K>>, pressed: Set<K>) -> bool {
    forall|i: int| 0 <= i < requirements.len() ==> requirement_met(#[trigger] requirements[i], pressed)
}

/// Every key that some requirement names.
pub open spec fn keys_of<K>(requirements: Seq<Set<K>>) -> Set<K> {
    Set::new(|k: K| exists|i: int| 0 <= i < requirements.len() && #[trigger] requirements[i].contains(k))
}

impl<K: HotkeyKey> KeyRequirement<K> {
    /// A requirement met by any one of `alternatives`.
    pub fn any<const N: usize>(alternatives: [K; N]) -> (r: Self)
        ensures
            r@ == alternatives@.to_set(),
    {
        let mut v: Vec<K> = Vec::new();
        let mut i: usize = 0;
        while i < N
            invariant
                i <= N == alternatives@.len(),
                v@ == alternatives@.subrange(0, i as int),
            decreases N - i,
        {
            v.push(alternatives[i]);
            i = i + 1;
        }
        assert(v@ =~= alternatives@);
        KeyRequirement { alternatives: v }
    }

    /// Whether some alternative is in `pressed`.
    fn is_satisfied(&self, pressed: &Vec<K>) -> (b: bool)
        ensures
            b == requirement_met(self@, pressed@.to_set()),
    {
        let mut i: usize = 0;
        while i < self.alternatives.len()
            invariant
                i <= self.alternatives@.len(),
                forall|j: int| 0 <= j < i ==> !pressed@.contains(#[trigger] self.alternatives@[j]),
            decreases self.alternatives@.len() - i,
        {
            if vec_has(pressed, self.alternatives[i]) {
                assert(self@.contains(self.alternatives@[i as int]));
                assert(pressed@.to_set().contains(self.alternatives@[i as int]));
                return true;
            }
            i = i + 1;
        }
        assert(!requirement_met(self@, pressed@.to_set())) by {
            if requirement_met(self@, pressed@.to_set()) {
                let k = choose|k: K| self@.contains(k) && pressed@.to_set().contains(k);
                let j = choose|j: int| 0 <= j < self.alternatives@.len() && self.alternatives@[j] == k;
                assert(!pressed@.contains(self.alternatives@[j]));
            }
        }
        false
    }

    /// The alternative keys of this requirement.
    pub fn watched_keys(&self) -> (v: Vec<K>)
        ensures
            v@.to_set() == self@,
    {
        copy_keys(&self.alternatives)
    }
}

proof fn lemma_met_monotone<K>(requirements: Seq<Set<K>>, p1: Set<K>, p2: Set<K>)
    requires
        p1.subset_of(p2),
        chord_met(requirements, p1),
    ensures
        chord_met(requirements, p2),
{
    assert forall|i: int| 0 <= i < requirements.len() implies requirement_met(
        #[trigger] requirements[i],
        p2,
    ) by {
        assert(requirement_met(requirements[i], p1));
        let k = choose|k: K| requirements[i].contains(k) && p1.contains(k);
        assert(p2.contains(k));
    }
}

proof fn lemma_keys_nonempty<K>(requirements: Seq<Set<K>>, key: K)
    requires
        keys_of(requirements).contains(key),
    ensures
        requirements.len() > 0,
{
}

/// What a key event reports.
#[derive(Debug, Clone, Copy, PartialEq, Eq, Structural)]
pub enum KeyTransition {
    Pressed,
    Released,
    Repeat,
}

/// What a key event does to the chord.
#[derive(Debug, Clone, Copy, PartialEq, Eq, Structural)]
pub enum HotkeyTransition {
    Unchanged,
    HotkeyDown,
    HotkeyUp,
}

/// The abstract state of a [`HotkeyStateMachine`].
#[verifier::reject_recursive_types(K)]
pub struct HotkeyState<K> {
    pub requirements: Seq<Set<K>>,
    pub watched: Set<K>,
    pub pressed: Set<K>,
    pub active: bool,
}

impl<K> HotkeyState<K> {
    /// The chord is down exactly while its requirements are met (a chord
    /// without requirements watches no key and never goes down), and only
    /// watched keys are counted as pressed.
    pub open spec fn consistent(self) -> bool {
        &&& self.watched == keys_of(self.requirements)
        &&& self.pressed.subset_of(self.watched)
        &&& self.requirements.len() > 0 ==> (self.active == chord_met(
            self.requirements,
            self.pressed,
        ))
        &&& self.requirements.len() == 0 ==> !self.active
    }

    /// The state after a key event and the transition it reports.
    pub open spec fn after_key(self, key: K, transition: KeyTransition) -> (
        HotkeyState<K>,
        HotkeyTransition,
    ) {
        if !self.watched.contains(key) {
            (self, HotkeyTransition::Unchanged)
        } else {
            match transition {
                KeyTransition::Pressed => {
                    let pressed = self.pressed.insert(key);
                    if !self.active && chord_met(self.requirements, pressed) {
                        (
                            HotkeyState { pressed, active: true, ..self },
                            HotkeyTransition::HotkeyDown,
                        )
                    } else {
                        (HotkeyState { pressed, ..self }, HotkeyTransition::Unchanged)
                    }
                },
                KeyTransition::Released => {
                    let pressed = self.pressed.remove(key);
                    if self.active && !chord_met(self.requirements, pressed) {
                        (
                            HotkeyState { pressed, active: false, ..self },
                            HotkeyTransition::HotkeyUp,
                        )
                    } else {
                        (HotkeyState { pressed, ..self }, HotkeyTransition::Unchanged)
                    }
                },
                KeyTransition::Repeat => (self, HotkeyTransition::Unchanged),
            }
        }
    }

    /// The state after a reset and the transition it reports.
    pub open spec fn after_reset(self) -> (HotkeyState<K>, HotkeyTransition) {
        (
            HotkeyState { pressed: Set::empty(), active: false, ..self },
            if self.active {
                HotkeyTransition::HotkeyUp
            } else {
                HotkeyTransition::Unchanged
            },
        )
    }
}

/// Tracks the pressed keys of one chord and reports when it goes down
/// and up.
#[derive(Debug)]
pub struct HotkeyStateMachine<K> {
    requirements: Vec<KeyRequirement<K>>,
    watched_keys: Vec<K>,
    pressed: Vec<K>,
    active: bool,
}

impl<K> View for HotkeyStateMachine<K> {
    type V = HotkeyState<K>;

    closed spec fn view(&self) -> HotkeyState<K> {
        HotkeyState {
            requirements: self.requirements@.map_values(|r: KeyRequirement<K>| r@),
            watched: self.watched_keys@.to_set(),
            pressed: self.pressed@.to_set(),
            active: self.active,
        }
    }
}

impl<K: HotkeyKey> HotkeyStateMachine<K> {
    /// The machine's state is consistent and its key lists hold each key once.
    pub closed spec fn well_formed(&self) -> bool {
        &&& self@.consistent()
        &&& self.watched_keys@.no_duplicates()
        &&& self.pressed@.no_duplicates()
    }

    /// A machine for the chord made of `requirements`, with nothing pressed.
    pub fn new(requirements: Vec<KeyRequirement<K>>) -> (m: Self)
        ensures
            m@.requirements == requirements@.map_values(|r: KeyRequirement<K>| r@),
            m@.watched == keys_of(m@.requirements),
            m@.pressed == Set::<K>::empty(),
            !m@.active,
            m@.consistent(),
            m.well_formed(),
    {
        let ghost reqs = requirements@.map_values(|r: KeyRequirement<K>| r@);
        let mut watched: Vec<K> = Vec::new();
        let mut i: usize = 0;
        while i < requirements.len()
            invariant
                i <= requirements@.len(),
                reqs == requirements@.map_values(|r: KeyRequirement<K>| r@),
                watched@.no_duplicates(),
                watched@.to_set() == keys_of(reqs.subrange(0, i as int)),
            decreases requirements@.len() - i,
        {
            let alternatives = requirements[i].watched_keys();
            let mut j: usize = 0;
            while j < alternatives.len()
                invariant
                    i < requirements@.len(),
                    j <= alternatives@.len(),
                    alternatives@.to_set() == reqs[i as int],
                    watched@.no_duplicates(),
                    watched@.to_set() == keys_of(reqs.subrange(0, i as int)).union(
                        alternatives@.subrange(0, j as int).to_set(),
                    ),
                decreases alternatives@.len() - j,
            {
                let ghost before = watched@.to_set();
                vec_insert(&mut watched, alternatives[j]);
                proof {
                    assert(alternatives@.subrange(0, j + 1) =~= alternatives@.subrange(
                        0,
                        j as int,
                    ).push(alternatives@[j as int]));
                    lemma_push_to_set(alternatives@.subrange(0, j as int), alternatives@[j as int]);
                    assert(watched@.to_set() =~= keys_of(reqs.subrange(0, i as int)).union(
                        alternatives@.subrange(0, j + 1).to_set(),
                    ));
                }
                j = j + 1;
            }
            proof {
                assert(alternatives@.subrange(0, j as int) =~= alternatives@);
                assert(keys_of(reqs.subrange(0, i + 1)) =~= keys_of(
                    reqs.subrange(0, i as int),
                ).union(reqs[i as int])) by {
                    assert forall|k: K| #[trigger] keys_of(reqs.subrange(0, i + 1)).contains(
                        k,
                    ) implies keys_of(reqs.subrange(0, i as int)).union(reqs[i as int]).contains(
                        k,
                    ) by {
                        let a = choose|a: int|
                            0 <= a < i + 1 && #[trigger] reqs.subrange(0, i + 1)[a].contains(k);
                        if a < i {
                            assert(reqs.subrange(0, i as int)[a] == reqs.subrange(0, i + 1)[a]);
                        }
                    }
                    assert forall|k: K|
                        #[trigger] keys_of(reqs.subrange(0, i as int)).union(
                            reqs[i as int],
                        ).contains(k) implies keys_of(reqs.subrange(0, i + 1)).contains(k) by {
                        if keys_of(reqs.subrange(0, i as int)).contains(k) {
                            let a = choose|a: int|
                                0 <= a < i && #[trigger] reqs.subrange(0, i as int)[a].contains(k);
                            assert(reqs.subrange(0, i + 1)[a] == reqs.subrange(0, i as int)[a]);
                        } else {
                            assert(reqs.subrange(0, i + 1)[i as int] == reqs[i as int]);
                        }
                    }
                }
            }
            i = i + 1;
        }
        assert(reqs.subrange(0, i as int) =~= reqs);
        proof {
            if reqs.len() == 0 {
                assert(keys_of(reqs) =~= Set::<K>::empty());
            }
        }
        let pressed: Vec<K> = Vec::new();
        assert(pressed@.to_set() =~= Set::<K>::empty());
        let m = HotkeyStateMachine { requirements, watched_keys: watched, pressed, active: false };
        proof {
            if reqs.len() > 0 {
                assert(!requirement_met(reqs[0], Set::<K>::empty()));
            }
        }
        m
    }

    /// Every key that the chord watches, each once.
    pub fn watched_keys(&self) -> (v: &Vec<K>)
        requires
            self.well_formed(),
        ensures
            v@.to_set() == self@.watched,
            v@.no_duplicates(),
    {
        &self.watched_keys
    }

    /// Whether every requirement is met by `pressed`.
    fn satisfied_with(&self, pressed: &Vec<K>) -> (b: bool)
        ensures
            b == chord_met(self@.requirements, pressed@.to_set()),
    {
        let mut i: usize = 0;
        while i < self.requirements.len()
            invariant
                i <= self.requirements@.len(),
                forall|j: int|
                    0 <= j < i ==> requirement_met(
                        #[trigger] self@.requirements[j],
                        pressed@.to_set(),
                    ),
            decreases self.requirements@.len() - i,
        {
            if !self.requirements[i].is_satisfied(pressed) {
                assert(!requirement_met(self@.requirements[i as int], pressed@.to_set()));
                return false;
            }
            i = i + 1;
        }
        true
    }

    /// Whether every requirement is met by the pressed keys.
    fn is_satisfied(&self) -> (b: bool)
        ensures
            b == chord_met(self@.requirements, self@.pressed),
    {
        self.satisfied_with(&self.pressed)
    }

    /// Applies one key event and reports what it did to the chord.
    pub fn handle_key(&mut self, key: K, transition: KeyTransition) -> (t: HotkeyTransition)
        requires
            old(self).well_formed(),
        ensures
            final(self).well_formed(),
            (final(self)@, t) == old(self)@.after_key(key, transition),
            final(self)@.consistent(),
            t == HotkeyTransition::HotkeyDown ==> !old(self)@.active && final(self)@.active,
            t == HotkeyTransition::HotkeyUp ==> old(self)@.active && !final(self)@.active,
            t == HotkeyTransition::Unchanged ==> old(self)@.active == final(self)@.active,
    {
        if !vec_has(&self.watched_keys, key) {
            return HotkeyTransition::Unchanged;
        }
        let ghost old_view = self@;
        match transition {
            KeyTransition::Pressed => {
                let mut pressed = copy_keys(&self.pressed);
                vec_insert(&mut pressed, key);
                let sat = self.satisfied_with(&pressed);
                proof {
                    if chord_met(old_view.requirements, old_view.pressed) {
                        lemma_met_monotone(old_view.requirements, old_view.pressed, pressed@.to_set());
                    }
                    lemma_keys_nonempty(old_view.requirements, key);
                }
                if !self.active && sat {
                    self.pressed = pressed;
                    self.active = true;
                    HotkeyTransition::HotkeyDown
                } else {
                    self.pressed = pressed;
                    HotkeyTransition::Unchanged
                }
            },
            KeyTransition::Released => {
                let mut pressed = copy_keys(&self.pressed);
                vec_remove(&mut pressed, key);
                let sat = self.satisfied_with(&pressed);
                proof {
                    if chord_met(old_view.requirements, pressed@.to_set()) {
                        lemma_met_monotone(old_view.requirements, pressed@.to_set(), old_view.pressed);
                    }
                }
                if self.active && !sat {
                    self.pressed = pressed;
                    self.active = false;
                    HotkeyTransition::HotkeyUp
                } else {
                    self.pressed = pressed;
                    HotkeyTransition::Unchanged
                }
            },
            KeyTransition::Repeat => HotkeyTransition::Unchanged,
        }
    }

    /// Releases every key; reports `HotkeyUp` when the chord was down.
    pub fn reset(&mut self) -> (t: HotkeyTransition)
        requires
            old(self).well_formed(),
        ensures
            final(self).well_formed(),
            (final(self)@, t) == old(self)@.after_reset(),
            final(self)@.consistent(),
    {
        let was_active = self.active;
        let empty: Vec<K> = Vec::new();
        assert(empty@.to_set() =~= Set::<K>::empty());
        proof {
            if self@.requirements.len() > 0 {
                assert(!requirement_met(self@.requirements[0], Set::<K>::empty()));
            }
        }
        self.pressed = empty;
        self.active = false;
        if was_active {
            HotkeyTransition::HotkeyUp
        } else {
            HotkeyTransition::Unchanged
        }
    }
}


/// Every key event keeps the chord's state consistent: it is down exactly
/// while every requirement has a pressed key, and only watched keys count
/// as pressed.
pub proof fn lemma_key_event_keeps_consistency<K>(s: HotkeyState<K>, key: K, t: KeyTransition)
    requires
        s.consistent(),
    ensures
        s.after_key(key, t).0.consistent(),
{
    if s.watched.contains(key) {
        lemma_keys_nonempty(s.requirements, key);
        match t {
            KeyTransition::Pressed => {
                let pressed = s.pressed.insert(key);
                if chord_met(s.requirements, s.pressed) {
                    lemma_met_monotone(s.requirements, s.pressed, pressed);
                }
            },
            KeyTransition::Released => {
                let pressed = s.pressed.remove(key);
                if chord_met(s.requirements, pressed) {
                    lemma_met_monotone(s.requirements, pressed, s.pressed);
                }
            },
            KeyTransition::Repeat => {},
        }
    }
}

/// Repeats, and keys the chord does not use, change nothing and report
/// nothing.
pub proof fn lemma_repeats_and_other_keys_ignored<K>(s: HotkeyState<K>, key: K, t: KeyTransition)
    requires
        t == KeyTransition::Repeat || !s.watched.contains(key),
    ensures
        s.after_key(key, t) == (s, HotkeyTransition::Unchanged),
{
}

/// Only a press that completes the chord reports it down, and only a
/// release that breaks it reports it up.
pub proof fn lemma_transitions_follow_the_chord<K>(s: HotkeyState<K>, key: K, t: KeyTransition)
    requires
        s.consistent(),
    ensures
        s.after_key(key, t).1 == HotkeyTransition::HotkeyDown ==> t == KeyTransition::Pressed
            && !s.active && chord_met(s.requirements, s.after_key(key, t).0.pressed),
        s.after_key(key, t).1 == HotkeyTransition::HotkeyUp ==> t == KeyTransition::Released
            && s.active && !chord_met(s.requirements, s.after_key(key, t).0.pressed),
{
}

/// A reset leaves the chord up with nothing pressed, and reports it up
/// exactly when it was down.
pub proof fn lemma_reset_releases<K>(s: HotkeyState<K>)
    requires
        s.consistent(),
    ensures
        s.after_reset().0.consistent(),
        !s.after_reset().0.active,
        s.after_reset().0.pressed == Set::<K>::empty(),
        (s.after_reset().1 == HotkeyTransition::HotkeyUp) == s.active,
{
    if s.requirements.len() > 0 {
        assert(!requirement_met(s.requirements[0], Set::<K>::empty()));
    }
}

} // verus!
