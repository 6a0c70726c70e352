//! The shortcut configuration: profiles, how an external selector finds
//! one, and which Linux signals the enabled profiles listen to.
use vstd::prelude::*;

use crate::clipboard::{OutputAction, PasteShortcut};
use crate::text::{chars_of, decimal, lemma_decimal_value, push_decimal, push_str, string_from_chars};
use crate::whisper::{ComputeBackend, AUTO_LANGUAGE_VALUE};
use vstd::relations::injective_on;
use vstd::set_lib::{lemma_int_range, lemma_len_subset, lemma_map_size, set_int_range};

verus! {

broadcast use vstd::string::group_string_axioms;

/// The id of the shortcut every configuration starts with.
pub const DEFAULT_SHORTCUT_ID: &'static str = "default";

/// What starts and stops a shortcut's recording.
#[derive(Debug, Clone, PartialEq, Eq)]
pub enum ShortcutTrigger {
    /// A global key chord, held to talk.
    Keyboard { accelerator: String },
    /// Linux signals sent to the app; one signal may both start and stop.
    LinuxSignal { start_signal: String, stop_signal: String },
}

/// Whether `t` is the signal pair new signal shortcuts start with:
/// `SIGUSR1` starts, `SIGUSR2` stops.
pub open spec fn is_default_signal_trigger(t: ShortcutTrigger) -> bool {
    t matches ShortcutTrigger::LinuxSignal { start_signal, stop_signal } && start_signal@
        == "SIGUSR1"@ && stop_signal@ == "SIGUSR2"@
}

impl ShortcutTrigger {
    /// The signal pair new signal shortcuts start with.
    pub fn default_linux_signal() -> (t: Self)
        ensures
            is_default_signal_trigger(t),
    {
        ShortcutTrigger::LinuxSignal {
            start_signal: "SIGUSR1".to_string(),
            stop_signal: "SIGUSR2".to_string(),
        }
    }
}

/// One dictation shortcut.
#[derive(Debug, Clone, PartialEq, Eq)]
pub struct ShortcutProfile {
    pub id: String,
    pub name: String,
    pub enabled: bool,
    pub model_id: String,
    pub language: String,
    pub trigger: ShortcutTrigger,
    pub output: OutputAction,
    pub mute_output_while_recording: bool,
    pub beep_on_recording: bool,
    pub beep_volume_percent: u8,
}

/// The settings this library reads.
#[derive(Debug, Clone, PartialEq, Eq)]
pub struct AppConfig {
    pub shortcuts: Vec<ShortcutProfile>,
    pub compute_backend: ComputeBackend,
    pub keep_model_loaded: bool,
}

/// The accelerator new keyboard shortcuts start with.
pub const DEFAULT_ACCELERATOR: &'static str = "Ctrl+Alt+Space";

/// The beep volume new shortcuts start with, in percent.
pub const DEFAULT_BEEP_VOLUME_PERCENT: u8 = 100;

/// The settings a new profile starts with: enabled, the default keyboard
/// chord, language detection, copying to the clipboard, no muting and no
/// beeps.
pub open spec fn is_new_profile(p: ShortcutProfile, id: Seq<char>, name: Seq<char>, model_id: Seq<char>) -> bool {
    &&& new_profile_settings(p, id, name, model_id)
    &&& p.enabled
    &&& p.trigger matches ShortcutTrigger::Keyboard { accelerator } && accelerator@ == DEFAULT_ACCELERATOR@
}

/// The starting settings of a new profile other than its trigger and
/// whether it is enabled.
pub open spec fn new_profile_settings(p: ShortcutProfile, id: Seq<char>, name: Seq<char>, model_id: Seq<char>) -> bool {
    &&& p.id@ == id
    &&& p.name@ == name
    &&& p.model_id@ == model_id
    &&& p.language@ == AUTO_LANGUAGE_VALUE@
    &&& starting_output_and_cues(p)
}

/// The output and cue settings a new profile starts with: copy to the
/// clipboard without pasting, no muting, no beeps at full volume.
pub open spec fn starting_output_and_cues(p: ShortcutProfile) -> bool {
    &&& p.output.copy_to_clipboard
    &&& !p.output.paste_from_clipboard
    &&& p.output.paste_shortcut == PasteShortcut::CtrlV
    &&& p.output.paste_custom_x11@ == Seq::<char>::empty()
    &&& p.output.paste_custom_wayland@ == Seq::<char>::empty()
    &&& !p.mute_output_while_recording
    &&& !p.beep_on_recording
    &&& p.beep_volume_percent == DEFAULT_BEEP_VOLUME_PERCENT
}

impl ShortcutProfile {
    /// A new profile with the starting settings.
    pub fn new_profile(id: String, name: String, model_id: String) -> (p: Self)
        ensures
            is_new_profile(p, id@, name@, model_id@),
    {
        ShortcutProfile {
            id,
            name,
            enabled: true,
            model_id,
            language: AUTO_LANGUAGE_VALUE.to_string(),
            trigger: ShortcutTrigger::Keyboard { accelerator: DEFAULT_ACCELERATOR.to_string() },
            output: OutputAction {
                copy_to_clipboard: true,
                paste_from_clipboard: false,
                paste_shortcut: PasteShortcut::CtrlV,
                paste_custom_x11: String::new(),
                paste_custom_wayland: String::new(),
            },
            mute_output_while_recording: false,
            beep_on_recording: false,
            beep_volume_percent: DEFAULT_BEEP_VOLUME_PERCENT,
        }
    }
}

/// The id `shortcut-n`.
pub open spec fn numbered_id(n: nat) -> Seq<char> {
    "shortcut-"@ + decimal(n)
}

/// Whether some profile has the id `id`.
pub open spec fn id_taken(s: Seq<ShortcutProfile>, id: Seq<char>) -> bool {
    exists|j: int| 0 <= j < s.len() && #[trigger] s[j].id@ == id
}

proof fn lemma_numbered_id_injective(a: nat, b: nat)
    requires
        numbered_id(a) == numbered_id(b),
    ensures
        a == b,
{
    let p = "shortcut-"@;
    assert(numbered_id(a).subrange(p.len() as int, numbered_id(a).len() as int) =~= decimal(a));
    assert(numbered_id(b).subrange(p.len() as int, numbered_id(b).len() as int) =~= decimal(b));
    lemma_decimal_value(a);
    lemma_decimal_value(b);
}

proof fn lemma_some_number_free(s: Seq<ShortcutProfile>)
    ensures
        exists|n: nat| 1 <= n <= s.len() + 1 && !id_taken(s, #[trigger] numbered_id(n)),
{
    if forall|n: nat| 1 <= n <= s.len() + 1 ==> id_taken(s, #[trigger] numbered_id(n)) {
        let f = |n: int| choose|j: int| 0 <= j < s.len() && #[trigger] s[j].id@ == numbered_id(n as nat);
        let x = set_int_range(1, s.len() as int + 2);
        lemma_int_range(1, s.len() as int + 2);
        assert forall|a: int| x.contains(a) implies 0 <= #[trigger] f(a) < s.len() && s[f(a)].id@ == numbered_id(a as nat) by {
            assert(id_taken(s, numbered_id(a as nat)));
        }
        assert(injective_on(f, x)) by {
            assert forall|a: int, b: int| x.contains(a) && x.contains(b) && #[trigger] f(a) == #[trigger] f(b) implies a == b by {
                assert(s[f(a)].id@ == numbered_id(a as nat));
                assert(s[f(b)].id@ == numbered_id(b as nat));
                lemma_numbered_id_injective(a as nat, b as nat);
            }
        }
        let y = x.map(f);
        lemma_map_size(x, y, f);
        let r = set_int_range(0, s.len() as int);
        lemma_int_range(0, s.len() as int);
        assert(y.subset_of(r)) by {
            assert forall|j: int| y.contains(j) implies r.contains(j) by {
                let a = choose|a: int| x.contains(a) && f(a) == j;
            }
        }
        lemma_len_subset(y, r);
        assert(false);
    }
}

/// Whether `id` is `shortcut-n` for the smallest `n` from 1 that no
/// profile of `s` uses.
pub open spec fn is_next_shortcut_id(s: Seq<ShortcutProfile>, id: Seq<char>) -> bool {
    exists|n: nat|
        n >= 1 && id == #[trigger] numbered_id(n) && !id_taken(s, id) && forall|k: nat|
            1 <= k < n ==> id_taken(s, #[trigger] numbered_id(k))
}

/// A fresh id for a new shortcut: `shortcut-n` for the smallest `n` from 1
/// that no profile uses.
pub fn next_shortcut_id(shortcuts: &Vec<ShortcutProfile>) -> (id: String)
    requires
        shortcuts@.len() < usize::MAX,
    ensures
        is_next_shortcut_id(shortcuts@, id@),
{
    let mut t: usize = 0;
    while t <= shortcuts.len()
        invariant
            t <= shortcuts@.len() + 1,
            shortcuts@.len() < usize::MAX,
            forall|k: nat| 1 <= k <= t ==> id_taken(shortcuts@, #[trigger] numbered_id(k)),
        decreases shortcuts@.len() + 1 - t,
    {
        let mut cand: Vec<char> = chars_of("shortcut-");
        push_decimal(&mut cand, (t as u64) + 1);
        let ghost n: nat = (t + 1) as nat;
        assert(cand@ == numbered_id(n));
        let mut j: usize = 0;
        let mut taken = false;
        while j < shortcuts.len() && !taken
            invariant
                j <= shortcuts@.len(),
                taken ==> 0 < j && shortcuts@[j - 1].id@ == cand@,
                !taken ==> forall|m: int| 0 <= m < j ==> #[trigger] shortcuts@[m].id@ != cand@,
            decreases shortcuts@.len() - j,
        {
            let other = chars_of(shortcuts[j].id.as_str());
            if crate::text::chars_equal(other.as_slice(), cand.as_slice()) {
                taken = true;
            }
            j = j + 1;
        }
        if !taken {
            assert(!id_taken(shortcuts@, cand@));
            return string_from_chars(cand.as_slice());
        }
        assert(id_taken(shortcuts@, numbered_id(n)));
        t = t + 1;
    }
    proof {
        lemma_some_number_free(shortcuts@);
    }
    assert(false);
    String::new()
}

/// Index of the first profile with this id, if any.
pub open spec fn first_id_match(s: Seq<ShortcutProfile>, id: Seq<char>, n: int) -> Option<int>
    decreases n,
{
    if n <= 0 {
        None
    } else {
        match first_id_match(s, id, n - 1) {
            Some(i) => Some(i),
            None => if s[n - 1].id@ == id {
                Some(n - 1)
            } else {
                None
            },
        }
    }
}

/// Indices of the profiles with this name, in order.
pub open spec fn name_hits(s: Seq<ShortcutProfile>, name: Seq<char>, n: int) -> Seq<int>
    decreases n,
{
    if n <= 0 {
        Seq::empty()
    } else {
        let prev = name_hits(s, name, n - 1);
        if s[n - 1].name@ == name {
            prev.push(n - 1)
        } else {
            prev
        }
    }
}

/// How an external trigger's selector resolves to a shortcut id: an id
/// match wins, enabled or not; else exactly one enabled name match.
pub open spec fn selector_resolution(s: Seq<ShortcutProfile>, selector: Seq<char>) -> Result<Seq<char>, Seq<char>> {
    match first_id_match(s, selector, s.len() as int) {
        Some(i) => if s[i].enabled {
            Ok(s[i].id@)
        } else {
            Err("shortcut '"@ + selector + "' is disabled"@)
        },
        None => {
            let hits = name_hits(s, selector, s.len() as int);
            if hits.len() == 0 {
                Err("shortcut '"@ + selector + "' was not found"@)
            } else if hits.len() == 1 {
                if s[hits[0]].enabled {
                    Ok(s[hits[0]].id@)
                } else {
                    Err("shortcut '"@ + s[hits[0]].name@ + "' is disabled"@)
                }
            } else {
                Err("shortcut name '"@ + selector + "' is ambiguous"@)
            }
        },
    }
}

proof fn lemma_first_id_bounds(s: Seq<ShortcutProfile>, id: Seq<char>, n: int)
    ensures
        first_id_match(s, id, n) matches Some(i) ==> 0 <= i < n && s[i].id@ == id,
        first_id_match(s, id, n) is None ==> forall|j: int| 0 <= j < n ==> s[j].id@ != id,
    decreases n,
{
    if n > 0 {
        lemma_first_id_bounds(s, id, n - 1);
    }
}

proof fn lemma_name_hits_bounds(s: Seq<ShortcutProfile>, name: Seq<char>, n: int)
    requires
        0 <= n,
    ensures
        forall|k: int| 0 <= k < name_hits(s, name, n).len() ==> 0 <= #[trigger] name_hits(s, name, n)[k] < n,
    decreases n,
{
    if n > 0 {
        lemma_name_hits_bounds(s, name, n - 1);
        let prev = name_hits(s, name, n - 1);
        assert forall|k: int| 0 <= k < name_hits(s, name, n).len() implies 0 <= #[trigger] name_hits(
            s,
            name,
            n,
        )[k] < n by {
            if k < prev.len() {
                assert(name_hits(s, name, n)[k] == prev[k]);
            }
        }
    }
}

fn quoted_message(prefix: &str, subject: &str, suffix: &str) -> (m: String)
    ensures
        m@ == prefix@ + subject@ + suffix@,
{
    let mut out: Vec<char> = Vec::new();
    push_str(&mut out, prefix);
    push_str(&mut out, subject);
    push_str(&mut out, suffix);
    string_from_chars(out.as_slice())
}

/// Finds the shortcut an external trigger names, by id first, then by a
/// unique name; disabled, missing and ambiguous selections are refused.
pub fn resolve_shortcut_selector(config: &AppConfig, selector: &str) -> (r: Result<String, String>)
    ensures
        match selector_resolution(config.shortcuts@, selector@) {
            Ok(id) => r matches Ok(x) && x@ == id,
            Err(m) => r matches Err(e) && e@ == m,
        },
{
    let s = &config.shortcuts;
    let mut i: usize = 0;
    while i < s.len()
        invariant
            i <= s@.len(),
            s@ == config.shortcuts@,
            first_id_match(s@, selector@, i as int) is None,
        decreases s@.len() - i,
    {
        if crate::runtime::same_str(s[i].id.as_str(), selector) {
            proof {
                assert(first_id_match(s@, selector@, i + 1) == Some(i as int));
                lemma_first_id_prefix(s@, selector@, i + 1, s@.len() as int);
            }
            if s[i].enabled {
                return Ok(s[i].id.clone());
            }
            return Err(quoted_message("shortcut '", selector, "' is disabled"));
        }
        i = i + 1;
    }
    let mut hits: Vec<usize> = Vec::new();
    let mut j: usize = 0;
    while j < s.len()
        invariant
            j <= s@.len(),
            s@ == config.shortcuts@,
            hits@.len() == name_hits(s@, selector@, j as int).len(),
            forall|k: int| 0 <= k < hits@.len() ==> hits@[k] as int == #[trigger] name_hits(s@, selector@, j as int)[k],
        decreases s@.len() - j,
    {
        if crate::runtime::same_str(s[j].name.as_str(), selector) {
            hits.push(j);
        }
        j = j + 1;
    }
    proof {
        lemma_name_hits_bounds(s@, selector@, s@.len() as int);
    }
    if hits.len() == 0 {
        Err(quoted_message("shortcut '", selector, "' was not found"))
    } else if hits.len() == 1 {
        let k = hits[0];
        if s[k].enabled {
            Ok(s[k].id.clone())
        } else {
            Err(quoted_message("shortcut '", s[k].name.as_str(), "' is disabled"))
        }
    } else {
        Err(quoted_message("shortcut name '", selector, "' is ambiguous"))
    }
}

proof fn lemma_first_id_prefix(s: Seq<ShortcutProfile>, id: Seq<char>, m: int, n: int)
    requires
        0 <= m <= n,
        first_id_match(s, id, m) is Some,
    ensures
        first_id_match(s, id, n) == first_id_match(s, id, m),
    decreases n - m,
{
    if m < n {
        lemma_first_id_prefix(s, id, m, n - 1);
    }
}

/// The first profile with this id.
pub fn shortcut_by_id<'a>(config: &'a AppConfig, id: &str) -> (r: Option<&'a ShortcutProfile>)
    ensures
        match first_id_match(config.shortcuts@, id@, config.shortcuts@.len() as int) {
            Some(i) => 0 <= i < config.shortcuts@.len() && r == Some(&config.shortcuts@[i]),
            None => r is None,
        },
{
    proof {
        lemma_first_id_bounds(config.shortcuts@, id@, config.shortcuts@.len() as int);
    }
    let s = &config.shortcuts;
    let mut i: usize = 0;
    while i < s.len()
        invariant
            i <= s@.len(),
            s@ == config.shortcuts@,
            first_id_match(s@, id@, i as int) is None,
        decreases s@.len() - i,
    {
        if crate::runtime::same_str(s[i].id.as_str(), id) {
            proof {
                assert(first_id_match(s@, id@, i + 1) == Some(i as int));
                lemma_first_id_prefix(s@, id@, i + 1, s@.len() as int);
            }
            return Some(&s[i]);
        }
        i = i + 1;
    }
    None
}

/// Whether the shortcut with this id plays recording cues.
pub fn shortcut_beeps(config: &AppConfig, id: &str) -> (b: bool)
    ensures
        b == (match first_id_match(config.shortcuts@, id@, config.shortcuts@.len() as int) {
            Some(i) => config.shortcuts@[i].beep_on_recording,
            None => false,
        }),
{
    match shortcut_by_id(config, id) {
        Some(p) => p.beep_on_recording,
        None => false,
    }
}

/// A copy of an output setting.
pub fn copy_output(o: &OutputAction) -> (r: OutputAction)
    ensures
        r == *o,
{
    OutputAction {
        copy_to_clipboard: o.copy_to_clipboard,
        paste_from_clipboard: o.paste_from_clipboard,
        paste_shortcut: o.paste_shortcut,
        paste_custom_x11: o.paste_custom_x11.clone(),
        paste_custom_wayland: o.paste_custom_wayland.clone(),
    }
}

/// A copy of a trigger.
pub fn copy_trigger(t: &ShortcutTrigger) -> (r: ShortcutTrigger)
    ensures
        r == *t,
{
    match t {
        ShortcutTrigger::Keyboard { accelerator } => ShortcutTrigger::Keyboard {
            accelerator: accelerator.clone(),
        },
        ShortcutTrigger::LinuxSignal { start_signal, stop_signal } => ShortcutTrigger::LinuxSignal {
            start_signal: start_signal.clone(),
            stop_signal: stop_signal.clone(),
        },
    }
}

/// A copy of a profile.
pub fn copy_profile(p: &ShortcutProfile) -> (r: ShortcutProfile)
    ensures
        r == *p,
{
    ShortcutProfile {
        id: p.id.clone(),
        name: p.name.clone(),
        enabled: p.enabled,
        model_id: p.model_id.clone(),
        language: p.language.clone(),
        trigger: copy_trigger(&p.trigger),
        output: copy_output(&p.output),
        mute_output_while_recording: p.mute_output_while_recording,
        beep_on_recording: p.beep_on_recording,
        beep_volume_percent: p.beep_volume_percent,
    }
}

/// A copy of a configuration.
pub fn copy_config(config: &AppConfig) -> (c: AppConfig)
    ensures
        c.shortcuts@ == config.shortcuts@,
        c.compute_backend == config.compute_backend,
        c.keep_model_loaded == config.keep_model_loaded,
{
    let mut shortcuts: Vec<ShortcutProfile> = Vec::new();
    let mut i: usize = 0;
    while i < config.shortcuts.len()
        invariant
            i <= config.shortcuts@.len(),
            shortcuts@ == config.shortcuts@.subrange(0, i as int),
        decreases config.shortcuts@.len() - i,
    {
        shortcuts.push(copy_profile(&config.shortcuts[i]));
        assert(shortcuts@ =~= config.shortcuts@.subrange(0, i + 1));
        i = i + 1;
    }
    assert(shortcuts@ =~= config.shortcuts@);
    AppConfig {
        shortcuts,
        compute_backend: config.compute_backend,
        keep_model_loaded: config.keep_model_loaded,
    }
}

/// Gives every profile that still uses the factory model `factory_model_id`
/// the model `model_id`; none where no profile used it.
pub fn config_with_factory_shortcut_models(config: AppConfig, factory_model_id: &str, model_id: &str) -> (r: Option<AppConfig>)
    ensures
        (exists|i: int|
            0 <= i < config.shortcuts@.len() && #[trigger] config.shortcuts@[i].model_id@
                == factory_model_id@) <==> r is Some,
        r matches Some(c) ==> c.shortcuts@.len() == config.shortcuts@.len() && c.compute_backend
            == config.compute_backend && c.keep_model_loaded == config.keep_model_loaded && forall|
            i: int,
        |
            0 <= i < c.shortcuts@.len() ==> {
                let before = #[trigger] config.shortcuts@[i];
                let after = c.shortcuts@[i];
                &&& after.model_id@ == (if before.model_id@ == factory_model_id@ {
                    model_id@
                } else {
                    before.model_id@
                })
                &&& after.id == before.id
                &&& after.name == before.name
                &&& after.enabled == before.enabled
                &&& after.trigger == before.trigger
                &&& after.language == before.language
            },
{
    let mut shortcuts: Vec<ShortcutProfile> = Vec::new();
    let mut changed = false;
    let mut i: usize = 0;
    while i < config.shortcuts.len()
        invariant
            i <= config.shortcuts@.len(),
            shortcuts@.len() == i,
            changed == (exists|k: int|
                0 <= k < i && #[trigger] config.shortcuts@[k].model_id@ == factory_model_id@),
            forall|k: int|
                0 <= k < i ==> {
                    let before = #[trigger] config.shortcuts@[k];
                    let after = shortcuts@[k];
                    &&& after.model_id@ == (if before.model_id@ == factory_model_id@ {
                        model_id@
                    } else {
                        before.model_id@
                    })
                    &&& after.id == before.id
                    &&& after.name == before.name
                    &&& after.enabled == before.enabled
                    &&& after.trigger == before.trigger
                    &&& after.language == before.language
                },
        decreases config.shortcuts@.len() - i,
    {
        let p = copy_profile(&config.shortcuts[i]);
        if crate::runtime::same_str(p.model_id.as_str(), factory_model_id) {
            shortcuts.push(ShortcutProfile { model_id: model_id.to_string(), ..p });
            changed = true;
        } else {
            shortcuts.push(p);
        }
        i = i + 1;
    }
    if changed {
        Some(AppConfig { shortcuts, ..config })
    } else {
        None
    }
}

/// How a trigger reads in logs.
pub open spec fn trigger_text(t: ShortcutTrigger) -> Seq<char> {
    match t {
        ShortcutTrigger::Keyboard { accelerator } => "keyboard:"@ + accelerator@,
        ShortcutTrigger::LinuxSignal { start_signal, stop_signal } => if start_signal@
            == stop_signal@ {
            "signal:"@ + start_signal@ + ":start-stop"@
        } else {
            "signal:"@ + start_signal@ + "->"@ + stop_signal@
        },
    }
}

/// A short description of a trigger for logs.
pub fn trigger_summary(trigger: &ShortcutTrigger) -> (s: String)
    ensures
        s@ == trigger_text(*trigger),
{
    let mut out: Vec<char> = Vec::new();
    match trigger {
        ShortcutTrigger::Keyboard { accelerator } => {
            push_str(&mut out, "keyboard:");
            push_str(&mut out, accelerator.as_str());
        },
        ShortcutTrigger::LinuxSignal { start_signal, stop_signal } => {
            push_str(&mut out, "signal:");
            push_str(&mut out, start_signal.as_str());
            if crate::runtime::same_str(start_signal.as_str(), stop_signal.as_str()) {
                push_str(&mut out, ":start-stop");
            } else {
                push_str(&mut out, "->");
                push_str(&mut out, stop_signal.as_str());
            }
        },
    }
    string_from_chars(out.as_slice())
}

/// What one recording is made with: the shortcut's settings at the time
/// it started.
#[derive(Debug, Clone, PartialEq, Eq)]
pub struct TranscriptionPlan {
    pub recording_id: u64,
    pub shortcut_id: String,
    pub shortcut_name: String,
    pub model_id: String,
    pub model_path: String,
    pub language: String,
    pub compute_backend: ComputeBackend,
    pub mute_output_while_recording: bool,
    pub beep_on_recording: bool,
    pub beep_volume_percent: u8,
    pub output: OutputAction,
}

/// Whether `v` holds the text `s`.
pub fn contains_text(v: &Vec<String>, s: &str) -> (b: bool)
    ensures
        b == exists|i: int| 0 <= i < v@.len() && #[trigger] v@[i]@ == s@,
{
    let mut i: usize = 0;
    while i < v.len()
        invariant
            i <= v@.len(),
            forall|j: int| 0 <= j < i ==> #[trigger] v@[j]@ != s@,
        decreases v@.len() - i,
    {
        if crate::runtime::same_str(v[i].as_str(), s) {
            return true;
        }
        i = i + 1;
    }
    false
}

/// The text `a` followed by `b`.
fn joined(a: &str, b: &str) -> (m: String)
    ensures
        m@ == a@ + b@,
{
    let mut out: Vec<char> = Vec::new();
    push_str(&mut out, a);
    push_str(&mut out, b);
    string_from_chars(out.as_slice())
}

/// Snapshots a shortcut's settings for a new recording. The shortcut must
/// exist; its model must be in the catalogue (`catalog_model_path`, the
/// file the catalogue gives for the shortcut's model, none for a model it
/// does not know), be downloaded (`ready_model_ids`), and its file must
/// exist (`model_file_exists`).
pub fn build_transcription_plan(
    config: &AppConfig,
    ready_model_ids: &Vec<String>,
    catalog_model_path: Option<String>,
    model_file_exists: bool,
    recording_id: u64,
    shortcut_id: &str,
) -> (r: Result<TranscriptionPlan, String>)
    ensures
        match first_id_match(config.shortcuts@, shortcut_id@, config.shortcuts@.len() as int) {
            None => r matches Err(e) && e@ == "unknown shortcut "@ + shortcut_id@,
            Some(i) => {
                let p = config.shortcuts@[i];
                let ready = exists|j: int|
                    0 <= j < ready_model_ids@.len() && #[trigger] ready_model_ids@[j]@
                        == p.model_id@;
                match catalog_model_path {
                    None => r matches Err(e) && e@ == "unknown model "@ + p.model_id@,
                    Some(path) => if !ready {
                        r matches Err(e) && e@ == "model "@ + p.model_id@
                            + " is not downloaded; open Settings > Models and download it first"@
                    } else if !model_file_exists {
                        r matches Err(e) && e@
                            == "model file is missing even though inventory marks it ready: "@
                            + path@
                    } else {
                        r matches Ok(plan) && plan.recording_id == recording_id
                            && plan.shortcut_id@ == p.id@ && plan.shortcut_name@ == p.name@
                            && plan.model_id@ == p.model_id@ && plan.model_path@ == path@
                            && plan.language@ == p.language@ && plan.compute_backend
                            == config.compute_backend && plan.mute_output_while_recording
                            == p.mute_output_while_recording && plan.beep_on_recording
                            == p.beep_on_recording && plan.beep_volume_percent
                            == p.beep_volume_percent && plan.output == p.output
                    },
                }
            },
        },
{
    let shortcut = match shortcut_by_id(config, shortcut_id) {
        Some(s) => s,
        None => return Err(joined("unknown shortcut ", shortcut_id)),
    };
    let model_id = shortcut.model_id.as_str();
    let path = match catalog_model_path {
        Some(path) => path,
        None => return Err(joined("unknown model ", model_id)),
    };
    if !contains_text(ready_model_ids, model_id) {
        return Err(
            quoted_message(
                "model ",
                model_id,
                " is not downloaded; open Settings > Models and download it first",
            ),
        );
    }
    if !model_file_exists {
        return Err(
            joined("model file is missing even though inventory marks it ready: ", path.as_str()),
        );
    }
    Ok(
        TranscriptionPlan {
            recording_id,
            shortcut_id: shortcut.id.clone(),
            shortcut_name: shortcut.name.clone(),
            model_id: shortcut.model_id.clone(),
            model_path: path,
            language: shortcut.language.clone(),
            compute_backend: config.compute_backend,
            mute_output_while_recording: shortcut.mute_output_while_recording,
            beep_on_recording: shortcut.beep_on_recording,
            beep_volume_percent: shortcut.beep_volume_percent,
            output: copy_output(&shortcut.output),
        },
    )
}


/// The id and name of the signal shortcut a configuration with keyboard
/// grabs starts with, beside the keyboard one.
pub const SIGNAL_SHORTCUT_ID: &'static str = "signal";
pub const SIGNAL_SHORTCUT_NAME: &'static str = "Signal";

/// The value of a model or language that follows the general setting.
pub const INHERIT_VALUE: &'static str = "default";

/// The signal shortcut: `SIGUSR1` starts and `SIGUSR2` stops, with the
/// general model and language.
pub fn default_signal_shortcut_profile() -> (p: ShortcutProfile)
    ensures
        p.id@ == SIGNAL_SHORTCUT_ID@,
        p.name@ == SIGNAL_SHORTCUT_NAME@,
        p.enabled,
        is_default_signal_trigger(p.trigger),
        p.model_id@ == INHERIT_VALUE@,
        p.language@ == INHERIT_VALUE@,
        starting_output_and_cues(p),
{
    let mut p = ShortcutProfile::new_profile(
        SIGNAL_SHORTCUT_ID.to_string(),
        SIGNAL_SHORTCUT_NAME.to_string(),
        INHERIT_VALUE.to_string(),
    );
    p.language = INHERIT_VALUE.to_string();
    p.trigger = ShortcutTrigger::default_linux_signal();
    p
}

/// The starting configuration for what the session allows: with keyboard
/// grabs, `base` plus the signal shortcut; without, `base` with its first
/// shortcut triggered by the default signal pair.
pub fn default_config_for_shortcut_capabilities(capabilities: crate::backend::ShortcutTriggerCapabilities, base: AppConfig) -> (c: AppConfig)
    requires
        base.shortcuts@.len() > 0,
    ensures
        c.compute_backend == base.compute_backend,
        c.keep_model_loaded == base.keep_model_loaded,
        capabilities == crate::backend::ShortcutTriggerCapabilities::KeyboardAndSignals ==> {
            &&& c.shortcuts@.len() == base.shortcuts@.len() + 1
            &&& c.shortcuts@.subrange(0, base.shortcuts@.len() as int) == base.shortcuts@
            &&& c.shortcuts@.last().id@ == SIGNAL_SHORTCUT_ID@
            &&& is_default_signal_trigger(c.shortcuts@.last().trigger)
            &&& c.shortcuts@.last().enabled
        },
        capabilities == crate::backend::ShortcutTriggerCapabilities::SignalsOnly ==> {
            &&& c.shortcuts@.len() == base.shortcuts@.len()
            &&& is_default_signal_trigger(c.shortcuts@[0].trigger)
            &&& c.shortcuts@[0].id == base.shortcuts@[0].id
            &&& c.shortcuts@[0].enabled == base.shortcuts@[0].enabled
            &&& c.shortcuts@.subrange(1, c.shortcuts@.len() as int) == base.shortcuts@.subrange(1, base.shortcuts@.len() as int)
        },
{
    let mut config = base;
    if capabilities.keyboard_available() {
        config.shortcuts.push(default_signal_shortcut_profile());
        assert(config.shortcuts@.subrange(0, base.shortcuts@.len() as int) =~= base.shortcuts@);
    } else {
        let first = copy_profile(&config.shortcuts[0]);
        let updated = ShortcutProfile { trigger: ShortcutTrigger::default_linux_signal(), ..first };
        config.shortcuts.set(0, updated);
        assert(config.shortcuts@.subrange(1, config.shortcuts@.len() as int) =~= base.shortcuts@.subrange(1, base.shortcuts@.len() as int));
    }
    config
}

/// What loading the settings file does.
#[derive(Debug, Clone, Copy, PartialEq, Eq, Structural)]
pub enum ConfigLoadAction {
    /// No file yet: write and use the starting configuration.
    CreateDefault,
    /// A file of another layout version: overwrite it with the starting
    /// configuration.
    ReplaceWithDefault,
    /// A file of this layout version: read it.
    ParseExisting,
}

/// The layout version a settings file states, where it states one that
/// fits a `u32`.
pub fn schema_version_value(stated: Option<i64>) -> (v: Option<u32>)
    ensures
        match stated {
            Some(n) => if 0 <= n <= u32::MAX {
                v == Some(n as u32)
            } else {
                v is None
            },
            None => v is None,
        },
{
    match stated {
        Some(n) => {
            if 0 <= n && n <= 4294967295 {
                Some(n as u32)
            } else {
                None
            }
        },
        None => None,
    }
}

/// The integer a TOML document states under a top-level key; `None` when
/// the text is not a TOML document, or the key is missing or holds no
/// integer.
pub uninterp spec fn toml_top_level_integer(contents: Seq<char>, key: Seq<char>) -> Option<i64>;

/// `toml::from_str::<toml::Value>` on the document, then `Value::get` with
/// the key and `Value::as_integer`. The contract only names the result:
/// what TOML text reads as is left to the parser.
#[verifier::external_body]
fn toml_integer_field(contents: &str, key: &str) -> (r: Option<i64>)
    ensures
        r == toml_top_level_integer(contents@, key@),
{
    toml::from_str::<toml::Value>(contents).ok()?.get(key)?.as_integer()
}

/// The layout version a settings file states in `schema_version`, where it
/// states one that fits a `u32`.
pub fn config_schema_version(contents: &str) -> (v: Option<u32>)
    ensures
        v == match toml_top_level_integer(contents@, "schema_version"@) {
            Some(n) => if 0 <= n <= u32::MAX {
                Some(n as u32)
            } else {
                None
            },
            None => None,
        },
{
    schema_version_value(toml_integer_field(contents, "schema_version"))
}

/// What to do with the settings file: create it when missing, read it when
/// it has this build's layout version, and otherwise discard it for the
/// starting configuration.
pub fn config_load_action(file_exists: bool, schema_version: Option<u32>) -> (a: ConfigLoadAction)
    ensures
        !file_exists ==> a == ConfigLoadAction::CreateDefault,
        file_exists && schema_version == Some(crate::runtime_config::CONFIG_SCHEMA_VERSION) ==> a
            == ConfigLoadAction::ParseExisting,
        file_exists && schema_version != Some(crate::runtime_config::CONFIG_SCHEMA_VERSION) ==> a
            == ConfigLoadAction::ReplaceWithDefault,
{
    if !file_exists {
        return ConfigLoadAction::CreateDefault;
    }
    match schema_version {
        Some(v) => {
            if v == crate::runtime_config::CONFIG_SCHEMA_VERSION {
                ConfigLoadAction::ParseExisting
            } else {
                ConfigLoadAction::ReplaceWithDefault
            }
        },
        None => ConfigLoadAction::ReplaceWithDefault,
    }
}

} // verus!
