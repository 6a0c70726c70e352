//! The shortcut configuration the app hands the input daemon, and the
//! shortcuts the daemon watches for once it has read it.
use vstd::prelude::*;

use crate::chord::chord_of;
use crate::shortcut::ShortcutChord;
use crate::text::{chars_of, decimal, push_decimal, push_str, string_from_chars, trim, trim_chars};

verus! {

broadcast use vstd::string::group_string_axioms;

/// The version of the configuration layout this build reads.
pub const CONFIG_SCHEMA_VERSION: u32 = 11;

/// One shortcut as the daemon receives it.
#[derive(Debug, Clone, PartialEq, Eq)]
pub struct ShortcutRuntimeBinding {
    pub id: String,
    pub name: String,
    pub accelerator: String,
    pub enabled: bool,
}

/// The shortcuts the daemon receives, with the layout version they were
/// written in.
#[derive(Debug, Clone, PartialEq, Eq)]
pub struct ShortcutRuntimeConfig {
    pub schema_version: u32,
    pub shortcuts: Vec<ShortcutRuntimeBinding>,
}

/// Why a configuration of another layout version is refused.
pub open spec fn schema_error(version: u32) -> Seq<char> {
    "unsupported shortcut config schema version "@ + decimal(version as nat)
}

fn schema_error_text(version: u32) -> (s: String)
    ensures
        s@ == schema_error(version),
{
    let mut out = chars_of("unsupported shortcut config schema version ");
    push_decimal(&mut out, version as u64);
    string_from_chars(out.as_slice())
}

impl ShortcutRuntimeConfig {
    /// Accepts only the layout version of this build.
    pub fn validate_current_schema(&self) -> (r: Result<(), String>)
        ensures
            self.schema_version == CONFIG_SCHEMA_VERSION ==> r is Ok,
            self.schema_version != CONFIG_SCHEMA_VERSION ==> (r matches Err(e) && e@ == schema_error(
                self.schema_version,
            )),
    {
        if self.schema_version == CONFIG_SCHEMA_VERSION {
            Ok(())
        } else {
            Err(schema_error_text(self.schema_version))
        }
    }
}

/// A shortcut the daemon watches for: its binding and the chord its
/// accelerator names.
#[derive(Debug, Clone, PartialEq, Eq)]
pub struct RuntimeShortcut {
    pub id: String,
    pub name: String,
    pub accelerator: String,
    pub chord: ShortcutChord,
}

/// A runtime shortcut as values.
pub type RuntimeShortcutView = (Seq<char>, Seq<char>, Seq<char>, ShortcutChord);

/// The runtime shortcuts as values.
pub open spec fn shortcut_views(v: Seq<RuntimeShortcut>) -> Seq<RuntimeShortcutView> {
    v.map_values(|s: RuntimeShortcut| (s.id@, s.name@, s.accelerator@, s.chord))
}

/// Whether the daemon watches for a binding: it is enabled and has an
/// accelerator.
pub open spec fn binding_active(b: ShortcutRuntimeBinding) -> bool {
    b.enabled && trim(b.accelerator@).len() > 0
}

/// Why a binding's accelerator could not be read.
pub open spec fn parse_error(accelerator: Seq<char>, reason: Seq<char>) -> Seq<char> {
    "failed to parse shortcut "@ + accelerator + ": "@ + reason
}

/// The watched shortcuts of the bindings, in order; the first accelerator
/// that cannot be read refuses them all.
pub open spec fn runtime_shortcuts(bs: Seq<ShortcutRuntimeBinding>) -> Result<Seq<RuntimeShortcutView>, Seq<char>>
    decreases bs.len(),
{
    if bs.len() == 0 {
        Ok(seq![])
    } else {
        match runtime_shortcuts(bs.drop_last()) {
            Err(e) => Err(e),
            Ok(v) => {
                let b = bs.last();
                if !binding_active(b) {
                    Ok(v)
                } else {
                    match chord_of(b.accelerator@) {
                        Ok(c) => Ok(v.push((b.id@, b.name@, b.accelerator@, c))),
                        Err(e) => Err(parse_error(b.accelerator@, e)),
                    }
                }
            },
        }
    }
}

impl RuntimeShortcut {
    /// The shortcuts to watch for: refused when the configuration has
    /// another layout version or an active binding's accelerator cannot be
    /// read; disabled bindings and blank accelerators are left out.
    pub fn from_config(config: &ShortcutRuntimeConfig) -> (r: Result<Vec<RuntimeShortcut>, String>)
        ensures
            config.schema_version != CONFIG_SCHEMA_VERSION ==> (r matches Err(e) && e@ == schema_error(
                config.schema_version,
            )),
            config.schema_version == CONFIG_SCHEMA_VERSION ==> match runtime_shortcuts(
                config.shortcuts@,
            ) {
                Ok(v) => r matches Ok(s) && shortcut_views(s@) == v,
                Err(e) => r matches Err(m) && m@ == e,
            },
    {
        match config.validate_current_schema() {
            Ok(()) => {},
            Err(e) => return Err(e),
        }
        let bs = &config.shortcuts;
        let mut out: Vec<RuntimeShortcut> = Vec::new();
        let mut i: usize = 0;
        assert(bs@.subrange(0, 0) =~= Seq::<ShortcutRuntimeBinding>::empty());
        assert(shortcut_views(out@) =~= Seq::<RuntimeShortcutView>::empty());
        while i < bs.len()
            invariant
                i <= bs@.len(),
                config.schema_version == CONFIG_SCHEMA_VERSION,
                bs@ == config.shortcuts@,
                runtime_shortcuts(bs@.subrange(0, i as int)) == Ok::<Seq<RuntimeShortcutView>, Seq<char>>(
                    shortcut_views(out@),
                ),
            decreases bs@.len() - i,
        {
            let ghost before = shortcut_views(out@);
            assert(bs@.subrange(0, i + 1).drop_last() =~= bs@.subrange(0, i as int));
            let b = &bs[i];
            let acc = trim_chars(chars_of(b.accelerator.as_str()).as_slice());
            if b.enabled && acc.len() > 0 {
                match ShortcutChord::parse(b.accelerator.as_str()) {
                    Ok(chord) => {
                        out.push(
                            RuntimeShortcut {
                                id: b.id.clone(),
                                name: b.name.clone(),
                                accelerator: b.accelerator.clone(),
                                chord,
                            },
                        );
                        assert(shortcut_views(out@) =~= before.push(
                            (b.id@, b.name@, b.accelerator@, chord),
                        ));
                    },
                    Err(reason) => {
                        let mut msg = chars_of("failed to parse shortcut ");
                        push_str(&mut msg, b.accelerator.as_str());
                        push_str(&mut msg, ": ");
                        push_str(&mut msg, reason.as_str());
                        proof {
                            lemma_error_stays(bs@, i as int + 1, parse_error(b.accelerator@, reason@));
                            assert(bs@.subrange(0, bs@.len() as int) =~= bs@);
                        }
                        return Err(string_from_chars(msg.as_slice()));
                    },
                }
            }
            i = i + 1;
        }
        assert(bs@.subrange(0, i as int) =~= bs@);
        Ok(out)
    }
}

proof fn lemma_error_stays(bs: Seq<ShortcutRuntimeBinding>, i: int, e: Seq<char>)
    requires
        0 <= i <= bs.len(),
        runtime_shortcuts(bs.subrange(0, i)) == Err::<Seq<RuntimeShortcutView>, Seq<char>>(e),
    ensures
        runtime_shortcuts(bs) == Err::<Seq<RuntimeShortcutView>, Seq<char>>(e),
    decreases bs.len() - i,
{
    if i < bs.len() {
        assert(bs.subrange(0, i + 1).drop_last() =~= bs.subrange(0, i));
        lemma_error_stays(bs, i + 1, e);
    } else {
        assert(bs.subrange(0, i) =~= bs);
    }
}

} // verus!
