//! Linux signals as shortcut triggers: reading a configured signal, which
//! signals may be registered, and the set the enabled shortcuts use.
use vstd::prelude::*;

use crate::config::{AppConfig, ShortcutTrigger};
use crate::text::{all_digits, chars_of, digits_value, is_digit, push_all, push_str, string_from_chars, trim, trim_chars};

verus! {

broadcast use vstd::string::group_string_axioms;

/// Linux signal numbers.
pub const SIGHUP: i32 = 1;
pub const SIGINT: i32 = 2;
pub const SIGQUIT: i32 = 3;
pub const SIGILL: i32 = 4;
pub const SIGFPE: i32 = 8;
pub const SIGKILL: i32 = 9;
pub const SIGUSR1: i32 = 10;
pub const SIGSEGV: i32 = 11;
pub const SIGUSR2: i32 = 12;
pub const SIGALRM: i32 = 14;
pub const SIGTERM: i32 = 15;
pub const SIGSTOP: i32 = 19;
pub const SIGWINCH: i32 = 28;

/// The `i32` that `s` denotes in `i32::from_str`: an optional sign and one
/// or more decimal digits whose value fits.
pub open spec fn parsed_i32(s: Seq<char>) -> Option<i32> {
    let negative = s.len() > 0 && s[0] == '-';
    let d = if s.len() > 0 && (s[0] == '+' || s[0] == '-') {
        s.drop_first()
    } else {
        s
    };
    if d.len() == 0 || !all_digits(d) {
        None
    } else if negative {
        if digits_value(d) <= 2147483648 {
            Some((-(digits_value(d) as int)) as i32)
        } else {
            None
        }
    } else if digits_value(d) <= 2147483647 {
        Some(digits_value(d) as i32)
    } else {
        None
    }
}

proof fn lemma_digits_prefix_le(d: Seq<char>, k: int)
    requires
        0 <= k <= d.len(),
        all_digits(d),
    ensures
        digits_value(d.subrange(0, k)) <= digits_value(d),
    decreases d.len() - k,
{
    if k < d.len() {
        assert(all_digits(d.drop_last())) by {
            assert forall|i: int| 0 <= i < d.drop_last().len() implies is_digit(
                #[trigger] d.drop_last()[i],
            ) by {
                assert(d.drop_last()[i] == d[i]);
            }
        }
        lemma_digits_prefix_le(d.drop_last(), k);
        assert(d.drop_last().subrange(0, k) =~= d.subrange(0, k));
        assert(is_digit(d[d.len() - 1]));
    } else {
        assert(d.subrange(0, k) =~= d);
    }
}

/// Parses an `i32` as `str::parse::<i32>` does.
pub fn parse_i32(s: &[char]) -> (r: Option<i32>)
    ensures
        r == parsed_i32(s@),
{
    let negative = s.len() > 0 && s[0] == '-';
    let start: usize = if s.len() > 0 && (s[0] == '+' || s[0] == '-') {
        1
    } else {
        0
    };
    let ghost d = if s@.len() > 0 && (s@[0] == '+' || s@[0] == '-') {
        s@.drop_first()
    } else {
        s@
    };
    assert(d =~= s@.subrange(start as int, s@.len() as int));
    if start == s.len() {
        return None;
    }
    let limit: u64 = if negative {
        2147483648
    } else {
        2147483647
    };
    let mut value: u64 = 0;
    let mut i: usize = start;
    while i < s.len()
        invariant
            start <= i <= s@.len(),
            d == s@.subrange(start as int, s@.len() as int),
            d == (if s@.len() > 0 && (s@[0] == '+' || s@[0] == '-') {
                s@.drop_first()
            } else {
                s@
            }),
            forall|j: int| start <= j < i ==> is_digit(#[trigger] s@[j]),
            value == digits_value(s@.subrange(start as int, i as int)),
            value <= limit,
            negative == (s@.len() > 0 && s@[0] == '-'),
            start == (if s@.len() > 0 && (s@[0] == '+' || s@[0] == '-') {
                1int
            } else {
                0int
            }),
            limit == (if negative {
                2147483648u64
            } else {
                2147483647u64
            }),
        decreases s@.len() - i,
    {
        let c = s[i];
        if !('0' <= c && c <= '9') {
            assert(d[i - start] == s@[i as int]);
            assert(!all_digits(d));
            return None;
        }
        assert(s@.subrange(start as int, i + 1).drop_last() =~= s@.subrange(start as int, i as int));
        let digit: u64 = ((c as u32) - ('0' as u32)) as u64;
        let next = value * 10 + digit;
        assert(s@.subrange(start as int, i + 1).last() == c);
        assert(digits_value(s@.subrange(start as int, i + 1)) == next);
        if next > limit {
            proof {
                assert(d.subrange(0, i - start + 1) =~= s@.subrange(start as int, i + 1));
                if all_digits(d) {
                    lemma_digits_prefix_le(d, (i - start + 1) as int);
                }
            }
            return None;
        }
        value = next;
        i = i + 1;
    }
    assert(s@.subrange(start as int, i as int) =~= d);
    assert forall|j: int| 0 <= j < d.len() implies is_digit(#[trigger] d[j]) by {
        assert(d[j] == s@[j + start]);
    }
    if negative {
        if value == 2147483648 {
            Some(-2147483647i32 - 1)
        } else {
            Some(-(value as i32))
        }
    } else {
        Some(value as i32)
    }
}

/// `c` with ASCII lower-case letters made upper-case.
pub open spec fn upper(c: char) -> char {
    if 'a' <= c <= 'z' {
        ((c as u32) - 32) as char
    } else {
        c
    }
}

/// ASCII white space as `char::is_ascii_whitespace` counts it.
pub open spec fn ascii_ws(c: char) -> bool {
    c == ' ' || c == '\t' || c == '\n' || c == '\x0C' || c == '\r'
}

/// The signal name as compared: upper-cased, without ASCII white space,
/// `_` and `-`.
pub open spec fn squeezed_upper(s: Seq<char>) -> Seq<char>
    decreases s.len(),
{
    if s.len() == 0 {
        Seq::empty()
    } else {
        let rest = squeezed_upper(s.drop_last());
        let c = s.last();
        if ascii_ws(c) || c == '_' || c == '-' {
            rest
        } else {
            rest.push(upper(c))
        }
    }
}

/// The name without a leading `SIG`.
pub open spec fn without_sig(n: Seq<char>) -> Seq<char> {
    if n.len() >= 3 && n.subrange(0, 3) == "SIG"@ {
        n.subrange(3, n.len() as int)
    } else {
        n
    }
}

/// The signal number of a normalized name.
pub open spec fn signal_of_name(n: Seq<char>) -> Option<i32> {
    if n == "USR1"@ || n == "USER1"@ {
        Some(SIGUSR1)
    } else if n == "USR2"@ || n == "USER2"@ {
        Some(SIGUSR2)
    } else if n == "HUP"@ {
        Some(SIGHUP)
    } else if n == "ALRM"@ || n == "ALARM"@ {
        Some(SIGALRM)
    } else if n == "WINCH"@ {
        Some(SIGWINCH)
    } else if n == "INT"@ {
        Some(SIGINT)
    } else if n == "TERM"@ {
        Some(SIGTERM)
    } else if n == "QUIT"@ {
        Some(SIGQUIT)
    } else {
        None
    }
}

/// How a configured signal reads: a positive number, or a known name in
/// any case, with or without `SIG`, spaces, `_` and `-` ignored.
pub open spec fn signal_resolution(input: Seq<char>) -> Result<i32, Seq<char>> {
    let t = trim(input);
    if t.len() == 0 {
        Err("signal is empty"@)
    } else if parsed_i32(t) is Some {
        if parsed_i32(t)->0 <= 0 {
            Err("signal number must be positive"@)
        } else {
            Ok(parsed_i32(t)->0)
        }
    } else {
        let n = without_sig(squeezed_upper(t));
        match signal_of_name(n) {
            Some(s) => Ok(s),
            None => Err("unsupported Linux signal: "@ + n),
        }
    }
}

fn squeeze_upper(s: &[char]) -> (r: Vec<char>)
    ensures
        r@ == squeezed_upper(s@),
{
    let mut out: Vec<char> = Vec::new();
    let mut i: usize = 0;
    while i < s.len()
        invariant
            i <= s@.len(),
            out@ == squeezed_upper(s@.subrange(0, i as int)),
        decreases s@.len() - i,
    {
        let c = s[i];
        assert(s@.subrange(0, i + 1).drop_last() =~= s@.subrange(0, i as int));
        if !(c == ' ' || c == '\t' || c == '\n' || c == '\x0C' || c == '\r' || c == '_' || c
            == '-') {
            let u = if 'a' <= c && c <= 'z' {
                ((c as u32) - 32) as u8 as char
            } else {
                c
            };
            out.push(u);
        }
        i = i + 1;
    }
    assert(s@.subrange(0, i as int) =~= s@);
    out
}

fn seq_is(v: &[char], w: &str) -> (b: bool)
    ensures
        b == (v@ == w@),
{
    let x = chars_of(w);
    crate::text::chars_equal(v, x.as_slice())
}

/// Reads a configured Linux signal.
pub fn resolve_signal_number(input: &str) -> (r: Result<i32, String>)
    ensures
        match signal_resolution(input@) {
            Ok(n) => r == Ok::<i32, String>(n),
            Err(m) => r matches Err(e) && e@ == m,
        },
{
    let v = chars_of(input);
    let t = trim_chars(v.as_slice());
    if t.len() == 0 {
        return Err(string_from_chars(chars_of("signal is empty").as_slice()));
    }
    if let Some(number) = parse_i32(t.as_slice()) {
        if number <= 0 {
            return Err(string_from_chars(chars_of("signal number must be positive").as_slice()));
        }
        return Ok(number);
    }
    let squeezed = squeeze_upper(t.as_slice());
    let name: Vec<char> = if squeezed.len() >= 3 && squeezed[0] == 'S' && squeezed[1] == 'I'
        && squeezed[2] == 'G' {
        proof {
            reveal_strlit("SIG");
            assert(squeezed@.subrange(0, 3) =~= "SIG"@);
        }
        crate::text::slice_chars(squeezed.as_slice(), 3, squeezed.len())
    } else {
        proof {
            reveal_strlit("SIG");
            if squeezed@.len() >= 3 && squeezed@.subrange(0, 3) == "SIG"@ {
                assert(squeezed@[0] == squeezed@.subrange(0, 3)[0]);
                assert(squeezed@[1] == squeezed@.subrange(0, 3)[1]);
                assert(squeezed@[2] == squeezed@.subrange(0, 3)[2]);
            }
        }
        squeezed
    };
    let n = name.as_slice();
    let found: Option<i32> = if seq_is(n, "USR1") || seq_is(n, "USER1") {
        Some(SIGUSR1)
    } else if seq_is(n, "USR2") || seq_is(n, "USER2") {
        Some(SIGUSR2)
    } else if seq_is(n, "HUP") {
        Some(SIGHUP)
    } else if seq_is(n, "ALRM") || seq_is(n, "ALARM") {
        Some(SIGALRM)
    } else if seq_is(n, "WINCH") {
        Some(SIGWINCH)
    } else if seq_is(n, "INT") {
        Some(SIGINT)
    } else if seq_is(n, "TERM") {
        Some(SIGTERM)
    } else if seq_is(n, "QUIT") {
        Some(SIGQUIT)
    } else {
        None
    };
    match found {
        Some(s) => Ok(s),
        None => {
            let mut out: Vec<char> = Vec::new();
            push_str(&mut out, "unsupported Linux signal: ");
            push_all(&mut out, n);
            Err(string_from_chars(out.as_slice()))
        },
    }
}

/// Signals that cannot be handled, as `signal_hook::consts::FORBIDDEN`
/// lists them.
pub open spec fn forbidden_signal(signal: i32) -> bool {
    signal == SIGKILL || signal == SIGSTOP || signal == SIGILL || signal == SIGFPE || signal
        == SIGSEGV
}

/// Whether a shortcut may take a signal: not one that cannot be handled,
/// and not one that stops the app (INT, TERM, QUIT, HUP).
pub open spec fn registerable(signal: i32) -> bool {
    !forbidden_signal(signal) && !(signal == SIGINT || signal == SIGTERM || signal == SIGQUIT
        || signal == SIGHUP)
}

/// Whether a shortcut may take a signal.
pub fn is_registerable_signal(signal: i32) -> (b: bool)
    ensures
        b == registerable(signal),
{
    !(signal == SIGKILL || signal == SIGSTOP || signal == SIGILL || signal == SIGFPE || signal
        == SIGSEGV) && !(signal == SIGINT || signal == SIGTERM || signal == SIGQUIT || signal
        == SIGHUP)
}

/// Whether the signal text `t` of some enabled signal-triggered profile
/// reads as `n`, a signal that may be registered.
pub open spec fn configured_signal(config: AppConfig, n: i32) -> bool {
    exists|i: int|
        0 <= i < config.shortcuts@.len() && #[trigger] config.shortcuts@[i].enabled && (
        match config.shortcuts@[i].trigger {
            ShortcutTrigger::LinuxSignal { start_signal, stop_signal } => (signal_resolution(
                start_signal@,
            ) == Ok::<i32, Seq<char>>(n) || signal_resolution(stop_signal@) == Ok::<
                i32,
                Seq<char>,
            >(n)) && registerable(n),
            ShortcutTrigger::Keyboard { .. } => false,
        })
}

/// Whether `v` is in increasing order without repeats.
pub open spec fn strictly_increasing(v: Seq<i32>) -> bool {
    forall|a: int, b: int| 0 <= a < b < v.len() ==> v[a] < v[b]
}

/// Puts `n` into the increasing list `v` unless it is there.
fn insert_sorted(v: &mut Vec<i32>, n: i32)
    requires
        strictly_increasing(old(v)@),
    ensures
        strictly_increasing(final(v)@),
        final(v)@.to_set() == old(v)@.to_set().insert(n),
{
    let mut i: usize = 0;
    while i < v.len() && v[i] < n
        invariant
            i <= v@.len(),
            forall|k: int| 0 <= k < i ==> v@[k] < n,
        decreases v@.len() - i,
    {
        i = i + 1;
    }
    let ghost before = v@;
    if i < v.len() && v[i] == n {
        assert(v@.to_set() =~= before.to_set().insert(n)) by {
            assert(before.to_set().contains(n));
        }
        return;
    }
    v.insert(i, n);
    assert(v@ =~= before.subrange(0, i as int).push(n) + before.subrange(i as int, before.len() as int));
    assert(strictly_increasing(v@)) by {
        assert forall|a: int, b: int| 0 <= a < b < v@.len() implies v@[a] < v@[b] by {
            if b < i {
            } else if b == i {
            } else if a < i {
                assert(v@[b] == before[b - 1]);
            } else if a == i {
                assert(v@[b] == before[b - 1]);
                assert(before[i as int] >= n);
                if (b - 1) > i {
                    assert(before[i as int] < before[b - 1]);
                }
            } else {
                assert(v@[a] == before[a - 1]);
                assert(v@[b] == before[b - 1]);
            }
        }
    }
    assert(v@.to_set() =~= before.to_set().insert(n)) by {
        assert forall|x: i32| v@.to_set().contains(x) implies before.to_set().insert(n).contains(x) by {
            let k = choose|k: int| 0 <= k < v@.len() && v@[k] == x;
            if k < i {
                assert(before[k] == x);
            } else if k > i {
                assert(before[k - 1] == x);
            }
        }
        assert forall|x: i32| before.to_set().insert(n).contains(x) implies v@.to_set().contains(x) by {
            if x == n {
                assert(v@[i as int] == n);
            } else {
                let k = choose|k: int| 0 <= k < before.len() && before[k] == x;
                if k < i {
                    assert(v@[k] == x);
                } else {
                    assert(v@[k + 1] == x);
                }
            }
        }
    }
}

/// The signals to register for the enabled signal-triggered shortcuts, in
/// increasing order without repeats; unreadable or reserved signals are
/// left out.
pub fn configured_signal_numbers(config: &AppConfig) -> (v: Vec<i32>)
    ensures
        strictly_increasing(v@),
        forall|n: i32| v@.contains(n) <==> configured_signal(*config, n),
{
    let mut v: Vec<i32> = Vec::new();
    let mut i: usize = 0;
    while i < config.shortcuts.len()
        invariant
            i <= config.shortcuts@.len(),
            strictly_increasing(v@),
            forall|n: i32|
                v@.to_set().contains(n) <==> exists|k: int|
                    0 <= k < i && #[trigger] config.shortcuts@[k].enabled && (
                    match config.shortcuts@[k].trigger {
                        ShortcutTrigger::LinuxSignal { start_signal, stop_signal } => (
                        signal_resolution(start_signal@) == Ok::<i32, Seq<char>>(n)
                            || signal_resolution(stop_signal@) == Ok::<i32, Seq<char>>(n))
                            && registerable(n),
                        ShortcutTrigger::Keyboard { .. } => false,
                    }),
        decreases config.shortcuts@.len() - i,
    {
        let p = &config.shortcuts[i];
        let ghost before = v@.to_set();
        if p.enabled {
            match &p.trigger {
                ShortcutTrigger::LinuxSignal { start_signal, stop_signal } => {
                    let a = resolve_signal_number(start_signal.as_str());
                    if let Ok(n) = a {
                        if is_registerable_signal(n) {
                            insert_sorted(&mut v, n);
                        }
                    }
                    let b = resolve_signal_number(stop_signal.as_str());
                    if let Ok(n) = b {
                        if is_registerable_signal(n) {
                            insert_sorted(&mut v, n);
                        }
                    }
                },
                ShortcutTrigger::Keyboard { .. } => {},
            }
        }
        i = i + 1;
    }
    assert forall|n: i32| v@.contains(n) <==> configured_signal(*config, n) by {
        assert(v@.contains(n) <==> v@.to_set().contains(n));
    }
    v
}

} // verus!
