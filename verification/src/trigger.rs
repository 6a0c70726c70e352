//! The external trigger: command-line invocation parsing and the
//! one-line protocol spoken over the command socket.
use vstd::prelude::*;

use crate::text::{chars_equal, chars_of, push_all, push_str, slice_chars, string_from_chars, trim, trim_chars};

verus! {

/// The usage text of the command line.
pub open spec fn usage_text() -> Seq<char> {
    "usage: myapp\n       myapp trigger <shortcut-id-or-name> <start|stop|toggle>"@
}

/// The usage text of the command line.
pub fn usage() -> (s: &'static str)
    ensures
        s@ == usage_text(),
{
    "usage: myapp\n       myapp trigger <shortcut-id-or-name> <start|stop|toggle>"
}

/// What an external trigger asks a shortcut to do.
#[derive(Debug, Clone, Copy, PartialEq, Eq, Structural)]
pub enum ExternalTriggerAction {
    Start,
    Stop,
    Toggle,
}

/// The wire name of an action.
pub open spec fn action_text(a: ExternalTriggerAction) -> Seq<char> {
    match a {
        ExternalTriggerAction::Start => "start"@,
        ExternalTriggerAction::Stop => "stop"@,
        ExternalTriggerAction::Toggle => "toggle"@,
    }
}

/// The action with this wire name.
pub open spec fn action_named(s: Seq<char>) -> Option<ExternalTriggerAction> {
    if s == "start"@ {
        Some(ExternalTriggerAction::Start)
    } else if s == "stop"@ {
        Some(ExternalTriggerAction::Stop)
    } else if s == "toggle"@ {
        Some(ExternalTriggerAction::Toggle)
    } else {
        None
    }
}

/// Why an invocation, a request line or a response line was refused.
#[derive(Debug, Clone, PartialEq, Eq)]
pub enum TriggerError {
    /// The command line is not one of the supported forms; shows the usage.
    Usage,
    /// The action is not start, stop or toggle.
    UnsupportedAction(String),
    /// The shortcut is empty or white space only.
    EmptyShortcut,
    /// The shortcut holds a tab, a line feed or a carriage return.
    ShortcutHasLineBreak,
    /// The request line does not have the form `trigger<TAB>shortcut<TAB>action`.
    InvalidRequest,
    /// The app answered `error` with this message.
    Rejected(String),
    /// The response line is neither `ok` nor `error<TAB>message`.
    InvalidResponse,
}

impl ExternalTriggerAction {
    /// The wire name of the action.
    pub fn as_str(self) -> (s: &'static str)
        ensures
            s@ == action_text(self),
    {
        match self {
            ExternalTriggerAction::Start => "start",
            ExternalTriggerAction::Stop => "stop",
            ExternalTriggerAction::Toggle => "toggle",
        }
    }

    /// The action with this wire name.
    pub fn parse(value: &str) -> (r: Result<Self, TriggerError>)
        ensures
            match action_named(value@) {
                Some(a) => r == Ok::<Self, TriggerError>(a),
                None => r is Err && r->Err_0 is UnsupportedAction && r->Err_0->UnsupportedAction_0@
                    == value@,
            },
    {
        let v = chars_of(value);
        let start = chars_of("start");
        let stop = chars_of("stop");
        let toggle = chars_of("toggle");
        if chars_equal(v.as_slice(), start.as_slice()) {
            Ok(ExternalTriggerAction::Start)
        } else if chars_equal(v.as_slice(), stop.as_slice()) {
            Ok(ExternalTriggerAction::Stop)
        } else if chars_equal(v.as_slice(), toggle.as_slice()) {
            Ok(ExternalTriggerAction::Toggle)
        } else {
            Err(TriggerError::UnsupportedAction(value.to_owned()))
        }
    }
}

/// Tab, line feed or carriage return.
pub open spec fn is_line_break(c: char) -> bool {
    c == '\t' || c == '\n' || c == '\r'
}

/// Whether `s` holds a tab, line feed or carriage return.
pub open spec fn has_line_break(s: Seq<char>) -> bool {
    exists|i: int| 0 <= i < s.len() && is_line_break(#[trigger] s[i])
}

/// Whether `s` can name a shortcut in a request.
pub open spec fn valid_shortcut(s: Seq<char>) -> bool {
    trim(s).len() > 0 && !has_line_break(s)
}

fn find_line_break(v: &[char]) -> (b: bool)
    ensures
        b == has_line_break(v@),
{
    let mut i: usize = 0;
    while i < v.len()
        invariant
            i <= v@.len(),
            forall|j: int| 0 <= j < i ==> !is_line_break(#[trigger] v@[j]),
        decreases v@.len() - i,
    {
        let c = v[i];
        if c == '\t' || c == '\n' || c == '\r' {
            assert(is_line_break(v@[i as int]));
            return true;
        }
        i = i + 1;
    }
    false
}

/// A request to apply an action to a shortcut, named by id or name.
#[derive(Debug, Clone, PartialEq, Eq)]
pub struct ExternalTriggerRequest {
    pub shortcut: String,
    pub action: ExternalTriggerAction,
}

impl ExternalTriggerRequest {
    /// A request for a shortcut that is neither blank nor holds a tab or
    /// line break.
    pub fn new(shortcut: String, action: ExternalTriggerAction) -> (r: Result<Self, TriggerError>)
        ensures
            valid_shortcut(shortcut@) ==> r is Ok && r->Ok_0.shortcut@ == shortcut@
                && r->Ok_0.action == action,
            trim(shortcut@).len() == 0 ==> r == Err::<Self, TriggerError>(
                TriggerError::EmptyShortcut,
            ),
            trim(shortcut@).len() > 0 && has_line_break(shortcut@) ==> r == Err::<
                Self,
                TriggerError,
            >(TriggerError::ShortcutHasLineBreak),
    {
        let v = chars_of(shortcut.as_str());
        let t = trim_chars(v.as_slice());
        if t.len() == 0 {
            return Err(TriggerError::EmptyShortcut);
        }
        if find_line_break(v.as_slice()) {
            return Err(TriggerError::ShortcutHasLineBreak);
        }
        Ok(ExternalTriggerRequest { shortcut, action })
    }
}

/// What the app answered a request.
#[derive(Debug, Clone, PartialEq, Eq)]
pub enum ExternalTriggerResponse {
    Accepted,
    Rejected(String),
}

impl ExternalTriggerResponse {
    /// The request was accepted.
    pub fn accepted() -> (r: Self)
        ensures
            r == ExternalTriggerResponse::Accepted,
    {
        ExternalTriggerResponse::Accepted
    }

    /// The request was refused with this message.
    pub fn rejected(message: &str) -> (r: Self)
        ensures
            r is Rejected && r->Rejected_0@ == message@,
    {
        ExternalTriggerResponse::Rejected(message.to_owned())
    }
}

/// What the command line asks for.
#[derive(Debug, Clone, PartialEq, Eq)]
pub enum ExternalTriggerInvocation {
    RunApp,
    ShowUsage,
    Send(ExternalTriggerRequest),
}

/// `s` with every tab, line feed and carriage return replaced by a space.
pub open spec fn sanitized(s: Seq<char>) -> Seq<char> {
    s.map_values(|c: char| if is_line_break(c) { ' ' } else { c })
}

fn sanitize_chars(v: &[char]) -> (r: Vec<char>)
    ensures
        r@ == sanitized(v@),
{
    let mut r: Vec<char> = Vec::new();
    let mut i: usize = 0;
    while i < v.len()
        invariant
            i <= v@.len(),
            r@ == sanitized(v@.subrange(0, i as int)),
        decreases v@.len() - i,
    {
        let c = v[i];
        if c == '\t' || c == '\n' || c == '\r' {
            r.push(' ');
        } else {
            r.push(c);
        }
        assert(sanitized(v@.subrange(0, i + 1)) =~= sanitized(v@.subrange(0, i as int)).push(
            if is_line_break(c) { ' ' } else { c },
        ));
        i = i + 1;
    }
    assert(v@.subrange(0, i as int) =~= v@);
    r
}

/// A field value made safe for the line protocol.
pub fn sanitize_field(value: &str) -> (s: String)
    ensures
        s@ == sanitized(value@),
{
    let v = chars_of(value);
    let r = sanitize_chars(v.as_slice());
    string_from_chars(r.as_slice())
}

/// The request line for a shortcut and action.
pub open spec fn request_line(shortcut: Seq<char>, action: ExternalTriggerAction) -> Seq<char> {
    "trigger\t"@ + sanitized(shortcut) + "\t"@ + action_text(action) + "\n"@
}

/// The request line that the client sends.
pub fn serialize_protocol_request(request: &ExternalTriggerRequest) -> (s: String)
    ensures
        s@ == request_line(request.shortcut@, request.action),
{
    let mut out: Vec<char> = Vec::new();
    push_str(&mut out, "trigger\t");
    let v = chars_of(request.shortcut.as_str());
    let clean = sanitize_chars(v.as_slice());
    push_all(&mut out, clean.as_slice());
    push_str(&mut out, "\t");
    push_str(&mut out, request.action.as_str());
    push_str(&mut out, "\n");
    string_from_chars(out.as_slice())
}

/// `s` without trailing carriage returns and line feeds.
pub open spec fn strip_line_end(s: Seq<char>) -> Seq<char>
    decreases s.len(),
{
    if s.len() > 0 && (s.last() == '\r' || s.last() == '\n') {
        strip_line_end(s.drop_last())
    } else {
        s
    }
}

fn strip_line_end_chars(v: &[char]) -> (r: Vec<char>)
    ensures
        r@ == strip_line_end(v@),
{
    let mut end: usize = v.len();
    assert(v@.subrange(0, end as int) =~= v@);
    while end > 0 && (v[end - 1] == '\r' || v[end - 1] == '\n')
        invariant
            end <= v@.len(),
            strip_line_end(v@) == strip_line_end(v@.subrange(0, end as int)),
        decreases end,
    {
        assert(v@.subrange(0, end as int).drop_last() =~= v@.subrange(0, end - 1));
        end = end - 1;
    }
    slice_chars(v, 0, end)
}

/// The pieces of `s` between occurrences of `sep`, collected from `cur`.
pub open spec fn split_from(s: Seq<char>, sep: char, cur: Seq<char>) -> Seq<Seq<char>>
    decreases s.len(),
{
    if s.len() == 0 {
        seq![cur]
    } else if s[0] == sep {
        seq![cur] + split_from(s.drop_first(), sep, seq![])
    } else {
        split_from(s.drop_first(), sep, cur.push(s[0]))
    }
}

/// The pieces of `s` between occurrences of `sep` (what `str::split` gives).
pub open spec fn split_on(s: Seq<char>, sep: char) -> Seq<Seq<char>> {
    split_from(s, sep, seq![])
}

fn split_chars(v: &[char], sep: char) -> (r: Vec<Vec<char>>)
    ensures
        r@.map_values(|p: Vec<char>| p@) == split_on(v@, sep),
{
    let mut r: Vec<Vec<char>> = Vec::new();
    let mut cur: Vec<char> = Vec::new();
    let mut i: usize = 0;
    assert(v@.subrange(0, v@.len() as int) =~= v@);
    assert(r@.map_values(|p: Vec<char>| p@) =~= Seq::<Seq<char>>::empty());
    assert(cur@ =~= Seq::<char>::empty());
    while i < v.len()
        invariant
            i <= v@.len(),
            r@.map_values(|p: Vec<char>| p@) + split_from(v@.subrange(i as int, v@.len() as int), sep, cur@)
                == split_on(v@, sep),
        decreases v@.len() - i,
    {
        let ghost rest = v@.subrange(i as int, v@.len() as int);
        assert(rest.drop_first() =~= v@.subrange(i + 1, v@.len() as int));
        let c = v[i];
        if c == sep {
            let ghost before = r@.map_values(|p: Vec<char>| p@);
            let done = cur;
            r.push(done);
            cur = Vec::new();
            assert(r@.map_values(|p: Vec<char>| p@) =~= before.push(done@));
            assert(before + (seq![done@] + split_from(rest.drop_first(), sep, seq![])) =~= before.push(done@) + split_from(rest.drop_first(), sep, seq![]));
            assert(cur@ =~= seq![]);
        } else {
            cur.push(c);
        }
        i = i + 1;
    }
    let ghost before = r@.map_values(|p: Vec<char>| p@);
    let last = cur;
    r.push(last);
    assert(r@.map_values(|p: Vec<char>| p@) =~= before.push(last@));
    assert(v@.subrange(i as int, v@.len() as int) =~= Seq::<char>::empty());
    assert(before + seq![last@] =~= before.push(last@));
    r
}

/// The request that a request line carries, or why it is refused.
pub open spec fn request_of_line(line: Seq<char>) -> Result<(Seq<char>, ExternalTriggerAction), TriggerErrorKind> {
    let parts = split_on(strip_line_end(line), '\t');
    if parts.len() != 3 || parts[0] != "trigger"@ {
        Err(TriggerErrorKind::InvalidRequest)
    } else {
        match action_named(parts[2]) {
            None => Err(TriggerErrorKind::UnsupportedAction(parts[2])),
            Some(a) => if trim(parts[1]).len() == 0 {
                Err(TriggerErrorKind::EmptyShortcut)
            } else if has_line_break(parts[1]) {
                Err(TriggerErrorKind::ShortcutHasLineBreak)
            } else {
                Ok((parts[1], a))
            },
        }
    }
}

/// [`TriggerError`] with its text as characters.
pub enum TriggerErrorKind {
    Usage,
    UnsupportedAction(Seq<char>),
    EmptyShortcut,
    ShortcutHasLineBreak,
    InvalidRequest,
    Rejected(Seq<char>),
    InvalidResponse,
}

impl View for TriggerError {
    type V = TriggerErrorKind;

    open spec fn view(&self) -> TriggerErrorKind {
        match self {
            TriggerError::Usage => TriggerErrorKind::Usage,
            TriggerError::UnsupportedAction(s) => TriggerErrorKind::UnsupportedAction(s@),
            TriggerError::EmptyShortcut => TriggerErrorKind::EmptyShortcut,
            TriggerError::ShortcutHasLineBreak => TriggerErrorKind::ShortcutHasLineBreak,
            TriggerError::InvalidRequest => TriggerErrorKind::InvalidRequest,
            TriggerError::Rejected(s) => TriggerErrorKind::Rejected(s@),
            TriggerError::InvalidResponse => TriggerErrorKind::InvalidResponse,
        }
    }
}

/// Whether a request result matches its abstract description.
pub open spec fn request_result_is(
    r: Result<ExternalTriggerRequest, TriggerError>,
    expected: Result<(Seq<char>, ExternalTriggerAction), TriggerErrorKind>,
) -> bool {
    match expected {
        Ok((s, a)) => r is Ok && r->Ok_0.shortcut@ == s && r->Ok_0.action == a,
        Err(e) => r is Err && r->Err_0@ == e,
    }
}

/// The request that a request line carries.
pub fn parse_protocol_request(line: &str) -> (r: Result<ExternalTriggerRequest, TriggerError>)
    ensures
        request_result_is(r, request_of_line(line@)),
{
    let v = chars_of(line);
    let stripped = strip_line_end_chars(v.as_slice());
    let parts = split_chars(stripped.as_slice(), '\t');
    let ghost pv = parts@.map_values(|p: Vec<char>| p@);
    assert(pv.len() == parts@.len());
    if parts.len() != 3 {
        return Err(TriggerError::InvalidRequest);
    }
    assert(pv[0] == parts@[0]@ && pv[1] == parts@[1]@ && pv[2] == parts@[2]@);
    let trigger = chars_of("trigger");
    if !chars_equal(parts[0].as_slice(), trigger.as_slice()) {
        return Err(TriggerError::InvalidRequest);
    }
    let action_name = string_from_chars(parts[2].as_slice());
    let action = match ExternalTriggerAction::parse(action_name.as_str()) {
        Ok(a) => a,
        Err(e) => {
            return Err(e);
        },
    };
    ExternalTriggerRequest::new(string_from_chars(parts[1].as_slice()), action)
}

/// What a response line says.
pub open spec fn response_of_line(line: Seq<char>) -> Result<(), TriggerErrorKind> {
    let l = strip_line_end(line);
    if l == "ok"@ {
        Ok(())
    } else if crate::text::has_prefix(l, "error\t"@) {
        Err(TriggerErrorKind::Rejected(l.subrange(6, l.len() as int)))
    } else {
        Err(TriggerErrorKind::InvalidResponse)
    }
}

/// What a response line says: accepted, or refused with a message.
pub fn parse_protocol_response(line: &str) -> (r: Result<(), TriggerError>)
    ensures
        match response_of_line(line@) {
            Ok(()) => r is Ok,
            Err(e) => r is Err && r->Err_0@ == e,
        },
{
    let v = chars_of(line);
    let l = strip_line_end_chars(v.as_slice());
    let ok = chars_of("ok");
    if chars_equal(l.as_slice(), ok.as_slice()) {
        return Ok(());
    }
    let prefix = chars_of("error\t");
    proof {
        reveal_strlit("error\t");
    }
    if crate::text::starts_with_chars(l.as_slice(), prefix.as_slice()) {
        let message = slice_chars(l.as_slice(), 6, l.len());
        return Err(TriggerError::Rejected(string_from_chars(message.as_slice())));
    }
    Err(TriggerError::InvalidResponse)
}

/// The response line for an answer.
pub open spec fn response_line(r: ExternalTriggerResponse) -> Seq<char> {
    match r {
        ExternalTriggerResponse::Accepted => "ok\n"@,
        ExternalTriggerResponse::Rejected(m) => "error\t"@ + sanitized(m@) + "\n"@,
    }
}

/// The response line that the app writes back.
pub fn serialize_protocol_response(response: &ExternalTriggerResponse) -> (s: String)
    ensures
        s@ == response_line(*response),
{
    let mut out: Vec<char> = Vec::new();
    match response {
        ExternalTriggerResponse::Accepted => {
            push_str(&mut out, "ok\n");
        },
        ExternalTriggerResponse::Rejected(message) => {
            push_str(&mut out, "error\t");
            let v = chars_of(message.as_str());
            let clean = sanitize_chars(v.as_slice());
            push_all(&mut out, clean.as_slice());
            push_str(&mut out, "\n");
        },
    }
    string_from_chars(out.as_slice())
}

/// [`ExternalTriggerInvocation`] with the shortcut as characters.
pub enum InvocationKind {
    RunApp,
    ShowUsage,
    Send(Seq<char>, ExternalTriggerAction),
}

/// What a command line (without the program name) asks for, or why it is refused.
pub open spec fn invocation_of(args: Seq<Seq<char>>) -> Result<InvocationKind, TriggerErrorKind> {
    if args.len() == 0 {
        Ok(InvocationKind::RunApp)
    } else if args.len() == 1 && (args[0] == "--help"@ || args[0] == "-h"@) {
        Ok(InvocationKind::ShowUsage)
    } else if args.len() == 3 && args[0] == "trigger"@ {
        match action_named(args[2]) {
            None => Err(TriggerErrorKind::UnsupportedAction(args[2])),
            Some(a) => if trim(args[1]).len() == 0 {
                Err(TriggerErrorKind::EmptyShortcut)
            } else if has_line_break(args[1]) {
                Err(TriggerErrorKind::ShortcutHasLineBreak)
            } else {
                Ok(InvocationKind::Send(args[1], a))
            },
        }
    } else {
        Err(TriggerErrorKind::Usage)
    }
}

/// Whether an invocation result matches its abstract description.
pub open spec fn invocation_result_is(
    r: Result<ExternalTriggerInvocation, TriggerError>,
    expected: Result<InvocationKind, TriggerErrorKind>,
) -> bool {
    match expected {
        Ok(InvocationKind::RunApp) => r == Ok::<ExternalTriggerInvocation, TriggerError>(
            ExternalTriggerInvocation::RunApp,
        ),
        Ok(InvocationKind::ShowUsage) => r == Ok::<ExternalTriggerInvocation, TriggerError>(
            ExternalTriggerInvocation::ShowUsage,
        ),
        Ok(InvocationKind::Send(s, a)) => r is Ok && r->Ok_0 is Send && r->Ok_0->Send_0.shortcut@
            == s && r->Ok_0->Send_0.action == a,
        Err(e) => r is Err && r->Err_0@ == e,
    }
}

/// What the command line asks for: run the app, show the usage, or send
/// a trigger request.
pub fn parse_invocation(args: Vec<String>) -> (r: Result<ExternalTriggerInvocation, TriggerError>)
    ensures
        invocation_result_is(r, invocation_of(args@.map_values(|a: String| a@))),
{
    let ghost av = args@.map_values(|a: String| a@);
    if args.len() == 0 {
        return Ok(ExternalTriggerInvocation::RunApp);
    }
    let first = chars_of(args[0].as_str());
    assert(first@ == av[0]);
    if args.len() == 1 {
        let help = chars_of("--help");
        let short = chars_of("-h");
        if chars_equal(first.as_slice(), help.as_slice()) || chars_equal(
            first.as_slice(),
            short.as_slice(),
        ) {
            return Ok(ExternalTriggerInvocation::ShowUsage);
        }
        return Err(TriggerError::Usage);
    }
    let trigger = chars_of("trigger");
    if args.len() == 3 && chars_equal(first.as_slice(), trigger.as_slice()) {
        assert(av[1] == args@[1]@ && av[2] == args@[2]@);
        let action = match ExternalTriggerAction::parse(args[2].as_str()) {
            Ok(a) => a,
            Err(e) => {
                return Err(e);
            },
        };
        let shortcut = args[1].clone();
        return match ExternalTriggerRequest::new(shortcut, action) {
            Ok(request) => Ok(ExternalTriggerInvocation::Send(request)),
            Err(e) => Err(e),
        };
    }
    Err(TriggerError::Usage)
}

proof fn lemma_split_no_sep(a: Seq<char>, sep: char, cur: Seq<char>)
    requires
        !a.contains(sep),
    ensures
        split_from(a, sep, cur) == seq![cur + a],
    decreases a.len(),
{
    if a.len() == 0 {
        assert(cur + a =~= cur);
    } else {
        assert(a.drop_first().len() < a.len());
        assert(!a.drop_first().contains(sep)) by {
            if a.drop_first().contains(sep) {
                let i = choose|i: int| 0 <= i < a.drop_first().len() && a.drop_first()[i] == sep;
                assert(a[i + 1] == sep);
            }
        }
        assert(a[0] != sep);
        lemma_split_no_sep(a.drop_first(), sep, cur.push(a[0]));
        assert(cur.push(a[0]) + a.drop_first() =~= cur + a);
    }
}

proof fn lemma_split_sep(a: Seq<char>, b: Seq<char>, sep: char, cur: Seq<char>)
    requires
        !a.contains(sep),
    ensures
        split_from(a + seq![sep] + b, sep, cur) == seq![cur + a] + split_from(b, sep, seq![]),
    decreases a.len(),
{
    let s = a + seq![sep] + b;
    if a.len() == 0 {
        assert(s[0] == sep);
        assert(s.drop_first() =~= b);
        assert(cur + a =~= cur);
    } else {
        assert(s[0] == a[0]);
        assert(a[0] != sep);
        assert(s.drop_first() =~= a.drop_first() + seq![sep] + b);
        assert(!a.drop_first().contains(sep)) by {
            if a.drop_first().contains(sep) {
                let i = choose|i: int| 0 <= i < a.drop_first().len() && a.drop_first()[i] == sep;
                assert(a[i + 1] == sep);
            }
        }
        lemma_split_sep(a.drop_first(), b, sep, cur.push(a[0]));
        assert(cur.push(a[0]) + a.drop_first() =~= cur + a);
    }
}

proof fn lemma_action_text(a: ExternalTriggerAction)
    ensures
        !action_text(a).contains('\t'),
        action_text(a).len() > 0,
        action_text(a).last() != '\n' && action_text(a).last() != '\r',
        action_named(action_text(a)) == Some(a),
{
    reveal_strlit("start");
    reveal_strlit("stop");
    reveal_strlit("toggle");
    match a {
        ExternalTriggerAction::Start => {
            assert("start"@ != "stop"@ || "start"@.len() == 0);
        },
        ExternalTriggerAction::Stop => {
            assert("stop"@ != "start"@ || "stop"@.len() == 0);
        },
        ExternalTriggerAction::Toggle => {
            assert("toggle"@ != "start"@ || "toggle"@.len() == 0);
            assert("toggle"@ != "stop"@ || "toggle"@.len() == 0);
        },
    }
}

/// The request line of a valid request reads back as that request: the
/// client and the app agree on every shortcut that a request can carry.
pub proof fn lemma_request_round_trip(shortcut: Seq<char>, action: ExternalTriggerAction)
    requires
        valid_shortcut(shortcut),
    ensures
        request_of_line(request_line(shortcut, action)) == Ok::<
            (Seq<char>, ExternalTriggerAction),
            TriggerErrorKind,
        >((shortcut, action)),
{
    reveal_strlit("trigger\t");
    reveal_strlit("trigger");
    reveal_strlit("\t");
    reveal_strlit("\n");
    lemma_action_text(action);
    let act = action_text(action);
    assert(sanitized(shortcut) =~= shortcut) by {
        assert forall|i: int| 0 <= i < shortcut.len() implies sanitized(shortcut)[i] == shortcut[i] by {
            if is_line_break(shortcut[i]) {
                assert(has_line_break(shortcut));
            }
        }
    }
    let body = "trigger"@ + seq!['\t'] + shortcut + seq!['\t'] + act;
    let line = request_line(shortcut, action);
    assert(line =~= body.push('\n'));
    assert(line.drop_last() =~= body);
    assert(strip_line_end(line) == strip_line_end(body));
    assert(strip_line_end(body) == body);
    assert(!"trigger"@.contains('\t'));
    assert(!shortcut.contains('\t')) by {
        if shortcut.contains('\t') {
            let i = choose|i: int| 0 <= i < shortcut.len() && shortcut[i] == '\t';
            assert(is_line_break(shortcut[i]));
        }
    }
    lemma_split_sep("trigger"@, shortcut + seq!['\t'] + act, '\t', seq![]);
    assert(body =~= "trigger"@ + seq!['\t'] + (shortcut + seq!['\t'] + act));
    lemma_split_sep(shortcut, act, '\t', seq![]);
    lemma_split_no_sep(act, '\t', seq![]);
    let parts = split_on(body, '\t');
    assert(seq![] + "trigger"@ =~= "trigger"@);
    assert(seq![] + shortcut =~= shortcut);
    assert(seq![] + act =~= act);
    assert(parts =~= seq!["trigger"@, shortcut, act]);
}

/// A response line reads back as the answer it was written for; a refusal
/// keeps its message with tabs and line breaks turned into spaces.
pub proof fn lemma_response_round_trip(message: Seq<char>)
    ensures
        response_of_line("ok\n"@) == Ok::<(), TriggerErrorKind>(()),
        response_of_line("error\t"@ + sanitized(message) + "\n"@) == Err::<(), TriggerErrorKind>(
            TriggerErrorKind::Rejected(sanitized(message)),
        ),
{
    reveal_strlit("ok\n");
    reveal_strlit("ok");
    reveal_strlit("error\t");
    reveal_strlit("\n");
    assert("ok\n"@.drop_last() =~= "ok"@);
    assert(strip_line_end("ok"@) == "ok"@);
    assert(strip_line_end("ok\n"@) == "ok"@);
    let m = sanitized(message);
    let body = "error\t"@ + m;
    let line = body + "\n"@;
    assert(line.drop_last() =~= body);
    assert(strip_line_end(body) == body) by {
        if body.len() > 0 && (body.last() == '\r' || body.last() == '\n') {
            if m.len() > 0 {
                assert(body.last() == m[m.len() - 1]);
            }
        }
    }
    assert(body != "ok"@) by {
        assert(body[0] == 'e');
    }
    assert(body.subrange(0, 6) =~= "error\t"@);
    assert(body.subrange(6, body.len() as int) =~= m);
}

} // verus!
