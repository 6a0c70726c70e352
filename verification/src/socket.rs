//! The command socket's decisions: where it lives, whether a stale socket
//! file may be replaced, how many clients are served, and what each
//! connection is answered.
use vstd::prelude::*;
use vstd::string::StringSliceAdditionalSpecFns;
use vstd::utf8::encode_utf8;

use crate::text::{chars_of, push_str, string_from_chars};
use crate::trigger::{
    parse_protocol_request, parse_protocol_response, usage_text, ExternalTriggerRequest,
    ExternalTriggerResponse, TriggerError, TriggerErrorKind,
};

verus! {

broadcast use vstd::string::group_string_axioms;

/// Most external trigger clients served at once.
pub const MAX_EXTERNAL_TRIGGER_CLIENTS: usize = 16;

/// The text of a trigger error, as the app and the command line show it.
pub open spec fn error_text(e: TriggerErrorKind) -> Seq<char> {
    match e {
        TriggerErrorKind::Usage => usage_text(),
        TriggerErrorKind::UnsupportedAction(a) => "unsupported trigger action: "@ + a,
        TriggerErrorKind::EmptyShortcut => "shortcut cannot be empty"@,
        TriggerErrorKind::ShortcutHasLineBreak => "shortcut cannot contain tabs or newlines"@,
        TriggerErrorKind::InvalidRequest => "invalid command socket request"@,
        TriggerErrorKind::Rejected(m) => m,
        TriggerErrorKind::InvalidResponse => "invalid MyApp command response"@,
    }
}

/// The text of a trigger error.
pub fn error_message(e: &TriggerError) -> (s: String)
    ensures
        s@ == error_text(e@),
{
    match e {
        TriggerError::Usage => string_from_chars(chars_of(crate::trigger::usage()).as_slice()),
        TriggerError::UnsupportedAction(a) => {
            let mut out: Vec<char> = Vec::new();
            push_str(&mut out, "unsupported trigger action: ");
            push_str(&mut out, a.as_str());
            string_from_chars(out.as_slice())
        },
        TriggerError::EmptyShortcut => string_from_chars(
            chars_of("shortcut cannot be empty").as_slice(),
        ),
        TriggerError::ShortcutHasLineBreak => string_from_chars(
            chars_of("shortcut cannot contain tabs or newlines").as_slice(),
        ),
        TriggerError::InvalidRequest => string_from_chars(
            chars_of("invalid command socket request").as_slice(),
        ),
        TriggerError::Rejected(m) => m.clone(),
        TriggerError::InvalidResponse => string_from_chars(
            chars_of("invalid MyApp command response").as_slice(),
        ),
    }
}

/// The socket path under the runtime directory, as bytes:
/// `<dir>/myapp/command.sock`, as a path join writes it.
pub open spec fn socket_path_in(dir: Seq<u8>) -> Seq<u8> {
    if dir.len() == 0 {
        encode_utf8("myapp/command.sock"@)
    } else if dir.last() == 47u8 {
        dir + encode_utf8("myapp/command.sock"@)
    } else {
        dir + encode_utf8("/myapp/command.sock"@)
    }
}

fn push_bytes(out: &mut Vec<u8>, b: &[u8])
    ensures
        final(out)@ == old(out)@ + b@,
{
    let mut i: usize = 0;
    while i < b.len()
        invariant
            i <= b@.len(),
            out@ == old(out)@ + b@.take(i as int),
        decreases b@.len() - i,
    {
        out.push(b[i]);
        assert(b@.take(i + 1) =~= b@.take(i as int).push(b@[i as int]));
        i = i + 1;
    }
    assert(b@.take(b@.len() as int) =~= b@);
}

/// The command socket's path from the bytes of `XDG_RUNTIME_DIR`, which
/// must be set.
pub fn command_socket_path(runtime_dir: Option<&[u8]>) -> (r: Result<Vec<u8>, String>)
    ensures
        match runtime_dir {
            Some(d) => r matches Ok(p) && p@ == socket_path_in(d@),
            None => r matches Err(e) && e@
                == "XDG_RUNTIME_DIR is not set; cannot locate MyApp command socket"@,
        },
{
    match runtime_dir {
        None => Err(
            string_from_chars(
                chars_of("XDG_RUNTIME_DIR is not set; cannot locate MyApp command socket").as_slice(),
            ),
        ),
        Some(d) => {
            let mut out: Vec<u8> = Vec::new();
            if d.len() == 0 {
                push_bytes(&mut out, "myapp/command.sock".as_bytes());
            } else if d[d.len() - 1] == 47u8 {
                push_bytes(&mut out, d);
                push_bytes(&mut out, "myapp/command.sock".as_bytes());
            } else {
                push_bytes(&mut out, d);
                push_bytes(&mut out, "/myapp/command.sock".as_bytes());
            }
            assert(out@ =~= socket_path_in(d@));
            Ok(out)
        },
    }
}

/// What connecting to an existing socket file showed.
#[derive(Debug, Clone, PartialEq, Eq)]
pub enum SocketProbe {
    /// Another process answers on it.
    Connected,
    /// The file vanished meanwhile.
    NotFound,
    /// Nobody listens: the file is stale.
    ConnectionRefused,
    /// Another failure, with its message.
    Failed(String),
}

/// What to do with the socket path before binding it.
#[derive(Debug, Clone, PartialEq, Eq)]
pub enum SocketPreparation {
    /// Bind it as it is.
    Ready,
    /// Remove the stale file, then bind.
    RemoveStale,
    /// Do not start; the message says why.
    Refuse(String),
}

/// Decides about an existing socket path: a live socket or an unclear
/// probe is left alone and the start refused; a stale one is removed.
pub fn socket_preparation(socket_path: &str, exists: bool, probe: SocketProbe) -> (r: SocketPreparation)
    ensures
        !exists ==> r == SocketPreparation::Ready,
        exists ==> match probe {
            SocketProbe::Connected => r matches SocketPreparation::Refuse(m) && m@
                == "command socket is already active at "@ + socket_path@
                + "; is MyApp already running?"@,
            SocketProbe::NotFound => r == SocketPreparation::Ready,
            SocketProbe::ConnectionRefused => r == SocketPreparation::RemoveStale,
            SocketProbe::Failed(e) => r matches SocketPreparation::Refuse(m) && m@
                == "command socket "@ + socket_path@ + " exists but its liveness probe failed ("@
                + e@ + "); not removing it"@,
        },
{
    if !exists {
        return SocketPreparation::Ready;
    }
    match probe {
        SocketProbe::Connected => {
            let mut out: Vec<char> = Vec::new();
            push_str(&mut out, "command socket is already active at ");
            push_str(&mut out, socket_path);
            push_str(&mut out, "; is MyApp already running?");
            SocketPreparation::Refuse(string_from_chars(out.as_slice()))
        },
        SocketProbe::NotFound => SocketPreparation::Ready,
        SocketProbe::ConnectionRefused => SocketPreparation::RemoveStale,
        SocketProbe::Failed(e) => {
            let mut out: Vec<char> = Vec::new();
            push_str(&mut out, "command socket ");
            push_str(&mut out, socket_path);
            push_str(&mut out, " exists but its liveness probe failed (");
            push_str(&mut out, e.as_str());
            push_str(&mut out, "); not removing it");
            SocketPreparation::Refuse(string_from_chars(out.as_slice()))
        },
    }
}

/// The client limit must be positive.
pub fn validate_client_limit(max_clients: usize) -> (r: Result<(), String>)
    ensures
        max_clients == 0 ==> (r matches Err(e) && e@
            == "command socket client limit must be positive"@),
        max_clients > 0 ==> r is Ok,
{
    if max_clients == 0 {
        return Err(
            string_from_chars(chars_of("command socket client limit must be positive").as_slice()),
        );
    }
    Ok(())
}

/// Whether a new client is served: only while fewer than the limit are.
pub fn accepts_client(active_clients: usize, max_clients: usize) -> (b: bool)
    ensures
        b == (active_clients < max_clients),
{
    active_clients < max_clients
}

/// The answer to a client over the limit.
pub fn overload_response() -> (r: ExternalTriggerResponse)
    ensures
        r matches ExternalTriggerResponse::Rejected(m) && m@
            == "too many active external trigger clients"@,
{
    ExternalTriggerResponse::rejected("too many active external trigger clients")
}

/// The request a client sent: nothing read is an error, else the line is
/// parsed.
pub fn request_from_read(bytes_read: usize, line: &str) -> (r: Result<ExternalTriggerRequest, String>)
    ensures
        bytes_read == 0 ==> (r matches Err(e) && e@ == "empty command socket request"@),
        bytes_read > 0 ==> match parse_protocol_request_spec(line@) {
            Ok((s, a)) => r matches Ok(q) && q.shortcut@ == s && q.action == a,
            Err(k) => r matches Err(e) && e@ == error_text(k),
        },
{
    if bytes_read == 0 {
        return Err(string_from_chars(chars_of("empty command socket request").as_slice()));
    }
    match parse_protocol_request(line) {
        Ok(q) => Ok(q),
        Err(e) => Err(error_message(&e)),
    }
}

/// What [`parse_protocol_request`] gives for a line.
pub open spec fn parse_protocol_request_spec(line: Seq<char>) -> Result<
    (Seq<char>, crate::trigger::ExternalTriggerAction),
    TriggerErrorKind,
> {
    crate::trigger::request_of_line(line)
}

/// The answer to a connection: the app's answer, or the failure that
/// kept the request from it.
pub fn connection_response(outcome: Result<ExternalTriggerResponse, String>) -> (r: ExternalTriggerResponse)
    ensures
        match outcome {
            Ok(resp) => r == resp,
            Err(e) => r matches ExternalTriggerResponse::Rejected(m) && m@ == e@,
        },
{
    match outcome {
        Ok(response) => response,
        Err(error) => ExternalTriggerResponse::Rejected(error),
    }
}

/// What the command line makes of the app's answer: nothing read is an
/// error, else the line is parsed.
pub fn response_from_read(bytes_read: usize, line: &str) -> (r: Result<(), String>)
    ensures
        bytes_read == 0 ==> (r matches Err(e) && e@
            == "MyApp closed the command socket without a response"@),
        bytes_read > 0 ==> match crate::trigger::response_of_line(line@) {
            Ok(()) => r is Ok,
            Err(k) => r matches Err(e) && e@ == error_text(k),
        },
{
    if bytes_read == 0 {
        return Err(
            string_from_chars(
                chars_of("MyApp closed the command socket without a response").as_slice(),
            ),
        );
    }
    match parse_protocol_response(line) {
        Ok(()) => Ok(()),
        Err(e) => Err(error_message(&e)),
    }
}

} // verus!
