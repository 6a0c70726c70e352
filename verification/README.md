# quillspeak

The decision logic of a push-to-talk dictation tool for Linux desktops,
written in Verus. Verus checks every function under `src/` against its
`requires` / `ensures` contract. A few functions state nothing of their
result: the cancel flag that a download worker shares with the app (a
std atomic), and the start and stop markers of a recording, which only
logged in the tool and keep no state here.

## Layout

- `src/` — the verified library, one module per concern:
  - recording and coordination: `recording`, `runtime`, `delivery`, `cache`,
    `history`, `whisper`, `status_page`;
  - shortcuts and hotkeys: `shortcut`, `chord`, `recorder`, `hotkey`,
    `evdev`, `devices`, `x11keys`, `signals`, `backend`, `daemon`;
  - configuration and settings: `config`, `runtime_config`, `draft`,
    `settings_rows`, `models`;
  - external trigger: `trigger`, `socket`;
  - model downloads: `downloads`, `progress`, `cancel`, `digest`;
  - audio side effects: `audio`, `cue`, `mute`, `pwdump`, `clipboard`, `tray`;
  - shared helpers: `text`, `keyed`, `clock`.
- `tests/` — ordinary Rust tests of the library on concrete values.
- `app/` — the trigger client: reads the command line, talks to the
  command socket and prints the reply, using the library for parsing,
  framing and the socket path.

## Trusted boundary

Calls into `serde_json`, `toml` and `sha1`, the monotonic clock, `String`
collection and the `Debug` text of characters and strings stand behind
`#[verifier::external_body]` wrappers whose doc comments say what their
contracts claim of the outside code.
