# voice_typing

The core of a push-to-talk voice typing desktop tool: hold a hotkey, speak,
and the recognised (and optionally LLM-polished or translated) text is typed
into the focused input field.

The library in `src/` is written in Verus. Every function carries a contract
over mathematical models (`Seq`, `Option`, spec functions) and is proved
against it:

- `text` — character-sequence helpers (search, trim, join) used throughout.
- `context` — the clipboard-paste blacklist, the tone chosen for the focused
  application, and how the OS probes' answers become a name or a selection.
- `sound` — which interaction sound each event plays.
- `audio` — the 16-bit mono WAV container (through `hound`) and the
  recording buffer's state machine.
- `asr` — the Paraformer recognition request (audio as base64) and how the
  service's reply becomes text or an error.
- `llm` — the polishing, speak-to-edit and translation prompts and requests,
  the reply fallbacks, and the server-sent-events decoder.
- `injector` — how a text reaches the focused field.
- `pipeline` — the application status and the decision taken after each
  stage of a run (WAV, recognition, LLM, injection).
- `commands`, `tray` — the decisions behind the frontend's commands, the
  persisted settings and the tray menu.

Trusted items (functions whose contract is believed, not proved) are marked
`#[verifier::external_body]`; each doc comment names the outside function it
calls and what it claims of it.

`app/` is the desktop application around the library (Tauri setup, global
hotkeys, microphone capture, HTTP, SQLite history, keyboard simulation). It
does the outside work and hands plain values to the library.

`tests/` exercises the library with the real outside crates linked.
