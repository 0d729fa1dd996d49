# mediapulse

The verified core of the MediaPulse player and its `mp` launcher.

- `src/cli` — `mp` argument handling: the UI projection of an mpv argument
  vector (`invocation`, `options`), its laws (`laws`), and the search for
  the bundled mpv engine (`sidecar`).
- `src/backend` — the playback model and the decisions of the two engine
  adapters: mpv's JSON IPC protocol (`ipc`), property requests and typed
  reads (`sidecar`), the property-by-property snapshot (`snapshot`), and the
  in-process libmpv adapter's options and commands (`libmpv`).
- `src/launcher`, `src/shell` — what `mp` and the desktop shell decide.
- `src/number`, `src/text` — binary64 bit patterns, decimal text, and
  character-level text helpers.
- `app/` — the `mp` program, the mpv process and socket plumbing, the
  libmpv calls, and the serialised forms of the library's types.

Numbers travel through the library as IEEE-754 binary64 bit patterns; text
is read as a number outside the library, which receives the bit patterns.
