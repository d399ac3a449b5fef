# taupe

A lossless music player (rodio for playback, lofty for tags, iced for the
window) whose decisions live in a library verified with Verus.

- `src/` — the verified library: reading tags and stream properties from a
  file's bytes (through lofty), picture and metadata selection, cover
  thumbnails (through image), the audio engine's state machine, playlist scanning and ordering, the window's state
  machine and the texts it shows. Each public function states its result in
  its contract; the `law_*` proof functions state properties that span
  several calls.
- `tests/` — scenarios on concrete values.
- `app/` — the program: the audio thread (sink, audio decoding, reading
  files),
  the iced window, file dialogs and folder listing. It hands plain values to
  the library and carries out the actions the library returns.
