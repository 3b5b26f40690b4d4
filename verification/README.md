# hyprwhspr_rs

The core of a speech-to-text dictation daemon, written in Verus: each function in
`src/` states what it does in `requires`/`ensures` clauses, and Verus proves it.

- `src/` — the verified library: the configuration model and its defaults, shortcut
  tidying and legacy-setting migration, the transcription provider names, how
  configured values and secrets are resolved, where models, binaries and assets are
  looked for, the custom OpenAI-compatible endpoint (URL resolution, request fields,
  retry schedule), the whisper.cpp command line and output handling, the ffmpeg
  command line, the WAV file layout, and when two configurations are equal (numbers as floats,
  name/value lists as maps). Functions that need the environment or the
  disk take what was read as plain arguments.
- `tests/` — tests of the library on concrete values.
- `app/` — ordinary Rust around the library: reading and writing `config.jsonc`
  (serde, JSON with comments), watching it for changes, the environment and the file
  system, running ffmpeg and whisper.cpp, and HTTP requests with reqwest.

URL parsing and joining are done by `reqwest::Url`; the library calls it through a few
trusted wrappers whose results it names without restating the URL standard.
