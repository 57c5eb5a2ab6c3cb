# mediaforge-core

The core of a media converter built on ffmpeg, written in Verus. The
functions in `src/` carry contracts that Verus proves, except for a few
small trusted wrappers (marked `#[verifier::external_body]`) around std,
`uuid` and `chrono` calls, whose contracts are taken on trust and say in
their doc comments what they claim.

- `src/ffmpeg.rs` — the ffmpeg argument list for a set of encoding
  parameters, stated in full as a specification (`command_args`), and its
  printable form.
- `src/progress.rs` — parsing ffmpeg's `-progress` output and ffprobe's
  duration, the progress shown for each stderr line, the state of a running
  encode and the report of a failed one.
- `src/job.rs`, `src/preset.rs` — parameters, jobs, the job queue and the
  built-in presets.
- `src/commands.rs` — custom presets, batch validation and the bounded
  history.
- `src/session.rs`, `src/controls.rs` — the state of a window and what its
  actions and controls do to it.
- `src/text.rs`, `src/parse.rs`, `src/float.rs` — text rendering,
  trimming, splitting, integer parsing, and decimals read as
  `str::parse::<f64>` reads them, specified over `Seq<char>`.

`app/` is the program around the library: files, environment, running
ffmpeg and ffprobe, and a command-line front end. `tests/` holds the tests.
