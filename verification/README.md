# Iris

Iris is a desktop front end for the CorridorKey green-screen keyer. It sets up
a private Python runtime, downloads model weights, keeps a queue of clips and
drives a Python bridge process that extracts frames, generates alpha hints,
keys frames and exports results.

The crate is split in two:

- `src/` is the library, written in Verus and verified: the on-disk layout,
  the bridge's command lines and its event protocol, the decisions every panel
  takes on an event or a button press, the setup steps and their install
  plans, pip progress parsing, download rules and what is extracted from the
  downloaded archives, the live-preview
  state machine and the ordering of model folders. Each public function states
  its result in its `ensures`; the `lemma_*` proof functions state properties
  that span several calls.
- `app/` is ordinary Rust around it: the window and its widgets, threads,
  processes, file and network I/O. It performs what the library decides.

JSON is parsed and printed by `serde_json` behind the thin trusted calls of
`src/json.rs`, and the downloaded archives are read by `zip` and `flate2`
behind those of `src/archive.rs`; the other trusted items are `String::push`
(`src/text.rs`) and `str::to_lowercase` (`src/install.rs`).

`tests/` runs the library on concrete values.
