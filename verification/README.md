# lattice

The bookkeeping and decision logic of the Lattice creative-coding framework,
verified with Verus, and a small command-line program around it.

## Layout

- `src/` — the verified library:
  - `controls`, `midi_controls`, `storage`, `assoc`: sketch controls and
    MIDI-mapped controls as name-keyed tables, and the restoring of stored
    values.
  - `frame_controller`: frame pacing from elapsed nanoseconds.
  - `timing`: MIDI clock and song-position bookkeeping.
  - `recording`, `app_events`, `frame_names`: the runtime's reaction to
    events, the recording state machine and the names of captured frames.
  - `video_export`: reading the encoder's progress and error output.
  - `automate`, `time_string`, `patterns`, `sketches`: names and menus of
    automation settings, positions and sketch options.
  - `util`, `text`, `image_index`, `gui`, `audio`: identifiers, strings, the
    image index (file filter, entries with base64 thumbnails, the
    document), the controls window size and the audio sample window.
- `tests/` — tests of the library.
- `app/` — the program: the image index's file walk, video encoding, stored controls, animation
  scripts and audio bands, with the file and process work and the
  floating-point arithmetic.

Slider values and MIDI values are 32-bit floats in the program; the library
keeps their bit patterns and never computes with them.
