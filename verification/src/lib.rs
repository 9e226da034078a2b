//! Verified core of the Lattice creative-coding framework: the parsing,
//! bookkeeping and decision logic that drives sketches, controls, MIDI,
//! frame pacing and recording.

pub mod text;
pub mod assoc;
pub mod util;
pub mod automate;
pub mod recording;
pub mod controls;
pub mod midi_controls;
pub mod image_index;
pub mod gui;
pub mod storage;
pub mod time_string;
pub mod video_export;
pub mod audio;
pub mod app_events;
pub mod frame_controller;
pub mod timing;
pub mod frame_names;
pub mod patterns;
pub mod sketches;
