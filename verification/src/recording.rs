//! Bookkeeping of frame recording: whether frames are being written, whether a
//! recording is queued for the next MIDI start, and whether the captured frames
//! are being encoded into a video.

use vstd::prelude::*;
use crate::frame_names::{frame_name, frame_file_name};
use crate::text::{concat3, path_debug, path_debug_string};

verus! {

/// The recording state of the running sketch. The encoding thread and its
/// progress channel are owned by the application; this type holds the
/// decisions about them.
pub struct RecordingState {
    /// Frames are being captured.
    pub active: bool,
    /// A recording starts with the next MIDI start message.
    pub is_queued: bool,
    /// Captured frames are being encoded into a video.
    pub is_encoding: bool,
    /// Number of frames captured since the recording started.
    pub recorded_frames: u32,
    /// Directory that receives the captured frames, if one could be determined.
    pub recording_dir: Option<String>,
}

/// What starting a recording needs the application to do next.
#[derive(Clone, Copy, Debug, PartialEq, Eq, Structural)]
pub enum RecordingStep {
    /// Frames are now written to the recording directory.
    Started,
    /// Recording stopped; the captured frames are to be encoded.
    EncodingRequested,
}

/// The folder that receives a session's captured frames, as path components
/// below the Lattice configuration folder: `Captures`, the sketch, the session.
pub fn frames_dir_components(session_id: &str, sketch_name: &str) -> (r: Vec<String>)
    ensures
        r@.len() == 3,
        r@[0]@ == "Captures"@,
        r@[1]@ == sketch_name@,
        r@[2]@ == session_id@,
{
    let mut r: Vec<String> = Vec::new();
    r.push(String::from_str("Captures"));
    r.push(String::from_str(sketch_name));
    r.push(String::from_str(session_id));
    r
}

/// The message announcing where a started recording writes its frames.
pub open spec fn recording_started_message(dir: Seq<char>) -> Seq<char> {
    "Recording. Frames will be written to "@ + path_debug(dir)
}

/// The state after starting a recording: active when a directory is known,
/// unchanged otherwise.
pub open spec fn after_start(r: RecordingState) -> RecordingState {
    if r.recording_dir is Some {
        RecordingState { active: true, ..r }
    } else {
        r
    }
}

/// The state after stopping a recording: inactive and encoding, unless an
/// encoding is already under way.
pub open spec fn after_stop(r: RecordingState) -> RecordingState {
    if r.is_encoding {
        r
    } else {
        RecordingState { active: false, is_encoding: true, ..r }
    }
}

impl RecordingState {
    /// A fresh, inactive recording state writing to `recording_dir`.
    pub fn new(recording_dir: Option<String>) -> (r: RecordingState)
        ensures
            r.recording_dir == recording_dir,
            !r.active,
            !r.is_queued,
            !r.is_encoding,
            r.recorded_frames == 0,
    {
        RecordingState {
            active: false,
            is_queued: false,
            is_encoding: false,
            recorded_frames: 0,
            recording_dir,
        }
    }

    /// Starts capturing frames when a recording directory is known, and
    /// announces the directory in `alert_text`.
    pub fn start_recording(&mut self, alert_text: &mut String) -> (r: Result<RecordingStep, String>)
        ensures
            *final(self) == after_start(*old(self)),
            old(self).recording_dir is Some ==> {
                &&& r == Ok::<RecordingStep, String>(RecordingStep::Started)
                &&& final(alert_text)@ == recording_started_message(
                    old(self).recording_dir->0@,
                )
            },
            old(self).recording_dir is None ==> {
                &&& r is Err
                &&& r->Err_0@ == "Unable to access recording path"@
                &&& *final(alert_text) == *old(alert_text)
            },
    {
        match &self.recording_dir {
            Some(dir) => {
                let quoted = path_debug_string(dir.as_str());
                *alert_text = concat3("Recording. Frames will be written to ", quoted.as_str(), "");
                proof {
                    reveal_strlit("");
                }
                assert(alert_text@ =~= recording_started_message(dir@));
                self.active = true;
                Ok(RecordingStep::Started)
            },
            None => Err(String::from_str("Unable to access recording path")),
        }
    }

    /// Stops capturing and hands the frames over to encoding, unless an
    /// encoding is already under way. The state changes before the recording
    /// directory and the video's path (`output_path`, when one could be
    /// determined) are checked, as the encoder is only started when both exist.
    pub fn stop_recording(&mut self, output_path: Option<&str>) -> (r: Result<RecordingStep, String>)
        ensures
            *final(self) == after_stop(*old(self)),
            old(self).is_encoding ==> (r is Err && r->Err_0@ == "Already encoding"@),
            !old(self).is_encoding && old(self).recording_dir is None ==> (r is Err && r->Err_0@
                == "No recording directory"@),
            !old(self).is_encoding && old(self).recording_dir is Some && output_path is None ==> (
            r is Err && r->Err_0@ == "Could not determine output path"@),
            !old(self).is_encoding && old(self).recording_dir is Some && output_path is Some
                ==> r == Ok::<RecordingStep, String>(RecordingStep::EncodingRequested),
    {
        if !self.is_encoding {
            self.active = false;
            self.is_encoding = true;
            if self.recording_dir.is_none() {
                Err(String::from_str("No recording directory"))
            } else if output_path.is_none() {
                Err(String::from_str("Could not determine output path"))
            } else {
                Ok(RecordingStep::EncodingRequested)
            }
        } else {
            Err(String::from_str("Already encoding"))
        }
    }

    /// Stops an active recording as `stop_recording` does, starts an inactive
    /// one as `start_recording` does.
    pub fn toggle_recording(&mut self, alert_text: &mut String, output_path: Option<&str>) -> (r:
        Result<RecordingStep, String>)
        ensures
            old(self).active ==> {
                &&& *final(self) == after_stop(*old(self))
                &&& *final(alert_text) == *old(alert_text)
                &&& old(self).is_encoding ==> (r is Err && r->Err_0@ == "Already encoding"@)
                &&& !old(self).is_encoding && old(self).recording_dir is None ==> (r is Err
                    && r->Err_0@ == "No recording directory"@)
                &&& !old(self).is_encoding && old(self).recording_dir is Some && output_path is None
                    ==> (r is Err && r->Err_0@ == "Could not determine output path"@)
                &&& !old(self).is_encoding && old(self).recording_dir is Some && output_path is Some
                    ==> r == Ok::<RecordingStep, String>(RecordingStep::EncodingRequested)
            },
            !old(self).active ==> {
                &&& *final(self) == after_start(*old(self))
                &&& old(self).recording_dir is Some ==> r == Ok::<RecordingStep, String>(
                    RecordingStep::Started,
                ) && final(alert_text)@ == recording_started_message(old(self).recording_dir->0@)
                &&& old(self).recording_dir is None ==> r is Err && r->Err_0@
                    == "Unable to access recording path"@ && *final(alert_text) == *old(alert_text)
            },
    {
        if self.active {
            self.stop_recording(output_path)
        } else {
            self.start_recording(alert_text)
        }
    }

    /// Counts one captured frame.
    pub fn record_frame(&mut self)
        requires
            old(self).recorded_frames < u32::MAX,
        ensures
            *final(self) == (RecordingState {
                recorded_frames: (old(self).recorded_frames + 1) as u32,
                ..*old(self)
            }),
    {
        self.recorded_frames = self.recorded_frames + 1;
    }

    /// Names the file for the next captured frame and counts the frame, while a
    /// recording is active and its directory is known; otherwise nothing is
    /// captured and nothing changes.
    pub fn capture_frame(&mut self) -> (r: Option<String>)
        requires
            old(self).active && old(self).recording_dir is Some ==> old(self).recorded_frames
                < u32::MAX,
        ensures
            !(old(self).active && old(self).recording_dir is Some) ==> r is None && *final(self)
                == *old(self),
            old(self).active && old(self).recording_dir is Some ==> {
                &&& r matches Some(name) && name@ == frame_name(old(self).recorded_frames as nat)
                &&& *final(self) == (RecordingState {
                    recorded_frames: (old(self).recorded_frames + 1) as u32,
                    ..*old(self)
                })
            },
    {
        if !self.active || self.recording_dir.is_none() {
            return None;
        }
        let name = frame_file_name(self.recorded_frames);
        self.recorded_frames = self.recorded_frames + 1;
        Some(name)
    }

    /// Encoding finished: the frame counter restarts and the next recording
    /// goes to `next_dir` when one could be determined.
    pub fn finish_encoding(&mut self, next_dir: Option<String>)
        ensures
            final(self).is_encoding == false,
            final(self).recorded_frames == 0,
            final(self).active == old(self).active,
            final(self).is_queued == old(self).is_queued,
            final(self).recording_dir == (if next_dir is Some {
                next_dir
            } else {
                old(self).recording_dir
            }),
    {
        self.is_encoding = false;
        self.recorded_frames = 0;
        if next_dir.is_some() {
            self.recording_dir = next_dir;
        }
    }

    /// The label of the record button.
    pub fn button_label(&self) -> (r: &'static str)
        ensures
            self.active ==> r@ == "STOP"@,
            !self.active && self.is_encoding ==> r@ == "Encoding"@,
            !self.active && !self.is_encoding ==> r@ == "Record"@,
    {
        if self.active {
            "STOP"
        } else if self.is_encoding {
            "Encoding"
        } else {
            "Record"
        }
    }
}

/// Stopping right after starting hands the frames to encoding: from an idle
/// state with a directory, start then stop leaves the recording inactive and
/// encoding with its frames and directory; stopping again while encoding
/// changes nothing.
pub proof fn law_start_then_stop(r: RecordingState)
    requires
        r.recording_dir is Some,
        !r.is_encoding,
    ensures
        after_stop(after_start(r)) == (RecordingState { active: false, is_encoding: true, ..r }),
        after_stop(after_stop(after_start(r))) == after_stop(after_start(r)),
{
}

} // verus!
