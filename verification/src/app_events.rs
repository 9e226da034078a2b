//! The runtime's reaction to application events: which state changes and
//! which effects (window, recording, storage and frame-controller work) each
//! event leads to. The application performs the effects.

use vstd::prelude::*;
use crate::recording::{RecordingState, RecordingStep, after_start, after_stop, recording_started_message};
use crate::util::{uuid_5, is_id_char};
use crate::text::{str_eq, concat3, path_debug, path_debug_string};

verus! {

/// Events sent to the runtime by the GUI, the keyboard and MIDI transport.
#[derive(Debug)]
pub enum AppEvent {
    AdvanceSingleFrame,
    Alert(String),
    CaptureFrame,
    ClearControlsCache,
    ClearNextFrame,
    ControlsChanged,
    MidiContinue,
    MidiStart,
    MidiStop,
    QueueRecord,
    Record,
    Reset,
    SwitchSketch(String),
    Tap,
    ToggleFullScreen,
    ToggleGuiFocus,
    ToggleMainFocus,
    TogglePerfMode(bool),
    TogglePlay,
    ToggleTapTempo(bool),
}

/// How a sketch advances its frames.
#[derive(Clone, Copy, Debug, PartialEq, Eq, Structural)]
pub enum PlayMode {
    Loop,
    Advance,
    ManualAdvance,
}

/// Facts about the surroundings that some events depend on.
#[derive(Clone, Copy, Debug, PartialEq, Eq, Structural)]
pub struct EventContext {
    /// The frame controller is paused.
    pub paused: bool,
    /// The play mode of the running sketch.
    pub play_mode: PlayMode,
    /// The sketch named by a `SwitchSketch` event is registered.
    pub sketch_registered: bool,
    /// The main window reports the monitor it is on.
    pub monitor_available: bool,
}

/// Effects that the application carries out after an event.
#[derive(Debug)]
pub enum AppAction {
    AdvanceSingleFrame,
    CaptureFrame,
    ClearControlsCache,
    PersistControls,
    ResetFrameCount,
    StartRecording,
    StopRecording,
    ToggleRecording,
    SwitchSketch(String),
    Tap,
    /// Leave full screen: give the main window the sketch's own size.
    RestoreWindowSize,
    /// Enter full screen: give the main window the monitor's size.
    FillMonitor,
    ShowGuiWindow,
    ShowMainWindow,
    SetPaused(bool),
    /// Tap tempo starts from the sketch's own BPM.
    UseSketchBpmForTapTempo,
    /// Title the main window with the sketch's name and the controls window
    /// with the name followed by "Controls".
    SetWindowTitles,
    /// Put the main window at the origin with the sketch's size, and the
    /// controls window to its right.
    PlaceWindows,
    /// Give the controls window the sketch's controls size.
    SizeGuiWindow,
    /// Run the frame controller at the sketch's frame rate.
    EnsureFrameRate,
    /// Apply the sketch's stored control values.
    RestoreControls,
}

/// The runtime state that events change.
pub struct AppState {
    pub alert_text: String,
    pub clear_next_frame: bool,
    pub tap_tempo_enabled: bool,
    pub perf_mode: bool,
    pub main_maximized: bool,
    pub recording: RecordingState,
    /// Name of the running sketch.
    pub sketch_name: String,
}

/// What the event handling sees of the runtime state: the alert as text, the
/// flags, the recording state and the sketch name as text.
pub struct AppStateView {
    pub alert: Seq<char>,
    pub clear_next_frame: bool,
    pub tap_tempo_enabled: bool,
    pub perf_mode: bool,
    pub main_maximized: bool,
    pub recording: RecordingState,
    pub sketch_name: Seq<char>,
}

impl View for AppState {
    type V = AppStateView;

    open spec fn view(&self) -> AppStateView {
        AppStateView {
            alert: self.alert_text@,
            clear_next_frame: self.clear_next_frame,
            tap_tempo_enabled: self.tap_tempo_enabled,
            perf_mode: self.perf_mode,
            main_maximized: self.main_maximized,
            recording: self.recording,
            sketch_name: self.sketch_name@,
        }
    }
}

/// The state after `event`: most events leave it as it is; alerts, clearing,
/// queueing, resetting, pausing, full screen, performance mode and tap tempo
/// change what the list below says.
pub open spec fn state_after(s: AppStateView, event: AppEvent, ctx: EventContext) -> AppStateView {
    match event {
        AppEvent::Alert(text) => AppStateView { alert: text@, ..s },
        AppEvent::ClearNextFrame => AppStateView { clear_next_frame: true, ..s },
        AppEvent::QueueRecord => AppStateView {
            recording: RecordingState { is_queued: !s.recording.is_queued, ..s.recording },
            alert: if s.recording.is_queued {
                ""@
            } else {
                "Recording queued. Awaiting MIDI Start message"@
            },
            ..s
        },
        AppEvent::Reset => AppStateView { alert: "Reset"@, ..s },
        AppEvent::ToggleFullScreen => if ctx.monitor_available {
            AppStateView { main_maximized: !s.main_maximized, ..s }
        } else {
            s
        },
        AppEvent::TogglePerfMode(on) => AppStateView { perf_mode: on, ..s },
        AppEvent::TogglePlay => AppStateView {
            alert: if !ctx.paused {
                "Paused"@
            } else {
                "Resumed"@
            },
            ..s
        },
        AppEvent::ToggleTapTempo(on) => AppStateView {
            tap_tempo_enabled: on,
            alert: if on {
                "Tap `Space` key to set BPM"@
            } else {
                "Tap tempo disabled. Sketch BPM has been restored."@
            },
            ..s
        },
        _ => s,
    }
}

/// The effects of `event`, in the order they are to be carried out.
pub open spec fn actions_for(s: AppStateView, event: AppEvent, ctx: EventContext) -> Seq<
    AppAction,
> {
    match event {
        AppEvent::AdvanceSingleFrame => seq![AppAction::AdvanceSingleFrame],
        AppEvent::CaptureFrame => seq![AppAction::CaptureFrame],
        AppEvent::ClearControlsCache => seq![AppAction::ClearControlsCache],
        AppEvent::ControlsChanged => if ctx.paused && ctx.play_mode != PlayMode::ManualAdvance {
            seq![AppAction::AdvanceSingleFrame, AppAction::PersistControls]
        } else {
            seq![AppAction::PersistControls]
        },
        AppEvent::MidiStart | AppEvent::MidiContinue => if s.recording.is_queued {
            seq![AppAction::ResetFrameCount, AppAction::StartRecording]
        } else {
            seq![AppAction::ResetFrameCount]
        },
        AppEvent::MidiStop => if s.recording.active && !s.recording.is_encoding {
            seq![AppAction::StopRecording]
        } else {
            seq![]
        },
        AppEvent::Record => seq![AppAction::ToggleRecording],
        AppEvent::Reset => seq![AppAction::ResetFrameCount],
        AppEvent::SwitchSketch(name) => if s.sketch_name != name@ && ctx.sketch_registered {
            seq![AppAction::SwitchSketch(name)]
        } else {
            seq![]
        },
        AppEvent::Tap => seq![AppAction::Tap],
        AppEvent::ToggleFullScreen => if !ctx.monitor_available {
            seq![]
        } else if s.main_maximized {
            seq![AppAction::RestoreWindowSize]
        } else {
            seq![AppAction::FillMonitor]
        },
        AppEvent::ToggleGuiFocus => seq![AppAction::ShowGuiWindow],
        AppEvent::ToggleMainFocus => seq![AppAction::ShowMainWindow],
        AppEvent::TogglePlay => seq![AppAction::SetPaused(!ctx.paused)],
        AppEvent::ToggleTapTempo(on) => if on {
            seq![AppAction::UseSketchBpmForTapTempo]
        } else {
            seq![]
        },
        _ => seq![],
    }
}

/// A recording state with nothing recorded, writing to `recording_dir`.
pub open spec fn fresh_recording(recording_dir: Option<String>) -> RecordingState {
    RecordingState {
        active: false,
        is_queued: false,
        is_encoding: false,
        recorded_frames: 0,
        recording_dir,
    }
}

/// The effects of preparing the running sketch's environment: title the
/// windows, place them unless in performance mode, size the controls window,
/// set the frame rate, pause a sketch that does not loop, restore its controls.
pub open spec fn environment_actions(perf_mode: bool, play_mode: PlayMode) -> Seq<AppAction> {
    let windows = if perf_mode {
        seq![AppAction::SetWindowTitles, AppAction::SizeGuiWindow]
    } else {
        seq![AppAction::SetWindowTitles, AppAction::PlaceWindows, AppAction::SizeGuiWindow]
    };
    let pause = if play_mode != PlayMode::Loop {
        seq![AppAction::SetPaused(true)]
    } else {
        seq![]
    };
    windows + seq![AppAction::EnsureFrameRate] + pause + seq![AppAction::RestoreControls]
}

/// Keys the runtime responds to.
#[derive(Clone, Copy, Debug, PartialEq, Eq, Structural)]
pub enum Key {
    Space,
    A,
    F,
    G,
    M,
    R,
    S,
    Other,
}

/// The modifier keys held with a key press.
#[derive(Clone, Copy, Debug, PartialEq, Eq, Structural)]
pub struct Modifiers {
    pub alt: bool,
    pub ctrl: bool,
    pub shift: bool,
    /// The command (logo) key.
    pub logo: bool,
}

/// The event a key press sends: Space taps the tempo; Cmd+F, Cmd+G and Cmd+M
/// toggle full screen and focus the controls or the main window; A, R and S
/// without modifiers advance a frame, reset and capture a frame.
pub open spec fn key_event(key: Key, mods: Modifiers) -> Option<AppEvent> {
    let plain = !mods.alt && !mods.ctrl && !mods.shift && !mods.logo;
    match key {
        Key::Space => Some(AppEvent::Tap),
        Key::A => if plain {
            Some(AppEvent::AdvanceSingleFrame)
        } else {
            None
        },
        Key::F => if mods.logo {
            Some(AppEvent::ToggleFullScreen)
        } else {
            None
        },
        Key::G => if mods.logo {
            Some(AppEvent::ToggleGuiFocus)
        } else {
            None
        },
        Key::M => if mods.logo {
            Some(AppEvent::ToggleMainFocus)
        } else {
            None
        },
        Key::R => if plain {
            Some(AppEvent::Reset)
        } else {
            None
        },
        Key::S => if plain {
            Some(AppEvent::CaptureFrame)
        } else {
            None
        },
        Key::Other => None,
    }
}

/// The event that a key press sends, if any.
pub fn event_for_key(key: Key, mods: Modifiers) -> (r: Option<AppEvent>)
    ensures
        r == key_event(key, mods),
{
    let plain = !mods.alt && !mods.ctrl && !mods.shift && !mods.logo;
    match key {
        Key::Space => Some(AppEvent::Tap),
        Key::A if plain => Some(AppEvent::AdvanceSingleFrame),
        Key::F if mods.logo => Some(AppEvent::ToggleFullScreen),
        Key::G if mods.logo => Some(AppEvent::ToggleGuiFocus),
        Key::M if mods.logo => Some(AppEvent::ToggleMainFocus),
        Key::R if plain => Some(AppEvent::Reset),
        Key::S if plain => Some(AppEvent::CaptureFrame),
        _ => None,
    }
}

/// The file that `CaptureFrame` saves the main window to, as path components
/// below the project root: `images`, then `<sketch>-<id>.png`.
pub fn capture_file_components(sketch_name: &str, id: &str) -> (r: Vec<String>)
    ensures
        r@.len() == 2,
        r@[0]@ == "images"@,
        r@[1]@ == sketch_name@ + "-"@ + id@ + ".png"@,
{
    let mut name = concat3(sketch_name, "-", id);
    name.append(".png");
    let mut r: Vec<String> = Vec::new();
    r.push(String::from_str("images"));
    r.push(name);
    r
}

/// The file for a new capture of the sketch `sketch_name`, named with a fresh
/// random five-character identifier.
pub fn new_capture_file_components(sketch_name: &str) -> (r: Vec<String>)
    ensures
        r@.len() == 2,
        r@[0]@ == "images"@,
        exists|id: Seq<char>|
            id.len() == 5 && (forall|i: int| 0 <= i < 5 ==> is_id_char(#[trigger] id[i]))
                && r@[1]@ == sketch_name@ + "-"@ + id + ".png"@,
{
    let id = uuid_5();
    capture_file_components(sketch_name, id.as_str())
}

/// MIDI start and continue act alike: both restart the frame count, and with a
/// recording queued both start it, in that order; without one, only the frame
/// count restarts. Neither changes the state.
pub proof fn law_midi_start_starts_queued_recording(s: AppStateView, ctx: EventContext)
    ensures
        actions_for(s, AppEvent::MidiStart, ctx) == actions_for(s, AppEvent::MidiContinue, ctx),
        s.recording.is_queued ==> actions_for(s, AppEvent::MidiStart, ctx) == seq![
            AppAction::ResetFrameCount,
            AppAction::StartRecording,
        ],
        !s.recording.is_queued ==> actions_for(s, AppEvent::MidiStart, ctx) == seq![
            AppAction::ResetFrameCount,
        ],
        state_after(s, AppEvent::MidiStart, ctx) == s,
        state_after(s, AppEvent::MidiContinue, ctx) == s,
        s.recording.is_queued ==> state_after(s, AppEvent::QueueRecord, ctx).recording.is_queued
            == false,
        !s.recording.is_queued ==> actions_for(
            state_after(s, AppEvent::QueueRecord, ctx),
            AppEvent::MidiStart,
            ctx,
        ) == seq![AppAction::ResetFrameCount, AppAction::StartRecording],
{
}

/// Queueing a recording twice cancels it: the recording state is back where
/// it was.
pub proof fn law_queue_record_twice(s: AppStateView, ctx: EventContext)
    ensures
        state_after(state_after(s, AppEvent::QueueRecord, ctx), AppEvent::QueueRecord, ctx).recording
            == s.recording,
{
}

/// Toggling full screen twice on a monitor restores the state, and the two
/// effects are filling the monitor and restoring the sketch's size, in the
/// order the starting state calls for.
pub proof fn law_full_screen_twice(s: AppStateView, ctx: EventContext)
    requires
        ctx.monitor_available,
    ensures
        state_after(state_after(s, AppEvent::ToggleFullScreen, ctx), AppEvent::ToggleFullScreen, ctx)
            == s,
        s.main_maximized ==> actions_for(s, AppEvent::ToggleFullScreen, ctx) == seq![
            AppAction::RestoreWindowSize,
        ] && actions_for(state_after(s, AppEvent::ToggleFullScreen, ctx), AppEvent::ToggleFullScreen, ctx)
            == seq![AppAction::FillMonitor],
        !s.main_maximized ==> actions_for(s, AppEvent::ToggleFullScreen, ctx) == seq![
            AppAction::FillMonitor,
        ] && actions_for(state_after(s, AppEvent::ToggleFullScreen, ctx), AppEvent::ToggleFullScreen, ctx)
            == seq![AppAction::RestoreWindowSize],
{
}

/// Toggling play twice, with the first pause effect carried out in between,
/// asks for the starting pause state again.
pub proof fn law_toggle_play_twice(s: AppStateView, ctx: EventContext)
    ensures
        actions_for(s, AppEvent::TogglePlay, ctx) == seq![AppAction::SetPaused(!ctx.paused)],
        actions_for(
            state_after(s, AppEvent::TogglePlay, ctx),
            AppEvent::TogglePlay,
            EventContext { paused: !ctx.paused, ..ctx },
        ) == seq![AppAction::SetPaused(ctx.paused)],
{
}

/// Events change neither the sketch name nor, queueing aside, the recording
/// state: switching sketches and recording happen through the effects.
pub proof fn law_events_keep_sketch_and_recording(s: AppStateView, event: AppEvent, ctx: EventContext)
    ensures
        state_after(s, event, ctx).sketch_name == s.sketch_name,
        !(event is QueueRecord) ==> state_after(s, event, ctx).recording == s.recording,
{
}

impl AppState {
    /// Applies `event` to the state and returns the effects to carry out, in order.
    pub fn on_app_event(&mut self, event: AppEvent, ctx: EventContext) -> (actions: Vec<
        AppAction,
    >)
        ensures
            final(self)@ == state_after(old(self)@, event, ctx),
            actions@ == actions_for(old(self)@, event, ctx),
    {
        let mut actions: Vec<AppAction> = Vec::new();
        match event {
            AppEvent::AdvanceSingleFrame => {
                actions.push(AppAction::AdvanceSingleFrame);
            },
            AppEvent::Alert(text) => {
                self.alert_text = text;
            },
            AppEvent::CaptureFrame => {
                actions.push(AppAction::CaptureFrame);
            },
            AppEvent::ClearControlsCache => {
                actions.push(AppAction::ClearControlsCache);
            },
            AppEvent::ClearNextFrame => {
                self.clear_next_frame = true;
            },
            AppEvent::ControlsChanged => {
                if ctx.paused && ctx.play_mode != PlayMode::ManualAdvance {
                    actions.push(AppAction::AdvanceSingleFrame);
                }
                actions.push(AppAction::PersistControls);
            },
            AppEvent::MidiStart | AppEvent::MidiContinue => {
                actions.push(AppAction::ResetFrameCount);
                if self.recording.is_queued {
                    actions.push(AppAction::StartRecording);
                }
            },
            AppEvent::MidiStop => {
                if self.recording.active && !self.recording.is_encoding {
                    actions.push(AppAction::StopRecording);
                }
            },
            AppEvent::QueueRecord => {
                if self.recording.is_queued {
                    self.recording.is_queued = false;
                    self.alert_text = String::from_str("");
                } else {
                    self.recording.is_queued = true;
                    self.alert_text = String::from_str(
                        "Recording queued. Awaiting MIDI Start message",
                    );
                }
            },
            AppEvent::Record => {
                actions.push(AppAction::ToggleRecording);
            },
            AppEvent::Reset => {
                actions.push(AppAction::ResetFrameCount);
                self.alert_text = String::from_str("Reset");
            },
            AppEvent::SwitchSketch(name) => {
                if !str_eq(self.sketch_name.as_str(), name.as_str()) && ctx.sketch_registered {
                    actions.push(AppAction::SwitchSketch(name));
                }
            },
            AppEvent::Tap => {
                actions.push(AppAction::Tap);
            },
            AppEvent::ToggleFullScreen => {
                if ctx.monitor_available {
                    if self.main_maximized {
                        actions.push(AppAction::RestoreWindowSize);
                        self.main_maximized = false;
                    } else {
                        actions.push(AppAction::FillMonitor);
                        self.main_maximized = true;
                    }
                }
            },
            AppEvent::ToggleGuiFocus => {
                actions.push(AppAction::ShowGuiWindow);
            },
            AppEvent::ToggleMainFocus => {
                actions.push(AppAction::ShowMainWindow);
            },
            AppEvent::TogglePerfMode(on) => {
                self.perf_mode = on;
            },
            AppEvent::TogglePlay => {
                let next_is_paused = !ctx.paused;
                actions.push(AppAction::SetPaused(next_is_paused));
                self.alert_text = if next_is_paused {
                    String::from_str("Paused")
                } else {
                    String::from_str("Resumed")
                };
            },
            AppEvent::ToggleTapTempo(on) => {
                self.tap_tempo_enabled = on;
                if on {
                    actions.push(AppAction::UseSketchBpmForTapTempo);
                    self.alert_text = String::from_str("Tap `Space` key to set BPM");
                } else {
                    self.alert_text = String::from_str(
                        "Tap tempo disabled. Sketch BPM has been restored.",
                    );
                }
            },
        }
        actions
    }
}

impl AppState {
    /// Prepares the environment of the running sketch: a fresh recording state
    /// writing to `recording_dir`, and the window, frame-rate, pause and
    /// control effects for its play mode.
    pub fn init_sketch_environment(&mut self, play_mode: PlayMode, recording_dir: Option<
        String,
    >) -> (actions: Vec<AppAction>)
        ensures
            final(self)@ == (AppStateView { recording: fresh_recording(recording_dir), ..old(self)@ }),
            actions@ == environment_actions(old(self).perf_mode, play_mode),
    {
        self.recording = RecordingState::new(recording_dir);
        let mut actions: Vec<AppAction> = Vec::new();
        actions.push(AppAction::SetWindowTitles);
        if !self.perf_mode {
            actions.push(AppAction::PlaceWindows);
        }
        actions.push(AppAction::SizeGuiWindow);
        actions.push(AppAction::EnsureFrameRate);
        if play_mode != PlayMode::Loop {
            actions.push(AppAction::SetPaused(true));
        }
        actions.push(AppAction::RestoreControls);
        actions
    }

    /// Switches to the sketch `name`, shown as `display_name`: the next frame
    /// is cleared, the environment is prepared as `init_sketch_environment`
    /// does, and the alert announces the switch.
    pub fn switch_sketch(
        &mut self,
        name: &str,
        display_name: &str,
        play_mode: PlayMode,
        recording_dir: Option<String>,
    ) -> (actions: Vec<AppAction>)
        ensures
            final(self)@ == (AppStateView {
                sketch_name: name@,
                clear_next_frame: true,
                recording: fresh_recording(recording_dir),
                alert: "Switched to "@ + display_name@,
                ..old(self)@
            }),
            actions@ == environment_actions(old(self).perf_mode, play_mode),
    {
        self.sketch_name = String::from_str(name);
        self.clear_next_frame = true;
        let actions = self.init_sketch_environment(play_mode, recording_dir);
        self.alert_text = concat3("Switched to ", display_name, "");
        proof {
            reveal_strlit("");
        }
        assert(self.alert_text@ =~= "Switched to "@ + display_name@);
        actions
    }

    /// Reads and clears the request to clear the next frame: the frame is
    /// cleared once.
    pub fn take_clear_next_frame(&mut self) -> (r: bool)
        ensures
            r == old(self).clear_next_frame,
            final(self)@ == (AppStateView { clear_next_frame: false, ..old(self)@ }),
    {
        let r = self.clear_next_frame;
        self.clear_next_frame = false;
        r
    }

    /// The encoder finished writing `video_path`: the recording state is ready
    /// for the next recording, in `next_dir` when one could be determined, and
    /// the alert names the video.
    pub fn on_encoding_complete(&mut self, video_path: &str, next_dir: Option<String>)
        ensures
            final(self)@ == (AppStateView {
                alert: "Encoding complete. Video path "@ + video_path@,
                recording: RecordingState {
                    is_encoding: false,
                    recorded_frames: 0,
                    recording_dir: if next_dir is Some {
                        next_dir
                    } else {
                        old(self).recording.recording_dir
                    },
                    ..old(self).recording
                },
                ..old(self)@
            }),
    {
        self.recording.finish_encoding(next_dir);
        self.alert_text = concat3("Encoding complete. Video path ", video_path, "");
        proof {
            reveal_strlit("");
        }
        assert(self.alert_text@ =~= "Encoding complete. Video path "@ + video_path@);
    }

    /// The encoder reported `error`: the alert shows it; encoding is still
    /// considered under way until the encoder finishes.
    pub fn on_encoding_error(&mut self, error: &str)
        ensures
            final(self)@ == (AppStateView { alert: "Received encoding error: "@ + error@, ..old(self)@ }),
    {
        self.alert_text = concat3("Received encoding error: ", error, "");
        proof {
            reveal_strlit("");
        }
        assert(self.alert_text@ =~= "Received encoding error: "@ + error@);
    }

    /// Carries out `StartRecording`, sent when a queued recording meets a MIDI
    /// start: starts the recording, whose announcement becomes the alert; a
    /// failure is reported in the alert instead.
    pub fn start_queued_recording(&mut self) -> (r: Result<RecordingStep, String>)
        ensures
            final(self).recording == after_start(old(self).recording),
            old(self).recording.recording_dir is Some ==> {
                &&& r == Ok::<RecordingStep, String>(RecordingStep::Started)
                &&& final(self)@ == (AppStateView {
                    alert: recording_started_message(old(self).recording.recording_dir->0@),
                    recording: final(self).recording,
                    ..old(self)@
                })
            },
            old(self).recording.recording_dir is None ==> {
                &&& r is Err
                &&& r->Err_0@ == "Unable to access recording path"@
                &&& final(self)@ == (AppStateView {
                    alert: "Failed to start recording: "@ + r->Err_0@,
                    ..old(self)@
                })
            },
    {
        let r = self.recording.start_recording(&mut self.alert_text);
        match &r {
            Ok(_) => {},
            Err(e) => {
                self.alert_text = concat3("Failed to start recording: ", e.as_str(), "");
                proof {
                    reveal_strlit("");
                }
                assert(self.alert_text@ =~= "Failed to start recording: "@ + e@);
            },
        }
        r
    }

    /// Carries out `StopRecording`, sent by a MIDI stop during a recording:
    /// hands the frames to encoding into `output_path`. A failure changes no
    /// text; the application only logs it.
    pub fn stop_recording_on_midi(&mut self, output_path: Option<&str>) -> (r: Result<
        RecordingStep,
        String,
    >)
        ensures
            final(self)@ == (AppStateView { recording: after_stop(old(self).recording), ..old(self)@ }),
            r is Ok <==> (!old(self).recording.is_encoding && old(self).recording.recording_dir is Some
                && output_path is Some),
            r is Ok ==> r == Ok::<RecordingStep, String>(RecordingStep::EncodingRequested),
    {
        self.recording.stop_recording(output_path)
    }

    /// Carries out `ToggleRecording`, sent by the record button: stops an
    /// active recording, encoding into `output_path`, or starts one, whose
    /// announcement becomes the alert. A failure is reported in the alert.
    pub fn toggle_recording(&mut self, output_path: Option<&str>) -> (r: Result<
        RecordingStep,
        String,
    >)
        ensures
            old(self).recording.active ==> final(self).recording == after_stop(old(self).recording),
            !old(self).recording.active ==> final(self).recording == after_start(
                old(self).recording,
            ),
            final(self)@ == (AppStateView {
                alert: final(self).alert_text@,
                recording: final(self).recording,
                ..old(self)@
            }),
            old(self).recording.active ==> (r is Ok <==> (!old(self).recording.is_encoding
                && old(self).recording.recording_dir is Some && output_path is Some)),
            !old(self).recording.active ==> (r is Ok <==> old(self).recording.recording_dir is Some),
            old(self).recording.active && r is Ok ==> r == Ok::<RecordingStep, String>(
                RecordingStep::EncodingRequested,
            ) && final(self).alert_text == old(self).alert_text,
            !old(self).recording.active && r is Ok ==> r == Ok::<RecordingStep, String>(
                RecordingStep::Started,
            ) && final(self).alert_text@ == recording_started_message(
                old(self).recording.recording_dir->0@,
            ),
            r is Err ==> final(self).alert_text@ == "Recording error: "@ + r->Err_0@,
            old(self).recording.active && old(self).recording.is_encoding ==> r is Err && r->Err_0@
                == "Already encoding"@,
            old(self).recording.active && !old(self).recording.is_encoding
                && old(self).recording.recording_dir is None ==> r is Err && r->Err_0@
                == "No recording directory"@,
            old(self).recording.active && !old(self).recording.is_encoding
                && old(self).recording.recording_dir is Some && output_path is None ==> r is Err
                && r->Err_0@ == "Could not determine output path"@,
            !old(self).recording.active && old(self).recording.recording_dir is None ==> r is Err
                && r->Err_0@ == "Unable to access recording path"@,
    {
        let r = self.recording.toggle_recording(&mut self.alert_text, output_path);
        match &r {
            Ok(_) => {},
            Err(e) => {
                self.alert_text = concat3("Recording error: ", e.as_str(), "");
                proof {
                    reveal_strlit("");
                }
                assert(self.alert_text@ =~= "Recording error: "@ + e@);
            },
        }
        r
    }

    /// After `CaptureFrame` was carried out: the alert names the saved image.
    pub fn on_frame_captured(&mut self, path: &str)
        ensures
            final(self)@ == (AppStateView { alert: "Image saved to "@ + path_debug(path@), ..old(self)@ }),
    {
        let quoted = path_debug_string(path);
        self.alert_text = concat3("Image saved to ", quoted.as_str(), "");
        proof {
            reveal_strlit("");
        }
        assert(self.alert_text@ =~= "Image saved to "@ + path_debug(path@));
    }

    /// After `ClearControlsCache` deleted the stored controls: the alert says
    /// so. A failed deletion is only logged and changes nothing.
    pub fn on_controls_cache_cleared(&mut self)
        ensures
            final(self)@ == (AppStateView { alert: "Controls cache cleared"@, ..old(self)@ }),
    {
        self.alert_text = String::from_str("Controls cache cleared");
    }

    /// After `PersistControls` wrote the controls to `path`: the alert names
    /// the file.
    pub fn on_controls_persisted(&mut self, path: &str)
        ensures
            final(self)@ == (AppStateView {
                alert: "Controls persisted at "@ + path_debug(path@),
                ..old(self)@
            }),
    {
        let quoted = path_debug_string(path);
        self.alert_text = concat3("Controls persisted at ", quoted.as_str(), "");
        proof {
            reveal_strlit("");
        }
        assert(self.alert_text@ =~= "Controls persisted at "@ + path_debug(path@));
    }

    /// After `PersistControls` failed with `error`: the alert reports it.
    pub fn on_controls_persist_failed(&mut self, error: &str)
        ensures
            final(self)@ == (AppStateView {
                alert: "Failed to persist controls: "@ + error@,
                ..old(self)@
            }),
    {
        self.alert_text = concat3("Failed to persist controls: ", error, "");
        proof {
            reveal_strlit("");
        }
        assert(self.alert_text@ =~= "Failed to persist controls: "@ + error@);
    }
}

} // verus!
