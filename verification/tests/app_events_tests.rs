use lattice::app_events::{capture_file_components, new_capture_file_components, event_for_key, AppAction, AppEvent, AppState, EventContext, Key, Modifiers, PlayMode};
use lattice::recording::{RecordingState, RecordingStep};

fn state() -> AppState {
    AppState {
        alert_text: String::new(),
        clear_next_frame: false,
        tap_tempo_enabled: false,
        perf_mode: false,
        main_maximized: false,
        recording: RecordingState::new(Some("frames".to_string())),
        sketch_name: "template".to_string(),
    }
}

fn ctx() -> EventContext {
    EventContext {
        paused: false,
        play_mode: PlayMode::Loop,
        sketch_registered: true,
        monitor_available: true,
    }
}

fn names(actions: &[AppAction]) -> Vec<String> {
    actions.iter().map(|a| format!("{:?}", a)).collect()
}

#[test]
fn queue_record_toggles_and_alerts() {
    let mut s = state();
    assert!(s.on_app_event(AppEvent::QueueRecord, ctx()).is_empty());
    assert!(s.recording.is_queued);
    assert_eq!(s.alert_text, "Recording queued. Awaiting MIDI Start message");
    s.on_app_event(AppEvent::QueueRecord, ctx());
    assert!(!s.recording.is_queued);
    assert_eq!(s.alert_text, "");
}

#[test]
fn midi_start_resets_and_starts_queued_recording() {
    let mut s = state();
    assert_eq!(names(&s.on_app_event(AppEvent::MidiStart, ctx())), vec!["ResetFrameCount"]);
    s.recording.is_queued = true;
    assert_eq!(
        names(&s.on_app_event(AppEvent::MidiContinue, ctx())),
        vec!["ResetFrameCount", "StartRecording"]
    );
}

#[test]
fn midi_stop_stops_only_active_recording() {
    let mut s = state();
    assert!(s.on_app_event(AppEvent::MidiStop, ctx()).is_empty());
    s.recording.active = true;
    assert_eq!(names(&s.on_app_event(AppEvent::MidiStop, ctx())), vec!["StopRecording"]);
    s.recording.is_encoding = true;
    assert!(s.on_app_event(AppEvent::MidiStop, ctx()).is_empty());
}

#[test]
fn toggle_play_pauses_and_resumes() {
    let mut s = state();
    assert_eq!(names(&s.on_app_event(AppEvent::TogglePlay, ctx())), vec!["SetPaused(true)"]);
    assert_eq!(s.alert_text, "Paused");
    let paused = EventContext { paused: true, ..ctx() };
    assert_eq!(names(&s.on_app_event(AppEvent::TogglePlay, paused)), vec!["SetPaused(false)"]);
    assert_eq!(s.alert_text, "Resumed");
}

#[test]
fn controls_changed_advances_paused_frame_unless_manual() {
    let mut s = state();
    let paused = EventContext { paused: true, ..ctx() };
    assert_eq!(
        names(&s.on_app_event(AppEvent::ControlsChanged, paused)),
        vec!["AdvanceSingleFrame", "PersistControls"]
    );
    let manual = EventContext { paused: true, play_mode: PlayMode::ManualAdvance, ..ctx() };
    assert_eq!(names(&s.on_app_event(AppEvent::ControlsChanged, manual)), vec!["PersistControls"]);
    assert_eq!(names(&s.on_app_event(AppEvent::ControlsChanged, ctx())), vec!["PersistControls"]);
}

#[test]
fn switch_sketch_only_to_another_registered_one() {
    let mut s = state();
    assert!(s.on_app_event(AppEvent::SwitchSketch("template".into()), ctx()).is_empty());
    let unknown = EventContext { sketch_registered: false, ..ctx() };
    assert!(s.on_app_event(AppEvent::SwitchSketch("blob".into()), unknown).is_empty());
    assert_eq!(
        names(&s.on_app_event(AppEvent::SwitchSketch("blob".into()), ctx())),
        vec!["SwitchSketch(\"blob\")"]
    );
}

#[test]
fn full_screen_toggles_with_a_monitor() {
    let mut s = state();
    let no_monitor = EventContext { monitor_available: false, ..ctx() };
    assert!(s.on_app_event(AppEvent::ToggleFullScreen, no_monitor).is_empty());
    assert!(!s.main_maximized);
    assert_eq!(names(&s.on_app_event(AppEvent::ToggleFullScreen, ctx())), vec!["FillMonitor"]);
    assert!(s.main_maximized);
    assert_eq!(
        names(&s.on_app_event(AppEvent::ToggleFullScreen, ctx())),
        vec!["RestoreWindowSize"]
    );
    assert!(!s.main_maximized);
}

#[test]
fn tap_tempo_and_other_events() {
    let mut s = state();
    assert_eq!(
        names(&s.on_app_event(AppEvent::ToggleTapTempo(true), ctx())),
        vec!["UseSketchBpmForTapTempo"]
    );
    assert!(s.tap_tempo_enabled);
    assert_eq!(s.alert_text, "Tap `Space` key to set BPM");
    assert!(s.on_app_event(AppEvent::ToggleTapTempo(false), ctx()).is_empty());
    assert_eq!(s.alert_text, "Tap tempo disabled. Sketch BPM has been restored.");
    assert_eq!(names(&s.on_app_event(AppEvent::Reset, ctx())), vec!["ResetFrameCount"]);
    assert_eq!(s.alert_text, "Reset");
    s.on_app_event(AppEvent::Alert("hello".into()), ctx());
    assert_eq!(s.alert_text, "hello");
    s.on_app_event(AppEvent::ClearNextFrame, ctx());
    assert!(s.clear_next_frame);
    s.on_app_event(AppEvent::TogglePerfMode(true), ctx());
    assert!(s.perf_mode);
    assert_eq!(names(&s.on_app_event(AppEvent::Tap, ctx())), vec!["Tap"]);
    assert_eq!(names(&s.on_app_event(AppEvent::Record, ctx())), vec!["ToggleRecording"]);
    assert_eq!(names(&s.on_app_event(AppEvent::CaptureFrame, ctx())), vec!["CaptureFrame"]);
    assert_eq!(
        names(&s.on_app_event(AppEvent::ClearControlsCache, ctx())),
        vec!["ClearControlsCache"]
    );
    assert_eq!(names(&s.on_app_event(AppEvent::ToggleGuiFocus, ctx())), vec!["ShowGuiWindow"]);
    assert_eq!(names(&s.on_app_event(AppEvent::ToggleMainFocus, ctx())), vec!["ShowMainWindow"]);
    assert_eq!(
        names(&s.on_app_event(AppEvent::AdvanceSingleFrame, ctx())),
        vec!["AdvanceSingleFrame"]
    );
}

#[test]
fn queued_recording_starts_or_reports() {
    let mut s = state();
    assert_eq!(s.start_queued_recording(), Ok(RecordingStep::Started));
    assert!(s.recording.active);
    assert_eq!(s.alert_text, "Recording. Frames will be written to \"frames\"");

    let mut s = state();
    s.recording = RecordingState::new(None);
    assert!(s.start_queued_recording().is_err());
    assert!(!s.recording.active);
    assert_eq!(s.alert_text, "Failed to start recording: Unable to access recording path");
}

#[test]
fn record_button_toggles_and_reports_errors() {
    let mut s = state();
    assert_eq!(s.toggle_recording(Some("v.mp4")), Ok(RecordingStep::Started));
    assert!(s.recording.active);
    assert_eq!(s.alert_text, "Recording. Frames will be written to \"frames\"");
    assert_eq!(s.toggle_recording(Some("v.mp4")), Ok(RecordingStep::EncodingRequested));
    assert!(!s.recording.active);
    assert!(s.recording.is_encoding);

    s.recording.active = true;
    assert!(s.toggle_recording(Some("v.mp4")).is_err());
    assert_eq!(s.alert_text, "Recording error: Already encoding");

    let mut s = state();
    s.recording.active = true;
    assert!(s.toggle_recording(None).is_err());
    assert_eq!(s.alert_text, "Recording error: Could not determine output path");

    let mut s = state();
    s.recording = RecordingState::new(None);
    assert!(s.toggle_recording(None).is_err());
    assert_eq!(s.alert_text, "Recording error: Unable to access recording path");
}

#[test]
fn midi_stop_hands_frames_to_encoding() {
    let mut s = state();
    s.recording.active = true;
    assert_eq!(s.stop_recording_on_midi(Some("v.mp4")), Ok(RecordingStep::EncodingRequested));
    assert!(s.recording.is_encoding);
    assert!(!s.recording.active);
    assert!(s.stop_recording_on_midi(Some("v.mp4")).is_err());
    assert_eq!(s.alert_text, "");
}

fn mods(alt: bool, ctrl: bool, shift: bool, logo: bool) -> Modifiers {
    Modifiers { alt, ctrl, shift, logo }
}

fn key_name(key: Key, m: Modifiers) -> Option<String> {
    event_for_key(key, m).map(|e| format!("{:?}", e))
}

#[test]
fn keyboard_shortcuts() {
    let none = mods(false, false, false, false);
    let cmd = mods(false, false, false, true);
    let shift = mods(false, false, true, false);
    assert_eq!(key_name(Key::Space, none).as_deref(), Some("Tap"));
    assert_eq!(key_name(Key::Space, cmd).as_deref(), Some("Tap"));
    assert_eq!(key_name(Key::A, none).as_deref(), Some("AdvanceSingleFrame"));
    assert_eq!(key_name(Key::A, shift), None);
    assert_eq!(key_name(Key::F, cmd).as_deref(), Some("ToggleFullScreen"));
    assert_eq!(key_name(Key::F, mods(false, false, true, true)).as_deref(), Some("ToggleFullScreen"));
    assert_eq!(key_name(Key::F, none), None);
    assert_eq!(key_name(Key::G, cmd).as_deref(), Some("ToggleGuiFocus"));
    assert_eq!(key_name(Key::M, cmd).as_deref(), Some("ToggleMainFocus"));
    assert_eq!(key_name(Key::R, none).as_deref(), Some("Reset"));
    assert_eq!(key_name(Key::R, cmd), None);
    assert_eq!(key_name(Key::S, none).as_deref(), Some("CaptureFrame"));
    assert_eq!(key_name(Key::S, mods(true, false, false, false)), None);
    assert_eq!(key_name(Key::Other, none), None);
}

#[test]
fn sketch_environment_effects() {
    let mut s = state();
    s.recording.active = true;
    let actions = s.init_sketch_environment(PlayMode::Loop, Some("next".to_string()));
    assert_eq!(
        names(&actions),
        vec!["SetWindowTitles", "PlaceWindows", "SizeGuiWindow", "EnsureFrameRate", "RestoreControls"]
    );
    assert!(!s.recording.active);
    assert_eq!(s.recording.recording_dir, Some("next".to_string()));

    s.perf_mode = true;
    let actions = s.init_sketch_environment(PlayMode::ManualAdvance, None);
    assert_eq!(
        names(&actions),
        vec!["SetWindowTitles", "SizeGuiWindow", "EnsureFrameRate", "SetPaused(true)", "RestoreControls"]
    );
}

#[test]
fn switching_sketches() {
    let mut s = state();
    let actions = s.switch_sketch("spiral", "Spiral", PlayMode::Advance, Some("dir".to_string()));
    assert_eq!(s.sketch_name, "spiral");
    assert!(s.clear_next_frame);
    assert_eq!(s.alert_text, "Switched to Spiral");
    assert_eq!(s.recording.recording_dir, Some("dir".to_string()));
    assert_eq!(
        names(&actions),
        vec!["SetWindowTitles", "PlaceWindows", "SizeGuiWindow", "EnsureFrameRate", "SetPaused(true)", "RestoreControls"]
    );
}

#[test]
fn next_frame_is_cleared_once() {
    let mut s = state();
    s.on_app_event(AppEvent::ClearNextFrame, ctx());
    assert!(s.take_clear_next_frame());
    assert!(!s.take_clear_next_frame());
}

#[test]
fn encoder_results_reach_the_alert() {
    let mut s = state();
    s.toggle_recording(None).unwrap();
    s.recording.record_frame();
    s.toggle_recording(Some("v.mp4")).unwrap();
    assert!(s.recording.is_encoding);

    s.on_encoding_error("fatal: disk full");
    assert_eq!(s.alert_text, "Received encoding error: fatal: disk full");
    assert!(s.recording.is_encoding);

    s.on_encoding_complete("/videos/template-abc12.mp4", Some("next".to_string()));
    assert_eq!(s.alert_text, "Encoding complete. Video path /videos/template-abc12.mp4");
    assert!(!s.recording.is_encoding);
    assert_eq!(s.recording.recorded_frames, 0);
    assert_eq!(s.recording.recording_dir, Some("next".to_string()));

    s.on_encoding_complete("/videos/x.mp4", None);
    assert_eq!(s.recording.recording_dir, Some("next".to_string()));
}

#[test]
fn effect_results_reach_the_alert() {
    let mut s = state();
    s.on_frame_captured("images/spiral-ab12c.png");
    assert_eq!(s.alert_text, "Image saved to \"images/spiral-ab12c.png\"");
    s.on_controls_cache_cleared();
    assert_eq!(s.alert_text, "Controls cache cleared");
    s.on_controls_persisted("storage/spiral_controls.json");
    assert_eq!(s.alert_text, "Controls persisted at \"storage/spiral_controls.json\"");
    s.on_controls_persist_failed("permission denied");
    assert_eq!(s.alert_text, "Failed to persist controls: permission denied");
    assert_eq!(s.sketch_name, "template");
}

#[test]
fn capture_files_and_quoted_paths() {
    assert_eq!(
        capture_file_components("spiral", "ab12c"),
        vec!["images".to_string(), "spiral-ab12c.png".to_string()]
    );
    let fresh = new_capture_file_components("spiral");
    assert_eq!(fresh[0], "images");
    assert_eq!(fresh[1].len(), "spiral-".len() + 5 + ".png".len());
    assert!(fresh[1].starts_with("spiral-") && fresh[1].ends_with(".png"));

    let mut s = state();
    s.on_frame_captured("images/it's.png");
    assert_eq!(
        s.alert_text,
        format!("Image saved to {:?}", std::path::Path::new("images/it's.png"))
    );
}
