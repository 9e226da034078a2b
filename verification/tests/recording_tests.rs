use lattice::frame_names::frame_file_name;
use lattice::video_export::progress_frame;
use lattice::recording::{frames_dir_components, RecordingState, RecordingStep};

#[test]
fn start_needs_a_directory() {
    let mut alert = "before".to_string();
    let mut r = RecordingState::new(None);
    assert_eq!(r.start_recording(&mut alert), Err("Unable to access recording path".to_string()));
    assert!(!r.active);
    assert_eq!(alert, "before");
    let mut r = RecordingState::new(Some("/tmp/frames".to_string()));
    assert_eq!(r.start_recording(&mut alert), Ok(RecordingStep::Started));
    assert!(r.active);
    assert_eq!(alert, "Recording. Frames will be written to \"/tmp/frames\"");
}

#[test]
fn stop_requests_encoding_once() {
    let mut r = RecordingState::new(Some("/tmp/frames".to_string()));
    r.start_recording(&mut String::new()).unwrap();
    r.record_frame();
    r.record_frame();
    assert_eq!(r.stop_recording(Some("out.mp4")), Ok(RecordingStep::EncodingRequested));
    assert!(!r.active && r.is_encoding);
    assert_eq!(r.recorded_frames, 2);
    assert_eq!(r.stop_recording(Some("out.mp4")), Err("Already encoding".to_string()));
}

#[test]
fn stop_without_directory_still_changes_state() {
    let mut r = RecordingState::new(None);
    r.active = true;
    assert_eq!(r.stop_recording(Some("out.mp4")), Err("No recording directory".to_string()));
    assert!(!r.active);
    assert!(r.is_encoding);
}

#[test]
fn stop_without_output_path_fails_after_changing_state() {
    let mut r = RecordingState::new(Some("d".to_string()));
    r.active = true;
    assert_eq!(r.stop_recording(None), Err("Could not determine output path".to_string()));
    assert!(!r.active);
    assert!(r.is_encoding);
}

#[test]
fn toggle_alternates_and_labels_follow() {
    let mut r = RecordingState::new(Some("d".to_string()));
    assert_eq!(r.button_label(), "Record");
    let mut alert = String::new();
    assert_eq!(r.toggle_recording(&mut alert, Some("v.mp4")), Ok(RecordingStep::Started));
    assert_eq!(alert, "Recording. Frames will be written to \"d\"");
    assert_eq!(r.button_label(), "STOP");
    assert_eq!(r.toggle_recording(&mut alert, Some("v.mp4")), Ok(RecordingStep::EncodingRequested));
    assert_eq!(r.button_label(), "Encoding");
    r.finish_encoding(Some("e".to_string()));
    assert!(!r.is_encoding);
    assert_eq!(r.recorded_frames, 0);
    assert_eq!(r.recording_dir, Some("e".to_string()));
    r.finish_encoding(None);
    assert_eq!(r.recording_dir, Some("e".to_string()));
    assert_eq!(r.button_label(), "Record");
}

#[test]
fn frame_file_names_are_zero_padded() {
    assert_eq!(frame_file_name(0), "frame-000000.png");
    assert_eq!(frame_file_name(42), "frame-000042.png");
    assert_eq!(frame_file_name(999_999), "frame-999999.png");
    assert_eq!(frame_file_name(1_234_567), "frame-1234567.png");
    assert_eq!(frame_file_name(u32::MAX), "frame-4294967295.png");
    for n in [0u32, 7, 10, 99, 100, 123_456, 1_000_000] {
        assert_eq!(frame_file_name(n), format!("frame-{:06}.png", n));
    }
}

#[test]
fn captured_frames_are_named_and_counted() {
    let mut r = RecordingState::new(Some("frames".to_string()));
    assert_eq!(r.capture_frame(), None);
    assert_eq!(r.recorded_frames, 0);
    r.start_recording(&mut String::new()).unwrap();
    assert_eq!(r.capture_frame(), Some("frame-000000.png".to_string()));
    assert_eq!(r.capture_frame(), Some("frame-000001.png".to_string()));
    assert_eq!(r.recorded_frames, 2);

    let mut no_dir = RecordingState::new(None);
    no_dir.active = true;
    assert_eq!(no_dir.capture_frame(), None);
    assert_eq!(no_dir.recorded_frames, 0);
}

#[test]
fn frame_numbers_read_back_through_progress_parser() {
    for n in [0u32, 5, 123, 654_321, 7_654_321] {
        let name = frame_file_name(n);
        let digits = &name["frame-".len()..name.len() - ".png".len()];
        assert_eq!(progress_frame(&format!("frame={}", digits)), Some(n));
    }
}

#[test]
fn frames_folder_components() {
    assert_eq!(
        frames_dir_components("ab12c", "spiral"),
        vec!["Captures".to_string(), "spiral".to_string(), "ab12c".to_string()]
    );
}
