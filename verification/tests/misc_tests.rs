use lattice::audio::SampleWindow;
use lattice::controls::{Control, ControlValue, Controls};
use lattice::gui::calculate_gui_dimensions;
use lattice::image_index::{index_entry, index_entry_for_image, index_markdown, is_supported_extension, is_supported_image};
use lattice::midi_controls::{MidiControlConfig, MidiControls};
use lattice::storage::{controls_file_name, controls_storage_path, ControlHub};
use lattice::time_string::{split_on_dots, TIME_FORMAT_ERROR};
use lattice::video_export::{classify_stderr_line, progress_frame, StderrLine};

#[test]
fn supported_images() {
    assert!(is_supported_image("images/a.png"));
    assert!(is_supported_image("images/b.JPG"));
    assert!(is_supported_image("c.Jpeg"));
    assert!(is_supported_image("d.gif"));
    assert!(!is_supported_image("e.txt"));
    assert!(!is_supported_image("noext"));
    assert!(!is_supported_image(".png"));
    assert!(!is_supported_image("photo.png.txt"));
    assert!(is_supported_extension("png"));
    assert!(!is_supported_extension("PNG"));
}

#[test]
fn gui_dimensions() {
    assert_eq!(calculate_gui_dimensions(None), (350, 84));
    let five: Vec<Control> = (0..5).map(|i| Control::checkbox(&format!("c{}", i), false)).collect();
    let c = Controls::new(five);
    assert_eq!(calculate_gui_dimensions(Some(&c)), (350, 40 + 5 * 24 + 4 + 40));
    let seven: Vec<Control> = (0..7).map(|i| Control::checkbox(&format!("c{}", i), false)).collect();
    let c = Controls::new(seven);
    assert_eq!(calculate_gui_dimensions(Some(&c)), (350, 252));
}

#[test]
fn storage_location() {
    assert_eq!(controls_file_name("spiral"), "spiral_controls.json");
    assert_eq!(
        controls_storage_path("spiral"),
        vec!["storage".to_string(), "spiral_controls.json".to_string()]
    );
}

#[test]
fn stored_values_override() {
    let mut midi = MidiControls::new();
    midi.add("m", MidiControlConfig::new((0, 1), (0, 1), 3));
    let ui = Controls::new(vec![Control::checkbox("a", false), Control::checkbox("b", false)]);
    let mut hub = ControlHub::new(ui, midi);
    hub.load_from_storage(
        vec![("a".to_string(), ControlValue::Bool(true)), ("z".to_string(), ControlValue::Bool(true))],
        vec![("m".to_string(), 9)],
    );
    assert!(hub.ui_controls.bool("a"));
    assert!(!hub.ui_controls.bool("b"));
    assert!(hub.ui_controls.bool("z"));
    assert_eq!(hub.midi_controls.get("m"), 9);
    hub.update_ui_value("b", ControlValue::Bool(true));
    assert!(hub.ui_controls.bool("b"));
}

#[test]
fn time_strings_split_at_dots() {
    assert_eq!(split_on_dots("2.2.2"), vec!["2", "2", "2"]);
    assert_eq!(split_on_dots("1.0"), vec!["1", "0"]);
    assert_eq!(split_on_dots(""), vec![""]);
    assert_eq!(split_on_dots(".a."), vec!["", "a", ""]);
    for s in ["0.0.0", "1.0.0", "0.1.0", "0.0.2", "x..y"] {
        let ours: Vec<String> = split_on_dots(s);
        let std_parts: Vec<String> = s.split('.').map(|p| p.to_string()).collect();
        assert_eq!(ours, std_parts);
    }
    assert_eq!(TIME_FORMAT_ERROR, "Time string must be in format bar.beat.16th");
}

#[test]
fn encoder_progress_lines() {
    assert_eq!(progress_frame("frame=123"), Some(123));
    assert_eq!(progress_frame("frame=  +42 fps=3"), Some(42));
    assert_eq!(progress_frame("frame=abc"), None);
    assert_eq!(progress_frame("frame=-1"), None);
    assert_eq!(progress_frame("frame=4294967295"), Some(u32::MAX));
    assert_eq!(progress_frame("frame=4294967296"), None);
    assert_eq!(progress_frame("fps=30"), None);
    assert_eq!(progress_frame("fram"), None);
}

#[test]
fn encoder_error_lines() {
    assert_eq!(classify_stderr_line("[warning] deprecated"), StderrLine::Warning);
    assert_eq!(classify_stderr_line("fatal: cannot open"), StderrLine::Error);
    assert_eq!(classify_stderr_line("warning and fatal"), StderrLine::Warning);
    assert_eq!(classify_stderr_line("frame=1"), StderrLine::Other);
}

#[test]
fn sample_window_keeps_latest() {
    let mut w: SampleWindow<f32> = SampleWindow::new(4);
    w.add_samples(&[1.0, 2.0, 3.0]);
    assert_eq!(w.samples(), &vec![1.0, 2.0, 3.0]);
    w.add_samples(&[4.0, 5.0]);
    assert_eq!(w.samples(), &vec![2.0, 3.0, 4.0, 5.0]);
    w.add_samples(&[6.0, 7.0, 8.0, 9.0, 10.0]);
    assert_eq!(w.samples(), &vec![7.0, 8.0, 9.0, 10.0]);
    let mut zero: SampleWindow<f32> = SampleWindow::new(0);
    zero.add_samples(&[1.0]);
    assert!(zero.samples().is_empty());
}

#[test]
fn applying_stored_values_twice_changes_nothing() {
    let mut c = Controls::new(vec![
        Control::checkbox("a", false),
        Control::select("s", "x", vec!["x".to_string(), "y".to_string()]),
    ]);
    let stored = vec![
        ("a".to_string(), ControlValue::Bool(true)),
        ("s".to_string(), ControlValue::String("y".to_string())),
        ("a".to_string(), ControlValue::Bool(false)),
    ];
    c.apply_stored(stored.clone());
    let once = format!("{:?}", c.values());
    assert!(!c.bool("a"));
    assert_eq!(c.string("s"), "y");
    c.apply_stored(stored);
    assert_eq!(format!("{:?}", c.values()), once);
}

#[test]
fn sample_window_batches_match_one_batch() {
    let mut split: SampleWindow<i32> = SampleWindow::new(3);
    split.add_samples(&[1, 2]);
    split.add_samples(&[3, 4]);
    let mut whole: SampleWindow<i32> = SampleWindow::new(3);
    whole.add_samples(&[1, 2, 3, 4]);
    assert_eq!(split.samples(), whole.samples());
    assert_eq!(whole.samples(), &vec![2, 3, 4]);
}

#[test]
fn image_index_entries_and_document() {
    assert_eq!(
        index_entry("a.png", b"hi"),
        "## a.png\n<img alt=\"a.png\" width=\"500\" src=\"data:image/png;base64,aGk=\">\n\n"
    );
    assert_eq!(
        index_entry("b.gif", b""),
        "## b.gif\n<img alt=\"b.gif\" width=\"500\" src=\"data:image/png;base64,\">\n\n"
    );
    assert_eq!(index_entry_for_image("bad.png", b"not an image"), None);

    let img = image::RgbImage::from_pixel(2, 3, image::Rgb([10, 20, 30]));
    let mut png = Vec::new();
    image::DynamicImage::ImageRgb8(img)
        .write_to(&mut std::io::Cursor::new(&mut png), image::ImageFormat::Png)
        .unwrap();
    let entry = index_entry_for_image("tiny.png", &png).unwrap();
    assert!(entry.starts_with("## tiny.png\n<img alt=\"tiny.png\" width=\"500\" src=\"data:image/png;base64,iVBORw0KGgo"));
    assert!(entry.ends_with("\">\n\n"));

    let doc = index_markdown(&vec!["one\n".to_string(), "two\n".to_string()]);
    assert_eq!(doc, "Files sorted from most to least recent\n\none\ntwo\n");
    assert_eq!(index_markdown(&Vec::new()), "Files sorted from most to least recent\n\n");
}

#[test]
fn base64_groups_and_padding() {
    let prefix = "## f\n<img alt=\"f\" width=\"500\" src=\"data:image/png;base64,";
    let cases: [(&[u8], &str); 5] = [
        (b"hello", "aGVsbG8="),
        (b"abc", "YWJj"),
        (&[0xff, 0xfe, 0xfd], "//79"),
        (b"a", "YQ=="),
        (b"abcd", "YWJjZA=="),
    ];
    for (bytes, encoded) in cases {
        assert_eq!(index_entry("f", bytes), format!("{}{}\">\n\n", prefix, encoded));
    }
}

#[test]
fn thumbnails_follow_the_extension() {
    let img = image::RgbImage::from_pixel(4, 4, image::Rgb([200, 100, 0]));
    let mut png = Vec::new();
    image::DynamicImage::ImageRgb8(img)
        .write_to(&mut std::io::Cursor::new(&mut png), image::ImageFormat::Png)
        .unwrap();
    assert!(index_entry_for_image("upper.PNG", &png).is_some());
    assert_eq!(index_entry_for_image("noext", &png), None);
    assert_eq!(index_entry_for_image("mislabelled.jpg", &png), None);
}
