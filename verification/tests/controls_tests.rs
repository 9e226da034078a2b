use lattice::controls::{Control, ControlValue, Controls};

fn sample_controls() -> Controls {
    Controls::new(vec![
        Control::slider("radius", 0.5f32.to_bits(), (0.0f32.to_bits(), 1.0f32.to_bits()), 0.01f32.to_bits()),
        Control::checkbox("invert", true),
        Control::select("mode", "a", vec!["a".to_string(), "b".to_string()]),
        Control::separator(),
        Control::button("go"),
    ])
}

#[test]
fn initial_values_come_from_the_configuration() {
    let c = sample_controls();
    assert_eq!(f32::from_bits(c.float("radius")), 0.5);
    assert!(c.bool("invert"));
    assert_eq!(c.string("mode"), "a");
    assert!(!c.bool("go"));
    assert!(c.has(""));
    assert!(!c.has("missing"));
    // one entry per name, the separator's name being empty
    assert_eq!(c.values().len(), 5);
    assert_eq!(c.get_controls().len(), 5);
}

#[test]
fn update_then_read() {
    let mut c = sample_controls();
    c.update_value("radius", ControlValue::Float(0.25f32.to_bits()));
    assert_eq!(f32::from_bits(c.float("radius")), 0.25);
    c.update_value("mode", ControlValue::String("b".to_string()));
    assert_eq!(c.string("mode"), "b");
    c.update_value("extra", ControlValue::Bool(true));
    assert!(c.bool("extra"));
    assert!(c.bool("invert"));
    assert_eq!(c.values().len(), 6);
}

#[test]
fn later_namesake_wins_in_initial_values() {
    let c = Controls::new(vec![Control::checkbox("x", true), Control::checkbox("x", false)]);
    assert!(!c.bool("x"));
    assert_eq!(c.values().len(), 1);
}

#[test]
fn original_config_and_slider_range() {
    let c = sample_controls();
    match c.get_original_config("mode") {
        Some(Control::Select { options, .. }) => assert_eq!(options.len(), 2),
        _ => panic!("expected the select"),
    }
    assert!(c.get_original_config("nope").is_none());
    let (min, max) = c.slider_range("radius");
    assert_eq!((f32::from_bits(min), f32::from_bits(max)), (0.0, 1.0));
}

#[test]
fn control_name_and_value() {
    let s = Control::select("pattern", "cos,sin", vec![]);
    assert_eq!(s.name(), "pattern");
    match s.value() {
        ControlValue::String(v) => assert_eq!(v, "cos,sin"),
        _ => panic!("expected a string"),
    }
    assert_eq!(Control::separator().name(), "");
    match Control::button("b").value() {
        ControlValue::Bool(v) => assert!(!v),
        _ => panic!("expected a bool"),
    }
}
