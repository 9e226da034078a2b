use lattice::midi_controls::{
    MidiControlBuilder, MidiControlConfig, MidiControls, MidiState, UNIT_MAX_BITS,
};

#[test]
fn state_reads_zero_until_set() {
    let mut s = MidiState::new();
    assert_eq!(s.get("a"), 0);
    assert!(!s.has("a"));
    s.set("a", 7);
    assert_eq!(s.get("a"), 7);
    s.set("a", 9);
    assert_eq!(s.get("a"), 9);
    assert_eq!(s.values().len(), 1);
}

#[test]
fn add_sets_default_and_config() {
    let mut m = MidiControls::new();
    m.add("cutoff", MidiControlConfig::new((2, 74), (0, 100), 5));
    assert_eq!(m.get("cutoff"), 5);
    assert!(m.has("cutoff"));
    assert_eq!(m.configs().len(), 1);
    m.update_value("cutoff", 11);
    assert_eq!(m.get("cutoff"), 11);
    m.set("cutoff", 12);
    assert_eq!(m.values()[0].1, 12);
    assert!(!m.is_active());
    m.set_active(true);
    assert!(m.is_active());
}

#[test]
fn messages_address_by_channel_and_controller() {
    let mut m = MidiControls::new();
    m.add("a", MidiControlConfig::new((0, 1), (0, 1), 0));
    m.add("b", MidiControlConfig::new((1, 1), (0, 1), 0));
    m.add("c", MidiControlConfig::new((0, 2), (0, 1), 0));
    m.add("d", MidiControlConfig::new((0, 1), (0, 1), 0));
    // control change on channel 0, controller 1
    assert_eq!(m.addressed_controls(&[176, 1, 64]), vec!["a".to_string(), "d".to_string()]);
    // status high nibble is ignored, channel 1
    assert_eq!(m.addressed_controls(&[0x91, 1, 64]), vec!["b".to_string()]);
    // too short
    assert!(m.addressed_controls(&[176, 1]).is_empty());
}

#[test]
fn message_parts_carry_status_and_controller() {
    let mut m = MidiControls::new();
    m.add("x", MidiControlConfig::new((3, 20), (1, 2), 42));
    let parts = m.message_parts();
    assert_eq!(parts, vec![(179, 20, 42, 1, 2)]);
}

#[test]
fn builder_collects_controls() {
    let m = MidiControlBuilder::new()
        .control("a", (0, 1), (0.0f32.to_bits(), 10.0f32.to_bits()), 5.0f32.to_bits())
        .control_n("b", (0, 2), 0.5f32.to_bits())
        .build();
    assert_eq!(f32::from_bits(m.get("a")), 5.0);
    assert_eq!(f32::from_bits(m.get("b")), 0.5);
    assert_eq!(f32::from_bits(UNIT_MAX_BITS), 1.0);
    let b = m.configs().iter().find(|(n, _)| n == "b").unwrap().1;
    assert_eq!((b.min, b.max), (0, UNIT_MAX_BITS));
}
