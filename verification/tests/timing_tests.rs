use lattice::timing::{
    transport_message, SongPosition, TransportMessage, CLOCK, CONTINUE, SONG_POSITION, START,
    STOP, TICKS_PER_QUARTER_NOTE,
};

fn beats(p: &SongPosition) -> f32 {
    p.song_position as f32 / TICKS_PER_QUARTER_NOTE as f32 + p.clock_count as f32 / 24.0
}

#[test]
fn test_midi_timing_beats() {
    // Song position pointer for bar 44: 44 bars of 16 sixteenths.
    let sixteenths: u32 = 44 * 16;
    let mut p = SongPosition::new();
    p.on_message(&[SONG_POSITION, (sixteenths & 0x7f) as u8, (sixteenths >> 7) as u8]);
    assert_eq!(p.song_position, 44 * 4 * TICKS_PER_QUARTER_NOTE);
    // Each bar is 4 beats, so bar 44 starts at beat 176
    assert_eq!(beats(&p), 176.0);
}

#[test]
fn clock_pulses_advance_and_start_rewinds() {
    let mut p = SongPosition::new();
    for _ in 0..12 {
        p.on_message(&[CLOCK]);
    }
    assert_eq!(p.clock_count, 12);
    assert_eq!(beats(&p), 0.5);
    assert_eq!(p.position_in_ticks(), 480);
    p.on_message(&[STOP]);
    assert_eq!(p.clock_count, 12);
    p.on_message(&[START]);
    assert_eq!(p.clock_count, 0);
    p.on_message(&[]);
    assert_eq!(p.clock_count, 0);
}

#[test]
fn pointer_restarts_clock_count() {
    let mut p = SongPosition::new();
    p.on_message(&[CLOCK]);
    p.on_message(&[SONG_POSITION, 4, 0]);
    assert_eq!(p.clock_count, 0);
    assert_eq!(p.song_position, 960);
    // data bytes are combined bitwise
    p.on_message(&[SONG_POSITION, 0x7f, 0x01]);
    assert_eq!(p.song_position, 255 * 240);
}

#[test]
fn clock_count_wraps() {
    let mut p = SongPosition { clock_count: u32::MAX, song_position: 0 };
    p.on_message(&[CLOCK]);
    assert_eq!(p.clock_count, 0);
}

#[test]
fn transport_messages() {
    assert_eq!(transport_message(&[START]), Some(TransportMessage::Start));
    assert_eq!(transport_message(&[CONTINUE]), Some(TransportMessage::Continue));
    assert_eq!(transport_message(&[STOP, 1]), Some(TransportMessage::Stop));
    assert_eq!(transport_message(&[CLOCK]), None);
}
