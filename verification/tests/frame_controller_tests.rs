use lattice::frame_controller::FrameController;

const MS: u64 = 1_000_000;

#[test]
fn frames_elapse_with_time() {
    // 25 fps: 40 ms frames
    let mut c = FrameController::new(40 * MS, 0);
    c.update(20 * MS);
    assert!(!c.should_render());
    assert_eq!(c.frame_count(), 0);
    c.update(40 * MS);
    assert!(c.should_render());
    assert_eq!(c.frame_count(), 1);
    // three frames at once
    c.update(160 * MS);
    assert_eq!(c.frame_count(), 4);
    assert!(c.should_render());
    // same instant again: nothing
    c.update(160 * MS);
    assert!(!c.should_render());
    assert_eq!(c.frame_count(), 4);
}

#[test]
fn carried_time_below_a_millisecond_is_dropped() {
    let mut c = FrameController::new(40 * MS, 0);
    c.update(40 * MS + MS / 2);
    assert_eq!(c.frame_count(), 1);
    // the half millisecond was dropped, so 39.9 ms later no frame elapses
    c.update(80 * MS + MS / 2 - 1);
    assert_eq!(c.frame_count(), 1);
    c.update(80 * MS + MS / 2);
    assert_eq!(c.frame_count(), 2);
}

#[test]
fn paused_controller_does_not_render() {
    let mut c = FrameController::new(10 * MS, 0);
    c.set_paused(true);
    assert!(c.is_paused());
    c.update(10 * MS);
    assert!(!c.should_render());
    assert_eq!(c.frame_count(), 1);
    c.set_paused(false);
    assert!(c.should_render());
}

#[test]
fn reset_and_set_frame_count() {
    let mut c = FrameController::new(10 * MS, 0);
    c.update(50 * MS);
    assert_eq!(c.frame_count(), 5);
    c.reset_frame_count();
    assert_eq!(c.frame_count(), 0);
    c.set_frame_count(99);
    assert_eq!(c.frame_count(), 99);
}

#[test]
fn average_render_interval() {
    let mut c = FrameController::new(10 * MS, 0);
    assert_eq!(c.average_interval(), None);
    c.update(10 * MS);
    c.update(30 * MS);
    c.update(35 * MS);
    c.update(60 * MS);
    // renders at 10, 30 and 60 ms
    assert_eq!(c.average_interval(), Some(20 * MS));
    let fps = 1.0 / std::time::Duration::from_nanos(c.average_interval().unwrap()).as_secs_f32();
    assert!((fps - 50.0).abs() < 0.01);
}

#[test]
fn at_most_ninety_intervals_are_kept() {
    let mut c = FrameController::new(MS, 0);
    for i in 1..=100u64 {
        c.update(i * 2 * MS + i);
    }
    // the last 90 intervals are 2 ms and 1 ns each
    assert_eq!(c.average_interval(), Some(2 * MS + 1));
}

#[test]
fn frame_count_wraps() {
    let mut c = FrameController::new(MS, 0);
    c.set_frame_count(u32::MAX);
    c.update(2 * MS);
    assert_eq!(c.frame_count(), 1);
}

#[test]
fn frame_duration_change_counts_carried_time() {
    let mut c = FrameController::new(40 * MS, 0);
    c.update(30 * MS);
    assert_eq!(c.frame_count(), 0);
    c.set_frame_duration(20 * MS);
    c.update(30 * MS);
    assert_eq!(c.frame_count(), 1);
    assert!(c.should_render());
    c.update(40 * MS);
    assert_eq!(c.frame_count(), 2);
}

#[test]
fn time_is_not_lost_across_updates() {
    let mut c = FrameController::new(40 * MS, 0);
    c.update(100 * MS);
    assert_eq!(c.frame_count(), 2);
    c.update(140 * MS);
    assert_eq!(c.frame_count(), 3);
    c.update(160 * MS);
    assert_eq!(c.frame_count(), 4);
}
