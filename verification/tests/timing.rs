use realtime_render::timing::FrameTimer;

#[test]
fn first_update_measures_nothing() {
    let mut t = FrameTimer::new();
    assert_eq!(t.update(5_000), 0);
}

#[test]
fn updates_measure_time_since_previous() {
    let mut t = FrameTimer::new();
    assert_eq!(t.update(1_000), 0);
    assert_eq!(t.update(17_000), 16_000);
    assert_eq!(t.update(50_000), 33_000);
}

#[test]
fn resume_restarts_measurement() {
    let mut t = FrameTimer::new();
    t.on_resume(100);
    assert_eq!(t.update(160), 60);
    t.on_resume(1_000);
    assert_eq!(t.update(1_010), 10);
}

#[test]
fn clock_going_back_measures_zero() {
    let mut t = FrameTimer::new();
    t.on_resume(900);
    assert_eq!(t.update(400), 0);
    assert_eq!(t.update(500), 100);
}
