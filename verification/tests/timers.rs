use autoshooter::timer::Timer;

#[test]
fn one_shot_timer_finishes_and_saturates() {
    let mut t = Timer::new(1000, false);
    t.tick(400);
    assert!(!t.is_finished());
    assert_eq!(t.elapsed_ms, 400);
    assert_eq!(t.remaining_ms(), 600);
    t.tick(600);
    assert!(t.is_finished());
    assert_eq!(t.elapsed_ms, 1000);
    t.tick(500);
    assert!(t.is_finished());
    assert_eq!(t.elapsed_ms, 1000);
}

#[test]
fn repeating_timer_wraps() {
    let mut t = Timer::new(500, true);
    t.tick(499);
    assert!(!t.is_finished());
    t.tick(701);
    // 1200 total: crossed the duration, wrapped to 200.
    assert!(t.is_finished());
    assert_eq!(t.elapsed_ms, 200);
    t.tick(100);
    assert!(!t.is_finished());
    assert_eq!(t.elapsed_ms, 300);
}

#[test]
fn reset_rewinds() {
    let mut t = Timer::new(1000, false);
    t.tick(1500);
    assert!(t.is_finished());
    t.reset();
    assert!(!t.is_finished());
    assert_eq!(t.elapsed_ms, 0);
}

#[test]
fn set_duration_clamps_elapsed() {
    let mut t = Timer::new(1000, false);
    t.tick(800);
    t.set_duration(500);
    assert_eq!(t.duration_ms, 500);
    assert_eq!(t.elapsed_ms, 500);

    let mut r = Timer::new(1000, true);
    r.tick(800);
    r.set_duration(500);
    assert_eq!(r.elapsed_ms, 499);
}
