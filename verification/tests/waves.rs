use autoshooter::geom::Vec2i;
use autoshooter::enemy::update_spawning;
use autoshooter::wave::{WaveManager, WaveState, SPAWN_RATE_MS, WAVE_DURATION_MS};

#[test]
fn fresh_manager_runs_wave_one() {
    let wm = WaveManager::default();
    assert_eq!(wm.wave, 1);
    assert_eq!(wm.wave_state, WaveState::Running);
    assert_eq!(wm.wave_timer.duration_ms, WAVE_DURATION_MS);
    assert_eq!(wm.enemy_spawn_timer.duration_ms, SPAWN_RATE_MS);
}

#[test]
fn wave_ends_when_timer_runs_out() {
    let mut wm = WaveManager::default();
    assert!(!wm.update_wave_timer(29999));
    assert_eq!(wm.wave_state, WaveState::Running);
    assert!(wm.update_wave_timer(1));
    assert_eq!(wm.wave_state, WaveState::Ended);
    // Between waves the clock stands still.
    assert!(!wm.update_wave_timer(10000));
    assert_eq!(wm.wave_state, WaveState::Ended);
}

#[test]
fn confirm_starts_next_wave_only_between_waves() {
    let mut wm = WaveManager::default();
    assert!(!wm.handle_wave_input(true));
    assert_eq!(wm.wave, 1);
    wm.update_wave_timer(WAVE_DURATION_MS);
    assert!(!wm.handle_wave_input(false));
    assert_eq!(wm.wave_state, WaveState::Ended);
    assert!(wm.handle_wave_input(true));
    assert_eq!(wm.wave, 2);
    assert_eq!(wm.wave_state, WaveState::Running);
    assert_eq!(wm.wave_timer.elapsed_ms, 0);
    assert_eq!(wm.enemy_spawn_timer.elapsed_ms, 0);
}

#[test]
fn spawn_period_speeds_up_with_waves() {
    assert_eq!(WaveManager::spawn_period_ms(1), 500);
    assert_eq!(WaveManager::spawn_period_ms(2), 250);
    assert_eq!(WaveManager::spawn_period_ms(50), 10);
    // The period never drops below the floor.
    assert_eq!(WaveManager::spawn_period_ms(100), 10);
}

#[test]
fn spawn_clock_announces_enemies() {
    let mut wm = WaveManager::default();
    let player = Vec2i::new(0, 0);
    assert!(update_spawning(&mut wm, player, 499).is_none());
    let spawned = update_spawning(&mut wm, player, 1);
    assert!(spawned.is_some());
    // The period was retuned for wave 1: still the base rate.
    assert_eq!(wm.enemy_spawn_timer.duration_ms, 500);
}

#[test]
fn spawn_clock_retunes_for_later_waves() {
    let mut wm = WaveManager::default();
    wm.update_wave_timer(WAVE_DURATION_MS);
    wm.handle_wave_input(true);
    wm.update_wave_timer(WAVE_DURATION_MS);
    wm.handle_wave_input(true);
    assert_eq!(wm.wave, 3);
    let player = Vec2i::new(0, 0);
    let spawned = update_spawning(&mut wm, player, 500);
    assert!(spawned.is_some());
    // 500 ms / wave 3, floored.
    assert_eq!(wm.enemy_spawn_timer.duration_ms, 166);
}
