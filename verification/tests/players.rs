use autoshooter::geom::Vec2i;
use autoshooter::player::{
    get_direction, get_animation_indices, get_gamepad_movement, handle_enemy_death,
    update_position, Direction, PlayerAction, PlayerExperience,
};
use autoshooter::upgrades::PlayerStats;

#[test]
fn experience_starts_at_level_one() {
    let xp = PlayerExperience::default();
    assert_eq!(xp.value, 0);
    assert_eq!(xp.level, 1);
    assert_eq!(xp.new_levels, 0);
}

#[test]
fn ten_kills_reach_level_two() {
    let mut xp = PlayerExperience::default();
    let mut stats = PlayerStats::default();
    for _ in 0..9 {
        assert!(!handle_enemy_death(&mut xp, &mut stats));
    }
    assert_eq!(xp.value, 9);
    assert_eq!(xp.level, 1);
    assert!(handle_enemy_death(&mut xp, &mut stats));
    assert_eq!(xp.value, 10);
    assert_eq!(xp.level, 2);
    assert_eq!(xp.new_levels, 1);
    // Each level-up raises the health maximum by ten hit points.
    assert_eq!(stats.max_health, 110000);
}

#[test]
fn directions_cover_the_compass() {
    assert_eq!(get_direction(Vec2i::new(0, 0)), None);
    assert_eq!(get_direction(Vec2i::new(0, -1000)), Some(Direction::SOUTH));
    assert_eq!(get_direction(Vec2i::new(1000, -1000)), Some(Direction::SOUTHEAST));
    assert_eq!(get_direction(Vec2i::new(1000, 0)), Some(Direction::EAST));
    assert_eq!(get_direction(Vec2i::new(1000, 1000)), Some(Direction::NORTHEAST));
    assert_eq!(get_direction(Vec2i::new(0, 1000)), Some(Direction::NORTH));
    assert_eq!(get_direction(Vec2i::new(-1000, 1000)), Some(Direction::NORTHWEST));
    assert_eq!(get_direction(Vec2i::new(-1000, 0)), Some(Direction::WEST));
    assert_eq!(get_direction(Vec2i::new(-1000, -1000)), Some(Direction::SOUTHWEST));
    // Inside the dead band no direction is named.
    assert_eq!(get_direction(Vec2i::new(300, 300)), None);
}

#[test]
fn stick_beats_dpad_outside_dead_zone() {
    let stick = Vec2i::new(400, 300);
    let dpad = Vec2i::new(0, 1000);
    assert_eq!(get_gamepad_movement(stick, dpad), stick);
    // A stick inside the dead zone yields to the pad, normalized to full
    // tilt.
    let idle_stick = Vec2i::new(100, 50);
    assert_eq!(get_gamepad_movement(idle_stick, dpad), Vec2i::new(0, 1000));
    assert_eq!(
        get_gamepad_movement(idle_stick, Vec2i::new(0, 0)),
        Vec2i::new(0, 0)
    );
}

#[test]
fn walking_east_for_one_frame() {
    let stats = PlayerStats::default();
    let (pos, action, dir) = update_position(
        false,
        false,
        false,
        true,
        Vec2i::new(0, 0),
        Vec2i::new(0, 0),
        &stats,
        16,
    );
    // 200000 units per second for 16 ms is 3200 units.
    assert_eq!(pos, Vec2i::new(3200, 0));
    assert_eq!(action, PlayerAction::WALKING);
    assert_eq!(dir, Some(Direction::EAST));
}

#[test]
fn opposite_keys_cancel() {
    let stats = PlayerStats::default();
    let (pos, action, dir) = update_position(
        true,
        true,
        false,
        false,
        Vec2i::new(0, 0),
        Vec2i::new(100, 200),
        &stats,
        16,
    );
    assert_eq!(pos, Vec2i::new(100, 200));
    assert_eq!(action, PlayerAction::IDLE);
    assert_eq!(dir, None);
}

#[test]
fn movement_is_clamped_to_the_arena() {
    let stats = PlayerStats::default();
    let (pos, _, _) = update_position(
        false,
        false,
        false,
        true,
        Vec2i::new(0, 0),
        Vec2i::new(639000, 0),
        &stats,
        1000,
    );
    assert_eq!(pos, Vec2i::new(640000, 0));
}

#[test]
fn diagonal_movement_is_normalized() {
    let stats = PlayerStats::default();
    let (pos, _, _) = update_position(
        true,
        false,
        false,
        true,
        Vec2i::new(0, 0),
        Vec2i::new(0, 0),
        &stats,
        16,
    );
    // The (1000, 1000) input is rescaled to length 3200: 3200 * 1000 / 1414
    // on each axis.
    assert_eq!(pos, Vec2i::new(2263, 2263));
}

#[test]
fn animation_rows_by_direction() {
    let idle = PlayerAction::IDLE;
    let south = get_animation_indices(&idle, &Direction::SOUTH);
    assert_eq!((south.first, south.last), (0, 7));
    let west = get_animation_indices(&idle, &Direction::WEST);
    assert_eq!((west.first, west.last), (8, 15));
    let north = get_animation_indices(&idle, &Direction::NORTH);
    assert_eq!((north.first, north.last), (24, 31));
    let east = get_animation_indices(&PlayerAction::WALKING, &Direction::EAST);
    assert_eq!((east.first, east.last), (40, 47));
}
