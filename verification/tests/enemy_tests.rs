use autoshooter::components::{Health, ENEMY_DAMAGE, ENEMY_HEALTH};
use autoshooter::enemy::{
    check_if_dead, move_enemies, new_spawning, spawned_enemy, update_move, update_spawned,
};
use autoshooter::game::out_of_bounds;
use autoshooter::geom::Vec2i;
use autoshooter::wave::ENEMY_SPAWN_TIME_MS;

#[test]
fn warning_marker_counts_down_to_an_enemy() {
    let mut s = new_spawning();
    assert_eq!(s.timer.duration_ms, ENEMY_SPAWN_TIME_MS);
    assert!(!update_spawned(&mut s, 1999));
    assert!(update_spawned(&mut s, 1));
    let (enemy, health) = spawned_enemy();
    assert_eq!(enemy.damage, ENEMY_DAMAGE);
    assert_eq!(health.value, ENEMY_HEALTH);
}

#[test]
fn enemies_walk_straight_at_the_player() {
    // The player stands 500 units away along a 3-4-5 triangle; one second
    // of walking covers 80000 units, so the enemy reaches far past and the
    // step is the full direction rescaled.
    let p = update_move(Vec2i::new(0, 0), Vec2i::new(300, 400), 1000);
    assert_eq!(p, Vec2i::new(48000, 64000));
    // A 16 ms frame covers 1280 units.
    let q = update_move(Vec2i::new(0, 0), Vec2i::new(30000, 40000), 16);
    assert_eq!(q, Vec2i::new(768, 1024));
    // Nothing moves in a zero-length frame, nor an enemy standing on the
    // player.
    assert_eq!(update_move(Vec2i::new(5, 5), Vec2i::new(5, 5), 16), Vec2i::new(5, 5));
    assert_eq!(update_move(Vec2i::new(7, 7), Vec2i::new(0, 0), 0), Vec2i::new(7, 7));
}

#[test]
fn dead_enemies_are_flagged() {
    let healths = vec![
        Health { value: 0, max: 4000 },
        Health { value: 1, max: 4000 },
        Health { value: -5, max: 4000 },
    ];
    assert_eq!(check_if_dead(&healths), vec![true, false, true]);
}

#[test]
fn bounds_check_uses_the_margin() {
    assert!(!out_of_bounds(Vec2i::new(0, 0)));
    assert!(!out_of_bounds(Vec2i::new(672000, 512000)));
    assert!(out_of_bounds(Vec2i::new(672001, 0)));
    assert!(out_of_bounds(Vec2i::new(0, -512001)));
    assert!(out_of_bounds(Vec2i::new(-672001, 0)));
}

#[test]
fn the_whole_pack_walks_together() {
    let mut pack = vec![Vec2i::new(0, 0), Vec2i::new(30000, 40000)];
    move_enemies(&mut pack, Vec2i::new(30000, 40000), 16);
    assert_eq!(pack[0], Vec2i::new(768, 1024));
    // An enemy standing on the player stays put.
    assert_eq!(pack[1], Vec2i::new(30000, 40000));
}
