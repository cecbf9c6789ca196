use autoshooter::geom::Vec2i;
use autoshooter::spawn::{generate_spawn_position, MIN_SPAWN_DISTANCE};

fn in_spawning_rect(p: Vec2i) -> bool {
    -608000 <= p.x && p.x < 608000 && -448000 <= p.y && p.y < 448000
}

fn outside_safe_square(player: Vec2i, p: Vec2i) -> bool {
    p.x < player.x - MIN_SPAWN_DISTANCE || p.x >= player.x + MIN_SPAWN_DISTANCE
        || p.y < player.y - MIN_SPAWN_DISTANCE || p.y >= player.y + MIN_SPAWN_DISTANCE
}

#[test]
fn spawns_land_in_arena_but_not_near_centered_player() {
    let player = Vec2i::new(0, 0);
    for _ in 0..200 {
        let p = generate_spawn_position(player);
        assert!(in_spawning_rect(p));
        assert!(outside_safe_square(player, p));
    }
}

#[test]
fn spawns_respect_player_in_a_corner() {
    // With the player against the arena corner, the safe square is clipped
    // by the arena; spawns must still avoid what remains of it.
    let player = Vec2i::new(-640000, -480000);
    for _ in 0..200 {
        let p = generate_spawn_position(player);
        assert!(in_spawning_rect(p));
        assert!(outside_safe_square(player, p));
    }
}

#[test]
fn spawns_respect_player_off_center() {
    let player = Vec2i::new(300000, -100000);
    for _ in 0..200 {
        let p = generate_spawn_position(player);
        assert!(in_spawning_rect(p));
        assert!(outside_safe_square(player, p));
    }
}
