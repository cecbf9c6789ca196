use autoshooter::collision::{
    check_bullet_enemy_collision, check_player_enemy_collision,
};
use autoshooter::components::{Enemy, Health};
use autoshooter::geom::Vec2i;

#[test]
fn bullet_strikes_first_enemy_in_listing_order() {
    let bullets = vec![Vec2i::new(0, 0)];
    let damages = vec![1000u64];
    let enemy_pos = vec![Vec2i::new(19999, 0), Vec2i::new(100, 0)];
    let mut healths = vec![
        Health { value: 4000, max: 4000 },
        Health { value: 4000, max: 4000 },
    ];
    let consumed = check_bullet_enemy_collision(&bullets, &damages, &enemy_pos, &mut healths);
    assert_eq!(consumed, vec![true]);
    // The first listed enemy within the radius takes the hit.
    assert_eq!(healths[0].value, 3000);
    assert_eq!(healths[1].value, 4000);
}

#[test]
fn bullet_misses_distant_enemies() {
    let bullets = vec![Vec2i::new(0, 0)];
    let damages = vec![1000u64];
    let enemy_pos = vec![Vec2i::new(20000, 0)];
    let mut healths = vec![Health { value: 4000, max: 4000 }];
    let consumed = check_bullet_enemy_collision(&bullets, &damages, &enemy_pos, &mut healths);
    // The collision radius is strict: exactly 20000 away is a miss.
    assert_eq!(consumed, vec![false]);
    assert_eq!(healths[0].value, 4000);
}

#[test]
fn enemy_health_saturates_at_zero() {
    let bullets = vec![Vec2i::new(0, 0), Vec2i::new(0, 0), Vec2i::new(0, 0)];
    let damages = vec![3000u64, 3000, 3000];
    let enemy_pos = vec![Vec2i::new(0, 0)];
    let mut healths = vec![Health { value: 4000, max: 4000 }];
    let consumed = check_bullet_enemy_collision(&bullets, &damages, &enemy_pos, &mut healths);
    assert_eq!(consumed, vec![true, true, true]);
    assert_eq!(healths[0].value, 0);
    assert_eq!(healths[0].max, 4000);
}

#[test]
fn contact_damage_scales_with_frame_time() {
    let enemy_pos = vec![Vec2i::new(34000, 0), Vec2i::new(40000, 0)];
    let enemies = vec![Enemy { damage: 10000 }, Enemy { damage: 10000 }];
    let mut health = Health { value: 100000, max: 100000 };
    // Only the first enemy is in contact; 10000 per second for 16 ms is 160.
    let taken = check_player_enemy_collision(
        Vec2i::new(0, 0),
        &enemy_pos,
        &enemies,
        &mut health,
        16,
    );
    assert_eq!(taken, 160);
    assert_eq!(health.value, 99840);
    assert_eq!(health.max, 100000);
}

#[test]
fn contact_damage_can_drop_health_below_zero() {
    let enemy_pos = vec![Vec2i::new(0, 0)];
    let enemies = vec![Enemy { damage: 10000 }];
    let mut health = Health { value: 5, max: 100000 };
    let taken = check_player_enemy_collision(
        Vec2i::new(0, 0),
        &enemy_pos,
        &enemies,
        &mut health,
        1000,
    );
    assert_eq!(taken, 10000);
    assert_eq!(health.value, -9995);
}
