use autoshooter::geom::{clamp_i64, isqrt, max_i64, min_i64, Recti, Vec2i};

#[test]
fn dist_sq_is_exact() {
    let a = Vec2i::new(3, 4);
    let b = Vec2i::new(0, 0);
    assert_eq!(a.dist_sq(&b), 25);
    let c = Vec2i::new(-3, -4);
    assert_eq!(c.dist_sq(&b), 25);
    assert_eq!(a.dist_sq(&a), 0);
}

#[test]
fn from_corners_orders_each_axis() {
    let r = Recti::from_corners(Vec2i::new(5, -2), Vec2i::new(-3, 7));
    assert_eq!(r.min, Vec2i::new(-3, -2));
    assert_eq!(r.max, Vec2i::new(5, 7));
    assert_eq!(r.width(), 8);
    assert_eq!(r.height(), 9);
    assert_eq!(r.area(), 72);
}

#[test]
fn intersect_overlapping() {
    let a = Recti::from_corners(Vec2i::new(0, 0), Vec2i::new(10, 10));
    let b = Recti::from_corners(Vec2i::new(5, -5), Vec2i::new(15, 5));
    let i = a.intersect(&b);
    assert_eq!(i.min, Vec2i::new(5, 0));
    assert_eq!(i.max, Vec2i::new(10, 5));
}

#[test]
fn intersect_disjoint_collapses() {
    let a = Recti::from_corners(Vec2i::new(0, 0), Vec2i::new(10, 10));
    let b = Recti::from_corners(Vec2i::new(20, 20), Vec2i::new(30, 30));
    let i = a.intersect(&b);
    assert!(i.min.x <= i.max.x && i.min.y <= i.max.y);
    assert_eq!(i.area(), 0);
}

#[test]
fn contains_is_inclusive() {
    let r = Recti::from_corners(Vec2i::new(0, 0), Vec2i::new(10, 10));
    assert!(r.contains(Vec2i::new(0, 0)));
    assert!(r.contains(Vec2i::new(10, 10)));
    assert!(r.contains(Vec2i::new(5, 5)));
    assert!(!r.contains(Vec2i::new(11, 5)));
    assert!(!r.contains(Vec2i::new(5, -1)));
}

#[test]
fn isqrt_exact_values() {
    assert_eq!(isqrt(0), 0);
    assert_eq!(isqrt(1), 1);
    assert_eq!(isqrt(15), 3);
    assert_eq!(isqrt(16), 4);
    assert_eq!(isqrt(24), 4);
    assert_eq!(isqrt(25), 5);
    assert_eq!(isqrt(1000000), 1000);
    assert_eq!(isqrt(u64::MAX), 4294967295);
}

#[test]
fn scaled_to_rescales_vectors() {
    let v = Vec2i::new(3, 4);
    assert_eq!(v.scaled_to(10), Vec2i::new(6, 8));
    let w = Vec2i::new(-3, 4);
    assert_eq!(w.scaled_to(10), Vec2i::new(-6, 8));
    let z = Vec2i::new(0, 0);
    assert_eq!(z.scaled_to(10), Vec2i::new(0, 0));
    let e = Vec2i::new(1000, 0);
    assert_eq!(e.scaled_to(250), Vec2i::new(250, 0));
}

#[test]
fn min_max_clamp() {
    assert_eq!(min_i64(3, -2), -2);
    assert_eq!(max_i64(3, -2), 3);
    assert_eq!(clamp_i64(5, 0, 10), 5);
    assert_eq!(clamp_i64(-5, 0, 10), 0);
    assert_eq!(clamp_i64(15, 0, 10), 10);
}

#[test]
fn arena_and_tile_units() {
    let area = autoshooter::game_area();
    assert_eq!(area.min, Vec2i::new(-640000, -480000));
    assert_eq!(area.max, Vec2i::new(640000, 480000));
    // The arena is 20 by 15 tiles of 64 pixels, in thousandths of a pixel.
    assert_eq!(autoshooter::tiles_to_units(10000), 640000);
    assert_eq!(autoshooter::tiles_to_units(500), 32000);
    assert_eq!(autoshooter::tiles_to_units(-3000), -192000);
}
