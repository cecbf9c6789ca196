use autoshooter::angle::{clamp_angle_to_range, normalize_angle, FULL_TURN};
use autoshooter::weapons::WeaponArea;

#[test]
fn normalize_wraps_into_one_turn() {
    assert_eq!(normalize_angle(0), 0);
    assert_eq!(normalize_angle(359999), 359999);
    assert_eq!(normalize_angle(FULL_TURN), 0);
    assert_eq!(normalize_angle(720001), 1);
    assert_eq!(normalize_angle(-90000), 270000);
    assert_eq!(normalize_angle(-360000), 0);
}

#[test]
fn clamp_inside_plain_sector() {
    assert_eq!(clamp_angle_to_range(30000, 10000, 50000), 30000);
}

#[test]
fn clamp_onto_plain_sector_bounds() {
    assert_eq!(clamp_angle_to_range(5000, 10000, 50000), 10000);
    assert_eq!(clamp_angle_to_range(90000, 10000, 50000), 50000);
}

#[test]
fn clamp_inside_wrapped_sector() {
    // The sector runs from 300 degrees through zero to 60 degrees.
    assert_eq!(clamp_angle_to_range(30000, 300000, 60000), 30000);
    assert_eq!(clamp_angle_to_range(350000, 300000, 60000), 350000);
}

#[test]
fn clamp_outside_wrapped_sector_picks_nearer_bound() {
    // 200 degrees is 100 degrees from the lower bound (going up) and 140
    // degrees past the upper bound.
    assert_eq!(clamp_angle_to_range(200000, 300000, 60000), 300000);
    // 180 degrees is equally far from both bounds; ties go to the upper.
    assert_eq!(clamp_angle_to_range(180000, 300000, 60000), 60000);
}

#[test]
fn clamp_normalizes_its_inputs() {
    assert_eq!(clamp_angle_to_range(-90000, 200000, 300000), 270000);
}

#[test]
fn weapon_sector_aiming() {
    let area = WeaponArea { orbit_radius: 100000, sector_arc: 90000, center_arc: 0 };
    let (lo, hi) = area.angle_range();
    assert_eq!(lo, -45000);
    assert_eq!(hi, 45000);
    // An enemy straight up (90 degrees) is pulled onto the near edge.
    assert_eq!(area.target_angle(90000), 45000);
    // An enemy inside the sector is aimed at directly.
    assert_eq!(area.target_angle(-20000), 340000);
    assert_eq!(area.target_angle(20000), 20000);
}
