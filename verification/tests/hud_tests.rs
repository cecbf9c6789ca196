use autoshooter::hud::{
    format_int, DisplayStatKind, ICON_DAMAGE, ICON_HEALTH, ICON_LEVEL, ICON_SPEED, ICON_WAVE,
};
use autoshooter::upgrades::{PlayerStats, StatKind, StatUpgrade, UpgradeRarity};

#[test]
fn decimal_rendering() {
    assert_eq!(format_int(0), "0");
    assert_eq!(format_int(7), "7");
    assert_eq!(format_int(15), "15");
    assert_eq!(format_int(100), "100");
    assert_eq!(format_int(1234567890), "1234567890");
    assert_eq!(format_int(u64::MAX), "18446744073709551615");
}

#[test]
fn display_rows_have_icons_and_names() {
    let (icon, name) = DisplayStatKind::Level.get_display_info();
    assert_eq!((icon, name.as_str()), (ICON_LEVEL, "Level"));
    let (icon, name) = DisplayStatKind::Wave.get_display_info();
    assert_eq!((icon, name.as_str()), (ICON_WAVE, "Wave"));
    let (icon, name) = DisplayStatKind::PlayerStat(StatKind::Damage).get_display_info();
    assert_eq!((icon, name.as_str()), (ICON_DAMAGE, "Damage"));
    let (icon, name) = DisplayStatKind::PlayerStat(StatKind::FireRate).get_display_info();
    assert_eq!(name.as_str(), "Fire Rate");
    assert_eq!(icon, 30);
    let (icon, name) = DisplayStatKind::Health.get_display_info();
    assert_eq!((icon, name.as_str()), (ICON_HEALTH, "Health"));
}

#[test]
fn stat_values_format_in_fixed_point() {
    let stats = PlayerStats {
        damage_multiplier: 1150,
        fire_rate_multiplier: 1000,
        range_multiplier: 2500,
        max_health: 120000,
        speed_multiplier: 1050,
    };
    assert_eq!(stats.format_value(StatKind::Damage), "x1.15");
    assert_eq!(stats.format_value(StatKind::FireRate), "x1.00");
    assert_eq!(stats.format_value(StatKind::Range), "x2.50");
    assert_eq!(stats.format_value(StatKind::Speed), "x1.05");
    assert_eq!(stats.format_value(StatKind::MaxHealth), "120");
}

#[test]
fn upgrade_cards_describe_their_offer() {
    let dmg = StatUpgrade::new(StatKind::Damage, 150, UpgradeRarity::Common);
    let (icon, text) = dmg.get_display_info();
    assert_eq!(icon, ICON_DAMAGE);
    assert_eq!(text.as_str(), "+15% damage");
    assert_eq!(dmg.get_full_title().as_str(), "Damage Up");

    let hp = StatUpgrade::new(StatKind::MaxHealth, 20000, UpgradeRarity::Legendary);
    let (icon, text) = hp.get_display_info();
    assert_eq!(icon, ICON_HEALTH);
    assert_eq!(text.as_str(), "+20 max HP");
    assert_eq!(hp.get_full_title().as_str(), "Health Up");

    let fr = StatUpgrade::new(StatKind::FireRate, 200, UpgradeRarity::Rare);
    let (_, text) = fr.get_display_info();
    assert_eq!(text.as_str(), "+20% fire rate");

    let sp = StatUpgrade::new(StatKind::Speed, 150, UpgradeRarity::Uncommon);
    let (icon, _) = sp.get_display_info();
    assert_eq!(icon, ICON_SPEED);
}

#[test]
fn stat_kinds_map_to_display_rows() {
    let d: DisplayStatKind = StatKind::Range.into();
    assert_eq!(d, DisplayStatKind::PlayerStat(StatKind::Range));
}

#[test]
fn hud_line_during_a_wave() {
    let line = autoshooter::hud::update_ui(3, 42, 5, 87300, 120000, 7, true, 12500);
    assert_eq!(
        line,
        "Wave: 3 | XP: 42 | Level: 5 | HP: 87/120 | Enemies: 7 | Time: 12.5s"
    );
}

#[test]
fn hud_line_between_waves() {
    let line = autoshooter::hud::update_ui(1, 0, 1, -2500, 100000, 0, false, 0);
    assert_eq!(
        line,
        "Wave: 1 | XP: 0 | Level: 1 | HP: -2/100 | Enemies: 0 | Press SPACE or ENTER to start next wave"
    );
}
