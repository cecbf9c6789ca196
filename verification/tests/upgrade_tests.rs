use autoshooter::components::Health;
use autoshooter::player::PlayerExperience;
use autoshooter::timer::Timer;
use autoshooter::upgrades::{
    apply_upgrade, handle_gamepad_update_selection, handle_next_wave_button, pick_weighted,
    CardSelectionState, PlayerStats, StatKind, StatUpgrade, UpgradeCard, UpgradePool,
    UpgradeRarity, CARD_HOLD_MS,
};
use autoshooter::wave::{WaveManager, WaveState, WAVE_DURATION_MS};
use autoshooter::weapons::{init, WeaponCooldown};

#[test]
fn rarity_odds() {
    assert_eq!(UpgradeRarity::Common.get_odds(), 60);
    assert_eq!(UpgradeRarity::Uncommon.get_odds(), 30);
    assert_eq!(UpgradeRarity::Rare.get_odds(), 9);
    assert_eq!(UpgradeRarity::Legendary.get_odds(), 1);
}

#[test]
fn default_stats_and_upgrade_application() {
    let mut stats = PlayerStats::default();
    assert_eq!(stats.get_value(StatKind::Damage), 1000);
    assert_eq!(stats.get_value(StatKind::MaxHealth), 100000);
    let up = StatUpgrade::new(StatKind::Damage, 150, UpgradeRarity::Common);
    assert!(stats.can_apply(&up));
    stats.apply_upgrade(&up);
    assert_eq!(stats.damage_multiplier, 1150);
    assert_eq!(stats.fire_rate_multiplier, 1000);
    let hp = StatUpgrade::new(StatKind::MaxHealth, 20000, UpgradeRarity::Legendary);
    stats.apply_upgrade(&hp);
    assert_eq!(stats.max_health, 120000);
}

#[test]
fn default_pool_holds_the_five_offers() {
    let pool = UpgradePool::default();
    assert_eq!(pool.upgrades.len(), 5);
    assert_eq!(pool.upgrades[0].kind, StatKind::Damage);
    assert_eq!(pool.upgrades[1].rarity, UpgradeRarity::Rare);
    assert_eq!(pool.upgrades[3].value, 20000);
}

#[test]
fn generated_upgrades_come_from_the_pool() {
    let pool = UpgradePool::default();
    let drawn = pool.generate_upgrades(4);
    assert_eq!(drawn.len(), 4);
    for u in &drawn {
        assert!(pool.upgrades.iter().any(|p| p.kind == u.kind
            && p.value == u.value
            && p.rarity == u.rarity));
    }
    assert_eq!(pool.generate_upgrades(0).len(), 0);
}

#[test]
fn weighted_pick_lands_in_the_right_interval() {
    let weights = vec![2u64, 0, 3];
    assert_eq!(pick_weighted(&weights, 0), 0);
    assert_eq!(pick_weighted(&weights, 1), 0);
    // The zero-weight entry is never picked.
    assert_eq!(pick_weighted(&weights, 2), 2);
    assert_eq!(pick_weighted(&weights, 3), 2);
    assert_eq!(pick_weighted(&weights, 4), 2);
}

fn card(kind: StatKind, state: CardSelectionState) -> UpgradeCard {
    UpgradeCard {
        upgrade: StatUpgrade::new(kind, 150, UpgradeRarity::Common),
        state,
        timer: Timer::new(CARD_HOLD_MS, false),
    }
}

#[test]
fn holding_a_card_selects_and_applies_it() {
    let mut cards = vec![
        card(StatKind::Damage, CardSelectionState::Unselected),
        card(StatKind::Speed, CardSelectionState::Unselected),
    ];
    handle_gamepad_update_selection(&mut cards, Some(0), 16);
    assert_eq!(cards[0].state, CardSelectionState::Holding);
    assert_eq!(cards[1].state, CardSelectionState::Unselected);
    handle_gamepad_update_selection(&mut cards, Some(0), CARD_HOLD_MS);
    assert_eq!(cards[0].state, CardSelectionState::Selected);
    // A selection matures even without the button held.
    handle_gamepad_update_selection(&mut cards, None, CARD_HOLD_MS);
    assert_eq!(cards[0].state, CardSelectionState::ToApply);
}

#[test]
fn releasing_a_held_card_resets_it() {
    let mut cards = vec![
        card(StatKind::Damage, CardSelectionState::Unselected),
        card(StatKind::Speed, CardSelectionState::Unselected),
    ];
    handle_gamepad_update_selection(&mut cards, Some(0), 16);
    handle_gamepad_update_selection(&mut cards, Some(0), 500);
    assert_eq!(cards[0].state, CardSelectionState::Holding);
    // Switching to the other card drops the first back to unselected.
    handle_gamepad_update_selection(&mut cards, Some(1), 16);
    assert_eq!(cards[0].state, CardSelectionState::Unselected);
    assert_eq!(cards[0].timer.elapsed_ms, 0);
    assert_eq!(cards[1].state, CardSelectionState::Holding);
}

#[test]
fn applying_a_card_spends_a_level_and_retunes_weapons() {
    let mut cards = vec![
        card(StatKind::Damage, CardSelectionState::Unselected),
        card(StatKind::FireRate, CardSelectionState::ToApply),
    ];
    let mut stats = PlayerStats::default();
    let mut xp = PlayerExperience { value: 10, level: 2, new_levels: 1 };
    let lib = init();
    let mut weapons = lib.weapons;
    let mut cooldowns = vec![
        WeaponCooldown { timer: Timer::new(100, true) },
        WeaponCooldown { timer: Timer::new(1000, true) },
        WeaponCooldown { timer: Timer::new(1000, true) },
    ];
    let applied = apply_upgrade(&mut cards, &mut stats, &mut xp, &mut weapons, &mut cooldowns);
    assert!(applied);
    assert_eq!(cards[1].state, CardSelectionState::Applied);
    assert_eq!(cards[0].state, CardSelectionState::Unselected);
    assert_eq!(stats.fire_rate_multiplier, 1150);
    assert_eq!(xp.new_levels, 0);
    // Every weapon picked up the new multipliers and a retuned cooldown.
    assert_eq!(weapons[0].fire_rate_multiplier, 1150);
    assert_eq!(cooldowns[0].timer.duration_ms, 86);
    assert_eq!(cooldowns[1].timer.duration_ms, 869);
    assert!(cooldowns[0].timer.repeating);
}

#[test]
fn apply_without_a_marked_card_changes_nothing() {
    let mut cards = vec![card(StatKind::Damage, CardSelectionState::Holding)];
    let mut stats = PlayerStats::default();
    let mut xp = PlayerExperience { value: 10, level: 2, new_levels: 1 };
    let mut weapons = init().weapons;
    let mut cooldowns = vec![
        WeaponCooldown { timer: Timer::new(100, true) },
        WeaponCooldown { timer: Timer::new(1000, true) },
        WeaponCooldown { timer: Timer::new(1000, true) },
    ];
    let applied = apply_upgrade(&mut cards, &mut stats, &mut xp, &mut weapons, &mut cooldowns);
    assert!(!applied);
    assert_eq!(stats.damage_multiplier, 1000);
    assert_eq!(xp.new_levels, 1);
    assert_eq!(cards[0].state, CardSelectionState::Holding);
}

#[test]
fn next_wave_button_resets_player_and_clock() {
    let mut wm = WaveManager::default();
    wm.update_wave_timer(WAVE_DURATION_MS);
    assert_eq!(wm.wave_state, WaveState::Ended);
    let stats = PlayerStats { max_health: 120000, ..PlayerStats::default() };
    let mut xp = PlayerExperience { value: 12, level: 2, new_levels: 2 };
    let mut health = Health { value: 37000, max: 100000 };
    assert!(!handle_next_wave_button(false, &mut wm, &stats, &mut xp, &mut health));
    assert!(handle_next_wave_button(true, &mut wm, &stats, &mut xp, &mut health));
    assert_eq!(wm.wave, 2);
    assert_eq!(wm.wave_state, WaveState::Running);
    assert_eq!(xp.new_levels, 0);
    assert_eq!(xp.value, 12);
    assert_eq!(health.value, 120000);
}
