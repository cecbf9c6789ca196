//! Stat upgrades between waves. The player's stats carry multipliers in
//! thousandths; an upgrade adds a fixed amount to one stat. The pool of
//! possible upgrades is drawn from with weights given by rarity, and a
//! selected card walks a small hold-to-confirm state machine before it is
//! applied.

use vstd::prelude::*;
use crate::components::Health;
use crate::player::PlayerExperience;
use crate::rng::{
    lemma_sum_ge_elem, lemma_sum_prefix_le, lemma_sum_push, lemma_sum_take_step, random_range_i64,
    sum_of,
};
use crate::timer::{spec_tick, Timer, TIME_LIMIT_MS};
use crate::wave::{WaveManager, WaveState, SPAWN_RATE_MS, WAVE_DURATION_MS};
use crate::weapons::{Weapon, WeaponCooldown};

verus! {

/// Marks the upgrade screen shown between waves.
#[derive(Clone, Copy, Debug, PartialEq, Eq, Structural)]
pub struct UpgradeUI;

/// Marks the button of one upgrade card.
#[derive(Clone, Copy, Debug, PartialEq, Eq, Structural)]
pub struct UpgradeCardButton;

/// Marks the button that starts the next wave.
#[derive(Clone, Copy, Debug, PartialEq, Eq, Structural)]
pub struct NextWaveButton;

/// Player stats that upgrades can touch.
#[derive(Clone, Copy, Debug, PartialEq, Eq, Structural)]
pub enum StatKind {
    Damage,
    FireRate,
    Range,
    MaxHealth,
    Speed,
}

/// Rarity tiers, from common to legendary.
#[derive(Clone, Copy, Debug, PartialEq, Eq, Structural)]
pub enum UpgradeRarity {
    Common,
    Uncommon,
    Rare,
    Legendary,
}

impl UpgradeRarity {
    /// Draw weight of this rarity.
    pub open spec fn spec_odds(&self) -> int {
        match self {
            UpgradeRarity::Common => 60,
            UpgradeRarity::Uncommon => 30,
            UpgradeRarity::Rare => 9,
            UpgradeRarity::Legendary => 1,
        }
    }

    pub fn get_odds(&self) -> (r: u64)
        ensures
            r == self.spec_odds(),
            1 <= r <= 60,
    {
        match self {
            UpgradeRarity::Common => 60,
            UpgradeRarity::Uncommon => 30,
            UpgradeRarity::Rare => 9,
            UpgradeRarity::Legendary => 1,
        }
    }
}

/// The player's accumulated stats: multipliers in thousandths and the
/// health maximum in thousandths of a hit point.
#[derive(Clone, Copy, Debug, PartialEq, Eq, Structural)]
pub struct PlayerStats {
    pub damage_multiplier: u64,
    pub fire_rate_multiplier: u64,
    pub range_multiplier: u64,
    pub max_health: i64,
    pub speed_multiplier: u64,
}

/// Bound on every stat so that derived arithmetic stays in range.
pub const STAT_LIMIT: u64 = 1000000;

impl PlayerStats {
    pub open spec fn wf(&self) -> bool {
        &&& 0 < self.damage_multiplier <= STAT_LIMIT
        &&& 0 < self.fire_rate_multiplier <= STAT_LIMIT
        &&& 0 < self.range_multiplier <= STAT_LIMIT
        &&& 0 < self.speed_multiplier <= STAT_LIMIT
        &&& 0 <= self.max_health <= 1000000000
    }

    /// The stat a given upgrade kind reads or writes.
    pub open spec fn spec_value(&self, kind: StatKind) -> int {
        match kind {
            StatKind::Damage => self.damage_multiplier as int,
            StatKind::FireRate => self.fire_rate_multiplier as int,
            StatKind::Range => self.range_multiplier as int,
            StatKind::MaxHealth => self.max_health as int,
            StatKind::Speed => self.speed_multiplier as int,
        }
    }

    /// Current value of a stat, in its fixed-point units.
    pub fn get_value(&self, kind: StatKind) -> (r: i64)
        requires
            self.wf(),
        ensures
            r == self.spec_value(kind),
    {
        match kind {
            StatKind::Damage => self.damage_multiplier as i64,
            StatKind::FireRate => self.fire_rate_multiplier as i64,
            StatKind::Range => self.range_multiplier as i64,
            StatKind::MaxHealth => self.max_health,
            StatKind::Speed => self.speed_multiplier as i64,
        }
    }

    /// Whether applying `upgrade` keeps every stat within its bound.
    pub fn can_apply(&self, upgrade: &StatUpgrade) -> (r: bool)
        requires
            self.wf(),
            upgrade.value <= STAT_LIMIT,
        ensures
            r == (self.spec_value(upgrade.kind) + upgrade.value <= match upgrade.kind {
                StatKind::MaxHealth => 1000000000int,
                _ => STAT_LIMIT as int,
            }),
    {
        match upgrade.kind {
            StatKind::Damage => self.damage_multiplier + upgrade.value <= STAT_LIMIT,
            StatKind::FireRate => self.fire_rate_multiplier + upgrade.value <= STAT_LIMIT,
            StatKind::Range => self.range_multiplier + upgrade.value <= STAT_LIMIT,
            StatKind::MaxHealth => self.max_health + upgrade.value as i64 <= 1000000000,
            StatKind::Speed => self.speed_multiplier + upgrade.value <= STAT_LIMIT,
        }
    }

    /// Adds the upgrade's value onto the stat it names; the other stats
    /// stand still.
    pub fn apply_upgrade(&mut self, upgrade: &StatUpgrade)
        requires
            old(self).wf(),
            upgrade.value <= STAT_LIMIT,
            old(self).spec_value(upgrade.kind) + upgrade.value <= match upgrade.kind {
                StatKind::MaxHealth => 1000000000int,
                _ => STAT_LIMIT as int,
            },
        ensures
            final(self).wf(),
            final(self).spec_value(upgrade.kind) == old(self).spec_value(upgrade.kind)
                + upgrade.value,
            forall|k: StatKind|
                k != upgrade.kind ==> final(self).spec_value(k) == old(self).spec_value(k),
    {
        match upgrade.kind {
            StatKind::Damage => self.damage_multiplier = self.damage_multiplier + upgrade.value,
            StatKind::FireRate => self.fire_rate_multiplier = self.fire_rate_multiplier
                + upgrade.value,
            StatKind::Range => self.range_multiplier = self.range_multiplier + upgrade.value,
            StatKind::MaxHealth => self.max_health = self.max_health + upgrade.value as i64,
            StatKind::Speed => self.speed_multiplier = self.speed_multiplier + upgrade.value,
        }
    }
}

impl Default for PlayerStats {
    /// All multipliers at one, the health maximum at its starting value.
    fn default() -> (r: PlayerStats)
        ensures
            r.wf(),
            r.damage_multiplier == 1000,
            r.fire_rate_multiplier == 1000,
            r.range_multiplier == 1000,
            r.max_health == 100000,
            r.speed_multiplier == 1000,
    {
        PlayerStats {
            damage_multiplier: 1000,
            fire_rate_multiplier: 1000,
            range_multiplier: 1000,
            max_health: 100000,
            speed_multiplier: 1000,
        }
    }
}

/// One upgrade on offer: which stat it raises, by how much (in that stat's
/// fixed-point units), and its rarity.
#[derive(Clone, Copy, Debug, PartialEq, Eq, Structural)]
pub struct StatUpgrade {
    pub kind: StatKind,
    pub value: u64,
    pub rarity: UpgradeRarity,
}

impl StatUpgrade {
    pub fn new(kind: StatKind, value: u64, rarity: UpgradeRarity) -> (r: StatUpgrade)
        ensures
            r.kind == kind,
            r.value == value,
            r.rarity == rarity,
    {
        StatUpgrade { kind, value, rarity }
    }
}

/// The fixed pool upgrades are drawn from.
pub struct UpgradePool {
    pub upgrades: Vec<StatUpgrade>,
}

impl UpgradePool {
    pub open spec fn wf(&self) -> bool {
        &&& 0 < self.upgrades@.len() <= 1000
        &&& forall|i: int|
            0 <= i < self.upgrades@.len() ==> (#[trigger] self.upgrades@[i]).value <= STAT_LIMIT
    }

    /// Draws `count` upgrades from the pool, each independently, with odds
    /// proportional to rarity weight. Every drawn upgrade is one of the
    /// pool's entries.
    pub fn generate_upgrades(&self, count: usize) -> (r: Vec<StatUpgrade>)
        requires
            self.wf(),
        ensures
            r@.len() == count,
            forall|j: int|
                0 <= j < count ==> exists|i: int|
                    0 <= i < self.upgrades@.len() && #[trigger] r@[j] == self.upgrades@[i],
    {
        let mut weights: Vec<u64> = Vec::new();
        let mut total: u64 = 0;
        let mut i: usize = 0;
        while i < self.upgrades.len()
            invariant
                i <= self.upgrades@.len(),
                self.upgrades@.len() <= 1000,
                weights@.len() == i,
                forall|j: int|
                    0 <= j < i ==> 1 <= #[trigger] weights@[j] <= 60 && weights@[j]
                        == self.upgrades@[j].rarity.spec_odds(),
                total == sum_of(weights@),
                total <= i * 60,
            decreases self.upgrades@.len() - i,
        {
            let w = self.upgrades[i].rarity.get_odds();
            proof {
                lemma_sum_push(weights@, w);
            }
            weights.push(w);
            total = total + w;
            i += 1;
        }
        proof {
            lemma_sum_ge_elem(weights@, 0);
            assert(total <= 60000);
        }

        let mut selected: Vec<StatUpgrade> = Vec::new();
        let mut n: usize = 0;
        while n < count
            invariant
                n <= count,
                selected@.len() == n,
                weights@.len() == self.upgrades@.len(),
                0 < total == sum_of(weights@) <= 60000,
                forall|j: int|
                    0 <= j < n ==> exists|i2: int|
                        0 <= i2 < self.upgrades@.len() && #[trigger] selected@[j]
                            == self.upgrades@[i2],
            decreases count - n,
        {
            let roll = random_range_i64(0, total as i64);
            let idx = pick_weighted(&weights, roll as u64);
            let u = self.upgrades[idx];
            selected.push(u);
            proof {
                assert(selected@[n as int] == self.upgrades@[idx as int]);
            }
            n += 1;
        }
        selected
    }
}

impl Default for UpgradePool {
    /// The game's five upgrades: damage, fire rate, range, health maximum,
    /// and speed, with their rarities.
    fn default() -> (r: UpgradePool)
        ensures
            r.wf(),
            r.upgrades@.len() == 5,
            r.upgrades@[0] == (StatUpgrade {
                kind: StatKind::Damage,
                value: 150u64,
                rarity: UpgradeRarity::Common,
            }),
            r.upgrades@[1] == (StatUpgrade {
                kind: StatKind::FireRate,
                value: 200u64,
                rarity: UpgradeRarity::Rare,
            }),
            r.upgrades@[2] == (StatUpgrade {
                kind: StatKind::Range,
                value: 250u64,
                rarity: UpgradeRarity::Common,
            }),
            r.upgrades@[3] == (StatUpgrade {
                kind: StatKind::MaxHealth,
                value: 20000u64,
                rarity: UpgradeRarity::Legendary,
            }),
            r.upgrades@[4] == (StatUpgrade {
                kind: StatKind::Speed,
                value: 150u64,
                rarity: UpgradeRarity::Uncommon,
            }),
    {
        let mut upgrades: Vec<StatUpgrade> = Vec::new();
        upgrades.push(StatUpgrade::new(StatKind::Damage, 150, UpgradeRarity::Common));
        upgrades.push(StatUpgrade::new(StatKind::FireRate, 200, UpgradeRarity::Rare));
        upgrades.push(StatUpgrade::new(StatKind::Range, 250, UpgradeRarity::Common));
        upgrades.push(StatUpgrade::new(StatKind::MaxHealth, 20000, UpgradeRarity::Legendary));
        upgrades.push(StatUpgrade::new(StatKind::Speed, 150, UpgradeRarity::Uncommon));
        UpgradePool { upgrades }
    }
}

/// Picks the entry whose cumulative-weight interval contains `roll`.
pub fn pick_weighted(weights: &Vec<u64>, roll: u64) -> (idx: usize)
    requires
        sum_of(weights@) <= u64::MAX,
        roll < sum_of(weights@),
    ensures
        idx < weights@.len(),
        weights@[idx as int] > 0,
        sum_of(weights@.take(idx as int)) <= roll < sum_of(weights@.take(idx as int))
            + weights@[idx as int],
{
    let mut acc: u64 = 0;
    let mut i: usize = 0;
    while i < weights.len()
        invariant
            i <= weights@.len(),
            acc == sum_of(weights@.take(i as int)),
            acc <= roll,
            sum_of(weights@) <= u64::MAX,
            roll < sum_of(weights@),
        decreases weights@.len() - i,
    {
        proof {
            lemma_sum_take_step(weights@, i as int);
            lemma_sum_prefix_le(weights@, i + 1);
        }
        let w = weights[i];
        if roll < acc + w {
            return i;
        }
        acc = acc + w;
        i += 1;
    }
    proof {
        assert(weights@.take(weights@.len() as int) =~= weights@);
        assert(false);
    }
    0
}


/// How long a card must be held before it counts as selected, and how long
/// a selection stands before it is applied.
pub const CARD_HOLD_MS: u64 = 1000;

/// Where a card stands in the hold-to-confirm flow.
#[derive(Clone, Copy, Debug, PartialEq, Eq, Structural)]
pub enum CardSelectionState {
    Unselected,
    Holding,
    Selected,
    ToApply,
    Applied,
}

/// An upgrade card on the upgrade screen: its offer, where it stands in
/// the confirm flow, and the countdown driving the current phase.
#[derive(Clone, Copy, Debug, PartialEq, Eq, Structural)]
pub struct UpgradeCard {
    pub upgrade: StatUpgrade,
    pub state: CardSelectionState,
    pub timer: Timer,
}

/// A fresh hold countdown.
pub open spec fn spec_fresh_card_timer() -> Timer {
    Timer { duration_ms: CARD_HOLD_MS, elapsed_ms: 0u64, repeating: false, finished: false }
}

/// One step of the held card: holding it long enough selects it, a
/// standing selection matures into application, and a card already marked
/// applied (or to be applied) rests.
pub open spec fn spec_advance_card(c: UpgradeCard, delta: int) -> UpgradeCard {
    match c.state {
        CardSelectionState::Unselected => UpgradeCard { state: CardSelectionState::Holding, ..c },
        CardSelectionState::Holding => {
            let t = spec_tick(c.timer, delta);
            if t.finished {
                UpgradeCard {
                    state: CardSelectionState::Selected,
                    timer: spec_fresh_card_timer(),
                    ..c
                }
            } else {
                UpgradeCard { timer: t, ..c }
            }
        },
        CardSelectionState::Selected => {
            let t = spec_tick(c.timer, delta);
            if t.finished {
                UpgradeCard { state: CardSelectionState::ToApply, timer: t, ..c }
            } else {
                UpgradeCard { timer: t, ..c }
            }
        },
        _ => c,
    }
}

/// Index of the card the player is working on: the first that is held or
/// already selected; -1 when there is none.
pub open spec fn spec_active_card(cards: Seq<UpgradeCard>, held: Option<usize>, j: int) -> int
    decreases cards.len() - j,
{
    if j < 0 || j >= cards.len() {
        -1
    } else if held == Option::Some(j as usize) || cards[j].state == CardSelectionState::Selected {
        j
    } else {
        spec_active_card(cards, held, j + 1)
    }
}

/// One frame of card selection. The first card that is held (or already
/// selected) advances through the hold-to-confirm flow; every other card
/// falls back to unselected with a fresh countdown.
pub fn handle_gamepad_update_selection(
    cards: &mut Vec<UpgradeCard>,
    held: Option<usize>,
    delta_ms: u64,
)
    requires
        forall|i: int| 0 <= i < old(cards)@.len() ==> (#[trigger] old(cards)@[i]).timer.wf(),
        delta_ms <= TIME_LIMIT_MS,
    ensures
        final(cards)@.len() == old(cards)@.len(),
        forall|i: int|
            0 <= i < old(cards)@.len() ==> (#[trigger] final(cards)@[i]).upgrade == old(
                cards,
            )@[i].upgrade,
        ({
            let a = spec_active_card(old(cards)@, held, 0);
            &&& forall|i: int|
                0 <= i < old(cards)@.len() && i != a ==> (#[trigger] final(cards)@[i]).state
                    == CardSelectionState::Unselected && final(cards)@[i].timer
                    == spec_fresh_card_timer()
            &&& a >= 0 ==> final(cards)@[a] == spec_advance_card(
                old(cards)@[a],
                delta_ms as int,
            )
        }),
{
    let ghost cards0 = cards@;
    let active = find_active_card(cards, held);
    let mut i: usize = 0;
    let ghost a = spec_active_card(cards0, held, 0);
    while i < cards.len()
        invariant
            0 <= i <= cards@.len(),
            cards@.len() == cards0.len(),
            delta_ms <= TIME_LIMIT_MS,
            forall|k: int| 0 <= k < cards0.len() ==> (#[trigger] cards0[k]).timer.wf(),
            (match active {
                Option::Some(x) => a == x && 0 <= a < cards0.len(),
                Option::None => a == -1,
            }),
            forall|k: int| i <= k < cards0.len() ==> #[trigger] cards@[k] == cards0[k],
            forall|k: int|
                0 <= k < i ==> (#[trigger] cards@[k]).upgrade == cards0[k].upgrade,
            forall|k: int|
                0 <= k < i && k != a ==> (#[trigger] cards@[k]).state
                    == CardSelectionState::Unselected && cards@[k].timer
                    == spec_fresh_card_timer(),
            forall|k: int|
                0 <= k < i && k == a ==> #[trigger] cards@[k] == spec_advance_card(
                    cards0[k],
                    delta_ms as int,
                ),
        decreases cards@.len() - i,
    {
        let is_active = match active {
            Some(x) => x == i,
            None => false,
        };
        if is_active {
            let mut c = cards[i];
            match c.state {
                CardSelectionState::Unselected => {
                    c.state = CardSelectionState::Holding;
                },
                CardSelectionState::Holding => {
                    c.timer.tick(delta_ms);
                    if c.timer.is_finished() {
                        c.state = CardSelectionState::Selected;
                        c.timer = Timer::new(CARD_HOLD_MS, false);
                    }
                },
                CardSelectionState::Selected => {
                    c.timer.tick(delta_ms);
                    if c.timer.is_finished() {
                        c.state = CardSelectionState::ToApply;
                    }
                },
                CardSelectionState::ToApply => {},
                CardSelectionState::Applied => {},
            }
            cards.set(i, c);
        } else {
            let mut c = cards[i];
            c.state = CardSelectionState::Unselected;
            c.timer = Timer::new(CARD_HOLD_MS, false);
            cards.set(i, c);
        }
        i += 1;
    }
}

/// Finds the first card that is held or already selected.
fn find_active_card(cards: &Vec<UpgradeCard>, held: Option<usize>) -> (r: Option<usize>)
    ensures
        r matches Some(i) ==> spec_active_card(cards@, held, 0) == i && i < cards@.len(),
        r is None ==> spec_active_card(cards@, held, 0) == -1,
{
    let mut j: usize = 0;
    while j < cards.len()
        invariant
            0 <= j <= cards@.len(),
            spec_active_card(cards@, held, 0) == spec_active_card(cards@, held, j as int),
        decreases cards@.len() - j,
    {
        let is_held = match held {
            Some(h) => h == j,
            None => false,
        };
        if is_held || cards[j].state == CardSelectionState::Selected {
            return Some(j);
        }
        j += 1;
    }
    None
}

/// Index of the first card marked for application; -1 when there is none.
pub open spec fn spec_first_to_apply(cards: Seq<UpgradeCard>, j: int) -> int
    decreases cards.len() - j,
{
    if j < 0 || j >= cards.len() {
        -1
    } else if cards[j].state == CardSelectionState::ToApply {
        j
    } else {
        spec_first_to_apply(cards, j + 1)
    }
}

/// Finds the first card marked for application.
fn find_first_to_apply(cards: &Vec<UpgradeCard>) -> (r: Option<usize>)
    ensures
        r matches Some(i) ==> spec_first_to_apply(cards@, 0) == i && i < cards@.len(),
        r is None ==> spec_first_to_apply(cards@, 0) == -1,
{
    let mut j: usize = 0;
    while j < cards.len()
        invariant
            0 <= j <= cards@.len(),
            spec_first_to_apply(cards@, 0) == spec_first_to_apply(cards@, j as int),
        decreases cards@.len() - j,
    {
        if cards[j].state == CardSelectionState::ToApply {
            return Some(j);
        }
        j += 1;
    }
    None
}

/// Applies the first card marked for application, if any: the player's
/// stats take the upgrade, one pending level-up is spent, every weapon
/// picks up the new multipliers with its cooldown rebuilt at the new fire
/// rate, and the card is marked applied. With no such card nothing moves.
pub fn apply_upgrade(
    cards: &mut Vec<UpgradeCard>,
    stats: &mut PlayerStats,
    xp: &mut PlayerExperience,
    weapons: &mut Vec<Weapon>,
    cooldowns: &mut Vec<WeaponCooldown>,
) -> (applied: bool)
    requires
        old(stats).wf(),
        forall|i: int|
            0 <= i < old(cards)@.len() ==> (#[trigger] old(cards)@[i]).upgrade.value
                <= STAT_LIMIT,
        forall|i: int| 0 <= i < old(weapons)@.len() ==> (#[trigger] old(weapons)@[i]).wf(),
        old(weapons)@.len() == old(cooldowns)@.len(),
        ({
            let j = spec_first_to_apply(old(cards)@, 0);
            j >= 0 ==> {
                &&& old(xp).new_levels > 0
                &&& old(stats).spec_value(old(cards)@[j].upgrade.kind) + old(
                    cards,
                )@[j].upgrade.value <= (match old(cards)@[j].upgrade.kind {
                    StatKind::MaxHealth => 1000000000int,
                    _ => STAT_LIMIT as int,
                })
            }
        }),
    ensures
        final(stats).wf(),
        applied == (spec_first_to_apply(old(cards)@, 0) >= 0),
        !applied ==> *final(cards) == *old(cards) && *final(stats) == *old(stats) && *final(xp)
            == *old(xp) && *final(weapons) == *old(weapons) && *final(cooldowns) == *old(
            cooldowns,
        ),
        applied ==> ({
            let j = spec_first_to_apply(old(cards)@, 0);
            let u = old(cards)@[j].upgrade;
            &&& final(cards)@.len() == old(cards)@.len()
            &&& final(cards)@[j].state == CardSelectionState::Applied
            &&& final(cards)@[j].upgrade == u
            &&& forall|i: int|
                0 <= i < old(cards)@.len() && i != j ==> #[trigger] final(cards)@[i] == old(
                    cards,
                )@[i]
            &&& final(stats).spec_value(u.kind) == old(stats).spec_value(u.kind) + u.value
            &&& forall|k: StatKind|
                k != u.kind ==> final(stats).spec_value(k) == old(stats).spec_value(k)
            &&& final(xp).new_levels == old(xp).new_levels - 1
            &&& final(xp).value == old(xp).value && final(xp).level == old(xp).level
            &&& final(weapons)@.len() == old(weapons)@.len()
            &&& forall|k: int|
                0 <= k < old(weapons)@.len() ==> #[trigger] final(weapons)@[k] == (Weapon {
                    damage_multiplier: final(stats).damage_multiplier,
                    fire_rate_multiplier: final(stats).fire_rate_multiplier,
                    range_multiplier: final(stats).range_multiplier,
                    ..old(weapons)@[k]
                })
            &&& final(cooldowns)@.len() == old(cooldowns)@.len()
            &&& forall|k: int|
                0 <= k < old(cooldowns)@.len() ==> (#[trigger] final(cooldowns)@[k]).timer
                    == (Timer {
                    duration_ms: crate::geom::max_spec(
                        (old(weapons)@[k].base_cooldown_ms * 1000) / (
                        final(stats).fire_rate_multiplier as int),
                        1,
                    ) as u64,
                    elapsed_ms: 0u64,
                    repeating: true,
                    finished: false,
                })
        }),
{
    let ghost cards0 = cards@;
    let found = find_first_to_apply(cards);
    let idx = match found {
        Some(x) => x,
        None => {
            return false;
        },
    };

    let mut card = cards[idx];
    stats.apply_upgrade(&card.upgrade);
    xp.new_levels = xp.new_levels - 1;

    let mut k: usize = 0;
    while k < weapons.len()
        invariant
            0 <= k <= weapons@.len(),
            weapons@.len() == old(weapons)@.len(),
            cooldowns@.len() == old(cooldowns)@.len(),
            weapons@.len() == cooldowns@.len(),
            stats.wf(),
            forall|i: int| 0 <= i < old(weapons)@.len() ==> (#[trigger] old(weapons)@[i]).wf(),
            forall|i: int| k <= i < weapons@.len() ==> #[trigger] weapons@[i] == old(weapons)@[i],
            forall|i: int|
                k <= i < cooldowns@.len() ==> #[trigger] cooldowns@[i] == old(cooldowns)@[i],
            forall|i: int|
                0 <= i < k ==> #[trigger] weapons@[i] == (Weapon {
                    damage_multiplier: stats.damage_multiplier,
                    fire_rate_multiplier: stats.fire_rate_multiplier,
                    range_multiplier: stats.range_multiplier,
                    ..old(weapons)@[i]
                }),
            forall|i: int|
                0 <= i < k ==> (#[trigger] cooldowns@[i]).timer == (Timer {
                    duration_ms: crate::geom::max_spec(
                        (old(weapons)@[i].base_cooldown_ms * 1000) / (
                        stats.fire_rate_multiplier as int),
                        1,
                    ) as u64,
                    elapsed_ms: 0u64,
                    repeating: true,
                    finished: false,
                }),
        decreases weapons@.len() - k,
    {
        let mut w = weapons[k];
        w.damage_multiplier = stats.damage_multiplier;
        w.fire_rate_multiplier = stats.fire_rate_multiplier;
        w.range_multiplier = stats.range_multiplier;
        let period = w.cooldown_ms();
        weapons.set(k, w);
        cooldowns.set(k, WeaponCooldown { timer: Timer::new(period, true) });
        k += 1;
    }

    card.state = CardSelectionState::Applied;
    cards.set(idx, card);
    true
}

/// The between-waves confirm: on a press, the next wave starts (counter,
/// clocks, and spawn rate reset), the pending level-ups are cleared, and
/// the player's health refills to its maximum.
pub fn handle_next_wave_button(
    pressed: bool,
    wm: &mut WaveManager,
    stats: &PlayerStats,
    xp: &mut PlayerExperience,
    health: &mut Health,
) -> (started: bool)
    requires
        old(wm).wf(),
        old(wm).wave < u32::MAX,
        stats.wf(),
    ensures
        final(wm).wf(),
        started == pressed,
        !started ==> *final(wm) == *old(wm) && *final(xp) == *old(xp) && *final(health) == *old(
            health,
        ),
        started ==> {
            &&& final(wm).wave == old(wm).wave + 1
            &&& final(wm).wave_state == WaveState::Running
            &&& final(wm).wave_timer.duration_ms == WAVE_DURATION_MS
            &&& final(wm).wave_timer.elapsed_ms == 0
            &&& !final(wm).wave_timer.finished
            &&& final(wm).enemy_spawn_timer.duration_ms == SPAWN_RATE_MS
            &&& final(wm).enemy_spawn_timer.elapsed_ms == 0
            &&& !final(wm).enemy_spawn_timer.finished
            &&& final(xp).new_levels == 0
            &&& final(xp).value == old(xp).value && final(xp).level == old(xp).level
            &&& final(health).value == stats.max_health
            &&& final(health).max == old(health).max
        },
{
    if !pressed {
        return false;
    }
    wm.start_next_wave();
    xp.new_levels = 0;
    health.value = stats.max_health;
    true
}

} // verus!
