//! What the heads-up display shows of a stat: its icon index in the HUD
//! texture atlas, its name, and its value rendered as decimal text from the
//! fixed-point representation.

use vstd::prelude::*;
use vstd::string::StringExecFns;
use crate::upgrades::{PlayerStats, StatKind, StatUpgrade};

verus! {

pub const ICON_STATISTICS: usize = 13;

pub const ICON_LEVEL: usize = 3;

pub const ICON_EXPERIENCE: usize = 14;

pub const ICON_DAMAGE: usize = 12;

pub const ICON_FIRE_RATE: usize = 30;

pub const ICON_RANGE: usize = 18;

pub const ICON_HEALTH: usize = 49;

pub const ICON_SPEED: usize = 29;

pub const ICON_WAVE: usize = 59;

/// A row of the stats display: either one of the player's upgradable
/// stats, or a bookkeeping value of the run.
#[derive(Clone, Copy, Debug, PartialEq, Eq, Structural)]
pub enum DisplayStatKind {
    Level,
    Experience,
    Wave,
    PlayerStat(StatKind),
    Health,
}

impl From<StatKind> for DisplayStatKind {
    /// An upgradable stat shown as its own display row.
    fn from(kind: StatKind) -> (r: DisplayStatKind) {
        DisplayStatKind::PlayerStat(kind)
    }
}

impl vstd::std_specs::convert::FromSpecImpl<StatKind> for DisplayStatKind {
    open spec fn obeys_from_spec() -> bool {
        true
    }

    open spec fn from_spec(kind: StatKind) -> DisplayStatKind {
        DisplayStatKind::PlayerStat(kind)
    }
}

/// One decimal digit as text.
pub open spec fn spec_digit(d: int) -> Seq<char> {
    if d == 0 {
        "0"@
    } else if d == 1 {
        "1"@
    } else if d == 2 {
        "2"@
    } else if d == 3 {
        "3"@
    } else if d == 4 {
        "4"@
    } else if d == 5 {
        "5"@
    } else if d == 6 {
        "6"@
    } else if d == 7 {
        "7"@
    } else if d == 8 {
        "8"@
    } else {
        "9"@
    }
}

/// The decimal rendering of a nonnegative number: its digits from most to
/// least significant.
pub open spec fn spec_dec(n: int) -> Seq<char>
    decreases n,
{
    if n < 10 {
        spec_digit(n)
    } else {
        spec_dec(n / 10) + spec_digit(n % 10)
    }
}

fn digit_str(d: u64) -> (r: &'static str)
    requires
        d < 10,
    ensures
        r@ == spec_digit(d as int),
{
    match d {
        0 => "0",
        1 => "1",
        2 => "2",
        3 => "3",
        4 => "4",
        5 => "5",
        6 => "6",
        7 => "7",
        8 => "8",
        _ => "9",
    }
}

/// Renders a number in decimal.
pub fn format_int(n: u64) -> (r: String)
    ensures
        r@ == spec_dec(n as int),
    decreases n,
{
    if n < 10 {
        String::from_str(digit_str(n))
    } else {
        let prefix = format_int(n / 10);
        prefix.concat(digit_str(n % 10))
    }
}

impl DisplayStatKind {
    /// The icon index and label of this display row.
    pub fn get_display_info(&self) -> (r: (usize, String))
        ensures
            r.0 == self.get_icon(),
            r.1@ == self.spec_name(),
    {
        match self {
            DisplayStatKind::Level => (ICON_LEVEL, String::from_str("Level")),
            DisplayStatKind::Experience => (ICON_EXPERIENCE, String::from_str("Experience")),
            DisplayStatKind::Wave => (ICON_WAVE, String::from_str("Wave")),
            DisplayStatKind::Health => (ICON_HEALTH, String::from_str("Health")),
            DisplayStatKind::PlayerStat(stat) => match stat {
                StatKind::Damage => (ICON_DAMAGE, String::from_str("Damage")),
                StatKind::FireRate => (ICON_FIRE_RATE, String::from_str("Fire Rate")),
                StatKind::Range => (ICON_RANGE, String::from_str("Range")),
                StatKind::MaxHealth => (ICON_HEALTH, String::from_str("Health")),
                StatKind::Speed => (ICON_SPEED, String::from_str("Speed")),
            },
        }
    }

    /// The label of this display row.
    pub open spec fn spec_name(&self) -> Seq<char> {
        match self {
            DisplayStatKind::Level => "Level"@,
            DisplayStatKind::Experience => "Experience"@,
            DisplayStatKind::Wave => "Wave"@,
            DisplayStatKind::Health => "Health"@,
            DisplayStatKind::PlayerStat(StatKind::Damage) => "Damage"@,
            DisplayStatKind::PlayerStat(StatKind::FireRate) => "Fire Rate"@,
            DisplayStatKind::PlayerStat(StatKind::Range) => "Range"@,
            DisplayStatKind::PlayerStat(StatKind::MaxHealth) => "Health"@,
            DisplayStatKind::PlayerStat(StatKind::Speed) => "Speed"@,
        }
    }
}

impl PlayerStats {
    /// A stat's value as display text: the health maximum in whole hit
    /// points, a multiplier as `x` followed by its value with two decimal
    /// places (truncated).
    pub fn format_value(&self, kind: StatKind) -> (r: String)
        requires
            self.wf(),
        ensures
            kind == StatKind::MaxHealth ==> r@ == spec_dec(self.max_health as int / 1000),
            kind != StatKind::MaxHealth ==> ({
                let v = self.spec_value(kind);
                r@ == "x"@ + spec_dec(v / 1000) + "."@ + spec_digit((v % 1000) / 100)
                    + spec_digit((v % 100) / 10)
            }),
    {
        match kind {
            StatKind::MaxHealth => format_int((self.max_health as u64) / 1000),
            _ => {
                let v: u64 = self.get_value(kind) as u64;
                let whole = format_int(v / 1000);
                let d1 = digit_str((v % 1000) / 100);
                let d2 = digit_str((v % 100) / 10);
                let s = String::from_str("x").concat(whole.as_str());
                let s = s.concat(".");
                let s = s.concat(d1);
                s.concat(d2)
            },
        }
    }
}

impl StatUpgrade {
    /// The icon index and offer text of this upgrade: the raise it grants,
    /// as a whole number of hit points or a percentage.
    pub fn get_display_info(&self) -> (r: (usize, String))
        requires
            self.value <= crate::upgrades::STAT_LIMIT,
        ensures
            r.0 == DisplayStatKind::PlayerStat(self.kind).get_icon(),
            self.kind == StatKind::MaxHealth ==> r.1@ == "+"@ + spec_dec(self.value as int / 1000)
                + " max HP"@,
            self.kind != StatKind::MaxHealth ==> r.1@ == "+"@ + spec_dec(self.value as int / 10)
                + "% "@ + self.spec_lower_name(),
    {
        let icon = match self.kind {
            StatKind::Damage => ICON_DAMAGE,
            StatKind::FireRate => ICON_FIRE_RATE,
            StatKind::Range => ICON_RANGE,
            StatKind::MaxHealth => ICON_HEALTH,
            StatKind::Speed => ICON_SPEED,
        };
        let description = match self.kind {
            StatKind::MaxHealth => String::from_str("+").concat(
                format_int(self.value / 1000).as_str(),
            ).concat(" max HP"),
            StatKind::Damage => percent_description(self.value, "damage"),
            StatKind::FireRate => percent_description(self.value, "fire rate"),
            StatKind::Range => percent_description(self.value, "range"),
            StatKind::Speed => percent_description(self.value, "speed"),
        };
        (icon, description)
    }

    /// The label of the stat this upgrade raises, in lower case.
    pub open spec fn spec_lower_name(&self) -> Seq<char> {
        match self.kind {
            StatKind::Damage => "damage"@,
            StatKind::FireRate => "fire rate"@,
            StatKind::Range => "range"@,
            StatKind::MaxHealth => "health"@,
            StatKind::Speed => "speed"@,
        }
    }

    /// The card title of this upgrade: the stat's name followed by ` Up`.
    pub fn get_full_title(&self) -> (r: String)
        ensures
            r@ == DisplayStatKind::PlayerStat(self.kind).spec_name() + " Up"@,
    {
        let (_, name) = DisplayStatKind::PlayerStat(self.kind).get_display_info();
        name.concat(" Up")
    }
}

impl DisplayStatKind {
    /// The icon index of this display row.
    pub open spec fn get_icon(&self) -> int {
        match self {
            DisplayStatKind::Level => ICON_LEVEL as int,
            DisplayStatKind::Experience => ICON_EXPERIENCE as int,
            DisplayStatKind::Wave => ICON_WAVE as int,
            DisplayStatKind::Health => ICON_HEALTH as int,
            DisplayStatKind::PlayerStat(StatKind::Damage) => ICON_DAMAGE as int,
            DisplayStatKind::PlayerStat(StatKind::FireRate) => ICON_FIRE_RATE as int,
            DisplayStatKind::PlayerStat(StatKind::Range) => ICON_RANGE as int,
            DisplayStatKind::PlayerStat(StatKind::MaxHealth) => ICON_HEALTH as int,
            DisplayStatKind::PlayerStat(StatKind::Speed) => ICON_SPEED as int,
        }
    }
}

/// `+<value/10>% <name>`: the percent text of a multiplier upgrade.
fn percent_description(value: u64, name: &str) -> (r: String)
    ensures
        r@ == "+"@ + spec_dec(value as int / 10) + "% "@ + name@,
{
    String::from_str("+").concat(format_int(value / 10).as_str()).concat("% ").concat(name)
}

} // verus!

verus! {

/// A signed value in whole units of a thousandth-based fixed point,
/// truncated toward zero, as text.
pub open spec fn spec_whole(v: int) -> Seq<char> {
    if v >= 0 {
        spec_dec(v / 1000)
    } else {
        "-"@ + spec_dec((-v) / 1000)
    }
}

/// The status bar's text: wave, experience, level, health, enemy count,
/// and either the time left in the wave or the prompt to start the next.
pub open spec fn spec_hud_line(
    wave: int,
    xp_value: int,
    level: int,
    health_value: int,
    health_max: int,
    enemy_count: int,
    running: bool,
    remaining_ms: int,
) -> Seq<char> {
    "Wave: "@ + spec_dec(wave) + " | XP: "@ + spec_dec(xp_value) + " | Level: "@ + spec_dec(level)
        + " | HP: "@ + spec_whole(health_value) + "/"@ + spec_whole(health_max) + " | Enemies: "@
        + spec_dec(enemy_count) + " | "@ + (if running {
        "Time: "@ + spec_dec(remaining_ms / 1000) + "."@ + spec_digit((remaining_ms % 1000) / 100)
            + "s"@
    } else {
        "Press SPACE or ENTER to start next wave"@
    })
}

/// Renders a fixed-point value in whole units, truncated toward zero.
fn format_whole(v: i64) -> (r: String)
    requires
        -1000000000000000 <= v <= 1000000000000000,
    ensures
        r@ == spec_whole(v as int),
{
    if v >= 0 {
        format_int((v as u64) / 1000)
    } else {
        String::from_str("-").concat(format_int(((-v) as u64) / 1000).as_str())
    }
}

/// The one-line heads-up display: wave and player bookkeeping, the enemy
/// count, and the wave clock (or the between-waves prompt). Health is
/// shown in whole hit points, the time left with one decimal.
pub fn update_ui(
    wave: u32,
    xp_value: u32,
    level: u32,
    health_value: i64,
    health_max: i64,
    enemy_count: usize,
    running: bool,
    remaining_ms: u64,
) -> (r: String)
    requires
        -1000000000000000 <= health_value <= 1000000000000000,
        0 <= health_max <= 1000000000000000,
    ensures
        r@ == spec_hud_line(
            wave as int,
            xp_value as int,
            level as int,
            health_value as int,
            health_max as int,
            enemy_count as int,
            running,
            remaining_ms as int,
        ),
{
    let s = String::from_str("Wave: ").concat(format_int(wave as u64).as_str());
    let s = s.concat(" | XP: ").concat(format_int(xp_value as u64).as_str());
    let s = s.concat(" | Level: ").concat(format_int(level as u64).as_str());
    let s = s.concat(" | HP: ").concat(format_whole(health_value).as_str());
    let s = s.concat("/").concat(format_whole(health_max).as_str());
    let s = s.concat(" | Enemies: ").concat(format_int(enemy_count as u64).as_str());
    let s = s.concat(" | ");
    if running {
        let s = s.concat("Time: ").concat(format_int(remaining_ms / 1000).as_str());
        let s = s.concat(".").concat(digit_str((remaining_ms % 1000) / 100));
        s.concat("s")
    } else {
        s.concat("Press SPACE or ENTER to start next wave")
    }
}

} // verus!
