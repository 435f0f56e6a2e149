//! The heads-up display: how full each bar is drawn.

use crate::player::{Player, EXPERIENCE_PER_LEVEL};
use vstd::prelude::*;

verus! {

/// A full bar.
pub const FULL_BAR: u64 = 1000;

/// The upgrades that the selection screen offers.
#[derive(Clone, Copy, Debug, PartialEq, Eq, Structural)]
pub enum UpgradeType {
    HealthBoost,
    ShieldBoost,
    DamageBoost,
    FireRateBoost,
    SpeedBoost,
    NewWeapon,
}

/// A button of the selection screen.
#[derive(Clone, Copy, Debug, PartialEq, Eq, Structural)]
pub struct UpgradeButton {
    pub upgrade_type: UpgradeType,
}

/// The share of a bar, in thousandths, that `value` fills when `full` fills
/// it wholly: the quotient, rounded down and held between empty and full. A
/// bar whose full value is zero is full for any positive value and empty
/// otherwise.
pub open spec fn fill_of(value: int, full: int) -> u64 {
    if value <= 0 {
        0
    } else if full <= 0 || value >= full {
        FULL_BAR
    } else {
        (value * 1000 / full) as u64
    }
}

/// The share of a bar that `value` fills.
pub fn bar_fill(value: u64, full: u64) -> (r: u64)
    ensures
        r == fill_of(value as int, full as int),
        r <= FULL_BAR,
{
    if value == 0 {
        0
    } else if full == 0 || value >= full {
        FULL_BAR
    } else {
        assert(0 <= value * 1000 / (full as int) < 1000) by (nonlinear_arith)
            requires
                0 < value < full,
        ;
        (((value as u128) * 1000) / (full as u128)) as u64
    }
}

/// The share of the health bar that is filled.
pub fn health_fill(player: &Player) -> (r: u64)
    ensures
        r == fill_of(player.health as int, player.max_health as int),
        r <= FULL_BAR,
{
    if player.health <= 0 {
        0
    } else {
        bar_fill(player.health as u64, player.max_health)
    }
}

/// The share of the shield bar that is filled.
pub fn shield_fill(player: &Player) -> (r: u64)
    ensures
        r == fill_of(player.shields as int, player.max_shields as int),
        r <= FULL_BAR,
{
    bar_fill(player.shields, player.max_shields)
}

/// The share of the experience bar that is filled: the experience gained
/// toward the next level.
pub fn experience_fill(player: &Player) -> (r: u64)
    ensures
        r == fill_of(player.experience as int, player.experience_needed()),
        r <= FULL_BAR,
{
    assert(player.level * EXPERIENCE_PER_LEVEL <= 0xffff_ffff * 100_000) by (nonlinear_arith)
        requires
            player.level <= 0xffff_ffff,
            EXPERIENCE_PER_LEVEL == 100_000,
    ;
    bar_fill(player.experience, (player.level as u64) * EXPERIENCE_PER_LEVEL)
}

} // verus!
