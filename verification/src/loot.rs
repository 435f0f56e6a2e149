//! Loot: what a dead enemy drops, and how a drop lies in the arena until it
//! is picked up or fades.

use crate::config::LootConfig;
use crate::enemy::{Enemy, EnemyType};
use crate::fixed::{clamp_u64, scale, scaled, sum_u64};
use crate::random::{roll, ROLL_RANGE};
use crate::vec3::{distance_squared, Vec3};
use vstd::prelude::*;

verus! {

/// The kinds of loot.
#[derive(Clone, Copy, Debug, PartialEq, Eq, Structural)]
pub enum LootType {
    Experience,
    Health,
    Energy,
    Currency,
}

impl Default for LootType {
    fn default() -> (r: LootType)
        ensures
            r == LootType::Experience,
    {
        LootType::Experience
    }
}

/// One reward for a kill.
#[derive(Clone, Copy, Debug, PartialEq, Eq, Structural)]
pub enum LootDrop {
    Experience(u64),
    Health(u64),
    Energy(u64),
    /// A whole number of coins.
    Currency(u32),
}

/// A drop lying in the arena.
#[derive(Clone, Copy, Debug, PartialEq, Eq, Structural)]
pub struct LootItem {
    pub loot_type: LootType,
    pub value: u64,
    pub pickup_range: u64,
    pub attraction_range: u64,
    pub attraction_speed: u64,
    pub lifetime: u64,
    pub age: u64,
    pub is_collected: bool,
    pub is_attracted: bool,
    pub bob_speed: u64,
    pub bob_height: u64,
    /// Degrees per second.
    pub rotation_speed: u64,
    pub initial_position: Vec3,
}

impl Default for LootItem {
    fn default() -> (r: LootItem)
        ensures
            r == LootItem::blank(),
    {
        LootItem {
            loot_type: LootType::Experience,
            value: 0,
            pickup_range: 0,
            attraction_range: 0,
            attraction_speed: 0,
            lifetime: 0,
            age: 0,
            is_collected: false,
            is_attracted: false,
            bob_speed: 0,
            bob_height: 0,
            rotation_speed: 0,
            initial_position: Vec3 { x: 0, y: 0, z: 0 },
        }
    }
}

impl LootItem {
    /// An item with nothing set.
    pub open spec fn blank() -> LootItem {
        LootItem {
            loot_type: LootType::Experience,
            value: 0,
            pickup_range: 0,
            attraction_range: 0,
            attraction_speed: 0,
            lifetime: 0,
            age: 0,
            is_collected: false,
            is_attracted: false,
            bob_speed: 0,
            bob_height: 0,
            rotation_speed: 0,
            initial_position: Vec3 { x: 0, y: 0, z: 0 },
        }
    }

    /// A fresh item of a kind, with the ranges, lifetime and motion of that
    /// kind.
    pub open spec fn fresh(loot_type: LootType, value: u64, position: Vec3) -> LootItem {
        match loot_type {
            LootType::Experience => LootItem {
                loot_type,
                value,
                pickup_range: 1_000,
                attraction_range: 3_000,
                attraction_speed: 8_000,
                lifetime: 30_000,
                bob_speed: 2_000,
                bob_height: 300,
                rotation_speed: 90_000,
                initial_position: position,
                ..LootItem::blank()
            },
            LootType::Health => LootItem {
                loot_type,
                value,
                pickup_range: 1_200,
                attraction_range: 2_500,
                attraction_speed: 6_000,
                lifetime: 25_000,
                bob_speed: 1_500,
                bob_height: 200,
                rotation_speed: 45_000,
                initial_position: position,
                ..LootItem::blank()
            },
            LootType::Energy => LootItem {
                loot_type,
                value,
                pickup_range: 1_100,
                attraction_range: 2_800,
                attraction_speed: 7_000,
                lifetime: 20_000,
                bob_speed: 2_500,
                bob_height: 400,
                rotation_speed: 120_000,
                initial_position: position,
                ..LootItem::blank()
            },
            LootType::Currency => LootItem {
                loot_type,
                value,
                pickup_range: 1_000,
                attraction_range: 2_000,
                attraction_speed: 5_000,
                lifetime: 45_000,
                bob_speed: 1_000,
                bob_height: 150,
                rotation_speed: 180_000,
                initial_position: position,
                ..LootItem::blank()
            },
        }
    }

    fn build(
        loot_type: LootType,
        value: u64,
        position: Vec3,
        ranges: (u64, u64, u64),
        lifetime: u64,
        motion: (u64, u64, u64),
    ) -> (r: LootItem)
        ensures
            r == (LootItem {
                loot_type,
                value,
                pickup_range: ranges.0,
                attraction_range: ranges.1,
                attraction_speed: ranges.2,
                lifetime,
                bob_speed: motion.0,
                bob_height: motion.1,
                rotation_speed: motion.2,
                initial_position: position,
                ..LootItem::blank()
            }),
    {
        LootItem {
            loot_type,
            value,
            pickup_range: ranges.0,
            attraction_range: ranges.1,
            attraction_speed: ranges.2,
            lifetime,
            age: 0,
            is_collected: false,
            is_attracted: false,
            bob_speed: motion.0,
            bob_height: motion.1,
            rotation_speed: motion.2,
            initial_position: position,
        }
    }

    /// A fresh orb of experience.
    pub fn new_experience(value: u64, position: Vec3) -> (r: LootItem)
        ensures
            r == LootItem::fresh(LootType::Experience, value, position),
    {
        LootItem::build(
            LootType::Experience,
            value,
            position,
            (1_000, 3_000, 8_000),
            30_000,
            (2_000, 300, 90_000),
        )
    }

    /// A fresh health pack.
    pub fn new_health(value: u64, position: Vec3) -> (r: LootItem)
        ensures
            r == LootItem::fresh(LootType::Health, value, position),
    {
        LootItem::build(
            LootType::Health,
            value,
            position,
            (1_200, 2_500, 6_000),
            25_000,
            (1_500, 200, 45_000),
        )
    }

    /// A fresh energy cell.
    pub fn new_energy(value: u64, position: Vec3) -> (r: LootItem)
        ensures
            r == LootItem::fresh(LootType::Energy, value, position),
    {
        LootItem::build(
            LootType::Energy,
            value,
            position,
            (1_100, 2_800, 7_000),
            20_000,
            (2_500, 400, 120_000),
        )
    }

    /// A fresh pile of coins.
    pub fn new_currency(value: u64, position: Vec3) -> (r: LootItem)
        ensures
            r == LootItem::fresh(LootType::Currency, value, position),
    {
        LootItem::build(
            LootType::Currency,
            value,
            position,
            (1_000, 2_000, 5_000),
            45_000,
            (1_000, 150, 180_000),
        )
    }

    /// Whether the item has lain for its whole lifetime.
    pub open spec fn expired(self) -> bool {
        self.age >= self.lifetime
    }

    /// Whether a player at `player_position` is near enough to the place
    /// where the item was dropped to draw it in.
    pub open spec fn attracts(self, player_position: Vec3) -> bool {
        distance_squared(player_position, self.initial_position) <= self.attraction_range
            * self.attraction_range
    }

    /// Whether a player at `player_position` reaches an item at
    /// `current_position`.
    pub open spec fn reachable(self, player_position: Vec3, current_position: Vec3) -> bool {
        distance_squared(player_position, current_position) <= self.pickup_range
            * self.pickup_range
    }

    /// Whether the item has lain for its whole lifetime.
    pub fn is_expired(&self) -> (r: bool)
        ensures
            r == self.expired(),
    {
        self.age >= self.lifetime
    }

    /// Whether the player is near enough to draw the item in.
    pub fn should_attract(&self, player_position: Vec3) -> (r: bool)
        ensures
            r == self.attracts(player_position),
    {
        player_position.within(self.initial_position, self.attraction_range)
    }

    /// Whether the player reaches the item.
    pub fn can_pickup(&self, player_position: Vec3, current_position: Vec3) -> (r: bool)
        ensures
            r == self.reachable(player_position, current_position),
    {
        player_position.within(current_position, self.pickup_range)
    }

    /// Whether the item still takes part in the game.
    pub open spec fn live(self) -> bool {
        !self.is_collected && !self.expired()
    }

    /// The item after a tick of `dt` milliseconds with the player at
    /// `player_position`: a live item grows older and, once the player has
    /// come near enough, stays drawn to the player; a collected or expired
    /// item does not change.
    pub open spec fn after_tick(self, dt: u64, player_position: Vec3) -> LootItem {
        if self.live() {
            LootItem {
                age: sum_u64(self.age, dt),
                is_attracted: self.is_attracted || self.attracts(player_position),
                ..self
            }
        } else {
            self
        }
    }

    /// Ages a live item and notes whether the player draws it in. Returns
    /// whether the item was live, that is, whether the host is to move it.
    pub fn tick(&mut self, dt: u64, player_position: Vec3) -> (moving: bool)
        ensures
            moving == old(self).live(),
            *final(self) == old(self).after_tick(dt, player_position),
    {
        if self.is_collected || self.is_expired() {
            return false;
        }
        self.age = self.age.saturating_add(dt);
        if !self.is_attracted && self.should_attract(player_position) {
            self.is_attracted = true;
        }
        true
    }

    /// Collects the item if the player reaches it at its new position.
    /// Returns whether the item is collected now.
    pub fn collect_if_near(&mut self, player_position: Vec3, current_position: Vec3) -> (taken:
        bool)
        ensures
            taken == old(self).reachable(player_position, current_position),
            *final(self) == (LootItem {
                is_collected: old(self).is_collected || taken,
                ..*old(self)
            }),
    {
        if self.can_pickup(player_position, current_position) {
            self.is_collected = true;
            true
        } else {
            false
        }
    }
}

/// The multipliers that upgrades put on loot.
#[derive(Clone, Copy, Debug, PartialEq, Eq, Structural)]
pub struct LootManager {
    pub experience_multiplier: u64,
    pub health_multiplier: u64,
    pub energy_multiplier: u64,
    pub currency_multiplier: u64,
    pub attraction_range_bonus: u64,
}

impl Default for LootManager {
    fn default() -> (r: LootManager)
        ensures
            r == (LootManager {
                experience_multiplier: 0,
                health_multiplier: 0,
                energy_multiplier: 0,
                currency_multiplier: 0,
                attraction_range_bonus: 0,
            }),
    {
        LootManager {
            experience_multiplier: 0,
            health_multiplier: 0,
            energy_multiplier: 0,
            currency_multiplier: 0,
            attraction_range_bonus: 0,
        }
    }
}

impl LootManager {
    /// The kind of item that a drop becomes.
    pub open spec fn kind_of(drop_type: LootDrop) -> LootType {
        match drop_type {
            LootDrop::Experience(_) => LootType::Experience,
            LootDrop::Health(_) => LootType::Health,
            LootDrop::Energy(_) => LootType::Energy,
            LootDrop::Currency(_) => LootType::Currency,
        }
    }

    /// The worth of the item that a drop becomes: the worth of the drop
    /// times the multiplier of its kind.
    pub open spec fn worth_of(self, drop_type: LootDrop) -> u64 {
        match drop_type {
            LootDrop::Experience(value) => clamp_u64(
                scaled(value as int, self.experience_multiplier as int),
            ),
            LootDrop::Health(value) => clamp_u64(scaled(value as int, self.health_multiplier as int)),
            LootDrop::Energy(value) => clamp_u64(scaled(value as int, self.energy_multiplier as int)),
            LootDrop::Currency(coins) => clamp_u64(
                scaled(coins * 1000, self.currency_multiplier as int),
            ),
        }
    }

    /// The item that a drop becomes at `position`.
    pub open spec fn item_for(self, drop_type: LootDrop, position: Vec3) -> LootItem {
        let plain = LootItem::fresh(
            LootManager::kind_of(drop_type),
            self.worth_of(drop_type),
            position,
        );
        LootItem {
            attraction_range: sum_u64(plain.attraction_range, self.attraction_range_bonus),
            ..plain
        }
    }

    /// A manager that leaves every worth as it is.
    pub fn new() -> (r: LootManager)
        ensures
            r == (LootManager {
                experience_multiplier: 1000,
                health_multiplier: 1000,
                energy_multiplier: 1000,
                currency_multiplier: 1000,
                attraction_range_bonus: 0,
            }),
    {
        LootManager {
            experience_multiplier: 1000,
            health_multiplier: 1000,
            energy_multiplier: 1000,
            currency_multiplier: 1000,
            attraction_range_bonus: 0,
        }
    }

    /// Turns a drop into an item lying at `position`.
    pub fn create_loot_drop(&self, drop_type: &LootDrop, position: Vec3) -> (r: LootItem)
        ensures
            r == self.item_for(*drop_type, position),
    {
        let mut item = match drop_type {
            LootDrop::Experience(value) => LootItem::new_experience(
                scale(*value, self.experience_multiplier),
                position,
            ),
            LootDrop::Health(value) => LootItem::new_health(
                scale(*value, self.health_multiplier),
                position,
            ),
            LootDrop::Energy(value) => LootItem::new_energy(
                scale(*value, self.energy_multiplier),
                position,
            ),
            LootDrop::Currency(coins) => LootItem::new_currency(
                scale((*coins as u64) * 1000, self.currency_multiplier),
                position,
            ),
        };
        item.attraction_range = item.attraction_range.saturating_add(self.attraction_range_bonus);
        item
    }

    /// Widens the range from which items are drawn in.
    pub fn apply_magnet_upgrade(&mut self, bonus_range: u64)
        ensures
            *final(self) == (LootManager {
                attraction_range_bonus: sum_u64(old(self).attraction_range_bonus, bonus_range),
                ..*old(self)
            }),
    {
        self.attraction_range_bonus = self.attraction_range_bonus.saturating_add(bonus_range);
    }

    /// Multiplies the worth of experience and currency.
    pub fn apply_value_multiplier(&mut self, multiplier: u64)
        ensures
            *final(self) == (LootManager {
                experience_multiplier: clamp_u64(
                    scaled(old(self).experience_multiplier as int, multiplier as int),
                ),
                currency_multiplier: clamp_u64(
                    scaled(old(self).currency_multiplier as int, multiplier as int),
                ),
                ..*old(self)
            }),
    {
        self.experience_multiplier = scale(self.experience_multiplier, multiplier);
        self.currency_multiplier = scale(self.currency_multiplier, multiplier);
    }
}

/// The coins that an enemy of a kind drops.
pub open spec fn currency_for(enemy_type: EnemyType) -> u32 {
    match enemy_type {
        EnemyType::Swarm => 1,
        EnemyType::Chaser => 2,
        EnemyType::Shooter => 3,
        EnemyType::Tank => 5,
        EnemyType::Elite => 10,
        EnemyType::Boss => 40,
    }
}

/// The coins that an enemy of a kind drops.
pub fn currency_value(enemy_type: EnemyType) -> (r: u32)
    ensures
        r == currency_for(enemy_type),
{
    match enemy_type {
        EnemyType::Swarm => 1,
        EnemyType::Chaser => 2,
        EnemyType::Shooter => 3,
        EnemyType::Tank => 5,
        EnemyType::Elite => 10,
        EnemyType::Boss => 40,
    }
}

/// A list of one drop if `present` holds, and of none otherwise.
pub open spec fn drop_if(present: bool, drop: LootDrop) -> Seq<LootDrop> {
    if present {
        seq![drop]
    } else {
        Seq::empty()
    }
}

/// Decides what dead enemies drop.
#[derive(Clone, Copy, Debug, PartialEq, Eq, Structural)]
pub struct LootTable {
    pub config: LootConfig,
}

impl LootTable {
    /// The experience that an enemy drops: the base drop plus a share of the
    /// enemy's full health.
    pub open spec fn experience_for(self, enemy: Enemy) -> u64 {
        clamp_u64(
            self.config.exp_drop_base + scaled(
                enemy.max_health as int,
                self.config.exp_drop_scaling as int,
            ),
        )
    }

    /// What an enemy drops for two rolls: always experience; a health pack
    /// if the first roll is below the chance of one; an energy cell if the
    /// second roll is below the chance of one; and always, last, the coins of
    /// the enemy's kind.
    pub open spec fn drops_for(self, enemy: Enemy, health_roll: u32, energy_roll: u32) -> Seq<
        LootDrop,
    > {
        seq![LootDrop::Experience(self.experience_for(enemy))] + drop_if(
            health_roll < self.config.drop_chances.health_pack,
            LootDrop::Health(self.config.health_pack_heal),
        ) + drop_if(
            energy_roll < self.config.drop_chances.energy_cell,
            LootDrop::Energy(self.config.energy_cell_restore),
        ) + seq![LootDrop::Currency(currency_for(enemy.enemy_type))]
    }

    /// A loot table with the given balance.
    pub fn new(config: LootConfig) -> (r: LootTable)
        ensures
            r.config == config,
    {
        LootTable { config }
    }

    /// What the enemy drops for the two rolls given: the same enemy and the
    /// same rolls always give the same drops.
    pub fn roll_drops_with(&self, enemy: &Enemy, health_roll: u32, energy_roll: u32) -> (drops:
        Vec<LootDrop>)
        ensures
            drops@ == self.drops_for(*enemy, health_roll, energy_roll),
    {
        let mut drops: Vec<LootDrop> = Vec::new();
        let share: u64 = scale(enemy.max_health, self.config.exp_drop_scaling);
        drops.push(LootDrop::Experience(self.config.exp_drop_base.saturating_add(share)));
        if (health_roll as u64) < self.config.drop_chances.health_pack {
            drops.push(LootDrop::Health(self.config.health_pack_heal));
        }
        if (energy_roll as u64) < self.config.drop_chances.energy_cell {
            drops.push(LootDrop::Energy(self.config.energy_cell_restore));
        }
        drops.push(LootDrop::Currency(currency_value(enemy.enemy_type)));
        assert(drops@ =~= self.drops_for(*enemy, health_roll, energy_roll));
        drops
    }

    /// What the enemy drops, with two rolls drawn at random, one for the
    /// health pack and one for the energy cell.
    pub fn roll_drops(&self, enemy: &Enemy) -> (drops: Vec<LootDrop>)
        ensures
            exists|health_roll: u32, energy_roll: u32|
                health_roll < ROLL_RANGE && energy_roll < ROLL_RANGE && drops@
                    == #[trigger] self.drops_for(*enemy, health_roll, energy_roll),
    {
        let health_roll = roll();
        let energy_roll = roll();
        self.roll_drops_with(enemy, health_roll, energy_roll)
    }
}

impl Default for LootTable {
    fn default() -> (r: LootTable)
        ensures
            r.config == LootConfig::standard(),
    {
        LootTable { config: LootConfig::default() }
    }
}

/// Every kill drops experience first and coins last, with at most a health
/// pack and an energy cell between them, in that order.
pub proof fn lemma_drops_shape(table: LootTable, enemy: Enemy, health_roll: u32, energy_roll: u32)
    ensures
        ({
            let drops = table.drops_for(enemy, health_roll, energy_roll);
            &&& 2 <= drops.len() <= 4
            &&& drops.first() == LootDrop::Experience(table.experience_for(enemy))
            &&& drops.last() == LootDrop::Currency(currency_for(enemy.enemy_type))
            &&& forall|i: int|
                0 < i < drops.len() - 1 ==> #[trigger] drops[i] is Health || drops[i] is Energy
            &&& drops.len() == 2 + (if health_roll < table.config.drop_chances.health_pack {
                1int
            } else {
                0int
            }) + (if energy_roll < table.config.drop_chances.energy_cell {
                1int
            } else {
                0int
            })
        }),
{
}

/// Whether the health pack drops depends on the first roll alone, and
/// whether the energy cell drops on the second alone.
pub proof fn lemma_rolls_are_independent(
    table: LootTable,
    enemy: Enemy,
    health_roll: u32,
    energy_roll: u32,
)
    ensures
        table.drops_for(enemy, health_roll, energy_roll).contains(
            LootDrop::Health(table.config.health_pack_heal),
        ) <==> health_roll < table.config.drop_chances.health_pack,
        table.drops_for(enemy, health_roll, energy_roll).contains(
            LootDrop::Energy(table.config.energy_cell_restore),
        ) <==> energy_roll < table.config.drop_chances.energy_cell,
{
    let drops = table.drops_for(enemy, health_roll, energy_roll);
    let with_health = health_roll < table.config.drop_chances.health_pack;
    let with_energy = energy_roll < table.config.drop_chances.energy_cell;
    if with_health {
        assert(drops[1] == LootDrop::Health(table.config.health_pack_heal));
    }
    if with_energy {
        let at = if with_health {
            2int
        } else {
            1int
        };
        assert(drops[at] == LootDrop::Energy(table.config.energy_cell_restore));
    }
}

/// The drops are a function of the enemy and the rolls: equal enemies and
/// equal rolls give equal drops, whatever was rolled before.
pub proof fn lemma_drops_reproducible(
    table: LootTable,
    first: Enemy,
    second: Enemy,
    rolls_a: (u32, u32),
    rolls_b: (u32, u32),
)
    requires
        first == second,
        rolls_a == rolls_b,
    ensures
        table.drops_for(first, rolls_a.0, rolls_a.1) == table.drops_for(
            second,
            rolls_b.0,
            rolls_b.1,
        ),
{
}

} // verus!
