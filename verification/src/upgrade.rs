//! Upgrades: what the player may choose on gaining a level, what the shop
//! sells, and what each choice does to the player.

use crate::fixed::{clamp_i64, clamp_u64, next_u32, raise, scale, scaled, sum_u64};
use crate::player::{Player, WeaponType};
use vstd::prelude::*;

verus! {

/// What an upgrade improves, and by how much.
#[derive(Clone, Copy, Debug, PartialEq, Eq, Structural)]
pub enum UpgradeType {
    /// Adds to the damage multiplier.
    WeaponDamage(u64),
    /// Raises the fire rate by a share of itself.
    WeaponFireRate(u64),
    WeaponProjectileCount(u32),
    WeaponRange(u64),
    /// Replaces the primary weapon.
    WeaponNewType(WeaponType),
    /// Raises the speed by a share of itself.
    ShipSpeed(u64),
    /// Adds to the greatest and the present health.
    ShipHealth(u64),
    /// Adds to the greatest and the present shields.
    ShipShields(u64),
    ShipArmor(u64),
    /// Adds to the greatest special energy.
    SpecialEnergyMax(u64),
    SpecialEnergyRegen(u64),
    AbilityAoe,
    AbilityDrone,
    AbilityShield,
    ExpMultiplier(u64),
    LootMagnet(u64),
    HealthRegen(u64),
}

/// The slot that an upgrade occupies: two upgrades of one kind share a level,
/// whatever their amounts.
#[derive(Clone, Copy, Debug, PartialEq, Eq, Structural)]
pub enum UpgradeKind {
    WeaponDamage,
    WeaponFireRate,
    WeaponProjectileCount,
    WeaponRange,
    WeaponNewType,
    ShipSpeed,
    ShipHealth,
    ShipShields,
    ShipArmor,
    SpecialEnergyMax,
    SpecialEnergyRegen,
    AbilityAoe,
    AbilityDrone,
    AbilityShield,
    ExpMultiplier,
    LootMagnet,
    HealthRegen,
}

impl Default for UpgradeType {
    fn default() -> (r: UpgradeType)
        ensures
            r == UpgradeType::WeaponDamage(0),
    {
        UpgradeType::WeaponDamage(0)
    }
}

impl UpgradeType {
    /// The slot of the upgrade.
    pub open spec fn slot(self) -> UpgradeKind {
        match self {
            UpgradeType::WeaponDamage(_) => UpgradeKind::WeaponDamage,
            UpgradeType::WeaponFireRate(_) => UpgradeKind::WeaponFireRate,
            UpgradeType::WeaponProjectileCount(_) => UpgradeKind::WeaponProjectileCount,
            UpgradeType::WeaponRange(_) => UpgradeKind::WeaponRange,
            UpgradeType::WeaponNewType(_) => UpgradeKind::WeaponNewType,
            UpgradeType::ShipSpeed(_) => UpgradeKind::ShipSpeed,
            UpgradeType::ShipHealth(_) => UpgradeKind::ShipHealth,
            UpgradeType::ShipShields(_) => UpgradeKind::ShipShields,
            UpgradeType::ShipArmor(_) => UpgradeKind::ShipArmor,
            UpgradeType::SpecialEnergyMax(_) => UpgradeKind::SpecialEnergyMax,
            UpgradeType::SpecialEnergyRegen(_) => UpgradeKind::SpecialEnergyRegen,
            UpgradeType::AbilityAoe => UpgradeKind::AbilityAoe,
            UpgradeType::AbilityDrone => UpgradeKind::AbilityDrone,
            UpgradeType::AbilityShield => UpgradeKind::AbilityShield,
            UpgradeType::ExpMultiplier(_) => UpgradeKind::ExpMultiplier,
            UpgradeType::LootMagnet(_) => UpgradeKind::LootMagnet,
            UpgradeType::HealthRegen(_) => UpgradeKind::HealthRegen,
        }
    }

    /// The slot of the upgrade.
    pub fn kind(&self) -> (r: UpgradeKind)
        ensures
            r == self.slot(),
    {
        match self {
            UpgradeType::WeaponDamage(_) => UpgradeKind::WeaponDamage,
            UpgradeType::WeaponFireRate(_) => UpgradeKind::WeaponFireRate,
            UpgradeType::WeaponProjectileCount(_) => UpgradeKind::WeaponProjectileCount,
            UpgradeType::WeaponRange(_) => UpgradeKind::WeaponRange,
            UpgradeType::WeaponNewType(_) => UpgradeKind::WeaponNewType,
            UpgradeType::ShipSpeed(_) => UpgradeKind::ShipSpeed,
            UpgradeType::ShipHealth(_) => UpgradeKind::ShipHealth,
            UpgradeType::ShipShields(_) => UpgradeKind::ShipShields,
            UpgradeType::ShipArmor(_) => UpgradeKind::ShipArmor,
            UpgradeType::SpecialEnergyMax(_) => UpgradeKind::SpecialEnergyMax,
            UpgradeType::SpecialEnergyRegen(_) => UpgradeKind::SpecialEnergyRegen,
            UpgradeType::AbilityAoe => UpgradeKind::AbilityAoe,
            UpgradeType::AbilityDrone => UpgradeKind::AbilityDrone,
            UpgradeType::AbilityShield => UpgradeKind::AbilityShield,
            UpgradeType::ExpMultiplier(_) => UpgradeKind::ExpMultiplier,
            UpgradeType::LootMagnet(_) => UpgradeKind::LootMagnet,
            UpgradeType::HealthRegen(_) => UpgradeKind::HealthRegen,
        }
    }

    /// A quantity raised by the share `bonus` of itself.
    pub open spec fn boosted(value: u64, bonus: u64) -> u64 {
        clamp_u64(value + scaled(value as int, bonus as int))
    }

    /// The player after one application of the upgrade. Kinds without an
    /// effect on the player's statistics leave the player as it is.
    pub open spec fn effect_on(self, player: Player) -> Player {
        match self {
            UpgradeType::WeaponDamage(bonus) => Player {
                damage_multiplier: sum_u64(player.damage_multiplier, bonus),
                ..player
            },
            UpgradeType::WeaponFireRate(bonus) => Player {
                fire_rate: UpgradeType::boosted(player.fire_rate, bonus),
                ..player
            },
            UpgradeType::WeaponNewType(weapon) => Player { primary_weapon: weapon, ..player },
            UpgradeType::ShipSpeed(bonus) => Player {
                speed: UpgradeType::boosted(player.speed, bonus),
                ..player
            },
            UpgradeType::ShipHealth(bonus) => Player {
                max_health: sum_u64(player.max_health, bonus),
                health: clamp_i64(player.health + bonus),
                ..player
            },
            UpgradeType::ShipShields(bonus) => Player {
                max_shields: sum_u64(player.max_shields, bonus),
                shields: sum_u64(player.shields, bonus),
                ..player
            },
            UpgradeType::SpecialEnergyMax(bonus) => Player {
                max_special_energy: sum_u64(player.max_special_energy, bonus),
                ..player
            },
            _ => player,
        }
    }

    /// Applies the upgrade to the player once.
    pub fn apply_to(&self, player: &mut Player)
        ensures
            *final(player) == self.effect_on(*old(player)),
    {
        match self {
            UpgradeType::WeaponDamage(bonus) => {
                player.damage_multiplier = player.damage_multiplier.saturating_add(*bonus);
            },
            UpgradeType::WeaponFireRate(bonus) => {
                player.fire_rate = player.fire_rate.saturating_add(scale(player.fire_rate, *bonus));
            },
            UpgradeType::WeaponNewType(weapon) => {
                player.primary_weapon = *weapon;
            },
            UpgradeType::ShipSpeed(bonus) => {
                player.speed = player.speed.saturating_add(scale(player.speed, *bonus));
            },
            UpgradeType::ShipHealth(bonus) => {
                player.max_health = player.max_health.saturating_add(*bonus);
                player.health = raise(player.health, *bonus);
            },
            UpgradeType::ShipShields(bonus) => {
                player.max_shields = player.max_shields.saturating_add(*bonus);
                player.shields = player.shields.saturating_add(*bonus);
            },
            UpgradeType::SpecialEnergyMax(bonus) => {
                player.max_special_energy = player.max_special_energy.saturating_add(*bonus);
            },
            _ => {},
        }
    }
}

/// Raising a quantity by the share `bonus` of itself multiplies it by one
/// plus `bonus`.
pub proof fn lemma_boost_is_a_product(value: u64, bonus: u64)
    ensures
        UpgradeType::boosted(value, bonus) == clamp_u64(scaled(value as int, 1000 + bonus)),
{
    let v = value as int;
    let b = bonus as int;
    assert(v * (1000 + b) == v * b + v * 1000) by (nonlinear_arith);
    vstd::arithmetic::div_mod::lemma_div_plus_one(v * b, 1000);
    vstd::arithmetic::div_mod::lemma_hoist_over_denominator(v * b, v, 1000);
}

/// No upgrade lowers a statistic of the player, and none touches the
/// player's experience, level or life.
pub proof fn lemma_upgrades_only_improve(upgrade_type: UpgradeType, player: Player)
    ensures
        ({
            let after = upgrade_type.effect_on(player);
            &&& after.health >= player.health
            &&& after.max_health >= player.max_health
            &&& after.shields >= player.shields
            &&& after.max_shields >= player.max_shields
            &&& after.special_energy == player.special_energy
            &&& after.max_special_energy >= player.max_special_energy
            &&& after.speed >= player.speed
            &&& after.fire_rate >= player.fire_rate
            &&& after.damage_multiplier >= player.damage_multiplier
            &&& after.experience == player.experience
            &&& after.level == player.level
            &&& after.is_alive == player.is_alive
            &&& after.last_shot_time == player.last_shot_time
        }),
{
    match upgrade_type {
        UpgradeType::WeaponFireRate(bonus) => {
            assert(player.fire_rate * bonus >= 0) by (nonlinear_arith)
                requires
                    player.fire_rate >= 0,
                    bonus >= 0,
            ;
        },
        UpgradeType::ShipSpeed(bonus) => {
            assert(player.speed * bonus >= 0) by (nonlinear_arith)
                requires
                    player.speed >= 0,
                    bonus >= 0,
            ;
        },
        _ => {},
    }
}

/// One upgrade on offer, with the level it has reached.
#[derive(Debug)]
pub struct Upgrade {
    pub upgrade_type: UpgradeType,
    pub name: String,
    pub description: String,
    pub cost: u32,
    pub level: u32,
    pub max_level: u32,
    /// Whether the shop sells it; otherwise it is a reward for a level.
    pub is_shop_item: bool,
}

/// What an upgrade holds, with its texts as sequences of characters.
pub struct UpgradeView {
    pub upgrade_type: UpgradeType,
    pub name: Seq<char>,
    pub description: Seq<char>,
    pub cost: u32,
    pub level: u32,
    pub max_level: u32,
    pub is_shop_item: bool,
}

impl View for Upgrade {
    type V = UpgradeView;

    open spec fn view(&self) -> UpgradeView {
        UpgradeView {
            upgrade_type: self.upgrade_type,
            name: self.name@,
            description: self.description@,
            cost: self.cost,
            level: self.level,
            max_level: self.max_level,
            is_shop_item: self.is_shop_item,
        }
    }
}

impl Clone for Upgrade {
    fn clone(&self) -> (r: Upgrade)
        ensures
            r == *self,
    {
        Upgrade {
            upgrade_type: self.upgrade_type,
            name: self.name.clone(),
            description: self.description.clone(),
            cost: self.cost,
            level: self.level,
            max_level: self.max_level,
            is_shop_item: self.is_shop_item,
        }
    }
}

impl Default for Upgrade {
    fn default() -> (r: Upgrade)
        ensures
            r@ == (UpgradeView {
                upgrade_type: UpgradeType::WeaponDamage(0),
                name: Seq::empty(),
                description: Seq::empty(),
                cost: 0,
                level: 0,
                max_level: 0,
                is_shop_item: false,
            }),
    {
        Upgrade {
            upgrade_type: UpgradeType::WeaponDamage(0),
            name: String::new(),
            description: String::new(),
            cost: 0,
            level: 0,
            max_level: 0,
            is_shop_item: false,
        }
    }
}

impl Upgrade {
    /// A reward for a level: free, at level zero.
    pub open spec fn reward(
        upgrade_type: UpgradeType,
        name: Seq<char>,
        description: Seq<char>,
        max_level: u32,
    ) -> UpgradeView {
        UpgradeView {
            upgrade_type,
            name,
            description,
            cost: 0,
            level: 0,
            max_level,
            is_shop_item: false,
        }
    }

    /// An item of the shop, at level zero.
    pub open spec fn ware(
        upgrade_type: UpgradeType,
        name: Seq<char>,
        description: Seq<char>,
        cost: u32,
        max_level: u32,
    ) -> UpgradeView {
        UpgradeView { upgrade_type, name, description, cost, level: 0, max_level, is_shop_item: true }
    }

    /// An upgrade at level zero.
    fn offer(
        upgrade_type: UpgradeType,
        name: &str,
        description: &str,
        cost: u32,
        max_level: u32,
        is_shop_item: bool,
    ) -> (r: Upgrade)
        ensures
            r@ == (UpgradeView {
                upgrade_type,
                name: name@,
                description: description@,
                cost,
                level: 0,
                max_level,
                is_shop_item,
            }),
    {
        Upgrade {
            upgrade_type,
            name: name.to_string(),
            description: description.to_string(),
            cost,
            level: 0,
            max_level,
            is_shop_item,
        }
    }

    /// The reward that adds a fifth to the damage multiplier.
    pub fn weapon_damage_boost() -> (r: Upgrade)
        ensures
            r@ == Upgrade::reward(
                UpgradeType::WeaponDamage(200),
                "Weapon Power"@,
                "+20% weapon damage"@,
                10,
            ),
    {
        Upgrade::offer(
            UpgradeType::WeaponDamage(200),
            "Weapon Power",
            "+20% weapon damage",
            0,
            10,
            false,
        )
    }

    /// The reward that raises the fire rate by three tenths.
    pub fn fire_rate_boost() -> (r: Upgrade)
        ensures
            r@ == Upgrade::reward(
                UpgradeType::WeaponFireRate(300),
                "Rapid Fire"@,
                "+30% fire rate"@,
                8,
            ),
    {
        Upgrade::offer(UpgradeType::WeaponFireRate(300), "Rapid Fire", "+30% fire rate", 0, 8, false)
    }

    /// The reward that adds a projectile to each shot.
    pub fn multishot() -> (r: Upgrade)
        ensures
            r@ == Upgrade::reward(
                UpgradeType::WeaponProjectileCount(1),
                "Multi-Shot"@,
                "+1 projectile per shot"@,
                3,
            ),
    {
        Upgrade::offer(
            UpgradeType::WeaponProjectileCount(1),
            "Multi-Shot",
            "+1 projectile per shot",
            0,
            3,
            false,
        )
    }

    /// The reward that raises the speed by fifteen hundredths.
    pub fn speed_boost() -> (r: Upgrade)
        ensures
            r@ == Upgrade::reward(
                UpgradeType::ShipSpeed(150),
                "Engine Boost"@,
                "+15% movement speed"@,
                6,
            ),
    {
        Upgrade::offer(UpgradeType::ShipSpeed(150), "Engine Boost", "+15% movement speed", 0, 6, false)
    }

    /// The reward that adds 25 to the greatest health.
    pub fn health_boost() -> (r: Upgrade)
        ensures
            r@ == Upgrade::reward(
                UpgradeType::ShipHealth(25_000),
                "Hull Reinforcement"@,
                "+25 max health"@,
                8,
            ),
    {
        Upgrade::offer(
            UpgradeType::ShipHealth(25_000),
            "Hull Reinforcement",
            "+25 max health",
            0,
            8,
            false,
        )
    }

    /// The reward that adds 20 to the greatest shields.
    pub fn shield_boost() -> (r: Upgrade)
        ensures
            r@ == Upgrade::reward(
                UpgradeType::ShipShields(20_000),
                "Shield Upgrade"@,
                "+20 max shields"@,
                6,
            ),
    {
        Upgrade::offer(
            UpgradeType::ShipShields(20_000),
            "Shield Upgrade",
            "+20 max shields",
            0,
            6,
            false,
        )
    }

    /// The laser, as the shop sells it.
    pub fn shop_laser_weapon() -> (r: Upgrade)
        ensures
            r@ == Upgrade::ware(
                UpgradeType::WeaponNewType(WeaponType::Laser),
                "Laser Cannon"@,
                "Continuous beam weapon with high damage"@,
                100,
                1,
            ),
    {
        Upgrade::offer(
            UpgradeType::WeaponNewType(WeaponType::Laser),
            "Laser Cannon",
            "Continuous beam weapon with high damage",
            100,
            1,
            true,
        )
    }

    /// The rocket launcher, as the shop sells it.
    pub fn shop_rocket_weapon() -> (r: Upgrade)
        ensures
            r@ == Upgrade::ware(
                UpgradeType::WeaponNewType(WeaponType::Rocket),
                "Rocket Launcher"@,
                "Explosive projectiles with area damage"@,
                150,
                1,
            ),
    {
        Upgrade::offer(
            UpgradeType::WeaponNewType(WeaponType::Rocket),
            "Rocket Launcher",
            "Explosive projectiles with area damage",
            150,
            1,
            true,
        )
    }

    /// The area pulse, as the shop sells it.
    pub fn shop_aoe_ability() -> (r: Upgrade)
        ensures
            r@ == Upgrade::ware(
                UpgradeType::AbilityAoe,
                "EMP Pulse"@,
                "Area of effect damage ability"@,
                200,
                3,
            ),
    {
        Upgrade::offer(
            UpgradeType::AbilityAoe,
            "EMP Pulse",
            "Area of effect damage ability",
            200,
            3,
            true,
        )
    }

    /// The combat drone, as the shop sells it.
    pub fn shop_drone() -> (r: Upgrade)
        ensures
            r@ == Upgrade::ware(
                UpgradeType::AbilityDrone,
                "Combat Drone"@,
                "Autonomous drone that fights alongside you"@,
                250,
                2,
            ),
    {
        Upgrade::offer(
            UpgradeType::AbilityDrone,
            "Combat Drone",
            "Autonomous drone that fights alongside you",
            250,
            2,
            true,
        )
    }

    /// Whether the upgrade has a level left to gain.
    pub open spec fn upgradable(self) -> bool {
        self.level < self.max_level
    }

    /// The price of the next level: nothing for a reward, and for an item
    /// of the shop its cost times the level it would reach.
    pub open spec fn price(self) -> int {
        if self.is_shop_item {
            self.cost * (self.level + 1)
        } else {
            0
        }
    }

    /// The upgrade one level higher.
    pub open spec fn raised(self) -> Upgrade {
        Upgrade { level: next_u32(self.level), ..self }
    }

    /// Whether the upgrade has a level left to gain.
    pub fn can_upgrade(&self) -> (r: bool)
        ensures
            r == self.upgradable(),
    {
        self.level < self.max_level
    }

    /// The price of the next level.
    pub fn get_current_cost(&self) -> (r: u64)
        ensures
            r == self.price(),
    {
        if self.is_shop_item {
            assert(self.cost * (self.level + 1) <= 0xffff_ffff * 0x1_0000_0000) by (nonlinear_arith)
                requires
                    self.cost <= 0xffff_ffff,
                    self.level + 1 <= 0x1_0000_0000,
            ;
            (self.cost as u64) * (self.level as u64 + 1)
        } else {
            0
        }
    }
}

/// The position of the first upgrade of a kind in a pool, if there is one.
pub open spec fn first_of_kind(pool: Seq<Upgrade>, kind: UpgradeKind) -> Option<int>
    decreases pool.len(),
{
    if pool.len() == 0 {
        None
    } else {
        match first_of_kind(pool.drop_last(), kind) {
            Some(i) => Some(i),
            None => if pool.last().upgrade_type.slot() == kind {
                Some(pool.len() - 1)
            } else {
                None
            },
        }
    }
}

/// The pool with the first upgrade of a kind one level higher; a pool
/// without the kind is left as it is.
pub open spec fn bumped(pool: Seq<Upgrade>, kind: UpgradeKind) -> Seq<Upgrade> {
    match first_of_kind(pool, kind) {
        Some(i) => pool.update(i, pool[i].raised()),
        None => pool,
    }
}

/// The ledger after an upgrade was applied: the entry of its kind is one
/// level higher, or, if there was none, the upgrade is entered at level one.
pub open spec fn recorded(ledger: Seq<Upgrade>, upgrade: Upgrade) -> Seq<Upgrade> {
    match first_of_kind(ledger, upgrade.upgrade_type.slot()) {
        Some(i) => ledger.update(i, ledger[i].raised()),
        None => ledger.push(Upgrade { level: 1, ..upgrade }),
    }
}

/// The upgrades of a pool that have a level left to gain, in the order of
/// the pool.
pub open spec fn open_offers(pool: Seq<Upgrade>) -> Seq<Upgrade> {
    pool.filter(|u: Upgrade| u.upgradable())
}

/// The first upgrade of a kind is of that kind, nothing before it is, and
/// where none is found the pool holds none.
pub proof fn lemma_first_of_kind(pool: Seq<Upgrade>, kind: UpgradeKind)
    ensures
        match first_of_kind(pool, kind) {
            Some(i) => {
                &&& 0 <= i < pool.len()
                &&& pool[i].upgrade_type.slot() == kind
                &&& forall|j: int| 0 <= j < i ==> (#[trigger] pool[j]).upgrade_type.slot() != kind
            },
            None => forall|j: int|
                0 <= j < pool.len() ==> (#[trigger] pool[j]).upgrade_type.slot() != kind,
        },
    decreases pool.len(),
{
    if pool.len() > 0 {
        let rest = pool.drop_last();
        lemma_first_of_kind(rest, kind);
        assert(forall|j: int| 0 <= j < rest.len() ==> rest[j] == pool[j]);
    }
}

fn find_kind(pool: &Vec<Upgrade>, kind: UpgradeKind) -> (found: Option<usize>)
    ensures
        match found {
            Some(i) => first_of_kind(pool@, kind) == Some(i as int) && i < pool@.len(),
            None => first_of_kind(pool@, kind) == None::<int>,
        },
{
    let mut i: usize = 0;
    assert(pool@.take(0) =~= Seq::<Upgrade>::empty());
    while i < pool.len()
        invariant
            i <= pool@.len(),
            first_of_kind(pool@.take(i as int), kind) == None::<int>,
        decreases pool@.len() - i,
    {
        proof {
            assert(pool@.take(i + 1).drop_last() =~= pool@.take(i as int));
            assert(pool@.take(i + 1).last() == pool@[i as int]);
        }
        if pool[i].upgrade_type.kind() == kind {
            proof {
                lemma_found_in_prefix(pool@, kind, i + 1);
            }
            return Some(i);
        }
        i += 1;
    }
    assert(pool@.take(pool@.len() as int) =~= pool@);
    None
}

proof fn lemma_found_in_prefix(pool: Seq<Upgrade>, kind: UpgradeKind, n: int)
    requires
        0 <= n <= pool.len(),
        first_of_kind(pool.take(n), kind) is Some,
    ensures
        first_of_kind(pool, kind) == first_of_kind(pool.take(n), kind),
    decreases pool.len() - n,
{
    if n < pool.len() {
        assert(pool.take(n + 1).drop_last() =~= pool.take(n));
        lemma_found_in_prefix(pool, kind, n + 1);
    } else {
        assert(pool.take(n) =~= pool);
    }
}

fn bump(pool: &mut Vec<Upgrade>, kind: UpgradeKind) -> (found: bool)
    ensures
        final(pool)@ == bumped(old(pool)@, kind),
        found == first_of_kind(old(pool)@, kind) is Some,
{
    match find_kind(pool, kind) {
        Some(i) => {
            let level = pool[i].level;
            if level < u32::MAX {
                pool[i].level = level + 1;
            }
            assert(pool@ =~= old(pool)@.update(i as int, old(pool)@[i as int].raised()));
            true
        },
        None => false,
    }
}

fn offers(pool: &Vec<Upgrade>) -> (open: Vec<Upgrade>)
    ensures
        open@ == open_offers(pool@),
{
    let mut open: Vec<Upgrade> = Vec::new();
    let mut i: usize = 0;
    proof {
        reveal(Seq::filter);
        assert(pool@.take(0) =~= Seq::<Upgrade>::empty());
    }
    while i < pool.len()
        invariant
            i <= pool@.len(),
            open@ == open_offers(pool@.take(i as int)),
        decreases pool@.len() - i,
    {
        proof {
            reveal(Seq::filter);
            assert(pool@.take(i + 1).drop_last() =~= pool@.take(i as int));
            assert(pool@.take(i + 1).last() == pool@[i as int]);
        }
        if pool[i].can_upgrade() {
            open.push(pool[i].clone());
        }
        i += 1;
    }
    assert(pool@.take(pool@.len() as int) =~= pool@);
    open
}

/// The pools of upgrades and the ledger of those applied.
#[derive(Debug)]
pub struct UpgradeManager {
    /// The rewards for levels.
    pub available_levelup_upgrades: Vec<Upgrade>,
    /// The wares of the shop.
    pub available_shop_items: Vec<Upgrade>,
    /// One entry for each kind of upgrade applied so far, with the number of
    /// times it was applied as its level.
    pub applied_upgrades: Vec<Upgrade>,
}

impl Clone for UpgradeManager {
    fn clone(&self) -> (r: UpgradeManager)
        ensures
            r.available_levelup_upgrades@ == self.available_levelup_upgrades@,
            r.available_shop_items@ == self.available_shop_items@,
            r.applied_upgrades@ == self.applied_upgrades@,
    {
        UpgradeManager {
            available_levelup_upgrades: copy_pool(&self.available_levelup_upgrades),
            available_shop_items: copy_pool(&self.available_shop_items),
            applied_upgrades: copy_pool(&self.applied_upgrades),
        }
    }
}

fn copy_pool(pool: &Vec<Upgrade>) -> (copy: Vec<Upgrade>)
    ensures
        copy@ == pool@,
{
    let mut copy: Vec<Upgrade> = Vec::new();
    let mut i: usize = 0;
    while i < pool.len()
        invariant
            i <= pool@.len(),
            copy@ == pool@.take(i as int),
        decreases pool@.len() - i,
    {
        copy.push(pool[i].clone());
        assert(copy@ =~= pool@.take(i + 1));
        i += 1;
    }
    assert(pool@.take(pool@.len() as int) =~= pool@);
    copy
}

impl Default for UpgradeManager {
    fn default() -> (r: UpgradeManager)
        ensures
            r.available_levelup_upgrades@.len() == 0,
            r.available_shop_items@.len() == 0,
            r.applied_upgrades@.len() == 0,
    {
        UpgradeManager {
            available_levelup_upgrades: Vec::new(),
            available_shop_items: Vec::new(),
            applied_upgrades: Vec::new(),
        }
    }
}

/// What each upgrade of a pool holds.
pub open spec fn pool_views(pool: Seq<Upgrade>) -> Seq<UpgradeView> {
    pool.map_values(|u: Upgrade| u@)
}

/// The rewards for levels with which a game starts.
pub open spec fn levelup_pool() -> Seq<UpgradeView> {
    seq![
        Upgrade::reward(UpgradeType::WeaponDamage(200), "Weapon Power"@, "+20% weapon damage"@, 10),
        Upgrade::reward(UpgradeType::WeaponFireRate(300), "Rapid Fire"@, "+30% fire rate"@, 8),
        Upgrade::reward(
            UpgradeType::WeaponProjectileCount(1),
            "Multi-Shot"@,
            "+1 projectile per shot"@,
            3,
        ),
        Upgrade::reward(UpgradeType::ShipSpeed(150), "Engine Boost"@, "+15% movement speed"@, 6),
        Upgrade::reward(
            UpgradeType::ShipHealth(25_000),
            "Hull Reinforcement"@,
            "+25 max health"@,
            8,
        ),
        Upgrade::reward(UpgradeType::ShipShields(20_000), "Shield Upgrade"@, "+20 max shields"@, 6),
    ]
}

/// The wares with which the shop starts.
pub open spec fn shop_pool() -> Seq<UpgradeView> {
    seq![
        Upgrade::ware(
            UpgradeType::WeaponNewType(WeaponType::Laser),
            "Laser Cannon"@,
            "Continuous beam weapon with high damage"@,
            100,
            1,
        ),
        Upgrade::ware(
            UpgradeType::WeaponNewType(WeaponType::Rocket),
            "Rocket Launcher"@,
            "Explosive projectiles with area damage"@,
            150,
            1,
        ),
        Upgrade::ware(
            UpgradeType::AbilityAoe,
            "EMP Pulse"@,
            "Area of effect damage ability"@,
            200,
            3,
        ),
        Upgrade::ware(
            UpgradeType::AbilityDrone,
            "Combat Drone"@,
            "Autonomous drone that fights alongside you"@,
            250,
            2,
        ),
    ]
}

impl UpgradeManager {
    /// The manager at the start of a game: both pools full, every upgrade at
    /// level zero, nothing applied.
    pub fn new() -> (r: UpgradeManager)
        ensures
            pool_views(r.available_levelup_upgrades@) == levelup_pool(),
            pool_views(r.available_shop_items@) == shop_pool(),
            r.applied_upgrades@.len() == 0,
    {
        UpgradeManager {
            available_levelup_upgrades: UpgradeManager::create_levelup_pool(),
            available_shop_items: UpgradeManager::create_shop_pool(),
            applied_upgrades: Vec::new(),
        }
    }

    fn create_levelup_pool() -> (pool: Vec<Upgrade>)
        ensures
            pool_views(pool@) == levelup_pool(),
    {
        let mut pool: Vec<Upgrade> = Vec::new();
        pool.push(Upgrade::weapon_damage_boost());
        pool.push(Upgrade::fire_rate_boost());
        pool.push(Upgrade::multishot());
        pool.push(Upgrade::speed_boost());
        pool.push(Upgrade::health_boost());
        pool.push(Upgrade::shield_boost());
        assert(pool_views(pool@) =~= levelup_pool());
        pool
    }

    fn create_shop_pool() -> (pool: Vec<Upgrade>)
        ensures
            pool_views(pool@) == shop_pool(),
    {
        let mut pool: Vec<Upgrade> = Vec::new();
        pool.push(Upgrade::shop_laser_weapon());
        pool.push(Upgrade::shop_rocket_weapon());
        pool.push(Upgrade::shop_aoe_ability());
        pool.push(Upgrade::shop_drone());
        assert(pool_views(pool@) =~= shop_pool());
        pool
    }

    /// The first `count` rewards that have a level left to gain, in the
    /// order of the pool; fewer if the pool holds fewer.
    pub fn get_levelup_choices(&self, count: usize) -> (choices: Vec<Upgrade>)
        ensures
            choices@ == open_offers(self.available_levelup_upgrades@).take(
                if count <= open_offers(self.available_levelup_upgrades@).len() {
                    count as int
                } else {
                    open_offers(self.available_levelup_upgrades@).len() as int
                },
            ),
    {
        let mut choices = offers(&self.available_levelup_upgrades);
        if count < choices.len() {
            choices.truncate(count);
            assert(choices@ =~= open_offers(self.available_levelup_upgrades@).take(count as int));
        } else {
            assert(choices@ =~= choices@.take(choices@.len() as int));
        }
        choices
    }

    /// The wares of the shop that have a level left to gain, in the order of
    /// the pool.
    pub fn get_shop_items(&self) -> (items: Vec<Upgrade>)
        ensures
            items@ == open_offers(self.available_shop_items@),
    {
        offers(&self.available_shop_items)
    }

    /// The reward at position `index` of the pool, if there is one.
    pub fn levelup_upgrade_at(&self, index: usize) -> (r: Option<Upgrade>)
        ensures
            index < self.available_levelup_upgrades@.len() ==> r == Some(
                self.available_levelup_upgrades@[index as int],
            ),
            index >= self.available_levelup_upgrades@.len() ==> r is None,
    {
        if index < self.available_levelup_upgrades.len() {
            Some(self.available_levelup_upgrades[index].clone())
        } else {
            None
        }
    }

    /// The ware at position `index` of the shop, if there is one.
    pub fn shop_item_at(&self, index: usize) -> (r: Option<Upgrade>)
        ensures
            index < self.available_shop_items@.len() ==> r == Some(
                self.available_shop_items@[index as int],
            ),
            index >= self.available_shop_items@.len() ==> r is None,
    {
        if index < self.available_shop_items.len() {
            Some(self.available_shop_items[index].clone())
        } else {
            None
        }
    }

    /// Applies an upgrade to the player. An upgrade with no level left to
    /// gain is refused: the call returns `false` and changes nothing.
    /// Otherwise the player receives the effect of the upgrade, the first
    /// upgrade of the same kind in each pool rises by one level, the ledger
    /// notes the application, and the call returns `true`.
    pub fn apply_upgrade(&mut self, upgrade: Upgrade, player: &mut Player) -> (applied: bool)
        ensures
            applied == upgrade.upgradable(),
            !applied ==> {
                &&& *final(player) == *old(player)
                &&& final(self).available_levelup_upgrades@ == old(self).available_levelup_upgrades@
                &&& final(self).available_shop_items@ == old(self).available_shop_items@
                &&& final(self).applied_upgrades@ == old(self).applied_upgrades@
            },
            applied ==> {
                &&& *final(player) == upgrade.upgrade_type.effect_on(*old(player))
                &&& final(self).available_levelup_upgrades@ == bumped(
                    old(self).available_levelup_upgrades@,
                    upgrade.upgrade_type.slot(),
                )
                &&& final(self).available_shop_items@ == bumped(
                    old(self).available_shop_items@,
                    upgrade.upgrade_type.slot(),
                )
                &&& final(self).applied_upgrades@ == recorded(old(self).applied_upgrades@, upgrade)
            },
    {
        if !upgrade.can_upgrade() {
            return false;
        }
        self.apply_upgrade_effect(&upgrade, player);
        let kind = upgrade.upgrade_type.kind();
        let known = bump(&mut self.applied_upgrades, kind);
        if !known {
            let mut entry = upgrade;
            entry.level = 1;
            self.applied_upgrades.push(entry);
        }
        self.update_available_upgrades(kind);
        true
    }

    fn apply_upgrade_effect(&self, upgrade: &Upgrade, player: &mut Player)
        ensures
            *final(player) == upgrade.upgrade_type.effect_on(*old(player)),
    {
        upgrade.upgrade_type.apply_to(player);
    }

    fn update_available_upgrades(&mut self, kind: UpgradeKind)
        ensures
            final(self).available_levelup_upgrades@ == bumped(
                old(self).available_levelup_upgrades@,
                kind,
            ),
            final(self).available_shop_items@ == bumped(old(self).available_shop_items@, kind),
            final(self).applied_upgrades@ == old(self).applied_upgrades@,
    {
        bump(&mut self.available_levelup_upgrades, kind);
        bump(&mut self.available_shop_items, kind);
    }
}

} // verus!
