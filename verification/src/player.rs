//! The player: damage against shields and health, experience and levels,
//! weapons and the shots they fire.

use crate::fixed::{
    clamp_i64, lower, next_u32, scale, scale_signed, scaled, scaled_signed, smaller, sum_u64,
};
use crate::vec3::{distance_squared, moved, stretched, Vec3};
use vstd::prelude::*;

verus! {

/// The experience that each level costs, times the level.
pub const EXPERIENCE_PER_LEVEL: u64 = 100_000;

/// Shields regained per second.
pub const SHIELD_REGEN_RATE: u64 = 10_000;

/// Special energy regained per second.
pub const ENERGY_REGEN_RATE: u64 = 20_000;

/// How near a shot must come to an enemy to hit.
pub const PROJECTILE_REACH: u64 = 20_000;

/// How far from the origin a shot may stray before it disappears.
pub const PROJECTILE_WORLD_LIMIT: u64 = 1_000_000;

/// The kinds of weapon.
#[derive(Clone, Copy, Debug, PartialEq, Eq, Structural)]
pub enum WeaponType {
    Blaster,
    Laser,
    Rocket,
    AoePulse,
}

impl Default for WeaponType {
    fn default() -> (r: WeaponType)
        ensures
            r == WeaponType::Blaster,
    {
        WeaponType::Blaster
    }
}

/// How the shots of a weapon fly and look.
#[derive(Clone, Copy, Debug, PartialEq, Eq, Structural)]
pub struct ProjectileProfile {
    pub speed: u64,
    pub lifetime: u64,
    pub scale: u64,
}

impl WeaponType {
    /// The speed, lifetime and size of the shots of this weapon.
    pub open spec fn profile(self) -> ProjectileProfile {
        match self {
            WeaponType::Blaster => ProjectileProfile { speed: 800_000, lifetime: 2_000, scale: 150 },
            WeaponType::Laser => ProjectileProfile { speed: 1_200_000, lifetime: 1_500, scale: 120 },
            WeaponType::Rocket => ProjectileProfile { speed: 600_000, lifetime: 3_000, scale: 200 },
            WeaponType::AoePulse => ProjectileProfile {
                speed: 400_000,
                lifetime: 1_000,
                scale: 180,
            },
        }
    }

    /// The speed, lifetime and size of the shots of this weapon.
    pub fn projectile_profile(self) -> (r: ProjectileProfile)
        ensures
            r == self.profile(),
    {
        match self {
            WeaponType::Blaster => ProjectileProfile { speed: 800_000, lifetime: 2_000, scale: 150 },
            WeaponType::Laser => ProjectileProfile { speed: 1_200_000, lifetime: 1_500, scale: 120 },
            WeaponType::Rocket => ProjectileProfile { speed: 600_000, lifetime: 3_000, scale: 200 },
            WeaponType::AoePulse => ProjectileProfile {
                speed: 400_000,
                lifetime: 1_000,
                scale: 180,
            },
        }
    }
}

/// The player's ship.
#[derive(Clone, Copy, Debug, PartialEq, Eq, Structural)]
pub struct Player {
    pub health: i64,
    pub max_health: u64,
    pub shields: u64,
    pub max_shields: u64,
    pub special_energy: u64,
    pub max_special_energy: u64,
    pub experience: u64,
    pub level: u32,
    pub speed: u64,
    pub primary_weapon: WeaponType,
    pub fire_rate: u64,
    pub last_shot_time: u64,
    pub damage_multiplier: u64,
    pub is_alive: bool,
}

/// How the player's ship moves.
#[derive(Clone, Copy, Debug, PartialEq, Eq, Structural)]
pub struct PlayerMovement {
    pub velocity: Vec3,
    pub max_speed: u64,
    pub thrust_force: u64,
    pub turn_speed: u64,
    /// The heading in thousandths of a radian, zero being forward.
    pub current_direction: i64,
}

/// The weapon mounted on the player's ship.
#[derive(Clone, Copy, Debug, PartialEq, Eq, Structural)]
pub struct PlayerWeapon {
    pub weapon_type: WeaponType,
    pub last_shot: u64,
    pub fire_rate: u64,
    pub damage: u64,
}

/// A shot fired by the player.
#[derive(Clone, Copy, Debug, PartialEq, Eq, Structural)]
pub struct Projectile {
    pub velocity: Vec3,
    pub damage: u64,
    pub lifetime: u64,
    pub max_lifetime: u64,
}

impl Player {
    /// The player at the start of a game.
    pub open spec fn initial() -> Player {
        Player {
            health: 100_000,
            max_health: 100_000,
            shields: 50_000,
            max_shields: 50_000,
            special_energy: 100_000,
            max_special_energy: 100_000,
            experience: 0,
            level: 1,
            speed: 300_000,
            primary_weapon: WeaponType::Blaster,
            fire_rate: 5_000,
            last_shot_time: 0,
            damage_multiplier: 1_000,
            is_alive: true,
        }
    }

    /// The player at the start of a game.
    pub fn new() -> (r: Player)
        ensures
            r == Player::initial(),
    {
        Player {
            health: 100_000,
            max_health: 100_000,
            shields: 50_000,
            max_shields: 50_000,
            special_energy: 100_000,
            max_special_energy: 100_000,
            experience: 0,
            level: 1,
            speed: 300_000,
            primary_weapon: WeaponType::Blaster,
            fire_rate: 5_000,
            last_shot_time: 0,
            damage_multiplier: 1_000,
            is_alive: true,
        }
    }

    /// The part of a hit of `damage` that the shields take.
    pub open spec fn absorbed(self, damage: u64) -> int {
        smaller(damage as int, self.shields as int)
    }

    /// The player after a hit of `damage`: the shields take what they can,
    /// the rest comes off the health, which may fall below zero; a player
    /// whose health is not above zero is no longer alive.
    pub open spec fn after_damage(self, damage: u64) -> Player {
        let health = clamp_i64(self.health - (damage - self.absorbed(damage)));
        Player {
            shields: (self.shields - self.absorbed(damage)) as u64,
            health,
            is_alive: self.is_alive && health > 0,
            ..self
        }
    }

    /// Applies a hit of `damage`.
    pub fn take_damage(&mut self, damage: u64)
        ensures
            *final(self) == old(self).after_damage(damage),
    {
        let shield_damage: u64 = if damage <= self.shields {
            damage
        } else {
            self.shields
        };
        self.shields = self.shields - shield_damage;
        let remaining: u64 = damage - shield_damage;
        self.health = lower(self.health, remaining);
        if self.health <= 0 {
            self.is_alive = false;
        }
    }

    /// The experience that the present level costs.
    pub open spec fn experience_needed(self) -> int {
        self.level * EXPERIENCE_PER_LEVEL
    }

    /// Whether `exp` more experience completes the present level.
    pub open spec fn levels_up_with(self, exp: u64) -> bool {
        sum_u64(self.experience, exp) >= self.experience_needed()
    }

    /// The player after gaining `exp` experience: at most one level is
    /// gained, and its cost is taken off the experience.
    pub open spec fn after_experience(self, exp: u64) -> Player {
        if self.levels_up_with(exp) {
            Player {
                level: next_u32(self.level),
                experience: (sum_u64(self.experience, exp) - self.experience_needed()) as u64,
                ..self
            }
        } else {
            Player { experience: sum_u64(self.experience, exp), ..self }
        }
    }

    /// Adds experience. Returns whether the player gained a level.
    pub fn add_experience(&mut self, exp: u64) -> (leveled_up: bool)
        ensures
            leveled_up == old(self).levels_up_with(exp),
            *final(self) == old(self).after_experience(exp),
    {
        self.experience = self.experience.saturating_add(exp);
        assert(self.level * EXPERIENCE_PER_LEVEL <= 0xffff_ffff * 100_000) by (nonlinear_arith)
            requires
                self.level <= 0xffff_ffff,
                EXPERIENCE_PER_LEVEL == 100_000,
        ;
        let needed: u64 = (self.level as u64) * EXPERIENCE_PER_LEVEL;
        if self.experience >= needed {
            if self.level < u32::MAX {
                self.level = self.level + 1;
            }
            self.experience = self.experience - needed;
            true
        } else {
            false
        }
    }

    /// Whether the time since the last shot is at least one shot's share of a
    /// second at the present fire rate. With a fire rate of zero the weapon
    /// never fires.
    pub open spec fn ready_to_shoot(self, current_time: u64) -> bool {
        (current_time - self.last_shot_time) * self.fire_rate >= 1_000_000
    }

    /// Whether the weapon may fire at `current_time`.
    pub fn can_shoot(&self, current_time: u64) -> (r: bool)
        ensures
            r == self.ready_to_shoot(current_time),
    {
        if current_time < self.last_shot_time {
            assert((current_time - self.last_shot_time) * self.fire_rate <= 0) by (nonlinear_arith)
                requires
                    current_time - self.last_shot_time < 0,
                    self.fire_rate >= 0,
            ;
            false
        } else {
            let waited: u64 = current_time - self.last_shot_time;
            assert(waited * self.fire_rate <= 0xffff_ffff_ffff_ffff * 0xffff_ffff_ffff_ffff)
                by (nonlinear_arith)
                requires
                    waited <= 0xffff_ffff_ffff_ffff,
                    self.fire_rate <= 0xffff_ffff_ffff_ffff,
            ;
            (waited as u128) * (self.fire_rate as u128) >= 1_000_000
        }
    }

    /// A quantity below its ceiling after regaining `rate` per second for
    /// `dt` milliseconds; a quantity at or above its ceiling is left alone.
    pub open spec fn regained(value: u64, ceiling: u64, rate: u64, dt: u64) -> u64 {
        if value < ceiling {
            smaller(value + scaled(rate as int, dt as int), ceiling as int) as u64
        } else {
            value
        }
    }

    /// The player after `dt` milliseconds of regeneration.
    pub open spec fn after_regeneration(self, dt: u64) -> Player {
        Player {
            shields: Player::regained(self.shields, self.max_shields, SHIELD_REGEN_RATE, dt),
            special_energy: Player::regained(
                self.special_energy,
                self.max_special_energy,
                ENERGY_REGEN_RATE,
                dt,
            ),
            ..self
        }
    }

    fn regain(value: u64, ceiling: u64, rate: u64, dt: u64) -> (r: u64)
        ensures
            r == Player::regained(value, ceiling, rate, dt),
    {
        if value < ceiling {
            let gain: u64 = scale(rate, dt);
            let raised: u64 = value.saturating_add(gain);
            if raised <= ceiling {
                raised
            } else {
                ceiling
            }
        } else {
            value
        }
    }

    /// Restores shields and special energy for `dt` milliseconds.
    pub fn regenerate(&mut self, dt: u64)
        ensures
            *final(self) == old(self).after_regeneration(dt),
    {
        self.shields = Player::regain(self.shields, self.max_shields, SHIELD_REGEN_RATE, dt);
        self.special_energy = Player::regain(
            self.special_energy,
            self.max_special_energy,
            ENERGY_REGEN_RATE,
            dt,
        );
    }
}

/// A hit takes from shields and health together exactly what it deals, as
/// long as the health stays in its range; the shields take their part first,
/// so the health is untouched while shields remain.
pub proof fn lemma_damage_is_conserved(player: Player, damage: u64)
    requires
        player.health - damage >= i64::MIN,
    ensures
        player.after_damage(damage).shields + player.after_damage(damage).health
            == player.shields + player.health - damage,
        player.after_damage(damage).shields <= player.shields,
        player.after_damage(damage).health <= player.health,
        player.after_damage(damage).shields > 0 ==> player.after_damage(damage).health
            == player.health,
        damage <= player.shields ==> player.after_damage(damage).health == player.health,
{
}

/// A hit never revives: a player is alive after it only if the player was
/// alive before and has health left.
pub proof fn lemma_damage_never_revives(player: Player, damage: u64)
    ensures
        player.after_damage(damage).is_alive ==> player.is_alive,
        player.after_damage(damage).is_alive ==> player.after_damage(damage).health > 0,
        player.is_alive && player.after_damage(damage).health > 0 ==> player.after_damage(
            damage,
        ).is_alive,
{
}

/// Experience is kept: what is gained either stays as experience or pays for
/// the one level gained, as long as the sum stays in its range. The level
/// never falls and rises by at most one.
pub proof fn lemma_experience_is_kept(player: Player, exp: u64)
    requires
        player.experience + exp <= u64::MAX,
    ensures
        player.levels_up_with(exp) ==> player.after_experience(exp).experience
            + player.experience_needed() == player.experience + exp,
        !player.levels_up_with(exp) ==> player.after_experience(exp).experience
            == player.experience + exp,
        player.level <= player.after_experience(exp).level <= player.level + 1,
        !player.levels_up_with(exp) ==> player.after_experience(exp).level == player.level,
{
}

impl Default for Player {
    fn default() -> (r: Player)
        ensures
            r == Player::initial(),
    {
        Player::new()
    }
}

/// A coordinate that has left the arena is put back on its border.
pub open spec fn confined_coordinate(coordinate: i64, bounds: u64) -> i64 {
    if coordinate > bounds {
        bounds as i64
    } else if -coordinate > bounds {
        (-bounds) as i64
    } else {
        coordinate
    }
}

/// The speed along an axis on which the ship has left the arena is reversed
/// and halved.
pub open spec fn confined_speed(coordinate: i64, speed: i64, bounds: u64) -> i64 {
    if coordinate > bounds || -coordinate > bounds {
        (-scaled_signed(speed as int, 500)) as i64
    } else {
        speed
    }
}

fn confine_axis(coordinate: i64, speed: i64, bounds: u64) -> (out: (i64, i64))
    ensures
        out.0 == confined_coordinate(coordinate, bounds),
        out.1 == confined_speed(coordinate, speed, bounds),
{
    if bounds > i64::MAX as u64 {
        return (coordinate, speed);
    }
    let limit: i64 = bounds as i64;
    if coordinate > limit || coordinate < -limit {
        let halved: i64 = scale_signed(speed, 500);
        proof {
            let size: int = if speed < 0 {
                -speed
            } else {
                speed as int
            };
            assert(0 <= size * 500 / 1000 <= size) by (nonlinear_arith)
                requires
                    0 <= size,
            ;
        }
        let place: i64 = if coordinate > limit {
            limit
        } else {
            -limit
        };
        (place, -halved)
    } else {
        (coordinate, speed)
    }
}

impl PlayerMovement {
    /// The movement with which the ship starts.
    pub fn new() -> (r: PlayerMovement)
        ensures
            r == (PlayerMovement {
                velocity: Vec3 { x: 0, y: 0, z: 0 },
                max_speed: 300_000,
                thrust_force: 500_000,
                turn_speed: 3_000,
                current_direction: 0,
            }),
    {
        PlayerMovement {
            velocity: Vec3::zero(),
            max_speed: 300_000,
            thrust_force: 500_000,
            turn_speed: 3_000,
            current_direction: 0,
        }
    }

    /// Keeps the ship inside the square arena of half-width `bounds`: on each
    /// horizontal axis on which `position` lies outside, the ship is put back
    /// on the border and bounces off at half speed. Returns the new position.
    pub fn confine(&mut self, position: Vec3, bounds: u64) -> (place: Vec3)
        ensures
            place == (Vec3 {
                x: confined_coordinate(position.x, bounds),
                y: position.y,
                z: confined_coordinate(position.z, bounds),
            }),
            *final(self) == (PlayerMovement {
                velocity: Vec3 {
                    x: confined_speed(position.x, old(self).velocity.x, bounds),
                    y: old(self).velocity.y,
                    z: confined_speed(position.z, old(self).velocity.z, bounds),
                },
                ..*old(self)
            }),
    {
        let (x, vx) = confine_axis(position.x, self.velocity.x, bounds);
        let (z, vz) = confine_axis(position.z, self.velocity.z, bounds);
        self.velocity = Vec3 { x: vx, y: self.velocity.y, z: vz };
        Vec3 { x, y: position.y, z }
    }
}

impl PlayerWeapon {
    /// The weapon with which the ship starts.
    pub fn new() -> (r: PlayerWeapon)
        ensures
            r == (PlayerWeapon {
                weapon_type: WeaponType::Blaster,
                last_shot: 0,
                fire_rate: 5_000,
                damage: 20_000,
            }),
    {
        PlayerWeapon { weapon_type: WeaponType::Blaster, last_shot: 0, fire_rate: 5_000, damage: 20_000 }
    }
}

/// Whether a shot at `position` hits an enemy at `target`.
pub open spec fn in_reach(position: Vec3, target: Vec3) -> bool {
    distance_squared(position, target) < PROJECTILE_REACH * PROJECTILE_REACH
}

impl Projectile {
    /// A shot of the given weapon and damage along the unit vector
    /// `direction`.
    pub fn new(direction: Vec3, weapon_type: WeaponType, damage: u64) -> (r: Projectile)
        ensures
            r == (Projectile {
                velocity: stretched(direction, weapon_type.profile().speed as int),
                damage,
                lifetime: 0,
                max_lifetime: weapon_type.profile().lifetime,
            }),
    {
        let profile = weapon_type.projectile_profile();
        Projectile {
            velocity: direction.times(profile.speed),
            damage,
            lifetime: 0,
            max_lifetime: profile.lifetime,
        }
    }

    /// Where a shot at `position` is after `dt` milliseconds.
    pub open spec fn position_after(self, position: Vec3, dt: u64) -> Vec3 {
        moved(position, stretched(self.velocity, dt as int))
    }

    /// Whether the shot is spent after a tick of `dt` milliseconds: it has
    /// reached its lifetime or left the world.
    pub open spec fn expired_after(self, position: Vec3, dt: u64) -> bool {
        sum_u64(self.lifetime, dt) >= self.max_lifetime || distance_squared(
            self.position_after(position, dt),
            Vec3 { x: 0, y: 0, z: 0 },
        ) > PROJECTILE_WORLD_LIMIT * PROJECTILE_WORLD_LIMIT
    }

    /// Moves the shot for `dt` milliseconds and ages it. Returns its new
    /// position and whether it is spent.
    pub fn advance(&mut self, position: Vec3, dt: u64) -> (out: (Vec3, bool))
        ensures
            out.0 == old(self).position_after(position, dt),
            out.1 == old(self).expired_after(position, dt),
            *final(self) == (Projectile {
                lifetime: sum_u64(old(self).lifetime, dt),
                ..*old(self)
            }),
    {
        let place = position.plus(self.velocity.times(dt));
        self.lifetime = self.lifetime.saturating_add(dt);
        let expired = self.lifetime >= self.max_lifetime || !place.within(
            Vec3::zero(),
            PROJECTILE_WORLD_LIMIT,
        );
        (place, expired)
    }

    /// Finds the enemy that a shot at `position` hits: the first of
    /// `targets` within reach.
    pub fn first_target(position: Vec3, targets: &Vec<Vec3>) -> (hit: Option<usize>)
        ensures
            hit matches Some(i) ==> {
                &&& i < targets@.len()
                &&& in_reach(position, targets@[i as int])
                &&& forall|j: int| 0 <= j < i ==> !in_reach(position, #[trigger] targets@[j])
            },
            hit is None ==> forall|j: int|
                0 <= j < targets@.len() ==> !in_reach(position, #[trigger] targets@[j]),
    {
        let mut i: usize = 0;
        while i < targets.len()
            invariant
                i <= targets@.len(),
                forall|j: int| 0 <= j < i ==> !in_reach(position, #[trigger] targets@[j]),
            decreases targets@.len() - i,
        {
            if position.closer_than(targets[i], PROJECTILE_REACH) {
                return Some(i);
            }
            i += 1;
        }
        None
    }
}

} // verus!
