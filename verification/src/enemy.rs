//! Enemies: the statistics of each kind, damage, and the decisions an enemy
//! takes each tick.

use crate::fixed::{clamp_i64, clamp_u64, lower, scale, scaled};
use crate::vec3::{distance_squared, moved, stretched, Vec3};
use vstd::prelude::*;

verus! {

/// How near an enemy must be to the player before it shoots.
pub const FIRING_RANGE: u64 = 300_000;

/// The time an enemy waits between two shots.
pub const FIRING_COOLDOWN: u64 = 2_000;

/// The speed of an enemy projectile.
pub const ENEMY_PROJECTILE_SPEED: u64 = 400_000;

/// How long an enemy projectile flies before it disappears.
pub const ENEMY_PROJECTILE_LIFETIME: u64 = 3_000;

/// How near an enemy projectile must come to the player to hit.
pub const ENEMY_PROJECTILE_REACH: u64 = 25_000;

/// How far from the origin a projectile may stray before it disappears.
pub const WORLD_LIMIT: u64 = 1_000_000;

/// How near a patrolling enemy must come to its target to turn around.
pub const PATROL_REACH: u64 = 10_000;

/// The kinds of enemy.
#[derive(Clone, Copy, Debug, PartialEq, Eq, Structural)]
pub enum EnemyType {
    Chaser,
    Shooter,
    Tank,
    Swarm,
    Elite,
    Boss,
}

/// How an enemy moves.
#[derive(Clone, Copy, Debug, PartialEq, Eq, Structural)]
pub enum MovementBehavior {
    ChasePlayer,
    /// Back and forth between a start point and an end point.
    Patrol(Vec3, Vec3),
    /// Around a centre at a radius.
    Circle(Vec3, u64),
    Stationary,
}

/// One enemy.
#[derive(Clone, Copy, Debug, PartialEq, Eq, Structural)]
pub struct Enemy {
    pub health: i64,
    pub max_health: u64,
    pub damage: u64,
    pub speed: u64,
    pub enemy_type: EnemyType,
    pub last_damage_time: u64,
    pub experience_value: u64,
    pub loot_chance: u64,
}

/// Where an enemy is heading.
#[derive(Clone, Copy, Debug, PartialEq, Eq, Structural)]
pub struct EnemyMovement {
    pub velocity: Vec3,
    pub target_position: Vec3,
    pub behavior: MovementBehavior,
}

/// A shot fired by an enemy.
#[derive(Clone, Copy, Debug, PartialEq, Eq, Structural)]
pub struct EnemyProjectile {
    pub velocity: Vec3,
    pub damage: u64,
    pub lifetime: u64,
    pub max_lifetime: u64,
}

/// What became of an enemy projectile during a tick.
#[derive(Clone, Copy, Debug, PartialEq, Eq, Structural)]
pub enum ProjectileFate {
    /// It is still in flight.
    Flying,
    /// It reached the player and is spent.
    HitPlayer,
    /// It outlived its lifetime or left the world.
    Expired,
}

impl EnemyType {
    /// Whether enemies of this kind attack from a distance.
    pub open spec fn is_ranged(self) -> bool {
        self == EnemyType::Shooter || self == EnemyType::Elite || self == EnemyType::Boss
    }

    /// Whether enemies of this kind attack from a distance.
    pub fn shoots(self) -> (r: bool)
        ensures
            r == self.is_ranged(),
    {
        match self {
            EnemyType::Shooter | EnemyType::Elite | EnemyType::Boss => true,
            _ => false,
        }
    }

    /// The size at which an enemy of this kind is drawn.
    pub open spec fn scale_of(self) -> u64 {
        match self {
            EnemyType::Swarm => 300,
            EnemyType::Boss => 1500,
            _ => 500,
        }
    }

    /// The size at which an enemy of this kind is drawn.
    pub fn sprite_scale(self) -> (r: u64)
        ensures
            r == self.scale_of(),
    {
        match self {
            EnemyType::Swarm => 300,
            EnemyType::Boss => 1500,
            _ => 500,
        }
    }

    /// The picture of an enemy of this kind.
    pub open spec fn sprite_of(self) -> Seq<char> {
        match self {
            EnemyType::Chaser => "sprites/enemy_chaser.png"@,
            EnemyType::Shooter => "sprites/enemy_shooter.png"@,
            EnemyType::Tank => "sprites/enemy_tank.png"@,
            EnemyType::Swarm => "sprites/enemy_swarm.png"@,
            EnemyType::Elite => "sprites/enemy_elite.png"@,
            EnemyType::Boss => "sprites/enemy_boss.png"@,
        }
    }

    /// The picture of an enemy of this kind.
    pub fn sprite_path(self) -> (r: &'static str)
        ensures
            r@ == self.sprite_of(),
    {
        match self {
            EnemyType::Chaser => "sprites/enemy_chaser.png",
            EnemyType::Shooter => "sprites/enemy_shooter.png",
            EnemyType::Tank => "sprites/enemy_tank.png",
            EnemyType::Swarm => "sprites/enemy_swarm.png",
            EnemyType::Elite => "sprites/enemy_elite.png",
            EnemyType::Boss => "sprites/enemy_boss.png",
        }
    }
}

impl Enemy {
    /// The statistics with which an enemy of the given kind starts.
    pub open spec fn stats(enemy_type: EnemyType) -> Enemy {
        match enemy_type {
            EnemyType::Chaser => Enemy {
                health: 50_000,
                max_health: 50_000,
                damage: 20_000,
                speed: 100_000,
                enemy_type,
                last_damage_time: 0,
                experience_value: 10_000,
                loot_chance: 100,
            },
            EnemyType::Shooter => Enemy {
                health: 30_000,
                max_health: 30_000,
                damage: 15_000,
                speed: 60_000,
                enemy_type,
                last_damage_time: 0,
                experience_value: 15_000,
                loot_chance: 150,
            },
            EnemyType::Tank => Enemy {
                health: 150_000,
                max_health: 150_000,
                damage: 35_000,
                speed: 40_000,
                enemy_type,
                last_damage_time: 0,
                experience_value: 25_000,
                loot_chance: 300,
            },
            EnemyType::Swarm => Enemy {
                health: 20_000,
                max_health: 20_000,
                damage: 10_000,
                speed: 150_000,
                enemy_type,
                last_damage_time: 0,
                experience_value: 5_000,
                loot_chance: 50,
            },
            EnemyType::Elite => Enemy {
                health: 100_000,
                max_health: 100_000,
                damage: 40_000,
                speed: 80_000,
                enemy_type,
                last_damage_time: 0,
                experience_value: 50_000,
                loot_chance: 500,
            },
            EnemyType::Boss => Enemy {
                health: 500_000,
                max_health: 500_000,
                damage: 60_000,
                speed: 50_000,
                enemy_type,
                last_damage_time: 0,
                experience_value: 200_000,
                loot_chance: 900,
            },
        }
    }

    /// A fresh enemy of the given kind.
    pub fn new(enemy_type: EnemyType) -> (r: Enemy)
        ensures
            r == Enemy::stats(enemy_type),
            r.health == r.max_health,
            r.health > 0,
    {
        let (health, damage, speed, experience_value, loot_chance): (u64, u64, u64, u64, u64) =
            match enemy_type {
            EnemyType::Chaser => (50_000, 20_000, 100_000, 10_000, 100),
            EnemyType::Shooter => (30_000, 15_000, 60_000, 15_000, 150),
            EnemyType::Tank => (150_000, 35_000, 40_000, 25_000, 300),
            EnemyType::Swarm => (20_000, 10_000, 150_000, 5_000, 50),
            EnemyType::Elite => (100_000, 40_000, 80_000, 50_000, 500),
            EnemyType::Boss => (500_000, 60_000, 50_000, 200_000, 900),
        };
        Enemy {
            health: health as i64,
            max_health: health,
            damage,
            speed,
            enemy_type,
            last_damage_time: 0,
            experience_value,
            loot_chance,
        }
    }

    /// The statistics of an enemy of the given kind in a wave of the given
    /// strength: health and damage are multiplied by the strength.
    pub open spec fn strengthened(enemy_type: EnemyType, difficulty_multiplier: u64) -> Enemy {
        let base = Enemy::stats(enemy_type);
        let health = clamp_u64(scaled(base.max_health as int, difficulty_multiplier as int));
        Enemy {
            health: clamp_i64(health as int),
            max_health: health,
            damage: clamp_u64(scaled(base.damage as int, difficulty_multiplier as int)),
            ..base
        }
    }

    /// A fresh enemy of the given kind for a wave of the given strength.
    pub fn with_difficulty(enemy_type: EnemyType, difficulty_multiplier: u64) -> (r: Enemy)
        ensures
            r == Enemy::strengthened(enemy_type, difficulty_multiplier),
    {
        let base = Enemy::new(enemy_type);
        let health: u64 = scale(base.max_health, difficulty_multiplier);
        Enemy {
            health: if health > i64::MAX as u64 {
                i64::MAX
            } else {
                health as i64
            },
            max_health: health,
            damage: scale(base.damage, difficulty_multiplier),
            enemy_type: base.enemy_type,
            speed: base.speed,
            last_damage_time: base.last_damage_time,
            experience_value: base.experience_value,
            loot_chance: base.loot_chance,
        }
    }

    /// The enemy after a hit of `damage` at time `current_time`.
    pub open spec fn after_damage(self, damage: u64, current_time: u64) -> Enemy {
        Enemy {
            health: clamp_i64(self.health - damage),
            last_damage_time: current_time,
            ..self
        }
    }

    /// Whether the enemy has no health left.
    pub open spec fn dead(self) -> bool {
        self.health <= 0
    }

    /// Takes `damage` from the enemy's health and notes the time. Returns
    /// whether the hit killed it.
    pub fn take_damage(&mut self, damage: u64, current_time: u64) -> (killed: bool)
        ensures
            *final(self) == old(self).after_damage(damage, current_time),
            killed == final(self).dead(),
    {
        self.health = lower(self.health, damage);
        self.last_damage_time = current_time;
        self.health <= 0
    }

    /// Whether the enemy has no health left.
    pub fn is_dead(&self) -> (r: bool)
        ensures
            r == self.dead(),
    {
        self.health <= 0
    }

    /// Whether the enemy, standing at `position`, shoots at the player at
    /// `player` at time `now`: it is of a ranged kind, the player is within
    /// firing range, and its last shot or wound lies longer back than the
    /// cooldown.
    pub open spec fn ready_to_fire(self, position: Vec3, player: Vec3, now: u64) -> bool {
        &&& self.enemy_type.is_ranged()
        &&& distance_squared(position, player) < FIRING_RANGE * FIRING_RANGE
        &&& now - self.last_damage_time > FIRING_COOLDOWN
    }

    /// Decides whether the enemy shoots this tick, and notes the time of the
    /// shot if it does.
    pub fn try_fire(&mut self, position: Vec3, player: Vec3, now: u64) -> (fired: bool)
        ensures
            fired == old(self).ready_to_fire(position, player, now),
            fired ==> *final(self) == (Enemy { last_damage_time: now, ..*old(self) }),
            !fired ==> *final(self) == *old(self),
    {
        if self.enemy_type.shoots() && position.closer_than(player, FIRING_RANGE) && now
            > self.last_damage_time && now - self.last_damage_time > FIRING_COOLDOWN {
            self.last_damage_time = now;
            true
        } else {
            false
        }
    }
}

impl Default for Enemy {
    fn default() -> (r: Enemy)
        ensures
            r == Enemy::stats(EnemyType::Chaser),
    {
        Enemy::new(EnemyType::Chaser)
    }
}

impl EnemyMovement {
    /// The movement of an enemy that has just appeared at `position`.
    pub fn new(position: Vec3) -> (r: EnemyMovement)
        ensures
            r == (EnemyMovement {
                velocity: Vec3 { x: 0, y: 0, z: 0 },
                target_position: position,
                behavior: MovementBehavior::ChasePlayer,
            }),
    {
        EnemyMovement {
            velocity: Vec3::zero(),
            target_position: position,
            behavior: MovementBehavior::ChasePlayer,
        }
    }

    /// The target of a patrolling enemy at `position`: the present target
    /// until the enemy is within reach of it, then the other end of the
    /// patrol. Other behaviours keep their target.
    pub open spec fn next_target(self, position: Vec3) -> Vec3 {
        match self.behavior {
            MovementBehavior::Patrol(start, end) => {
                if distance_squared(self.target_position, position) < PATROL_REACH
                    * PATROL_REACH {
                    if distance_squared(self.target_position, start) < PATROL_REACH
                        * PATROL_REACH {
                        end
                    } else {
                        start
                    }
                } else {
                    self.target_position
                }
            },
            _ => self.target_position,
        }
    }

    /// Turns a patrolling enemy around when it has reached its target.
    pub fn retarget(&mut self, position: Vec3)
        ensures
            *final(self) == (EnemyMovement {
                target_position: old(self).next_target(position),
                ..*old(self)
            }),
    {
        match self.behavior {
            MovementBehavior::Patrol(start, end) => {
                if self.target_position.closer_than(position, PATROL_REACH) {
                    if self.target_position.closer_than(start, PATROL_REACH) {
                        self.target_position = end;
                    } else {
                        self.target_position = start;
                    }
                }
            },
            _ => {},
        }
    }
}

impl EnemyProjectile {
    /// A shot of the given damage along the unit vector `direction`.
    pub fn new(direction: Vec3, damage: u64) -> (r: EnemyProjectile)
        ensures
            r == (EnemyProjectile {
                velocity: stretched(direction, ENEMY_PROJECTILE_SPEED as int),
                damage,
                lifetime: 0,
                max_lifetime: ENEMY_PROJECTILE_LIFETIME,
            }),
    {
        EnemyProjectile {
            velocity: direction.times(ENEMY_PROJECTILE_SPEED),
            damage,
            lifetime: 0,
            max_lifetime: ENEMY_PROJECTILE_LIFETIME,
        }
    }

    /// Where a projectile at `position` is after `dt` milliseconds.
    pub open spec fn position_after(self, position: Vec3, dt: u64) -> Vec3 {
        moved(position, stretched(self.velocity, dt as int))
    }

    /// The age of the projectile after `dt` more milliseconds.
    pub open spec fn lifetime_after(self, dt: u64) -> u64 {
        if self.lifetime + dt > u64::MAX {
            u64::MAX
        } else {
            (self.lifetime + dt) as u64
        }
    }

    /// What becomes of the projectile in a tick of `dt` milliseconds: it hits
    /// the player if it ends the tick within reach of the player; otherwise
    /// it expires if it is too old or too far from the origin.
    pub open spec fn fate_after(self, position: Vec3, dt: u64, player: Vec3) -> ProjectileFate {
        let place = self.position_after(position, dt);
        if distance_squared(place, player) < ENEMY_PROJECTILE_REACH * ENEMY_PROJECTILE_REACH {
            ProjectileFate::HitPlayer
        } else if self.lifetime_after(dt) >= self.max_lifetime || distance_squared(
            place,
            Vec3 { x: 0, y: 0, z: 0 },
        ) > WORLD_LIMIT * WORLD_LIMIT {
            ProjectileFate::Expired
        } else {
            ProjectileFate::Flying
        }
    }

    /// Moves the projectile for `dt` milliseconds and ages it.
    pub fn advance(&mut self, position: Vec3, dt: u64, player: Vec3) -> (out: (
        Vec3,
        ProjectileFate,
    ))
        ensures
            out.0 == old(self).position_after(position, dt),
            out.1 == old(self).fate_after(position, dt, player),
            *final(self) == (EnemyProjectile {
                lifetime: old(self).lifetime_after(dt),
                ..*old(self)
            }),
    {
        let place = position.plus(self.velocity.times(dt));
        self.lifetime = self.lifetime.saturating_add(dt);
        let fate = if place.closer_than(player, ENEMY_PROJECTILE_REACH) {
            ProjectileFate::HitPlayer
        } else if self.lifetime >= self.max_lifetime || !place.within(
            Vec3::zero(),
            WORLD_LIMIT,
        ) {
            ProjectileFate::Expired
        } else {
            ProjectileFate::Flying
        };
        (place, fate)
    }
}

} // verus!
