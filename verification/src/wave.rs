//! The wave state machine: preparation, spawning, pause, completion and the
//! shop interlude, with the events that each tick hands to the host.

use crate::config::WaveConfig;
use crate::difficulty::{difficulty_for_wave, enemies_for_wave, next_spawn_interval};
use crate::enemy::EnemyType;
use crate::fixed::{clamp_i64, next_u32, scale_signed, scaled_signed, sum_u64};
use crate::random::{roll, ROLL_RANGE};
use crate::vec3::Vec3;
use vstd::prelude::*;

verus! {

/// How far outside the arena enemies appear.
pub const SPAWN_MARGIN: u64 = 50_000;

/// The half-width of the arena when nothing else is configured.
pub const DEFAULT_ARENA_BOUNDS: u64 = 400_000;

/// The phases of a wave.
#[derive(Clone, Copy, Debug, PartialEq, Eq, Structural)]
pub enum WaveState {
    /// Waiting for the preparation time to pass.
    Preparing,
    /// Enemies are spawning and fighting.
    Active,
    /// Frozen by the player.
    Paused,
    /// All enemies are spawned and dead.
    Complete,
    /// The shop is open.
    ShopPhase,
}

/// What the host needs to create one enemy.
#[derive(Clone, Copy, Debug, PartialEq, Eq, Structural)]
pub struct EnemySpawnData {
    pub enemy_type: EnemyType,
    pub position: Vec3,
    /// The strength multiplier of the wave at the time of the spawn.
    pub difficulty_multiplier: u64,
}

/// What a tick reports to the host.
#[derive(Clone, Copy, Debug, PartialEq, Eq, Structural)]
pub enum WaveEvent {
    WaveStarted(u32),
    WaveComplete(u32),
    SpawnEnemy(EnemySpawnData),
    ShopPhaseStarted,
}

/// The shares, in thousandths, with which each kind of enemy is chosen.
#[derive(Clone, Copy, Debug, PartialEq, Eq, Structural)]
pub struct SpawnWeights {
    pub chaser: u32,
    pub swarm: u32,
    pub shooter: u32,
    pub tank: u32,
    pub elite: u32,
}

impl SpawnWeights {
    /// The sum of the shares.
    pub open spec fn total(self) -> int {
        self.chaser + self.swarm + self.shooter + self.tank + self.elite
    }

    /// The share of one kind of enemy.
    pub open spec fn share(self, enemy_type: EnemyType) -> int {
        match enemy_type {
            EnemyType::Chaser => self.chaser as int,
            EnemyType::Swarm => self.swarm as int,
            EnemyType::Shooter => self.shooter as int,
            EnemyType::Tank => self.tank as int,
            EnemyType::Elite => self.elite as int,
            EnemyType::Boss => 0,
        }
    }

    /// The kind that a roll selects: the kinds are laid side by side in the
    /// order chaser, swarm, shooter, tank, elite, each as wide as its share,
    /// and the roll points at one of them. A roll beyond the last possible
    /// one counts as the last.
    pub open spec fn pick(self, roll: u32) -> EnemyType {
        let r = if roll < ROLL_RANGE { roll } else { (ROLL_RANGE - 1) as u32 };
        if r < self.chaser {
            EnemyType::Chaser
        } else if r < self.chaser + self.swarm {
            EnemyType::Swarm
        } else if r < self.chaser + self.swarm + self.shooter {
            EnemyType::Shooter
        } else if r < self.chaser + self.swarm + self.shooter + self.tank {
            EnemyType::Tank
        } else {
            EnemyType::Elite
        }
    }
}

/// Whether every enemy of the wave is a boss: every tenth wave after the
/// twentieth.
pub open spec fn is_boss_wave(wave: u32) -> bool {
    !(1 <= wave <= 20) && wave % 10 == 0
}

/// The shares of the kinds of enemy in a wave.
pub open spec fn weights_for(wave: u32) -> SpawnWeights {
    if 1 <= wave <= 2 {
        SpawnWeights { chaser: 1000, swarm: 0, shooter: 0, tank: 0, elite: 0 }
    } else if 3 <= wave <= 5 {
        SpawnWeights { chaser: 700, swarm: 300, shooter: 0, tank: 0, elite: 0 }
    } else if 6 <= wave <= 10 {
        SpawnWeights { chaser: 400, swarm: 300, shooter: 300, tank: 0, elite: 0 }
    } else if 11 <= wave <= 15 {
        SpawnWeights { chaser: 300, swarm: 200, shooter: 300, tank: 200, elite: 0 }
    } else if 16 <= wave <= 20 {
        SpawnWeights { chaser: 200, swarm: 200, shooter: 200, tank: 200, elite: 200 }
    } else {
        SpawnWeights { chaser: 150, swarm: 150, shooter: 200, tank: 200, elite: 300 }
    }
}

/// The kind of enemy that a roll selects in a wave.
pub open spec fn enemy_type_for(wave: u32, roll: u32) -> EnemyType {
    if is_boss_wave(wave) {
        EnemyType::Boss
    } else {
        weights_for(wave).pick(roll)
    }
}

/// The point at which an enemy appears: `SPAWN_MARGIN` outside an arena of
/// half-width `arena_bounds`, at ground level, in the horizontal direction
/// given by the unit vector `direction`.
pub open spec fn spawn_point(arena_bounds: u64, direction: Vec3) -> Vec3 {
    let distance = sum_u64(arena_bounds, SPAWN_MARGIN);
    Vec3 {
        x: clamp_i64(scaled_signed(direction.x as int, distance as int)),
        y: 0,
        z: clamp_i64(scaled_signed(direction.z as int, distance as int)),
    }
}

/// The shares of the kinds of enemy in a wave.
pub fn spawn_weights(wave: u32) -> (r: SpawnWeights)
    ensures
        r == weights_for(wave),
        r.total() == ROLL_RANGE,
{
    if 1 <= wave && wave <= 2 {
        SpawnWeights { chaser: 1000, swarm: 0, shooter: 0, tank: 0, elite: 0 }
    } else if 3 <= wave && wave <= 5 {
        SpawnWeights { chaser: 700, swarm: 300, shooter: 0, tank: 0, elite: 0 }
    } else if 6 <= wave && wave <= 10 {
        SpawnWeights { chaser: 400, swarm: 300, shooter: 300, tank: 0, elite: 0 }
    } else if 11 <= wave && wave <= 15 {
        SpawnWeights { chaser: 300, swarm: 200, shooter: 300, tank: 200, elite: 0 }
    } else if 16 <= wave && wave <= 20 {
        SpawnWeights { chaser: 200, swarm: 200, shooter: 200, tank: 200, elite: 200 }
    } else {
        SpawnWeights { chaser: 150, swarm: 150, shooter: 200, tank: 200, elite: 300 }
    }
}

/// The kind of enemy that the roll `roll` selects in wave `wave`.
pub fn enemy_type_for_roll(wave: u32, roll: u32) -> (r: EnemyType)
    ensures
        r == enemy_type_for(wave, roll),
{
    if !(1 <= wave && wave <= 20) && wave % 10 == 0 {
        return EnemyType::Boss;
    }
    let weights = spawn_weights(wave);
    let r: u32 = if roll < ROLL_RANGE {
        roll
    } else {
        ROLL_RANGE - 1
    };
    let mut edge: u32 = weights.chaser;
    if r < edge {
        return EnemyType::Chaser;
    }
    edge = edge + weights.swarm;
    if r < edge {
        return EnemyType::Swarm;
    }
    edge = edge + weights.shooter;
    if r < edge {
        return EnemyType::Shooter;
    }
    edge = edge + weights.tank;
    if r < edge {
        EnemyType::Tank
    } else {
        EnemyType::Elite
    }
}

/// In every wave the shares add up to the whole range of a roll.
pub proof fn lemma_weights_cover_rolls(wave: u32)
    ensures
        weights_for(wave).total() == ROLL_RANGE,
{
}

/// A roll never selects a kind of enemy whose share in the wave is zero,
/// and only a boss wave yields a boss.
pub proof fn lemma_pick_has_share(wave: u32, roll: u32)
    ensures
        is_boss_wave(wave) <==> enemy_type_for(wave, roll) == EnemyType::Boss,
        !is_boss_wave(wave) ==> weights_for(wave).share(enemy_type_for(wave, roll)) > 0,
{
}

/// The square of a rounded-down share of `d` falls short of the square of
/// the share itself by less than two rounded shares and one.
proof fn lemma_share_squared(a: int, d: int, q: int)
    by (nonlinear_arith)
    requires
        0 <= a <= 1500,
        0 <= d,
        q == a * d / 1000,
    ensures
        0 <= q,
        2 * q <= 3 * d,
        1_000_000 * (q * q + 2 * q + 1) > (a * a) * (d * d),
{
    assert(1000 * q <= a * d < 1000 * q + 1000);
    assert(a * d <= 1500 * d);
    assert((1000 * (q + 1)) * (1000 * (q + 1)) > (a * d) * (a * d));
    assert((a * d) * (a * d) == (a * a) * (d * d));
    assert((1000 * (q + 1)) * (1000 * (q + 1)) == 1_000_000 * (q * q + 2 * q + 1));
}

/// Enemies appear outside the arena: in a direction at least as long as a
/// unit vector, and not longer than its diagonal, the spawn point lies farther
/// from the centre than the half-width of the arena.
pub proof fn lemma_spawn_point_is_outside_the_arena(arena_bounds: u64, direction: Vec3)
    requires
        arena_bounds <= 0x3fff_ffff_ffff_ffff,
        1_000_000 <= direction.x * direction.x + direction.z * direction.z <= 2_000_000,
    ensures
        spawn_point(arena_bounds, direction).y == 0,
        crate::vec3::distance_squared(spawn_point(arena_bounds, direction), Vec3 { x: 0, y: 0, z: 0 })
            > arena_bounds * arena_bounds,
{
    let b = arena_bounds as int;
    let d = b + 50_000;
    let a: int = if direction.x < 0 {
        -direction.x
    } else {
        direction.x as int
    };
    let c: int = if direction.z < 0 {
        -direction.z
    } else {
        direction.z as int
    };
    assert(a * a == direction.x * direction.x && c * c == direction.z * direction.z)
        by (nonlinear_arith)
        requires
            a == direction.x || a == -direction.x,
            c == direction.z || c == -direction.z,
    ;
    assert(a <= 1500 && c <= 1500) by (nonlinear_arith)
        requires
            a >= 0,
            c >= 0,
            a * a + c * c <= 2_000_000,
    ;
    let qa = a * d / 1000;
    let qc = c * d / 1000;
    lemma_share_squared(a, d, qa);
    lemma_share_squared(c, d, qc);
    let p = spawn_point(arena_bounds, direction);
    assert(p.x == qa || p.x == -qa);
    assert(p.z == qc || p.z == -qc);
    assert(p.x * p.x == qa * qa && p.z * p.z == qc * qc) by (nonlinear_arith)
        requires
            p.x == qa || p.x == -qa,
            p.z == qc || p.z == -qc,
    ;
    assert(qa * qa + qc * qc > b * b) by (nonlinear_arith)
        requires
            1_000_000 * (qa * qa + 2 * qa + 1) > (a * a) * (d * d),
            1_000_000 * (qc * qc + 2 * qc + 1) > (c * c) * (d * d),
            a * a + c * c >= 1_000_000,
            2 * qa <= 3 * d,
            2 * qc <= 3 * d,
            d == b + 50_000,
            b >= 0,
    {
        assert((a * a) * (d * d) + (c * c) * (d * d) == (a * a + c * c) * (d * d));
        assert((a * a + c * c) * (d * d) >= 1_000_000 * (d * d));
        assert(d * d == b * b + 100_000 * b + 2_500_000_000);
    }
}

/// The wave in progress.
#[derive(Clone, Copy, Debug, PartialEq, Eq, Structural)]
pub struct WaveManager {
    /// The constants that the waves are computed from.
    pub config: WaveConfig,
    /// The half-width of the arena; enemies appear outside it.
    pub arena_bounds: u64,
    /// The number of the wave, counted from one.
    pub current_wave: u32,
    pub wave_state: WaveState,
    /// The time spent in the present state, pauses not counted.
    pub wave_timer: u64,
    pub enemies_spawned: u32,
    pub enemies_to_spawn: u32,
    /// The time since the last spawn.
    pub spawn_timer: u64,
    /// The time between two spawns.
    pub spawn_interval: u64,
    /// Enemies spawned and not yet reported killed.
    pub enemies_alive: u32,
    pub difficulty_multiplier: u64,
    /// Whether the player may still pause this wave.
    pub can_pause: bool,
}

impl WaveManager {
    /// What holds of a wave manager at all times: waves are counted from
    /// one, no more enemies are spawned than the wave holds, the strength
    /// multiplier is at least one, and the spawn interval is not below its
    /// floor.
    pub open spec fn valid(self) -> bool {
        &&& self.current_wave >= 1
        &&& self.enemies_spawned <= self.enemies_to_spawn
        &&& self.difficulty_multiplier >= 1000
        &&& self.spawn_interval >= self.config.min_spawn_interval
    }

    /// The wave manager before the first wave.
    pub open spec fn initial(config: WaveConfig) -> WaveManager {
        WaveManager {
            config,
            arena_bounds: DEFAULT_ARENA_BOUNDS,
            current_wave: 1,
            wave_state: WaveState::Preparing,
            wave_timer: 0,
            enemies_spawned: 0,
            enemies_to_spawn: 0,
            spawn_timer: 0,
            spawn_interval: if config.base_spawn_interval >= config.min_spawn_interval {
                config.base_spawn_interval
            } else {
                config.min_spawn_interval
            },
            enemies_alive: 0,
            difficulty_multiplier: 1000,
            can_pause: true,
        }
    }

    /// The wave manager with its wave begun: the counters of the wave are
    /// reset, and the number of enemies and the strength multiplier are those
    /// of the wave's number.
    pub open spec fn started(self) -> WaveManager {
        WaveManager {
            wave_state: WaveState::Active,
            wave_timer: 0,
            spawn_timer: 0,
            enemies_spawned: 0,
            enemies_to_spawn: enemies_for_wave(
                self.config.base_enemy_count,
                self.config.enemy_scaling_per_wave,
                self.current_wave,
            ),
            difficulty_multiplier: difficulty_for_wave(
                self.config.difficulty_scaling_per_wave,
                self.current_wave,
            ),
            ..self
        }
    }

    /// The effect of `start_wave`.
    pub open spec fn after_start_wave(self) -> WaveManager {
        if self.wave_state == WaveState::Preparing {
            self.started()
        } else {
            self
        }
    }

    /// Whether the wave is over: it is active, every enemy is spawned and
    /// none is alive.
    pub open spec fn finished(self) -> bool {
        &&& self.wave_state == WaveState::Active
        &&& self.enemies_spawned >= self.enemies_to_spawn
        &&& self.enemies_alive == 0
    }

    /// The effect of `end_wave`.
    pub open spec fn after_end_wave(self) -> WaveManager {
        if self.finished() {
            WaveManager { wave_state: WaveState::Complete, wave_timer: 0, ..self }
        } else {
            self
        }
    }

    /// The effect of `pause_wave`, and what it returns.
    pub open spec fn after_pause(self) -> (WaveManager, bool) {
        if self.can_pause && self.wave_state == WaveState::Active {
            (WaveManager { wave_state: WaveState::Paused, can_pause: false, ..self }, true)
        } else {
            (self, false)
        }
    }

    /// The effect of `resume_wave`.
    pub open spec fn after_resume(self) -> WaveManager {
        if self.wave_state == WaveState::Paused {
            WaveManager { wave_state: WaveState::Active, ..self }
        } else {
            self
        }
    }

    /// The effect of `enemy_killed`.
    pub open spec fn after_kill(self) -> WaveManager {
        WaveManager {
            enemies_alive: if self.enemies_alive > 0 {
                (self.enemies_alive - 1) as u32
            } else {
                0
            },
            ..self
        }
    }

    /// The wave manager with the next wave in preparation: the wave number
    /// goes up by one, the player may pause again, and enemies spawn faster,
    /// down to the floor.
    pub open spec fn advanced(self) -> WaveManager {
        WaveManager {
            current_wave: next_u32(self.current_wave),
            wave_state: WaveState::Preparing,
            wave_timer: 0,
            can_pause: true,
            spawn_interval: next_spawn_interval(
                self.spawn_interval,
                self.config.spawn_interval_reduction,
                self.config.min_spawn_interval,
            ),
            ..self
        }
    }

    /// The effect of `complete_shop_phase`.
    pub open spec fn after_shop(self) -> WaveManager {
        if self.wave_state == WaveState::ShopPhase {
            self.advanced()
        } else {
            self
        }
    }

    /// The effect of `start_new_wave`.
    pub open spec fn after_start_new_wave(self) -> WaveManager {
        if self.wave_state == WaveState::ShopPhase {
            self.advanced().started()
        } else {
            self
        }
    }

    /// The enemy that is spawned for a roll and a direction.
    pub open spec fn spawn_data(self, roll: u32, direction: Vec3) -> EnemySpawnData {
        EnemySpawnData {
            enemy_type: enemy_type_for(self.current_wave, roll),
            position: spawn_point(self.arena_bounds, direction),
            difficulty_multiplier: self.difficulty_multiplier,
        }
    }

    /// Whether a tick of `dt` milliseconds spawns an enemy.
    pub open spec fn spawn_due(self, dt: u64) -> bool {
        &&& self.wave_state == WaveState::Active
        &&& self.enemies_spawned < self.enemies_to_spawn
        &&& sum_u64(self.spawn_timer, dt) >= self.spawn_interval
    }

    /// A tick of an active wave.
    pub open spec fn active_step(self, dt: u64, roll: u32, direction: Vec3) -> (
        WaveManager,
        Seq<WaveEvent>,
    ) {
        let ticked = WaveManager {
            wave_timer: sum_u64(self.wave_timer, dt),
            spawn_timer: sum_u64(self.spawn_timer, dt),
            ..self
        };
        let spawned = if self.spawn_due(dt) {
            WaveManager {
                enemies_spawned: (ticked.enemies_spawned + 1) as u32,
                enemies_alive: next_u32(ticked.enemies_alive),
                spawn_timer: 0,
                ..ticked
            }
        } else {
            ticked
        };
        let spawns = if self.spawn_due(dt) {
            seq![WaveEvent::SpawnEnemy(self.spawn_data(roll, direction))]
        } else {
            Seq::empty()
        };
        if spawned.finished() {
            (
                WaveManager { wave_state: WaveState::ShopPhase, wave_timer: 0, ..spawned },
                spawns + seq![
                    WaveEvent::WaveComplete(self.current_wave),
                    WaveEvent::ShopPhaseStarted,
                ],
            )
        } else {
            (spawned, spawns)
        }
    }

    /// A tick of `dt` milliseconds: the wave manager after it, and the events
    /// it reports, in order. `roll` and `direction` decide what is spawned and
    /// where, if the tick spawns an enemy.
    ///
    /// - Preparing: the timer runs; when it reaches the preparation time the
    ///   wave starts.
    /// - Active: the timers run; an enemy is spawned when one is left to spawn
    ///   and the spawn interval has passed; when every enemy is spawned and
    ///   none is alive the wave is complete and the shop opens at once.
    /// - Complete: the shop opens.
    /// - Paused, ShopPhase: nothing happens.
    pub open spec fn step(self, dt: u64, roll: u32, direction: Vec3) -> (
        WaveManager,
        Seq<WaveEvent>,
    ) {
        match self.wave_state {
            WaveState::Preparing => {
                let ticked = WaveManager { wave_timer: sum_u64(self.wave_timer, dt), ..self };
                if ticked.wave_timer >= self.config.prep_time {
                    (ticked.started(), seq![WaveEvent::WaveStarted(self.current_wave)])
                } else {
                    (ticked, Seq::empty())
                }
            },
            WaveState::Active => self.active_step(dt, roll, direction),
            WaveState::Paused => (self, Seq::empty()),
            WaveState::Complete => (
                WaveManager { wave_state: WaveState::ShopPhase, wave_timer: 0, ..self },
                seq![WaveEvent::ShopPhaseStarted],
            ),
            WaveState::ShopPhase => (self, Seq::empty()),
        }
    }

    /// A wave manager before its first wave.
    pub fn new(config: WaveConfig) -> (r: WaveManager)
        ensures
            r == WaveManager::initial(config),
            r.valid(),
    {
        WaveManager {
            config,
            arena_bounds: DEFAULT_ARENA_BOUNDS,
            current_wave: 1,
            wave_state: WaveState::Preparing,
            wave_timer: 0,
            enemies_spawned: 0,
            enemies_to_spawn: 0,
            spawn_timer: 0,
            spawn_interval: if config.base_spawn_interval >= config.min_spawn_interval {
                config.base_spawn_interval
            } else {
                config.min_spawn_interval
            },
            enemies_alive: 0,
            difficulty_multiplier: 1000,
            can_pause: true,
        }
    }

    /// Whether the invariants of the wave manager hold.
    pub fn is_valid(&self) -> (r: bool)
        ensures
            r == self.valid(),
    {
        self.current_wave >= 1 && self.enemies_spawned <= self.enemies_to_spawn
            && self.difficulty_multiplier >= 1000 && self.spawn_interval
            >= self.config.min_spawn_interval
    }

    fn begin(&mut self)
        ensures
            *final(self) == old(self).started(),
            old(self).valid() ==> final(self).valid(),
    {
        self.wave_state = WaveState::Active;
        self.wave_timer = 0;
        self.spawn_timer = 0;
        self.enemies_spawned = 0;
        self.enemies_to_spawn = crate::difficulty::enemies_to_spawn(
            self.config.base_enemy_count,
            self.config.enemy_scaling_per_wave,
            self.current_wave,
        );
        self.difficulty_multiplier = crate::difficulty::difficulty_multiplier(
            self.config.difficulty_scaling_per_wave,
            self.current_wave,
        );
        proof {
            lemma_difficulty_at_least_one(
                self.config.difficulty_scaling_per_wave,
                self.current_wave,
            );
        }
    }

    fn advance(&mut self)
        ensures
            *final(self) == old(self).advanced(),
            old(self).valid() ==> final(self).valid(),
            old(self).valid() ==> final(self).spawn_interval <= old(self).spawn_interval,
    {
        if self.current_wave < u32::MAX {
            self.current_wave = self.current_wave + 1;
        }
        self.wave_state = WaveState::Preparing;
        self.wave_timer = 0;
        self.can_pause = true;
        self.spawn_interval = crate::difficulty::lowered_spawn_interval(
            self.spawn_interval,
            self.config.spawn_interval_reduction,
            self.config.min_spawn_interval,
        );
    }

    /// Begins the wave that is in preparation: the counters of the wave are
    /// reset, and the number of enemies and the strength multiplier are
    /// computed from the wave's number. In any other state nothing happens.
    pub fn start_wave(&mut self)
        ensures
            *final(self) == old(self).after_start_wave(),
            old(self).valid() ==> final(self).valid(),
    {
        if self.wave_state == WaveState::Preparing {
            self.begin();
        }
    }

    /// Leaves the shop and begins the next wave at once, without
    /// preparation. Outside the shop phase nothing happens.
    pub fn start_new_wave(&mut self)
        ensures
            *final(self) == old(self).after_start_new_wave(),
            old(self).valid() ==> final(self).valid(),
    {
        if self.wave_state == WaveState::ShopPhase {
            self.advance();
            self.begin();
        }
    }

    /// Marks the wave complete if it is over: active, with every enemy
    /// spawned and none alive. Otherwise nothing happens.
    pub fn end_wave(&mut self)
        ensures
            *final(self) == old(self).after_end_wave(),
            old(self).valid() ==> final(self).valid(),
    {
        if self.wave_state == WaveState::Active && self.enemies_spawned >= self.enemies_to_spawn
            && self.enemies_alive == 0 {
            self.wave_state = WaveState::Complete;
            self.wave_timer = 0;
        }
    }

    /// Freezes an active wave. Each wave may be paused once; the call
    /// returns whether it paused the wave, and changes nothing if it did not.
    pub fn pause_wave(&mut self) -> (paused: bool)
        ensures
            *final(self) == old(self).after_pause().0,
            paused == old(self).after_pause().1,
            paused <==> old(self).can_pause && old(self).wave_state == WaveState::Active,
            !paused ==> *final(self) == *old(self),
            old(self).valid() ==> final(self).valid(),
    {
        if self.can_pause && self.wave_state == WaveState::Active {
            self.wave_state = WaveState::Paused;
            self.can_pause = false;
            true
        } else {
            false
        }
    }

    /// Continues a paused wave; the timers go on from where they stopped.
    /// In any other state nothing happens.
    pub fn resume_wave(&mut self)
        ensures
            *final(self) == old(self).after_resume(),
            old(self).valid() ==> final(self).valid(),
    {
        if self.wave_state == WaveState::Paused {
            self.wave_state = WaveState::Active;
        }
    }

    /// Notes the death of one enemy. The count of living enemies never falls
    /// below zero.
    pub fn enemy_killed(&mut self)
        ensures
            *final(self) == old(self).after_kill(),
            old(self).enemies_alive == 0 ==> final(self).enemies_alive == 0,
            old(self).enemies_alive > 0 ==> final(self).enemies_alive == old(self).enemies_alive
                - 1,
            old(self).valid() ==> final(self).valid(),
    {
        if self.enemies_alive > 0 {
            self.enemies_alive = self.enemies_alive - 1;
        }
    }

    /// Closes the shop and prepares the next wave: the wave number goes up by
    /// one, the player may pause again, and the spawn interval shrinks by the
    /// configured step, down to the configured floor. Outside the shop phase
    /// nothing happens.
    pub fn complete_shop_phase(&mut self)
        ensures
            *final(self) == old(self).after_shop(),
            old(self).valid() ==> final(self).valid(),
            old(self).valid() ==> final(self).spawn_interval <= old(self).spawn_interval,
    {
        if self.wave_state == WaveState::ShopPhase {
            self.advance();
        }
    }

    /// The point at which an enemy appears outside an arena of half-width
    /// `arena_bounds`, in the horizontal direction of the unit vector
    /// `direction`.
    pub fn get_spawn_position(&self, arena_bounds: u64, direction: Vec3) -> (r: Vec3)
        ensures
            r == spawn_point(arena_bounds, direction),
    {
        let distance: u64 = arena_bounds.saturating_add(SPAWN_MARGIN);
        Vec3 {
            x: scale_signed(direction.x, distance),
            y: 0,
            z: scale_signed(direction.z, distance),
        }
    }

    /// Draws the kind of the next enemy of the present wave.
    pub fn get_enemy_type_for_wave(&self) -> (r: EnemyType)
        ensures
            exists|drawn: u32|
                drawn < ROLL_RANGE && r == #[trigger] enemy_type_for(self.current_wave, drawn),
    {
        let drawn = roll();
        enemy_type_for_roll(self.current_wave, drawn)
    }

    /// Whether a tick of `dt` milliseconds spawns an enemy.
    pub fn spawn_is_due(&self, dt: u64) -> (r: bool)
        ensures
            r == self.spawn_due(dt),
    {
        self.wave_state == WaveState::Active && self.enemies_spawned < self.enemies_to_spawn
            && self.spawn_timer.saturating_add(dt) >= self.spawn_interval
    }

    /// Advances the wave by `dt` milliseconds and returns the events of the
    /// tick, in order. If the tick spawns an enemy, `roll` selects its kind
    /// and `direction`, a unit vector, the side on which it appears.
    pub fn update_with_roll(&mut self, dt: u64, roll: u32, direction: Vec3) -> (events: Vec<
        WaveEvent,
    >)
        ensures
            *final(self) == old(self).step(dt, roll, direction).0,
            events@ == old(self).step(dt, roll, direction).1,
            old(self).valid() ==> final(self).valid(),
            forall|i: int|
                0 <= i < events@.len() && #[trigger] events@[i] is WaveComplete ==> old(
                    self,
                ).enemies_alive == 0 && final(self).enemies_alive == 0,
    {
        let mut events: Vec<WaveEvent> = Vec::new();
        let wave = self.current_wave;
        match self.wave_state {
            WaveState::Preparing => {
                self.wave_timer = self.wave_timer.saturating_add(dt);
                if self.wave_timer >= self.config.prep_time {
                    self.begin();
                    events.push(WaveEvent::WaveStarted(wave));
                }
            },
            WaveState::Active => {
                let due = self.spawn_is_due(dt);
                self.wave_timer = self.wave_timer.saturating_add(dt);
                self.spawn_timer = self.spawn_timer.saturating_add(dt);
                if due {
                    let data = EnemySpawnData {
                        enemy_type: enemy_type_for_roll(wave, roll),
                        position: self.get_spawn_position(self.arena_bounds, direction),
                        difficulty_multiplier: self.difficulty_multiplier,
                    };
                    events.push(WaveEvent::SpawnEnemy(data));
                    self.enemies_spawned = self.enemies_spawned + 1;
                    if self.enemies_alive < u32::MAX {
                        self.enemies_alive = self.enemies_alive + 1;
                    }
                    self.spawn_timer = 0;
                }
                if self.enemies_spawned >= self.enemies_to_spawn && self.enemies_alive == 0 {
                    self.end_wave();
                    events.push(WaveEvent::WaveComplete(wave));
                    self.wave_state = WaveState::ShopPhase;
                    events.push(WaveEvent::ShopPhaseStarted);
                }
            },
            WaveState::Paused => {},
            WaveState::Complete => {
                self.wave_state = WaveState::ShopPhase;
                self.wave_timer = 0;
                events.push(WaveEvent::ShopPhaseStarted);
            },
            WaveState::ShopPhase => {},
        }
        assert(events@ =~= old(self).step(dt, roll, direction).1);
        events
    }

    /// Advances the wave by `dt` milliseconds and returns the events of the
    /// tick, in order. If the tick spawns an enemy, its kind is drawn at
    /// random, and `direction`, a unit vector, is the side on which it
    /// appears.
    pub fn update(&mut self, dt: u64, direction: Vec3) -> (events: Vec<WaveEvent>)
        ensures
            exists|drawn: u32|
                drawn < ROLL_RANGE && *final(self) == (#[trigger] old(self).step(
                    dt,
                    drawn,
                    direction,
                )).0 && events@ == old(self).step(dt, drawn, direction).1,
            old(self).valid() ==> final(self).valid(),
            forall|i: int|
                0 <= i < events@.len() && #[trigger] events@[i] is WaveComplete ==> old(
                    self,
                ).enemies_alive == 0 && final(self).enemies_alive == 0,
    {
        let drawn: u32 = if self.spawn_is_due(dt) {
            roll()
        } else {
            0
        };
        self.update_with_roll(dt, drawn, direction)
    }
}

impl Default for WaveManager {
    fn default() -> (r: WaveManager)
        ensures
            r == WaveManager::initial(WaveConfig::standard()),
            r.valid(),
    {
        WaveManager::new(WaveConfig::default())
    }
}

proof fn lemma_difficulty_at_least_one(step: u64, wave: u32)
    ensures
        difficulty_for_wave(step, wave) >= 1000,
{
    let waves_before: int = if wave >= 1 {
        wave - 1
    } else {
        0
    };
    assert(waves_before * step >= 0) by (nonlinear_arith)
        requires
            waves_before >= 0,
            step >= 0,
    ;
}

/// A tick keeps the invariants of the wave manager.
pub proof fn lemma_step_keeps_valid(m: WaveManager, dt: u64, roll: u32, direction: Vec3)
    requires
        m.valid(),
    ensures
        m.step(dt, roll, direction).0.valid(),
{
    lemma_difficulty_at_least_one(m.config.difficulty_scaling_per_wave, m.current_wave);
}

/// Every call from outside keeps the invariants of the wave manager.
pub proof fn lemma_calls_keep_valid(m: WaveManager)
    requires
        m.valid(),
    ensures
        m.after_start_wave().valid(),
        m.after_start_new_wave().valid(),
        m.after_end_wave().valid(),
        m.after_pause().0.valid(),
        m.after_resume().valid(),
        m.after_kill().valid(),
        m.after_shop().valid(),
{
    lemma_difficulty_at_least_one(m.config.difficulty_scaling_per_wave, m.current_wave);
    lemma_difficulty_at_least_one(
        m.config.difficulty_scaling_per_wave,
        m.advanced().current_wave,
    );
}

/// An active wave whose enemies are all spawned and dead is completed by the
/// next tick, which opens the shop at once: the complete state is never seen
/// between two ticks.
pub proof fn lemma_cleared_wave_completes(m: WaveManager, dt: u64, roll: u32, direction: Vec3)
    requires
        m.wave_state == WaveState::Active,
        m.enemies_spawned >= m.enemies_to_spawn,
        m.enemies_alive == 0,
    ensures
        m.step(dt, roll, direction).1 == seq![
            WaveEvent::WaveComplete(m.current_wave),
            WaveEvent::ShopPhaseStarted,
        ],
        m.step(dt, roll, direction).0.wave_state == WaveState::ShopPhase,
        m.step(dt, roll, direction).0.current_wave == m.current_wave,
{
    assert(m.step(dt, roll, direction).1 =~= seq![
        WaveEvent::WaveComplete(m.current_wave),
        WaveEvent::ShopPhaseStarted,
    ]);
}

/// No tick ends in the complete state.
pub proof fn lemma_complete_is_never_left_standing(
    m: WaveManager,
    dt: u64,
    roll: u32,
    direction: Vec3,
)
    ensures
        m.step(dt, roll, direction).0.wave_state != WaveState::Complete,
{
}

/// What a tick can report: nothing, the start of the wave, one spawn, the
/// completion of the wave followed by the opening of the shop, or the
/// opening of the shop alone.
pub proof fn lemma_reports_of_a_tick(m: WaveManager, dt: u64, roll: u32, direction: Vec3)
    ensures
        ({
            let events = m.step(dt, roll, direction).1;
            ||| events == Seq::<WaveEvent>::empty()
            ||| events == seq![WaveEvent::WaveStarted(m.current_wave)]
            ||| events == seq![WaveEvent::SpawnEnemy(m.spawn_data(roll, direction))]
            ||| events == seq![
                WaveEvent::WaveComplete(m.current_wave),
                WaveEvent::ShopPhaseStarted,
            ]
            ||| events == seq![WaveEvent::ShopPhaseStarted]
        }),
{
    let events = m.step(dt, roll, direction).1;
    if m.wave_state == WaveState::Active {
        if m.spawn_due(dt) {
            assert(events =~= seq![WaveEvent::SpawnEnemy(m.spawn_data(roll, direction))]);
        } else if m.active_step(dt, roll, direction).0.wave_state == WaveState::ShopPhase {
            assert(events =~= seq![
                WaveEvent::WaveComplete(m.current_wave),
                WaveEvent::ShopPhaseStarted,
            ]);
        } else {
            assert(events =~= Seq::<WaveEvent>::empty());
        }
    }
}

/// An enemy is spawned only in an active wave in which one is left to spawn
/// and the spawn interval has passed; the tick that starts a wave spawns
/// none, so the start of a wave is reported before its first enemy.
pub proof fn lemma_spawn_needs_an_active_wave(
    m: WaveManager,
    dt: u64,
    roll: u32,
    direction: Vec3,
    i: int,
)
    requires
        0 <= i < m.step(dt, roll, direction).1.len(),
        m.step(dt, roll, direction).1[i] is SpawnEnemy,
    ensures
        m.wave_state == WaveState::Active,
        m.spawn_due(dt),
        m.step(dt, roll, direction).1 == seq![
            WaveEvent::SpawnEnemy(m.spawn_data(roll, direction)),
        ],
        m.step(dt, roll, direction).0.enemies_spawned == m.enemies_spawned + 1,
        m.step(dt, roll, direction).0.wave_state == WaveState::Active,
{
    lemma_reports_of_a_tick(m, dt, roll, direction);
}

/// A wave is never reported complete while an enemy is alive: a tick that
/// reports `WaveComplete` began and ends with no enemy alive and with every
/// enemy of the wave spawned, and it spawned none.
pub proof fn lemma_complete_means_cleared(
    m: WaveManager,
    dt: u64,
    roll: u32,
    direction: Vec3,
    i: int,
)
    requires
        0 <= i < m.step(dt, roll, direction).1.len(),
        m.step(dt, roll, direction).1[i] is WaveComplete,
    ensures
        m.wave_state == WaveState::Active,
        m.enemies_alive == 0,
        m.enemies_spawned >= m.enemies_to_spawn,
        !m.spawn_due(dt),
        m.step(dt, roll, direction).0.enemies_alive == 0,
        m.step(dt, roll, direction).0.wave_state == WaveState::ShopPhase,
{
}

/// While an enemy is alive, no tick reports the wave complete, even when
/// every enemy of the wave has been spawned.
pub proof fn lemma_no_completion_while_alive(
    m: WaveManager,
    dt: u64,
    roll: u32,
    direction: Vec3,
    i: int,
)
    requires
        m.enemies_alive > 0,
        0 <= i < m.step(dt, roll, direction).1.len(),
    ensures
        !(m.step(dt, roll, direction).1[i] is WaveComplete),
{
}

/// Of two calls of `pause_wave` in a row, the second returns `false` and
/// changes nothing.
pub proof fn lemma_second_pause_fails(m: WaveManager)
    ensures
        !m.after_pause().0.after_pause().1,
        m.after_pause().0.after_pause().0 == m.after_pause().0,
{
}

/// A wave can be paused once: after a pause and a resume, a further pause
/// fails until the shop phase has been completed.
pub proof fn lemma_one_pause_per_wave(m: WaveManager)
    requires
        m.after_pause().1,
    ensures
        !m.after_pause().0.after_resume().after_pause().1,
        m.after_pause().0.after_resume().after_pause().0 == m.after_pause().0.after_resume(),
{
}

/// The count of living enemies is never negative: a kill reported when none
/// is alive leaves the count at zero, and any other lowers it by one.
pub proof fn lemma_kill_floors_at_zero(m: WaveManager)
    ensures
        m.enemies_alive == 0 ==> m.after_kill() == m,
        m.enemies_alive > 0 ==> m.after_kill().enemies_alive == m.enemies_alive - 1,
        m.after_kill().enemies_alive >= 0,
{
}

/// From wave to wave the spawn interval never grows and never falls below
/// its floor.
pub proof fn lemma_spawn_interval_shrinks(m: WaveManager)
    requires
        m.valid(),
    ensures
        m.after_shop().spawn_interval <= m.spawn_interval,
        m.after_shop().spawn_interval >= m.config.min_spawn_interval,
        m.after_shop().valid(),
{
}

/// Running tallies of a game.
#[derive(Clone, Copy, Debug, PartialEq, Eq, Structural)]
pub struct WaveStats {
    pub total_enemies_killed: u32,
    pub highest_wave_reached: u32,
    pub total_play_time: u64,
    pub damage_dealt: u64,
    pub damage_taken: u64,
}

impl Default for WaveStats {
    fn default() -> (r: WaveStats)
        ensures
            r == (WaveStats {
                total_enemies_killed: 0,
                highest_wave_reached: 0,
                total_play_time: 0,
                damage_dealt: 0,
                damage_taken: 0,
            }),
    {
        WaveStats {
            total_enemies_killed: 0,
            highest_wave_reached: 0,
            total_play_time: 0,
            damage_dealt: 0,
            damage_taken: 0,
        }
    }
}

impl WaveStats {
    /// Counts one more enemy killed.
    pub fn enemy_killed(&mut self)
        ensures
            *final(self) == (WaveStats {
                total_enemies_killed: next_u32(old(self).total_enemies_killed),
                ..*old(self)
            }),
    {
        if self.total_enemies_killed < u32::MAX {
            self.total_enemies_killed = self.total_enemies_killed + 1;
        }
    }

    /// Notes that wave `wave` was reached.
    pub fn wave_reached(&mut self, wave: u32)
        ensures
            *final(self) == (WaveStats {
                highest_wave_reached: if wave > old(self).highest_wave_reached {
                    wave
                } else {
                    old(self).highest_wave_reached
                },
                ..*old(self)
            }),
    {
        if wave > self.highest_wave_reached {
            self.highest_wave_reached = wave;
        }
    }

    /// Adds to the damage that the player has dealt.
    pub fn add_damage_dealt(&mut self, damage: u64)
        ensures
            *final(self) == (WaveStats {
                damage_dealt: sum_u64(old(self).damage_dealt, damage),
                ..*old(self)
            }),
    {
        self.damage_dealt = self.damage_dealt.saturating_add(damage);
    }

    /// Adds to the damage that the player has taken.
    pub fn add_damage_taken(&mut self, damage: u64)
        ensures
            *final(self) == (WaveStats {
                damage_taken: sum_u64(old(self).damage_taken, damage),
                ..*old(self)
            }),
    {
        self.damage_taken = self.damage_taken.saturating_add(damage);
    }
}

} // verus!
