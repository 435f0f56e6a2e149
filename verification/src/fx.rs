//! Visual effects: which effects are running, how long each lasts, and the
//! parameters of the shaders. Drawing them is the host's business.

use crate::enemy::EnemyType;
use crate::fixed::sum_u64;
use crate::loot::LootType;
use crate::player::WeaponType;
use crate::vec3::Vec3;
use vstd::prelude::*;

verus! {

/// The duration of an effect that lasts until it is taken away.
pub const PERSISTENT: u64 = u64::MAX;

/// What an effect shows.
#[derive(Clone, Copy, Debug, PartialEq, Eq, Structural)]
pub enum EffectType {
    MuzzleFlash(WeaponType),
    ProjectileTrail(WeaponType),
    Impact(WeaponType),
    EnemyDeath(EnemyType),
    LootGlow(LootType),
    AreaEffect,
    LevelUp,
    ScreenFlash,
}

/// The effects that a weapon causes.
#[derive(Clone, Copy, Debug, PartialEq, Eq, Structural)]
pub enum WeaponEffectType {
    MuzzleFlash,
    ProjectileTrail,
    Impact,
}

/// An effect that is running.
#[derive(Clone, Copy, Debug, PartialEq, Eq, Structural)]
pub struct ActiveEffect {
    pub effect_type: EffectType,
    pub position: Vec3,
    pub duration: u64,
    pub elapsed: u64,
    pub scale: u64,
}

impl ActiveEffect {
    /// The effect `dt` milliseconds later.
    pub open spec fn aged(self, dt: u64) -> ActiveEffect {
        ActiveEffect { elapsed: sum_u64(self.elapsed, dt), ..self }
    }

    /// Whether the effect still has time to run.
    pub open spec fn running(self) -> bool {
        self.elapsed < self.duration
    }
}

/// The effect of a weapon at a place.
pub open spec fn weapon_effect(
    weapon_type: WeaponType,
    position: Vec3,
    effect_type: WeaponEffectType,
) -> ActiveEffect {
    match effect_type {
        WeaponEffectType::MuzzleFlash => ActiveEffect {
            effect_type: EffectType::MuzzleFlash(weapon_type),
            position,
            duration: 100,
            elapsed: 0,
            scale: 1000,
        },
        WeaponEffectType::ProjectileTrail => ActiveEffect {
            effect_type: EffectType::ProjectileTrail(weapon_type),
            position,
            duration: 2000,
            elapsed: 0,
            scale: 1000,
        },
        WeaponEffectType::Impact => ActiveEffect {
            effect_type: EffectType::Impact(weapon_type),
            position,
            duration: 300,
            elapsed: 0,
            scale: 1000,
        },
    }
}

/// How long and how large the explosion of an enemy is: small for chasers
/// and swarms, medium for shooters and elites, large for tanks and bosses.
pub open spec fn explosion_of(enemy_type: EnemyType) -> (u64, u64) {
    match enemy_type {
        EnemyType::Chaser | EnemyType::Swarm => (500, 800),
        EnemyType::Shooter | EnemyType::Elite => (700, 1000),
        EnemyType::Tank | EnemyType::Boss => (1200, 1500),
    }
}

/// The effects of a list that are still running after `dt` more
/// milliseconds, each that much older, in their old order.
pub open spec fn surviving(effects: Seq<ActiveEffect>, dt: u64) -> Seq<ActiveEffect>
    decreases effects.len(),
{
    if effects.len() == 0 {
        Seq::empty()
    } else {
        let earlier = surviving(effects.drop_last(), dt);
        if effects.last().aged(dt).running() {
            earlier.push(effects.last().aged(dt))
        } else {
            earlier
        }
    }
}

/// Every surviving effect is an effect of the old list, aged, that is still
/// running, and no more effects survive than there were.
pub proof fn lemma_survivors(effects: Seq<ActiveEffect>, dt: u64)
    ensures
        surviving(effects, dt).len() <= effects.len(),
        forall|i: int|
            0 <= i < surviving(effects, dt).len() ==> (#[trigger] surviving(
                effects,
                dt,
            )[i]).running() && exists|j: int|
                0 <= j < effects.len() && surviving(effects, dt)[i] == (#[trigger] effects[j]).aged(
                    dt,
                ),
        forall|j: int|
            0 <= j < effects.len() && (#[trigger] effects[j]).aged(dt).running() ==> surviving(
                effects,
                dt,
            ).contains(effects[j].aged(dt)),
    decreases effects.len(),
{
    if effects.len() > 0 {
        let rest = effects.drop_last();
        lemma_survivors(rest, dt);
        let all = surviving(effects, dt);
        let earlier = surviving(rest, dt);
        assert forall|i: int| 0 <= i < all.len() implies (#[trigger] all[i]).running() && exists|
            j: int,
        |
            0 <= j < effects.len() && all[i] == (#[trigger] effects[j]).aged(dt) by {
            if i < earlier.len() {
                assert(all[i] == earlier[i]);
                let j = choose|j: int|
                    0 <= j < rest.len() && earlier[i] == (#[trigger] rest[j]).aged(dt);
                assert(effects[j] == rest[j]);
            } else {
                assert(all[i] == effects[effects.len() - 1].aged(dt));
            }
        }
        assert forall|j: int|
            0 <= j < effects.len() && (#[trigger] effects[j]).aged(dt).running() implies all.contains(
            effects[j].aged(dt),
        ) by {
            if j < rest.len() {
                assert(rest[j] == effects[j]);
                let i = choose|i: int| 0 <= i < earlier.len() && earlier[i] == rest[j].aged(dt);
                assert(all[i] == earlier[i]);
            } else {
                assert(all[all.len() - 1] == effects[j].aged(dt));
            }
        }
    }
}

/// The effects that are running.
#[derive(Debug)]
pub struct FXManager {
    pub active_effects: Vec<ActiveEffect>,
}

impl Default for FXManager {
    fn default() -> (r: FXManager)
        ensures
            r.active_effects@.len() == 0,
    {
        FXManager { active_effects: Vec::new() }
    }
}

impl FXManager {
    /// A manager with no effect running.
    pub fn new() -> (r: FXManager)
        ensures
            r.active_effects@.len() == 0,
    {
        FXManager { active_effects: Vec::new() }
    }

    /// Starts an effect of a weapon.
    pub fn spawn_weapon_effect(
        &mut self,
        weapon_type: WeaponType,
        position: Vec3,
        effect_type: WeaponEffectType,
    )
        ensures
            final(self).active_effects@ == old(self).active_effects@.push(
                weapon_effect(weapon_type, position, effect_type),
            ),
    {
        let effect = match effect_type {
            WeaponEffectType::MuzzleFlash => ActiveEffect {
                effect_type: EffectType::MuzzleFlash(weapon_type),
                position,
                duration: 100,
                elapsed: 0,
                scale: 1000,
            },
            WeaponEffectType::ProjectileTrail => ActiveEffect {
                effect_type: EffectType::ProjectileTrail(weapon_type),
                position,
                duration: 2000,
                elapsed: 0,
                scale: 1000,
            },
            WeaponEffectType::Impact => ActiveEffect {
                effect_type: EffectType::Impact(weapon_type),
                position,
                duration: 300,
                elapsed: 0,
                scale: 1000,
            },
        };
        self.active_effects.push(effect);
    }

    /// Starts the explosion of a dying enemy.
    pub fn spawn_enemy_death_effect(&mut self, enemy_type: EnemyType, position: Vec3)
        ensures
            final(self).active_effects@ == old(self).active_effects@.push(
                ActiveEffect {
                    effect_type: EffectType::EnemyDeath(enemy_type),
                    position,
                    duration: explosion_of(enemy_type).0,
                    elapsed: 0,
                    scale: explosion_of(enemy_type).1,
                },
            ),
    {
        let (duration, scale): (u64, u64) = match enemy_type {
            EnemyType::Chaser | EnemyType::Swarm => (500, 800),
            EnemyType::Shooter | EnemyType::Elite => (700, 1000),
            EnemyType::Tank | EnemyType::Boss => (1200, 1500),
        };
        self.active_effects.push(
            ActiveEffect {
                effect_type: EffectType::EnemyDeath(enemy_type),
                position,
                duration,
                elapsed: 0,
                scale,
            },
        );
    }

    /// Starts the glow of a piece of loot, which lasts until the loot is
    /// collected.
    pub fn spawn_loot_effect(&mut self, loot_type: LootType, position: Vec3)
        ensures
            final(self).active_effects@ == old(self).active_effects@.push(
                ActiveEffect {
                    effect_type: EffectType::LootGlow(loot_type),
                    position,
                    duration: PERSISTENT,
                    elapsed: 0,
                    scale: 1000,
                },
            ),
    {
        self.active_effects.push(
            ActiveEffect {
                effect_type: EffectType::LootGlow(loot_type),
                position,
                duration: PERSISTENT,
                elapsed: 0,
                scale: 1000,
            },
        );
    }

    /// Starts the effect of a gained level.
    pub fn spawn_level_up_effect(&mut self, position: Vec3)
        ensures
            final(self).active_effects@ == old(self).active_effects@.push(
                ActiveEffect {
                    effect_type: EffectType::LevelUp,
                    position,
                    duration: 2000,
                    elapsed: 0,
                    scale: 2000,
                },
            ),
    {
        self.active_effects.push(
            ActiveEffect {
                effect_type: EffectType::LevelUp,
                position,
                duration: 2000,
                elapsed: 0,
                scale: 2000,
            },
        );
    }

    /// Ages every effect by `dt` milliseconds and drops those that have run
    /// their time.
    pub fn update(&mut self, dt: u64)
        ensures
            final(self).active_effects@ == surviving(old(self).active_effects@, dt),
    {
        let mut kept: Vec<ActiveEffect> = Vec::new();
        let mut i: usize = 0;
        assert(self.active_effects@.take(0) =~= Seq::<ActiveEffect>::empty());
        while i < self.active_effects.len()
            invariant
                i <= self.active_effects@.len(),
                *self == *old(self),
                kept@ == surviving(self.active_effects@.take(i as int), dt),
            decreases self.active_effects@.len() - i,
        {
            let mut effect = self.active_effects[i];
            effect.elapsed = effect.elapsed.saturating_add(dt);
            proof {
                let now = self.active_effects@.take(i + 1);
                assert(now.drop_last() =~= self.active_effects@.take(i as int));
                assert(now.last() == self.active_effects@[i as int]);
            }
            if effect.elapsed < effect.duration {
                kept.push(effect);
            }
            i += 1;
        }
        assert(self.active_effects@.take(self.active_effects@.len() as int)
            =~= self.active_effects@);
        self.active_effects = kept;
    }
}

/// A colour: red, green, blue and opacity.
#[derive(Clone, Copy, Debug, PartialEq, Eq, Structural)]
pub struct Color4 {
    pub r: u64,
    pub g: u64,
    pub b: u64,
    pub a: u64,
}

/// The parameters of a shader.
#[derive(Clone, Copy, Debug, PartialEq, Eq, Structural)]
pub struct ShaderParameters {
    pub glow_intensity: u64,
    pub pulse_speed: u64,
    pub color_primary: Color4,
    pub color_secondary: Color4,
    pub scroll_speed: Vec3,
    pub noise_scale: u64,
}

impl ShaderParameters {
    /// Parameters with nothing set.
    pub open spec fn blank() -> ShaderParameters {
        ShaderParameters {
            glow_intensity: 0,
            pulse_speed: 0,
            color_primary: Color4 { r: 0, g: 0, b: 0, a: 0 },
            color_secondary: Color4 { r: 0, g: 0, b: 0, a: 0 },
            scroll_speed: Vec3 { x: 0, y: 0, z: 0 },
            noise_scale: 0,
        }
    }
}

impl Default for ShaderParameters {
    fn default() -> (r: ShaderParameters)
        ensures
            r == ShaderParameters::blank(),
    {
        ShaderParameters {
            glow_intensity: 0,
            pulse_speed: 0,
            color_primary: Color4 { r: 0, g: 0, b: 0, a: 0 },
            color_secondary: Color4 { r: 0, g: 0, b: 0, a: 0 },
            scroll_speed: Vec3 { x: 0, y: 0, z: 0 },
            noise_scale: 0,
        }
    }
}

/// The shaders of the weapons.
#[derive(Clone, Copy, Debug, PartialEq, Eq, Structural)]
pub enum WeaponShaderType {
    LaserBeam,
    ShockwaveRing,
    AoeRing,
}

/// The shaders of the surroundings.
#[derive(Clone, Copy, Debug, PartialEq, Eq, Structural)]
pub enum EnvironmentShaderType {
    Starfield,
    Nebula,
    ArenaField,
}

/// The shaders of the loot.
#[derive(Clone, Copy, Debug, PartialEq, Eq, Structural)]
pub enum LootShaderType {
    ExpGlow,
    HealthGlow,
    EnergyGlow,
    CurrencySpin,
}

/// The shader of a weapon.
#[derive(Clone, Copy, Debug, PartialEq, Eq, Structural)]
pub struct WeaponShader {
    pub shader_type: WeaponShaderType,
    pub parameters: ShaderParameters,
}

/// A shader of the surroundings.
#[derive(Clone, Copy, Debug, PartialEq, Eq, Structural)]
pub struct EnvironmentShader {
    pub shader_type: EnvironmentShaderType,
    pub parameters: ShaderParameters,
}

/// The shader of a kind of loot.
#[derive(Clone, Copy, Debug, PartialEq, Eq, Structural)]
pub struct LootShader {
    pub shader_type: LootShaderType,
    pub parameters: ShaderParameters,
}

/// The shaders of the game.
#[derive(Debug)]
pub struct ShaderManager {
    pub weapon_shaders: Vec<WeaponShader>,
    pub environment_shaders: Vec<EnvironmentShader>,
    pub loot_shaders: Vec<LootShader>,
}

/// The shaders of the weapons: a red laser beam and a blue shockwave ring.
pub open spec fn standard_weapon_shaders() -> Seq<WeaponShader> {
    seq![
        WeaponShader {
            shader_type: WeaponShaderType::LaserBeam,
            parameters: ShaderParameters {
                glow_intensity: 2000,
                color_primary: Color4 { r: 1000, g: 200, b: 200, a: 1000 },
                scroll_speed: Vec3 { x: 0, y: 0, z: 10_000 },
                ..ShaderParameters::blank()
            },
        },
        WeaponShader {
            shader_type: WeaponShaderType::ShockwaveRing,
            parameters: ShaderParameters {
                glow_intensity: 1500,
                color_primary: Color4 { r: 500, g: 800, b: 1000, a: 800 },
                pulse_speed: 3000,
                ..ShaderParameters::blank()
            },
        },
    ]
}

/// The shaders of the surroundings: a white starfield and a cyan arena
/// field.
pub open spec fn standard_environment_shaders() -> Seq<EnvironmentShader> {
    seq![
        EnvironmentShader {
            shader_type: EnvironmentShaderType::Starfield,
            parameters: ShaderParameters {
                pulse_speed: 500,
                noise_scale: 100_000,
                color_primary: Color4 { r: 1000, g: 1000, b: 1000, a: 800 },
                ..ShaderParameters::blank()
            },
        },
        EnvironmentShader {
            shader_type: EnvironmentShaderType::ArenaField,
            parameters: ShaderParameters {
                glow_intensity: 1000,
                pulse_speed: 1000,
                color_primary: Color4 { r: 0, g: 1000, b: 1000, a: 600 },
                ..ShaderParameters::blank()
            },
        },
    ]
}

/// The shaders of the loot: a green glow for experience and a red one for
/// health.
pub open spec fn standard_loot_shaders() -> Seq<LootShader> {
    seq![
        LootShader {
            shader_type: LootShaderType::ExpGlow,
            parameters: ShaderParameters {
                glow_intensity: 1500,
                pulse_speed: 2000,
                color_primary: Color4 { r: 0, g: 1000, b: 500, a: 800 },
                ..ShaderParameters::blank()
            },
        },
        LootShader {
            shader_type: LootShaderType::HealthGlow,
            parameters: ShaderParameters {
                glow_intensity: 1200,
                pulse_speed: 1500,
                color_primary: Color4 { r: 1000, g: 0, b: 0, a: 800 },
                ..ShaderParameters::blank()
            },
        },
    ]
}

fn shader_parameters(
    glow_intensity: u64,
    pulse_speed: u64,
    color_primary: Color4,
    scroll_speed: Vec3,
    noise_scale: u64,
) -> (r: ShaderParameters)
    ensures
        r == (ShaderParameters {
            glow_intensity,
            pulse_speed,
            color_primary,
            scroll_speed,
            noise_scale,
            ..ShaderParameters::blank()
        }),
{
    ShaderParameters {
        glow_intensity,
        pulse_speed,
        color_primary,
        color_secondary: Color4 { r: 0, g: 0, b: 0, a: 0 },
        scroll_speed,
        noise_scale,
    }
}

impl Default for ShaderManager {
    fn default() -> (r: ShaderManager)
        ensures
            r.weapon_shaders@.len() == 0,
            r.environment_shaders@.len() == 0,
            r.loot_shaders@.len() == 0,
    {
        ShaderManager {
            weapon_shaders: Vec::new(),
            environment_shaders: Vec::new(),
            loot_shaders: Vec::new(),
        }
    }
}

impl ShaderManager {
    /// A manager without shaders.
    pub fn new() -> (r: ShaderManager)
        ensures
            r.weapon_shaders@.len() == 0,
            r.environment_shaders@.len() == 0,
            r.loot_shaders@.len() == 0,
    {
        ShaderManager {
            weapon_shaders: Vec::new(),
            environment_shaders: Vec::new(),
            loot_shaders: Vec::new(),
        }
    }

    /// Replaces the shaders by the standard ones.
    pub fn initialize_shaders(&mut self)
        ensures
            final(self).weapon_shaders@ == standard_weapon_shaders(),
            final(self).environment_shaders@ == standard_environment_shaders(),
            final(self).loot_shaders@ == standard_loot_shaders(),
    {
        let still = Vec3::zero();
        let mut weapons: Vec<WeaponShader> = Vec::new();
        weapons.push(
            WeaponShader {
                shader_type: WeaponShaderType::LaserBeam,
                parameters: shader_parameters(
                    2000,
                    0,
                    Color4 { r: 1000, g: 200, b: 200, a: 1000 },
                    Vec3 { x: 0, y: 0, z: 10_000 },
                    0,
                ),
            },
        );
        weapons.push(
            WeaponShader {
                shader_type: WeaponShaderType::ShockwaveRing,
                parameters: shader_parameters(
                    1500,
                    3000,
                    Color4 { r: 500, g: 800, b: 1000, a: 800 },
                    still,
                    0,
                ),
            },
        );
        assert(weapons@ =~= standard_weapon_shaders());
        let mut surroundings: Vec<EnvironmentShader> = Vec::new();
        surroundings.push(
            EnvironmentShader {
                shader_type: EnvironmentShaderType::Starfield,
                parameters: shader_parameters(
                    0,
                    500,
                    Color4 { r: 1000, g: 1000, b: 1000, a: 800 },
                    still,
                    100_000,
                ),
            },
        );
        surroundings.push(
            EnvironmentShader {
                shader_type: EnvironmentShaderType::ArenaField,
                parameters: shader_parameters(
                    1000,
                    1000,
                    Color4 { r: 0, g: 1000, b: 1000, a: 600 },
                    still,
                    0,
                ),
            },
        );
        assert(surroundings@ =~= standard_environment_shaders());
        let mut loot: Vec<LootShader> = Vec::new();
        loot.push(
            LootShader {
                shader_type: LootShaderType::ExpGlow,
                parameters: shader_parameters(
                    1500,
                    2000,
                    Color4 { r: 0, g: 1000, b: 500, a: 800 },
                    still,
                    0,
                ),
            },
        );
        loot.push(
            LootShader {
                shader_type: LootShaderType::HealthGlow,
                parameters: shader_parameters(
                    1200,
                    1500,
                    Color4 { r: 1000, g: 0, b: 0, a: 800 },
                    still,
                    0,
                ),
            },
        );
        assert(loot@ =~= standard_loot_shaders());
        self.weapon_shaders = weapons;
        self.environment_shaders = surroundings;
        self.loot_shaders = loot;
    }

    /// Advances the animation of the shaders by `dt` milliseconds. None of
    /// the standard shaders holds a parameter that changes with time, so the
    /// shaders stay as they are.
    pub fn update_shader_parameters(&mut self, dt: u64)
        ensures
            final(self).weapon_shaders@ == old(self).weapon_shaders@,
            final(self).environment_shaders@ == old(self).environment_shaders@,
            final(self).loot_shaders@ == old(self).loot_shaders@,
    {
    }
}

} // verus!
