//! The balance of the game: every tunable number, the value each has when
//! nothing else is configured, and a check of their consistency.

use vstd::prelude::*;

verus! {

/// The player's starting statistics and how they recover.
#[derive(Clone, Copy, Debug, PartialEq, Eq, Structural)]
pub struct PlayerConfig {
    pub base_health: u64,
    pub base_shields: u64,
    pub base_special_energy: u64,
    pub base_speed: u64,
    /// Shields regained per second.
    pub shield_regen_rate: u64,
    /// The pause after a hit before shields recover.
    pub shield_regen_delay: u64,
    /// Special energy regained per second.
    pub special_energy_regen_rate: u64,
    /// How long the player cannot be hurt after a hit.
    pub invulnerability_time: u64,
}

/// The statistics of chasers.
#[derive(Clone, Copy, Debug, PartialEq, Eq, Structural)]
pub struct ChaserConfig {
    pub health: u64,
    pub speed: u64,
    pub damage: u64,
    pub attack_range: u64,
    pub attack_cooldown: u64,
}

/// The statistics of shooters.
#[derive(Clone, Copy, Debug, PartialEq, Eq, Structural)]
pub struct ShooterConfig {
    pub health: u64,
    pub speed: u64,
    pub damage: u64,
    pub attack_range: u64,
    pub attack_cooldown: u64,
    pub projectile_speed: u64,
}

/// The statistics of tanks.
#[derive(Clone, Copy, Debug, PartialEq, Eq, Structural)]
pub struct TankConfig {
    pub health: u64,
    pub speed: u64,
    pub damage: u64,
    pub attack_range: u64,
    pub attack_cooldown: u64,
    /// The share of each hit that the armour takes.
    pub armor: u64,
}

/// The statistics of the enemies and where they appear.
#[derive(Clone, Copy, Debug, PartialEq, Eq, Structural)]
pub struct EnemyConfig {
    pub chaser: ChaserConfig,
    pub shooter: ShooterConfig,
    pub tank: TankConfig,
    pub spawn_distance_min: u64,
    pub spawn_distance_max: u64,
    pub max_enemies_on_screen: u32,
}

/// How waves grow.
#[derive(Clone, Copy, Debug, PartialEq, Eq, Structural)]
pub struct WaveConfig {
    /// The number of enemies of the first wave.
    pub base_enemy_count: u32,
    /// The factor by which the number of enemies grows from wave to wave.
    pub enemy_scaling_per_wave: u64,
    /// What each wave adds to the strength multiplier.
    pub difficulty_scaling_per_wave: u64,
    /// The time between two spawns in the first wave.
    pub base_spawn_interval: u64,
    /// The shortest time between two spawns.
    pub min_spawn_interval: u64,
    /// By how much the time between two spawns shrinks from wave to wave.
    pub spawn_interval_reduction: u64,
    /// The time between waves.
    pub prep_time: u64,
}

/// The statistics of the blaster.
#[derive(Clone, Copy, Debug, PartialEq, Eq, Structural)]
pub struct BlasterConfig {
    pub damage: u64,
    /// Shots per second.
    pub fire_rate: u64,
    pub projectile_speed: u64,
    pub range: u64,
    pub energy_cost: u64,
}

/// The statistics of the laser.
#[derive(Clone, Copy, Debug, PartialEq, Eq, Structural)]
pub struct LaserConfig {
    pub damage_per_second: u64,
    pub max_range: u64,
    pub energy_cost_per_second: u64,
    pub charge_time: u64,
    pub pierce_count: u32,
}

/// The statistics of the rocket launcher.
#[derive(Clone, Copy, Debug, PartialEq, Eq, Structural)]
pub struct RocketConfig {
    pub damage: u64,
    pub explosion_radius: u64,
    pub fire_rate: u64,
    pub projectile_speed: u64,
    pub energy_cost: u64,
}

/// The statistics of the area pulse.
#[derive(Clone, Copy, Debug, PartialEq, Eq, Structural)]
pub struct AoePulseConfig {
    pub damage: u64,
    pub radius: u64,
    pub energy_cost: u64,
    pub cooldown: u64,
}

/// The statistics of the weapons.
#[derive(Clone, Copy, Debug, PartialEq, Eq, Structural)]
pub struct WeaponConfig {
    pub blaster: BlasterConfig,
    pub laser: LaserConfig,
    pub rocket: RocketConfig,
    pub aoe_pulse: AoePulseConfig,
}

/// The probabilities of the optional drops.
#[derive(Clone, Copy, Debug, PartialEq, Eq, Structural)]
pub struct DropChances {
    pub health_pack: u64,
    pub energy_cell: u64,
    pub bonus_currency: u64,
}

/// What enemies drop and how drops behave.
#[derive(Clone, Copy, Debug, PartialEq, Eq, Structural)]
pub struct LootConfig {
    pub exp_drop_base: u64,
    /// The share of an enemy's full health that is added to its experience drop.
    pub exp_drop_scaling: u64,
    pub health_pack_heal: u64,
    pub energy_cell_restore: u64,
    pub currency_base: u32,
    pub drop_chances: DropChances,
    pub attraction_range: u64,
    pub attraction_speed: u64,
    pub lifetime: u64,
}

/// How levels and shop prices grow.
#[derive(Clone, Copy, Debug, PartialEq, Eq, Structural)]
pub struct UpgradeConfig {
    pub level_exp_base: u64,
    pub level_exp_scaling: u64,
    pub max_upgrade_choices: usize,
    pub shop_item_scaling: u64,
}

/// The arena.
#[derive(Clone, Copy, Debug, PartialEq, Eq, Structural)]
pub struct ArenaConfig {
    pub radius: u64,
    /// Damage per second outside the arena.
    pub boundary_damage: u64,
    pub boundary_knockback: u64,
    /// The distance from the centre at which enemies appear.
    pub spawn_radius: u64,
}

/// Sound settings.
#[derive(Clone, Copy, Debug, PartialEq, Eq, Structural)]
pub struct AudioConfig {
    pub master_volume: u64,
    pub music_volume: u64,
    pub sfx_volume: u64,
    pub enable_music: bool,
    pub enable_sfx: bool,
}

/// Display settings.
#[derive(Clone, Copy, Debug, PartialEq, Eq, Structural)]
pub struct UIConfig {
    pub hud_opacity: u64,
    pub show_damage_numbers: bool,
    pub show_enemy_health: bool,
    pub auto_pause_on_levelup: bool,
}

/// All the settings of a game.
#[derive(Clone, Copy, Debug, PartialEq, Eq, Structural)]
pub struct GameConfig {
    pub player: PlayerConfig,
    pub enemies: EnemyConfig,
    pub waves: WaveConfig,
    pub weapons: WeaponConfig,
    pub loot: LootConfig,
    pub upgrades: UpgradeConfig,
    pub arena: ArenaConfig,
    pub audio: AudioConfig,
    pub ui: UIConfig,
}

impl PlayerConfig {
    /// The values used when nothing else is configured.
    pub open spec fn standard() -> PlayerConfig {
        PlayerConfig {
            base_health: 100_000,
            base_shields: 50_000,
            base_special_energy: 100_000,
            base_speed: 5_000,
            shield_regen_rate: 10_000,
            shield_regen_delay: 3_000,
            special_energy_regen_rate: 20_000,
            invulnerability_time: 500,
        }
    }
}

impl Default for PlayerConfig {
    fn default() -> (r: PlayerConfig)
        ensures
            r == PlayerConfig::standard(),
    {
        PlayerConfig {
            base_health: 100_000,
            base_shields: 50_000,
            base_special_energy: 100_000,
            base_speed: 5_000,
            shield_regen_rate: 10_000,
            shield_regen_delay: 3_000,
            special_energy_regen_rate: 20_000,
            invulnerability_time: 500,
        }
    }
}

impl ChaserConfig {
    /// The values used when nothing else is configured.
    pub open spec fn standard() -> ChaserConfig {
        ChaserConfig {
            health: 30_000,
            speed: 3_000,
            damage: 15_000,
            attack_range: 1_500,
            attack_cooldown: 1_000,
        }
    }
}

impl Default for ChaserConfig {
    fn default() -> (r: ChaserConfig)
        ensures
            r == ChaserConfig::standard(),
    {
        ChaserConfig {
            health: 30_000,
            speed: 3_000,
            damage: 15_000,
            attack_range: 1_500,
            attack_cooldown: 1_000,
        }
    }
}

impl ShooterConfig {
    /// The values used when nothing else is configured.
    pub open spec fn standard() -> ShooterConfig {
        ShooterConfig {
            health: 20_000,
            speed: 2_000,
            damage: 10_000,
            attack_range: 8_000,
            attack_cooldown: 2_000,
            projectile_speed: 6_000,
        }
    }
}

impl Default for ShooterConfig {
    fn default() -> (r: ShooterConfig)
        ensures
            r == ShooterConfig::standard(),
    {
        ShooterConfig {
            health: 20_000,
            speed: 2_000,
            damage: 10_000,
            attack_range: 8_000,
            attack_cooldown: 2_000,
            projectile_speed: 6_000,
        }
    }
}

impl TankConfig {
    /// The values used when nothing else is configured.
    pub open spec fn standard() -> TankConfig {
        TankConfig {
            health: 80_000,
            speed: 1_000,
            damage: 25_000,
            attack_range: 3_000,
            attack_cooldown: 3_000,
            armor: 200,
        }
    }
}

impl Default for TankConfig {
    fn default() -> (r: TankConfig)
        ensures
            r == TankConfig::standard(),
    {
        TankConfig {
            health: 80_000,
            speed: 1_000,
            damage: 25_000,
            attack_range: 3_000,
            attack_cooldown: 3_000,
            armor: 200,
        }
    }
}

impl EnemyConfig {
    /// The values used when nothing else is configured.
    pub open spec fn standard() -> EnemyConfig {
        EnemyConfig {
            chaser: ChaserConfig::standard(),
            shooter: ShooterConfig::standard(),
            tank: TankConfig::standard(),
            spawn_distance_min: 12_000,
            spawn_distance_max: 20_000,
            max_enemies_on_screen: 50,
        }
    }
}

impl Default for EnemyConfig {
    fn default() -> (r: EnemyConfig)
        ensures
            r == EnemyConfig::standard(),
    {
        EnemyConfig {
            chaser: ChaserConfig::default(),
            shooter: ShooterConfig::default(),
            tank: TankConfig::default(),
            spawn_distance_min: 12_000,
            spawn_distance_max: 20_000,
            max_enemies_on_screen: 50,
        }
    }
}

impl WaveConfig {
    /// The values used when nothing else is configured.
    pub open spec fn standard() -> WaveConfig {
        WaveConfig {
            base_enemy_count: 10,
            enemy_scaling_per_wave: 1_500,
            difficulty_scaling_per_wave: 200,
            base_spawn_interval: 2_000,
            min_spawn_interval: 500,
            spawn_interval_reduction: 100,
            prep_time: 3_000,
        }
    }
}

impl Default for WaveConfig {
    fn default() -> (r: WaveConfig)
        ensures
            r == WaveConfig::standard(),
    {
        WaveConfig {
            base_enemy_count: 10,
            enemy_scaling_per_wave: 1_500,
            difficulty_scaling_per_wave: 200,
            base_spawn_interval: 2_000,
            min_spawn_interval: 500,
            spawn_interval_reduction: 100,
            prep_time: 3_000,
        }
    }
}

impl BlasterConfig {
    /// The values used when nothing else is configured.
    pub open spec fn standard() -> BlasterConfig {
        BlasterConfig {
            damage: 20_000,
            fire_rate: 5_000,
            projectile_speed: 15_000,
            range: 20_000,
            energy_cost: 0,
        }
    }
}

impl Default for BlasterConfig {
    fn default() -> (r: BlasterConfig)
        ensures
            r == BlasterConfig::standard(),
    {
        BlasterConfig {
            damage: 20_000,
            fire_rate: 5_000,
            projectile_speed: 15_000,
            range: 20_000,
            energy_cost: 0,
        }
    }
}

impl LaserConfig {
    /// The values used when nothing else is configured.
    pub open spec fn standard() -> LaserConfig {
        LaserConfig {
            damage_per_second: 50_000,
            max_range: 25_000,
            energy_cost_per_second: 30_000,
            charge_time: 500,
            pierce_count: 3,
        }
    }
}

impl Default for LaserConfig {
    fn default() -> (r: LaserConfig)
        ensures
            r == LaserConfig::standard(),
    {
        LaserConfig {
            damage_per_second: 50_000,
            max_range: 25_000,
            energy_cost_per_second: 30_000,
            charge_time: 500,
            pierce_count: 3,
        }
    }
}

impl RocketConfig {
    /// The values used when nothing else is configured.
    pub open spec fn standard() -> RocketConfig {
        RocketConfig {
            damage: 60_000,
            explosion_radius: 3_000,
            fire_rate: 1_500,
            projectile_speed: 8_000,
            energy_cost: 25_000,
        }
    }
}

impl Default for RocketConfig {
    fn default() -> (r: RocketConfig)
        ensures
            r == RocketConfig::standard(),
    {
        RocketConfig {
            damage: 60_000,
            explosion_radius: 3_000,
            fire_rate: 1_500,
            projectile_speed: 8_000,
            energy_cost: 25_000,
        }
    }
}

impl AoePulseConfig {
    /// The values used when nothing else is configured.
    pub open spec fn standard() -> AoePulseConfig {
        AoePulseConfig {
            damage: 80_000,
            radius: 8_000,
            energy_cost: 50_000,
            cooldown: 5_000,
        }
    }
}

impl Default for AoePulseConfig {
    fn default() -> (r: AoePulseConfig)
        ensures
            r == AoePulseConfig::standard(),
    {
        AoePulseConfig {
            damage: 80_000,
            radius: 8_000,
            energy_cost: 50_000,
            cooldown: 5_000,
        }
    }
}

impl WeaponConfig {
    /// The values used when nothing else is configured.
    pub open spec fn standard() -> WeaponConfig {
        WeaponConfig {
            blaster: BlasterConfig::standard(),
            laser: LaserConfig::standard(),
            rocket: RocketConfig::standard(),
            aoe_pulse: AoePulseConfig::standard(),
        }
    }
}

impl Default for WeaponConfig {
    fn default() -> (r: WeaponConfig)
        ensures
            r == WeaponConfig::standard(),
    {
        WeaponConfig {
            blaster: BlasterConfig::default(),
            laser: LaserConfig::default(),
            rocket: RocketConfig::default(),
            aoe_pulse: AoePulseConfig::default(),
        }
    }
}

impl DropChances {
    /// The values used when nothing else is configured.
    pub open spec fn standard() -> DropChances {
        DropChances {
            health_pack: 200,
            energy_cell: 100,
            bonus_currency: 150,
        }
    }
}

impl Default for DropChances {
    fn default() -> (r: DropChances)
        ensures
            r == DropChances::standard(),
    {
        DropChances {
            health_pack: 200,
            energy_cell: 100,
            bonus_currency: 150,
        }
    }
}

impl LootConfig {
    /// The values used when nothing else is configured.
    pub open spec fn standard() -> LootConfig {
        LootConfig {
            exp_drop_base: 10_000,
            exp_drop_scaling: 100,
            health_pack_heal: 25_000,
            energy_cell_restore: 30_000,
            currency_base: 5,
            drop_chances: DropChances::standard(),
            attraction_range: 3_000,
            attraction_speed: 8_000,
            lifetime: 30_000,
        }
    }
}

impl Default for LootConfig {
    fn default() -> (r: LootConfig)
        ensures
            r == LootConfig::standard(),
    {
        LootConfig {
            exp_drop_base: 10_000,
            exp_drop_scaling: 100,
            health_pack_heal: 25_000,
            energy_cell_restore: 30_000,
            currency_base: 5,
            drop_chances: DropChances::default(),
            attraction_range: 3_000,
            attraction_speed: 8_000,
            lifetime: 30_000,
        }
    }
}

impl UpgradeConfig {
    /// The values used when nothing else is configured.
    pub open spec fn standard() -> UpgradeConfig {
        UpgradeConfig {
            level_exp_base: 100_000,
            level_exp_scaling: 1_200,
            max_upgrade_choices: 3,
            shop_item_scaling: 1_500,
        }
    }
}

impl Default for UpgradeConfig {
    fn default() -> (r: UpgradeConfig)
        ensures
            r == UpgradeConfig::standard(),
    {
        UpgradeConfig {
            level_exp_base: 100_000,
            level_exp_scaling: 1_200,
            max_upgrade_choices: 3,
            shop_item_scaling: 1_500,
        }
    }
}

impl ArenaConfig {
    /// The values used when nothing else is configured.
    pub open spec fn standard() -> ArenaConfig {
        ArenaConfig {
            radius: 25_000,
            boundary_damage: 20_000,
            boundary_knockback: 10_000,
            spawn_radius: 30_000,
        }
    }
}

impl Default for ArenaConfig {
    fn default() -> (r: ArenaConfig)
        ensures
            r == ArenaConfig::standard(),
    {
        ArenaConfig {
            radius: 25_000,
            boundary_damage: 20_000,
            boundary_knockback: 10_000,
            spawn_radius: 30_000,
        }
    }
}

impl AudioConfig {
    /// The values used when nothing else is configured.
    pub open spec fn standard() -> AudioConfig {
        AudioConfig {
            master_volume: 1_000,
            music_volume: 700,
            sfx_volume: 800,
            enable_music: true,
            enable_sfx: true,
        }
    }
}

impl Default for AudioConfig {
    fn default() -> (r: AudioConfig)
        ensures
            r == AudioConfig::standard(),
    {
        AudioConfig {
            master_volume: 1_000,
            music_volume: 700,
            sfx_volume: 800,
            enable_music: true,
            enable_sfx: true,
        }
    }
}

impl UIConfig {
    /// The values used when nothing else is configured.
    pub open spec fn standard() -> UIConfig {
        UIConfig {
            hud_opacity: 900,
            show_damage_numbers: true,
            show_enemy_health: true,
            auto_pause_on_levelup: true,
        }
    }
}

impl Default for UIConfig {
    fn default() -> (r: UIConfig)
        ensures
            r == UIConfig::standard(),
    {
        UIConfig {
            hud_opacity: 900,
            show_damage_numbers: true,
            show_enemy_health: true,
            auto_pause_on_levelup: true,
        }
    }
}

impl GameConfig {
    /// The values used when nothing else is configured.
    pub open spec fn standard() -> GameConfig {
        GameConfig {
            player: PlayerConfig::standard(),
            enemies: EnemyConfig::standard(),
            waves: WaveConfig::standard(),
            weapons: WeaponConfig::standard(),
            loot: LootConfig::standard(),
            upgrades: UpgradeConfig::standard(),
            arena: ArenaConfig::standard(),
            audio: AudioConfig::standard(),
            ui: UIConfig::standard(),
        }
    }
}

impl Default for GameConfig {
    fn default() -> (r: GameConfig)
        ensures
            r == GameConfig::standard(),
    {
        GameConfig {
            player: PlayerConfig::default(),
            enemies: EnemyConfig::default(),
            waves: WaveConfig::default(),
            weapons: WeaponConfig::default(),
            loot: LootConfig::default(),
            upgrades: UpgradeConfig::default(),
            arena: ArenaConfig::default(),
            audio: AudioConfig::default(),
            ui: UIConfig::default(),
        }
    }
}

/// A list of one message if `fault` holds, and of none otherwise.
pub open spec fn warning_if(fault: bool, message: Seq<char>) -> Seq<Seq<char>> {
    if fault {
        seq![message]
    } else {
        Seq::empty()
    }
}

/// What each of a list of strings holds.
pub open spec fn texts(strings: Seq<String>) -> Seq<Seq<char>> {
    strings.map_values(|s: String| s@)
}

fn warn_if(warnings: &mut Vec<String>, fault: bool, message: &str)
    ensures
        texts(final(warnings)@) == texts(old(warnings)@) + warning_if(fault, message@),
{
    if fault {
        let text = message.to_string();
        warnings.push(text);
        assert(texts(warnings@) =~= texts(old(warnings)@) + seq![message@]);
    } else {
        assert(texts(warnings@) =~= texts(old(warnings)@) + Seq::<Seq<char>>::empty());
    }
}

impl GameConfig {
    /// The warnings that the configuration deserves, in the order in which
    /// the settings are checked.
    pub open spec fn warnings(self) -> Seq<Seq<char>> {
        warning_if(self.player.base_health == 0, "Player base health must be positive"@)
            + warning_if(self.player.base_speed == 0, "Player base speed must be positive"@)
            + warning_if(self.enemies.chaser.health == 0, "Chaser health must be positive"@)
            + warning_if(self.weapons.blaster.damage == 0, "Blaster damage must be positive"@)
            + warning_if(self.arena.radius == 0, "Arena radius must be positive"@)
            + warning_if(
            self.arena.spawn_radius <= self.arena.radius,
            "Spawn radius should be larger than arena radius"@,
        )
    }

    /// Whether the configuration deserves no warning.
    pub open spec fn sound(self) -> bool {
        &&& self.player.base_health > 0
        &&& self.player.base_speed > 0
        &&& self.enemies.chaser.health > 0
        &&& self.weapons.blaster.damage > 0
        &&& self.arena.radius > 0
        &&& self.arena.spawn_radius > self.arena.radius
    }

    /// Checks the balance. Returns one warning for each setting that cannot
    /// work: quantities that must be positive and are not, and a spawn radius
    /// that does not lie outside the arena.
    pub fn validate(&self) -> (warnings: Vec<String>)
        ensures
            texts(warnings@) == self.warnings(),
            warnings@.len() == 0 <==> self.sound(),
    {
        let mut warnings: Vec<String> = Vec::new();
        assert(texts(warnings@) =~= Seq::<Seq<char>>::empty());
        warn_if(&mut warnings, self.player.base_health == 0, "Player base health must be positive");
        warn_if(&mut warnings, self.player.base_speed == 0, "Player base speed must be positive");
        warn_if(&mut warnings, self.enemies.chaser.health == 0, "Chaser health must be positive");
        warn_if(&mut warnings, self.weapons.blaster.damage == 0, "Blaster damage must be positive");
        warn_if(&mut warnings, self.arena.radius == 0, "Arena radius must be positive");
        warn_if(
            &mut warnings,
            self.arena.spawn_radius <= self.arena.radius,
            "Spawn radius should be larger than arena radius",
        );
        assert(texts(warnings@).len() == warnings@.len());
        warnings
    }
}

/// The standard configuration deserves no warning.
pub proof fn lemma_standard_config_is_sound()
    ensures
        GameConfig::standard().sound(),
        GameConfig::standard().warnings() == Seq::<Seq<char>>::empty(),
{
    assert(GameConfig::standard().warnings() =~= Seq::<Seq<char>>::empty());
}

} // verus!
