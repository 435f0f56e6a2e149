use void_survivor::config::{
    AoePulseConfig, ArenaConfig, AudioConfig, BlasterConfig, ChaserConfig, DropChances,
    EnemyConfig, GameConfig, LaserConfig, LootConfig, PlayerConfig, RocketConfig, ShooterConfig,
    TankConfig, UIConfig, UpgradeConfig, WaveConfig, WeaponConfig,
};

#[test]
fn player_defaults() {
    let c = PlayerConfig::default();
    assert_eq!(c.base_health, 100_000);
    assert_eq!(c.base_shields, 50_000);
    assert_eq!(c.base_special_energy, 100_000);
    assert_eq!(c.base_speed, 5_000);
    assert_eq!(c.shield_regen_rate, 10_000);
    assert_eq!(c.shield_regen_delay, 3_000);
    assert_eq!(c.special_energy_regen_rate, 20_000);
    assert_eq!(c.invulnerability_time, 500);
}

#[test]
fn enemy_defaults() {
    let c = EnemyConfig::default();
    assert_eq!(c.chaser, ChaserConfig { health: 30_000, speed: 3_000, damage: 15_000, attack_range: 1_500, attack_cooldown: 1_000 });
    assert_eq!(
        c.shooter,
        ShooterConfig { health: 20_000, speed: 2_000, damage: 10_000, attack_range: 8_000, attack_cooldown: 2_000, projectile_speed: 6_000 }
    );
    assert_eq!(
        c.tank,
        TankConfig { health: 80_000, speed: 1_000, damage: 25_000, attack_range: 3_000, attack_cooldown: 3_000, armor: 200 }
    );
    assert_eq!(c.spawn_distance_min, 12_000);
    assert_eq!(c.spawn_distance_max, 20_000);
    assert_eq!(c.max_enemies_on_screen, 50);
    assert_eq!(ChaserConfig::default(), c.chaser);
    assert_eq!(ShooterConfig::default(), c.shooter);
    assert_eq!(TankConfig::default(), c.tank);
}

#[test]
fn wave_defaults() {
    let c = WaveConfig::default();
    assert_eq!(c.base_enemy_count, 10);
    assert_eq!(c.enemy_scaling_per_wave, 1_500);
    assert_eq!(c.difficulty_scaling_per_wave, 200);
    assert_eq!(c.base_spawn_interval, 2_000);
    assert_eq!(c.min_spawn_interval, 500);
    assert_eq!(c.spawn_interval_reduction, 100);
    assert_eq!(c.prep_time, 3_000);
}

#[test]
fn weapon_defaults() {
    let c = WeaponConfig::default();
    assert_eq!(c.blaster, BlasterConfig { damage: 20_000, fire_rate: 5_000, projectile_speed: 15_000, range: 20_000, energy_cost: 0 });
    assert_eq!(
        c.laser,
        LaserConfig { damage_per_second: 50_000, max_range: 25_000, energy_cost_per_second: 30_000, charge_time: 500, pierce_count: 3 }
    );
    assert_eq!(c.rocket, RocketConfig { damage: 60_000, explosion_radius: 3_000, fire_rate: 1_500, projectile_speed: 8_000, energy_cost: 25_000 });
    assert_eq!(c.aoe_pulse, AoePulseConfig { damage: 80_000, radius: 8_000, energy_cost: 50_000, cooldown: 5_000 });
    assert_eq!(BlasterConfig::default(), c.blaster);
    assert_eq!(LaserConfig::default(), c.laser);
    assert_eq!(RocketConfig::default(), c.rocket);
    assert_eq!(AoePulseConfig::default(), c.aoe_pulse);
}

#[test]
fn loot_defaults() {
    let c = LootConfig::default();
    assert_eq!(c.exp_drop_base, 10_000);
    assert_eq!(c.exp_drop_scaling, 100);
    assert_eq!(c.health_pack_heal, 25_000);
    assert_eq!(c.energy_cell_restore, 30_000);
    assert_eq!(c.currency_base, 5);
    assert_eq!(c.drop_chances, DropChances { health_pack: 200, energy_cell: 100, bonus_currency: 150 });
    assert_eq!(c.attraction_range, 3_000);
    assert_eq!(c.attraction_speed, 8_000);
    assert_eq!(c.lifetime, 30_000);
    assert_eq!(DropChances::default(), c.drop_chances);
}

#[test]
fn remaining_defaults() {
    assert_eq!(
        UpgradeConfig::default(),
        UpgradeConfig { level_exp_base: 100_000, level_exp_scaling: 1_200, max_upgrade_choices: 3, shop_item_scaling: 1_500 }
    );
    assert_eq!(
        ArenaConfig::default(),
        ArenaConfig { radius: 25_000, boundary_damage: 20_000, boundary_knockback: 10_000, spawn_radius: 30_000 }
    );
    assert_eq!(
        AudioConfig::default(),
        AudioConfig { master_volume: 1_000, music_volume: 700, sfx_volume: 800, enable_music: true, enable_sfx: true }
    );
    assert_eq!(
        UIConfig::default(),
        UIConfig { hud_opacity: 900, show_damage_numbers: true, show_enemy_health: true, auto_pause_on_levelup: true }
    );
}

#[test]
fn game_defaults_are_the_defaults_of_the_parts() {
    let c = GameConfig::default();
    assert_eq!(c.player, PlayerConfig::default());
    assert_eq!(c.enemies, EnemyConfig::default());
    assert_eq!(c.waves, WaveConfig::default());
    assert_eq!(c.weapons, WeaponConfig::default());
    assert_eq!(c.loot, LootConfig::default());
    assert_eq!(c.upgrades, UpgradeConfig::default());
    assert_eq!(c.arena, ArenaConfig::default());
    assert_eq!(c.audio, AudioConfig::default());
    assert_eq!(c.ui, UIConfig::default());
}

#[test]
fn default_configuration_deserves_no_warning() {
    assert!(GameConfig::default().validate().is_empty());
}

#[test]
fn each_fault_has_its_warning() {
    let mut c = GameConfig::default();
    c.player.base_health = 0;
    assert_eq!(c.validate(), vec!["Player base health must be positive"]);
    let mut c = GameConfig::default();
    c.player.base_speed = 0;
    assert_eq!(c.validate(), vec!["Player base speed must be positive"]);
    let mut c = GameConfig::default();
    c.enemies.chaser.health = 0;
    assert_eq!(c.validate(), vec!["Chaser health must be positive"]);
    let mut c = GameConfig::default();
    c.weapons.blaster.damage = 0;
    assert_eq!(c.validate(), vec!["Blaster damage must be positive"]);
    let mut c = GameConfig::default();
    c.arena.spawn_radius = 25_000;
    assert_eq!(c.validate(), vec!["Spawn radius should be larger than arena radius"]);
    c.arena.spawn_radius = 25_001;
    assert!(c.validate().is_empty());
    c.arena.spawn_radius = 24_000;
    assert_eq!(c.validate(), vec!["Spawn radius should be larger than arena radius"]);
}

#[test]
fn warnings_come_in_the_order_of_the_checks() {
    let mut c = GameConfig::default();
    c.player.base_health = 0;
    c.player.base_speed = 0;
    c.enemies.chaser.health = 0;
    c.weapons.blaster.damage = 0;
    c.arena.radius = 0;
    c.arena.spawn_radius = 0;
    assert_eq!(
        c.validate(),
        vec![
            "Player base health must be positive",
            "Player base speed must be positive",
            "Chaser health must be positive",
            "Blaster damage must be positive",
            "Arena radius must be positive",
            "Spawn radius should be larger than arena radius",
        ]
    );
    let mut c = GameConfig::default();
    c.arena.radius = 0;
    c.player.base_speed = 0;
    assert_eq!(
        c.validate(),
        vec!["Player base speed must be positive", "Arena radius must be positive"]
    );
}

#[test]
fn settings_without_a_check_raise_no_warning() {
    let mut c = GameConfig::default();
    c.player.base_shields = 0;
    c.enemies.tank.health = 0;
    c.weapons.rocket.damage = 0;
    c.waves.base_enemy_count = 0;
    c.loot.lifetime = 0;
    assert!(c.validate().is_empty());
}
