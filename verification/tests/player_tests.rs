use void_survivor::player::{
    Player, PlayerMovement, PlayerWeapon, Projectile, ProjectileProfile, WeaponType,
};
use void_survivor::vec3::Vec3;

#[test]
fn new_player_has_the_starting_statistics() {
    let p = Player::new();
    assert_eq!(p.health, 100_000);
    assert_eq!(p.max_health, 100_000);
    assert_eq!(p.shields, 50_000);
    assert_eq!(p.max_shields, 50_000);
    assert_eq!(p.special_energy, 100_000);
    assert_eq!(p.max_special_energy, 100_000);
    assert_eq!(p.experience, 0);
    assert_eq!(p.level, 1);
    assert_eq!(p.speed, 300_000);
    assert_eq!(p.primary_weapon, WeaponType::Blaster);
    assert_eq!(p.fire_rate, 5_000);
    assert_eq!(p.last_shot_time, 0);
    assert_eq!(p.damage_multiplier, 1_000);
    assert!(p.is_alive);
    assert_eq!(Player::default(), p);
    assert_eq!(WeaponType::default(), WeaponType::Blaster);
}

#[test]
fn shields_absorb_before_health() {
    let mut p = Player::new();
    p.shields = 20_000;
    p.health = 100_000;
    p.take_damage(30_000);
    assert_eq!(p.shields, 0);
    assert_eq!(p.health, 90_000);
    assert!(p.is_alive);
    p.take_damage(5_000);
    assert_eq!(p.shields, 0);
    assert_eq!(p.health, 85_000);
    assert!(p.is_alive);
}

#[test]
fn damage_within_the_shields_spares_the_health() {
    let mut p = Player::new();
    p.take_damage(49_999);
    assert_eq!(p.shields, 1);
    assert_eq!(p.health, 100_000);
    p.take_damage(1);
    assert_eq!(p.shields, 0);
    assert_eq!(p.health, 100_000);
    p.take_damage(0);
    assert_eq!(p.health, 100_000);
    assert!(p.is_alive);
}

#[test]
fn health_may_fall_below_zero() {
    let mut p = Player::new();
    p.take_damage(200_000);
    assert_eq!(p.shields, 0);
    assert_eq!(p.health, -50_000);
    assert!(!p.is_alive);
    p.take_damage(10_000);
    assert_eq!(p.health, -60_000);
    assert!(!p.is_alive);
}

#[test]
fn health_of_exactly_zero_is_death() {
    let mut p = Player::new();
    p.take_damage(150_000);
    assert_eq!(p.health, 0);
    assert!(!p.is_alive);
}

#[test]
fn dead_player_stays_dead() {
    let mut p = Player::new();
    p.is_alive = false;
    p.take_damage(1);
    assert!(!p.is_alive);
    assert_eq!(p.health, 100_000);
}

#[test]
fn damage_stops_at_the_bottom_of_the_range() {
    let mut p = Player::new();
    p.shields = 0;
    p.health = i64::MIN + 5;
    p.take_damage(u64::MAX);
    assert_eq!(p.health, i64::MIN);
}

#[test]
fn experience_over_the_threshold_gains_one_level() {
    let mut p = Player::new();
    assert!(p.add_experience(150_000));
    assert_eq!(p.level, 2);
    assert_eq!(p.experience, 50_000);
}

#[test]
fn experience_below_the_threshold_accumulates() {
    let mut p = Player::new();
    assert!(!p.add_experience(99_999));
    assert_eq!(p.level, 1);
    assert_eq!(p.experience, 99_999);
    assert!(p.add_experience(1));
    assert_eq!(p.level, 2);
    assert_eq!(p.experience, 0);
    assert!(!p.add_experience(199_999));
    assert_eq!(p.level, 2);
    assert!(p.add_experience(1));
    assert_eq!(p.level, 3);
    assert_eq!(p.experience, 0);
}

#[test]
fn one_call_gains_at_most_one_level() {
    let mut p = Player::new();
    assert!(p.add_experience(1_000_000));
    assert_eq!(p.level, 2);
    assert_eq!(p.experience, 900_000);
    assert!(p.add_experience(0));
    assert_eq!(p.level, 3);
    assert_eq!(p.experience, 700_000);
}

#[test]
fn experience_and_level_stop_at_the_top_of_their_ranges() {
    let mut p = Player::new();
    p.experience = u64::MAX - 10;
    p.level = u32::MAX;
    assert!(p.add_experience(100));
    assert_eq!(p.level, u32::MAX);
    assert_eq!(p.experience, u64::MAX - (u32::MAX as u64) * 100_000);
}

#[test]
fn weapon_fires_once_per_cooldown() {
    let mut p = Player::new();
    assert!(!p.can_shoot(0));
    assert!(!p.can_shoot(199));
    assert!(p.can_shoot(200));
    assert!(p.can_shoot(10_000));
    p.last_shot_time = 1_000;
    assert!(!p.can_shoot(999));
    assert!(!p.can_shoot(1_199));
    assert!(p.can_shoot(1_200));
    p.fire_rate = 1_500;
    assert!(!p.can_shoot(1_666));
    assert!(p.can_shoot(1_667));
    p.fire_rate = 0;
    assert!(!p.can_shoot(u64::MAX));
    p.fire_rate = u64::MAX;
    p.last_shot_time = 0;
    assert!(p.can_shoot(u64::MAX));
    assert!(!p.can_shoot(0));
}

#[test]
fn shields_and_energy_recover_up_to_their_ceilings() {
    let mut p = Player::new();
    p.shields = 40_000;
    p.special_energy = 50_000;
    p.regenerate(500);
    assert_eq!(p.shields, 45_000);
    assert_eq!(p.special_energy, 60_000);
    p.regenerate(2_000);
    assert_eq!(p.shields, 50_000);
    assert_eq!(p.special_energy, 100_000);
    p.regenerate(1_000);
    assert_eq!(p.shields, 50_000);
    assert_eq!(p.special_energy, 100_000);
    p.shields = 70_000;
    p.regenerate(1_000);
    assert_eq!(p.shields, 70_000);
    p.shields = 0;
    p.regenerate(16);
    assert_eq!(p.shields, 160);
    p.shields = 0;
    p.regenerate(u64::MAX);
    assert_eq!(p.shields, 50_000);
}

#[test]
fn each_weapon_has_its_projectile_profile() {
    assert_eq!(
        WeaponType::Blaster.projectile_profile(),
        ProjectileProfile { speed: 800_000, lifetime: 2_000, scale: 150 }
    );
    assert_eq!(
        WeaponType::Laser.projectile_profile(),
        ProjectileProfile { speed: 1_200_000, lifetime: 1_500, scale: 120 }
    );
    assert_eq!(
        WeaponType::Rocket.projectile_profile(),
        ProjectileProfile { speed: 600_000, lifetime: 3_000, scale: 200 }
    );
    assert_eq!(
        WeaponType::AoePulse.projectile_profile(),
        ProjectileProfile { speed: 400_000, lifetime: 1_000, scale: 180 }
    );
}

#[test]
fn projectile_flies_along_its_direction() {
    let mut shot = Projectile::new(Vec3::new(600, 0, -800), WeaponType::Blaster, 20_000);
    assert_eq!(shot.velocity, Vec3::new(480_000, 0, -640_000));
    assert_eq!(shot.damage, 20_000);
    assert_eq!(shot.lifetime, 0);
    assert_eq!(shot.max_lifetime, 2_000);
    let (place, expired) = shot.advance(Vec3::new(1_000, 500, 2_000), 100);
    assert_eq!(place, Vec3::new(49_000, 500, -62_000));
    assert!(!expired);
    assert_eq!(shot.lifetime, 100);
}

#[test]
fn projectile_expires_with_age() {
    let mut shot = Projectile::new(Vec3::new(0, 0, 0), WeaponType::AoePulse, 1);
    let (_, expired) = shot.advance(Vec3::new(0, 0, 0), 999);
    assert!(!expired);
    let (_, expired) = shot.advance(Vec3::new(0, 0, 0), 1);
    assert!(expired);
    assert_eq!(shot.lifetime, 1_000);
}

#[test]
fn projectile_expires_outside_the_world() {
    let mut shot = Projectile::new(Vec3::new(1000, 0, 0), WeaponType::Rocket, 1);
    let (place, expired) = shot.advance(Vec3::new(999_400, 0, 0), 1);
    assert_eq!(place, Vec3::new(1_000_000, 0, 0));
    assert!(!expired);
    let (place, expired) = shot.advance(place, 1);
    assert_eq!(place, Vec3::new(1_000_600, 0, 0));
    assert!(expired);
}

#[test]
fn projectile_hits_the_first_enemy_in_reach() {
    let shot = Vec3::new(0, 0, 0);
    let targets = vec![
        Vec3::new(20_000, 0, 0),
        Vec3::new(0, 19_999, 0),
        Vec3::new(1, 1, 1),
    ];
    assert_eq!(Projectile::first_target(shot, &targets), Some(1));
    let far = vec![Vec3::new(20_000, 0, 0), Vec3::new(12_000, 16_000, 0)];
    assert_eq!(Projectile::first_target(shot, &far), None);
    assert_eq!(Projectile::first_target(shot, &Vec::new()), None);
    let near = vec![Vec3::new(12_000, 15_999, 0)];
    assert_eq!(Projectile::first_target(shot, &near), Some(0));
}

#[test]
fn ship_bounces_off_the_arena_walls() {
    let mut m = PlayerMovement::new();
    assert_eq!(m.max_speed, 300_000);
    assert_eq!(m.thrust_force, 500_000);
    assert_eq!(m.turn_speed, 3_000);
    assert_eq!(m.current_direction, 0);
    m.velocity = Vec3::new(100_000, 7, -30_001);
    let place = m.confine(Vec3::new(400_001, 5, -450_000), 400_000);
    assert_eq!(place, Vec3::new(400_000, 5, -400_000));
    assert_eq!(m.velocity, Vec3::new(-50_000, 7, 15_000));
    let place = m.confine(Vec3::new(400_000, 5, -400_000), 400_000);
    assert_eq!(place, Vec3::new(400_000, 5, -400_000));
    assert_eq!(m.velocity, Vec3::new(-50_000, 7, 15_000));
    let place = m.confine(Vec3::new(-1, 5, 700_000), 400_000);
    assert_eq!(place, Vec3::new(-1, 5, 400_000));
    assert_eq!(m.velocity, Vec3::new(-50_000, 7, -7_500));
    m.velocity = Vec3::new(i64::MIN, 0, i64::MAX);
    let place = m.confine(Vec3::new(i64::MIN, 0, i64::MAX), u64::MAX);
    assert_eq!(place, Vec3::new(i64::MIN, 0, i64::MAX));
    assert_eq!(m.velocity, Vec3::new(i64::MIN, 0, i64::MAX));
    let place = m.confine(Vec3::new(i64::MIN, 0, i64::MAX), 0);
    assert_eq!(place, Vec3::new(0, 0, 0));
    assert_eq!(m.velocity, Vec3::new(i64::MAX / 2 + 1, 0, -(i64::MAX / 2)));
}

#[test]
fn starting_weapon_is_the_blaster() {
    let w = PlayerWeapon::new();
    assert_eq!(w.weapon_type, WeaponType::Blaster);
    assert_eq!(w.last_shot, 0);
    assert_eq!(w.fire_rate, 5_000);
    assert_eq!(w.damage, 20_000);
}
