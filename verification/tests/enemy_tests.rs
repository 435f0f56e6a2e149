use void_survivor::enemy::{
    Enemy, EnemyMovement, EnemyProjectile, EnemyType, MovementBehavior, ProjectileFate,
};
use void_survivor::vec3::Vec3;

#[test]
fn each_kind_of_enemy_has_its_statistics() {
    let table: [(EnemyType, i64, u64, u64, u64, u64); 6] = [
        (EnemyType::Chaser, 50_000, 20_000, 100_000, 10_000, 100),
        (EnemyType::Shooter, 30_000, 15_000, 60_000, 15_000, 150),
        (EnemyType::Tank, 150_000, 35_000, 40_000, 25_000, 300),
        (EnemyType::Swarm, 20_000, 10_000, 150_000, 5_000, 50),
        (EnemyType::Elite, 100_000, 40_000, 80_000, 50_000, 500),
        (EnemyType::Boss, 500_000, 60_000, 50_000, 200_000, 900),
    ];
    for (kind, health, damage, speed, experience, loot) in table {
        let e = Enemy::new(kind);
        assert_eq!(e.enemy_type, kind);
        assert_eq!(e.health, health);
        assert_eq!(e.max_health, health as u64);
        assert_eq!(e.damage, damage);
        assert_eq!(e.speed, speed);
        assert_eq!(e.experience_value, experience);
        assert_eq!(e.loot_chance, loot);
        assert_eq!(e.last_damage_time, 0);
        assert!(!e.is_dead());
    }
    assert_eq!(Enemy::default(), Enemy::new(EnemyType::Chaser));
}

#[test]
fn difficulty_multiplies_health_and_damage() {
    let e = Enemy::with_difficulty(EnemyType::Tank, 1_400);
    assert_eq!(e.health, 210_000);
    assert_eq!(e.max_health, 210_000);
    assert_eq!(e.damage, 49_000);
    assert_eq!(e.speed, 40_000);
    assert_eq!(e.experience_value, 25_000);
    assert_eq!(Enemy::with_difficulty(EnemyType::Elite, 1_000), Enemy::new(EnemyType::Elite));
    let huge = Enemy::with_difficulty(EnemyType::Boss, u64::MAX);
    assert_eq!(huge.max_health, u64::MAX);
    assert_eq!(huge.health, i64::MAX);
    assert_eq!(huge.damage, u64::MAX);
}

#[test]
fn enemy_dies_when_its_health_is_spent() {
    let mut e = Enemy::new(EnemyType::Chaser);
    assert!(!e.take_damage(49_999, 120));
    assert_eq!(e.health, 1);
    assert_eq!(e.last_damage_time, 120);
    assert!(!e.is_dead());
    assert!(e.take_damage(1, 130));
    assert_eq!(e.health, 0);
    assert_eq!(e.last_damage_time, 130);
    assert!(e.is_dead());
    assert!(e.take_damage(25_000, 140));
    assert_eq!(e.health, -25_000);
    assert!(e.take_damage(u64::MAX, 150));
    assert_eq!(e.health, i64::MIN);
}

#[test]
fn only_ranged_kinds_shoot() {
    assert!(EnemyType::Shooter.shoots());
    assert!(EnemyType::Elite.shoots());
    assert!(EnemyType::Boss.shoots());
    assert!(!EnemyType::Chaser.shoots());
    assert!(!EnemyType::Tank.shoots());
    assert!(!EnemyType::Swarm.shoots());
}

#[test]
fn enemy_fires_in_range_after_its_cooldown() {
    let player = Vec3::new(0, 0, 0);
    let near = Vec3::new(299_999, 0, 0);
    let edge = Vec3::new(300_000, 0, 0);
    let mut e = Enemy::new(EnemyType::Shooter);
    assert!(!e.try_fire(near, player, 2_000));
    assert_eq!(e.last_damage_time, 0);
    assert!(!e.try_fire(edge, player, 2_001));
    assert!(e.try_fire(near, player, 2_001));
    assert_eq!(e.last_damage_time, 2_001);
    assert!(!e.try_fire(near, player, 4_001));
    assert!(e.try_fire(near, player, 4_002));
    assert!(!e.try_fire(near, player, 100));
    let mut chaser = Enemy::new(EnemyType::Chaser);
    assert!(!chaser.try_fire(near, player, 1_000_000));
    assert_eq!(chaser, Enemy::new(EnemyType::Chaser));
    let mut hurt = Enemy::new(EnemyType::Boss);
    hurt.take_damage(1, 5_000);
    assert!(!hurt.try_fire(near, player, 7_000));
    assert!(hurt.try_fire(near, player, 7_001));
}

#[test]
fn each_kind_has_its_picture() {
    assert_eq!(EnemyType::Chaser.sprite_path(), "sprites/enemy_chaser.png");
    assert_eq!(EnemyType::Shooter.sprite_path(), "sprites/enemy_shooter.png");
    assert_eq!(EnemyType::Tank.sprite_path(), "sprites/enemy_tank.png");
    assert_eq!(EnemyType::Swarm.sprite_path(), "sprites/enemy_swarm.png");
    assert_eq!(EnemyType::Elite.sprite_path(), "sprites/enemy_elite.png");
    assert_eq!(EnemyType::Boss.sprite_path(), "sprites/enemy_boss.png");
    assert_eq!(EnemyType::Swarm.sprite_scale(), 300);
    assert_eq!(EnemyType::Boss.sprite_scale(), 1_500);
    assert_eq!(EnemyType::Chaser.sprite_scale(), 500);
    assert_eq!(EnemyType::Tank.sprite_scale(), 500);
}

#[test]
fn new_enemy_chases_the_player() {
    let m = EnemyMovement::new(Vec3::new(1, 2, 3));
    assert_eq!(m.velocity, Vec3::new(0, 0, 0));
    assert_eq!(m.target_position, Vec3::new(1, 2, 3));
    assert_eq!(m.behavior, MovementBehavior::ChasePlayer);
}

#[test]
fn patrol_turns_around_at_its_ends() {
    let start = Vec3::new(0, 0, 0);
    let end = Vec3::new(100_000, 0, 0);
    let mut m = EnemyMovement::new(start);
    m.behavior = MovementBehavior::Patrol(start, end);
    m.retarget(Vec3::new(50_000, 0, 0));
    assert_eq!(m.target_position, start);
    m.retarget(Vec3::new(9_999, 0, 0));
    assert_eq!(m.target_position, end);
    m.retarget(Vec3::new(90_000, 0, 0));
    assert_eq!(m.target_position, end);
    m.retarget(Vec3::new(90_001, 0, 0));
    assert_eq!(m.target_position, start);
    let mut chase = EnemyMovement::new(start);
    chase.retarget(start);
    assert_eq!(chase, EnemyMovement::new(start));
}

#[test]
fn enemy_projectile_flies_hits_and_expires() {
    let mut shot = EnemyProjectile::new(Vec3::new(0, 0, 1000), 15_000);
    assert_eq!(shot.velocity, Vec3::new(0, 0, 400_000));
    assert_eq!(shot.damage, 15_000);
    assert_eq!(shot.max_lifetime, 3_000);
    let player = Vec3::new(0, 0, 100_000);
    let (place, fate) = shot.advance(Vec3::new(0, 0, 0), 100, player);
    assert_eq!(place, Vec3::new(0, 0, 40_000));
    assert_eq!(fate, ProjectileFate::Flying);
    assert_eq!(shot.lifetime, 100);
    let (place, fate) = shot.advance(place, 100, player);
    assert_eq!(place, Vec3::new(0, 0, 80_000));
    assert_eq!(fate, ProjectileFate::HitPlayer);
    let mut old = EnemyProjectile::new(Vec3::new(0, 0, 0), 1);
    let away = Vec3::new(500_000, 0, 0);
    let (_, fate) = old.advance(Vec3::new(0, 0, 0), 2_999, away);
    assert_eq!(fate, ProjectileFate::Flying);
    let (_, fate) = old.advance(Vec3::new(0, 0, 0), 1, away);
    assert_eq!(fate, ProjectileFate::Expired);
    let mut lost = EnemyProjectile::new(Vec3::new(1000, 0, 0), 1);
    let (_, fate) = lost.advance(Vec3::new(1_000_000, 0, 0), 1, away);
    assert_eq!(fate, ProjectileFate::Expired);
    let mut both = EnemyProjectile::new(Vec3::new(0, 0, 0), 1);
    let (_, fate) = both.advance(Vec3::new(0, 0, 0), 5_000, Vec3::new(24_999, 0, 0));
    assert_eq!(fate, ProjectileFate::HitPlayer);
    let (_, fate) = both.advance(Vec3::new(0, 0, 0), 0, Vec3::new(25_000, 0, 0));
    assert_eq!(fate, ProjectileFate::Expired);
}
