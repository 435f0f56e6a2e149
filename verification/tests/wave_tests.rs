use void_survivor::config::WaveConfig;
use void_survivor::enemy::EnemyType;
use void_survivor::vec3::Vec3;
use void_survivor::wave::{
    enemy_type_for_roll, spawn_weights, EnemySpawnData, WaveEvent, WaveManager, WaveState,
    WaveStats,
};

fn east() -> Vec3 {
    Vec3::new(1000, 0, 0)
}

fn active_wave() -> WaveManager {
    let mut w = WaveManager::new(WaveConfig::default());
    let events = w.update_with_roll(3000, 0, east());
    assert_eq!(events, vec![WaveEvent::WaveStarted(1)]);
    w
}

#[test]
fn new_manager_waits_for_the_first_wave() {
    let w = WaveManager::new(WaveConfig::default());
    assert_eq!(w.current_wave, 1);
    assert_eq!(w.wave_state, WaveState::Preparing);
    assert_eq!(w.wave_timer, 0);
    assert_eq!(w.enemies_spawned, 0);
    assert_eq!(w.enemies_to_spawn, 0);
    assert_eq!(w.enemies_alive, 0);
    assert_eq!(w.spawn_interval, 2000);
    assert_eq!(w.difficulty_multiplier, 1000);
    assert!(w.can_pause);
    assert!(w.is_valid());
    assert_eq!(WaveManager::default(), w);
}

#[test]
fn new_manager_never_starts_below_the_floor() {
    let mut config = WaveConfig::default();
    config.base_spawn_interval = 100;
    let w = WaveManager::new(config);
    assert_eq!(w.spawn_interval, 500);
    assert!(w.is_valid());
}

#[test]
fn preparation_ends_after_the_preparation_time() {
    let mut w = WaveManager::new(WaveConfig::default());
    assert!(w.update_with_roll(1000, 0, east()).is_empty());
    assert!(w.update_with_roll(1999, 0, east()).is_empty());
    assert_eq!(w.wave_state, WaveState::Preparing);
    assert_eq!(w.wave_timer, 2999);
    let events = w.update_with_roll(1, 0, east());
    assert_eq!(events, vec![WaveEvent::WaveStarted(1)]);
    assert_eq!(w.wave_state, WaveState::Active);
    assert_eq!(w.wave_timer, 0);
    assert_eq!(w.spawn_timer, 0);
    assert_eq!(w.enemies_to_spawn, 10);
    assert_eq!(w.difficulty_multiplier, 1000);
}

#[test]
fn start_wave_computes_count_and_difficulty_from_the_wave_number() {
    let expected: [(u32, u32, u64); 5] =
        [(1, 10, 1000), (2, 15, 1200), (3, 23, 1400), (6, 76, 2000), (11, 577, 3000)];
    for (wave, count, difficulty) in expected {
        let mut w = WaveManager::new(WaveConfig::default());
        w.current_wave = wave;
        w.enemies_spawned = 4;
        w.wave_timer = 77;
        w.spawn_timer = 55;
        w.start_wave();
        assert_eq!(w.wave_state, WaveState::Active);
        assert_eq!(w.enemies_to_spawn, count);
        assert_eq!(w.difficulty_multiplier, difficulty);
        assert_eq!(w.enemies_spawned, 0);
        assert_eq!(w.wave_timer, 0);
        assert_eq!(w.spawn_timer, 0);
        assert_eq!(w.current_wave, wave);
    }
}

#[test]
fn start_wave_follows_the_configured_constants() {
    let mut config = WaveConfig::default();
    config.base_enemy_count = 4;
    config.enemy_scaling_per_wave = 2000;
    config.difficulty_scaling_per_wave = 500;
    let mut w = WaveManager::new(config);
    w.current_wave = 5;
    w.start_wave();
    assert_eq!(w.enemies_to_spawn, 64);
    assert_eq!(w.difficulty_multiplier, 3000);
}

#[test]
fn start_wave_outside_preparation_changes_nothing() {
    for state in [WaveState::Active, WaveState::Paused, WaveState::Complete, WaveState::ShopPhase] {
        let mut w = WaveManager::new(WaveConfig::default());
        w.wave_state = state;
        w.enemies_to_spawn = 3;
        w.enemies_spawned = 2;
        let before = w;
        w.start_wave();
        assert_eq!(w, before);
    }
}

#[test]
fn enemies_spawn_once_per_interval() {
    let mut w = active_wave();
    assert!(w.update_with_roll(1999, 0, east()).is_empty());
    assert_eq!(w.enemies_spawned, 0);
    let events = w.update_with_roll(1, 0, east());
    assert_eq!(
        events,
        vec![WaveEvent::SpawnEnemy(EnemySpawnData {
            enemy_type: EnemyType::Chaser,
            position: Vec3::new(450_000, 0, 0),
            difficulty_multiplier: 1000,
        })]
    );
    assert_eq!(w.enemies_spawned, 1);
    assert_eq!(w.enemies_alive, 1);
    assert_eq!(w.spawn_timer, 0);
    assert_eq!(w.wave_timer, 2000);
    assert!(w.update_with_roll(500, 0, east()).is_empty());
    assert_eq!(w.spawn_timer, 500);
}

#[test]
fn a_long_tick_spawns_only_one_enemy() {
    let mut w = active_wave();
    let events = w.update_with_roll(60_000, 0, east());
    assert_eq!(events.len(), 1);
    assert_eq!(w.enemies_spawned, 1);
}

#[test]
fn spawn_carries_the_difficulty_of_the_wave() {
    let mut w = WaveManager::new(WaveConfig::default());
    w.current_wave = 4;
    w.start_wave();
    let events = w.update_with_roll(2000, 800, Vec3::new(0, 0, -1000));
    assert_eq!(
        events,
        vec![WaveEvent::SpawnEnemy(EnemySpawnData {
            enemy_type: EnemyType::Swarm,
            position: Vec3::new(0, 0, -450_000),
            difficulty_multiplier: 1600,
        })]
    );
}

#[test]
fn wave_is_not_complete_while_enemies_live() {
    let mut w = active_wave();
    w.enemies_to_spawn = 2;
    assert_eq!(w.update_with_roll(2000, 0, east()).len(), 1);
    assert_eq!(w.update_with_roll(2000, 0, east()).len(), 1);
    assert_eq!(w.enemies_spawned, 2);
    assert_eq!(w.enemies_alive, 2);
    for _ in 0..10 {
        assert!(w.update_with_roll(5000, 0, east()).is_empty());
        assert_eq!(w.wave_state, WaveState::Active);
    }
    w.enemy_killed();
    assert!(w.update_with_roll(16, 0, east()).is_empty());
    assert_eq!(w.wave_state, WaveState::Active);
    w.enemy_killed();
    let events = w.update_with_roll(16, 0, east());
    assert_eq!(events, vec![WaveEvent::WaveComplete(1), WaveEvent::ShopPhaseStarted]);
    assert_eq!(w.wave_state, WaveState::ShopPhase);
    assert_eq!(w.wave_timer, 0);
}

#[test]
fn wave_is_not_complete_before_every_enemy_is_spawned() {
    let mut w = active_wave();
    w.enemies_to_spawn = 3;
    assert_eq!(w.update_with_roll(2000, 0, east()).len(), 1);
    w.enemy_killed();
    assert_eq!(w.enemies_alive, 0);
    assert!(w.update_with_roll(100, 0, east()).is_empty());
    assert_eq!(w.wave_state, WaveState::Active);
}

#[test]
fn empty_wave_completes_at_once() {
    let mut config = WaveConfig::default();
    config.base_enemy_count = 0;
    let mut w = WaveManager::new(config);
    assert_eq!(w.update_with_roll(3000, 0, east()), vec![WaveEvent::WaveStarted(1)]);
    assert_eq!(
        w.update_with_roll(1, 0, east()),
        vec![WaveEvent::WaveComplete(1), WaveEvent::ShopPhaseStarted]
    );
    assert_eq!(w.wave_state, WaveState::ShopPhase);
}

#[test]
fn complete_state_passes_through_to_the_shop() {
    let mut w = WaveManager::new(WaveConfig::default());
    w.wave_state = WaveState::Complete;
    w.wave_timer = 12;
    assert_eq!(w.update_with_roll(16, 0, east()), vec![WaveEvent::ShopPhaseStarted]);
    assert_eq!(w.wave_state, WaveState::ShopPhase);
    assert_eq!(w.wave_timer, 0);
}

#[test]
fn shop_phase_is_inert() {
    let mut w = WaveManager::new(WaveConfig::default());
    w.wave_state = WaveState::ShopPhase;
    let before = w;
    assert!(w.update_with_roll(100_000, 0, east()).is_empty());
    assert_eq!(w, before);
}

#[test]
fn pause_freezes_the_timers() {
    let mut w = active_wave();
    assert!(w.update_with_roll(700, 0, east()).is_empty());
    assert!(w.pause_wave());
    assert_eq!(w.wave_state, WaveState::Paused);
    let frozen = w;
    assert!(w.update_with_roll(50_000, 0, east()).is_empty());
    assert_eq!(w, frozen);
    w.resume_wave();
    assert_eq!(w.wave_state, WaveState::Active);
    assert_eq!(w.wave_timer, 700);
    assert_eq!(w.spawn_timer, 700);
}

#[test]
fn second_pause_in_a_wave_fails() {
    let mut w = active_wave();
    assert!(w.pause_wave());
    let paused = w;
    assert!(!w.pause_wave());
    assert_eq!(w, paused);
    w.resume_wave();
    let resumed = w;
    assert!(!w.pause_wave());
    assert_eq!(w, resumed);
    assert_eq!(w.wave_state, WaveState::Active);
}

#[test]
fn pause_outside_an_active_wave_fails() {
    for state in
        [WaveState::Preparing, WaveState::Paused, WaveState::Complete, WaveState::ShopPhase]
    {
        let mut w = WaveManager::new(WaveConfig::default());
        w.wave_state = state;
        let before = w;
        assert!(!w.pause_wave());
        assert_eq!(w, before);
    }
}

#[test]
fn pause_is_allowed_again_in_the_next_wave() {
    let mut w = active_wave();
    assert!(w.pause_wave());
    w.resume_wave();
    w.enemies_to_spawn = 0;
    assert_eq!(w.update_with_roll(1, 0, east()).len(), 2);
    w.complete_shop_phase();
    assert!(w.can_pause);
    assert_eq!(w.update_with_roll(3000, 0, east()), vec![WaveEvent::WaveStarted(2)]);
    assert!(w.pause_wave());
}

#[test]
fn resume_outside_a_pause_changes_nothing() {
    for state in
        [WaveState::Preparing, WaveState::Active, WaveState::Complete, WaveState::ShopPhase]
    {
        let mut w = WaveManager::new(WaveConfig::default());
        w.wave_state = state;
        let before = w;
        w.resume_wave();
        assert_eq!(w, before);
    }
}

#[test]
fn enemy_killed_never_goes_below_zero() {
    let mut w = active_wave();
    assert_eq!(w.enemies_alive, 0);
    w.enemy_killed();
    assert_eq!(w.enemies_alive, 0);
    w.enemies_alive = 2;
    w.enemy_killed();
    assert_eq!(w.enemies_alive, 1);
    w.enemy_killed();
    assert_eq!(w.enemies_alive, 0);
    let before = w;
    w.enemy_killed();
    assert_eq!(w, before);
}

#[test]
fn completing_the_shop_prepares_the_next_wave() {
    let mut w = WaveManager::new(WaveConfig::default());
    w.wave_state = WaveState::ShopPhase;
    w.can_pause = false;
    w.wave_timer = 9;
    w.complete_shop_phase();
    assert_eq!(w.current_wave, 2);
    assert_eq!(w.wave_state, WaveState::Preparing);
    assert_eq!(w.wave_timer, 0);
    assert!(w.can_pause);
    assert_eq!(w.spawn_interval, 1900);
}

#[test]
fn completing_the_shop_outside_the_shop_changes_nothing() {
    for state in [WaveState::Preparing, WaveState::Active, WaveState::Paused, WaveState::Complete] {
        let mut w = WaveManager::new(WaveConfig::default());
        w.wave_state = state;
        let before = w;
        w.complete_shop_phase();
        assert_eq!(w, before);
    }
}

#[test]
fn spawn_interval_never_falls_below_the_floor() {
    let mut w = WaveManager::new(WaveConfig::default());
    let mut last = w.spawn_interval;
    for round in 0..40u32 {
        w.wave_state = WaveState::ShopPhase;
        w.complete_shop_phase();
        assert!(w.spawn_interval <= last);
        assert!(w.spawn_interval >= 500);
        last = w.spawn_interval;
        if round >= 14 {
            assert_eq!(w.spawn_interval, 500);
        }
    }
    assert_eq!(w.current_wave, 41);
}

#[test]
fn wave_number_stops_at_the_top_of_its_range() {
    let mut w = WaveManager::new(WaveConfig::default());
    w.current_wave = u32::MAX;
    w.wave_state = WaveState::ShopPhase;
    w.complete_shop_phase();
    assert_eq!(w.current_wave, u32::MAX);
    assert_eq!(w.wave_state, WaveState::Preparing);
}

#[test]
fn end_wave_needs_a_finished_wave() {
    let mut w = active_wave();
    w.enemies_to_spawn = 1;
    let before = w;
    w.end_wave();
    assert_eq!(w, before);
    w.enemies_spawned = 1;
    w.enemies_alive = 1;
    let before = w;
    w.end_wave();
    assert_eq!(w, before);
    w.enemies_alive = 0;
    w.wave_timer = 500;
    w.end_wave();
    assert_eq!(w.wave_state, WaveState::Complete);
    assert_eq!(w.wave_timer, 0);
}

#[test]
fn start_new_wave_skips_the_preparation() {
    let mut w = WaveManager::new(WaveConfig::default());
    w.wave_state = WaveState::ShopPhase;
    w.can_pause = false;
    w.start_new_wave();
    assert_eq!(w.current_wave, 2);
    assert_eq!(w.wave_state, WaveState::Active);
    assert_eq!(w.enemies_to_spawn, 15);
    assert_eq!(w.difficulty_multiplier, 1200);
    assert_eq!(w.spawn_interval, 1900);
    assert!(w.can_pause);
    let mut idle = WaveManager::new(WaveConfig::default());
    let before = idle;
    idle.start_new_wave();
    assert_eq!(idle, before);
}

#[test]
fn whole_cycle_reports_events_in_order() {
    let mut config = WaveConfig::default();
    config.base_enemy_count = 2;
    let mut w = WaveManager::new(config);
    let mut log: Vec<WaveEvent> = Vec::new();
    for _ in 0..1000 {
        for event in w.update_with_roll(100, 0, east()) {
            if let WaveEvent::SpawnEnemy(_) = event {
                w.enemy_killed();
            }
            log.push(event);
        }
        assert!(w.is_valid());
        assert!(w.enemies_spawned <= w.enemies_to_spawn);
        if w.wave_state == WaveState::ShopPhase {
            break;
        }
    }
    assert_eq!(log.len(), 5);
    assert_eq!(log[0], WaveEvent::WaveStarted(1));
    assert!(matches!(log[1], WaveEvent::SpawnEnemy(_)));
    assert!(matches!(log[2], WaveEvent::SpawnEnemy(_)));
    assert_eq!(log[3], WaveEvent::WaveComplete(1));
    assert_eq!(log[4], WaveEvent::ShopPhaseStarted);
}

#[test]
fn timers_stop_at_the_top_of_their_range() {
    let mut w = WaveManager::new(WaveConfig::default());
    w.config.prep_time = u64::MAX;
    w.wave_timer = u64::MAX - 5;
    let events = w.update_with_roll(100, 0, east());
    assert_eq!(events, vec![WaveEvent::WaveStarted(1)]);
}

#[test]
fn update_draws_the_kind_of_enemy() {
    let mut w = active_wave();
    let events = w.update(2000, east());
    assert_eq!(
        events,
        vec![WaveEvent::SpawnEnemy(EnemySpawnData {
            enemy_type: EnemyType::Chaser,
            position: Vec3::new(450_000, 0, 0),
            difficulty_multiplier: 1000,
        })]
    );
    let mut late = WaveManager::new(WaveConfig::default());
    late.current_wave = 18;
    late.start_wave();
    let mut seen: Vec<EnemyType> = Vec::new();
    for _ in 0..400 {
        for event in late.update(late.spawn_interval, east()) {
            match event {
                WaveEvent::SpawnEnemy(data) => {
                    assert_ne!(data.enemy_type, EnemyType::Boss);
                    assert_eq!(data.difficulty_multiplier, 4400);
                    if !seen.contains(&data.enemy_type) {
                        seen.push(data.enemy_type);
                    }
                }
                _ => panic!("only spawns are expected"),
            }
        }
    }
    assert!(seen.len() >= 2);
}

#[test]
fn spawn_position_lies_outside_the_arena() {
    let w = WaveManager::new(WaveConfig::default());
    assert_eq!(w.get_spawn_position(400_000, Vec3::new(1000, 0, 0)), Vec3::new(450_000, 0, 0));
    assert_eq!(w.get_spawn_position(400_000, Vec3::new(0, 0, 1000)), Vec3::new(0, 0, 450_000));
    assert_eq!(
        w.get_spawn_position(400_000, Vec3::new(-707, 999, 707)),
        Vec3::new(-318_150, 0, 318_150)
    );
    assert_eq!(w.get_spawn_position(25_000, Vec3::new(600, 0, -800)), Vec3::new(45_000, 0, -60_000));
    assert_eq!(w.get_spawn_position(0, Vec3::new(1, 0, -1)), Vec3::new(50, 0, -50));
    assert_eq!(w.get_spawn_position(0, Vec3::new(0, 0, 0)), Vec3::new(0, 0, 0));
    assert_eq!(
        w.get_spawn_position(u64::MAX, Vec3::new(1000, 0, -1000)),
        Vec3::new(i64::MAX, 0, i64::MIN)
    );
}

#[test]
fn early_waves_hold_only_chasers() {
    for wave in 1..=2 {
        for roll in [0, 1, 500, 999, 1000, u32::MAX] {
            assert_eq!(enemy_type_for_roll(wave, roll), EnemyType::Chaser);
        }
    }
}

#[test]
fn enemy_kinds_follow_the_tiers() {
    let cases: [(u32, u32, EnemyType); 34] = [
        (3, 0, EnemyType::Chaser),
        (3, 699, EnemyType::Chaser),
        (3, 700, EnemyType::Swarm),
        (5, 999, EnemyType::Swarm),
        (6, 399, EnemyType::Chaser),
        (6, 400, EnemyType::Swarm),
        (6, 699, EnemyType::Swarm),
        (6, 700, EnemyType::Shooter),
        (10, 999, EnemyType::Shooter),
        (11, 299, EnemyType::Chaser),
        (11, 300, EnemyType::Swarm),
        (11, 499, EnemyType::Swarm),
        (11, 500, EnemyType::Shooter),
        (11, 799, EnemyType::Shooter),
        (11, 800, EnemyType::Tank),
        (15, 999, EnemyType::Tank),
        (16, 199, EnemyType::Chaser),
        (16, 200, EnemyType::Swarm),
        (16, 399, EnemyType::Swarm),
        (16, 400, EnemyType::Shooter),
        (16, 599, EnemyType::Shooter),
        (16, 600, EnemyType::Tank),
        (16, 799, EnemyType::Tank),
        (16, 800, EnemyType::Elite),
        (20, 999, EnemyType::Elite),
        (21, 149, EnemyType::Chaser),
        (21, 150, EnemyType::Swarm),
        (21, 299, EnemyType::Swarm),
        (21, 300, EnemyType::Shooter),
        (21, 499, EnemyType::Shooter),
        (21, 500, EnemyType::Tank),
        (21, 699, EnemyType::Tank),
        (21, 700, EnemyType::Elite),
        (4_000_000_001, 999, EnemyType::Elite),
    ];
    for (wave, roll, kind) in cases {
        assert_eq!(enemy_type_for_roll(wave, roll), kind);
    }
}

#[test]
fn every_tenth_wave_after_the_twentieth_is_a_boss_wave() {
    for roll in [0, 500, 999] {
        assert_eq!(enemy_type_for_roll(30, roll), EnemyType::Boss);
        assert_eq!(enemy_type_for_roll(40, roll), EnemyType::Boss);
        assert_eq!(enemy_type_for_roll(4_000_000_000, roll), EnemyType::Boss);
        assert_ne!(enemy_type_for_roll(10, roll), EnemyType::Boss);
        assert_ne!(enemy_type_for_roll(20, roll), EnemyType::Boss);
        assert_ne!(enemy_type_for_roll(29, roll), EnemyType::Boss);
        assert_ne!(enemy_type_for_roll(31, roll), EnemyType::Boss);
    }
}

#[test]
fn out_of_range_roll_counts_as_the_last() {
    for wave in [1, 4, 8, 13, 18, 25] {
        assert_eq!(enemy_type_for_roll(wave, 1000), enemy_type_for_roll(wave, 999));
        assert_eq!(enemy_type_for_roll(wave, u32::MAX), enemy_type_for_roll(wave, 999));
    }
}

#[test]
fn spawn_weights_cover_every_roll() {
    for wave in [0, 1, 2, 3, 5, 6, 10, 11, 15, 16, 20, 21, 30, 1000, u32::MAX] {
        let w = spawn_weights(wave);
        assert_eq!(w.chaser + w.swarm + w.shooter + w.tank + w.elite, 1000);
    }
    let w = spawn_weights(12);
    assert_eq!((w.chaser, w.swarm, w.shooter, w.tank, w.elite), (300, 200, 300, 200, 0));
}

#[test]
fn drawn_enemy_kind_suits_the_wave() {
    let mut w = WaveManager::new(WaveConfig::default());
    for _ in 0..50 {
        assert_eq!(w.get_enemy_type_for_wave(), EnemyType::Chaser);
    }
    w.current_wave = 4;
    for _ in 0..200 {
        let kind = w.get_enemy_type_for_wave();
        assert!(kind == EnemyType::Chaser || kind == EnemyType::Swarm);
    }
    w.current_wave = 50;
    for _ in 0..50 {
        assert_eq!(w.get_enemy_type_for_wave(), EnemyType::Boss);
    }
}

#[test]
fn spawn_is_due_when_the_interval_has_passed() {
    let mut w = active_wave();
    assert!(!w.spawn_is_due(1999));
    assert!(w.spawn_is_due(2000));
    w.enemies_spawned = w.enemies_to_spawn;
    assert!(!w.spawn_is_due(2000));
    let idle = WaveManager::new(WaveConfig::default());
    assert!(!idle.spawn_is_due(100_000));
}

#[test]
fn wave_stats_keep_the_tallies() {
    let mut s = WaveStats::default();
    assert_eq!(s.total_enemies_killed, 0);
    assert_eq!(s.highest_wave_reached, 0);
    s.enemy_killed();
    s.enemy_killed();
    assert_eq!(s.total_enemies_killed, 2);
    s.wave_reached(3);
    s.wave_reached(2);
    assert_eq!(s.highest_wave_reached, 3);
    s.add_damage_dealt(1500);
    s.add_damage_dealt(500);
    assert_eq!(s.damage_dealt, 2000);
    s.add_damage_taken(250);
    assert_eq!(s.damage_taken, 250);
    s.add_damage_taken(u64::MAX);
    assert_eq!(s.damage_taken, u64::MAX);
    s.total_enemies_killed = u32::MAX;
    s.enemy_killed();
    assert_eq!(s.total_enemies_killed, u32::MAX);
}

#[test]
fn spawn_points_lie_outside_the_arena() {
    let w = WaveManager::new(WaveConfig::default());
    for bounds in [0u64, 25_000, 400_000, 1u64 << 40, (1u64 << 62) - 1] {
        for step in 0..720 {
            let angle = (step as f64) * std::f64::consts::PI / 360.0;
            let outward = |c: f64| -> i64 {
                let scaled = (c.abs() * 1000.0).ceil() as i64;
                if c < 0.0 {
                    -scaled
                } else {
                    scaled
                }
            };
            let direction = Vec3::new(outward(angle.cos()), 77, outward(angle.sin()));
            let place = w.get_spawn_position(bounds, direction);
            assert_eq!(place.y, 0);
            let far = (place.x as i128) * (place.x as i128) + (place.z as i128) * (place.z as i128);
            assert!(far > (bounds as i128) * (bounds as i128));
        }
    }
}
