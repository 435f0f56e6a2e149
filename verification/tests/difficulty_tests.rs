use void_survivor::difficulty::{
    difficulty_multiplier, enemies_to_spawn, geometric_count, lowered_spawn_interval,
};

#[test]
fn enemy_count_follows_the_geometric_curve() {
    let expected: [u32; 11] = [10, 15, 23, 34, 51, 76, 114, 171, 256, 384, 577];
    for (i, want) in expected.iter().enumerate() {
        assert_eq!(enemies_to_spawn(10, 1500, (i + 1) as u32), *want);
    }
}

#[test]
fn first_wave_holds_the_base_count() {
    assert_eq!(enemies_to_spawn(10, 1500, 1), 10);
    assert_eq!(enemies_to_spawn(7, 0, 1), 7);
    assert_eq!(enemies_to_spawn(u32::MAX, 999_999, 1), u32::MAX);
    assert_eq!(enemies_to_spawn(0, 1500, 1), 0);
}

#[test]
fn wave_zero_counts_as_the_first() {
    assert_eq!(enemies_to_spawn(10, 1500, 0), 10);
    assert_eq!(difficulty_multiplier(200, 0), 1000);
}

#[test]
fn halves_round_upward() {
    assert_eq!(geometric_count(1, 1500, 1), 2);
    assert_eq!(geometric_count(1, 500, 1), 1);
    assert_eq!(geometric_count(1, 499, 1), 0);
    assert_eq!(geometric_count(3, 500, 1), 2);
    assert_eq!(geometric_count(3, 500, 2), 1);
    assert_eq!(geometric_count(3, 500, 3), 0);
    assert_eq!(geometric_count(5, 2500, 2), 31);
}

#[test]
fn count_is_exact_for_awkward_factors() {
    assert_eq!(enemies_to_spawn(7, 1234, 20), 380);
    assert_eq!(enemies_to_spawn(123_456, 1337, 9), 1_260_560);
    assert_eq!(enemies_to_spawn(1000, 1001, 1001), 2717);
    assert_eq!(enemies_to_spawn(1, 1001, 3001), 20);
    assert_eq!(enemies_to_spawn(1, 1010, 2000), 434_936_837);
    assert_eq!(enemies_to_spawn(4_000_000_000, 1001, 2), 4_004_000_000);
}

#[test]
fn count_stops_at_the_top_of_its_range() {
    assert_eq!(enemies_to_spawn(10, 1500, 50), 4_250_810_001);
    assert_eq!(enemies_to_spawn(10, 1500, 51), u32::MAX);
    assert_eq!(enemies_to_spawn(10, 1500, 100), u32::MAX);
    assert_eq!(enemies_to_spawn(1, 1010, 2230), 4_288_862_880);
    assert_eq!(enemies_to_spawn(1, 1010, 2231), u32::MAX);
    assert_eq!(enemies_to_spawn(1, 1010, u32::MAX), u32::MAX);
    assert_eq!(enemies_to_spawn(1, u64::MAX, 3), u32::MAX);
    assert_eq!(enemies_to_spawn(u32::MAX, 1000, 77), u32::MAX);
}

#[test]
fn unit_scaling_keeps_the_base_count() {
    assert_eq!(enemies_to_spawn(10, 1000, 1), 10);
    assert_eq!(enemies_to_spawn(10, 1000, 2), 10);
    assert_eq!(enemies_to_spawn(10, 1000, u32::MAX), 10);
}

#[test]
fn shrinking_waves_fade_to_nothing() {
    assert_eq!(enemies_to_spawn(100, 999, 5001), 1);
    assert_eq!(enemies_to_spawn(100, 999, 5296), 1);
    assert_eq!(enemies_to_spawn(100, 999, 5297), 0);
    assert_eq!(enemies_to_spawn(100, 999, 5300), 0);
    assert_eq!(enemies_to_spawn(100, 999, u32::MAX), 0);
    assert_eq!(enemies_to_spawn(u32::MAX, 500, u32::MAX), 0);
}

#[test]
fn zero_scaling_empties_every_later_wave() {
    assert_eq!(enemies_to_spawn(10, 0, 1), 10);
    assert_eq!(enemies_to_spawn(10, 0, 2), 0);
    assert_eq!(enemies_to_spawn(10, 0, 1000), 0);
}

#[test]
fn zero_base_stays_zero() {
    assert_eq!(enemies_to_spawn(0, 1500, 10), 0);
    assert_eq!(enemies_to_spawn(0, 5000, 1000), 0);
}

#[test]
fn difficulty_grows_by_one_step_per_wave() {
    assert_eq!(difficulty_multiplier(200, 1), 1000);
    assert_eq!(difficulty_multiplier(200, 2), 1200);
    assert_eq!(difficulty_multiplier(200, 6), 2000);
    assert_eq!(difficulty_multiplier(200, 21), 5000);
    assert_eq!(difficulty_multiplier(0, 1000), 1000);
    assert_eq!(difficulty_multiplier(1, u32::MAX), 1000 + (u32::MAX as u64 - 1));
}

#[test]
fn difficulty_stops_at_the_top_of_its_range() {
    assert_eq!(difficulty_multiplier(u64::MAX, 1), 1000);
    assert_eq!(difficulty_multiplier(u64::MAX, 2), u64::MAX);
    assert_eq!(difficulty_multiplier(u64::MAX / 2, 4), u64::MAX);
}

#[test]
fn spawn_interval_shrinks_down_to_its_floor() {
    assert_eq!(lowered_spawn_interval(2000, 100, 500), 1900);
    assert_eq!(lowered_spawn_interval(600, 100, 500), 500);
    assert_eq!(lowered_spawn_interval(550, 100, 500), 500);
    assert_eq!(lowered_spawn_interval(500, 100, 500), 500);
    assert_eq!(lowered_spawn_interval(50, 100, 500), 500);
    assert_eq!(lowered_spawn_interval(2000, 0, 500), 2000);
    assert_eq!(lowered_spawn_interval(2000, u64::MAX, 0), 0);
}
