use void_survivor::audio::{
    AudioManager, EnemyAction, ImpactType, MusicCue, PlayerFeedback, SoundCue, SoundHandle,
    UISound, WaveSound,
};
use void_survivor::enemy::EnemyType;
use void_survivor::loot::LootType;
use void_survivor::player::WeaponType;

fn handle(id: u32) -> Option<SoundHandle> {
    Some(SoundHandle { id })
}

fn loaded() -> AudioManager {
    let mut a = AudioManager::new();
    a.background_music = handle(1);
    a.shop_music = handle(2);
    a.blaster_fire = handle(3);
    a.laser_charge = handle(4);
    a.laser_fire = handle(5);
    a.rocket_launch = handle(6);
    a.aoe_pulse = handle(7);
    a.impact_metal = handle(8);
    a.impact_energy = handle(9);
    a.explosion_small = handle(10);
    a.explosion_medium = handle(11);
    a.explosion_large = handle(12);
    a.chaser_move = handle(13);
    a.chaser_attack = handle(14);
    a.shooter_fire = handle(15);
    a.tank_move = handle(16);
    a.tank_fire = handle(17);
    a.loot_pickup = handle(18);
    a.experience_gain = handle(19);
    a.level_up = handle(20);
    a.shop_buy = handle(21);
    a.shop_error = handle(22);
    a.ui_click = handle(23);
    a.ui_hover = handle(24);
    a.player_hit = handle(25);
    a.shield_down = handle(26);
    a.health_low = handle(27);
    a.wave_start = handle(28);
    a.wave_complete = handle(29);
    a
}

fn cue(id: u32, volume: u64) -> Option<SoundCue> {
    Some(SoundCue { sound: SoundHandle { id }, volume })
}

#[test]
fn new_manager_has_the_standard_volumes() {
    let a = AudioManager::new();
    assert_eq!(a.master_volume, 1000);
    assert_eq!(a.music_volume, 700);
    assert_eq!(a.sfx_volume, 800);
    assert!(a.is_music_enabled);
    assert!(a.is_sfx_enabled);
    assert_eq!(a.blaster_fire, None);
    assert_eq!(a.wave_complete, None);
    let blank = AudioManager::default();
    assert_eq!(blank.master_volume, 0);
    assert!(!blank.is_music_enabled);
    assert!(!blank.is_sfx_enabled);
}

#[test]
fn sounds_that_are_not_loaded_are_not_played() {
    let a = AudioManager::new();
    assert_eq!(a.play_weapon_sound(WeaponType::Blaster), None);
    assert_eq!(a.play_impact_sound(ImpactType::Metal), None);
    assert_eq!(a.play_ui_sound(UISound::Click), None);
    assert_eq!(a.start_background_music(), None);
    assert_eq!(a.start_shop_music(), None);
}

#[test]
fn each_weapon_has_its_sound() {
    let a = loaded();
    assert_eq!(a.play_weapon_sound(WeaponType::Blaster), cue(3, 800));
    assert_eq!(a.play_weapon_sound(WeaponType::Laser), cue(5, 800));
    assert_eq!(a.play_weapon_sound(WeaponType::Rocket), cue(6, 800));
    assert_eq!(a.play_weapon_sound(WeaponType::AoePulse), cue(7, 800));
}

#[test]
fn each_impact_has_its_sound() {
    let a = loaded();
    assert_eq!(a.play_impact_sound(ImpactType::Metal), cue(8, 800));
    assert_eq!(a.play_impact_sound(ImpactType::Energy), cue(9, 800));
    assert_eq!(a.play_impact_sound(ImpactType::ExplosionSmall), cue(10, 800));
    assert_eq!(a.play_impact_sound(ImpactType::ExplosionMedium), cue(11, 800));
    assert_eq!(a.play_impact_sound(ImpactType::ExplosionLarge), cue(12, 800));
}

#[test]
fn some_enemies_have_sounds() {
    let a = loaded();
    assert_eq!(a.play_enemy_sound(EnemyType::Chaser, EnemyAction::Move), cue(13, 640));
    assert_eq!(a.play_enemy_sound(EnemyType::Chaser, EnemyAction::Attack), cue(14, 640));
    assert_eq!(a.play_enemy_sound(EnemyType::Shooter, EnemyAction::Attack), cue(15, 640));
    assert_eq!(a.play_enemy_sound(EnemyType::Tank, EnemyAction::Move), cue(16, 640));
    assert_eq!(a.play_enemy_sound(EnemyType::Tank, EnemyAction::Attack), cue(17, 640));
    assert_eq!(a.play_enemy_sound(EnemyType::Shooter, EnemyAction::Move), None);
    assert_eq!(a.play_enemy_sound(EnemyType::Chaser, EnemyAction::Death), None);
    assert_eq!(a.play_enemy_sound(EnemyType::Tank, EnemyAction::Death), None);
    assert_eq!(a.play_enemy_sound(EnemyType::Boss, EnemyAction::Attack), None);
    assert_eq!(a.play_enemy_sound(EnemyType::Swarm, EnemyAction::Move), None);
    assert_eq!(a.play_enemy_sound(EnemyType::Elite, EnemyAction::Attack), None);
}

#[test]
fn loot_and_interface_have_their_sounds() {
    let a = loaded();
    assert_eq!(a.play_loot_sound(LootType::Experience), cue(19, 480));
    assert_eq!(a.play_loot_sound(LootType::Health), cue(18, 640));
    assert_eq!(a.play_loot_sound(LootType::Energy), cue(18, 640));
    assert_eq!(a.play_loot_sound(LootType::Currency), cue(18, 640));
    assert_eq!(a.play_ui_sound(UISound::Click), cue(23, 560));
    assert_eq!(a.play_ui_sound(UISound::Hover), cue(24, 560));
    assert_eq!(a.play_ui_sound(UISound::LevelUp), cue(20, 560));
    assert_eq!(a.play_ui_sound(UISound::ShopBuy), cue(21, 560));
    assert_eq!(a.play_ui_sound(UISound::ShopError), cue(22, 560));
    assert_eq!(a.play_player_feedback(PlayerFeedback::Hit), cue(25, 800));
    assert_eq!(a.play_player_feedback(PlayerFeedback::ShieldDown), cue(26, 800));
    assert_eq!(a.play_player_feedback(PlayerFeedback::HealthLow), cue(27, 800));
    assert_eq!(a.play_wave_sound(WaveSound::Start), cue(28, 720));
    assert_eq!(a.play_wave_sound(WaveSound::Complete), cue(29, 720));
}

#[test]
fn volumes_multiply() {
    let mut a = loaded();
    a.set_master_volume(500);
    a.set_sfx_volume(500);
    assert_eq!(a.play_weapon_sound(WeaponType::Blaster), cue(3, 250));
    assert_eq!(a.play_wave_sound(WaveSound::Start), cue(28, 225));
    assert_eq!(a.play_loot_sound(LootType::Experience), cue(19, 150));
    a.set_master_volume(333);
    a.set_sfx_volume(333);
    assert_eq!(a.play_ui_sound(UISound::Click), cue(23, 77));
    a.set_master_volume(0);
    assert_eq!(a.play_weapon_sound(WeaponType::Blaster), cue(3, 0));
}

#[test]
fn volumes_are_held_to_their_range() {
    let mut a = AudioManager::new();
    a.set_master_volume(1_500);
    assert_eq!(a.master_volume, 1000);
    a.set_master_volume(1000);
    assert_eq!(a.master_volume, 1000);
    a.set_master_volume(999);
    assert_eq!(a.master_volume, 999);
    a.set_music_volume(u64::MAX);
    assert_eq!(a.music_volume, 1000);
    a.set_music_volume(0);
    assert_eq!(a.music_volume, 0);
    a.set_sfx_volume(1_001);
    assert_eq!(a.sfx_volume, 1000);
    a.set_sfx_volume(250);
    assert_eq!(a.sfx_volume, 250);
    assert_eq!(a.master_volume, 999);
}

#[test]
fn switched_off_effects_are_silent() {
    let mut a = loaded();
    a.toggle_sfx();
    assert!(!a.is_sfx_enabled);
    assert_eq!(a.play_weapon_sound(WeaponType::Blaster), None);
    assert_eq!(a.play_impact_sound(ImpactType::Energy), None);
    assert_eq!(a.play_enemy_sound(EnemyType::Tank, EnemyAction::Move), None);
    assert_eq!(a.play_loot_sound(LootType::Health), None);
    assert_eq!(a.play_ui_sound(UISound::Hover), None);
    assert_eq!(a.play_player_feedback(PlayerFeedback::Hit), None);
    assert_eq!(a.play_wave_sound(WaveSound::Complete), None);
    assert!(a.start_background_music().is_some());
    a.toggle_sfx();
    assert!(a.is_sfx_enabled);
    assert_eq!(a.play_weapon_sound(WeaponType::Blaster), cue(3, 800));
}

#[test]
fn music_loops_at_the_music_volume() {
    let mut a = loaded();
    assert_eq!(
        a.start_background_music(),
        Some(MusicCue { sound: SoundHandle { id: 1 }, volume: 700, looping: true })
    );
    assert_eq!(
        a.start_shop_music(),
        Some(MusicCue { sound: SoundHandle { id: 2 }, volume: 700, looping: true })
    );
    a.set_master_volume(500);
    a.set_music_volume(300);
    assert_eq!(
        a.start_shop_music(),
        Some(MusicCue { sound: SoundHandle { id: 2 }, volume: 150, looping: true })
    );
    a.toggle_music();
    assert!(!a.is_music_enabled);
    assert_eq!(a.start_background_music(), None);
    assert_eq!(a.start_shop_music(), None);
    assert!(a.play_weapon_sound(WeaponType::Blaster).is_some());
    a.toggle_music();
    assert!(a.start_background_music().is_some());
}
