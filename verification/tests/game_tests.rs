use void_survivor::config::GameConfig;
use void_survivor::game::{Game, GameData, GameState};
use void_survivor::player::Player;
use void_survivor::ui::{bar_fill, experience_fill, health_fill, shield_fill};
use void_survivor::wave::WaveState;

#[test]
fn game_starts_in_the_main_menu() {
    assert_eq!(GameState::default(), GameState::MainMenu);
    assert_eq!(GameData::default(), GameData { score: 0, current_wave: 1, game_time: 0 });
}

#[test]
fn keys_lead_from_screen_to_screen() {
    assert_eq!(GameState::MainMenu.next(true, false), GameState::Playing);
    assert_eq!(GameState::MainMenu.next(false, true), GameState::MainMenu);
    assert_eq!(GameState::MainMenu.next(false, false), GameState::MainMenu);
    assert_eq!(GameState::MainMenu.next(true, true), GameState::Playing);
    assert_eq!(GameState::Playing.next(false, true), GameState::Paused);
    assert_eq!(GameState::Playing.next(true, false), GameState::Playing);
    assert_eq!(GameState::Playing.next(true, true), GameState::Paused);
    assert_eq!(GameState::Paused.next(false, true), GameState::Playing);
    assert_eq!(GameState::Paused.next(true, false), GameState::Paused);
    assert_eq!(GameState::GameOver.next(true, false), GameState::MainMenu);
    assert_eq!(GameState::GameOver.next(false, true), GameState::GameOver);
    assert_eq!(GameState::GameOver.next(false, false), GameState::GameOver);
}

#[test]
fn pausing_twice_continues_the_game() {
    let paused = GameState::Playing.next(false, true);
    assert_eq!(paused.next(false, true), GameState::Playing);
}

#[test]
fn new_game_holds_fresh_parts() {
    let g = Game::default();
    assert_eq!(g.player, Player::new());
    assert_eq!(g.wave_manager.wave_state, WaveState::Preparing);
    assert_eq!(g.wave_manager.current_wave, 1);
    assert_eq!(g.wave_manager.config, GameConfig::default().waves);
    assert_eq!(g.game_config, GameConfig::default());
    assert!(!g.is_initialized);
    assert_eq!(g.game_time, 0);
}

#[test]
fn bars_fill_in_proportion() {
    assert_eq!(bar_fill(50, 100), 500);
    assert_eq!(bar_fill(1, 3), 333);
    assert_eq!(bar_fill(2, 3), 666);
    assert_eq!(bar_fill(0, 100), 0);
    assert_eq!(bar_fill(100, 100), 1000);
    assert_eq!(bar_fill(150, 100), 1000);
    assert_eq!(bar_fill(99_999, 100_000), 999);
    assert_eq!(bar_fill(1, 100_000), 0);
    assert_eq!(bar_fill(0, 0), 0);
    assert_eq!(bar_fill(1, 0), 1000);
    assert_eq!(bar_fill(u64::MAX - 1, u64::MAX), 999);
    assert_eq!(bar_fill(u64::MAX / 2, u64::MAX), 499);
}

#[test]
fn player_bars_follow_the_player() {
    let mut p = Player::new();
    assert_eq!(health_fill(&p), 1000);
    assert_eq!(shield_fill(&p), 1000);
    assert_eq!(experience_fill(&p), 0);
    p.health = 25_000;
    p.shields = 10_000;
    p.experience = 50_000;
    assert_eq!(health_fill(&p), 250);
    assert_eq!(shield_fill(&p), 200);
    assert_eq!(experience_fill(&p), 500);
    p.health = -5;
    assert_eq!(health_fill(&p), 0);
    p.health = 0;
    assert_eq!(health_fill(&p), 0);
    p.health = 200_000;
    assert_eq!(health_fill(&p), 1000);
    p.level = 3;
    p.experience = 75_000;
    assert_eq!(experience_fill(&p), 250);
    p.experience = 300_000;
    assert_eq!(experience_fill(&p), 1000);
    p.level = 0;
    p.experience = 0;
    assert_eq!(experience_fill(&p), 0);
    p.experience = 1;
    assert_eq!(experience_fill(&p), 1000);
    p.max_shields = 0;
    p.shields = 0;
    assert_eq!(shield_fill(&p), 0);
}
