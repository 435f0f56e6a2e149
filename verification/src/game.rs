//! The game as a whole: which screen it shows, the score, and the parts that
//! make up a running game.

use crate::config::GameConfig;
use crate::player::Player;
use crate::wave::WaveManager;
use vstd::prelude::*;

verus! {

/// The screens of the game.
#[derive(Clone, Copy, Debug, PartialEq, Eq, Hash, Structural)]
pub enum GameState {
    MainMenu,
    Playing,
    Paused,
    GameOver,
}

impl Default for GameState {
    fn default() -> (r: GameState)
        ensures
            r == GameState::MainMenu,
    {
        GameState::MainMenu
    }
}

impl GameState {
    /// The screen that follows when keys have just been pressed: the space
    /// bar starts a game from the main menu and leaves the game-over screen
    /// for the main menu; the escape key pauses a game and continues a paused
    /// one. Any other key on any other screen changes nothing.
    pub open spec fn after_keys(self, space: bool, escape: bool) -> GameState {
        match self {
            GameState::MainMenu => if space {
                GameState::Playing
            } else {
                self
            },
            GameState::Playing => if escape {
                GameState::Paused
            } else {
                self
            },
            GameState::Paused => if escape {
                GameState::Playing
            } else {
                self
            },
            GameState::GameOver => if space {
                GameState::MainMenu
            } else {
                self
            },
        }
    }

    /// The screen that follows when keys have just been pressed.
    pub fn next(self, space: bool, escape: bool) -> (r: GameState)
        ensures
            r == self.after_keys(space, escape),
    {
        match self {
            GameState::MainMenu => if space {
                GameState::Playing
            } else {
                self
            },
            GameState::Playing => if escape {
                GameState::Paused
            } else {
                self
            },
            GameState::Paused => if escape {
                GameState::Playing
            } else {
                self
            },
            GameState::GameOver => if space {
                GameState::MainMenu
            } else {
                self
            },
        }
    }
}

/// Pausing and continuing lead back to the game, and no key leads from a
/// game straight to the main menu.
pub proof fn lemma_pause_is_undone(space: bool)
    ensures
        GameState::Playing.after_keys(space, true).after_keys(space, true) == GameState::Playing,
        forall|space: bool, escape: bool|
            #[trigger] GameState::Playing.after_keys(space, escape) != GameState::MainMenu,
{
}

/// The score of a game.
#[derive(Clone, Copy, Debug, PartialEq, Eq, Structural)]
pub struct GameData {
    pub score: u32,
    pub current_wave: u32,
    pub game_time: u64,
}

impl Default for GameData {
    fn default() -> (r: GameData)
        ensures
            r == (GameData { score: 0, current_wave: 1, game_time: 0 }),
    {
        GameData { score: 0, current_wave: 1, game_time: 0 }
    }
}

/// A running game.
#[derive(Clone, Copy, Debug)]
pub struct Game {
    pub player: Player,
    pub wave_manager: WaveManager,
    pub game_config: GameConfig,
    pub is_initialized: bool,
    pub game_time: u64,
}

impl Default for Game {
    fn default() -> (r: Game)
        ensures
            r.player == Player::initial(),
            r.wave_manager == WaveManager::initial(GameConfig::standard().waves),
            r.wave_manager.valid(),
            r.game_config == GameConfig::standard(),
            !r.is_initialized,
            r.game_time == 0,
    {
        let game_config = GameConfig::default();
        Game {
            player: Player::new(),
            wave_manager: WaveManager::new(game_config.waves),
            game_config,
            is_initialized: false,
            game_time: 0,
        }
    }
}

} // verus!
