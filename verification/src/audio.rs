//! Sound: which sound answers which event, and how loud it is played. The
//! host loads the sounds and plays what is chosen here.

use crate::enemy::EnemyType;
use crate::fixed::{clamp_u64, scale, scaled};
use crate::loot::LootType;
use crate::player::WeaponType;
use vstd::prelude::*;

verus! {

/// The loudest volume.
pub const FULL_VOLUME: u64 = 1000;

/// The name under which the host keeps a loaded sound.
#[derive(Clone, Copy, Debug, PartialEq, Eq, Structural)]
pub struct SoundHandle {
    pub id: u32,
}

/// A sound effect to be played once.
#[derive(Clone, Copy, Debug, PartialEq, Eq, Structural)]
pub struct SoundCue {
    pub sound: SoundHandle,
    pub volume: u64,
}

/// A piece of music to be played.
#[derive(Clone, Copy, Debug, PartialEq, Eq, Structural)]
pub struct MusicCue {
    pub sound: SoundHandle,
    pub volume: u64,
    pub looping: bool,
}

/// What a shot has struck.
#[derive(Clone, Copy, Debug, PartialEq, Eq, Structural)]
pub enum ImpactType {
    Metal,
    Energy,
    ExplosionSmall,
    ExplosionMedium,
    ExplosionLarge,
}

/// What an enemy is doing.
#[derive(Clone, Copy, Debug, PartialEq, Eq, Structural)]
pub enum EnemyAction {
    Move,
    Attack,
    Death,
}

/// The sounds of the interface.
#[derive(Clone, Copy, Debug, PartialEq, Eq, Structural)]
pub enum UISound {
    Click,
    Hover,
    LevelUp,
    ShopBuy,
    ShopError,
}

/// What the player is told by sound.
#[derive(Clone, Copy, Debug, PartialEq, Eq, Structural)]
pub enum PlayerFeedback {
    Hit,
    ShieldDown,
    HealthLow,
}

/// The sounds of a wave.
#[derive(Clone, Copy, Debug, PartialEq, Eq, Structural)]
pub enum WaveSound {
    Start,
    Complete,
}

/// The sounds that are loaded, and the volume settings.
#[derive(Clone, Copy, Debug, PartialEq, Eq, Structural)]
pub struct AudioManager {
    pub background_music: Option<SoundHandle>,
    pub shop_music: Option<SoundHandle>,
    pub blaster_fire: Option<SoundHandle>,
    pub laser_charge: Option<SoundHandle>,
    pub laser_fire: Option<SoundHandle>,
    pub rocket_launch: Option<SoundHandle>,
    pub aoe_pulse: Option<SoundHandle>,
    pub impact_metal: Option<SoundHandle>,
    pub impact_energy: Option<SoundHandle>,
    pub explosion_small: Option<SoundHandle>,
    pub explosion_medium: Option<SoundHandle>,
    pub explosion_large: Option<SoundHandle>,
    pub chaser_move: Option<SoundHandle>,
    pub chaser_attack: Option<SoundHandle>,
    pub shooter_fire: Option<SoundHandle>,
    pub tank_move: Option<SoundHandle>,
    pub tank_fire: Option<SoundHandle>,
    pub loot_pickup: Option<SoundHandle>,
    pub experience_gain: Option<SoundHandle>,
    pub level_up: Option<SoundHandle>,
    pub shop_buy: Option<SoundHandle>,
    pub shop_error: Option<SoundHandle>,
    pub ui_click: Option<SoundHandle>,
    pub ui_hover: Option<SoundHandle>,
    pub player_hit: Option<SoundHandle>,
    pub shield_down: Option<SoundHandle>,
    pub health_low: Option<SoundHandle>,
    pub wave_start: Option<SoundHandle>,
    pub wave_complete: Option<SoundHandle>,
    pub master_volume: u64,
    pub music_volume: u64,
    pub sfx_volume: u64,
    pub is_music_enabled: bool,
    pub is_sfx_enabled: bool,
}

/// A volume held to the range from silence to full volume.
pub open spec fn limited(volume: u64) -> u64 {
    if volume > FULL_VOLUME {
        FULL_VOLUME
    } else {
        volume
    }
}

fn limit(volume: u64) -> (r: u64)
    ensures
        r == limited(volume),
{
    if volume > FULL_VOLUME {
        FULL_VOLUME
    } else {
        volume
    }
}

impl AudioManager {
    /// A manager with no sound loaded, everything silent and switched off.
    pub open spec fn silent() -> AudioManager {
        AudioManager {
            background_music: None,
            shop_music: None,
            blaster_fire: None,
            laser_charge: None,
            laser_fire: None,
            rocket_launch: None,
            aoe_pulse: None,
            impact_metal: None,
            impact_energy: None,
            explosion_small: None,
            explosion_medium: None,
            explosion_large: None,
            chaser_move: None,
            chaser_attack: None,
            shooter_fire: None,
            tank_move: None,
            tank_fire: None,
            loot_pickup: None,
            experience_gain: None,
            level_up: None,
            shop_buy: None,
            shop_error: None,
            ui_click: None,
            ui_hover: None,
            player_hit: None,
            shield_down: None,
            health_low: None,
            wave_start: None,
            wave_complete: None,
            master_volume: 0,
            music_volume: 0,
            sfx_volume: 0,
            is_music_enabled: false,
            is_sfx_enabled: false,
        }
    }

    /// A manager with no sound loaded and the standard volumes.
    pub open spec fn initial() -> AudioManager {
        AudioManager {
            master_volume: 1000,
            music_volume: 700,
            sfx_volume: 800,
            is_music_enabled: true,
            is_sfx_enabled: true,
            ..AudioManager::silent()
        }
    }

    /// The volume at which an effect of loudness `volume` is played: the
    /// product of the master volume, the effects volume and the loudness.
    pub open spec fn effect_volume(self, volume: u64) -> u64 {
        clamp_u64(
            scaled(
                clamp_u64(scaled(self.master_volume as int, self.sfx_volume as int)) as int,
                volume as int,
            ),
        )
    }

    /// The volume at which music is played: the product of the master volume
    /// and the music volume.
    pub open spec fn music_level(self) -> u64 {
        clamp_u64(scaled(self.master_volume as int, self.music_volume as int))
    }

    /// The cue for a sound at a loudness: none while effects are switched
    /// off, and none for a sound that is not loaded.
    pub open spec fn cue(self, sound: Option<SoundHandle>, volume: u64) -> Option<SoundCue> {
        match sound {
            Some(handle) if self.is_sfx_enabled => Some(
                SoundCue { sound: handle, volume: self.effect_volume(volume) },
            ),
            _ => None,
        }
    }

    /// The cue for a piece of music: none while music is switched off, and
    /// none for a piece that is not loaded.
    pub open spec fn music_cue(self, sound: Option<SoundHandle>) -> Option<MusicCue> {
        match sound {
            Some(handle) if self.is_music_enabled => Some(
                MusicCue { sound: handle, volume: self.music_level(), looping: true },
            ),
            _ => None,
        }
    }

    /// The sound of a weapon firing.
    pub open spec fn weapon_sound(self, weapon_type: WeaponType) -> Option<SoundHandle> {
        match weapon_type {
            WeaponType::Blaster => self.blaster_fire,
            WeaponType::Laser => self.laser_fire,
            WeaponType::Rocket => self.rocket_launch,
            WeaponType::AoePulse => self.aoe_pulse,
        }
    }

    /// The sound of an impact.
    pub open spec fn impact_sound(self, impact_type: ImpactType) -> Option<SoundHandle> {
        match impact_type {
            ImpactType::Metal => self.impact_metal,
            ImpactType::Energy => self.impact_energy,
            ImpactType::ExplosionSmall => self.explosion_small,
            ImpactType::ExplosionMedium => self.explosion_medium,
            ImpactType::ExplosionLarge => self.explosion_large,
        }
    }

    /// The sound of an enemy doing something; many kinds and actions have
    /// none.
    pub open spec fn enemy_sound(self, enemy_type: EnemyType, action: EnemyAction) -> Option<
        SoundHandle,
    > {
        match (enemy_type, action) {
            (EnemyType::Chaser, EnemyAction::Move) => self.chaser_move,
            (EnemyType::Chaser, EnemyAction::Attack) => self.chaser_attack,
            (EnemyType::Shooter, EnemyAction::Attack) => self.shooter_fire,
            (EnemyType::Tank, EnemyAction::Move) => self.tank_move,
            (EnemyType::Tank, EnemyAction::Attack) => self.tank_fire,
            _ => None,
        }
    }

    /// The sound of a piece of loot being picked up.
    pub open spec fn loot_sound(self, loot_type: LootType) -> Option<SoundHandle> {
        match loot_type {
            LootType::Experience => self.experience_gain,
            _ => self.loot_pickup,
        }
    }

    /// The loudness of a piece of loot being picked up.
    pub open spec fn loot_loudness(loot_type: LootType) -> u64 {
        match loot_type {
            LootType::Experience => 600,
            _ => 800,
        }
    }

    /// The sound of the interface.
    pub open spec fn ui_sound(self, ui_sound: UISound) -> Option<SoundHandle> {
        match ui_sound {
            UISound::Click => self.ui_click,
            UISound::Hover => self.ui_hover,
            UISound::LevelUp => self.level_up,
            UISound::ShopBuy => self.shop_buy,
            UISound::ShopError => self.shop_error,
        }
    }

    /// The sound that tells the player of a hit or a danger.
    pub open spec fn feedback_sound(self, feedback: PlayerFeedback) -> Option<SoundHandle> {
        match feedback {
            PlayerFeedback::Hit => self.player_hit,
            PlayerFeedback::ShieldDown => self.shield_down,
            PlayerFeedback::HealthLow => self.health_low,
        }
    }

    /// The sound of a wave starting or ending.
    pub open spec fn wave_sound(self, wave_event: WaveSound) -> Option<SoundHandle> {
        match wave_event {
            WaveSound::Start => self.wave_start,
            WaveSound::Complete => self.wave_complete,
        }
    }

    /// A manager with no sound loaded and the standard volumes.
    pub fn new() -> (r: AudioManager)
        ensures
            r == AudioManager::initial(),
    {
        AudioManager {
            background_music: None,
            shop_music: None,
            blaster_fire: None,
            laser_charge: None,
            laser_fire: None,
            rocket_launch: None,
            aoe_pulse: None,
            impact_metal: None,
            impact_energy: None,
            explosion_small: None,
            explosion_medium: None,
            explosion_large: None,
            chaser_move: None,
            chaser_attack: None,
            shooter_fire: None,
            tank_move: None,
            tank_fire: None,
            loot_pickup: None,
            experience_gain: None,
            level_up: None,
            shop_buy: None,
            shop_error: None,
            ui_click: None,
            ui_hover: None,
            player_hit: None,
            shield_down: None,
            health_low: None,
            wave_start: None,
            wave_complete: None,
            master_volume: 1000,
            music_volume: 700,
            sfx_volume: 800,
            is_music_enabled: true,
            is_sfx_enabled: true,
        }
    }

    fn play_sound_effect(&self, sound: Option<SoundHandle>, volume: u64) -> (r: Option<SoundCue>)
        ensures
            r == self.cue(sound, volume),
    {
        if !self.is_sfx_enabled {
            return None;
        }
        match sound {
            Some(handle) => Some(
                SoundCue {
                    sound: handle,
                    volume: scale(scale(self.master_volume, self.sfx_volume), volume),
                },
            ),
            None => None,
        }
    }

    fn play_music(&self, sound: Option<SoundHandle>) -> (r: Option<MusicCue>)
        ensures
            r == self.music_cue(sound),
    {
        if !self.is_music_enabled {
            return None;
        }
        match sound {
            Some(handle) => Some(
                MusicCue {
                    sound: handle,
                    volume: scale(self.master_volume, self.music_volume),
                    looping: true,
                },
            ),
            None => None,
        }
    }

    /// Chooses the sound of a weapon firing.
    pub fn play_weapon_sound(&self, weapon_type: WeaponType) -> (r: Option<SoundCue>)
        ensures
            r == self.cue(self.weapon_sound(weapon_type), 1000),
    {
        let sound = match weapon_type {
            WeaponType::Blaster => self.blaster_fire,
            WeaponType::Laser => self.laser_fire,
            WeaponType::Rocket => self.rocket_launch,
            WeaponType::AoePulse => self.aoe_pulse,
        };
        self.play_sound_effect(sound, 1000)
    }

    /// Chooses the sound of an impact.
    pub fn play_impact_sound(&self, impact_type: ImpactType) -> (r: Option<SoundCue>)
        ensures
            r == self.cue(self.impact_sound(impact_type), 1000),
    {
        let sound = match impact_type {
            ImpactType::Metal => self.impact_metal,
            ImpactType::Energy => self.impact_energy,
            ImpactType::ExplosionSmall => self.explosion_small,
            ImpactType::ExplosionMedium => self.explosion_medium,
            ImpactType::ExplosionLarge => self.explosion_large,
        };
        self.play_sound_effect(sound, 1000)
    }

    /// Chooses the sound of an enemy doing something.
    pub fn play_enemy_sound(&self, enemy_type: EnemyType, action: EnemyAction) -> (r: Option<
        SoundCue,
    >)
        ensures
            r == self.cue(self.enemy_sound(enemy_type, action), 800),
    {
        let sound = match (enemy_type, action) {
            (EnemyType::Chaser, EnemyAction::Move) => self.chaser_move,
            (EnemyType::Chaser, EnemyAction::Attack) => self.chaser_attack,
            (EnemyType::Shooter, EnemyAction::Attack) => self.shooter_fire,
            (EnemyType::Tank, EnemyAction::Move) => self.tank_move,
            (EnemyType::Tank, EnemyAction::Attack) => self.tank_fire,
            _ => None,
        };
        self.play_sound_effect(sound, 800)
    }

    /// Chooses the sound of a piece of loot being picked up.
    pub fn play_loot_sound(&self, loot_type: LootType) -> (r: Option<SoundCue>)
        ensures
            r == self.cue(self.loot_sound(loot_type), AudioManager::loot_loudness(loot_type)),
    {
        let (sound, volume): (Option<SoundHandle>, u64) = match loot_type {
            LootType::Experience => (self.experience_gain, 600),
            LootType::Health | LootType::Energy | LootType::Currency => (self.loot_pickup, 800),
        };
        self.play_sound_effect(sound, volume)
    }

    /// Chooses the sound of the interface.
    pub fn play_ui_sound(&self, ui_sound: UISound) -> (r: Option<SoundCue>)
        ensures
            r == self.cue(self.ui_sound(ui_sound), 700),
    {
        let sound = match ui_sound {
            UISound::Click => self.ui_click,
            UISound::Hover => self.ui_hover,
            UISound::LevelUp => self.level_up,
            UISound::ShopBuy => self.shop_buy,
            UISound::ShopError => self.shop_error,
        };
        self.play_sound_effect(sound, 700)
    }

    /// Chooses the sound that tells the player of a hit or a danger.
    pub fn play_player_feedback(&self, feedback: PlayerFeedback) -> (r: Option<SoundCue>)
        ensures
            r == self.cue(self.feedback_sound(feedback), 1000),
    {
        let sound = match feedback {
            PlayerFeedback::Hit => self.player_hit,
            PlayerFeedback::ShieldDown => self.shield_down,
            PlayerFeedback::HealthLow => self.health_low,
        };
        self.play_sound_effect(sound, 1000)
    }

    /// Chooses the sound of a wave starting or ending.
    pub fn play_wave_sound(&self, wave_event: WaveSound) -> (r: Option<SoundCue>)
        ensures
            r == self.cue(self.wave_sound(wave_event), 900),
    {
        let sound = match wave_event {
            WaveSound::Start => self.wave_start,
            WaveSound::Complete => self.wave_complete,
        };
        self.play_sound_effect(sound, 900)
    }

    /// Chooses the music of the arena.
    pub fn start_background_music(&self) -> (r: Option<MusicCue>)
        ensures
            r == self.music_cue(self.background_music),
    {
        self.play_music(self.background_music)
    }

    /// Chooses the music of the shop, which takes the place of the music
    /// of the arena.
    pub fn start_shop_music(&self) -> (r: Option<MusicCue>)
        ensures
            r == self.music_cue(self.shop_music),
    {
        self.play_music(self.shop_music)
    }

    /// Sets the master volume, held to the range from silence to full
    /// volume.
    pub fn set_master_volume(&mut self, volume: u64)
        ensures
            *final(self) == (AudioManager { master_volume: limited(volume), ..*old(self) }),
    {
        self.master_volume = limit(volume);
    }

    /// Sets the music volume, held to the range from silence to full
    /// volume.
    pub fn set_music_volume(&mut self, volume: u64)
        ensures
            *final(self) == (AudioManager { music_volume: limited(volume), ..*old(self) }),
    {
        self.music_volume = limit(volume);
    }

    /// Sets the effects volume, held to the range from silence to full
    /// volume.
    pub fn set_sfx_volume(&mut self, volume: u64)
        ensures
            *final(self) == (AudioManager { sfx_volume: limited(volume), ..*old(self) }),
    {
        self.sfx_volume = limit(volume);
    }

    /// Switches music on or off.
    pub fn toggle_music(&mut self)
        ensures
            *final(self) == (AudioManager {
                is_music_enabled: !old(self).is_music_enabled,
                ..*old(self)
            }),
    {
        self.is_music_enabled = !self.is_music_enabled;
    }

    /// Switches sound effects on or off.
    pub fn toggle_sfx(&mut self)
        ensures
            *final(self) == (AudioManager { is_sfx_enabled: !old(self).is_sfx_enabled, ..*old(self) }),
    {
        self.is_sfx_enabled = !self.is_sfx_enabled;
    }
}

impl Default for AudioManager {
    fn default() -> (r: AudioManager)
        ensures
            r == AudioManager::silent(),
    {
        AudioManager {
            background_music: None,
            shop_music: None,
            blaster_fire: None,
            laser_charge: None,
            laser_fire: None,
            rocket_launch: None,
            aoe_pulse: None,
            impact_metal: None,
            impact_energy: None,
            explosion_small: None,
            explosion_medium: None,
            explosion_large: None,
            chaser_move: None,
            chaser_attack: None,
            shooter_fire: None,
            tank_move: None,
            tank_fire: None,
            loot_pickup: None,
            experience_gain: None,
            level_up: None,
            shop_buy: None,
            shop_error: None,
            ui_click: None,
            ui_hover: None,
            player_hit: None,
            shield_down: None,
            health_low: None,
            wave_start: None,
            wave_complete: None,
            master_volume: 0,
            music_volume: 0,
            sfx_volume: 0,
            is_music_enabled: false,
            is_sfx_enabled: false,
        }
    }
}

/// With the volumes within their range, no sound is played louder than it
/// was asked for, and none louder than the master volume.
pub proof fn lemma_effect_volume_is_bounded(manager: AudioManager, volume: u64)
    requires
        manager.master_volume <= FULL_VOLUME,
        manager.sfx_volume <= FULL_VOLUME,
        volume <= FULL_VOLUME,
    ensures
        manager.effect_volume(volume) <= volume,
        manager.effect_volume(volume) <= manager.master_volume,
{
    let m = manager.master_volume as int;
    let s = manager.sfx_volume as int;
    let v = volume as int;
    assert(0 <= m * s <= m * 1000 && m * s <= 1000 * s) by (nonlinear_arith)
        requires
            0 <= m <= 1000,
            0 <= s <= 1000,
    ;
    let ms = m * s / 1000;
    assert(0 <= ms <= m && ms <= 1000);
    assert(0 <= ms * v <= ms * 1000 && ms * v <= 1000 * v) by (nonlinear_arith)
        requires
            0 <= ms <= 1000,
            0 <= v <= 1000,
    ;
}

} // verus!
