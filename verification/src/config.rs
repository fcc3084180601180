//! The settings of the game.

use crate::text::texts;
use vstd::prelude::*;
use vstd::string::*;

verus! {

#[derive(Debug, Clone, Copy, PartialEq, Eq, Structural)]
pub enum DifficultyLevel {
    Rookie,
    Pro,
    AllStar,
    HallOfFame,
}

#[derive(Debug, Clone, Copy, PartialEq, Eq, Structural)]
pub struct GameSettings {
    pub innings_per_game: u8,
    pub designated_hitter: bool,
    pub difficulty_level: DifficultyLevel,
    pub auto_save: bool,
    pub quick_play: bool,
    pub realistic_injuries: bool,
    pub fatigue_enabled: bool,
}

#[derive(Debug, Clone, Copy, PartialEq, Eq, Structural)]
pub enum SimulationSpeed {
    Slow,
    Normal,
    Fast,
    Instant,
}

#[derive(Debug, Clone, Copy, PartialEq, Eq, Structural)]
pub struct SimulationSettings {
    pub random_seed: Option<u64>,
    pub simulation_speed: SimulationSpeed,
    pub detailed_stats: bool,
    pub weather_effects: bool,
    pub ballpark_effects: bool,
    pub momentum_effects: bool,
}

#[derive(Debug, Clone, Copy, PartialEq, Eq, Structural)]
pub enum TerminalMode {
    Windowed,
    Fullscreen,
    Borderless,
}

#[derive(Debug, Clone)]
pub struct CustomColors {
    pub background: String,
    pub foreground: String,
    pub accent: String,
    pub warning: String,
    pub error: String,
}

#[derive(Debug, Clone)]
pub enum ColorScheme {
    Classic,
    Modern,
    HighContrast,
    CustomColors(CustomColors),
}

#[derive(Debug, Clone, Copy, PartialEq, Eq, Structural)]
pub enum WindowSize {
    Small,
    Medium,
    Large,
    /// Width and height, in percent of the screen.
    Custom(u16, u16),
}

#[derive(Debug, Clone, Copy, PartialEq, Eq, Structural)]
pub struct WindowLayoutConfig {
    pub scoreboard_size: WindowSize,
    pub ballpark_size: WindowSize,
    pub play_by_play_size: WindowSize,
    pub lineup_cards_size: WindowSize,
}

#[derive(Debug, Clone, Copy, PartialEq, Eq, Structural)]
pub enum FontSize {
    Small,
    Medium,
    Large,
    ExtraLarge,
}

#[derive(Debug, Clone)]
pub struct UiSettings {
    pub terminal_mode: TerminalMode,
    pub color_scheme: ColorScheme,
    pub window_layout: WindowLayoutConfig,
    pub font_size: FontSize,
    pub animations_enabled: bool,
    pub show_tooltips: bool,
}

#[derive(Debug, Clone, Copy, PartialEq, Eq, Structural)]
pub struct AudioSettings {
    pub sound_enabled: bool,
    pub music_enabled: bool,
    /// Hundredths of full volume.
    pub sound_volume: u8,
    /// Hundredths of full volume.
    pub music_volume: u8,
    pub announcer_enabled: bool,
    pub crowd_noise: bool,
}

#[derive(Debug, Clone)]
pub struct GameConfig {
    pub game_settings: GameSettings,
    pub simulation_settings: SimulationSettings,
    pub ui_settings: UiSettings,
    pub audio_settings: AudioSettings,
}

/// How much easier than normal a difficulty level makes the game, in
/// hundredths.
pub open spec fn difficulty_modifier(level: DifficultyLevel) -> u32 {
    match level {
        DifficultyLevel::Rookie => 120,
        DifficultyLevel::Pro => 100,
        DifficultyLevel::AllStar => 90,
        DifficultyLevel::HallOfFame => 80,
    }
}

/// The pause between two plays of a simulation, in milliseconds.
pub open spec fn simulation_delay(speed: SimulationSpeed) -> u64 {
    match speed {
        SimulationSpeed::Slow => 2000,
        SimulationSpeed::Normal => 1000,
        SimulationSpeed::Fast => 500,
        SimulationSpeed::Instant => 0,
    }
}

/// Everything that is wrong with a configuration: a game of no innings, and
/// a volume above full.
pub open spec fn config_errors(config: GameConfig) -> Seq<Seq<char>> {
    (if config.game_settings.innings_per_game < 1 {
        seq!["Innings per game must be at least 1"@]
    } else {
        Seq::<Seq<char>>::empty()
    }) + (if config.audio_settings.sound_volume > 100 {
        seq!["Sound volume must be between 0.0 and 1.0"@]
    } else {
        Seq::<Seq<char>>::empty()
    }) + (if config.audio_settings.music_volume > 100 {
        seq!["Music volume must be between 0.0 and 1.0"@]
    } else {
        Seq::<Seq<char>>::empty()
    })
}

impl Default for GameConfig {
    /// Nine innings with a designated hitter at the normal level, a
    /// simulation at normal speed with every effect on, a windowed terminal
    /// in classic colours, and sound at seven tenths and music at half
    /// volume.
    fn default() -> (config: Self)
        ensures
            config.game_settings == (GameSettings {
                innings_per_game: 9,
                designated_hitter: true,
                difficulty_level: DifficultyLevel::Pro,
                auto_save: true,
                quick_play: false,
                realistic_injuries: true,
                fatigue_enabled: true,
            }),
            config.simulation_settings == (SimulationSettings {
                random_seed: None,
                simulation_speed: SimulationSpeed::Normal,
                detailed_stats: true,
                weather_effects: true,
                ballpark_effects: true,
                momentum_effects: true,
            }),
            config.ui_settings.terminal_mode == TerminalMode::Windowed,
            config.ui_settings.color_scheme is Classic,
            config.ui_settings.window_layout == (WindowLayoutConfig {
                scoreboard_size: WindowSize::Medium,
                ballpark_size: WindowSize::Medium,
                play_by_play_size: WindowSize::Medium,
                lineup_cards_size: WindowSize::Medium,
            }),
            config.ui_settings.font_size == FontSize::Medium,
            config.ui_settings.animations_enabled,
            config.ui_settings.show_tooltips,
            config.audio_settings == (AudioSettings {
                sound_enabled: true,
                music_enabled: true,
                sound_volume: 70,
                music_volume: 50,
                announcer_enabled: true,
                crowd_noise: true,
            }),
            config_errors(config).len() == 0,
    {
        Self {
            game_settings: GameSettings {
                innings_per_game: 9,
                designated_hitter: true,
                difficulty_level: DifficultyLevel::Pro,
                auto_save: true,
                quick_play: false,
                realistic_injuries: true,
                fatigue_enabled: true,
            },
            simulation_settings: SimulationSettings {
                random_seed: None,
                simulation_speed: SimulationSpeed::Normal,
                detailed_stats: true,
                weather_effects: true,
                ballpark_effects: true,
                momentum_effects: true,
            },
            ui_settings: UiSettings {
                terminal_mode: TerminalMode::Windowed,
                color_scheme: ColorScheme::Classic,
                window_layout: WindowLayoutConfig {
                    scoreboard_size: WindowSize::Medium,
                    ballpark_size: WindowSize::Medium,
                    play_by_play_size: WindowSize::Medium,
                    lineup_cards_size: WindowSize::Medium,
                },
                font_size: FontSize::Medium,
                animations_enabled: true,
                show_tooltips: true,
            },
            audio_settings: AudioSettings {
                sound_enabled: true,
                music_enabled: true,
                sound_volume: 70,
                music_volume: 50,
                announcer_enabled: true,
                crowd_noise: true,
            },
        }
    }
}

impl GameConfig {
    /// Lists everything that is wrong with the configuration.
    pub fn validate(&self) -> (errors: Vec<String>)
        ensures
            texts(errors@) == config_errors(*self),
    {
        let mut errors: Vec<String> = Vec::new();
        if self.game_settings.innings_per_game < 1 {
            errors.push(String::from_str("Innings per game must be at least 1"));
        }
        if self.audio_settings.sound_volume > 100 {
            errors.push(String::from_str("Sound volume must be between 0.0 and 1.0"));
        }
        if self.audio_settings.music_volume > 100 {
            errors.push(String::from_str("Music volume must be between 0.0 and 1.0"));
        }
        assert(texts(errors@) =~= config_errors(*self));
        errors
    }

    pub fn get_innings_per_game(&self) -> (innings: u8)
        ensures
            innings == self.game_settings.innings_per_game,
    {
        self.game_settings.innings_per_game
    }

    pub fn has_designated_hitter(&self) -> (yes: bool)
        ensures
            yes == self.game_settings.designated_hitter,
    {
        self.game_settings.designated_hitter
    }

    /// How much easier than normal the game is, in hundredths.
    pub fn get_difficulty_modifier(&self) -> (modifier: u32)
        ensures
            modifier == difficulty_modifier(self.game_settings.difficulty_level),
    {
        match self.game_settings.difficulty_level {
            DifficultyLevel::Rookie => 120,
            DifficultyLevel::Pro => 100,
            DifficultyLevel::AllStar => 90,
            DifficultyLevel::HallOfFame => 80,
        }
    }

    pub fn get_simulation_delay_ms(&self) -> (delay: u64)
        ensures
            delay == simulation_delay(self.simulation_settings.simulation_speed),
    {
        match self.simulation_settings.simulation_speed {
            SimulationSpeed::Slow => 2000,
            SimulationSpeed::Normal => 1000,
            SimulationSpeed::Fast => 500,
            SimulationSpeed::Instant => 0,
        }
    }

    pub fn should_show_detailed_stats(&self) -> (yes: bool)
        ensures
            yes == self.simulation_settings.detailed_stats,
    {
        self.simulation_settings.detailed_stats
    }

    pub fn has_weather_effects(&self) -> (yes: bool)
        ensures
            yes == self.simulation_settings.weather_effects,
    {
        self.simulation_settings.weather_effects
    }

    pub fn has_ballpark_effects(&self) -> (yes: bool)
        ensures
            yes == self.simulation_settings.ballpark_effects,
    {
        self.simulation_settings.ballpark_effects
    }

    pub fn has_momentum_effects(&self) -> (yes: bool)
        ensures
            yes == self.simulation_settings.momentum_effects,
    {
        self.simulation_settings.momentum_effects
    }

    pub fn is_fatigue_enabled(&self) -> (yes: bool)
        ensures
            yes == self.game_settings.fatigue_enabled,
    {
        self.game_settings.fatigue_enabled
    }

    pub fn has_realistic_injuries(&self) -> (yes: bool)
        ensures
            yes == self.game_settings.realistic_injuries,
    {
        self.game_settings.realistic_injuries
    }

    pub fn should_auto_save(&self) -> (yes: bool)
        ensures
            yes == self.game_settings.auto_save,
    {
        self.game_settings.auto_save
    }

    pub fn is_quick_play(&self) -> (yes: bool)
        ensures
            yes == self.game_settings.quick_play,
    {
        self.game_settings.quick_play
    }
}

} // verus!
