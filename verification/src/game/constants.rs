//! Tuning constants of the game. Frame counts assume the fixed 30 Hz tick.

use vstd::prelude::*;

verus! {

// Game timing (in frames)
pub const TARGET_FPS: u64 = 30;

pub const FRAME_TIME_MS: u64 = 1000 / TARGET_FPS;

// Animation frame durations
pub const SWINGING_ANIMATION_FRAMES: u8 = 10;

pub const RESULT_DISPLAY_FRAMES: u8 = 90;

pub const GAME_OVER_DELAY_SECONDS: u64 = 3;

// Timing system
pub const PITCH_CLOCK_FRAMES: u16 = 90;

pub const BALL_APPROACH_FRAMES: u8 = 90;

pub const SWING_TIMING_WINDOW_FRAMES: u8 = 30;

pub const PERFECT_TIMING_WINDOW_FRAMES: u8 = 6;

pub const EARLY_LATE_WINDOW_FRAMES: u8 = 12;

// Input polling
pub const INPUT_POLL_TIMEOUT_MS: u64 = 16;

// Pitcher stamina, in tenths of a point
pub const STARTING_STAMINA: u32 = 1000;

pub const STAMINA_COST_SWING: u32 = 15;

pub const STAMINA_COST_TAKE: u32 = 8;

// Stamina bands (tenths of a point) and the fatigue multiplier of each band
// (hundredths)
pub const STAMINA_FRESH_THRESHOLD: u32 = 700;

pub const STAMINA_GOOD_THRESHOLD: u32 = 500;

pub const STAMINA_TIRED_THRESHOLD: u32 = 300;

pub const STAMINA_EXHAUSTED_THRESHOLD: u32 = 150;

pub const FATIGUE_PENALTY_FRESH: u32 = 100;

pub const FATIGUE_PENALTY_GOOD: u32 = 95;

pub const FATIGUE_PENALTY_TIRED: u32 = 85;

pub const FATIGUE_PENALTY_VERY_TIRED: u32 = 70;

pub const FATIGUE_PENALTY_EXHAUSTED: u32 = 50;

// Game rules
pub const MAX_STRIKES: u8 = 3;

pub const MAX_BALLS: u8 = 4;

pub const MAX_OUTS: u8 = 3;

pub const INNINGS_PER_GAME: u8 = 9;

pub const BASES_COUNT: usize = 3;

pub const BATTING_ORDER_SIZE: usize = 9;

// Player stats thresholds
pub const MIN_PLAYER_ATTEMPTS: u32 = 50;

// Fielding timing
pub const FIELDING_TIMING_WINDOW: u32 = 15;

pub const FIELDING_AUTO_RESOLVE_MIN_FRAMES: u8 = 45;

// Contact quality bands
pub const CONTACT_QUALITY_MAX: i32 = 100;

pub const CONTACT_EXCEPTIONAL_MIN: i32 = 90;

pub const CONTACT_EXCELLENT_MIN: i32 = 85;

pub const CONTACT_GREAT_MIN: i32 = 75;

pub const CONTACT_GOOD_MIN: i32 = 55;

pub const CONTACT_WEAK_MIN: i32 = 35;

// Skill adjustments, in hundredths of the barrel percentage
pub const BATTER_SKILL_BONUS_MULTIPLIER: u64 = 150;

pub const PITCHER_SKILL_PENALTY_MULTIPLIER: u64 = 200;

pub const ADJACENT_BATTER_SKILL_MULTIPLIER: u64 = 100;

pub const ADJACENT_PITCHER_SKILL_MULTIPLIER: u64 = 100;

// Swing timing multipliers, in tenths
pub const TIMING_MULTIPLIER_OFF: i64 = 6;

pub const TIMING_MULTIPLIER_PERFECT: i64 = 13;

// Neutral stand-ins for a missing batter
pub const DEFAULT_GROUNDBALL_TENDENCY: u32 = 500;

pub const DEFAULT_HOME_RUN_CHANCE: u32 = 25;

pub const HOME_RUN_CHANCE_CAP: u32 = 25;

// Fielding success base rates, in hundredths
pub const FIELDING_SUCCESS_POPFLY: u32 = 98;

pub const FIELDING_SUCCESS_FLYBALL: u32 = 90;

pub const FIELDING_SUCCESS_LINEDRIVE: u32 = 75;

pub const FIELDING_SUCCESS_GROUNDER: u32 = 85;

// Speeds are in tenths of a mile per hour
pub const FIELDING_SPEED_THRESHOLD: u32 = 950;

/// A fielding chance counts equally likely parts out of this total. The total
/// is the least one in which the base rates (hundredths), the speed penalty
/// (one part in 3000 per tenth of a mile per hour) and the timing factor
/// (thirtieths) are all whole.
pub const FIELDING_CHANCE_SCALE: u32 = 90000;

/// The floor of every fielding chance: one in ten.
pub const FIELDING_MIN_SUCCESS: u32 = 9000;

/// Timing accuracy is counted in fifteenths; above this many the timing is good.
pub const FIELDING_TIMING_GOOD_THRESHOLD: u32 = 9;

} // verus!
