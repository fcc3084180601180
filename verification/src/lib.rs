//! An interactive baseball at-bat: pitch resolution, balls in play, fielding,
//! the per-frame pitch state machine and the base-running ledger.
//!
//! Quantities that are fractional in the physical game are held as scaled
//! integers, so that every rule is exact: percentages in tenths of a percent,
//! speeds in tenths of a mile per hour, stamina in tenths of a point, the
//! fatigue multiplier in hundredths, and probabilities as a count of equally
//! likely parts out of a stated total.
//!
//! Chance enters through one function, [`chance`]'s roll of a die. Every
//! resolver is a function of its inputs and of the dice handed to it, and a
//! thin function around it rolls them.
//!
//! The library does no input or output. What a frame or an input asks of the
//! outside (a sound, a log entry, a roster to be read) is returned as a
//! value.
//!
//! Beside the game itself stand a simulation of whole games between two
//! rosters ([`sim`]), the state behind menus and dialogs ([`ui`]) and the
//! settings ([`config`]).

pub mod audio;
pub mod chance;
pub mod config;
pub mod game;
pub mod input;
pub mod league;
pub mod sim;
pub mod team;
pub mod text;
pub mod ui;
