//! The game core: domain types, resolvers and the pitch state machine.

pub mod constants;
pub mod engine;
pub mod input_handler;
pub mod state;
pub mod update;

pub use state::{
    BallInPlay, BallType, FieldDirection, HitType, InningHalf, OutType, PitchLocation, PlayResult,
    SwingTiming,
};
