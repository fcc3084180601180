//! A simulation of whole games: players, rosters and line-ups, the
//! situation and the score of a game, the events of each half inning, and
//! the rules by which a plate appearance is resolved and carried out.

pub mod data;
pub mod engine;
pub mod events;
pub mod game;
pub mod lineup;
pub mod players;
pub mod random;
pub mod roster;
pub mod samples;
pub mod saves;
pub mod seed;
pub mod state;
pub mod stats;
pub mod team;
