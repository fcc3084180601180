//! The counting statistics of a team.

use vstd::prelude::*;

verus! {

/// What a team has done at the plate.
#[derive(Debug, Clone, Copy, PartialEq, Eq, Structural)]
pub struct TeamBattingStats {
    pub games_played: u32,
    pub at_bats: u32,
    pub runs: u32,
    pub hits: u32,
    pub doubles: u32,
    pub triples: u32,
    pub home_runs: u32,
    pub runs_batted_in: u32,
    pub walks: u32,
    pub strikeouts: u32,
    pub stolen_bases: u32,
    pub caught_stealing: u32,
    pub sacrifice_hits: u32,
    pub sacrifice_flies: u32,
    pub hit_by_pitch: u32,
    pub left_on_base: u32,
    pub double_plays_grounded_into: u32,
}

impl TeamBattingStats {
    /// A team that has yet to play.
    pub open spec fn blank() -> TeamBattingStats {
        TeamBattingStats {
            games_played: 0,
            at_bats: 0,
            runs: 0,
            hits: 0,
            doubles: 0,
            triples: 0,
            home_runs: 0,
            runs_batted_in: 0,
            walks: 0,
            strikeouts: 0,
            stolen_bases: 0,
            caught_stealing: 0,
            sacrifice_hits: 0,
            sacrifice_flies: 0,
            hit_by_pitch: 0,
            left_on_base: 0,
            double_plays_grounded_into: 0,
        }
    }

    pub fn new() -> (stats: Self)
        ensures
            stats == Self::blank(),
    {
        Self {
            games_played: 0,
            at_bats: 0,
            runs: 0,
            hits: 0,
            doubles: 0,
            triples: 0,
            home_runs: 0,
            runs_batted_in: 0,
            walks: 0,
            strikeouts: 0,
            stolen_bases: 0,
            caught_stealing: 0,
            sacrifice_hits: 0,
            sacrifice_flies: 0,
            hit_by_pitch: 0,
            left_on_base: 0,
            double_plays_grounded_into: 0,
        }
    }
}

/// What a team has done in the field.
#[derive(Debug, Clone, Copy, PartialEq, Eq, Structural)]
pub struct TeamFieldingStats {
    pub games_played: u32,
    pub putouts: u32,
    pub assists: u32,
    pub errors: u32,
    pub double_plays: u32,
    pub triple_plays: u32,
    pub passed_balls: u32,
    pub stolen_bases_allowed: u32,
    pub caught_stealing: u32,
}

impl TeamFieldingStats {
    /// A team that has yet to take the field.
    pub open spec fn blank() -> TeamFieldingStats {
        TeamFieldingStats {
            games_played: 0,
            putouts: 0,
            assists: 0,
            errors: 0,
            double_plays: 0,
            triple_plays: 0,
            passed_balls: 0,
            stolen_bases_allowed: 0,
            caught_stealing: 0,
        }
    }

    pub fn new() -> (stats: Self)
        ensures
            stats == Self::blank(),
    {
        Self {
            games_played: 0,
            putouts: 0,
            assists: 0,
            errors: 0,
            double_plays: 0,
            triple_plays: 0,
            passed_balls: 0,
            stolen_bases_allowed: 0,
            caught_stealing: 0,
        }
    }
}

} // verus!
