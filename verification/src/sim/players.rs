//! Positions and the counting statistics of a player.

use vstd::prelude::*;

verus! {

#[derive(Debug, Clone, Copy, PartialEq, Eq, Structural)]
pub enum Position {
    Pitcher,
    Catcher,
    FirstBase,
    SecondBase,
    ThirdBase,
    Shortstop,
    LeftField,
    CenterField,
    RightField,
    DesignatedHitter,
}

impl Position {
    /// The scorer's abbreviation of the position.
    pub open spec fn short_name(self) -> Seq<char> {
        match self {
            Position::Pitcher => "P"@,
            Position::Catcher => "C"@,
            Position::FirstBase => "1B"@,
            Position::SecondBase => "2B"@,
            Position::ThirdBase => "3B"@,
            Position::Shortstop => "SS"@,
            Position::LeftField => "LF"@,
            Position::CenterField => "CF"@,
            Position::RightField => "RF"@,
            Position::DesignatedHitter => "DH"@,
        }
    }

    /// The position written out.
    pub open spec fn long_name(self) -> Seq<char> {
        match self {
            Position::Pitcher => "Pitcher"@,
            Position::Catcher => "Catcher"@,
            Position::FirstBase => "First Base"@,
            Position::SecondBase => "Second Base"@,
            Position::ThirdBase => "Third Base"@,
            Position::Shortstop => "Shortstop"@,
            Position::LeftField => "Left Field"@,
            Position::CenterField => "Center Field"@,
            Position::RightField => "Right Field"@,
            Position::DesignatedHitter => "Designated Hitter"@,
        }
    }

    /// First, second and third base and shortstop.
    pub fn is_infield(&self) -> (yes: bool)
        ensures
            yes == (*self is FirstBase || *self is SecondBase || *self is ThirdBase
                || *self is Shortstop),
    {
        matches!(
            self,
            Position::FirstBase | Position::SecondBase | Position::ThirdBase | Position::Shortstop
        )
    }

    /// Left, center and right field.
    pub fn is_outfield(&self) -> (yes: bool)
        ensures
            yes == (*self is LeftField || *self is CenterField || *self is RightField),
    {
        matches!(self, Position::LeftField | Position::CenterField | Position::RightField)
    }

    pub fn abbreviation(&self) -> (s: &'static str)
        ensures
            s@ == self.short_name(),
    {
        match self {
            Position::Pitcher => "P",
            Position::Catcher => "C",
            Position::FirstBase => "1B",
            Position::SecondBase => "2B",
            Position::ThirdBase => "3B",
            Position::Shortstop => "SS",
            Position::LeftField => "LF",
            Position::CenterField => "CF",
            Position::RightField => "RF",
            Position::DesignatedHitter => "DH",
        }
    }

    pub fn full_name(&self) -> (s: &'static str)
        ensures
            s@ == self.long_name(),
    {
        match self {
            Position::Pitcher => "Pitcher",
            Position::Catcher => "Catcher",
            Position::FirstBase => "First Base",
            Position::SecondBase => "Second Base",
            Position::ThirdBase => "Third Base",
            Position::Shortstop => "Shortstop",
            Position::LeftField => "Left Field",
            Position::CenterField => "Center Field",
            Position::RightField => "Right Field",
            Position::DesignatedHitter => "Designated Hitter",
        }
    }
}

#[derive(Debug, Clone, Copy, PartialEq, Eq, Structural)]
pub enum PitcherRole {
    Starter,
    Reliever,
    Closer,
}

#[derive(Debug, Clone, Copy, PartialEq, Eq, Structural)]
pub enum Handedness {
    Left,
    Right,
    /// A batter who hits from either side.
    Switch,
}

/// What a batter has done at the plate.
#[derive(Debug, Clone, Copy, PartialEq, Eq, Structural)]
pub struct BatterStats {
    pub at_bats: u32,
    pub hits: u32,
    pub doubles: u32,
    pub triples: u32,
    pub home_runs: u32,
    pub runs_batted_in: u32,
    pub runs_scored: u32,
    pub walks: u32,
    pub strikeouts: u32,
    pub stolen_bases: u32,
    pub caught_stealing: u32,
    pub sacrifice_hits: u32,
    pub sacrifice_flies: u32,
    pub hit_by_pitch: u32,
    pub errors: u32,
}

impl BatterStats {
    /// A batter who has yet to come up.
    pub open spec fn blank() -> BatterStats {
        BatterStats {
            at_bats: 0,
            hits: 0,
            doubles: 0,
            triples: 0,
            home_runs: 0,
            runs_batted_in: 0,
            runs_scored: 0,
            walks: 0,
            strikeouts: 0,
            stolen_bases: 0,
            caught_stealing: 0,
            sacrifice_hits: 0,
            sacrifice_flies: 0,
            hit_by_pitch: 0,
            errors: 0,
        }
    }

    pub fn new() -> (stats: Self)
        ensures
            stats == Self::blank(),
    {
        Self {
            at_bats: 0,
            hits: 0,
            doubles: 0,
            triples: 0,
            home_runs: 0,
            runs_batted_in: 0,
            runs_scored: 0,
            walks: 0,
            strikeouts: 0,
            stolen_bases: 0,
            caught_stealing: 0,
            sacrifice_hits: 0,
            sacrifice_flies: 0,
            hit_by_pitch: 0,
            errors: 0,
        }
    }
}

/// What a fielder has done in the field.
#[derive(Debug, Clone, Copy, PartialEq, Eq, Structural)]
pub struct FieldingStats {
    pub games_played: u32,
    pub putouts: u32,
    pub assists: u32,
    pub errors: u32,
    pub double_plays: u32,
    pub fielding_chances: u32,
    /// Catchers only.
    pub passed_balls: u32,
    /// Catchers only.
    pub stolen_bases_allowed: u32,
    /// Catchers only.
    pub caught_stealing: u32,
}

impl FieldingStats {
    /// A fielder who has yet to take the field.
    pub open spec fn blank() -> FieldingStats {
        FieldingStats {
            games_played: 0,
            putouts: 0,
            assists: 0,
            errors: 0,
            double_plays: 0,
            fielding_chances: 0,
            passed_balls: 0,
            stolen_bases_allowed: 0,
            caught_stealing: 0,
        }
    }

    pub fn new() -> (stats: Self)
        ensures
            stats == Self::blank(),
    {
        Self {
            games_played: 0,
            putouts: 0,
            assists: 0,
            errors: 0,
            double_plays: 0,
            fielding_chances: 0,
            passed_balls: 0,
            stolen_bases_allowed: 0,
            caught_stealing: 0,
        }
    }
}

} // verus!
