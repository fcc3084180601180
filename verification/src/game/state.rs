//! Domain types of the game and the state of one game in progress.

use crate::game::constants::{INNINGS_PER_GAME, MAX_OUTS};
use crate::team::{fatigue_band, owned, Player, Team, TeamManager};
use crate::text::{decimal, decimal_string};
use vstd::arithmetic::div_mod::{lemma_add_mod_noop, lemma_mod_self_0, lemma_small_mod};
use vstd::prelude::*;
use vstd::string::*;

verus! {

/// Which team bats: the visitors in the top half, the home team in the bottom.
#[derive(Debug, Clone, Copy, PartialEq, Eq, Structural)]
pub enum InningHalf {
    Top,
    Bottom,
}

/// The flight of a batted ball.
#[derive(Debug, Clone, Copy, PartialEq, Eq, Structural)]
pub enum BallType {
    Grounder,
    LineDrive,
    FlyBall,
    PopFly,
}

/// Where a batted ball is headed: an outfield lane or an infield position.
#[derive(Debug, Clone, Copy, PartialEq, Eq, Structural)]
pub enum FieldDirection {
    LeftField,
    LeftCenter,
    CenterField,
    RightCenter,
    RightField,
    ThirdBase,
    Shortstop,
    SecondBase,
    FirstBase,
}

impl BallType {
    /// The name of the kind of ball, as shown to the player.
    pub open spec fn label(self) -> Seq<char> {
        match self {
            BallType::Grounder => "Grounder"@,
            BallType::LineDrive => "LineDrive"@,
            BallType::FlyBall => "FlyBall"@,
            BallType::PopFly => "PopFly"@,
        }
    }

    pub fn name(&self) -> (s: &'static str)
        ensures
            s@ == self.label(),
    {
        match self {
            BallType::Grounder => "Grounder",
            BallType::LineDrive => "LineDrive",
            BallType::FlyBall => "FlyBall",
            BallType::PopFly => "PopFly",
        }
    }
}

impl FieldDirection {
    /// The four infield positions.
    pub open spec fn is_infield(self) -> bool {
        self is ThirdBase || self is Shortstop || self is SecondBase || self is FirstBase
    }

    /// The name of the direction, as shown to the player.
    pub open spec fn label(self) -> Seq<char> {
        match self {
            FieldDirection::LeftField => "LeftField"@,
            FieldDirection::LeftCenter => "LeftCenter"@,
            FieldDirection::CenterField => "CenterField"@,
            FieldDirection::RightCenter => "RightCenter"@,
            FieldDirection::RightField => "RightField"@,
            FieldDirection::ThirdBase => "ThirdBase"@,
            FieldDirection::Shortstop => "Shortstop"@,
            FieldDirection::SecondBase => "SecondBase"@,
            FieldDirection::FirstBase => "FirstBase"@,
        }
    }

    pub fn name(&self) -> (s: &'static str)
        ensures
            s@ == self.label(),
    {
        match self {
            FieldDirection::LeftField => "LeftField",
            FieldDirection::LeftCenter => "LeftCenter",
            FieldDirection::CenterField => "CenterField",
            FieldDirection::RightCenter => "RightCenter",
            FieldDirection::RightField => "RightField",
            FieldDirection::ThirdBase => "ThirdBase",
            FieldDirection::Shortstop => "Shortstop",
            FieldDirection::SecondBase => "SecondBase",
            FieldDirection::FirstBase => "FirstBase",
        }
    }
}

#[derive(Debug, Clone, Copy, PartialEq, Eq, Structural)]
pub enum HitType {
    Single,
    Double,
    Triple,
    HomeRun,
}

impl HitType {
    /// How many bases the batter takes.
    pub open spec fn bases(self) -> int {
        match self {
            HitType::Single => 1,
            HitType::Double => 2,
            HitType::Triple => 3,
            HitType::HomeRun => 4,
        }
    }
}

#[derive(Debug, Clone, Copy, PartialEq, Eq, Structural)]
pub enum OutType {
    Strikeout,
    Groundout,
    Flyout,
    LineOut,
}

/// The outcome of one pitch or of one ball in play.
#[derive(Debug, Clone, Copy, PartialEq, Eq, Structural)]
pub enum PlayResult {
    Strike,
    Ball,
    Foul,
    Hit(HitType),
    Out(OutType),
}

/// How a swing was timed against the arrival of the ball.
#[derive(Debug, Clone, Copy, PartialEq, Eq, Structural)]
pub enum SwingTiming {
    TooEarly,
    Early,
    Perfect,
    Late,
    TooLate,
    NoSwing,
}

/// A batted ball on its way into the field.
#[derive(Debug, Clone, Copy, PartialEq, Eq, Structural)]
pub struct BallInPlay {
    pub ball_type: BallType,
    pub direction: FieldDirection,
    /// Tenths of a mile per hour.
    pub speed: u32,
    /// Frames until the ball lands; 0 for a ball on the ground.
    pub hang_time: u8,
    /// The contact quality of the swing that put the ball in play.
    pub initial_contact_quality: i32,
}

/// A cell of the three-by-three aiming grid, seen from the catcher. The four
/// corners lie outside the strike zone.
#[derive(Debug, Clone, Copy, PartialEq, Eq, Structural)]
pub enum PitchLocation {
    UpInside,
    Up,
    UpOutside,
    Inside,
    Middle,
    Outside,
    DownInside,
    Down,
    DownOutside,
}

impl PitchLocation {
    /// The row of the cell: 0 at the top, 2 at the bottom.
    pub open spec fn row(self) -> int {
        match self {
            PitchLocation::UpInside | PitchLocation::Up | PitchLocation::UpOutside => 0,
            PitchLocation::Inside | PitchLocation::Middle | PitchLocation::Outside => 1,
            PitchLocation::DownInside | PitchLocation::Down | PitchLocation::DownOutside => 2,
        }
    }

    /// The column of the cell: 0 on the inside, 2 on the outside.
    pub open spec fn col(self) -> int {
        match self {
            PitchLocation::UpInside | PitchLocation::Inside | PitchLocation::DownInside => 0,
            PitchLocation::Up | PitchLocation::Middle | PitchLocation::Down => 1,
            PitchLocation::UpOutside | PitchLocation::Outside | PitchLocation::DownOutside => 2,
        }
    }

    /// The cell at a row and a column, each 0 to 2.
    pub open spec fn at(row: int, col: int) -> PitchLocation {
        if row == 0 {
            if col == 0 {
                PitchLocation::UpInside
            } else if col == 1 {
                PitchLocation::Up
            } else {
                PitchLocation::UpOutside
            }
        } else if row == 1 {
            if col == 0 {
                PitchLocation::Inside
            } else if col == 1 {
                PitchLocation::Middle
            } else {
                PitchLocation::Outside
            }
        } else {
            if col == 0 {
                PitchLocation::DownInside
            } else if col == 1 {
                PitchLocation::Down
            } else {
                PitchLocation::DownOutside
            }
        }
    }

    /// The strike zone: the centre and the four edge cells.
    pub open spec fn in_zone(self) -> bool {
        self is Up || self is Inside || self is Middle || self is Outside || self is Down
    }

    /// The cell that a set of pressed directions aims at. Opposite directions
    /// pressed together are not an aim.
    pub open spec fn aimed(up: bool, down: bool, left: bool, right: bool) -> PitchLocation {
        if (up && down) || (left && right) {
            PitchLocation::Middle
        } else {
            PitchLocation::at(
                if up { 0 } else if down { 2 } else { 1 },
                if left { 0 } else if right { 2 } else { 1 },
            )
        }
    }

    /// The cell under a key of the numeric keypad, whose rows run 7-8-9,
    /// 4-5-6, 1-2-3 from the top.
    pub open spec fn keypad(num: u8) -> PitchLocation {
        if 1 <= num <= 9 {
            PitchLocation::at(2 - (num - 1) / 3, (num - 1) % 3)
        } else {
            PitchLocation::Middle
        }
    }

    /// Maps pressed directions to a cell; a contradictory combination aims at
    /// the middle.
    pub fn from_direction(up: bool, down: bool, left: bool, right: bool) -> (loc: Self)
        ensures
            loc == Self::aimed(up, down, left, right),
    {
        match (up, down, left, right) {
            (true, false, true, false) => PitchLocation::UpInside,
            (true, false, false, false) => PitchLocation::Up,
            (true, false, false, true) => PitchLocation::UpOutside,
            (false, false, true, false) => PitchLocation::Inside,
            (false, false, false, false) => PitchLocation::Middle,
            (false, false, false, true) => PitchLocation::Outside,
            (false, true, true, false) => PitchLocation::DownInside,
            (false, true, false, false) => PitchLocation::Down,
            (false, true, false, true) => PitchLocation::DownOutside,
            _ => PitchLocation::Middle,
        }
    }

    /// Maps a keypad digit to its cell; any other number aims at the middle.
    pub fn from_numpad(num: u8) -> (loc: Self)
        ensures
            loc == Self::keypad(num),
    {
        match num {
            7 => PitchLocation::UpInside,
            8 => PitchLocation::Up,
            9 => PitchLocation::UpOutside,
            4 => PitchLocation::Inside,
            5 => PitchLocation::Middle,
            6 => PitchLocation::Outside,
            1 => PitchLocation::DownInside,
            2 => PitchLocation::Down,
            3 => PitchLocation::DownOutside,
            _ => PitchLocation::Middle,
        }
    }

    /// Whether a pitch here is in the strike zone: true of exactly the five
    /// cells that are not corners.
    pub fn is_strike(&self) -> (strike: bool)
        ensures
            strike == self.in_zone(),
            strike <==> !(self.row() != 1 && self.col() != 1),
    {
        !matches!(
            self,
            PitchLocation::UpInside | PitchLocation::UpOutside | PitchLocation::DownInside
                | PitchLocation::DownOutside
        )
    }
}


/// The stage of the current pitch. Exactly one stage is active, and each
/// carries its own countdown or payload.
#[derive(Debug, Clone, Copy, PartialEq, Eq, Structural)]
pub enum PitchState {
    ChoosePitch,
    Aiming { pitch_type: usize },
    PitchClock { frames_left: u16, pitch_type: usize },
    BallApproaching {
        frames_left: u8,
        /// How far the ball has come, in ninetieths of the way to the plate.
        ball_position: u8,
        can_swing: bool,
        pitch_type: usize,
    },
    Swinging { frames_left: u8, swing_timing: SwingTiming },
    Fielding { ball_in_play: BallInPlay, frames_elapsed: u8 },
    ShowResult { result: PlayResult, frames_left: u8 },
}

#[derive(Debug, Clone, Copy, PartialEq, Eq, Structural)]
pub enum TeamInputMode {
    /// No team number is being typed.
    Idle,
    SelectingAway,
    SelectingHome,
}

#[derive(Debug, Clone)]
pub enum GameMode {
    TeamSelection {
        selected_home: Option<String>,
        selected_away: Option<String>,
        input_buffer: String,
        input_mode: TeamInputMode,
    },
    Playing,
}

/// The count, the bases and the score: the part of a game that the rules of
/// baseball move.
#[derive(Debug, Clone, Copy, PartialEq, Eq, Structural)]
pub struct Scoreboard {
    pub inning: u8,
    pub half: InningHalf,
    pub outs: u8,
    pub balls: u8,
    pub strikes: u8,
    pub home_score: u8,
    pub away_score: u8,
    pub first: bool,
    pub second: bool,
    pub third: bool,
    pub current_batter_idx: usize,
    pub game_over: bool,
}

/// How many batters each side sends up before its order starts over.
#[derive(Debug, Clone, Copy, PartialEq, Eq, Structural)]
pub struct OrderSizes {
    pub away: usize,
    pub home: usize,
}

pub open spec fn count_runners(first: bool, second: bool, third: bool) -> int {
    (if first { 1int } else { 0 }) + (if second { 1int } else { 0 }) + (if third { 1int } else { 0 })
}

impl Scoreboard {
    /// Between pitches the count is short of a walk and of a strikeout, and
    /// the side is not yet retired.
    pub open spec fn at_rest(self) -> bool {
        &&& self.outs <= 2
        &&& self.balls <= 3
        &&& self.strikes <= 2
    }

    /// Room on the board for whatever the next play brings: for another
    /// inning where one more out begins one, and on the score of the side at
    /// bat for every runner and the batter.
    pub open spec fn has_room(self) -> bool {
        &&& self.room_for_out()
        &&& self.batting_score() + self.runners() + 1 <= 255
    }

    /// Room for one more out: where it retires the side and another inning
    /// begins, the inning can still be counted.
    pub open spec fn room_for_out(self) -> bool {
        self.outs + 1 >= 3 && self.goes_on() ==> self.inning < 255
    }

    /// Room for one play: for the out that it makes, and on the score of the
    /// side at bat for the runs that it brings home.
    pub open spec fn room_for(self, result: PlayResult) -> bool {
        match result {
            PlayResult::Strike => self.strikes + 1 >= 3 ==> self.room_for_out(),
            PlayResult::Ball => self.balls + 1 >= 4 ==> self.batting_score()
                + self.runs_on_advance(0) <= 255,
            PlayResult::Foul => true,
            PlayResult::Hit(hit) => self.batting_score() + self.runs_on_advance(hit.bases() as u8)
                <= 255,
            PlayResult::Out(_) => self.room_for_out(),
        }
    }

    pub open spec fn runners(self) -> int {
        count_runners(self.first, self.second, self.third)
    }

    /// The score of the side at bat.
    pub open spec fn batting_score(self) -> int {
        match self.half {
            InningHalf::Top => self.away_score as int,
            InningHalf::Bottom => self.home_score as int,
        }
    }

    /// The size of the order of the side at bat.
    pub open spec fn order_size(self, sizes: OrderSizes) -> int {
        match self.half {
            InningHalf::Top => sizes.away as int,
            InningHalf::Bottom => sizes.home as int,
        }
    }

    /// Runs that come home when the batter takes `bases` bases; 0 bases is a
    /// walk, which forces a run only with the bases loaded.
    pub open spec fn runs_on_advance(self, bases: u8) -> int {
        let on_third: int = if self.third { 1 } else { 0 };
        let on_second: int = if self.second { 1 } else { 0 };
        let on_first: int = if self.first { 1 } else { 0 };
        if bases == 0 {
            if self.first && self.second && self.third {
                1
            } else {
                0
            }
        } else if bases == 1 {
            on_third
        } else if bases == 2 {
            on_third + on_second
        } else if bases == 3 {
            on_third + on_second + on_first
        } else if bases == 4 {
            on_third + on_second + on_first + 1
        } else {
            on_third + on_second
        }
    }

    /// The bases and the score once the batter has taken `bases` bases.
    ///
    /// A walk moves only the runners who are forced. A single moves every
    /// runner up one base, a double two, and a triple or a home run brings
    /// everyone home; the batter stops at the base he reached, or scores on
    /// a home run. More than four bases is no play: the runners past first
    /// score and nobody else moves.
    pub open spec fn advanced(self, bases: u8) -> Scoreboard {
        let runs = self.runs_on_advance(bases);
        let moved = if bases == 0 {
            Scoreboard {
                first: true,
                second: self.first || self.second,
                third: self.third || (self.first && self.second),
                ..self
            }
        } else if bases == 1 {
            Scoreboard { first: true, second: self.first, third: self.second, ..self }
        } else if bases == 2 {
            Scoreboard { first: false, second: true, third: self.first, ..self }
        } else if bases == 3 {
            Scoreboard { first: false, second: false, third: true, ..self }
        } else if bases == 4 {
            Scoreboard { first: false, second: false, third: false, ..self }
        } else {
            Scoreboard { first: self.first, second: false, third: false, ..self }
        };
        match self.half {
            InningHalf::Top => Scoreboard {
                away_score: (self.away_score + runs) as u8,
                ..moved
            },
            InningHalf::Bottom => Scoreboard {
                home_score: (self.home_score + runs) as u8,
                ..moved
            },
        }
    }

    /// The next batter comes up with a fresh count.
    pub open spec fn next_batter(self, sizes: OrderSizes) -> Scoreboard {
        Scoreboard {
            current_batter_idx: if self.order_size(sizes) > 0 {
                ((self.current_batter_idx + 1) % self.order_size(sizes)) as usize
            } else {
                self.current_batter_idx
            },
            balls: 0,
            strikes: 0,
            ..self
        }
    }

    /// Whether the game is decided when this half inning ends: it is the
    /// bottom of the ninth or later and the score is not tied.
    pub open spec fn decided(self) -> bool {
        self.half == InningHalf::Bottom && self.inning >= 9 && self.home_score != self.away_score
    }

    /// Whether the end of this half inning begins another inning: the home
    /// team has batted and the game is not decided.
    pub open spec fn goes_on(self) -> bool {
        self.half == InningHalf::Bottom && !self.decided()
    }

    /// Whether one more out now ends the game.
    pub open spec fn on_last_out(self) -> bool {
        self.outs + 1 >= 3 && self.decided()
    }

    /// The side is retired. After the top half the home team bats. After the
    /// bottom half of the ninth or a later inning the game is over unless
    /// the score is tied; otherwise the next inning begins. Outs and bases
    /// are cleared either way, and the next batter comes up.
    pub open spec fn half_ended(self, sizes: OrderSizes) -> Scoreboard {
        let turned = match self.half {
            InningHalf::Top => Scoreboard { half: InningHalf::Bottom, ..self },
            InningHalf::Bottom => {
                if self.inning >= 9 && self.home_score != self.away_score {
                    Scoreboard { game_over: true, ..self }
                } else {
                    Scoreboard {
                        inning: (self.inning + 1) as u8,
                        half: InningHalf::Top,
                        ..self
                    }
                }
            },
        };
        Scoreboard { outs: 0, first: false, second: false, third: false, ..turned }.next_batter(
            sizes,
        )
    }

    /// One more out: the third retires the side, an earlier one brings up the
    /// next batter.
    pub open spec fn out_made(self, sizes: OrderSizes) -> Scoreboard {
        let counted = Scoreboard { outs: (self.outs + 1) as u8, ..self };
        if counted.outs >= 3 {
            counted.half_ended(sizes)
        } else {
            counted.next_batter(sizes)
        }
    }

    /// Ball four: the runners who are forced move up and the batter takes
    /// first.
    pub open spec fn walked(self, sizes: OrderSizes) -> Scoreboard {
        self.advanced(0).next_batter(sizes)
    }

    /// The board after a resolved play.
    pub open spec fn applied(self, result: PlayResult, sizes: OrderSizes) -> Scoreboard {
        match result {
            PlayResult::Strike => {
                let counted = Scoreboard { strikes: (self.strikes + 1) as u8, ..self };
                if counted.strikes >= 3 {
                    counted.out_made(sizes)
                } else {
                    counted
                }
            },
            PlayResult::Ball => {
                let counted = Scoreboard { balls: (self.balls + 1) as u8, ..self };
                if counted.balls >= 4 {
                    counted.walked(sizes)
                } else {
                    counted
                }
            },
            PlayResult::Foul => {
                if self.strikes < 2 {
                    Scoreboard { strikes: (self.strikes + 1) as u8, ..self }
                } else {
                    self
                }
            },
            PlayResult::Hit(hit) => self.advanced(hit.bases() as u8).next_batter(sizes),
            PlayResult::Out(_) => self.out_made(sizes),
        }
    }
}

/// A ball adds one to the count until the fourth, which is a walk: the count
/// is cleared and the next batter comes up. The count never shows four balls.
pub proof fn lemma_ball_count(b: Scoreboard, sizes: OrderSizes)
    requires
        b.at_rest(),
    ensures
        b.balls < 3 ==> b.applied(PlayResult::Ball, sizes) == (Scoreboard {
            balls: (b.balls + 1) as u8,
            ..b
        }),
        b.balls == 3 ==> b.applied(PlayResult::Ball, sizes) == (Scoreboard {
            balls: 4,
            ..b
        }).walked(sizes),
        b.balls == 3 ==> b.applied(PlayResult::Ball, sizes).balls == 0,
        b.applied(PlayResult::Ball, sizes).balls <= 3,
{
}

/// A strike adds one to the count, and so does a foul with fewer than two
/// strikes; a foul with two strikes changes nothing. The third strike, and
/// only a strike, is a strikeout: an out is made and the count is cleared.
pub proof fn lemma_strike_count(b: Scoreboard, sizes: OrderSizes)
    requires
        b.at_rest(),
    ensures
        b.strikes < 2 ==> b.applied(PlayResult::Strike, sizes) == (Scoreboard {
            strikes: (b.strikes + 1) as u8,
            ..b
        }),
        b.strikes < 2 ==> b.applied(PlayResult::Foul, sizes) == (Scoreboard {
            strikes: (b.strikes + 1) as u8,
            ..b
        }),
        b.strikes == 2 ==> b.applied(PlayResult::Foul, sizes) == b,
        b.strikes == 2 ==> b.applied(PlayResult::Strike, sizes) == (Scoreboard {
            strikes: 3,
            ..b
        }).out_made(sizes),
        b.strikes == 2 ==> b.applied(PlayResult::Strike, sizes).strikes == 0,
        b.applied(PlayResult::Strike, sizes).strikes <= 2,
        b.applied(PlayResult::Foul, sizes).strikes <= 2,
{
}

/// Nobody is lost or made up on a hit or a walk: the runs that score plus
/// the runners left on base are at most the runners before plus the batter.
pub proof fn lemma_runners_conserved(b: Scoreboard, bases: u8)
    ensures
        b.runs_on_advance(bases) + b.advanced(bases).runners() <= b.runners() + 1,
        1 <= bases <= 4 ==> b.runs_on_advance(bases) + b.advanced(bases).runners() == b.runners()
            + 1,
        0 <= b.runs_on_advance(bases) <= 4,
{
}

/// The third out clears the outs and the bases in the same step.
pub proof fn lemma_third_out(b: Scoreboard, sizes: OrderSizes)
    requires
        b.outs == 2,
    ensures
        b.out_made(sizes).outs == 0,
        !b.out_made(sizes).first && !b.out_made(sizes).second && !b.out_made(sizes).third,
        b.out_made(sizes).balls == 0 && b.out_made(sizes).strikes == 0,
{
}

/// When the bottom half of the ninth or a later inning ends, the game is
/// over if one side leads; with the score tied the next inning begins with
/// the visitors at bat.
pub proof fn lemma_end_of_game(b: Scoreboard, sizes: OrderSizes)
    requires
        b.inning >= 9,
        b.home_score == b.away_score ==> b.inning < 255,
        b.half == InningHalf::Bottom,
        b.outs == 2,
    ensures
        b.home_score != b.away_score ==> b.out_made(sizes).game_over && b.out_made(sizes).inning
            == b.inning,
        b.home_score == b.away_score ==> {
            &&& b.out_made(sizes).game_over == b.game_over
            &&& b.out_made(sizes).inning == b.inning + 1
            &&& b.out_made(sizes).half == InningHalf::Top
        },
{
}

/// A play leaves the board at rest: never four balls, three strikes or three
/// outs.
pub proof fn lemma_applied_at_rest(b: Scoreboard, result: PlayResult, sizes: OrderSizes)
    requires
        b.at_rest(),
    ensures
        b.applied(result, sizes).at_rest(),
{
}

/// A board with room has room for every play.
pub proof fn lemma_room_for_every_play(b: Scoreboard, result: PlayResult)
    requires
        b.has_room(),
    ensures
        b.room_for(result),
{
}


/// The text shown when the game ends.
pub open spec fn game_over_message(home: u8, away: u8) -> Seq<char> {
    "Game Over! Final Score - Home: "@ + decimal(home as nat) + " Away: "@ + decimal(away as nat)
}

/// One game in progress.
#[derive(Debug, Clone)]
pub struct GameState {
    pub mode: GameMode,
    pub team_manager: TeamManager,
    /// Abbreviation of the home team, once chosen.
    pub home_team: Option<String>,
    /// Abbreviation of the visiting team, once chosen.
    pub away_team: Option<String>,
    pub inning: u8,
    pub half: InningHalf,
    pub outs: u8,
    pub balls: u8,
    pub strikes: u8,
    pub home_score: u8,
    pub away_score: u8,
    /// Whether first, second and third base are occupied.
    pub bases: [bool; 3],
    pub current_batter_idx: usize,
    pub pitch_state: PitchState,
    pub pitch_location: Option<PitchLocation>,
    pub swing_location: Option<PitchLocation>,
    pub swing_timing: SwingTiming,
    pub message: String,
    pub game_over: bool,
    pub quit_requested: bool,
    /// The fielder under the player's control while a ball is in play.
    pub fielding_cursor: Option<FieldDirection>,
}

impl GameState {
    /// The count, the bases and the score.
    pub open spec fn board(&self) -> Scoreboard {
        Scoreboard {
            inning: self.inning,
            half: self.half,
            outs: self.outs,
            balls: self.balls,
            strikes: self.strikes,
            home_score: self.home_score,
            away_score: self.away_score,
            first: self.bases[0],
            second: self.bases[1],
            third: self.bases[2],
            current_batter_idx: self.current_batter_idx,
            game_over: self.game_over,
        }
    }

    /// Where a chosen team stands among the loaded ones.
    pub open spec fn team_position(&self, chosen: Option<String>) -> Option<int> {
        match chosen {
            Some(abbr) => self.team_manager.position(abbr@),
            None => None,
        }
    }

    /// Where the side at bat stands among the loaded teams.
    pub open spec fn batting_position(&self) -> Option<int> {
        match self.half {
            InningHalf::Top => self.team_position(self.away_team),
            InningHalf::Bottom => self.team_position(self.home_team),
        }
    }

    /// Where the side in the field stands among the loaded teams.
    pub open spec fn pitching_position(&self) -> Option<int> {
        match self.half {
            InningHalf::Top => self.team_position(self.home_team),
            InningHalf::Bottom => self.team_position(self.away_team),
        }
    }

    /// The batter at the plate, if the side at bat is loaded and has batters.
    pub open spec fn batter_at_plate(&self) -> Option<Player> {
        match self.batting_position() {
            Some(i) => {
                let team = self.team_manager.teams@[i];
                if team.batters@.len() == 0 {
                    None
                } else {
                    Some(
                        team.batters@[(self.current_batter_idx as int) % (
                        team.batters@.len() as int)],
                    )
                }
            },
            None => None,
        }
    }

    /// The pitcher on the mound, if the side in the field is loaded and has
    /// one.
    pub open spec fn pitcher_on_mound(&self) -> Option<Player> {
        match self.pitching_position() {
            Some(i) => {
                let team = self.team_manager.teams@[i];
                if team.current_pitcher_idx < team.pitchers@.len() {
                    Some(team.pitchers@[team.current_pitcher_idx as int])
                } else {
                    None
                }
            },
            None => None,
        }
    }

    /// The fatigue multiplier of the pitcher on the mound, in hundredths; a
    /// side that is not loaded pitches at full strength.
    pub open spec fn fatigue(&self) -> u32 {
        match self.pitching_position() {
            Some(i) => fatigue_band(self.team_manager.teams@[i].pitcher_stamina as nat) as u32,
            None => 100,
        }
    }

    /// The size of a chosen team's order; nine where the team is not loaded.
    pub open spec fn order_size_of(&self, chosen: Option<String>) -> usize {
        match self.team_position(chosen) {
            Some(i) => self.team_manager.teams@[i].order_size() as usize,
            None => 9,
        }
    }

    pub open spec fn sizes(&self) -> OrderSizes {
        OrderSizes {
            away: self.order_size_of(self.away_team),
            home: self.order_size_of(self.home_team),
        }
    }

    /// The state is between pitches, with room on the board for whatever the
    /// next play brings, and on every pitch counter for another pitch.
    pub open spec fn ready(&self) -> bool {
        &&& self.board().at_rest()
        &&& self.board().has_room()
        &&& forall|i: int|
            0 <= i < self.team_manager.teams@.len() ==> (
            #[trigger] self.team_manager.teams@[i]).pitches_thrown < u32::MAX
    }

    /// Whether `ready` holds.
    pub fn is_ready(&self) -> (yes: bool)
        ensures
            yes == self.ready(),
    {
        if self.outs > 2 || self.balls > 3 || self.strikes > 2 {
            return false;
        }
        let decided = self.inning >= INNINGS_PER_GAME && self.home_score != self.away_score;
        let bottom = match self.half {
            InningHalf::Top => false,
            InningHalf::Bottom => true,
        };
        if self.outs == 2 && bottom && !decided && self.inning == u8::MAX {
            return false;
        }
        let score: u8 = if bottom {
            self.home_score
        } else {
            self.away_score
        };
        let mut runners: u8 = 0;
        if self.bases[0] {
            runners = runners + 1;
        }
        if self.bases[1] {
            runners = runners + 1;
        }
        if self.bases[2] {
            runners = runners + 1;
        }
        if score > u8::MAX - 1 - runners {
            return false;
        }
        let mut i: usize = 0;
        while i < self.team_manager.teams.len()
            invariant
                i <= self.team_manager.teams@.len(),
                forall|j: int|
                    0 <= j < i ==> (#[trigger] self.team_manager.teams@[j]).pitches_thrown
                        < u32::MAX,
            decreases self.team_manager.teams@.len() - i,
        {
            if self.team_manager.teams[i].pitches_thrown == u32::MAX {
                return false;
            }
            i = i + 1;
        }
        true
    }

    /// The two states differ at most in the board, the stage of the pitch,
    /// the two aims and the message.
    pub open spec fn same_setting(&self, other: &GameState) -> bool {
        &&& self.mode == other.mode
        &&& self.team_manager == other.team_manager
        &&& self.home_team == other.home_team
        &&& self.away_team == other.away_team
        &&& self.swing_timing == other.swing_timing
        &&& self.quit_requested == other.quit_requested
        &&& self.fielding_cursor == other.fielding_cursor
    }

    /// The two states agree on the stage of the pitch and on both aims.
    pub open spec fn same_pitch(&self, other: &GameState) -> bool {
        &&& self.pitch_state == other.pitch_state
        &&& self.pitch_location == other.pitch_location
        &&& self.swing_location == other.swing_location
    }

    /// A fresh game, waiting for the teams to be chosen.
    pub fn new() -> (state: Self)
        ensures
            state.board() == (Scoreboard {
                inning: 1,
                half: InningHalf::Top,
                outs: 0,
                balls: 0,
                strikes: 0,
                home_score: 0,
                away_score: 0,
                first: false,
                second: false,
                third: false,
                current_batter_idx: 0,
                game_over: false,
            }),
            state.mode matches GameMode::TeamSelection {
                selected_home,
                selected_away,
                input_buffer,
                input_mode,
            } && selected_home is None && selected_away is None && input_buffer@.len() == 0
                && input_mode == TeamInputMode::Idle,
            state.team_manager.teams@.len() == 0,
            state.home_team is None,
            state.away_team is None,
            state.pitch_state == PitchState::ChoosePitch,
            state.pitch_location is None,
            state.swing_location is None,
            state.swing_timing == SwingTiming::NoSwing,
            state.message@ == "Select teams to start playing!"@,
            !state.quit_requested,
            state.fielding_cursor is None,
    {
        let mut team_manager = TeamManager::new();
        let _ = team_manager.load_teams();
        Self {
            mode: GameMode::TeamSelection {
                selected_home: None,
                selected_away: None,
                input_buffer: String::new(),
                input_mode: TeamInputMode::Idle,
            },
            team_manager,
            home_team: None,
            away_team: None,
            inning: 1,
            half: InningHalf::Top,
            outs: 0,
            balls: 0,
            strikes: 0,
            home_score: 0,
            away_score: 0,
            bases: [false, false, false],
            current_batter_idx: 0,
            pitch_state: PitchState::ChoosePitch,
            pitch_location: None,
            swing_location: None,
            swing_timing: SwingTiming::NoSwing,
            message: String::from_str("Select teams to start playing!"),
            game_over: false,
            quit_requested: false,
            fielding_cursor: None,
        }
    }

    /// Leaves team selection and starts play between the two teams.
    pub fn start_game(&mut self, home_team: String, away_team: String)
        ensures
            final(self).home_team == Some(home_team),
            final(self).away_team == Some(away_team),
            final(self).mode is Playing,
            final(self).message@ == "Choose your pitch!"@,
            final(self).board() == old(self).board(),
            final(self).same_pitch(old(self)),
            final(self).team_manager == old(self).team_manager,
            final(self).swing_timing == old(self).swing_timing,
            final(self).quit_requested == old(self).quit_requested,
            final(self).fielding_cursor == old(self).fielding_cursor,
    {
        self.home_team = Some(home_team);
        self.away_team = Some(away_team);
        self.mode = GameMode::Playing;
        self.message = String::from_str("Choose your pitch!");
    }

    /// The team at bat, if it is chosen and loaded.
    pub fn get_current_batting_team(&self) -> (team: Option<&Team>)
        ensures
            match self.batting_position() {
                Some(i) => 0 <= i < self.team_manager.teams@.len() && team == Some(
                    &self.team_manager.teams@[i],
                ),
                None => team is None,
            },
    {
        let chosen = match self.half {
            InningHalf::Top => &self.away_team,
            InningHalf::Bottom => &self.home_team,
        };
        match chosen {
            Some(abbr) => self.team_manager.get_team(abbr.as_str()),
            None => None,
        }
    }

    /// The team in the field, if it is chosen and loaded.
    pub fn get_current_pitching_team(&self) -> (team: Option<&Team>)
        ensures
            match self.pitching_position() {
                Some(i) => 0 <= i < self.team_manager.teams@.len() && team == Some(
                    &self.team_manager.teams@[i],
                ),
                None => team is None,
            },
    {
        let chosen = match self.half {
            InningHalf::Top => &self.home_team,
            InningHalf::Bottom => &self.away_team,
        };
        match chosen {
            Some(abbr) => self.team_manager.get_team(abbr.as_str()),
            None => None,
        }
    }

    /// The batter at the plate.
    pub fn get_current_batter(&self) -> (batter: Option<&Player>)
        ensures
            owned(batter) == self.batter_at_plate(),
    {
        match self.get_current_batting_team() {
            Some(team) => team.get_batter(self.current_batter_idx),
            None => None,
        }
    }

    /// The pitcher on the mound.
    pub fn get_current_pitcher(&self) -> (pitcher: Option<&Player>)
        ensures
            owned(pitcher) == self.pitcher_on_mound(),
    {
        match self.get_current_pitching_team() {
            Some(team) => team.get_current_pitcher(),
            None => None,
        }
    }

    /// The index of the team in the field among the loaded teams.
    pub fn pitching_index(&self) -> (index: Option<usize>)
        ensures
            index matches Some(i) ==> i < self.team_manager.teams@.len()
                && self.pitching_position() == Some(i as int),
            index is None ==> self.pitching_position() is None,
    {
        let chosen = match self.half {
            InningHalf::Top => &self.home_team,
            InningHalf::Bottom => &self.away_team,
        };
        match chosen {
            Some(abbr) => self.team_manager.team_index(abbr.as_str()),
            None => None,
        }
    }

    /// The team in the field, to be changed in place.
    pub fn get_current_pitching_team_mut(&mut self) -> (team: Option<&mut Team>)
        ensures
            match old(self).pitching_position() {
                Some(i) => {
                    &&& 0 <= i < old(self).team_manager.teams@.len()
                    &&& team matches Some(t)
                    &&& *t == old(self).team_manager.teams@[i]
                    &&& final(self).team_manager.teams@ == old(self).team_manager.teams@.update(
                        i,
                        *final(t),
                    )
                },
                None => team is None && final(self).team_manager == old(self).team_manager,
            },
            final(self).board() == old(self).board(),
            final(self).same_pitch(old(self)),
            final(self).message == old(self).message,
            final(self).mode == old(self).mode,
            final(self).home_team == old(self).home_team,
            final(self).away_team == old(self).away_team,
    {
        match self.pitching_index() {
            Some(i) => Some(&mut self.team_manager.teams[i]),
            None => None,
        }
    }

    /// "Away" in the top half, "Home" in the bottom half.
    pub fn batting_team(&self) -> (side: &str)
        ensures
            self.half == InningHalf::Top ==> side@ == "Away"@,
            self.half == InningHalf::Bottom ==> side@ == "Home"@,
    {
        match self.half {
            InningHalf::Top => "Away",
            InningHalf::Bottom => "Home",
        }
    }

    /// The size of the order of the side at bat.
    fn current_order_size(&self) -> (n: usize)
        ensures
            n == self.board().order_size(self.sizes()),
            1 <= n <= 9,
    {
        match self.get_current_batting_team() {
            Some(team) => team.batting_order_size(),
            None => 9,
        }
    }

    /// Brings up the next batter: the count is cleared and the pitch starts
    /// over from the choice of a pitch.
    pub fn advance_batter(&mut self)
        ensures
            final(self).board() == old(self).board().next_batter(old(self).sizes()),
            final(self).pitch_state == PitchState::ChoosePitch,
            final(self).pitch_location is None,
            final(self).swing_location is None,
            final(self).message == old(self).message,
            final(self).same_setting(old(self)),
    {
        let n = self.current_order_size();
        let i = self.current_batter_idx % n;
        proof {
            lemma_add_mod_noop(self.current_batter_idx as int, 1, n as int);
            if n > 1 {
                lemma_small_mod(1, n as nat);
            } else {
                assert((self.current_batter_idx + 1) % 1 == 0);
            }
            if i + 1 < n {
                lemma_small_mod((i + 1) as nat, n as nat);
            } else {
                lemma_mod_self_0(n as int);
            }
        }
        self.current_batter_idx = if i + 1 < n {
            i + 1
        } else {
            0
        };
        self.balls = 0;
        self.strikes = 0;
        self.pitch_state = PitchState::ChoosePitch;
        self.pitch_location = None;
        self.swing_location = None;
    }

    /// Records an out. The third out ends the half inning.
    pub fn add_out(&mut self)
        requires
            old(self).outs < u8::MAX,
            old(self).board().room_for_out(),
        ensures
            final(self).board() == old(self).board().out_made(old(self).sizes()),
            final(self).pitch_state == PitchState::ChoosePitch,
            final(self).pitch_location is None,
            final(self).swing_location is None,
            old(self).board().on_last_out() ==> final(self).message@ == game_over_message(
                old(self).home_score,
                old(self).away_score,
            ),
            !old(self).board().on_last_out() ==> final(self).message == old(self).message,
            final(self).same_setting(old(self)),
    {
        self.outs = self.outs + 1;
        if self.outs >= MAX_OUTS {
            self.end_half_inning();
        } else {
            self.advance_batter();
        }
    }

    /// Ends the half inning: the sides change, or the game ends after the
    /// bottom of the ninth or later with one side ahead. Outs and bases are
    /// cleared and the next batter comes up.
    pub fn end_half_inning(&mut self)
        requires
            old(self).board().goes_on() ==> old(self).inning < u8::MAX,
        ensures
            final(self).board() == old(self).board().half_ended(old(self).sizes()),
            final(self).pitch_state == PitchState::ChoosePitch,
            final(self).pitch_location is None,
            final(self).swing_location is None,
            old(self).board().decided() ==> final(self).message@ == game_over_message(
                old(self).home_score,
                old(self).away_score,
            ),
            !old(self).board().decided() ==> final(self).message == old(self).message,
            final(self).same_setting(old(self)),
    {
        match self.half {
            InningHalf::Top => {
                self.half = InningHalf::Bottom;
            },
            InningHalf::Bottom => {
                if self.inning >= INNINGS_PER_GAME && self.home_score != self.away_score {
                    self.game_over = true;
                    let mut text = String::from_str("Game Over! Final Score - Home: ");
                    text.append(decimal_string(self.home_score as u64).as_str());
                    text.append(" Away: ");
                    text.append(decimal_string(self.away_score as u64).as_str());
                    self.message = text;
                } else {
                    self.inning = self.inning + 1;
                    self.half = InningHalf::Top;
                }
            },
        }
        self.outs = 0;
        self.bases = [false, false, false];
        self.advance_batter();
    }

    /// Ball four: the batter takes first and forces the runners ahead of him.
    pub fn add_walk(&mut self)
        requires
            old(self).board().batting_score() + old(self).board().runs_on_advance(0) <= u8::MAX,
        ensures
            final(self).board() == old(self).board().walked(old(self).sizes()),
            final(self).pitch_state == PitchState::ChoosePitch,
            final(self).pitch_location is None,
            final(self).swing_location is None,
            final(self).message@ == "Ball 4! Walk!"@,
            final(self).same_setting(old(self)),
    {
        self.message = String::from_str("Ball 4! Walk!");
        self.advance_runners(0);
        self.advance_batter();
    }

    /// Strike three: the batter is out.
    pub fn add_strikeout(&mut self)
        requires
            old(self).outs < u8::MAX,
            old(self).board().room_for_out(),
        ensures
            final(self).board() == old(self).board().out_made(old(self).sizes()),
            final(self).pitch_state == PitchState::ChoosePitch,
            final(self).pitch_location is None,
            final(self).swing_location is None,
            old(self).board().on_last_out() ==> final(self).message@ == game_over_message(
                old(self).home_score,
                old(self).away_score,
            ),
            !old(self).board().on_last_out() ==> final(self).message@ == "Strike 3! You're out!"@,
            final(self).same_setting(old(self)),
    {
        self.message = String::from_str("Strike 3! You're out!");
        self.add_out();
    }

    /// Moves the runners for a batter who takes `bases_to_advance` bases (0
    /// for a walk), puts the batter on base and adds the runs to the score of
    /// the side at bat.
    pub fn advance_runners(&mut self, bases_to_advance: u8)
        requires
            old(self).board().batting_score() + old(self).board().runs_on_advance(bases_to_advance)
                <= u8::MAX,
        ensures
            final(self).board() == old(self).board().advanced(bases_to_advance),
            final(self).same_pitch(old(self)),
            final(self).message == old(self).message,
            final(self).same_setting(old(self)),
    {
        let mut first = self.bases[0];
        let mut second = self.bases[1];
        let mut third = self.bases[2];
        let mut runners_scored: u8 = 0;

        // Lead runner first, so that nobody is overwritten.
        if third {
            if bases_to_advance > 0 {
                runners_scored = runners_scored + 1;
                third = false;
            }
        }
        if second {
            if bases_to_advance >= 2 {
                runners_scored = runners_scored + 1;
                second = false;
            } else if bases_to_advance == 1 {
                third = true;
                second = false;
            }
        }
        if first {
            match bases_to_advance {
                0 => {
                    if second {
                        if third {
                            runners_scored = runners_scored + 1;
                        } else {
                            third = true;
                        }
                    }
                    second = true;
                },
                1 => {
                    if !second {
                        second = true;
                        first = false;
                    }
                },
                2 => {
                    third = true;
                    first = false;
                },
                3 | 4 => {
                    runners_scored = runners_scored + 1;
                    first = false;
                },
                _ => {},
            }
        }
        match bases_to_advance {
            0 => first = true,
            1 => first = true,
            2 => second = true,
            3 => third = true,
            4 => runners_scored = runners_scored + 1,
            _ => {},
        }
        self.bases = [first, second, third];
        match self.half {
            InningHalf::Top => self.away_score = self.away_score + runners_scored,
            InningHalf::Bottom => self.home_score = self.home_score + runners_scored,
        }
    }
}

} // verus!
