//! The situation of a simulated game: runners, count, inning and score.

use crate::text::{decimal, decimal_string};
use vstd::prelude::*;
use vstd::string::*;

verus! {

#[derive(Debug, Clone, Copy, PartialEq, Eq, Structural)]
pub enum Base {
    First,
    Second,
    Third,
}

/// Who stands on which base, by player id.
#[derive(Debug, Clone)]
pub struct BaseRunners {
    pub first: Option<String>,
    pub second: Option<String>,
    pub third: Option<String>,
}

impl BaseRunners {
    /// The runner on a base.
    pub open spec fn on(self, base: Base) -> Option<String> {
        match base {
            Base::First => self.first,
            Base::Second => self.second,
            Base::Third => self.third,
        }
    }

    /// The runners with one base given a new occupant, or none.
    pub open spec fn with(self, base: Base, runner: Option<String>) -> BaseRunners {
        match base {
            Base::First => BaseRunners { first: runner, ..self },
            Base::Second => BaseRunners { second: runner, ..self },
            Base::Third => BaseRunners { third: runner, ..self },
        }
    }

    /// The occupied bases, from first to third.
    pub open spec fn occupied(self) -> Seq<Base> {
        (if self.first is Some {
            seq![Base::First]
        } else {
            Seq::<Base>::empty()
        }) + (if self.second is Some {
            seq![Base::Second]
        } else {
            Seq::<Base>::empty()
        }) + (if self.third is Some {
            seq![Base::Third]
        } else {
            Seq::<Base>::empty()
        })
    }

    pub fn new() -> (runners: Self)
        ensures
            runners.first is None,
            runners.second is None,
            runners.third is None,
    {
        Self { first: None, second: None, third: None }
    }

    pub fn clear(&mut self)
        ensures
            final(self).first is None,
            final(self).second is None,
            final(self).third is None,
    {
        self.first = None;
        self.second = None;
        self.third = None;
    }

    pub fn get_runner(&self, base: Base) -> (runner: Option<&String>)
        ensures
            match self.on(base) {
                Some(id) => runner == Some(&id),
                None => runner is None,
            },
    {
        match base {
            Base::First => self.first.as_ref(),
            Base::Second => self.second.as_ref(),
            Base::Third => self.third.as_ref(),
        }
    }

    pub fn set_runner(&mut self, base: Base, player_id: Option<String>)
        ensures
            *final(self) == old(self).with(base, player_id),
    {
        match base {
            Base::First => self.first = player_id,
            Base::Second => self.second = player_id,
            Base::Third => self.third = player_id,
        }
    }

    /// Takes the runner off a base and, if he is not out or home, puts him on
    /// another. Whoever stood there is replaced; with nobody on the base left,
    /// the base reached is emptied. Returns the runner.
    pub fn advance_runner(&mut self, from_base: Base, to_base: Option<Base>) -> (runner: Option<
        String,
    >)
        ensures
            runner == old(self).on(from_base),
            *final(self) == match to_base {
                Some(to) => old(self).with(from_base, None).with(to, runner),
                None => old(self).with(from_base, None),
            },
    {
        let runner = match from_base {
            Base::First => self.first.take(),
            Base::Second => self.second.take(),
            Base::Third => self.third.take(),
        };
        match to_base {
            Some(to) => {
                self.set_runner(to, runner.clone());
            },
            None => {},
        }
        runner
    }

    pub fn runners_on_base(&self) -> (bases: Vec<Base>)
        ensures
            bases@ == self.occupied(),
    {
        let mut runners: Vec<Base> = Vec::new();
        if self.first.is_some() {
            runners.push(Base::First);
        }
        if self.second.is_some() {
            runners.push(Base::Second);
        }
        if self.third.is_some() {
            runners.push(Base::Third);
        }
        assert(runners@ =~= self.occupied());
        runners
    }

    pub fn count_runners(&self) -> (n: u8)
        ensures
            n == self.occupied().len(),
            n <= 3,
    {
        self.runners_on_base().len() as u8
    }

    pub fn is_bases_loaded(&self) -> (yes: bool)
        ensures
            yes == (self.first is Some && self.second is Some && self.third is Some),
    {
        self.first.is_some() && self.second.is_some() && self.third.is_some()
    }

    /// A runner on second or third.
    pub fn is_scoring_position(&self) -> (yes: bool)
        ensures
            yes == (self.second is Some || self.third is Some),
    {
        self.second.is_some() || self.third.is_some()
    }
}

#[derive(Debug, Clone, Copy, PartialEq, Eq, Structural)]
pub enum GamePhase {
    PreGame,
    Playing,
    PitchingChange,
    ManagerDecision,
    GameOver,
    Paused,
}

#[derive(Debug, Clone, Copy, PartialEq, Eq, Structural)]
pub enum InningHalf {
    Top,
    Bottom,
}

/// Balls and strikes on the batter.
#[derive(Debug, Clone, Copy, PartialEq, Eq, Structural)]
pub struct Count {
    pub balls: u8,
    pub strikes: u8,
}

impl Count {
    pub fn new() -> (count: Self)
        ensures
            count.balls == 0,
            count.strikes == 0,
    {
        Self { balls: 0, strikes: 0 }
    }

    /// Three balls and two strikes.
    pub fn is_full_count(&self) -> (yes: bool)
        ensures
            yes == (self.balls == 3 && self.strikes == 2),
    {
        self.balls == 3 && self.strikes == 2
    }

    /// Counts a ball; true if it is ball four.
    pub fn add_ball(&mut self) -> (walk: bool)
        requires
            old(self).balls < u8::MAX,
        ensures
            final(self).balls == old(self).balls + 1,
            final(self).strikes == old(self).strikes,
            walk == (final(self).balls >= 4),
    {
        self.balls = self.balls + 1;
        self.balls >= 4
    }

    /// Counts a strike; true if it is strike three.
    pub fn add_strike(&mut self) -> (out: bool)
        requires
            old(self).strikes < u8::MAX,
        ensures
            final(self).strikes == old(self).strikes + 1,
            final(self).balls == old(self).balls,
            out == (final(self).strikes >= 3),
    {
        self.strikes = self.strikes + 1;
        self.strikes >= 3
    }

    pub fn reset(&mut self)
        ensures
            final(self).balls == 0,
            final(self).strikes == 0,
    {
        self.balls = 0;
        self.strikes = 0;
    }

    /// The count as it is called: balls, a dash, strikes.
    pub fn display(&self) -> (text: String)
        ensures
            text@ == decimal(self.balls as nat) + "-"@ + decimal(self.strikes as nat),
    {
        let mut text = decimal_string(self.balls as u64);
        text.append("-");
        text.append(decimal_string(self.strikes as u64).as_str());
        text
    }
}

/// Where a game stands between two plays.
#[derive(Debug, Clone)]
pub struct GameSituation {
    pub inning: u8,
    pub inning_half: InningHalf,
    pub outs: u8,
    pub count: Count,
    pub runners: BaseRunners,
    pub current_batter_id: String,
    pub current_pitcher_id: String,
    /// The batter's place in the order, 1 to 9.
    pub batter_number: u8,
}

impl GameSituation {
    /// The start of a game: top of the first, nobody out, nobody on.
    pub fn new() -> (situation: Self)
        ensures
            situation.inning == 1,
            situation.inning_half == InningHalf::Top,
            situation.outs == 0,
            situation.count == (Count { balls: 0, strikes: 0 }),
            situation.runners.first is None,
            situation.runners.second is None,
            situation.runners.third is None,
            situation.current_batter_id@.len() == 0,
            situation.current_pitcher_id@.len() == 0,
            situation.batter_number == 1,
    {
        Self {
            inning: 1,
            inning_half: InningHalf::Top,
            outs: 0,
            count: Count::new(),
            runners: BaseRunners::new(),
            current_batter_id: String::new(),
            current_pitcher_id: String::new(),
            batter_number: 1,
        }
    }

    pub fn is_inning_over(&self) -> (over: bool)
        ensures
            over == (self.outs >= 3),
    {
        self.outs >= 3
    }

    /// Goes on to the next half inning: the bottom of the same inning after
    /// the top, the top of the next after the bottom. Outs, runners and count
    /// are cleared.
    pub fn advance_inning(&mut self)
        requires
            old(self).inning_half == InningHalf::Bottom ==> old(self).inning < u8::MAX,
        ensures
            old(self).inning_half == InningHalf::Top ==> final(self).inning == old(self).inning
                && final(self).inning_half == InningHalf::Bottom,
            old(self).inning_half == InningHalf::Bottom ==> final(self).inning == old(self).inning
                + 1 && final(self).inning_half == InningHalf::Top,
            final(self).outs == 0,
            final(self).count == (Count { balls: 0, strikes: 0 }),
            final(self).runners.first is None,
            final(self).runners.second is None,
            final(self).runners.third is None,
            final(self).current_batter_id == old(self).current_batter_id,
            final(self).current_pitcher_id == old(self).current_pitcher_id,
            final(self).batter_number == old(self).batter_number,
    {
        match self.inning_half {
            InningHalf::Top => {
                self.inning_half = InningHalf::Bottom;
            },
            InningHalf::Bottom => {
                self.inning = self.inning + 1;
                self.inning_half = InningHalf::Top;
            },
        }
        self.outs = 0;
        self.runners.clear();
        self.count.reset();
    }

    /// Brings up the next place in the order; after the ninth comes the
    /// first. The count is cleared.
    pub fn advance_batter(&mut self)
        requires
            old(self).batter_number < u8::MAX,
        ensures
            final(self).batter_number == if old(self).batter_number + 1 > 9 {
                1
            } else {
                old(self).batter_number + 1
            },
            final(self).count == (Count { balls: 0, strikes: 0 }),
            final(self).inning == old(self).inning,
            final(self).inning_half == old(self).inning_half,
            final(self).outs == old(self).outs,
            final(self).runners == old(self).runners,
            final(self).current_batter_id == old(self).current_batter_id,
            final(self).current_pitcher_id == old(self).current_pitcher_id,
    {
        self.batter_number = self.batter_number + 1;
        if self.batter_number > 9 {
            self.batter_number = 1;
        }
        self.count.reset();
    }

    /// Records an out and clears the count.
    pub fn add_out(&mut self)
        requires
            old(self).outs < u8::MAX,
        ensures
            final(self).outs == old(self).outs + 1,
            final(self).count == (Count { balls: 0, strikes: 0 }),
            final(self).inning == old(self).inning,
            final(self).inning_half == old(self).inning_half,
            final(self).runners == old(self).runners,
            final(self).current_batter_id == old(self).current_batter_id,
            final(self).current_pitcher_id == old(self).current_pitcher_id,
            final(self).batter_number == old(self).batter_number,
    {
        self.outs = self.outs + 1;
        self.count.reset();
    }

    pub fn is_top_inning(&self) -> (top: bool)
        ensures
            top == (self.inning_half == InningHalf::Top),
    {
        matches!(self.inning_half, InningHalf::Top)
    }

    pub fn is_bottom_inning(&self) -> (bottom: bool)
        ensures
            bottom == (self.inning_half == InningHalf::Bottom),
    {
        matches!(self.inning_half, InningHalf::Bottom)
    }
}

/// The sum of a line of runs.
pub open spec fn line_total(line: Seq<u32>) -> nat
    decreases line.len(),
{
    if line.len() == 0 {
        0
    } else {
        line_total(line.drop_last()) + line.last() as nat
    }
}

/// A line of runs with room made for an inning (counted from 0): zeros are
/// added at the end until the inning has an entry.
pub open spec fn stretched(line: Seq<u32>, inning_index: int) -> Seq<u32> {
    if inning_index < line.len() {
        line
    } else {
        line + Seq::new((inning_index + 1 - line.len()) as nat, |i: int| 0u32)
    }
}

/// A line of runs with one more run in an inning (counted from 0).
pub open spec fn with_run(line: Seq<u32>, inning_index: int) -> Seq<u32> {
    stretched(line, inning_index).update(
        inning_index,
        (stretched(line, inning_index)[inning_index] + 1) as u32,
    )
}

/// The score of a game as numbers: the two totals and the two lines.
pub struct ScoreLines {
    pub visitor: nat,
    pub home: nat,
    pub visitor_line: Seq<u32>,
    pub home_line: Seq<u32>,
}

impl ScoreLines {
    /// The score with one more run for a side in an inning (counted from 1).
    /// Where the scoring side's line is too short for the inning, both lines
    /// grow by as many innings as that line lacks.
    pub open spec fn run_added(self, is_home_team: bool, inning: int) -> ScoreLines {
        if is_home_team {
            ScoreLines {
                home: self.home + 1,
                home_line: with_run(self.home_line, inning - 1),
                visitor_line: if inning - 1 < self.home_line.len() {
                    self.visitor_line
                } else {
                    self.visitor_line + Seq::new(
                        (inning - self.home_line.len()) as nat,
                        |i: int| 0u32,
                    )
                },
                ..self
            }
        } else {
            ScoreLines {
                visitor: self.visitor + 1,
                visitor_line: with_run(self.visitor_line, inning - 1),
                home_line: if inning - 1 < self.visitor_line.len() {
                    self.home_line
                } else {
                    self.home_line + Seq::new(
                        (inning - self.visitor_line.len()) as nat,
                        |i: int| 0u32,
                    )
                },
                ..self
            }
        }
    }

    /// The score with `runs` more runs for a side in an inning.
    pub open spec fn runs_added(self, is_home_team: bool, inning: int, runs: nat) -> ScoreLines
        decreases runs,
    {
        if runs == 0 {
            self
        } else {
            self.runs_added(is_home_team, inning, (runs - 1) as nat).run_added(is_home_team, inning)
        }
    }
}

/// The score of a game, in total and inning by inning.
#[derive(Debug, Clone)]
pub struct Score {
    pub visitor: u32,
    pub home: u32,
    pub visitor_runs_by_inning: Vec<u32>,
    pub home_runs_by_inning: Vec<u32>,
}

impl Score {
    /// The score as numbers.
    pub open spec fn lines(&self) -> ScoreLines {
        ScoreLines {
            visitor: self.visitor as nat,
            home: self.home as nat,
            visitor_line: self.visitor_runs_by_inning@,
            home_line: self.home_runs_by_inning@,
        }
    }

    /// No inning shows more runs than the side has in all.
    pub open spec fn wf(&self) -> bool {
        &&& forall|i: int|
            0 <= i < self.visitor_runs_by_inning@.len() ==> #[trigger] self.visitor_runs_by_inning@[i]
                <= self.visitor
        &&& forall|i: int|
            0 <= i < self.home_runs_by_inning@.len() ==> #[trigger] self.home_runs_by_inning@[i]
                <= self.home
    }

    fn line_within(line: &Vec<u32>, total: u32) -> (yes: bool)
        ensures
            yes == (forall|i: int| 0 <= i < line@.len() ==> #[trigger] line@[i] <= total),
    {
        let mut i: usize = 0;
        while i < line.len()
            invariant
                i <= line@.len(),
                forall|j: int| 0 <= j < i ==> #[trigger] line@[j] <= total,
            decreases line@.len() - i,
        {
            if line[i] > total {
                return false;
            }
            i = i + 1;
        }
        true
    }

    /// Whether `wf` holds.
    pub fn is_wf(&self) -> (yes: bool)
        ensures
            yes == self.wf(),
    {
        Self::line_within(&self.visitor_runs_by_inning, self.visitor) && Self::line_within(
            &self.home_runs_by_inning,
            self.home,
        )
    }

    /// Nothing to nothing, with nine innings laid out.
    pub fn new() -> (score: Self)
        ensures
            score.visitor == 0,
            score.home == 0,
            score.visitor_runs_by_inning@ == Seq::new(9, |i: int| 0u32),
            score.home_runs_by_inning@ == Seq::new(9, |i: int| 0u32),
            score.wf(),
    {
        let score = Self {
            visitor: 0,
            home: 0,
            visitor_runs_by_inning: vec![0; 9],
            home_runs_by_inning: vec![0; 9],
        };
        assert(score.visitor_runs_by_inning@ =~= Seq::new(9, |i: int| 0u32));
        assert(score.home_runs_by_inning@ =~= Seq::new(9, |i: int| 0u32));
        score
    }

    /// Scores a run for one side in an inning (counted from 1). In extra
    /// innings both lines grow as needed; the other side's new innings show
    /// no runs.
    pub fn add_run(&mut self, is_home_team: bool, inning: u8)
        requires
            inning >= 1,
            old(self).wf(),
            is_home_team ==> old(self).home < u32::MAX,
            !is_home_team ==> old(self).visitor < u32::MAX,
        ensures
            final(self).wf(),
            final(self).lines() == old(self).lines().run_added(is_home_team, inning as int),
    {
        let inning_index = (inning - 1) as usize;
        if is_home_team {
            self.home = self.home + 1;
            let ghost line = self.home_runs_by_inning@;
            let ghost other = self.visitor_runs_by_inning@;
            while self.home_runs_by_inning.len() <= inning_index
                invariant
                    self.home == old(self).home + 1,
                    self.visitor == old(self).visitor,
                    inning_index == inning - 1,
                    line == old(self).home_runs_by_inning@,
                    other == old(self).visitor_runs_by_inning@,
                    line.len() <= self.home_runs_by_inning@.len(),
                    self.home_runs_by_inning@ == line + Seq::new(
                        (self.home_runs_by_inning@.len() - line.len()) as nat,
                        |i: int| 0u32,
                    ),
                    self.visitor_runs_by_inning@ == other + Seq::new(
                        (self.home_runs_by_inning@.len() - line.len()) as nat,
                        |i: int| 0u32,
                    ),
                    self.home_runs_by_inning@.len() <= inning_index + 1 || self.home_runs_by_inning@
                        == line,
                decreases inning_index + 1 - self.home_runs_by_inning@.len(),
            {
                self.home_runs_by_inning.push(0);
                self.visitor_runs_by_inning.push(0);
                assert(self.home_runs_by_inning@ =~= line + Seq::new(
                    (self.home_runs_by_inning@.len() - line.len()) as nat,
                    |i: int| 0u32,
                ));
                assert(self.visitor_runs_by_inning@ =~= other + Seq::new(
                    (self.home_runs_by_inning@.len() - line.len()) as nat,
                    |i: int| 0u32,
                ));
            }
            assert(self.home_runs_by_inning@ =~= stretched(line, inning_index as int));
            let runs = self.home_runs_by_inning[inning_index];
            self.home_runs_by_inning.set(inning_index, runs + 1);
            assert(self.visitor_runs_by_inning@ =~= if inning - 1 < line.len() {
                other
            } else {
                other + Seq::new((inning - line.len()) as nat, |i: int| 0u32)
            });
        } else {
            self.visitor = self.visitor + 1;
            let ghost line = self.visitor_runs_by_inning@;
            let ghost other = self.home_runs_by_inning@;
            while self.visitor_runs_by_inning.len() <= inning_index
                invariant
                    self.visitor == old(self).visitor + 1,
                    self.home == old(self).home,
                    inning_index == inning - 1,
                    line == old(self).visitor_runs_by_inning@,
                    other == old(self).home_runs_by_inning@,
                    line.len() <= self.visitor_runs_by_inning@.len(),
                    self.visitor_runs_by_inning@ == line + Seq::new(
                        (self.visitor_runs_by_inning@.len() - line.len()) as nat,
                        |i: int| 0u32,
                    ),
                    self.home_runs_by_inning@ == other + Seq::new(
                        (self.visitor_runs_by_inning@.len() - line.len()) as nat,
                        |i: int| 0u32,
                    ),
                    self.visitor_runs_by_inning@.len() <= inning_index + 1
                        || self.visitor_runs_by_inning@ == line,
                decreases inning_index + 1 - self.visitor_runs_by_inning@.len(),
            {
                self.visitor_runs_by_inning.push(0);
                self.home_runs_by_inning.push(0);
                assert(self.visitor_runs_by_inning@ =~= line + Seq::new(
                    (self.visitor_runs_by_inning@.len() - line.len()) as nat,
                    |i: int| 0u32,
                ));
                assert(self.home_runs_by_inning@ =~= other + Seq::new(
                    (self.visitor_runs_by_inning@.len() - line.len()) as nat,
                    |i: int| 0u32,
                ));
            }
            assert(self.visitor_runs_by_inning@ =~= stretched(line, inning_index as int));
            let runs = self.visitor_runs_by_inning[inning_index];
            self.visitor_runs_by_inning.set(inning_index, runs + 1);
            assert(self.home_runs_by_inning@ =~= if inning - 1 < line.len() {
                other
            } else {
                other + Seq::new((inning - line.len()) as nat, |i: int| 0u32)
            });
        }
    }

    /// The side ahead: `Some(true)` for the home team, `Some(false)` for the
    /// visitors, `None` for a tie.
    pub fn get_winning_team(&self) -> (winner: Option<bool>)
        ensures
            self.visitor > self.home ==> winner == Some(false),
            self.home > self.visitor ==> winner == Some(true),
            self.home == self.visitor ==> winner is None,
    {
        if self.visitor > self.home {
            Some(false)
        } else if self.home > self.visitor {
            Some(true)
        } else {
            None
        }
    }

    /// By how many runs the side ahead leads.
    pub fn get_margin(&self) -> (margin: u32)
        ensures
            self.visitor >= self.home ==> margin == self.visitor - self.home,
            self.home >= self.visitor ==> margin == self.home - self.visitor,
    {
        if self.visitor > self.home {
            self.visitor - self.home
        } else {
            self.home - self.visitor
        }
    }
}

} // verus!
