//! What happens in a simulated game, play by play.

use crate::sim::players::Position;
use crate::sim::state::{Base, InningHalf};
use crate::text::{decimal, decimal_string};
use vstd::prelude::*;
use vstd::string::*;

verus! {

/// How a batted ball ended: a hit, or an out made by a fielder.
#[derive(Debug, Clone, Copy, PartialEq, Eq, Structural)]
pub enum HitType {
    /// A single, with the fielder who played the ball if one did.
    Single(Option<Position>),
    Double(Option<Position>),
    Triple(Option<Position>),
    HomeRun,
    GroundOut(Position),
    FlyOut(Position),
    LineOut(Position),
    PopOut(Position),
}

/// The result of a pitch or of a plate appearance.
#[derive(Debug, Clone, Copy, PartialEq, Eq, Structural)]
pub enum PlayResult {
    Ball,
    Strike,
    FoulBall,
    Hit(HitType),
    Walk,
    Strikeout,
    HitByPitch,
    SacrificeHit,
    SacrificeFly,
    FieldersChoice,
    Error(Position),
    DoublePlay,
    TriplePlay,
}

#[derive(Debug, Clone)]
pub enum BaseRunningEvent {
    StolenBase { runner_id: String, base: Base },
    CaughtStealing { runner_id: String, base: Base },
    WildPitch,
    PassedBall,
    Balk,
    RunnerAdvances { runner_id: String, from: Base, to: Option<Base> },
    RunnerScores { runner_id: String },
}

#[derive(Debug, Clone)]
pub enum ManagerAction {
    PinchHit { old_player_id: String, new_player_id: String },
    PinchRun { old_player_id: String, new_player_id: String },
    DefensiveSubstitution { old_player_id: String, new_player_id: String, position: Position },
    PitchingChange { old_pitcher_id: String, new_pitcher_id: String },
    StealsAttempt { runner_id: String, base: Base },
    HitAndRun { runner_id: String },
    Bunt,
    IntentionalWalk,
}

impl HitType {
    /// Whether the batter is out.
    pub open spec fn retires_batter(self) -> bool {
        self is GroundOut || self is FlyOut || self is LineOut || self is PopOut
    }

    /// What the batter did, in the words of the play-by-play.
    pub open spec fn told(self, batter: Seq<char>) -> Seq<char> {
        match self {
            HitType::Single(Some(fielder)) => batter + " singles to "@ + fielder.short_name(),
            HitType::Single(None) => batter + " singles"@,
            HitType::Double(Some(fielder)) => batter + " doubles to "@ + fielder.short_name(),
            HitType::Double(None) => batter + " doubles"@,
            HitType::Triple(Some(fielder)) => batter + " triples to "@ + fielder.short_name(),
            HitType::Triple(None) => batter + " triples"@,
            HitType::HomeRun => batter + " home run!"@,
            HitType::GroundOut(pos) => batter + " grounds out to "@ + pos.short_name(),
            HitType::FlyOut(pos) => batter + " flies out to "@ + pos.short_name(),
            HitType::LineOut(pos) => batter + " lines out to "@ + pos.short_name(),
            HitType::PopOut(pos) => batter + " pops out to "@ + pos.short_name(),
        }
    }
}

impl PlayResult {
    /// Whether the play retires anyone.
    pub open spec fn makes_out(self) -> bool {
        match self {
            PlayResult::Strikeout
            | PlayResult::FieldersChoice
            | PlayResult::DoublePlay
            | PlayResult::TriplePlay => true,
            PlayResult::Hit(hit) => hit.retires_batter(),
            _ => false,
        }
    }

    /// Whether the batter reached on a hit.
    pub open spec fn is_base_hit(self) -> bool {
        self matches PlayResult::Hit(hit) && !hit.retires_batter()
    }

    /// How many outs the play makes.
    pub open spec fn outs(self) -> nat {
        match self {
            PlayResult::DoublePlay => 2,
            PlayResult::TriplePlay => 3,
            _ => if self.makes_out() {
                1
            } else {
                0
            },
        }
    }

    /// The play in the words of the play-by-play.
    pub open spec fn told(self, batter: Seq<char>) -> Seq<char> {
        match self {
            PlayResult::Ball => "Ball"@,
            PlayResult::Strike => "Strike"@,
            PlayResult::FoulBall => "Foul ball"@,
            PlayResult::Walk => batter + " walks"@,
            PlayResult::Strikeout => batter + " strikes out"@,
            PlayResult::HitByPitch => batter + " hit by pitch"@,
            PlayResult::SacrificeHit => batter + " sacrifice hit"@,
            PlayResult::SacrificeFly => batter + " sacrifice fly"@,
            PlayResult::FieldersChoice => batter + " fielder's choice"@,
            PlayResult::Error(pos) => batter + " reaches on error by "@ + pos.short_name(),
            PlayResult::DoublePlay => batter + " grounds into double play"@,
            PlayResult::TriplePlay => batter + " hits into triple play"@,
            PlayResult::Hit(hit) => hit.told(batter),
        }
    }
}

/// A play with the runs it scored: "1 run scores", "2 runs score".
pub open spec fn with_runs(play: Seq<char>, runs: u8) -> Seq<char> {
    if runs == 0 {
        play
    } else if runs == 1 {
        play + ". "@ + decimal(1) + " run scores."@
    } else {
        play + ". "@ + decimal(runs as nat) + " runs score."@
    }
}

/// One play of a game, with where the game stood when it happened.
#[derive(Debug, Clone)]
pub struct GameEvent {
    pub inning: u8,
    pub inning_half: InningHalf,
    pub outs: u8,
    pub batter_id: String,
    pub pitcher_id: String,
    pub result: PlayResult,
    pub base_running: Vec<BaseRunningEvent>,
    pub manager_actions: Vec<ManagerAction>,
    pub description: String,
    pub runs_scored: u8,
}

impl GameEvent {
    /// The description of the play: the one it was given, or else the one
    /// made from its result and the runs it scored.
    pub open spec fn described(&self, batter: Seq<char>) -> Seq<char> {
        if self.description@.len() > 0 {
            self.description@
        } else {
            with_runs(self.result.told(batter), self.runs_scored)
        }
    }

    /// A play without base running, manager's moves, description or runs.
    pub fn new(
        inning: u8,
        inning_half: InningHalf,
        outs: u8,
        batter_id: String,
        pitcher_id: String,
        result: PlayResult,
    ) -> (event: Self)
        ensures
            event.inning == inning,
            event.inning_half == inning_half,
            event.outs == outs,
            event.batter_id == batter_id,
            event.pitcher_id == pitcher_id,
            event.result == result,
            event.base_running@.len() == 0,
            event.manager_actions@.len() == 0,
            event.description@.len() == 0,
            event.runs_scored == 0,
    {
        Self {
            inning,
            inning_half,
            outs,
            batter_id,
            pitcher_id,
            result,
            base_running: Vec::new(),
            manager_actions: Vec::new(),
            description: String::new(),
            runs_scored: 0,
        }
    }

    pub fn with_description(self, description: String) -> (event: Self)
        ensures
            event == (GameEvent { description, ..self }),
    {
        let mut event = self;
        event.description = description;
        event
    }

    pub fn with_base_running(self, events: Vec<BaseRunningEvent>) -> (event: Self)
        ensures
            event == (GameEvent { base_running: events, ..self }),
    {
        let mut event = self;
        event.base_running = events;
        event
    }

    pub fn with_runs_scored(self, runs: u8) -> (event: Self)
        ensures
            event == (GameEvent { runs_scored: runs, ..self }),
    {
        let mut event = self;
        event.runs_scored = runs;
        event
    }

    pub fn add_manager_action(&mut self, action: ManagerAction)
        ensures
            final(self).manager_actions@ == old(self).manager_actions@.push(action),
            final(self).inning == old(self).inning,
            final(self).inning_half == old(self).inning_half,
            final(self).outs == old(self).outs,
            final(self).batter_id == old(self).batter_id,
            final(self).pitcher_id == old(self).pitcher_id,
            final(self).result == old(self).result,
            final(self).base_running == old(self).base_running,
            final(self).description == old(self).description,
            final(self).runs_scored == old(self).runs_scored,
    {
        self.manager_actions.push(action);
    }

    pub fn is_scoring_play(&self) -> (yes: bool)
        ensures
            yes == (self.runs_scored > 0),
    {
        self.runs_scored > 0
    }

    /// Whether the play retired anyone: a strikeout, a batted ball caught or
    /// fielded for an out, a fielder's choice, a double or a triple play.
    pub fn is_out(&self) -> (yes: bool)
        ensures
            yes == self.result.makes_out(),
    {
        matches!(
            self.result,
            PlayResult::Strikeout | PlayResult::Hit(HitType::GroundOut(_)) | PlayResult::Hit(
                HitType::FlyOut(_),
            ) | PlayResult::Hit(HitType::LineOut(_)) | PlayResult::Hit(HitType::PopOut(_))
                | PlayResult::FieldersChoice | PlayResult::DoublePlay | PlayResult::TriplePlay
        )
    }

    /// Whether the batter reached on a single, double, triple or home run.
    pub fn is_hit(&self) -> (yes: bool)
        ensures
            yes == self.result.is_base_hit(),
    {
        matches!(
            self.result,
            PlayResult::Hit(HitType::Single(_)) | PlayResult::Hit(HitType::Double(_))
                | PlayResult::Hit(HitType::Triple(_)) | PlayResult::Hit(HitType::HomeRun)
        )
    }

    pub fn outs_recorded(&self) -> (outs: u8)
        ensures
            outs == self.result.outs(),
            outs <= 3,
    {
        match self.result {
            PlayResult::DoublePlay => 2,
            PlayResult::TriplePlay => 3,
            _ => if self.is_out() {
                1
            } else {
                0
            },
        }
    }

    /// Describes the play for the play-by-play.
    pub fn format_play_description(&self, batter_name: &str) -> (text: String)
        ensures
            text@ == self.described(batter_name@),
    {
        if self.description.as_str().unicode_len() > 0 {
            return self.description.clone();
        }
        let mut text = String::new();
        match self.result {
            PlayResult::Ball => {
                text.append("Ball");
            },
            PlayResult::Strike => {
                text.append("Strike");
            },
            PlayResult::FoulBall => {
                text.append("Foul ball");
            },
            PlayResult::Walk => {
                text.append(batter_name);
                text.append(" walks");
            },
            PlayResult::Strikeout => {
                text.append(batter_name);
                text.append(" strikes out");
            },
            PlayResult::HitByPitch => {
                text.append(batter_name);
                text.append(" hit by pitch");
            },
            PlayResult::SacrificeHit => {
                text.append(batter_name);
                text.append(" sacrifice hit");
            },
            PlayResult::SacrificeFly => {
                text.append(batter_name);
                text.append(" sacrifice fly");
            },
            PlayResult::FieldersChoice => {
                text.append(batter_name);
                text.append(" fielder's choice");
            },
            PlayResult::Error(pos) => {
                text.append(batter_name);
                text.append(" reaches on error by ");
                text.append(pos.abbreviation());
            },
            PlayResult::DoublePlay => {
                text.append(batter_name);
                text.append(" grounds into double play");
            },
            PlayResult::TriplePlay => {
                text.append(batter_name);
                text.append(" hits into triple play");
            },
            PlayResult::Hit(hit_type) => {
                text.append(batter_name);
                match hit_type {
                    HitType::Single(Some(fielder)) => {
                        text.append(" singles to ");
                        text.append(fielder.abbreviation());
                    },
                    HitType::Single(None) => {
                        text.append(" singles");
                    },
                    HitType::Double(Some(fielder)) => {
                        text.append(" doubles to ");
                        text.append(fielder.abbreviation());
                    },
                    HitType::Double(None) => {
                        text.append(" doubles");
                    },
                    HitType::Triple(Some(fielder)) => {
                        text.append(" triples to ");
                        text.append(fielder.abbreviation());
                    },
                    HitType::Triple(None) => {
                        text.append(" triples");
                    },
                    HitType::HomeRun => {
                        text.append(" home run!");
                    },
                    HitType::GroundOut(pos) => {
                        text.append(" grounds out to ");
                        text.append(pos.abbreviation());
                    },
                    HitType::FlyOut(pos) => {
                        text.append(" flies out to ");
                        text.append(pos.abbreviation());
                    },
                    HitType::LineOut(pos) => {
                        text.append(" lines out to ");
                        text.append(pos.abbreviation());
                    },
                    HitType::PopOut(pos) => {
                        text.append(" pops out to ");
                        text.append(pos.abbreviation());
                    },
                }
            },
        }
        assert(text@ =~= self.result.told(batter_name@));
        if self.runs_scored > 0 {
            text.append(". ");
            text.append(decimal_string(self.runs_scored as u64).as_str());
            if self.runs_scored == 1 {
                text.append(" run scores.");
            } else {
                text.append(" runs score.");
            }
        }
        assert(text@ =~= with_runs(self.result.told(batter_name@), self.runs_scored));
        text
    }
}

/// The outs that a run of plays makes.
pub open spec fn outs_made(events: Seq<GameEvent>) -> nat
    decreases events.len(),
{
    if events.len() == 0 {
        0
    } else {
        outs_made(events.drop_last()) + events.last().result.outs()
    }
}

/// The plays of one half inning, with its line: runs, hits, errors and the
/// runners left on base.
#[derive(Debug, Clone)]
pub struct InningEvents {
    pub inning: u8,
    pub inning_half: InningHalf,
    pub events: Vec<GameEvent>,
    pub runs_scored: u8,
    pub hits: u8,
    pub errors: u8,
    pub left_on_base: u8,
}

impl InningEvents {
    pub fn new(inning: u8, inning_half: InningHalf) -> (half: Self)
        ensures
            half.inning == inning,
            half.inning_half == inning_half,
            half.events@.len() == 0,
            half.runs_scored == 0,
            half.hits == 0,
            half.errors == 0,
            half.left_on_base == 0,
    {
        Self {
            inning,
            inning_half,
            events: Vec::new(),
            runs_scored: 0,
            hits: 0,
            errors: 0,
            left_on_base: 0,
        }
    }

    /// Adds a play to the half inning and to its line.
    pub fn add_event(&mut self, event: GameEvent)
        requires
            old(self).runs_scored + event.runs_scored <= u8::MAX,
            old(self).hits < u8::MAX,
            old(self).errors < u8::MAX,
        ensures
            final(self).events@ == old(self).events@.push(event),
            final(self).runs_scored == old(self).runs_scored + event.runs_scored,
            final(self).hits == old(self).hits + if event.result.is_base_hit() {
                1int
            } else {
                0
            },
            final(self).errors == old(self).errors + if event.result is Error {
                1int
            } else {
                0
            },
            final(self).inning == old(self).inning,
            final(self).inning_half == old(self).inning_half,
            final(self).left_on_base == old(self).left_on_base,
    {
        self.runs_scored = self.runs_scored + event.runs_scored;
        if event.is_hit() {
            self.hits = self.hits + 1;
        }
        if matches!(event.result, PlayResult::Error(_)) {
            self.errors = self.errors + 1;
        }
        self.events.push(event);
    }

    /// The outs made in the half inning so far.
    pub fn total_outs(&self) -> (outs: u8)
        requires
            outs_made(self.events@) <= u8::MAX,
        ensures
            outs == outs_made(self.events@),
    {
        let mut outs: u8 = 0;
        let mut i: usize = 0;
        while i < self.events.len()
            invariant
                i <= self.events@.len(),
                outs == outs_made(self.events@.take(i as int)),
                outs_made(self.events@) <= u8::MAX,
            decreases self.events@.len() - i,
        {
            proof {
                assert(self.events@.take(i as int + 1).drop_last() =~= self.events@.take(i as int));
                assert(self.events@.take(i as int + 1).last() == self.events@[i as int]);
                lemma_outs_made_grows(self.events@, i as int + 1);
            }
            outs = outs + self.events[i].outs_recorded();
            i = i + 1;
        }
        proof {
            assert(self.events@.take(self.events@.len() as int) =~= self.events@);
        }
        outs
    }

    /// Whether three outs have been made.
    pub fn is_complete(&self) -> (done: bool)
        requires
            outs_made(self.events@) <= u8::MAX,
        ensures
            done == (outs_made(self.events@) >= 3),
    {
        self.total_outs() >= 3
    }
}

/// The outs of a run of plays are at least those of any of its beginnings.
pub proof fn lemma_outs_made_grows(events: Seq<GameEvent>, k: int)
    requires
        0 <= k <= events.len(),
    ensures
        outs_made(events.take(k)) <= outs_made(events),
    decreases events.len() - k,
{
    if k == events.len() {
        assert(events.take(k) =~= events);
    } else {
        let shorter = events.drop_last();
        assert(shorter.take(k) =~= events.take(k));
        if k < shorter.len() {
            lemma_outs_made_grows(shorter, k);
        } else {
            assert(shorter.take(k) =~= shorter);
        }
    }
}

} // verus!
