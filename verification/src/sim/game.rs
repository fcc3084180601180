//! A simulated game between two teams: its situation, its score and its
//! play-by-play.

use crate::sim::lineup::spot_of_order;
use crate::sim::state::{GamePhase, GameSituation, InningHalf, Score};
use crate::sim::team::Team;
use crate::text::{decimal, decimal_string};
use vstd::prelude::*;
use vstd::string::*;

verus! {

/// The id of the batter at a place in a team's order, if its line-up has one.
pub open spec fn batter_at(team: Team, order: u8) -> Option<Seq<char>> {
    match spot_of_order(team.lineup.spots@, order, 0) {
        Some(i) => Some(team.lineup.spots@[i].player_id@),
        None => None,
    }
}

/// A line of the play-by-play: the half ("T" or "B"), the inning, a colon
/// and what happened.
pub open spec fn play_line(half: InningHalf, inning: u8, description: Seq<char>) -> Seq<char> {
    (if half == InningHalf::Top {
        "T"@
    } else {
        "B"@
    }) + decimal(inning as nat) + ": "@ + description
}

/// Whether a game that is not yet declared over has been decided. From the
/// ninth inning on the home team wins as soon as it leads while batting; in
/// extra innings a tie while the home team bats ends the game as well; and
/// the home team need not bat in the ninth if it leads when the visitors
/// are retired.
pub open spec fn decided(situation: GameSituation, score: Score) -> bool {
    let bottom = situation.inning_half == InningHalf::Bottom;
    if situation.inning >= 9 {
        if bottom && score.home > score.visitor {
            true
        } else if situation.inning > 9 && !bottom && score.visitor > score.home {
            false
        } else if situation.inning > 9 && bottom && score.home >= score.visitor {
            true
        } else if situation.inning == 9 && !bottom && situation.outs >= 3 {
            score.home > score.visitor
        } else {
            false
        }
    } else {
        false
    }
}

/// The last line of the play-by-play of a finished game.
pub open spec fn final_line(home: Team, visitor: Team, score: Score) -> Seq<char> {
    "FINAL: "@ + if score.home > score.visitor {
        home.spec_full_name() + " wins"@
    } else if score.visitor > score.home {
        visitor.spec_full_name() + " wins"@
    } else {
        "Game tied"@
    }
}

/// A line has been added to the play-by-play, and nothing else has changed.
pub open spec fn play_added(pre: GameState, post: GameState, description: Seq<char>) -> bool {
    &&& post.one_more_line(
        &pre,
        play_line(pre.situation.inning_half, pre.situation.inning, description),
    )
    &&& post.same_fixture(&pre)
    &&& post.situation == pre.situation
    &&& post.score == pre.score
    &&& post.phase == pre.phase
}

/// The next batter of the team at bat has come up: the next place in the
/// order, after the ninth the first, with a fresh count.
pub open spec fn batter_advanced(pre: GameState, post: GameState) -> bool {
    &&& post.situation.batter_number == if pre.situation.batter_number + 1 > 9 {
        1
    } else {
        pre.situation.batter_number + 1
    }
    &&& post.situation.current_batter_id@ == pre.batter_up(
        post.situation.batter_number,
        pre.situation.current_batter_id@,
    )
    &&& post.situation.count.balls == 0 && post.situation.count.strikes == 0
    &&& post.situation.inning == pre.situation.inning
    &&& post.situation.inning_half == pre.situation.inning_half
    &&& post.situation.outs == pre.situation.outs
    &&& post.situation.runners == pre.situation.runners
    &&& post.situation.current_pitcher_id == pre.situation.current_pitcher_id
    &&& post.same_fixture(&pre)
    &&& post.score == pre.score
    &&& post.phase == pre.phase
    &&& post.play_by_play == pre.play_by_play
}

/// What is written when a half inning ends.
pub open spec fn end_line(half: InningHalf, inning: u8) -> Seq<char> {
    (if half == InningHalf::Top {
        "END TOP "@
    } else {
        "END BOTTOM "@
    }) + decimal(inning as nat)
}

/// The half inning has ended: the end is written down, the sides have
/// changed, and the first batter of the side coming to bat faces the other
/// side's starting pitcher. Outs, runners and count are cleared.
pub open spec fn inning_ended(pre: GameState, post: GameState) -> bool {
    &&& post.one_more_line(
        &pre,
        play_line(
            pre.situation.inning_half,
            pre.situation.inning,
            end_line(pre.situation.inning_half, pre.situation.inning),
        ),
    )
    &&& pre.situation.inning_half == InningHalf::Top ==> post.situation.inning
        == pre.situation.inning && post.situation.inning_half == InningHalf::Bottom
    &&& pre.situation.inning_half == InningHalf::Bottom ==> post.situation.inning
        == pre.situation.inning + 1 && post.situation.inning_half == InningHalf::Top
    &&& post.situation.outs == 0
    &&& post.situation.count.balls == 0 && post.situation.count.strikes == 0
    &&& post.situation.runners.first is None
    &&& post.situation.runners.second is None
    &&& post.situation.runners.third is None
    &&& post.situation.batter_number == 1
    &&& post.situation.current_batter_id@ == match batter_at(post.batting(), 1) {
        Some(id) => id,
        None => pre.situation.current_batter_id@,
    }
    &&& post.situation.current_pitcher_id@ == post.pitching().lineup.starting_pitcher_id@
    &&& post.same_fixture(&pre)
    &&& post.score == pre.score
    &&& post.phase == pre.phase
}

/// The game has been declared over if it was over, with the winner written
/// down; a game that goes on is left as it is.
pub open spec fn end_checked(pre: GameState, post: GameState) -> bool {
    &&& post.same_fixture(&pre)
    &&& post.situation == pre.situation
    &&& post.score == pre.score
    &&& if pre.phase == GamePhase::GameOver || decided(pre.situation, pre.score) {
        &&& post.phase == GamePhase::GameOver
        &&& post.one_more_line(
            &pre,
            play_line(
                pre.situation.inning_half,
                pre.situation.inning,
                final_line(pre.home_team, pre.visitor_team, pre.score),
            ),
        )
    } else {
        &&& post.phase == pre.phase
        &&& post.play_by_play == pre.play_by_play
    }
}

#[derive(Debug, Clone)]
pub struct GameState {
    pub game_id: String,
    pub visitor_team: Team,
    pub home_team: Team,
    pub situation: GameSituation,
    pub score: Score,
    pub phase: GamePhase,
    pub play_by_play: Vec<String>,
    pub inning_summary: Vec<String>,
    pub game_start_time: String,
    pub weather: String,
    pub attendance: u32,
}

impl GameState {
    /// The team at bat: the visitors in the top half, the home team in the
    /// bottom half.
    pub open spec fn batting(&self) -> Team {
        if self.situation.inning_half == InningHalf::Top {
            self.visitor_team
        } else {
            self.home_team
        }
    }

    /// The team in the field.
    pub open spec fn pitching(&self) -> Team {
        if self.situation.inning_half == InningHalf::Top {
            self.home_team
        } else {
            self.visitor_team
        }
    }

    /// The two states differ at most in the situation, the score, the phase
    /// and the play-by-play.
    pub open spec fn same_fixture(&self, other: &GameState) -> bool {
        &&& self.game_id == other.game_id
        &&& self.visitor_team == other.visitor_team
        &&& self.home_team == other.home_team
        &&& self.inning_summary == other.inning_summary
        &&& self.game_start_time == other.game_start_time
        &&& self.weather == other.weather
        &&& self.attendance == other.attendance
    }

    /// Room for another play: for an out, for a turn of the order, for
    /// another inning once the home team bats and, on either score, for as
    /// many runs as a play can be credited with.
    pub open spec fn ready(&self) -> bool {
        &&& self.situation.outs < u8::MAX
        &&& self.situation.batter_number < u8::MAX
        &&& 1 <= self.situation.inning
        &&& self.situation.inning_half == InningHalf::Bottom ==> self.situation.inning < u8::MAX
        &&& self.score.wf()
        &&& self.score.visitor <= u32::MAX - 255
        &&& self.score.home <= u32::MAX - 255
    }

    /// Whether `ready` holds.
    pub fn is_ready(&self) -> (yes: bool)
        ensures
            yes == self.ready(),
    {
        let last_inning = match self.situation.inning_half {
            InningHalf::Top => false,
            InningHalf::Bottom => self.situation.inning == u8::MAX,
        };
        self.situation.outs < u8::MAX && self.situation.batter_number < u8::MAX
            && self.situation.inning >= 1 && !last_inning && self.score.visitor <= u32::MAX - 255
            && self.score.home <= u32::MAX - 255 && self.score.is_wf()
    }

    /// The play-by-play is that of `other` with one more line.
    pub open spec fn one_more_line(&self, other: &GameState, line: Seq<char>) -> bool {
        &&& self.play_by_play@.len() == other.play_by_play@.len() + 1
        &&& self.play_by_play@.drop_last() == other.play_by_play@
        &&& self.play_by_play@.last()@ == line
    }

    /// A game about to begin, on a clear day before 35000.
    pub fn new(
        game_id: String,
        visitor_team: Team,
        home_team: Team,
        game_start_time: String,
    ) -> (game: Self)
        ensures
            game.game_id == game_id,
            game.visitor_team == visitor_team,
            game.home_team == home_team,
            game.game_start_time == game_start_time,
            game.situation.inning == 1,
            game.situation.inning_half == InningHalf::Top,
            game.situation.outs == 0,
            game.situation.batter_number == 1,
            game.score.visitor == 0 && game.score.home == 0,
            game.score.wf(),
            game.phase == GamePhase::PreGame,
            game.play_by_play@.len() == 0,
            game.inning_summary@.len() == 0,
            game.weather@ == "Clear, 72°F"@,
            game.attendance == 35000,
    {
        Self {
            game_id,
            visitor_team,
            home_team,
            situation: GameSituation::new(),
            score: Score::new(),
            phase: GamePhase::PreGame,
            play_by_play: Vec::new(),
            inning_summary: Vec::new(),
            game_start_time,
            weather: String::from_str("Clear, 72°F"),
            attendance: 35000,
        }
    }

    pub fn current_batting_team(&self) -> (team: &Team)
        ensures
            *team == self.batting(),
    {
        if self.situation.is_top_inning() {
            &self.visitor_team
        } else {
            &self.home_team
        }
    }

    pub fn current_pitching_team(&self) -> (team: &Team)
        ensures
            *team == self.pitching(),
    {
        if self.situation.is_top_inning() {
            &self.home_team
        } else {
            &self.visitor_team
        }
    }

    /// Whether the game is over: declared over, or decided.
    pub fn is_game_over(&self) -> (over: bool)
        ensures
            over == (self.phase == GamePhase::GameOver || decided(self.situation, self.score)),
    {
        match self.phase {
            GamePhase::GameOver => true,
            _ => {
                if self.situation.inning >= 9 {
                    if self.situation.is_bottom_inning() && self.score.home > self.score.visitor {
                        true
                    } else if self.situation.inning > 9 && self.situation.is_top_inning()
                        && self.score.visitor > self.score.home {
                        false
                    } else if self.situation.inning > 9 && self.situation.is_bottom_inning()
                        && self.score.home >= self.score.visitor {
                        true
                    } else if self.situation.inning == 9 && self.situation.is_top_inning()
                        && self.situation.outs >= 3 {
                        self.score.home > self.score.visitor
                    } else {
                        false
                    }
                } else {
                    false
                }
            },
        }
    }

    /// Adds a line to the play-by-play.
    pub fn add_play(&mut self, description: String)
        ensures
            play_added(*old(self), *final(self), description@),
    {
        let mut text = if self.situation.is_top_inning() {
            String::from_str("T")
        } else {
            String::from_str("B")
        };
        text.append(decimal_string(self.situation.inning as u64).as_str());
        text.append(": ");
        text.append(description.as_str());
        let ghost before = self.play_by_play@;
        self.play_by_play.push(text);
        assert(self.play_by_play@.drop_last() =~= before);
    }

    /// The batter's id once the batter at `order` of the team at bat has
    /// come up: his id, or the id as it was if the line-up has nobody there.
    pub open spec fn batter_up(&self, order: u8, before: Seq<char>) -> Seq<char> {
        match batter_at(self.batting(), order) {
            Some(id) => id,
            None => before,
        }
    }

    fn call_batter(&mut self, order: u8)
        ensures
            final(self).situation.current_batter_id@ == old(self).batter_up(
                order,
                old(self).situation.current_batter_id@,
            ),
            final(self).situation.inning == old(self).situation.inning,
            final(self).situation.inning_half == old(self).situation.inning_half,
            final(self).situation.outs == old(self).situation.outs,
            final(self).situation.count == old(self).situation.count,
            final(self).situation.runners == old(self).situation.runners,
            final(self).situation.current_pitcher_id == old(self).situation.current_pitcher_id,
            final(self).situation.batter_number == old(self).situation.batter_number,
            final(self).same_fixture(old(self)),
            final(self).score == old(self).score,
            final(self).phase == old(self).phase,
            final(self).play_by_play == old(self).play_by_play,
    {
        let found: Option<String> = match self.current_batting_team().lineup.get_batter_by_order(
            order,
        ) {
            Some(spot) => Some(spot.player_id.clone()),
            None => None,
        };
        match found {
            Some(id) => {
                self.situation.current_batter_id = id;
            },
            None => {},
        }
    }

    /// Starts the game: the first batter of the visitors faces the home
    /// team's starting pitcher.
    pub fn start_game(&mut self)
        ensures
            final(self).phase == GamePhase::Playing,
            final(self).one_more_line(
                old(self),
                play_line(
                    old(self).situation.inning_half,
                    old(self).situation.inning,
                    "GAME STARTED"@,
                ),
            ),
            final(self).situation.current_batter_id@ == match batter_at(old(self).visitor_team, 1) {
                Some(id) => id,
                None => old(self).situation.current_batter_id@,
            },
            final(self).situation.current_pitcher_id@ == old(
                self,
            ).home_team.lineup.starting_pitcher_id@,
            final(self).situation.inning == old(self).situation.inning,
            final(self).situation.inning_half == old(self).situation.inning_half,
            final(self).situation.outs == old(self).situation.outs,
            final(self).situation.count == old(self).situation.count,
            final(self).situation.runners == old(self).situation.runners,
            final(self).situation.batter_number == old(self).situation.batter_number,
            final(self).same_fixture(old(self)),
            final(self).score == old(self).score,
    {
        self.phase = GamePhase::Playing;
        self.add_play(String::from_str("GAME STARTED"));
        let first: Option<String> = match self.visitor_team.lineup.get_batter_by_order(1) {
            Some(spot) => Some(spot.player_id.clone()),
            None => None,
        };
        match first {
            Some(id) => {
                self.situation.current_batter_id = id;
            },
            None => {},
        }
        self.situation.current_pitcher_id = self.home_team.lineup.starting_pitcher_id.clone();
    }

    /// Brings up the next batter of the team at bat.
    pub fn advance_to_next_batter(&mut self)
        requires
            old(self).situation.batter_number < u8::MAX,
        ensures
            batter_advanced(*old(self), *final(self)),
    {
        self.situation.advance_batter();
        let order = self.situation.batter_number;
        self.call_batter(order);
    }

    /// Ends the half inning.
    pub fn end_inning(&mut self)
        requires
            old(self).situation.inning_half == InningHalf::Bottom ==> old(self).situation.inning
                < u8::MAX,
        ensures
            inning_ended(*old(self), *final(self)),
    {
        let mut text = if self.situation.is_top_inning() {
            String::from_str("END TOP ")
        } else {
            String::from_str("END BOTTOM ")
        };
        text.append(decimal_string(self.situation.inning as u64).as_str());
        self.add_play(text);
        self.situation.advance_inning();
        self.situation.batter_number = 1;
        self.call_batter(1);
        let pitcher = self.current_pitching_team().lineup.starting_pitcher_id.clone();
        self.situation.current_pitcher_id = pitcher;
    }

    /// Declares the game over if it is, and writes down who won.
    pub fn check_game_end(&mut self)
        ensures
            end_checked(*old(self), *final(self)),
    {
        if self.is_game_over() {
            self.phase = GamePhase::GameOver;
            let mut text = String::from_str("FINAL: ");
            if self.score.home > self.score.visitor {
                text.append(self.home_team.full_name().as_str());
                text.append(" wins");
            } else if self.score.visitor > self.score.home {
                text.append(self.visitor_team.full_name().as_str());
                text.append(" wins");
            } else {
                text.append("Game tied");
            }
            assert(text@ =~= final_line(self.home_team, self.visitor_team, self.score));
            self.add_play(text);
        }
    }

    pub fn is_top_inning(&self) -> (top: bool)
        ensures
            top == (self.situation.inning_half == InningHalf::Top),
    {
        self.situation.is_top_inning()
    }

    pub fn inning(&self) -> (inning: u8)
        ensures
            inning == self.situation.inning,
    {
        self.situation.inning
    }

    pub fn outs(&self) -> (outs: u8)
        ensures
            outs == self.situation.outs,
    {
        self.situation.outs
    }

    pub fn visitor_score(&self) -> (runs: u32)
        ensures
            runs == self.score.visitor,
    {
        self.score.visitor
    }

    pub fn home_score(&self) -> (runs: u32)
        ensures
            runs == self.score.home,
    {
        self.score.home
    }
}

} // verus!
