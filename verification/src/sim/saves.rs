//! Saved games and the index of them. Reading the clock and writing files is
//! the caller's part: time stamps come in as text.

use crate::sim::game::GameState;
use crate::sim::state::InningHalf;
use crate::text::{decimal, decimal_string, str_eq, texts};
use vstd::prelude::*;
use vstd::string::*;

verus! {

/// Where a game stands, as the index shows it: "Top 3".
pub open spec fn inning_text(game: GameState) -> Seq<char> {
    (if game.situation.inning_half == InningHalf::Top {
        "Top"@
    } else {
        "Bottom"@
    }) + " "@ + decimal(game.situation.inning as nat)
}

/// The score of a game, as the index shows it: "BOS 3 - 2 NYY".
pub open spec fn score_text(game: GameState) -> Seq<char> {
    game.visitor_team.abbreviation@ + " "@ + decimal(game.score.visitor as nat) + " - "@ + decimal(
        game.score.home as nat,
    ) + " "@ + game.home_team.abbreviation@
}

#[derive(Debug, Clone)]
pub struct SavedGame {
    pub game_id: String,
    pub save_timestamp: String,
    pub game_state: GameState,
    pub description: String,
    pub inning_display: String,
    pub score_display: String,
}

impl SavedGame {
    /// The line of the index for this save.
    pub open spec fn listing(&self) -> Seq<char> {
        self.game_id@ + ": "@ + self.inning_display@ + " - "@ + self.score_display@
    }

    /// A save of a game as it stands at a time.
    pub fn new(game_state: GameState, description: String, save_timestamp: String) -> (save: Self)
        ensures
            save.game_id@ == game_state.game_id@,
            save.save_timestamp == save_timestamp,
            save.game_state == game_state,
            save.description == description,
            save.inning_display@ == inning_text(game_state),
            save.score_display@ == score_text(game_state),
    {
        let mut inning_display = if game_state.is_top_inning() {
            String::from_str("Top")
        } else {
            String::from_str("Bottom")
        };
        inning_display.append(" ");
        inning_display.append(decimal_string(game_state.inning() as u64).as_str());
        assert(inning_display@ =~= inning_text(game_state));
        let mut score_display = game_state.visitor_team.abbreviation.clone();
        score_display.append(" ");
        score_display.append(decimal_string(game_state.visitor_score() as u64).as_str());
        score_display.append(" - ");
        score_display.append(decimal_string(game_state.home_score() as u64).as_str());
        score_display.append(" ");
        score_display.append(game_state.home_team.abbreviation.as_str());
        assert(score_display@ =~= score_text(game_state));
        Self {
            game_id: game_state.game_id.clone(),
            save_timestamp,
            game_state,
            description,
            inning_display,
            score_display,
        }
    }

    pub fn with_description(self, description: String) -> (save: Self)
        ensures
            save == (SavedGame { description, ..self }),
    {
        let mut save = self;
        save.description = description;
        save
    }
}

/// The saves that are not of a given game, in their order.
pub open spec fn other_saves(saves: Seq<SavedGame>, game_id: Seq<char>) -> Seq<SavedGame>
    decreases saves.len(),
{
    if saves.len() == 0 {
        saves
    } else if saves.last().game_id@ == game_id {
        other_saves(saves.drop_last(), game_id)
    } else {
        other_saves(saves.drop_last(), game_id).push(saves.last())
    }
}

/// Dropping the saves of a game makes the list no longer.
pub proof fn lemma_other_saves_len(saves: Seq<SavedGame>, game_id: Seq<char>)
    ensures
        other_saves(saves, game_id).len() <= saves.len(),
        other_saves(saves, game_id).len() == saves.len() ==> other_saves(saves, game_id) == saves,
    decreases saves.len(),
{
    if saves.len() > 0 {
        lemma_other_saves_len(saves.drop_last(), game_id);
        if saves.last().game_id@ != game_id && other_saves(saves, game_id).len() == saves.len() {
            assert(saves.drop_last().push(saves.last()) =~= saves);
        }
    }
}

/// The first save from `from` on of a given game.
pub open spec fn save_of(saves: Seq<SavedGame>, game_id: Seq<char>, from: int) -> Option<int>
    decreases saves.len() - from,
{
    if from < 0 || from >= saves.len() {
        None
    } else if saves[from].game_id@ == game_id {
        Some(from)
    } else {
        save_of(saves, game_id, from + 1)
    }
}

/// The lines of the index for the first `k` saves.
pub open spec fn listings(saves: Seq<SavedGame>, k: int) -> Seq<Seq<char>>
    decreases k,
{
    if k <= 0 {
        Seq::<Seq<char>>::empty()
    } else {
        listings(saves, k - 1).push(saves[k - 1].listing())
    }
}

#[derive(Debug, Clone)]
pub struct SavedGameList {
    pub saves: Vec<SavedGame>,
    pub last_modified: String,
}

impl SavedGameList {
    /// An empty index, made at a time.
    pub fn new(now: String) -> (list: Self)
        ensures
            list.saves@.len() == 0,
            list.last_modified == now,
    {
        Self { saves: Vec::new(), last_modified: now }
    }

    /// Adds a save at a time.
    pub fn add_save(&mut self, saved_game: SavedGame, now: String)
        ensures
            final(self).saves@ == old(self).saves@.push(saved_game),
            final(self).last_modified == now,
    {
        self.saves.push(saved_game);
        self.last_modified = now;
    }

    /// Drops every save of a game. If there was one, the index is stamped
    /// with the time.
    pub fn remove_save(&mut self, game_id: &str, now: String) -> (removed: bool)
        ensures
            final(self).saves@ == other_saves(old(self).saves@, game_id@),
            removed == (final(self).saves@.len() != old(self).saves@.len()),
            removed ==> final(self).last_modified == now,
            !removed ==> final(self).last_modified == old(self).last_modified && final(self).saves@ == old(self).saves@,
    {
        let initial_len = self.saves.len();
        let ghost before = self.saves@;
        let mut i: usize = self.saves.len();
        proof {
            assert(self.saves@.take(i as int) =~= self.saves@);
            assert(self.saves@.skip(i as int) =~= Seq::<SavedGame>::empty());
        }
        while i > 0
            invariant
                i <= self.saves@.len(),
                self.last_modified == old(self).last_modified,
                other_saves(before, game_id@) == other_saves(self.saves@.take(i as int), game_id@)
                    + self.saves@.skip(i as int),
            decreases i,
        {
            let ghost all = self.saves@;
            proof {
                assert(all.take(i as int).drop_last() =~= all.take(i as int - 1));
                assert(all.take(i as int).last() == all[i as int - 1]);
            }
            if str_eq(self.saves[i - 1].game_id.as_str(), game_id) {
                self.saves.remove(i - 1);
                proof {
                    assert(self.saves@.take(i as int - 1) =~= all.take(i as int - 1));
                    assert(self.saves@.skip(i as int - 1) =~= all.skip(i as int));
                }
            } else {
                proof {
                    assert(all.skip(i as int - 1) =~= seq![all[i as int - 1]] + all.skip(i as int));
                    assert(other_saves(all.take(i as int), game_id@) + all.skip(i as int)
                        =~= other_saves(all.take(i as int - 1), game_id@) + all.skip(
                        i as int - 1,
                    ));
                }
            }
            i = i - 1;
        }
        proof {
            assert(self.saves@.take(0) =~= Seq::<SavedGame>::empty());
            assert(self.saves@.skip(0) =~= self.saves@);
            assert(other_saves(before, game_id@) =~= self.saves@);
            lemma_other_saves_len(before, game_id@);
        }
        let removed = self.saves.len() != initial_len;
        if removed {
            self.last_modified = now;
        }
        removed
    }

    /// The first save of a game.
    pub fn get_save(&self, game_id: &str) -> (save: Option<&SavedGame>)
        ensures
            match save_of(self.saves@, game_id@, 0) {
                Some(i) => 0 <= i < self.saves@.len() && save == Some(&self.saves@[i]),
                None => save is None,
            },
    {
        let mut i: usize = 0;
        while i < self.saves.len()
            invariant
                i <= self.saves@.len(),
                save_of(self.saves@, game_id@, 0) == save_of(self.saves@, game_id@, i as int),
            decreases self.saves@.len() - i,
        {
            if str_eq(self.saves[i].game_id.as_str(), game_id) {
                return Some(&self.saves[i]);
            }
            i = i + 1;
        }
        None
    }

    /// The index, a line a save.
    pub fn list_saves(&self) -> (lines: Vec<String>)
        ensures
            texts(lines@) == listings(self.saves@, self.saves@.len() as int),
    {
        let mut lines: Vec<String> = Vec::new();
        let mut i: usize = 0;
        while i < self.saves.len()
            invariant
                i <= self.saves@.len(),
                texts(lines@) == listings(self.saves@, i as int),
            decreases self.saves@.len() - i,
        {
            let save = &self.saves[i];
            let mut text = save.game_id.clone();
            text.append(": ");
            text.append(save.inning_display.as_str());
            text.append(" - ");
            text.append(save.score_display.as_str());
            let ghost before = texts(lines@);
            lines.push(text);
            assert(texts(lines@) =~= before.push(save.listing()));
            i = i + 1;
        }
        lines
    }
}

} // verus!
