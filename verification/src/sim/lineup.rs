//! A team's batting order for a game.

use crate::sim::players::Position;
use crate::text::str_eq;
use vstd::prelude::*;
use vstd::string::*;

verus! {

/// One place in the batting order.
#[derive(Debug, Clone)]
pub struct LineupSpot {
    pub player_id: String,
    /// 1 to 9.
    pub batting_order: u8,
    pub position: Position,
}

impl LineupSpot {
    pub fn new(player_id: String, batting_order: u8, position: Position) -> (spot: Self)
        ensures
            spot.player_id == player_id,
            spot.batting_order == batting_order,
            spot.position == position,
    {
        Self { player_id, batting_order, position }
    }

    /// A copy of the spot.
    pub fn duplicate(&self) -> (copy: Self)
        ensures
            copy == *self,
    {
        Self {
            player_id: self.player_id.clone(),
            batting_order: self.batting_order,
            position: self.position,
        }
    }
}

/// The first spot from `from` on that a player holds.
pub open spec fn spot_of_player(spots: Seq<LineupSpot>, id: Seq<char>, from: int) -> Option<int>
    decreases spots.len() - from,
{
    if from < 0 || from >= spots.len() {
        None
    } else if spots[from].player_id@ == id {
        Some(from)
    } else {
        spot_of_player(spots, id, from + 1)
    }
}

/// The first spot from `from` on with a given place in the order.
pub open spec fn spot_of_order(spots: Seq<LineupSpot>, order: u8, from: int) -> Option<int>
    decreases spots.len() - from,
{
    if from < 0 || from >= spots.len() {
        None
    } else if spots[from].batting_order == order {
        Some(from)
    } else {
        spot_of_order(spots, order, from + 1)
    }
}

/// The first spot from `from` on where a position is played.
pub open spec fn spot_of_position(spots: Seq<LineupSpot>, position: Position, from: int) -> Option<
    int,
>
    decreases spots.len() - from,
{
    if from < 0 || from >= spots.len() {
        None
    } else if spots[from].position == position {
        Some(from)
    } else {
        spot_of_position(spots, position, from + 1)
    }
}

/// A spot found for a player is a spot of the line-up.
pub proof fn lemma_spot_of_player(spots: Seq<LineupSpot>, id: Seq<char>, from: int)
    requires
        0 <= from,
    ensures
        spot_of_player(spots, id, from) matches Some(i) ==> from <= i < spots.len()
            && spots[i].player_id@ == id,
    decreases spots.len() - from,
{
    if from < spots.len() && spots[from].player_id@ != id {
        lemma_spot_of_player(spots, id, from + 1);
    }
}

/// Whether a list of ids holds an id from `from` on.
pub open spec fn lists_id(ids: Seq<String>, id: Seq<char>, from: int) -> bool
    decreases ids.len() - from,
{
    if from < 0 || from >= ids.len() {
        false
    } else if ids[from]@ == id {
        true
    } else {
        lists_id(ids, id, from + 1)
    }
}

/// The spots numbered afresh: the first bats first, the second second, and
/// so on. Numbers wrap around after 255.
pub open spec fn renumbered(spots: Seq<LineupSpot>) -> Seq<LineupSpot> {
    Seq::new(
        spots.len(),
        |i: int| LineupSpot { batting_order: ((i + 1) % 256) as u8, ..spots[i] },
    )
}

/// Where a spot joins a list that is sorted by place in the order: behind
/// every spot whose place is not later than its own.
pub open spec fn order_point(sorted: Seq<LineupSpot>, order: u8, from: int) -> int
    decreases sorted.len() - from,
{
    if from < 0 || from >= sorted.len() {
        sorted.len() as int
    } else if sorted[from].batting_order > order {
        from
    } else {
        order_point(sorted, order, from + 1)
    }
}

/// The spots sorted by place in the order; spots with the same place keep
/// the order they had.
pub open spec fn by_order(spots: Seq<LineupSpot>) -> Seq<LineupSpot>
    decreases spots.len(),
{
    if spots.len() == 0 {
        Seq::<LineupSpot>::empty()
    } else {
        let before = by_order(spots.drop_last());
        before.insert(order_point(before, spots.last().batting_order, 0), spots.last())
    }
}

/// An order point lies within the list; every spot before it has a place
/// that is not later than the newcomer's, and the spot at it has a later one.
pub proof fn lemma_order_point(sorted: Seq<LineupSpot>, order: u8, from: int)
    requires
        0 <= from <= sorted.len(),
    ensures
        from <= order_point(sorted, order, from) <= sorted.len(),
        forall|j: int|
            from <= j < order_point(sorted, order, from) ==> (#[trigger] sorted[j]).batting_order
                <= order,
        order_point(sorted, order, from) < sorted.len() ==> sorted[order_point(
            sorted,
            order,
            from,
        )].batting_order > order,
    decreases sorted.len() - from,
{
    if from < sorted.len() && sorted[from].batting_order <= order {
        lemma_order_point(sorted, order, from + 1);
    }
}

/// Sorting by place in the order loses no spot and adds none, and leaves the
/// places in ascending order.
pub proof fn lemma_by_order(spots: Seq<LineupSpot>)
    ensures
        by_order(spots).len() == spots.len(),
        by_order(spots).to_multiset() == spots.to_multiset(),
        forall|i: int, j: int|
            0 <= i < j < spots.len() ==> by_order(spots)[i].batting_order <= by_order(
                spots,
            )[j].batting_order,
    decreases spots.len(),
{
    if spots.len() == 0 {
        assert(by_order(spots) =~= spots);
    } else {
        let rest = spots.drop_last();
        let newcomer = spots.last();
        let before = by_order(rest);
        let at = order_point(before, newcomer.batting_order, 0);
        let after = before.insert(at, newcomer);
        lemma_by_order(rest);
        lemma_order_point(before, newcomer.batting_order, 0);
        vstd::seq_lib::to_multiset_insert(before, at, newcomer);
        vstd::seq_lib::to_multiset_build(rest, newcomer);
        assert(rest.push(newcomer) =~= spots);
        assert forall|i: int, j: int| 0 <= i < j < after.len() implies after[i].batting_order
            <= after[j].batting_order by {
            if j == at {
                assert(after[i] == before[i]);
            } else if i == at {
                assert(after[j] == before[j - 1]);
                if j - 1 > at {
                    assert(before[at].batting_order <= before[j - 1].batting_order);
                }
            } else {
                let a = if i < at {
                    i
                } else {
                    i - 1
                };
                let b = if j < at {
                    j
                } else {
                    j - 1
                };
                assert(after[i] == before[a] && after[j] == before[b]);
            }
        }
    }
}

/// The place that a spot has after a player moved from `old_order` to
/// `new_order`: the spots between the two places close the gap.
pub open spec fn shifted_order(order: u8, old_order: u8, new_order: u8) -> u8 {
    if old_order < new_order && order > old_order && order <= new_order {
        (order - 1) as u8
    } else if old_order > new_order && order >= new_order && order < old_order {
        (order + 1) as u8
    } else {
        order
    }
}

/// The spots after the player at spot `at` moved to `new_order`, before they
/// are sorted again. Other spots of the same player stay as they are.
pub open spec fn moved(spots: Seq<LineupSpot>, at: int, new_order: u8) -> Seq<LineupSpot> {
    Seq::new(
        spots.len(),
        |i: int|
            if i == at {
                LineupSpot { batting_order: new_order, ..spots[i] }
            } else if spots[i].player_id@ == spots[at].player_id@ {
                spots[i]
            } else {
                LineupSpot {
                    batting_order: shifted_order(
                        spots[i].batting_order,
                        spots[at].batting_order,
                        new_order,
                    ),
                    ..spots[i]
                }
            },
    )
}

/// A batting order with its pitcher, designated hitter and bench.
#[derive(Debug, Clone)]
pub struct Lineup {
    pub spots: Vec<LineupSpot>,
    pub designated_hitter: Option<String>,
    pub starting_pitcher_id: String,
    pub bench_players: Vec<String>,
}

impl Lineup {
    /// The spots are numbered 1, 2, 3 and so on, and there are nine at most.
    pub open spec fn wf(&self) -> bool {
        &&& self.spots@.len() <= 9
        &&& forall|i: int|
            0 <= i < self.spots@.len() ==> (#[trigger] self.spots@[i]).batting_order == i + 1
    }

    /// The two line-ups differ at most in their spots.
    pub open spec fn same_staff(&self, other: &Lineup) -> bool {
        &&& self.designated_hitter == other.designated_hitter
        &&& self.starting_pitcher_id == other.starting_pitcher_id
        &&& self.bench_players == other.bench_players
    }

    pub fn new() -> (lineup: Self)
        ensures
            lineup.spots@.len() == 0,
            lineup.designated_hitter is None,
            lineup.starting_pitcher_id@.len() == 0,
            lineup.bench_players@.len() == 0,
            lineup.wf(),
    {
        Self {
            spots: Vec::new(),
            designated_hitter: None,
            starting_pitcher_id: String::new(),
            bench_players: Vec::new(),
        }
    }

    /// What `add_batter` reports when a position is taken.
    pub open spec fn position_taken_message(position: Position) -> Seq<char> {
        "Position "@ + position.short_name() + " already filled"@
    }

    /// Finds the first spot where a position is played.
    fn find_position(&self, position: Position) -> (found: Option<usize>)
        ensures
            found matches Some(i) ==> i < self.spots@.len() && spot_of_position(
                self.spots@,
                position,
                0,
            ) == Some(i as int),
            found is None ==> spot_of_position(self.spots@, position, 0) is None,
    {
        let mut i: usize = 0;
        while i < self.spots.len()
            invariant
                i <= self.spots@.len(),
                spot_of_position(self.spots@, position, 0) == spot_of_position(
                    self.spots@,
                    position,
                    i as int,
                ),
            decreases self.spots@.len() - i,
        {
            if self.spots[i].position == position {
                return Some(i);
            }
            i = i + 1;
        }
        None
    }

    /// Finds the first spot that a player holds.
    fn find_player(&self, player_id: &str) -> (found: Option<usize>)
        ensures
            found matches Some(i) ==> i < self.spots@.len() && spot_of_player(
                self.spots@,
                player_id@,
                0,
            ) == Some(i as int),
            found is None ==> spot_of_player(self.spots@, player_id@, 0) is None,
    {
        let mut i: usize = 0;
        while i < self.spots.len()
            invariant
                i <= self.spots@.len(),
                spot_of_player(self.spots@, player_id@, 0) == spot_of_player(
                    self.spots@,
                    player_id@,
                    i as int,
                ),
            decreases self.spots@.len() - i,
        {
            if str_eq(self.spots[i].player_id.as_str(), player_id) {
                return Some(i);
            }
            i = i + 1;
        }
        None
    }

    /// Adds a batter at the end of the order. A full line-up of nine takes no
    /// more, and no fielding position is played twice; any number may bat as
    /// designated hitter.
    pub fn add_batter(&mut self, player_id: String, position: Position) -> (added: Result<
        (),
        String,
    >)
        ensures
            final(self).same_staff(old(self)),
            old(self).spots@.len() >= 9 ==> {
                &&& added matches Err(why)
                &&& why@ == "Lineup is full"@
                &&& final(self).spots == old(self).spots
            },
            old(self).spots@.len() < 9 && position != Position::DesignatedHitter
                && spot_of_position(old(self).spots@, position, 0) is Some ==> {
                &&& added matches Err(why)
                &&& why@ == Self::position_taken_message(position)
                &&& final(self).spots == old(self).spots
            },
            old(self).spots@.len() < 9 && (position == Position::DesignatedHitter
                || spot_of_position(old(self).spots@, position, 0) is None) ==> {
                &&& added is Ok
                &&& final(self).spots@ == old(self).spots@.push(
                    LineupSpot {
                        player_id,
                        batting_order: (old(self).spots@.len() + 1) as u8,
                        position,
                    },
                )
            },
            old(self).wf() ==> final(self).wf(),
    {
        if self.spots.len() >= 9 {
            return Err(String::from_str("Lineup is full"));
        }
        if position != Position::DesignatedHitter {
            if self.find_position(position).is_some() {
                let mut why = String::from_str("Position ");
                why.append(position.abbreviation());
                why.append(" already filled");
                return Err(why);
            }
        }
        let batting_order = (self.spots.len() + 1) as u8;
        self.spots.push(LineupSpot::new(player_id, batting_order, position));
        Ok(())
    }

    pub fn set_starting_pitcher(&mut self, player_id: String)
        ensures
            final(self).starting_pitcher_id == player_id,
            final(self).spots == old(self).spots,
            final(self).designated_hitter == old(self).designated_hitter,
            final(self).bench_players == old(self).bench_players,
    {
        self.starting_pitcher_id = player_id;
    }

    pub fn set_designated_hitter(&mut self, player_id: String)
        ensures
            final(self).designated_hitter == Some(player_id),
            final(self).spots == old(self).spots,
            final(self).starting_pitcher_id == old(self).starting_pitcher_id,
            final(self).bench_players == old(self).bench_players,
    {
        self.designated_hitter = Some(player_id);
    }

    /// Puts a player on the bench, unless he sits there already.
    pub fn add_bench_player(&mut self, player_id: String)
        ensures
            final(self).bench_players@ == if lists_id(old(self).bench_players@, player_id@, 0) {
                old(self).bench_players@
            } else {
                old(self).bench_players@.push(player_id)
            },
            final(self).spots == old(self).spots,
            final(self).designated_hitter == old(self).designated_hitter,
            final(self).starting_pitcher_id == old(self).starting_pitcher_id,
    {
        let mut i: usize = 0;
        while i < self.bench_players.len()
            invariant
                i <= self.bench_players@.len(),
                *self == *old(self),
                lists_id(self.bench_players@, player_id@, 0) == lists_id(
                    self.bench_players@,
                    player_id@,
                    i as int,
                ),
            decreases self.bench_players@.len() - i,
        {
            if str_eq(self.bench_players[i].as_str(), player_id.as_str()) {
                return ;
            }
            i = i + 1;
        }
        self.bench_players.push(player_id);
    }

    /// Takes a player's first spot out of the order and numbers the rest
    /// afresh. Returns the spot as it was.
    pub fn remove_from_lineup(&mut self, player_id: &str) -> (removed: Option<LineupSpot>)
        ensures
            final(self).same_staff(old(self)),
            match spot_of_player(old(self).spots@, player_id@, 0) {
                Some(at) => {
                    &&& 0 <= at < old(self).spots@.len()
                    &&& removed == Some(old(self).spots@[at])
                    &&& final(self).spots@ == renumbered(old(self).spots@.remove(at))
                },
                None => removed is None && final(self).spots == old(self).spots,
            },
            old(self).wf() ==> final(self).wf(),
    {
        match self.find_player(player_id) {
            Some(at) => {
                let removed_spot = self.spots.remove(at);
                let ghost rest = self.spots@;
                let mut i: usize = 0;
                while i < self.spots.len()
                    invariant
                        i <= self.spots@.len(),
                        self.spots@.len() == rest.len(),
                        self.same_staff(old(self)),
                        forall|j: int| 0 <= j < i ==> self.spots@[j] == renumbered(rest)[j],
                        forall|j: int| i <= j < rest.len() ==> self.spots@[j] == rest[j],
                    decreases self.spots@.len() - i,
                {
                    let order = ((i + 1) % 256) as u8;
                    let mut spot = self.spots[i].duplicate();
                    spot.batting_order = order;
                    self.spots.set(i, spot);
                    i = i + 1;
                }
                assert(self.spots@ =~= renumbered(rest));
                Some(removed_spot)
            },
            None => None,
        }
    }

    /// Whether a substitution would find the player it replaces: in the
    /// order, as designated hitter or as starting pitcher.
    pub open spec fn holds(&self, player_id: Seq<char>) -> bool {
        ||| spot_of_player(self.spots@, player_id, 0) is Some
        ||| (self.designated_hitter matches Some(dh) && dh@ == player_id)
        ||| self.starting_pitcher_id@ == player_id
    }

    /// Replaces a player by another. A batter's replacement takes over his
    /// place in the order, at the same position unless a new one is given; a
    /// designated hitter or a starting pitcher is simply replaced.
    pub fn substitute_player(
        &mut self,
        old_player_id: &str,
        new_player_id: String,
        new_position: Option<Position>,
    ) -> (done: Result<(), String>)
        requires
            spot_of_player(old(self).spots@, old_player_id@, 0) matches Some(at) ==> 1 <= old(
                self,
            ).spots@[at].batting_order <= old(self).spots@.len(),
        ensures
            final(self).bench_players == old(self).bench_players,
            done is Ok == old(self).holds(old_player_id@),
            done matches Err(why) ==> why@ == "Player not found in lineup"@ && *final(self) == *old(
                self,
            ),
            match spot_of_player(old(self).spots@, old_player_id@, 0) {
                Some(at) => {
                    let spot = old(self).spots@[at];
                    &&& final(self).spots@ == renumbered(old(self).spots@.remove(at)).insert(
                        spot.batting_order - 1,
                        LineupSpot {
                            player_id: new_player_id,
                            position: match new_position {
                                Some(pos) => pos,
                                None => spot.position,
                            },
                            ..spot
                        },
                    )
                    &&& final(self).designated_hitter == old(self).designated_hitter
                    &&& final(self).starting_pitcher_id == old(self).starting_pitcher_id
                },
                None => {
                    &&& final(self).spots == old(self).spots
                    &&& if old(self).designated_hitter matches Some(dh) && dh@ == old_player_id@ {
                        &&& final(self).designated_hitter == Some(new_player_id)
                        &&& final(self).starting_pitcher_id == old(self).starting_pitcher_id
                    } else if old(self).starting_pitcher_id@ == old_player_id@ {
                        &&& final(self).starting_pitcher_id == new_player_id
                        &&& final(self).designated_hitter == old(self).designated_hitter
                    } else {
                        &&& final(self).designated_hitter == old(self).designated_hitter
                        &&& final(self).starting_pitcher_id == old(self).starting_pitcher_id
                    }
                },
            },
    {
        proof {
            lemma_spot_of_player(self.spots@, old_player_id@, 0);
        }
        match self.remove_from_lineup(old_player_id) {
            Some(removed) => {
                let mut spot = removed;
                spot.player_id = new_player_id;
                match new_position {
                    Some(pos) => {
                        spot.position = pos;
                    },
                    None => {},
                }
                let batting_order = spot.batting_order;
                self.spots.insert((batting_order - 1) as usize, spot);
                Ok(())
            },
            None => {
                let is_dh = match &self.designated_hitter {
                    Some(dh) => str_eq(dh.as_str(), old_player_id),
                    None => false,
                };
                if is_dh {
                    self.designated_hitter = Some(new_player_id);
                    Ok(())
                } else if str_eq(self.starting_pitcher_id.as_str(), old_player_id) {
                    self.starting_pitcher_id = new_player_id;
                    Ok(())
                } else {
                    Err(String::from_str("Player not found in lineup"))
                }
            },
        }
    }

    /// Puts a spot into a list sorted by place in the order.
    fn insert_by_order(sorted: &mut Vec<LineupSpot>, spot: LineupSpot)
        ensures
            final(sorted)@ == old(sorted)@.insert(
                order_point(old(sorted)@, spot.batting_order, 0),
                spot,
            ),
    {
        let mut at: usize = 0;
        while at < sorted.len() && sorted[at].batting_order <= spot.batting_order
            invariant
                at <= sorted@.len(),
                sorted@ == old(sorted)@,
                order_point(sorted@, spot.batting_order, 0) == order_point(
                    sorted@,
                    spot.batting_order,
                    at as int,
                ),
            decreases sorted@.len() - at,
        {
            at = at + 1;
        }
        sorted.insert(at, spot);
    }

    /// Moves a player to another place in the order, 1 to 9. The spots
    /// between his old place and the new one move up or down by one to make
    /// room, and the order is sorted again.
    pub fn move_batting_order(&mut self, player_id: &str, new_order: u8) -> (done: Result<
        (),
        String,
    >)
        ensures
            final(self).same_staff(old(self)),
            new_order < 1 || new_order > 9 ==> {
                &&& done matches Err(why)
                &&& why@ == "Batting order must be between 1 and 9"@
                &&& final(self).spots == old(self).spots
            },
            1 <= new_order <= 9 ==> match spot_of_player(old(self).spots@, player_id@, 0) {
                Some(at) => {
                    &&& done is Ok
                    &&& final(self).spots@ == by_order(moved(old(self).spots@, at, new_order))
                },
                None => {
                    &&& done matches Err(why)
                    &&& why@ == "Player not found in lineup"@
                    &&& final(self).spots == old(self).spots
                },
            },
    {
        if new_order < 1 || new_order > 9 {
            return Err(String::from_str("Batting order must be between 1 and 9"));
        }
        let at = match self.find_player(player_id) {
            Some(at) => at,
            None => {
                return Err(String::from_str("Player not found in lineup"));
            },
        };
        proof {
            lemma_spot_of_player(self.spots@, player_id@, 0);
        }
        let old_order = self.spots[at].batting_order;
        let ghost target = moved(self.spots@, at as int, new_order);
        let mut adjusted: Vec<LineupSpot> = Vec::new();
        let mut i: usize = 0;
        while i < self.spots.len()
            invariant
                i <= self.spots@.len(),
                at < self.spots@.len(),
                *self == *old(self),
                old_order == self.spots@[at as int].batting_order,
                self.spots@[at as int].player_id@ == player_id@,
                target == moved(self.spots@, at as int, new_order),
                adjusted@.len() == i,
                forall|j: int| 0 <= j < i ==> adjusted@[j] == target[j],
            decreases self.spots@.len() - i,
        {
            let mut spot = self.spots[i].duplicate();
            if i == at {
                spot.batting_order = new_order;
            } else if !str_eq(spot.player_id.as_str(), player_id) {
                if old_order < new_order && spot.batting_order > old_order && spot.batting_order
                    <= new_order {
                    spot.batting_order = spot.batting_order - 1;
                } else if old_order > new_order && spot.batting_order >= new_order
                    && spot.batting_order < old_order {
                    spot.batting_order = spot.batting_order + 1;
                }
            }
            adjusted.push(spot);
            i = i + 1;
        }
        assert(adjusted@ =~= target);
        let mut sorted: Vec<LineupSpot> = Vec::new();
        let mut k: usize = 0;
        while k < adjusted.len()
            invariant
                k <= adjusted@.len(),
                sorted@ == by_order(adjusted@.take(k as int)),
            decreases adjusted@.len() - k,
        {
            proof {
                assert(adjusted@.take(k as int + 1).drop_last() =~= adjusted@.take(k as int));
                assert(adjusted@.take(k as int + 1).last() == adjusted@[k as int]);
            }
            Self::insert_by_order(&mut sorted, adjusted[k].duplicate());
            k = k + 1;
        }
        proof {
            assert(adjusted@.take(adjusted@.len() as int) =~= adjusted@);
        }
        self.spots = sorted;
        Ok(())
    }

    /// The first spot with a given place in the order.
    pub fn get_batter_by_order(&self, batting_order: u8) -> (spot: Option<&LineupSpot>)
        ensures
            match spot_of_order(self.spots@, batting_order, 0) {
                Some(i) => 0 <= i < self.spots@.len() && spot == Some(&self.spots@[i]),
                None => spot is None,
            },
    {
        let mut i: usize = 0;
        while i < self.spots.len()
            invariant
                i <= self.spots@.len(),
                spot_of_order(self.spots@, batting_order, 0) == spot_of_order(
                    self.spots@,
                    batting_order,
                    i as int,
                ),
            decreases self.spots@.len() - i,
        {
            if self.spots[i].batting_order == batting_order {
                return Some(&self.spots[i]);
            }
            i = i + 1;
        }
        None
    }

    /// The first spot where a position is played.
    pub fn get_player_at_position(&self, position: Position) -> (spot: Option<&LineupSpot>)
        ensures
            match spot_of_position(self.spots@, position, 0) {
                Some(i) => 0 <= i < self.spots@.len() && spot == Some(&self.spots@[i]),
                None => spot is None,
            },
    {
        match self.find_position(position) {
            Some(i) => Some(&self.spots[i]),
            None => None,
        }
    }

    /// The place in the order of a player's first spot.
    pub fn get_batting_order(&self, player_id: &str) -> (order: Option<u8>)
        ensures
            match spot_of_player(self.spots@, player_id@, 0) {
                Some(i) => 0 <= i < self.spots@.len() && order == Some(
                    self.spots@[i].batting_order,
                ),
                None => order is None,
            },
    {
        match self.find_player(player_id) {
            Some(i) => Some(self.spots[i].batting_order),
            None => None,
        }
    }

    /// Nine batters and a starting pitcher.
    pub fn is_complete(&self) -> (complete: bool)
        ensures
            complete == (self.spots@.len() == 9 && self.starting_pitcher_id@.len() > 0),
    {
        self.spots.len() == 9 && self.starting_pitcher_id.as_str().unicode_len() > 0
    }

    pub fn has_designated_hitter(&self) -> (yes: bool)
        ensures
            yes == self.designated_hitter is Some,
    {
        self.designated_hitter.is_some()
    }
}

} // verus!
