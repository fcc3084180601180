//! Players, teams and the pitcher's stamina.

use crate::game::constants::{
    BATTING_ORDER_SIZE, FATIGUE_PENALTY_EXHAUSTED, FATIGUE_PENALTY_FRESH, FATIGUE_PENALTY_GOOD,
    FATIGUE_PENALTY_TIRED, FATIGUE_PENALTY_VERY_TIRED, STAMINA_EXHAUSTED_THRESHOLD,
    MIN_PLAYER_ATTEMPTS, STAMINA_FRESH_THRESHOLD, STAMINA_GOOD_THRESHOLD,
    STAMINA_TIRED_THRESHOLD, STARTING_STAMINA,
};
use vstd::arithmetic::div_mod::{lemma_add_mod_noop, lemma_mod_self_0, lemma_small_mod};
use crate::league::{
    abbreviation_at, club_abbreviation, find_club, full_name_of, name_at, CLUB_COUNT,
};
use crate::text::str_eq;
use vstd::prelude::*;
use vstd::string::*;

verus! {

/// The measured skills of one player, as the resolvers read them.
#[derive(Debug, Clone)]
pub struct PlayerStats {
    pub name: String,
    pub id: String,
    /// Batted balls on record.
    pub attempts: u32,
    /// Share of batted balls hit on the ground, in tenths of a percent.
    pub gb: u32,
    /// Longest batted ball, in feet.
    pub max_distance: u32,
    /// Barrel rate, in tenths of a percent: earned by a batter, allowed by a
    /// pitcher.
    pub barrel_percent: u32,
}

#[derive(Debug, Clone, Copy, PartialEq, Eq, Structural)]
pub enum Position {
    Pitcher,
    Catcher,
    FirstBase,
    SecondBase,
    ThirdBase,
    Shortstop,
    LeftField,
    CenterField,
    RightField,
}

impl Position {
    /// The scorer's abbreviation of the position.
    pub open spec fn short_name(self) -> Seq<char> {
        match self {
            Position::Pitcher => "P"@,
            Position::Catcher => "C"@,
            Position::FirstBase => "1B"@,
            Position::SecondBase => "2B"@,
            Position::ThirdBase => "3B"@,
            Position::Shortstop => "SS"@,
            Position::LeftField => "LF"@,
            Position::CenterField => "CF"@,
            Position::RightField => "RF"@,
        }
    }

    /// The position given to the `n`-th batter of a roster that names none:
    /// the eight fielding positions in turn.
    pub open spec fn in_turn(n: nat) -> Position {
        let k = n % 8;
        if k == 0 {
            Position::Catcher
        } else if k == 1 {
            Position::FirstBase
        } else if k == 2 {
            Position::SecondBase
        } else if k == 3 {
            Position::ThirdBase
        } else if k == 4 {
            Position::Shortstop
        } else if k == 5 {
            Position::LeftField
        } else if k == 6 {
            Position::CenterField
        } else {
            Position::RightField
        }
    }

    pub fn name(&self) -> (s: &'static str)
        ensures
            s@ == self.short_name(),
    {
        match self {
            Position::Pitcher => "P",
            Position::Catcher => "C",
            Position::FirstBase => "1B",
            Position::SecondBase => "2B",
            Position::ThirdBase => "3B",
            Position::Shortstop => "SS",
            Position::LeftField => "LF",
            Position::CenterField => "CF",
            Position::RightField => "RF",
        }
    }
}

#[derive(Debug, Clone)]
pub struct Player {
    pub stats: PlayerStats,
    pub is_pitcher: bool,
    pub position: Position,
}

/// The player behind an optional reference.
pub open spec fn owned(player: Option<&Player>) -> Option<Player> {
    match player {
        Some(p) => Some(*p),
        None => None,
    }
}

impl PlayerStats {
    /// A copy of the stats.
    pub fn duplicate(&self) -> (copy: PlayerStats)
        ensures
            copy == *self,
    {
        PlayerStats {
            name: self.name.clone(),
            id: self.id.clone(),
            attempts: self.attempts,
            gb: self.gb,
            max_distance: self.max_distance,
            barrel_percent: self.barrel_percent,
        }
    }
}

impl Player {
    /// A copy of the player.
    pub fn duplicate(&self) -> (copy: Player)
        ensures
            copy == *self,
    {
        Player {
            stats: self.stats.duplicate(),
            is_pitcher: self.is_pitcher,
            position: self.position,
        }
    }
}

/// The fatigue multiplier (hundredths) of a stamina level (tenths of a point):
/// full strength from 70 points up, then 0.95, 0.85 and 0.70 from 50, 30 and
/// 15 points up, and 0.50 below.
pub open spec fn fatigue_band(stamina: nat) -> nat {
    if stamina >= 700 {
        100
    } else if stamina >= 500 {
        95
    } else if stamina >= 300 {
        85
    } else if stamina >= 150 {
        70
    } else {
        50
    }
}

/// Stamina after a pitch that costs `amount`: it never drops below zero.
pub open spec fn stamina_after(stamina: nat, amount: nat) -> nat {
    if stamina >= amount {
        (stamina - amount) as nat
    } else {
        0
    }
}

#[derive(Debug, Clone)]
pub struct Team {
    pub name: String,
    pub abbreviation: String,
    pub batters: Vec<Player>,
    pub pitchers: Vec<Player>,
    pub current_pitcher_idx: usize,
    /// Tenths of a point, from 0 to 1000.
    pub pitcher_stamina: u32,
    pub pitches_thrown: u32,
}

impl Team {
    /// How many batters take their turn before the order starts over: the
    /// roster's size, at most nine, and nine for an empty roster.
    pub open spec fn order_size(&self) -> nat {
        if self.batters@.len() == 0 || self.batters@.len() >= 9 {
            9
        } else {
            self.batters@.len()
        }
    }

    pub fn new(name: String, abbreviation: String) -> (team: Self)
        ensures
            team.name == name,
            team.abbreviation == abbreviation,
            team.batters@.len() == 0,
            team.pitchers@.len() == 0,
            team.current_pitcher_idx == 0,
            team.pitcher_stamina == STARTING_STAMINA,
            team.pitches_thrown == 0,
    {
        Self {
            name,
            abbreviation,
            batters: Vec::new(),
            pitchers: Vec::new(),
            current_pitcher_idx: 0,
            pitcher_stamina: STARTING_STAMINA,
            pitches_thrown: 0,
        }
    }

    /// The pitcher on the mound, if the staff has one at the current index.
    pub fn get_current_pitcher(&self) -> (p: Option<&Player>)
        ensures
            self.current_pitcher_idx < self.pitchers@.len() ==> p == Some(
                &self.pitchers@[self.current_pitcher_idx as int],
            ),
            self.current_pitcher_idx >= self.pitchers@.len() ==> p is None,
    {
        if self.current_pitcher_idx < self.pitchers.len() {
            Some(&self.pitchers[self.current_pitcher_idx])
        } else {
            None
        }
    }

    /// The batter at a place in the order; the order wraps around the roster.
    pub fn get_batter(&self, idx: usize) -> (p: Option<&Player>)
        ensures
            self.batters@.len() == 0 ==> p is None,
            self.batters@.len() > 0 ==> p == Some(
                &self.batters@[(idx as int) % (self.batters@.len() as int)],
            ),
    {
        if self.batters.len() == 0 {
            return None;
        }
        Some(&self.batters[idx % self.batters.len()])
    }

    pub fn batting_order_size(&self) -> (n: usize)
        ensures
            n == self.order_size(),
            1 <= n <= 9,
    {
        if self.batters.len() == 0 {
            return BATTING_ORDER_SIZE;
        }
        if self.batters.len() < BATTING_ORDER_SIZE {
            self.batters.len()
        } else {
            BATTING_ORDER_SIZE
        }
    }

    /// Charges one pitch to the pitcher: stamina drops by `amount`, stopping at
    /// zero, and the pitch is counted.
    pub fn decrease_stamina(&mut self, amount: u32)
        requires
            old(self).pitches_thrown < u32::MAX,
        ensures
            final(self).pitcher_stamina == stamina_after(
                old(self).pitcher_stamina as nat,
                amount as nat,
            ),
            final(self).pitches_thrown == old(self).pitches_thrown + 1,
            final(self).name == old(self).name,
            final(self).abbreviation == old(self).abbreviation,
            final(self).batters == old(self).batters,
            final(self).pitchers == old(self).pitchers,
            final(self).current_pitcher_idx == old(self).current_pitcher_idx,
    {
        self.pitcher_stamina = if self.pitcher_stamina >= amount {
            self.pitcher_stamina - amount
        } else {
            0
        };
        self.pitches_thrown = self.pitches_thrown + 1;
    }

    /// The multiplier on the pitcher's skill, in hundredths, for the current
    /// stamina.
    pub fn get_fatigue_penalty(&self) -> (penalty: u32)
        ensures
            penalty == fatigue_band(self.pitcher_stamina as nat),
            50 <= penalty <= 100,
    {
        if self.pitcher_stamina >= STAMINA_FRESH_THRESHOLD {
            FATIGUE_PENALTY_FRESH
        } else if self.pitcher_stamina >= STAMINA_GOOD_THRESHOLD {
            FATIGUE_PENALTY_GOOD
        } else if self.pitcher_stamina >= STAMINA_TIRED_THRESHOLD {
            FATIGUE_PENALTY_TIRED
        } else if self.pitcher_stamina >= STAMINA_EXHAUSTED_THRESHOLD {
            FATIGUE_PENALTY_VERY_TIRED
        } else {
            FATIGUE_PENALTY_EXHAUSTED
        }
    }

    /// Brings in the next pitcher of the staff, rested. A team without
    /// pitchers is left as it is.
    pub fn change_pitcher(&mut self)
        ensures
            final(self).name == old(self).name,
            final(self).abbreviation == old(self).abbreviation,
            final(self).batters == old(self).batters,
            final(self).pitchers == old(self).pitchers,
            old(self).pitchers@.len() == 0 ==> *final(self) == *old(self),
            old(self).pitchers@.len() > 0 ==> {
                &&& final(self).pitcher_stamina == STARTING_STAMINA
                &&& final(self).pitches_thrown == 0
                &&& final(self).current_pitcher_idx == (old(self).current_pitcher_idx + 1) % (
                old(self).pitchers@.len() as int)
            },
    {
        let n = self.pitchers.len();
        if n > 0 {
            let i = self.current_pitcher_idx % n;
            proof {
                lemma_add_mod_noop(self.current_pitcher_idx as int, 1, n as int);
                if n > 1 {
                    lemma_small_mod(1, n as nat);
                } else {
                    assert((self.current_pitcher_idx + 1) % 1 == 0);
                }
                if i + 1 < n {
                    lemma_small_mod((i + 1) as nat, n as nat);
                } else {
                    lemma_mod_self_0(n as int);
                }
            }
            self.current_pitcher_idx = if i + 1 < n {
                i + 1
            } else {
                0
            };
            self.pitcher_stamina = STARTING_STAMINA;
            self.pitches_thrown = 0;
        }
    }
}


/// Where the team with a given abbreviation stands among `teams`, looking
/// from `start` on: the first match, if there is one.
pub open spec fn find_team(teams: Seq<Team>, abbr: Seq<char>, start: int) -> Option<int>
    decreases teams.len() - start,
{
    if start < 0 || start >= teams.len() {
        None
    } else if teams[start].abbreviation@ == abbr {
        Some(start)
    } else {
        find_team(teams, abbr, start + 1)
    }
}

/// A match found by `find_team` is a valid index of a team with that
/// abbreviation, and no team before it (from `start` on) has it.
pub proof fn lemma_find_team(teams: Seq<Team>, abbr: Seq<char>, start: int)
    requires
        0 <= start,
    ensures
        match find_team(teams, abbr, start) {
            Some(i) => {
                &&& start <= i < teams.len()
                &&& teams[i].abbreviation@ == abbr
                &&& forall|j: int| start <= j < i ==> teams[j].abbreviation@ != abbr
            },
            None => forall|j: int| start <= j < teams.len() ==> teams[j].abbreviation@ != abbr,
        },
    decreases teams.len() - start,
{
    if start < teams.len() && teams[start].abbreviation@ != abbr {
        lemma_find_team(teams, abbr, start + 1);
    }
}

/// Two line-ups of teams that carry the same abbreviations in the same order
/// answer every search alike.
pub proof fn lemma_find_team_same_names(a: Seq<Team>, b: Seq<Team>, abbr: Seq<char>, start: int)
    requires
        a.len() == b.len(),
        forall|j: int| 0 <= j < a.len() ==> a[j].abbreviation == b[j].abbreviation,
    ensures
        find_team(a, abbr, start) == find_team(b, abbr, start),
    decreases a.len() - start,
{
    if 0 <= start < a.len() && a[start].abbreviation@ != abbr {
        lemma_find_team_same_names(a, b, abbr, start + 1);
    }
}

/// Whether a player with barrel rate `ahead` keeps his place in front of a
/// newcomer with barrel rate `newcomer`: batters are ranked from the highest
/// rate down, pitchers from the lowest up, and of two equals the one who came
/// first stays first.
pub open spec fn keeps_place(ahead: u32, newcomer: u32, descending: bool) -> bool {
    if descending {
        ahead >= newcomer
    } else {
        ahead <= newcomer
    }
}

/// Where a newcomer joins a ranked list, looking from `from` on: in front of
/// the first player who does not keep his place.
pub open spec fn insertion_point(
    ranked: Seq<Player>,
    barrel: u32,
    descending: bool,
    from: int,
) -> int
    decreases ranked.len() - from,
{
    if from < 0 || from >= ranked.len() {
        ranked.len() as int
    } else if !keeps_place(ranked[from].stats.barrel_percent, barrel, descending) {
        from
    } else {
        insertion_point(ranked, barrel, descending, from + 1)
    }
}

/// The players in rank order: each in turn joins the ranking of those before
/// him.
pub open spec fn ranked(players: Seq<Player>, descending: bool) -> Seq<Player>
    decreases players.len(),
{
    if players.len() == 0 {
        Seq::<Player>::empty()
    } else {
        let before = ranked(players.drop_last(), descending);
        before.insert(
            insertion_point(before, players.last().stats.barrel_percent, descending, 0),
            players.last(),
        )
    }
}

/// An insertion point lies within the list, everyone before it keeps his
/// place and the player at it does not.
pub proof fn lemma_insertion_point(ranked: Seq<Player>, barrel: u32, descending: bool, from: int)
    requires
        0 <= from <= ranked.len(),
    ensures
        from <= insertion_point(ranked, barrel, descending, from) <= ranked.len(),
        forall|j: int|
            from <= j < insertion_point(ranked, barrel, descending, from) ==> keeps_place(
                (#[trigger] ranked[j]).stats.barrel_percent,
                barrel,
                descending,
            ),
        insertion_point(ranked, barrel, descending, from) < ranked.len() ==> !keeps_place(
            ranked[insertion_point(ranked, barrel, descending, from)].stats.barrel_percent,
            barrel,
            descending,
        ),
    decreases ranked.len() - from,
{
    if from < ranked.len() && keeps_place(ranked[from].stats.barrel_percent, barrel, descending) {
        lemma_insertion_point(ranked, barrel, descending, from + 1);
    }
}

/// Whether players stand in rank order: nobody is outranked by a player
/// behind him.
pub open spec fn in_rank_order(players: Seq<Player>, descending: bool) -> bool {
    forall|i: int, j: int|
        0 <= i < j < players.len() ==> keeps_place(
            players[i].stats.barrel_percent,
            players[j].stats.barrel_percent,
            descending,
        )
}

/// Ranking loses nobody and adds nobody, and puts the players in rank order.
pub proof fn lemma_ranked(players: Seq<Player>, descending: bool)
    ensures
        ranked(players, descending).len() == players.len(),
        ranked(players, descending).to_multiset() == players.to_multiset(),
        in_rank_order(ranked(players, descending), descending),
    decreases players.len(),
{
    if players.len() == 0 {
        assert(ranked(players, descending) =~= players);
    } else {
        let rest = players.drop_last();
        let newcomer = players.last();
        let before = ranked(rest, descending);
        let at = insertion_point(before, newcomer.stats.barrel_percent, descending, 0);
        let after = before.insert(at, newcomer);
        lemma_ranked(rest, descending);
        lemma_insertion_point(before, newcomer.stats.barrel_percent, descending, 0);
        vstd::seq_lib::to_multiset_insert(before, at, newcomer);
        vstd::seq_lib::to_multiset_build(rest, newcomer);
        assert(rest.push(newcomer) =~= players);
        assert forall|i: int, j: int| 0 <= i < j < after.len() implies keeps_place(
            after[i].stats.barrel_percent,
            after[j].stats.barrel_percent,
            descending,
        ) by {
            if j == at {
                assert(after[i] == before[i]);
            } else if i == at {
                assert(after[j] == before[j - 1]);
                if j - 1 > at {
                    assert(keeps_place(
                        before[at].stats.barrel_percent,
                        before[j - 1].stats.barrel_percent,
                        descending,
                    ));
                }
            } else {
                let a = if i < at {
                    i
                } else {
                    i - 1
                };
                let b = if j < at {
                    j
                } else {
                    j - 1
                };
                assert(after[i] == before[a] && after[j] == before[b]);
            }
        }
    }
}

/// The rows with enough batted balls on record to count, in their order.
pub open spec fn eligible(rows: Seq<PlayerStats>) -> Seq<PlayerStats>
    decreases rows.len(),
{
    if rows.len() == 0 {
        Seq::<PlayerStats>::empty()
    } else if rows.last().attempts >= 50 {
        eligible(rows.drop_last()).push(rows.last())
    } else {
        eligible(rows.drop_last())
    }
}

/// The players that a list of rows makes, before they are ranked. A pitcher
/// pitches; a batter is given a fielding position by his turn in the list.
pub open spec fn enrolled(rows: Seq<PlayerStats>, is_pitcher: bool) -> Seq<Player> {
    Seq::new(
        eligible(rows).len(),
        |k: int|
            Player {
                stats: eligible(rows)[k],
                is_pitcher,
                position: if is_pitcher {
                    Position::Pitcher
                } else {
                    Position::in_turn(k as nat)
                },
            },
    )
}

/// Whether a ranked player keeps his place in front of a newcomer.
pub fn stays_ahead(ahead: u32, newcomer: u32, descending: bool) -> (yes: bool)
    ensures
        yes == keeps_place(ahead, newcomer, descending),
{
    if descending {
        ahead >= newcomer
    } else {
        ahead <= newcomer
    }
}

/// Puts a player into a ranked list at his insertion point.
pub fn insert_ranked(list: &mut Vec<Player>, player: Player, descending: bool)
    ensures
        final(list)@ == old(list)@.insert(
            insertion_point(old(list)@, player.stats.barrel_percent, descending, 0),
            player,
        ),
{
    let mut at: usize = 0;
    while at < list.len() && stays_ahead(
        list[at].stats.barrel_percent,
        player.stats.barrel_percent,
        descending,
    )
        invariant
            at <= list@.len(),
            list@ == old(list)@,
            insertion_point(list@, player.stats.barrel_percent, descending, 0) == insertion_point(
                list@,
                player.stats.barrel_percent,
                descending,
                at as int,
            ),
        decreases list@.len() - at,
    {
        at = at + 1;
    }
    list.insert(at, player);
}

/// Makes the players of a roster from their rows: rows with fewer than fifty
/// batted balls are left out, batters are given positions in turn, and the
/// players are ranked by barrel rate, batters from the best down and
/// pitchers from the stingiest up.
pub fn players_from_stats(rows: &Vec<PlayerStats>, is_pitcher: bool) -> (players: Vec<Player>)
    ensures
        players@ == ranked(enrolled(rows@, is_pitcher), !is_pitcher),
{
    let mut listed: Vec<Player> = Vec::new();
    let mut i: usize = 0;
    while i < rows.len()
        invariant
            i <= rows@.len(),
            listed@ == enrolled(rows@.take(i as int), is_pitcher),
        decreases rows@.len() - i,
    {
        let ghost before = rows@.take(i as int);
        let ghost after = rows@.take(i as int + 1);
        proof {
            assert(after.drop_last() =~= before);
            assert(after.last() == rows@[i as int]);
        }
        if rows[i].attempts >= MIN_PLAYER_ATTEMPTS {
            let position = if is_pitcher {
                Position::Pitcher
            } else {
                match listed.len() % 8 {
                    0 => Position::Catcher,
                    1 => Position::FirstBase,
                    2 => Position::SecondBase,
                    3 => Position::ThirdBase,
                    4 => Position::Shortstop,
                    5 => Position::LeftField,
                    6 => Position::CenterField,
                    _ => Position::RightField,
                }
            };
            listed.push(Player { stats: rows[i].duplicate(), is_pitcher, position });
            proof {
                assert(eligible(after) =~= eligible(before).push(rows@[i as int]));
                assert(listed@ =~= enrolled(after, is_pitcher));
            }
        } else {
            proof {
                assert(eligible(after) =~= eligible(before));
                assert(listed@ =~= enrolled(after, is_pitcher));
            }
        }
        i = i + 1;
    }
    proof {
        assert(rows@.take(rows@.len() as int) =~= rows@);
    }
    let mut players: Vec<Player> = Vec::new();
    let mut k: usize = 0;
    while k < listed.len()
        invariant
            k <= listed@.len(),
            players@ == ranked(listed@.take(k as int), !is_pitcher),
        decreases listed@.len() - k,
    {
        proof {
            assert(listed@.take(k as int + 1).drop_last() =~= listed@.take(k as int));
            assert(listed@.take(k as int + 1).last() == listed@[k as int]);
        }
        insert_ranked(&mut players, listed[k].duplicate(), !is_pitcher);
        k = k + 1;
    }
    proof {
        assert(listed@.take(listed@.len() as int) =~= listed@);
    }
    players
}

/// The teams loaded so far, each under its abbreviation.
#[derive(Debug, Clone)]
pub struct TeamManager {
    pub teams: Vec<Team>,
}

impl TeamManager {
    /// Where the team with this abbreviation stands, if it is loaded.
    pub open spec fn position(&self, abbr: Seq<char>) -> Option<int> {
        find_team(self.teams@, abbr, 0)
    }

    /// No two loaded teams share an abbreviation.
    pub open spec fn wf(&self) -> bool {
        forall|i: int, j: int|
            0 <= i < j < self.teams@.len() ==> self.teams@[i].abbreviation@
                != self.teams@[j].abbreviation@
    }

    pub fn new() -> (manager: Self)
        ensures
            manager.teams@.len() == 0,
            manager.wf(),
    {
        Self { teams: Vec::new() }
    }

    /// Nothing to do: teams are loaded one by one, when they are chosen.
    pub fn load_teams(&mut self) -> (done: Result<(), String>)
        ensures
            done is Ok,
            *final(self) == *old(self),
    {
        Ok(())
    }

    /// Finds the index of a loaded team.
    pub fn team_index(&self, abbr: &str) -> (found: Option<usize>)
        ensures
            found matches Some(i) ==> i < self.teams@.len() && self.position(abbr@) == Some(
                i as int,
            ),
            found is None ==> self.position(abbr@) is None,
    {
        let mut i: usize = 0;
        while i < self.teams.len()
            invariant
                i <= self.teams@.len(),
                find_team(self.teams@, abbr@, 0) == find_team(self.teams@, abbr@, i as int),
            decreases self.teams@.len() - i,
        {
            if str_eq(self.teams[i].abbreviation.as_str(), abbr) {
                return Some(i);
            }
            i = i + 1;
        }
        None
    }

    /// The loaded team with this abbreviation.
    pub fn get_team(&self, abbr: &str) -> (team: Option<&Team>)
        ensures
            match self.position(abbr@) {
                Some(i) => 0 <= i < self.teams@.len() && team == Some(&self.teams@[i]),
                None => team is None,
            },
    {
        match self.team_index(abbr) {
            Some(i) => {
                assert(self.position(abbr@) == Some(i as int));
                Some(&self.teams[i])
            },
            None => None,
        }
    }

    /// The abbreviations of all clubs, loaded or not, in the order in which
    /// the player picks them by number.
    pub fn get_team_list(&self) -> (list: Vec<String>)
        ensures
            list@.len() == 32,
            forall|i: int| 0 <= i < 32 ==> (#[trigger] list@[i])@ == club_abbreviation(i),
    {
        let mut list: Vec<String> = Vec::new();
        let mut i: usize = 0;
        while i < CLUB_COUNT
            invariant
                i <= 32,
                list@.len() == i,
                forall|j: int| 0 <= j < i ==> (#[trigger] list@[j])@ == club_abbreviation(j),
            decreases 32 - i,
        {
            list.push(String::from_str(abbreviation_at(i)));
            i = i + 1;
        }
        list
    }

    /// The full name of a club; an abbreviation that is not on the list is
    /// returned as it is.
    pub fn get_team_full_name(&self, abbr: &str) -> (name: String)
        ensures
            name@ == full_name_of(abbr@),
    {
        let mut i: usize = 0;
        while i < CLUB_COUNT
            invariant
                i <= 32,
                find_club(abbr@, 0) == find_club(abbr@, i as int),
            decreases 32 - i,
        {
            if str_eq(abbreviation_at(i), abbr) {
                return String::from_str(name_at(i));
            }
            i = i + 1;
        }
        String::from_str(abbr)
    }

    /// What `load_team` reports when neither list of rows yields a player.
    pub open spec fn no_players_message(abbr: Seq<char>) -> Seq<char> {
        "No player data found for team "@ + abbr
    }

    /// What loading a team does to the loaded teams, and what it reports.
    ///
    /// A team that is loaded already is left as it is. Otherwise the players
    /// are made from the rows and the team is added at the end, rested and
    /// with its first pitcher on the mound. A team without any player is
    /// refused.
    pub open spec fn team_loaded(
        before: TeamManager,
        after: TeamManager,
        abbr: Seq<char>,
        batter_rows: Seq<PlayerStats>,
        pitcher_rows: Seq<PlayerStats>,
        loaded: Result<(), String>,
    ) -> bool {
        if before.position(abbr) is Some {
            loaded is Ok && after == before
        } else {
            let batters = ranked(enrolled(batter_rows, false), true);
            let pitchers = ranked(enrolled(pitcher_rows, true), false);
            if batters.len() == 0 && pitchers.len() == 0 {
                &&& loaded matches Err(why)
                &&& why@ == Self::no_players_message(abbr)
                &&& after == before
            } else {
                &&& loaded is Ok
                &&& after.teams@.len() == before.teams@.len() + 1
                &&& after.teams@.drop_last() == before.teams@
                &&& after.teams@.last().name@ == full_name_of(abbr)
                &&& after.teams@.last().abbreviation@ == abbr
                &&& after.teams@.last().batters@ == batters
                &&& after.teams@.last().pitchers@ == pitchers
                &&& after.teams@.last().current_pitcher_idx == 0
                &&& after.teams@.last().pitcher_stamina == 1000
                &&& after.teams@.last().pitches_thrown == 0
            }
        }
    }

    /// Loads a team from the rows of its batters and of its pitchers.
    pub fn load_team(
        &mut self,
        abbr: &str,
        batter_rows: &Vec<PlayerStats>,
        pitcher_rows: &Vec<PlayerStats>,
    ) -> (loaded: Result<(), String>)
        ensures
            Self::team_loaded(
                *old(self),
                *final(self),
                abbr@,
                batter_rows@,
                pitcher_rows@,
                loaded,
            ),
            loaded is Ok ==> final(self).position(abbr@) is Some,
            old(self).wf() ==> final(self).wf(),
    {
        match self.team_index(abbr) {
            Some(_) => {
                return Ok(());
            },
            None => {},
        }
        let name = self.get_team_full_name(abbr);
        let mut team = Team::new(name, String::from_str(abbr));
        team.batters = players_from_stats(batter_rows, false);
        team.pitchers = players_from_stats(pitcher_rows, true);
        if team.batters.len() == 0 && team.pitchers.len() == 0 {
            let mut why = String::from_str("No player data found for team ");
            why.append(abbr);
            return Err(why);
        }
        let ghost before = self.teams@;
        let ghost joined = team;
        self.teams.push(team);
        proof {
            assert(self.teams@.drop_last() =~= before);
            lemma_find_team(before, abbr@, 0);
            lemma_find_team(self.teams@, abbr@, 0);
            assert(self.teams@[before.len() as int] == joined);
            assert(joined.abbreviation@ == abbr@);
        }
        Ok(())
    }

    /// Whether a team is loaded.
    pub fn is_loaded(&self, abbr: &str) -> (yes: bool)
        ensures
            yes == self.position(abbr@) is Some,
    {
        self.team_index(abbr).is_some()
    }

    /// The loaded team with this abbreviation, to be changed in place.
    pub fn get_team_mut(&mut self, abbr: &str) -> (team: Option<&mut Team>)
        ensures
            match old(self).position(abbr@) {
                Some(i) => {
                    &&& 0 <= i < old(self).teams@.len()
                    &&& team matches Some(t)
                    &&& *t == old(self).teams@[i]
                    &&& final(self).teams@ == old(self).teams@.update(i, *final(t))
                },
                None => team is None && *final(self) == *old(self),
            },
    {
        match self.team_index(abbr) {
            Some(i) => Some(&mut self.teams[i]),
            None => None,
        }
    }

    /// Charges one pitch to the pitcher of the team at `index`.
    pub fn charge_pitch(&mut self, index: usize, amount: u32)
        requires
            index < old(self).teams@.len(),
            old(self).teams@[index as int].pitches_thrown < u32::MAX,
        ensures
            final(self).teams@.len() == old(self).teams@.len(),
            forall|j: int|
                0 <= j < old(self).teams@.len() && j != index ==> final(self).teams@[j] == old(
                    self,
                ).teams@[j],
            final(self).teams@[index as int] == (Team {
                pitcher_stamina: stamina_after(
                    old(self).teams@[index as int].pitcher_stamina as nat,
                    amount as nat,
                ) as u32,
                pitches_thrown: (old(self).teams@[index as int].pitches_thrown + 1) as u32,
                ..old(self).teams@[index as int]
            }),
            forall|abbr: Seq<char>| #[trigger] final(self).position(abbr) == old(self).position(abbr),
    {
        let ghost before = self.teams@;
        self.teams[index].decrease_stamina(amount);
        proof {
            assert forall|abbr: Seq<char>| #[trigger]
                self.position(abbr) == find_team(before, abbr, 0) by {
                lemma_find_team_same_names(before, self.teams@, abbr, 0);
            }
        }
    }
}

} // verus!
