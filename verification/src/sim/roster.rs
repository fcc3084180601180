//! The players of a team: who is on the roster, who is active and who is
//! hurt.

use crate::sim::players::{Handedness, PitcherRole, Position};
use crate::text::{decimal, decimal_string, str_eq};
use vstd::prelude::*;
use vstd::string::*;

verus! {

/// What a batter brings to the plate, in thousandths.
#[derive(Debug, Clone, Copy, PartialEq, Eq, Structural)]
pub struct BattingCard {
    /// How often he puts the bat on the ball.
    pub contact: u32,
    pub power: u32,
    /// How readily he takes a walk.
    pub patience: u32,
}

/// What a pitcher brings to the mound.
#[derive(Debug, Clone, Copy, PartialEq, Eq, Structural)]
pub struct PitchingCard {
    /// How often he throws the ball where he wants it, in thousandths.
    pub control: u32,
    pub role: PitcherRole,
}

/// A player as the simulation sees him.
#[derive(Debug, Clone)]
pub struct Player {
    pub id: String,
    pub name: String,
    pub jersey_number: u8,
    pub primary_position: Position,
    pub secondary_positions: Vec<Position>,
    /// What he does at the plate; pitchers do not bat.
    pub batting: Option<BattingCard>,
    /// What he does on the mound, if he pitches.
    pub pitching: Option<PitchingCard>,
    pub is_injured: bool,
    pub age: u8,
    pub height: String,
    pub weight: u16,
    pub throws: Handedness,
    pub bats: Handedness,
    pub salary: u32,
    pub years_pro: u8,
}

/// Whether a list of positions holds a position.
pub open spec fn lists_position(positions: Seq<Position>, position: Position) -> bool {
    exists|i: int| 0 <= i < positions.len() && #[trigger] positions[i] == position
}

impl Player {
    /// An average batter.
    pub open spec fn default_batting() -> BattingCard {
        BattingCard { contact: 700, power: 500, patience: 500 }
    }

    /// An average starting pitcher.
    pub open spec fn default_pitching() -> PitchingCard {
        PitchingCard { control: 600, role: PitcherRole::Starter }
    }

    /// Whether the player can be put at a position: it is his own, or one of
    /// those he plays besides.
    pub open spec fn plays(&self, position: Position) -> bool {
        self.primary_position == position || lists_position(self.secondary_positions@, position)
    }

    /// The name with the position in brackets.
    pub open spec fn label(&self) -> Seq<char> {
        self.name@ + " ("@ + self.primary_position.short_name() + ")"@
    }

    /// A healthy player of 25 in his first year, six feet tall and 180
    /// pounds, on 500000 a year. A pitcher pitches as an average starter and
    /// does not bat; anybody else bats as an average batter.
    pub fn new(
        id: String,
        name: String,
        jersey_number: u8,
        primary_position: Position,
        throws: Handedness,
        bats: Handedness,
    ) -> (player: Self)
        ensures
            player.id == id,
            player.name == name,
            player.jersey_number == jersey_number,
            player.primary_position == primary_position,
            player.secondary_positions@.len() == 0,
            player.batting == if primary_position == Position::Pitcher {
                None
            } else {
                Some(Self::default_batting())
            },
            player.pitching == if primary_position == Position::Pitcher {
                Some(Self::default_pitching())
            } else {
                None
            },
            !player.is_injured,
            player.age == 25,
            player.height@ == "6'0\""@,
            player.weight == 180,
            player.throws == throws,
            player.bats == bats,
            player.salary == 500000,
            player.years_pro == 1,
    {
        let is_pitcher = primary_position == Position::Pitcher;
        Self {
            id,
            name,
            jersey_number,
            primary_position,
            secondary_positions: Vec::new(),
            batting: if is_pitcher {
                None
            } else {
                Some(BattingCard { contact: 700, power: 500, patience: 500 })
            },
            pitching: if is_pitcher {
                Some(PitchingCard { control: 600, role: PitcherRole::Starter })
            } else {
                None
            },
            is_injured: false,
            age: 25,
            height: String::from_str("6'0\""),
            weight: 180,
            throws,
            bats,
            salary: 500000,
            years_pro: 1,
        }
    }

    /// A new player who is not a pitcher.
    pub fn position_player(
        id: String,
        name: String,
        jersey_number: u8,
        primary_position: Position,
        throws: Handedness,
        bats: Handedness,
    ) -> (player: Self)
        requires
            primary_position != Position::Pitcher,
        ensures
            player.id == id,
            player.name == name,
            player.jersey_number == jersey_number,
            player.primary_position == primary_position,
            player.secondary_positions@.len() == 0,
            player.batting == Some(Self::default_batting()),
            player.pitching is None,
            !player.is_injured,
            player.throws == throws,
            player.bats == bats,
    {
        Self::new(id, name, jersey_number, primary_position, throws, bats)
    }

    /// A new pitcher in a role; he bats from the side he throws from.
    pub fn pitcher(
        id: String,
        name: String,
        jersey_number: u8,
        throws: Handedness,
        role: PitcherRole,
    ) -> (player: Self)
        ensures
            player.id == id,
            player.name == name,
            player.jersey_number == jersey_number,
            player.primary_position == Position::Pitcher,
            player.secondary_positions@.len() == 0,
            player.batting is None,
            player.pitching == Some(PitchingCard { control: 600, role }),
            !player.is_injured,
            player.throws == throws,
            player.bats == throws,
    {
        let mut player = Self::new(id, name, jersey_number, Position::Pitcher, throws, throws);
        player.pitching = Some(PitchingCard { control: 600, role });
        player
    }

    pub fn is_pitcher(&self) -> (yes: bool)
        ensures
            yes == self.pitching is Some,
    {
        self.pitching.is_some()
    }

    pub fn is_position_player(&self) -> (yes: bool)
        ensures
            yes == self.batting is Some,
    {
        self.batting.is_some()
    }

    pub fn can_pitch(&self) -> (yes: bool)
        ensures
            yes == self.pitching is Some,
    {
        self.pitching.is_some()
    }

    pub fn can_bat(&self) -> (yes: bool)
        ensures
            yes == self.batting is Some,
    {
        self.batting.is_some()
    }

    pub fn primary_position(&self) -> (position: Position)
        ensures
            position == self.primary_position,
    {
        self.primary_position
    }

    pub fn can_play_position(&self, position: Position) -> (yes: bool)
        ensures
            yes == self.plays(position),
    {
        if self.primary_position == position {
            return true;
        }
        let mut i: usize = 0;
        while i < self.secondary_positions.len()
            invariant
                i <= self.secondary_positions@.len(),
                forall|j: int| 0 <= j < i ==> self.secondary_positions@[j] != position,
            decreases self.secondary_positions@.len() - i,
        {
            if self.secondary_positions[i] == position {
                return true;
            }
            i = i + 1;
        }
        false
    }

    pub fn is_injured(&self) -> (yes: bool)
        ensures
            yes == self.is_injured,
    {
        self.is_injured
    }

    pub fn display_name(&self) -> (text: String)
        ensures
            text@ == self.label(),
    {
        let mut text = self.name.clone();
        text.append(" (");
        text.append(self.primary_position.abbreviation());
        text.append(")");
        text
    }
}

/// The first player from `from` on with a given id.
pub open spec fn card_of(players: Seq<Player>, id: Seq<char>, from: int) -> Option<int>
    decreases players.len() - from,
{
    if from < 0 || from >= players.len() {
        None
    } else if players[from].id@ == id {
        Some(from)
    } else {
        card_of(players, id, from + 1)
    }
}

/// A player found by id is one of the players, and the first with that id.
pub proof fn lemma_card_of(players: Seq<Player>, id: Seq<char>, from: int)
    requires
        0 <= from,
    ensures
        match card_of(players, id, from) {
            Some(i) => {
                &&& from <= i < players.len()
                &&& players[i].id@ == id
                &&& forall|j: int| from <= j < i ==> players[j].id@ != id
            },
            None => forall|j: int| from <= j < players.len() ==> players[j].id@ != id,
        },
    decreases players.len() - from,
{
    if from < players.len() && players[from].id@ != id {
        lemma_card_of(players, id, from + 1);
    }
}

/// Whether a list of ids holds an id.
pub open spec fn has_id(ids: Seq<String>, id: Seq<char>) -> bool {
    exists|i: int| 0 <= i < ids.len() && (#[trigger] ids[i])@ == id
}

/// A list of ids without an id, in the order it had.
pub open spec fn without(ids: Seq<String>, id: Seq<char>) -> Seq<String>
    decreases ids.len(),
{
    if ids.len() == 0 {
        ids
    } else if ids.last()@ == id {
        without(ids.drop_last(), id)
    } else {
        without(ids.drop_last(), id).push(ids.last())
    }
}

/// The players that a list of ids names, in the order of the list; an id
/// that names nobody is passed over.
pub open spec fn named(players: Seq<Player>, ids: Seq<String>) -> Seq<Player>
    decreases ids.len(),
{
    if ids.len() == 0 {
        Seq::<Player>::empty()
    } else {
        match card_of(players, ids.last()@, 0) {
            Some(i) => named(players, ids.drop_last()).push(players[i]),
            None => named(players, ids.drop_last()),
        }
    }
}

/// Which players a selection is after.
#[derive(Debug, Clone, Copy, PartialEq, Eq, Structural)]
pub enum Pick {
    Everyone,
    At(Position),
    Pitchers,
    Starters,
    Relievers,
    PositionPlayers,
}

impl Pick {
    /// Whether a player is one the selection is after. Relievers include
    /// closers.
    pub open spec fn takes(self, player: Player) -> bool {
        match self {
            Pick::Everyone => true,
            Pick::At(position) => player.plays(position),
            Pick::Pitchers => player.pitching is Some,
            Pick::Starters => player.pitching matches Some(card) && card.role
                == PitcherRole::Starter,
            Pick::Relievers => player.pitching matches Some(card) && card.role
                != PitcherRole::Starter,
            Pick::PositionPlayers => player.batting is Some,
        }
    }
}

/// The players of a list that a selection takes, in their order.
pub open spec fn picked(players: Seq<Player>, pick: Pick) -> Seq<Player>
    decreases players.len(),
{
    if players.len() == 0 {
        players
    } else if pick.takes(players.last()) {
        picked(players.drop_last(), pick).push(players.last())
    } else {
        picked(players.drop_last(), pick)
    }
}

/// The players behind a list of references.
pub open spec fn pointed(refs: Seq<&Player>) -> Seq<Player> {
    Seq::new(refs.len(), |i: int| *refs[i])
}

/// Removes an id from a list of ids wherever it stands.
pub fn remove_id(ids: &mut Vec<String>, id: &str)
    ensures
        final(ids)@ == without(old(ids)@, id@),
{
    let mut kept: Vec<String> = Vec::new();
    let mut i: usize = 0;
    while i < ids.len()
        invariant
            i <= ids@.len(),
            ids@ == old(ids)@,
            kept@ == without(ids@.take(i as int), id@),
        decreases ids@.len() - i,
    {
        proof {
            assert(ids@.take(i as int + 1).drop_last() =~= ids@.take(i as int));
            assert(ids@.take(i as int + 1).last() == ids@[i as int]);
        }
        if !str_eq(ids[i].as_str(), id) {
            kept.push(ids[i].clone());
        }
        i = i + 1;
    }
    proof {
        assert(ids@.take(ids@.len() as int) =~= ids@);
    }
    *ids = kept;
}

/// Whether a list of ids holds an id.
pub fn contains_id(ids: &Vec<String>, id: &str) -> (yes: bool)
    ensures
        yes == has_id(ids@, id@),
{
    let mut i: usize = 0;
    while i < ids.len()
        invariant
            i <= ids@.len(),
            forall|j: int| 0 <= j < i ==> (#[trigger] ids@[j])@ != id@,
        decreases ids@.len() - i,
    {
        if str_eq(ids[i].as_str(), id) {
            return true;
        }
        i = i + 1;
    }
    false
}

#[derive(Debug, Clone)]
pub struct Roster {
    /// Everybody under contract; no two with the same id.
    pub players: Vec<Player>,
    /// The ids of the players on the active roster.
    pub active_roster: Vec<String>,
    /// The ids of the players on the injured list.
    pub injured_list: Vec<String>,
    pub max_roster_size: usize,
    pub max_active_size: usize,
}

impl Roster {
    /// No two players share an id.
    pub open spec fn wf(&self) -> bool {
        forall|i: int, j: int|
            0 <= i < j < self.players@.len() ==> self.players@[i].id@ != self.players@[j].id@
    }

    /// The two rosters differ at most in the active roster and the injured
    /// list.
    pub open spec fn same_players(&self, other: &Roster) -> bool {
        &&& self.players == other.players
        &&& self.max_roster_size == other.max_roster_size
        &&& self.max_active_size == other.max_active_size
    }

    /// The active players, in the order of the active roster.
    pub open spec fn active(&self) -> Seq<Player> {
        named(self.players@, self.active_roster@)
    }

    /// An empty roster for forty players, twenty-five of them active.
    pub fn new() -> (roster: Self)
        ensures
            roster.players@.len() == 0,
            roster.active_roster@.len() == 0,
            roster.injured_list@.len() == 0,
            roster.max_roster_size == 40,
            roster.max_active_size == 25,
            roster.wf(),
    {
        Self {
            players: Vec::new(),
            active_roster: Vec::new(),
            injured_list: Vec::new(),
            max_roster_size: 40,
            max_active_size: 25,
        }
    }

    /// Finds the index of the player with an id.
    pub fn player_index(&self, player_id: &str) -> (found: Option<usize>)
        ensures
            found matches Some(i) ==> i < self.players@.len() && card_of(
                self.players@,
                player_id@,
                0,
            ) == Some(i as int),
            found is None ==> card_of(self.players@, player_id@, 0) is None,
    {
        let mut i: usize = 0;
        while i < self.players.len()
            invariant
                i <= self.players@.len(),
                card_of(self.players@, player_id@, 0) == card_of(
                    self.players@,
                    player_id@,
                    i as int,
                ),
            decreases self.players@.len() - i,
        {
            if str_eq(self.players[i].id.as_str(), player_id) {
                return Some(i);
            }
            i = i + 1;
        }
        None
    }

    /// Puts a player under contract. A roster that is full takes nobody. A
    /// player whose id is on the roster already takes the place of the one
    /// who had it. While the active roster has room the player is put on it.
    pub fn add_player(&mut self, player: Player) -> (added: Result<(), String>)
        ensures
            final(self).injured_list == old(self).injured_list,
            final(self).max_roster_size == old(self).max_roster_size,
            final(self).max_active_size == old(self).max_active_size,
            old(self).players@.len() >= old(self).max_roster_size ==> {
                &&& added matches Err(why)
                &&& why@ == "Roster is full"@
                &&& *final(self) == *old(self)
            },
            old(self).players@.len() < old(self).max_roster_size ==> {
                &&& added is Ok
                &&& final(self).players@ == match card_of(old(self).players@, player.id@, 0) {
                    Some(i) => old(self).players@.update(i, player),
                    None => old(self).players@.push(player),
                }
                &&& old(self).active_roster@.len() < old(self).max_active_size ==> {
                    &&& final(self).active_roster@.len() == old(self).active_roster@.len() + 1
                    &&& final(self).active_roster@.drop_last() == old(self).active_roster@
                    &&& final(self).active_roster@.last()@ == player.id@
                }
                &&& old(self).active_roster@.len() >= old(self).max_active_size ==> final(self).active_roster == old(self).active_roster
            },
            old(self).wf() ==> final(self).wf(),
    {
        if self.players.len() >= self.max_roster_size {
            return Err(String::from_str("Roster is full"));
        }
        let player_id = player.id.clone();
        proof {
            lemma_card_of(self.players@, player.id@, 0);
        }
        match self.player_index(player_id.as_str()) {
            Some(i) => {
                self.players.set(i, player);
            },
            None => {
                self.players.push(player);
            },
        }
        if self.active_roster.len() < self.max_active_size {
            let ghost before = self.active_roster@;
            self.active_roster.push(player_id);
            assert(self.active_roster@.drop_last() =~= before);
        }
        Ok(())
    }

    /// Releases a player: he leaves the roster, the active roster and the
    /// injured list.
    pub fn remove_player(&mut self, player_id: &str) -> (removed: Result<Player, String>)
        ensures
            final(self).max_roster_size == old(self).max_roster_size,
            final(self).max_active_size == old(self).max_active_size,
            match card_of(old(self).players@, player_id@, 0) {
                Some(i) => {
                    &&& 0 <= i < old(self).players@.len()
                    &&& removed == Ok::<Player, String>(old(self).players@[i])
                    &&& final(self).players@ == old(self).players@.remove(i)
                    &&& final(self).active_roster@ == without(old(self).active_roster@, player_id@)
                    &&& final(self).injured_list@ == without(old(self).injured_list@, player_id@)
                },
                None => {
                    &&& removed matches Err(why)
                    &&& why@ == "Player not found"@
                    &&& *final(self) == *old(self)
                },
            },
            old(self).wf() ==> final(self).wf(),
    {
        match self.player_index(player_id) {
            Some(i) => {
                let player = self.players.remove(i);
                remove_id(&mut self.active_roster, player_id);
                remove_id(&mut self.injured_list, player_id);
                Ok(player)
            },
            None => Err(String::from_str("Player not found")),
        }
    }

    pub fn get_player(&self, player_id: &str) -> (player: Option<&Player>)
        ensures
            match card_of(self.players@, player_id@, 0) {
                Some(i) => 0 <= i < self.players@.len() && player == Some(&self.players@[i]),
                None => player is None,
            },
    {
        match self.player_index(player_id) {
            Some(i) => Some(&self.players[i]),
            None => None,
        }
    }

    pub fn get_player_mut(&mut self, player_id: &str) -> (player: Option<&mut Player>)
        ensures
            match card_of(old(self).players@, player_id@, 0) {
                Some(i) => {
                    &&& 0 <= i < old(self).players@.len()
                    &&& player matches Some(p)
                    &&& *p == old(self).players@[i]
                    &&& final(self).players@ == old(self).players@.update(i, *final(p))
                },
                None => player is None && final(self).players == old(self).players,
            },
            final(self).active_roster == old(self).active_roster,
            final(self).injured_list == old(self).injured_list,
            final(self).max_roster_size == old(self).max_roster_size,
            final(self).max_active_size == old(self).max_active_size,
    {
        match self.player_index(player_id) {
            Some(i) => Some(&mut self.players[i]),
            None => None,
        }
    }

    /// Why a player cannot be put on the active roster, if he cannot.
    pub open spec fn activation_refused(&self, player_id: Seq<char>) -> Option<Seq<char>> {
        if card_of(self.players@, player_id, 0) is None {
            Some("Player not found"@)
        } else if has_id(self.active_roster@, player_id) {
            Some("Player already active"@)
        } else if self.active_roster@.len() >= self.max_active_size {
            Some("Active roster is full"@)
        } else {
            None
        }
    }

    /// Puts a player of the roster on the active roster and takes him off
    /// the injured list.
    pub fn activate_player(&mut self, player_id: &str) -> (done: Result<(), String>)
        ensures
            final(self).same_players(old(self)),
            match old(self).activation_refused(player_id@) {
                Some(reason) => {
                    &&& done matches Err(why)
                    &&& why@ == reason
                    &&& *final(self) == *old(self)
                },
                None => {
                    &&& done is Ok
                    &&& final(self).active_roster@.len() == old(self).active_roster@.len() + 1
                    &&& final(self).active_roster@.drop_last() == old(self).active_roster@
                    &&& final(self).active_roster@.last()@ == player_id@
                    &&& final(self).injured_list@ == without(old(self).injured_list@, player_id@)
                },
            },
    {
        if self.player_index(player_id).is_none() {
            return Err(String::from_str("Player not found"));
        }
        if contains_id(&self.active_roster, player_id) {
            return Err(String::from_str("Player already active"));
        }
        if self.active_roster.len() >= self.max_active_size {
            return Err(String::from_str("Active roster is full"));
        }
        let ghost before = self.active_roster@;
        self.active_roster.push(String::from_str(player_id));
        assert(self.active_roster@.drop_last() =~= before);
        remove_id(&mut self.injured_list, player_id);
        Ok(())
    }

    /// Takes a player off the active roster.
    pub fn deactivate_player(&mut self, player_id: &str) -> (done: Result<(), String>)
        ensures
            final(self).same_players(old(self)),
            final(self).injured_list == old(self).injured_list,
            has_id(old(self).active_roster@, player_id@) ==> done is Ok && final(self).active_roster@ == without(old(self).active_roster@, player_id@),
            !has_id(old(self).active_roster@, player_id@) ==> {
                &&& done matches Err(why)
                &&& why@ == "Player not on active roster"@
                &&& *final(self) == *old(self)
            },
    {
        if !contains_id(&self.active_roster, player_id) {
            return Err(String::from_str("Player not on active roster"));
        }
        remove_id(&mut self.active_roster, player_id);
        Ok(())
    }

    /// Marks a player as hurt and moves him from the active roster to the
    /// injured list.
    pub fn move_to_injured_list(&mut self, player_id: &str) -> (done: Result<(), String>)
        ensures
            final(self).max_roster_size == old(self).max_roster_size,
            final(self).max_active_size == old(self).max_active_size,
            match card_of(old(self).players@, player_id@, 0) {
                Some(i) => {
                    &&& done is Ok
                    &&& 0 <= i < old(self).players@.len()
                    &&& final(self).players@ == old(self).players@.update(
                        i,
                        Player { is_injured: true, ..old(self).players@[i] },
                    )
                    &&& final(self).active_roster@ == without(old(self).active_roster@, player_id@)
                    &&& if has_id(old(self).injured_list@, player_id@) {
                        final(self).injured_list == old(self).injured_list
                    } else {
                        &&& final(self).injured_list@.len() == old(self).injured_list@.len() + 1
                        &&& final(self).injured_list@.drop_last() == old(self).injured_list@
                        &&& final(self).injured_list@.last()@ == player_id@
                    }
                },
                None => {
                    &&& done matches Err(why)
                    &&& why@ == "Player not found"@
                    &&& *final(self) == *old(self)
                },
            },
            old(self).wf() ==> final(self).wf(),
    {
        let i = match self.player_index(player_id) {
            Some(i) => i,
            None => {
                return Err(String::from_str("Player not found"));
            },
        };
        self.players[i].is_injured = true;
        remove_id(&mut self.active_roster, player_id);
        if !contains_id(&self.injured_list, player_id) {
            let ghost before = self.injured_list@;
            self.injured_list.push(String::from_str(player_id));
            assert(self.injured_list@.drop_last() =~= before);
        }
        Ok(())
    }

    /// Why a player cannot come off the injured list, if he cannot.
    pub open spec fn return_refused(&self, player_id: Seq<char>) -> Option<Seq<char>> {
        if !has_id(self.injured_list@, player_id) {
            Some("Player not on injured list"@)
        } else if self.active_roster@.len() >= self.max_active_size {
            Some("Active roster is full"@)
        } else {
            None
        }
    }

    /// Brings a player back from the injured list: he is healthy again and
    /// on the active roster.
    pub fn activate_from_injured_list(&mut self, player_id: &str) -> (done: Result<(), String>)
        ensures
            final(self).max_roster_size == old(self).max_roster_size,
            final(self).max_active_size == old(self).max_active_size,
            match old(self).return_refused(player_id@) {
                Some(reason) => {
                    &&& done matches Err(why)
                    &&& why@ == reason
                    &&& *final(self) == *old(self)
                },
                None => {
                    &&& done is Ok
                    &&& final(self).players@ == match card_of(old(self).players@, player_id@, 0) {
                        Some(i) => old(self).players@.update(
                            i,
                            Player { is_injured: false, ..old(self).players@[i] },
                        ),
                        None => old(self).players@,
                    }
                    &&& final(self).injured_list@ == without(old(self).injured_list@, player_id@)
                    &&& final(self).active_roster@.len() == old(self).active_roster@.len() + 1
                    &&& final(self).active_roster@.drop_last() == old(self).active_roster@
                    &&& final(self).active_roster@.last()@ == player_id@
                },
            },
            old(self).wf() ==> final(self).wf(),
    {
        if !contains_id(&self.injured_list, player_id) {
            return Err(String::from_str("Player not on injured list"));
        }
        if self.active_roster.len() >= self.max_active_size {
            return Err(String::from_str("Active roster is full"));
        }
        proof {
            lemma_card_of(self.players@, player_id@, 0);
        }
        match self.player_index(player_id) {
            Some(i) => {
                self.players[i].is_injured = false;
            },
            None => {},
        }
        remove_id(&mut self.injured_list, player_id);
        let ghost before = self.active_roster@;
        self.active_roster.push(String::from_str(player_id));
        assert(self.active_roster@.drop_last() =~= before);
        Ok(())
    }

    /// The players that a list of ids names.
    fn players_named<'a>(&'a self, ids: &Vec<String>) -> (found: Vec<&'a Player>)
        ensures
            pointed(found@) == named(self.players@, ids@),
    {
        let mut found: Vec<&Player> = Vec::new();
        let mut i: usize = 0;
        while i < ids.len()
            invariant
                i <= ids@.len(),
                pointed(found@) == named(self.players@, ids@.take(i as int)),
            decreases ids@.len() - i,
        {
            proof {
                assert(ids@.take(i as int + 1).drop_last() =~= ids@.take(i as int));
                assert(ids@.take(i as int + 1).last() == ids@[i as int]);
            }
            let ghost before = found@;
            match self.player_index(ids[i].as_str()) {
                Some(k) => {
                    found.push(&self.players[k]);
                    assert(pointed(found@) =~= pointed(before).push(self.players@[k as int]));
                },
                None => {},
            }
            i = i + 1;
        }
        proof {
            assert(ids@.take(ids@.len() as int) =~= ids@);
        }
        found
    }

    /// The players of a list that a selection takes.
    fn pick_from<'a>(players: Vec<&'a Player>, pick: Pick) -> (found: Vec<&'a Player>)
        ensures
            pointed(found@) == picked(pointed(players@), pick),
    {
        let mut found: Vec<&Player> = Vec::new();
        let mut i: usize = 0;
        while i < players.len()
            invariant
                i <= players@.len(),
                pointed(found@) == picked(pointed(players@).take(i as int), pick),
            decreases players@.len() - i,
        {
            let ghost all = pointed(players@);
            proof {
                assert(all.take(i as int + 1).drop_last() =~= all.take(i as int));
                assert(all.take(i as int + 1).last() == *players@[i as int]);
            }
            let player: &Player = players[i];
            let taken = match pick {
                Pick::Everyone => true,
                Pick::At(position) => player.can_play_position(position),
                Pick::Pitchers => player.is_pitcher(),
                Pick::Starters => match player.pitching {
                    Some(card) => card.role == PitcherRole::Starter,
                    None => false,
                },
                Pick::Relievers => match player.pitching {
                    Some(card) => card.role != PitcherRole::Starter,
                    None => false,
                },
                Pick::PositionPlayers => player.is_position_player(),
            };
            if taken {
                let ghost before = found@;
                found.push(player);
                assert(pointed(found@) =~= pointed(before).push(*player));
            }
            i = i + 1;
        }
        proof {
            assert(pointed(players@).take(players@.len() as int) =~= pointed(players@));
        }
        found
    }

    /// The active players, in the order of the active roster.
    pub fn get_active_players(&self) -> (players: Vec<&Player>)
        ensures
            pointed(players@) == self.active(),
    {
        self.players_named(&self.active_roster)
    }

    /// The players on the injured list, in its order.
    pub fn get_injured_players(&self) -> (players: Vec<&Player>)
        ensures
            pointed(players@) == named(self.players@, self.injured_list@),
    {
        self.players_named(&self.injured_list)
    }

    /// The active players who can be put at a position.
    pub fn get_players_by_position(&self, position: Position) -> (players: Vec<&Player>)
        ensures
            pointed(players@) == picked(self.active(), Pick::At(position)),
    {
        Self::pick_from(self.get_active_players(), Pick::At(position))
    }

    /// The active pitchers.
    pub fn get_pitchers(&self) -> (players: Vec<&Player>)
        ensures
            pointed(players@) == picked(self.active(), Pick::Pitchers),
    {
        Self::pick_from(self.get_active_players(), Pick::Pitchers)
    }

    /// The active starting pitchers.
    pub fn get_starters(&self) -> (players: Vec<&Player>)
        ensures
            pointed(players@) == picked(self.active(), Pick::Starters),
    {
        Self::pick_from(self.get_active_players(), Pick::Starters)
    }

    /// The active relievers and closers.
    pub fn get_relievers(&self) -> (players: Vec<&Player>)
        ensures
            pointed(players@) == picked(self.active(), Pick::Relievers),
    {
        Self::pick_from(self.get_active_players(), Pick::Relievers)
    }

    /// The active players who bat.
    pub fn get_position_players(&self) -> (players: Vec<&Player>)
        ensures
            pointed(players@) == picked(self.active(), Pick::PositionPlayers),
    {
        Self::pick_from(self.get_active_players(), Pick::PositionPlayers)
    }

    /// Whether the roster can take the field: the active roster is within
    /// its size and has five pitchers and eight batters at least.
    pub fn is_roster_legal(&self) -> (legal: bool)
        ensures
            legal == (self.active_roster@.len() <= self.max_active_size && picked(
                self.active(),
                Pick::Pitchers,
            ).len() >= 5 && picked(self.active(), Pick::PositionPlayers).len() >= 8),
    {
        let pitchers = self.get_pitchers();
        let batters = self.get_position_players();
        assert(pointed(pitchers@).len() == pitchers@.len());
        assert(pointed(batters@).len() == batters@.len());
        self.active_roster.len() <= self.max_active_size && pitchers.len() >= 5 && batters.len()
            >= 8
    }

    /// The roster in a line.
    pub open spec fn summary(&self) -> Seq<char> {
        "Roster: "@ + decimal(self.players@.len()) + "/"@ + decimal(self.max_roster_size as nat)
            + " total, "@ + decimal(self.active_roster@.len()) + "/"@ + decimal(
            self.max_active_size as nat,
        ) + " active, "@ + decimal(self.injured_list@.len()) + " injured, "@ + decimal(
            picked(self.active(), Pick::Pitchers).len(),
        ) + " pitchers, "@ + decimal(picked(self.active(), Pick::PositionPlayers).len())
            + " position players"@
    }

    pub fn roster_summary(&self) -> (text: String)
        ensures
            text@ == self.summary(),
    {
        let pitchers = self.get_pitchers();
        let batters = self.get_position_players();
        assert(pointed(pitchers@).len() == pitchers@.len());
        assert(pointed(batters@).len() == batters@.len());
        let mut text = String::from_str("Roster: ");
        text.append(decimal_string(self.players.len() as u64).as_str());
        text.append("/");
        text.append(decimal_string(self.max_roster_size as u64).as_str());
        text.append(" total, ");
        text.append(decimal_string(self.active_roster.len() as u64).as_str());
        text.append("/");
        text.append(decimal_string(self.max_active_size as u64).as_str());
        text.append(" active, ");
        text.append(decimal_string(self.injured_list.len() as u64).as_str());
        text.append(" injured, ");
        text.append(decimal_string(pitchers.len() as u64).as_str());
        text.append(" pitchers, ");
        text.append(decimal_string(batters.len() as u64).as_str());
        text.append(" position players");
        assert(text@ =~= self.summary());
        text
    }
}

} // verus!
