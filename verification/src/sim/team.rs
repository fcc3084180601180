//! A team: its players and the line-up it sends out.

use crate::sim::lineup::{spot_of_position, Lineup, LineupSpot};
use crate::sim::players::Position;
use crate::sim::roster::{card_of, picked, pointed, Pick, Player, Roster};
use crate::text::{decimal, decimal_string, str_eq, texts};
use vstd::prelude::*;
use vstd::string::*;

verus! {

/// The eight positions in the field that a line-up has to fill, in the order
/// in which they are looked for.
pub open spec fn required_position(k: int) -> Position {
    if k == 0 {
        Position::Catcher
    } else if k == 1 {
        Position::FirstBase
    } else if k == 2 {
        Position::SecondBase
    } else if k == 3 {
        Position::ThirdBase
    } else if k == 4 {
        Position::Shortstop
    } else if k == 5 {
        Position::LeftField
    } else if k == 6 {
        Position::CenterField
    } else {
        Position::RightField
    }
}

/// The complaints about the first `k` required positions: one for each that
/// nobody plays.
pub open spec fn unfilled(spots: Seq<LineupSpot>, k: int) -> Seq<Seq<char>>
    decreases k,
{
    if k <= 0 {
        Seq::<Seq<char>>::empty()
    } else if spot_of_position(spots, required_position(k - 1), 0) is None {
        unfilled(spots, k - 1).push(
            "No player assigned to "@ + required_position(k - 1).long_name(),
        )
    } else {
        unfilled(spots, k - 1)
    }
}

/// The complaint about one spot, if there is one: its player is not among
/// the players, or cannot play the position.
pub open spec fn misplaced(spot: LineupSpot, players: Seq<Player>) -> Option<Seq<char>> {
    match card_of(players, spot.player_id@, 0) {
        Some(i) => if players[i].plays(spot.position) {
            None
        } else {
            Some(players[i].name@ + " cannot play "@ + spot.position.long_name())
        },
        None => Some("Player "@ + spot.player_id@ + " not found in roster"@),
    }
}

/// The complaints about the first `k` spots.
pub open spec fn misplacements(spots: Seq<LineupSpot>, players: Seq<Player>, k: int) -> Seq<
    Seq<char>,
>
    decreases k,
{
    if k <= 0 {
        Seq::<Seq<char>>::empty()
    } else {
        match misplaced(spots[k - 1], players) {
            Some(complaint) => misplacements(spots, players, k - 1).push(complaint),
            None => misplacements(spots, players, k - 1),
        }
    }
}

/// The complaint about the starting pitcher, if there is one.
pub open spec fn bad_starter(pitcher_id: Seq<char>, players: Seq<Player>) -> Option<Seq<char>> {
    match card_of(players, pitcher_id, 0) {
        Some(i) => if players[i].pitching is Some {
            None
        } else {
            Some(players[i].name@ + " is not a pitcher"@)
        },
        None => Some("Starting pitcher not found in roster"@),
    }
}

/// Everything that is wrong with a line-up, for the players it may use: that
/// it is not complete, the positions nobody plays, the spots whose player is
/// missing or out of position, and the starting pitcher.
pub open spec fn complaints(lineup: Lineup, players: Seq<Player>) -> Seq<Seq<char>> {
    (if lineup.spots@.len() == 9 && lineup.starting_pitcher_id@.len() > 0 {
        Seq::<Seq<char>>::empty()
    } else {
        seq!["Lineup is not complete"@]
    }) + unfilled(lineup.spots@, 8) + misplacements(
        lineup.spots@,
        players,
        lineup.spots@.len() as int,
    ) + (match bad_starter(lineup.starting_pitcher_id@, players) {
        Some(complaint) => seq![complaint],
        None => Seq::<Seq<char>>::empty(),
    })
}

/// A line of the line-up card: name and number.
pub open spec fn name_and_number(player: Player) -> Seq<char> {
    player.name@ + " "@ + decimal(player.jersey_number as nat)
}

/// The lines of the first `k` spots on the line-up card; a spot whose player
/// is not among the players is left out.
pub open spec fn spot_lines(spots: Seq<LineupSpot>, players: Seq<Player>, k: int) -> Seq<Seq<char>>
    decreases k,
{
    if k <= 0 {
        Seq::<Seq<char>>::empty()
    } else {
        match card_of(players, spots[k - 1].player_id@, 0) {
            Some(i) => spot_lines(spots, players, k - 1).push(
                decimal(spots[k - 1].batting_order as nat) + ". "@ + name_and_number(players[i])
                    + " - "@ + spots[k - 1].position.short_name(),
            ),
            None => spot_lines(spots, players, k - 1),
        }
    }
}

/// The line-up card: a heading, the batting order, the designated hitter
/// and the starting pitcher.
pub open spec fn card_lines(lineup: Lineup, players: Seq<Player>) -> Seq<Seq<char>> {
    seq!["BATTING ORDER:"@] + spot_lines(lineup.spots@, players, lineup.spots@.len() as int) + (
    match lineup.designated_hitter {
        Some(dh) => match card_of(players, dh@, 0) {
            Some(i) => seq!["DH: "@ + name_and_number(players[i])],
            None => Seq::<Seq<char>>::empty(),
        },
        None => Seq::<Seq<char>>::empty(),
    }) + (match card_of(players, lineup.starting_pitcher_id@, 0) {
        Some(i) => seq!["SP: "@ + name_and_number(players[i])],
        None => Seq::<Seq<char>>::empty(),
    })
}

/// Finds the first of the players with an id.
pub fn find_player<'a>(players: &Vec<&'a Player>, player_id: &str) -> (found: Option<&'a Player>)
    ensures
        match card_of(pointed(players@), player_id@, 0) {
            Some(i) => 0 <= i < players@.len() && found == Some(players@[i]),
            None => found is None,
        },
{
    let mut i: usize = 0;
    while i < players.len()
        invariant
            i <= players@.len(),
            card_of(pointed(players@), player_id@, 0) == card_of(
                pointed(players@),
                player_id@,
                i as int,
            ),
        decreases players@.len() - i,
    {
        let player: &Player = players[i];
        assert(pointed(players@)[i as int] == *player);
        if str_eq(player.id.as_str(), player_id) {
            return Some(player);
        }
        i = i + 1;
    }
    None
}

fn required_at(k: usize) -> (position: Position)
    ensures
        position == required_position(k as int),
{
    match k {
        0 => Position::Catcher,
        1 => Position::FirstBase,
        2 => Position::SecondBase,
        3 => Position::ThirdBase,
        4 => Position::Shortstop,
        5 => Position::LeftField,
        6 => Position::CenterField,
        _ => Position::RightField,
    }
}

fn name_number(player: &Player) -> (text: String)
    ensures
        text@ == name_and_number(*player),
{
    let mut text = player.name.clone();
    text.append(" ");
    text.append(decimal_string(player.jersey_number as u64).as_str());
    text
}

impl Lineup {
    /// Lists everything that is wrong with the line-up, for the players it
    /// may use. An empty list means that the line-up can be sent out.
    pub fn validate_lineup(&self, roster_players: &Vec<&Player>) -> (errors: Vec<String>)
        ensures
            texts(errors@) == complaints(*self, pointed(roster_players@)),
    {
        let ghost players = pointed(roster_players@);
        let mut errors: Vec<String> = Vec::new();
        if !self.is_complete() {
            errors.push(String::from_str("Lineup is not complete"));
        }
        let ghost head = texts(errors@);
        assert(head =~= if self.spots@.len() == 9 && self.starting_pitcher_id@.len() > 0 {
            Seq::<Seq<char>>::empty()
        } else {
            seq!["Lineup is not complete"@]
        });
        let mut k: usize = 0;
        while k < 8
            invariant
                k <= 8,
                texts(errors@) == head + unfilled(self.spots@, k as int),
            decreases 8 - k,
        {
            let position = required_at(k);
            if self.get_player_at_position(position).is_none() {
                let mut text = String::from_str("No player assigned to ");
                text.append(position.full_name());
                let ghost before = texts(errors@);
                errors.push(text);
                assert(texts(errors@) =~= before.push(
                    "No player assigned to "@ + position.long_name(),
                ));
            }
            k = k + 1;
            assert(texts(errors@) =~= head + unfilled(self.spots@, k as int));
        }
        let ghost positions = texts(errors@);
        let mut i: usize = 0;
        while i < self.spots.len()
            invariant
                i <= self.spots@.len(),
                players == pointed(roster_players@),
                texts(errors@) == positions + misplacements(self.spots@, players, i as int),
            decreases self.spots@.len() - i,
        {
            let spot = &self.spots[i];
            let ghost before = texts(errors@);
            match find_player(roster_players, spot.player_id.as_str()) {
                Some(player) => {
                    if !player.can_play_position(spot.position) {
                        let mut text = player.name.clone();
                        text.append(" cannot play ");
                        text.append(spot.position.full_name());
                        errors.push(text);
                        assert(texts(errors@) =~= before.push(
                            player.name@ + " cannot play "@ + spot.position.long_name(),
                        ));
                    }
                },
                None => {
                    let mut text = String::from_str("Player ");
                    text.append(spot.player_id.as_str());
                    text.append(" not found in roster");
                    errors.push(text);
                    assert(texts(errors@) =~= before.push(
                        "Player "@ + spot.player_id@ + " not found in roster"@,
                    ));
                },
            }
            i = i + 1;
            assert(texts(errors@) =~= positions + misplacements(self.spots@, players, i as int));
        }
        let ghost body = texts(errors@);
        match find_player(roster_players, self.starting_pitcher_id.as_str()) {
            Some(pitcher) => {
                if !pitcher.is_pitcher() {
                    let mut text = pitcher.name.clone();
                    text.append(" is not a pitcher");
                    errors.push(text);
                    assert(texts(errors@) =~= body.push(pitcher.name@ + " is not a pitcher"@));
                }
            },
            None => {
                errors.push(String::from_str("Starting pitcher not found in roster"));
                assert(texts(errors@) =~= body.push("Starting pitcher not found in roster"@));
            },
        }
        assert(texts(errors@) =~= complaints(*self, players));
        errors
    }

    /// Writes the line-up card.
    pub fn display_lineup(&self, roster_players: &Vec<&Player>) -> (display: Vec<String>)
        ensures
            texts(display@) == card_lines(*self, pointed(roster_players@)),
    {
        let ghost players = pointed(roster_players@);
        let mut display: Vec<String> = Vec::new();
        display.push(String::from_str("BATTING ORDER:"));
        let ghost head = texts(display@);
        assert(head =~= seq!["BATTING ORDER:"@]);
        let mut i: usize = 0;
        while i < self.spots.len()
            invariant
                i <= self.spots@.len(),
                players == pointed(roster_players@),
                texts(display@) == head + spot_lines(self.spots@, players, i as int),
            decreases self.spots@.len() - i,
        {
            let spot = &self.spots[i];
            let ghost before = texts(display@);
            match find_player(roster_players, spot.player_id.as_str()) {
                Some(player) => {
                    let mut text = decimal_string(spot.batting_order as u64);
                    text.append(". ");
                    text.append(name_number(player).as_str());
                    text.append(" - ");
                    text.append(spot.position.abbreviation());
                    display.push(text);
                    assert(texts(display@) =~= before.push(
                        decimal(spot.batting_order as nat) + ". "@ + name_and_number(*player)
                            + " - "@ + spot.position.short_name(),
                    ));
                },
                None => {},
            }
            i = i + 1;
            assert(texts(display@) =~= head + spot_lines(self.spots@, players, i as int));
        }
        let ghost body = texts(display@);
        match &self.designated_hitter {
            Some(dh_id) => match find_player(roster_players, dh_id.as_str()) {
                Some(dh) => {
                    let mut text = String::from_str("DH: ");
                    text.append(name_number(dh).as_str());
                    display.push(text);
                    assert(texts(display@) =~= body.push("DH: "@ + name_and_number(*dh)));
                },
                None => {},
            },
            None => {},
        }
        let ghost with_dh = texts(display@);
        match find_player(roster_players, self.starting_pitcher_id.as_str()) {
            Some(pitcher) => {
                let mut text = String::from_str("SP: ");
                text.append(name_number(pitcher).as_str());
                display.push(text);
                assert(texts(display@) =~= with_dh.push("SP: "@ + name_and_number(*pitcher)));
            },
            None => {},
        }
        assert(texts(display@) =~= card_lines(*self, players));
        display
    }
}

/// Texts joined by a comma and a space.
pub open spec fn joined(texts: Seq<Seq<char>>) -> Seq<char>
    decreases texts.len(),
{
    if texts.len() == 0 {
        Seq::<char>::empty()
    } else if texts.len() == 1 {
        texts[0]
    } else {
        joined(texts.drop_last()) + ", "@ + texts.last()
    }
}

/// Joins texts with a comma and a space.
pub fn join_lines(lines: &Vec<String>) -> (text: String)
    ensures
        text@ == joined(texts(lines@)),
{
    let mut text = String::new();
    let mut i: usize = 0;
    while i < lines.len()
        invariant
            i <= lines@.len(),
            text@ == joined(texts(lines@).take(i as int)),
        decreases lines@.len() - i,
    {
        let ghost all = texts(lines@);
        proof {
            assert(all.take(i as int + 1).drop_last() =~= all.take(i as int));
            assert(all.take(i as int + 1).last() == lines@[i as int]@);
        }
        if i > 0 {
            text.append(", ");
        }
        text.append(lines[i].as_str());
        assert(text@ =~= joined(all.take(i as int + 1)));
        i = i + 1;
    }
    proof {
        assert(texts(lines@).take(lines@.len() as int) =~= texts(lines@));
    }
    text
}

/// The colours a team plays in.
#[derive(Debug, Clone)]
pub struct TeamColors {
    pub primary: String,
    pub secondary: String,
}

#[derive(Debug, Clone)]
pub struct Team {
    pub id: String,
    pub name: String,
    pub city: String,
    pub abbreviation: String,
    pub colors: TeamColors,
    pub roster: Roster,
    pub lineup: Lineup,
    pub ballpark_name: String,
}

impl Team {
    /// City and name, as in "Boston Red Sox".
    pub open spec fn spec_full_name(&self) -> Seq<char> {
        self.city@ + " "@ + self.name@
    }

    /// A team in blue and white that plays at "Stadium", without players.
    pub fn new(id: String, name: String, city: String, abbreviation: String) -> (team: Self)
        ensures
            team.id == id,
            team.name == name,
            team.city == city,
            team.abbreviation == abbreviation,
            team.colors.primary@ == "Blue"@,
            team.colors.secondary@ == "White"@,
            team.roster.players@.len() == 0,
            team.roster.active_roster@.len() == 0,
            team.roster.injured_list@.len() == 0,
            team.roster.max_roster_size == 40,
            team.roster.max_active_size == 25,
            team.roster.wf(),
            team.lineup.spots@.len() == 0,
            team.lineup.designated_hitter is None,
            team.lineup.starting_pitcher_id@.len() == 0,
            team.lineup.bench_players@.len() == 0,
            team.ballpark_name@ == "Stadium"@,
    {
        Self {
            id,
            name,
            city,
            abbreviation,
            colors: TeamColors {
                primary: String::from_str("Blue"),
                secondary: String::from_str("White"),
            },
            roster: Roster::new(),
            lineup: Lineup::new(),
            ballpark_name: String::from_str("Stadium"),
        }
    }

    pub fn with_colors(self, primary: String, secondary: String) -> (team: Self)
        ensures
            team == (Team { colors: TeamColors { primary, secondary }, ..self }),
    {
        let mut team = self;
        team.colors = TeamColors { primary, secondary };
        team
    }

    pub fn with_ballpark(self, ballpark_name: String) -> (team: Self)
        ensures
            team == (Team { ballpark_name, ..self }),
    {
        let mut team = self;
        team.ballpark_name = ballpark_name;
        team
    }

    pub fn full_name(&self) -> (text: String)
        ensures
            text@ == self.spec_full_name(),
    {
        let mut text = self.city.clone();
        text.append(" ");
        text.append(self.name.as_str());
        text
    }

    /// Puts a player on the team's roster.
    pub fn add_player(&mut self, player: Player) -> (added: Result<(), String>)
        ensures
            final(self).id == old(self).id,
            final(self).name == old(self).name,
            final(self).city == old(self).city,
            final(self).abbreviation == old(self).abbreviation,
            final(self).colors == old(self).colors,
            final(self).lineup == old(self).lineup,
            final(self).ballpark_name == old(self).ballpark_name,
            final(self).roster.max_roster_size == old(self).roster.max_roster_size,
            final(self).roster.max_active_size == old(self).roster.max_active_size,
            final(self).roster.injured_list == old(self).roster.injured_list,
            added is Ok == (old(self).roster.players@.len() < old(self).roster.max_roster_size),
            added matches Err(why) ==> why@ == "Roster is full"@ && final(self).roster == old(self).roster,
            added is Ok ==> final(self).roster.players@ == match card_of(
                old(self).roster.players@,
                player.id@,
                0,
            ) {
                Some(i) => old(self).roster.players@.update(i, player),
                None => old(self).roster.players@.push(player),
            },
            old(self).roster.wf() ==> final(self).roster.wf(),
    {
        self.roster.add_player(player)
    }

    pub fn get_player(&self, player_id: &str) -> (player: Option<&Player>)
        ensures
            match card_of(self.roster.players@, player_id@, 0) {
                Some(i) => 0 <= i < self.roster.players@.len() && player == Some(
                    &self.roster.players@[i],
                ),
                None => player is None,
            },
    {
        self.roster.get_player(player_id)
    }

    pub fn get_active_players(&self) -> (players: Vec<&Player>)
        ensures
            pointed(players@) == self.roster.active(),
    {
        self.roster.get_active_players()
    }

    /// Sends out a line-up. A line-up with which anything is wrong, for the
    /// team's active players, is refused, and the reasons are given.
    pub fn set_lineup(&mut self, lineup: Lineup) -> (set: Result<(), String>)
        ensures
            final(self).id == old(self).id,
            final(self).name == old(self).name,
            final(self).city == old(self).city,
            final(self).abbreviation == old(self).abbreviation,
            final(self).colors == old(self).colors,
            final(self).roster == old(self).roster,
            final(self).ballpark_name == old(self).ballpark_name,
            complaints(lineup, old(self).roster.active()).len() == 0 ==> set is Ok && final(self).lineup == lineup,
            complaints(lineup, old(self).roster.active()).len() > 0 ==> {
                &&& set matches Err(why)
                &&& why@ == "Invalid lineup: "@ + joined(
                    complaints(lineup, old(self).roster.active()),
                )
                &&& final(self).lineup == old(self).lineup
            },
    {
        let errors = {
            let active_players = self.get_active_players();
            lineup.validate_lineup(&active_players)
        };
        if errors.len() == 0 {
            self.lineup = lineup;
            Ok(())
        } else {
            let mut why = String::from_str("Invalid lineup: ");
            why.append(join_lines(&errors).as_str());
            Err(why)
        }
    }

    /// Whether the team has a complete line-up and a legal roster.
    pub fn is_ready_to_play(&self) -> (ready: bool)
        ensures
            ready == (self.lineup.spots@.len() == 9 && self.lineup.starting_pitcher_id@.len() > 0
                && self.roster.active_roster@.len() <= self.roster.max_active_size
                && picked(self.roster.active(), Pick::Pitchers).len() >= 5 && picked(
                self.roster.active(),
                Pick::PositionPlayers,
            ).len() >= 8),
    {
        self.lineup.is_complete() && self.roster.is_roster_legal()
    }
}

} // verus!
