//! League data as it is kept on file, and the teams and players made of it.

use crate::sim::players::{Handedness, PitcherRole, Position};
use crate::sim::roster::{card_of, lemma_card_of, PitchingCard, Player};
use crate::sim::team::{Team, TeamColors};
use crate::text::str_eq;
use vstd::prelude::*;
use vstd::string::*;

verus! {

/// A player as a league file describes him.
#[derive(Debug, Clone)]
pub struct PlayerData {
    pub id: String,
    pub name: String,
    pub jersey_number: u8,
    pub age: u8,
    pub height: String,
    pub weight: u16,
    pub position: Position,
    pub throws: Handedness,
    pub bats: Handedness,
    pub salary: u32,
    pub years_pro: u8,
    pub pitcher_role: Option<PitcherRole>,
    pub secondary_positions: Vec<Position>,
}

/// A team as a league file describes it.
#[derive(Debug, Clone)]
pub struct TeamData {
    pub id: String,
    pub name: String,
    pub city: String,
    pub abbreviation: String,
    pub primary_color: String,
    pub secondary_color: String,
    pub ballpark_name: String,
    pub players: Vec<PlayerData>,
}

#[derive(Debug, Clone)]
pub struct LeagueData {
    pub name: String,
    pub teams: Vec<TeamData>,
    pub season_year: u16,
}

/// What a description says of a player, as plain values.
pub struct PlayerSheet {
    pub id: Seq<char>,
    pub name: Seq<char>,
    pub jersey_number: u8,
    pub age: u8,
    pub height: Seq<char>,
    pub weight: u16,
    pub position: Position,
    pub throws: Handedness,
    pub bats: Handedness,
    pub salary: u32,
    pub years_pro: u8,
    pub pitcher_role: Option<PitcherRole>,
    pub secondary_positions: Seq<Position>,
}

/// What a description says of a team, as plain values.
pub struct TeamSheet {
    pub id: Seq<char>,
    pub name: Seq<char>,
    pub city: Seq<char>,
    pub abbreviation: Seq<char>,
    pub primary_color: Seq<char>,
    pub secondary_color: Seq<char>,
    pub ballpark_name: Seq<char>,
    pub players: Seq<PlayerSheet>,
}

/// What a description says of a league, as plain values.
pub struct LeagueSheet {
    pub name: Seq<char>,
    pub teams: Seq<TeamSheet>,
    pub season_year: u16,
}

impl PlayerData {
    pub open spec fn sheet(self) -> PlayerSheet {
        PlayerSheet {
            id: self.id@,
            name: self.name@,
            jersey_number: self.jersey_number,
            age: self.age,
            height: self.height@,
            weight: self.weight,
            position: self.position,
            throws: self.throws,
            bats: self.bats,
            salary: self.salary,
            years_pro: self.years_pro,
            pitcher_role: self.pitcher_role,
            secondary_positions: self.secondary_positions@,
        }
    }
}

impl TeamData {
    pub open spec fn sheet(self) -> TeamSheet {
        TeamSheet {
            id: self.id@,
            name: self.name@,
            city: self.city@,
            abbreviation: self.abbreviation@,
            primary_color: self.primary_color@,
            secondary_color: self.secondary_color@,
            ballpark_name: self.ballpark_name@,
            players: self.players@.map_values(|p: PlayerData| p.sheet()),
        }
    }
}

impl LeagueData {
    pub open spec fn sheet(self) -> LeagueSheet {
        LeagueSheet {
            name: self.name@,
            teams: self.teams@.map_values(|t: TeamData| t.sheet()),
            season_year: self.season_year,
        }
    }
}

pub struct DataLoader;

pub struct MLBDataImporter;

/// Whether a player is the one that a description makes: healthy, with the
/// average skills of a batter or, for a pitcher, of a pitcher in the role
/// described (a starter if none is), and pitchers bat from the side they
/// throw from.
pub open spec fn made_from(player: Player, data: PlayerData) -> bool {
    let pitches = data.position == Position::Pitcher;
    &&& player.id@ == data.id@
    &&& player.name@ == data.name@
    &&& player.jersey_number == data.jersey_number
    &&& player.primary_position == data.position
    &&& player.secondary_positions@ == data.secondary_positions@
    &&& player.batting == if pitches {
        None
    } else {
        Some(Player::default_batting())
    }
    &&& player.pitching == if pitches {
        Some(
            PitchingCard {
                control: 600,
                role: match data.pitcher_role {
                    Some(role) => role,
                    None => PitcherRole::Starter,
                },
            },
        )
    } else {
        None
    }
    &&& !player.is_injured
    &&& player.age == data.age
    &&& player.height@ == data.height@
    &&& player.weight == data.weight
    &&& player.throws == data.throws
    &&& player.bats == if pitches {
        data.throws
    } else {
        data.bats
    }
    &&& player.salary == data.salary
    &&& player.years_pro == data.years_pro
}

/// The roster once a player has joined it: a player whose id is on the
/// roster takes the place of the one who had it, anybody else goes to the
/// end.
pub open spec fn joined_by(before: Seq<Player>, player: Player, after: Seq<Player>) -> bool {
    after == match card_of(before, player.id@, 0) {
        Some(i) => before.update(i, player),
        None => before.push(player),
    }
}

/// The roster after the players of the first `k` descriptions have signed,
/// one after the other.
pub open spec fn signed(data: Seq<PlayerData>, players: Seq<Player>, k: int) -> bool
    decreases k,
{
    if k <= 0 {
        players.len() == 0
    } else {
        exists|before: Seq<Player>, player: Player|
            signed(data, before, k - 1) && made_from(player, data[k - 1]) && #[trigger] joined_by(
                before,
                player,
                players,
            )
    }
}

/// The name, city, abbreviation, colours and ballpark of a club by its
/// number; of the two clubs that are known, or of a club without a name.
pub open spec fn club_identity(team_id: Seq<char>) -> (
    Seq<char>,
    Seq<char>,
    Seq<char>,
    Seq<char>,
    Seq<char>,
    Seq<char>,
) {
    if team_id == "147"@ {
        ("Yankees"@, "New York"@, "NYY"@, "Navy Blue"@, "Gray"@, "Yankee Stadium"@)
    } else if team_id == "119"@ {
        ("Dodgers"@, "Los Angeles"@, "LAD"@, "Dodger Blue"@, "White"@, "Dodger Stadium"@)
    } else {
        ("Team"@, "Unknown"@, "UNK"@, "Blue"@, "White"@, "Stadium"@)
    }
}

/// The positions of a standard line-up, in batting order.
pub open spec fn standard_position(k: int) -> Position {
    if k == 0 {
        Position::Catcher
    } else if k == 1 {
        Position::FirstBase
    } else if k == 2 {
        Position::SecondBase
    } else if k == 3 {
        Position::ThirdBase
    } else if k == 4 {
        Position::Shortstop
    } else if k == 5 {
        Position::LeftField
    } else if k == 6 {
        Position::CenterField
    } else if k == 7 {
        Position::RightField
    } else {
        Position::DesignatedHitter
    }
}

impl DataLoader {
    /// Makes the player that a description describes. Every description
    /// makes one.
    pub fn create_player_from_data(player_data: &PlayerData) -> (made: Result<Player, String>)
        ensures
            made matches Ok(player) && made_from(player, *player_data),
    {
        let mut player = if player_data.position == Position::Pitcher {
            Player::pitcher(
                player_data.id.clone(),
                player_data.name.clone(),
                player_data.jersey_number,
                player_data.throws,
                match player_data.pitcher_role {
                    Some(role) => role,
                    None => PitcherRole::Starter,
                },
            )
        } else {
            Player::position_player(
                player_data.id.clone(),
                player_data.name.clone(),
                player_data.jersey_number,
                player_data.position,
                player_data.throws,
                player_data.bats,
            )
        };
        player.age = player_data.age;
        player.height = player_data.height.clone();
        player.weight = player_data.weight;
        player.salary = player_data.salary;
        player.years_pro = player_data.years_pro;
        player.secondary_positions = player_data.secondary_positions.clone();
        Ok(player)
    }

    /// Makes the team that a description describes and signs its players. A
    /// team with more players than a roster holds cannot be made.
    pub fn create_team_from_data(team_data: &TeamData) -> (made: Result<Team, String>)
        ensures
            made matches Ok(team) ==> {
                &&& team.id@ == team_data.id@
                &&& team.name@ == team_data.name@
                &&& team.city@ == team_data.city@
                &&& team.abbreviation@ == team_data.abbreviation@
                &&& team.colors.primary@ == team_data.primary_color@
                &&& team.colors.secondary@ == team_data.secondary_color@
                &&& team.ballpark_name@ == team_data.ballpark_name@
                &&& team.lineup.spots@.len() == 0
                &&& team.roster.wf()
                &&& team.roster.max_roster_size == 40
                &&& team.roster.max_active_size == 25
                &&& signed(team_data.players@, team.roster.players@, team_data.players@.len() as int)
            },
            made matches Err(why) ==> why@ == "Roster is full"@,
            team_data.players@.len() <= 40 ==> made is Ok,
    {
        let mut team = Team::new(
            team_data.id.clone(),
            team_data.name.clone(),
            team_data.city.clone(),
            team_data.abbreviation.clone(),
        ).with_colors(team_data.primary_color.clone(), team_data.secondary_color.clone())
            .with_ballpark(team_data.ballpark_name.clone());
        let mut k: usize = 0;
        while k < team_data.players.len()
            invariant
                k <= team_data.players@.len(),
                team.id@ == team_data.id@,
                team.name@ == team_data.name@,
                team.city@ == team_data.city@,
                team.abbreviation@ == team_data.abbreviation@,
                team.colors.primary@ == team_data.primary_color@,
                team.colors.secondary@ == team_data.secondary_color@,
                team.ballpark_name@ == team_data.ballpark_name@,
                team.lineup.spots@.len() == 0,
                team.roster.wf(),
                team.roster.max_roster_size == 40,
                team.roster.max_active_size == 25,
                team.roster.players@.len() <= k,
                signed(team_data.players@, team.roster.players@, k as int),
            decreases team_data.players@.len() - k,
        {
            let player = match Self::create_player_from_data(&team_data.players[k]) {
                Ok(player) => player,
                Err(why) => {
                    return Err(why);
                },
            };
            let ghost before = team.roster.players@;
            let ghost signing = player;
            proof {
                lemma_card_of(before, player.id@, 0);
            }
            match team.add_player(player) {
                Ok(_) => {},
                Err(why) => {
                    return Err(why);
                },
            }
            k = k + 1;
            assert(signed(team_data.players@, team.roster.players@, k as int)) by {
                assert(signed(team_data.players@, before, k - 1) && made_from(
                    signing,
                    team_data.players@[k - 1],
                ) && joined_by(before, signing, team.roster.players@));
            }
        }
        Ok(team)
    }
}

impl MLBDataImporter {
    pub fn get_team_name(team_id: &str) -> (name: String)
        ensures
            name@ == club_identity(team_id@).0,
    {
        if str_eq(team_id, "147") {
            String::from_str("Yankees")
        } else if str_eq(team_id, "119") {
            String::from_str("Dodgers")
        } else {
            String::from_str("Team")
        }
    }

    pub fn get_team_city(team_id: &str) -> (city: String)
        ensures
            city@ == club_identity(team_id@).1,
    {
        if str_eq(team_id, "147") {
            String::from_str("New York")
        } else if str_eq(team_id, "119") {
            String::from_str("Los Angeles")
        } else {
            String::from_str("Unknown")
        }
    }

    pub fn get_team_abbreviation(team_id: &str) -> (abbreviation: String)
        ensures
            abbreviation@ == club_identity(team_id@).2,
    {
        if str_eq(team_id, "147") {
            String::from_str("NYY")
        } else if str_eq(team_id, "119") {
            String::from_str("LAD")
        } else {
            String::from_str("UNK")
        }
    }

    pub fn get_team_colors(team_id: &str) -> (colors: TeamColors)
        ensures
            colors.primary@ == club_identity(team_id@).3,
            colors.secondary@ == club_identity(team_id@).4,
    {
        if str_eq(team_id, "147") {
            TeamColors { primary: String::from_str("Navy Blue"), secondary: String::from_str("Gray") }
        } else if str_eq(team_id, "119") {
            TeamColors {
                primary: String::from_str("Dodger Blue"),
                secondary: String::from_str("White"),
            }
        } else {
            TeamColors { primary: String::from_str("Blue"), secondary: String::from_str("White") }
        }
    }

    pub fn get_ballpark_name(team_id: &str) -> (name: String)
        ensures
            name@ == club_identity(team_id@).5,
    {
        if str_eq(team_id, "147") {
            String::from_str("Yankee Stadium")
        } else if str_eq(team_id, "119") {
            String::from_str("Dodger Stadium")
        } else {
            String::from_str("Stadium")
        }
    }

    /// Gives the first nine of a number of players their places in a
    /// standard line-up: each position with the index of the player who
    /// plays it.
    pub fn create_standard_lineup(player_count: usize) -> (places: Vec<(Position, usize)>)
        ensures
            places@.len() == if player_count < 9 {
                player_count as int
            } else {
                9
            },
            forall|k: int|
                0 <= k < places@.len() ==> (#[trigger] places@[k]) == (standard_position(k), k as usize),
    {
        let mut places: Vec<(Position, usize)> = Vec::new();
        let mut k: usize = 0;
        while k < 9 && k < player_count
            invariant
                k <= 9,
                k <= player_count,
                places@.len() == k,
                forall|j: int|
                    0 <= j < k ==> (#[trigger] places@[j]) == (standard_position(j), j as usize),
            decreases 9 - k,
        {
            let position = match k {
                0 => Position::Catcher,
                1 => Position::FirstBase,
                2 => Position::SecondBase,
                3 => Position::ThirdBase,
                4 => Position::Shortstop,
                5 => Position::LeftField,
                6 => Position::CenterField,
                7 => Position::RightField,
                _ => Position::DesignatedHitter,
            };
            places.push((position, k));
            k = k + 1;
        }
        places
    }
}

} // verus!
