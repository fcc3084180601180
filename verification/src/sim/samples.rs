//! The league and the batted-ball tables that come with the game, for play
//! without any file.

use crate::sim::data::{DataLoader, LeagueData, LeagueSheet, PlayerData, PlayerSheet, TeamData, TeamSheet};
use crate::sim::players::{Handedness, PitcherRole, Position};
use crate::text::str_eq;
use vstd::prelude::*;
use vstd::string::*;

verus! {

/// Batted-ball statistics of nine New York batters, one line each under a
/// line of column names.
pub const SAMPLE_YANKEES_CSV: &'static str = r#""last_name, first_name","player_id","attempts","avg_hit_angle","anglesweetspotpercent","max_hit_speed","avg_hit_speed","ev50","fbld","gb","max_distance","avg_distance","avg_hr_distance","ev95plus","ev95percent","barrels","brl_percent","brl_pa"
"Judge, Aaron","592450","283","18.5","36","118.1","94.8","106.2","98.5","90","469","201","405","157","55.5","68","24.0","13.7"
"Bellinger, Cody","641355","381","18.6","37","110.2","88.9","99","92.2","85.6","451","190","387","150","39.4","28","7.3","5.8"
"Chisholm Jr., Jazz","665862","224","16","33","110.9","89.2","101.5","94.9","83.1","442","186","387","99","44.2","38","17.0","10.1"
"Volpe, Anthony","683011","328","11.9","31","108.7","86.4","95.8","88.2","75.3","436","178","374","89","27.1","34","10.4","6.8"
"Stanton, Giancarlo","519317","287","22.4","42","114.6","91.3","103.5","96.8","88.2","462","199","418","142","49.5","45","15.7","9.4"
"Torres, Gleyber","650402","295","14.2","34","109.8","87.6","98.2","91.4","79.7","441","183","391","105","35.6","32","10.8","6.8"
"Rizzo, Anthony","519203","201","21.8","39","108.9","88.1","99.5","93.7","81.6","448","194","402","78","38.8","18","9.0","5.7"
"Wells, Austin","669330","198","17.3","35","107.2","86.9","97.4","90.1","78.5","425","180","385","68","34.3","22","11.1","7.0"
"Verdugo, Alex","657077","312","9.8","28","106.4","84.2","94.1","87.3","73.9","418","172","378","72","23.1","15","4.8","3.1""#;

/// Batted-ball statistics of nine Los Angeles batters, one line each under a
/// line of column names.
pub const SAMPLE_DODGERS_CSV: &'static str = r#""last_name, first_name","player_id","attempts","avg_hit_angle","anglesweetspotpercent","max_hit_speed","avg_hit_speed","ev50","fbld","gb","max_distance","avg_distance","avg_hr_distance","ev95plus","ev95percent","barrels","brl_percent","brl_pa"
"Ohtani, Shohei","660271","321","13.1","35","117.9","92.4","104.8","97.2","86.1","473","195","412","145","45.2","73","22.7","15.2"
"Betts, Mookie","605141","394","18.2","38","107.2","89.3","100.1","93.8","82.4","442","188","398","147","37.3","19","4.8","3.2"
"Freeman, Freddie","518692","308","15.5","36","114.1","90.7","102.3","95.6","84.7","456","192","404","123","39.9","30","9.7","6.5"
"Smith, Will","669257","267","19.8","41","112.3","89.8","101.7","94.3","83.6","449","191","401","109","40.8","28","10.5","7.0"
"Muncy, Max","571970","289","21.2","44","113.8","88.9","100.8","94.1","82.9","458","196","415","118","40.8","35","12.1","8.1"
"Hernandez, Teoscar","606192","298","16.7","37","111.4","89.1","100.3","93.2","81.8","447","189","403","116","38.9","31","10.4","6.9"
"Edman, Tommy","669242","245","12.3","32","108.9","85.7","96.8","89.4","76.3","432","177","388","83","33.9","21","8.6","5.7"
"Taylor, Chris","621035","198","14.6","33","109.2","86.4","97.9","90.7","78.1","438","181","394","71","35.9","18","9.1","6.1"
"Lux, Gavin","666624","156","11.8","30","105.8","84.1","95.2","88.6","75.4","421","175","382","52","33.3","13","8.3","5.6""#;

/// The players of the first club of the sample league: eight fielders and a
/// starting pitcher.
pub open spec fn sample_eagles() -> Seq<PlayerSheet> {
    seq![
        PlayerSheet {
            id: "player_001"@,
            name: "Mike Rodriguez"@,
            jersey_number: 12,
            age: 28,
            height: "5'11\""@,
            weight: 180,
            position: Position::SecondBase,
            throws: Handedness::Right,
            bats: Handedness::Right,
            salary: 750000,
            years_pro: 5,
            pitcher_role: None,
            secondary_positions: seq![Position::Shortstop],
        },
        PlayerSheet {
            id: "player_002"@,
            name: "Carlos Martinez"@,
            jersey_number: 27,
            age: 24,
            height: "6'2\""@,
            weight: 195,
            position: Position::Shortstop,
            throws: Handedness::Right,
            bats: Handedness::Left,
            salary: 650000,
            years_pro: 3,
            pitcher_role: None,
            secondary_positions: seq![Position::SecondBase],
        },
        PlayerSheet {
            id: "player_003"@,
            name: "David Thompson"@,
            jersey_number: 34,
            age: 26,
            height: "6'0\""@,
            weight: 185,
            position: Position::CenterField,
            throws: Handedness::Right,
            bats: Handedness::Right,
            salary: 1200000,
            years_pro: 4,
            pitcher_role: None,
            secondary_positions: seq![Position::RightField, Position::LeftField],
        },
        PlayerSheet {
            id: "player_004"@,
            name: "Josh Wilson"@,
            jersey_number: 15,
            age: 29,
            height: "6'3\""@,
            weight: 220,
            position: Position::FirstBase,
            throws: Handedness::Left,
            bats: Handedness::Left,
            salary: 2100000,
            years_pro: 7,
            pitcher_role: None,
            secondary_positions: Seq::empty(),
        },
        PlayerSheet {
            id: "player_005"@,
            name: "Tony Garcia"@,
            jersey_number: 9,
            age: 25,
            height: "5'10\""@,
            weight: 175,
            position: Position::LeftField,
            throws: Handedness::Right,
            bats: Handedness::Switch,
            salary: 850000,
            years_pro: 3,
            pitcher_role: None,
            secondary_positions: seq![Position::RightField],
        },
        PlayerSheet {
            id: "player_006"@,
            name: "Alex Johnson"@,
            jersey_number: 22,
            age: 27,
            height: "6'1\""@,
            weight: 190,
            position: Position::RightField,
            throws: Handedness::Right,
            bats: Handedness::Right,
            salary: 950000,
            years_pro: 5,
            pitcher_role: None,
            secondary_positions: seq![Position::CenterField],
        },
        PlayerSheet {
            id: "player_007"@,
            name: "Ryan Anderson"@,
            jersey_number: 5,
            age: 30,
            height: "6'0\""@,
            weight: 185,
            position: Position::ThirdBase,
            throws: Handedness::Right,
            bats: Handedness::Right,
            salary: 1500000,
            years_pro: 8,
            pitcher_role: None,
            secondary_positions: Seq::empty(),
        },
        PlayerSheet {
            id: "player_008"@,
            name: "Steve Davis"@,
            jersey_number: 8,
            age: 26,
            height: "6'2\""@,
            weight: 200,
            position: Position::Catcher,
            throws: Handedness::Right,
            bats: Handedness::Right,
            salary: 800000,
            years_pro: 4,
            pitcher_role: None,
            secondary_positions: Seq::empty(),
        },
        PlayerSheet {
            id: "player_009"@,
            name: "Jake Smith"@,
            jersey_number: 21,
            age: 28,
            height: "6'4\""@,
            weight: 210,
            position: Position::Pitcher,
            throws: Handedness::Right,
            bats: Handedness::Right,
            salary: 3200000,
            years_pro: 6,
            pitcher_role: Some(PitcherRole::Starter),
            secondary_positions: Seq::empty(),
        },
    ]
}

/// The players of the second club of the sample league.
pub open spec fn sample_tigers() -> Seq<PlayerSheet> {
    seq![
        PlayerSheet {
            id: "player_101"@,
            name: "Frank Williams"@,
            jersey_number: 3,
            age: 27,
            height: "5'9\""@,
            weight: 170,
            position: Position::SecondBase,
            throws: Handedness::Right,
            bats: Handedness::Left,
            salary: 700000,
            years_pro: 4,
            pitcher_role: None,
            secondary_positions: Seq::empty(),
        },
    ]
}

/// The sample league: two clubs in the season of 2024.
pub open spec fn sample_league() -> LeagueSheet {
    LeagueSheet {
        name: "Wild Pitch League"@,
        teams: seq![
            TeamSheet {
                id: "team_001"@,
                name: "Eagles"@,
                city: "Metro"@,
                abbreviation: "MET"@,
                primary_color: "Blue"@,
                secondary_color: "White"@,
                ballpark_name: "Eagle Stadium"@,
                players: sample_eagles(),
            },
            TeamSheet {
                id: "team_002"@,
                name: "Tigers"@,
                city: "Capital"@,
                abbreviation: "CAP"@,
                primary_color: "Orange"@,
                secondary_color: "Black"@,
                ballpark_name: "Tiger Field"@,
                players: sample_tigers(),
            },
        ],
        season_year: 2024,
    }
}

/// Every player of the sample league, club after club.
pub open spec fn sample_players() -> Seq<PlayerSheet> {
    sample_eagles() + sample_tigers()
}

/// No two players of the sample league have the same id.
pub proof fn lemma_sample_ids_differ()
    ensures
        sample_players().len() == 10,
        forall|i: int, j: int|
            0 <= i < j < 10 ==> sample_players()[i].id != sample_players()[j].id,
{
    let all = sample_players();
    reveal_strlit("player_001");
    reveal_strlit("player_002");
    reveal_strlit("player_003");
    reveal_strlit("player_004");
    reveal_strlit("player_005");
    reveal_strlit("player_006");
    reveal_strlit("player_007");
    reveal_strlit("player_008");
    reveal_strlit("player_009");
    reveal_strlit("player_101");
    assert(all[0].id == "player_001"@);
    assert(all[1].id == "player_002"@);
    assert(all[2].id == "player_003"@);
    assert(all[3].id == "player_004"@);
    assert(all[4].id == "player_005"@);
    assert(all[5].id == "player_006"@);
    assert(all[6].id == "player_007"@);
    assert(all[7].id == "player_008"@);
    assert(all[8].id == "player_009"@);
    assert(all[9].id == "player_101"@);
    assert forall|i: int, j: int| 0 <= i < j < 10 implies all[i].id != all[j].id by {
        if j == 9 {
            assert(all[i].id[7] != all[j].id[7]);
        } else {
            assert(all[i].id[9] != all[j].id[9]);
        }
    }
}

impl DataLoader {
    /// Makes the sample league.
    pub fn create_sample_league() -> (league: LeagueData)
        ensures
            league.sheet() == sample_league(),
    {
        let mut eagles: Vec<PlayerData> = Vec::new();
        let mut also: Vec<Position> = Vec::new();
        also.push(Position::Shortstop);
        eagles.push(
            PlayerData {
                id: String::from_str("player_001"),
                name: String::from_str("Mike Rodriguez"),
                jersey_number: 12,
                age: 28,
                height: String::from_str("5'11\""),
                weight: 180,
                position: Position::SecondBase,
                throws: Handedness::Right,
                bats: Handedness::Right,
                salary: 750000,
                years_pro: 5,
                pitcher_role: None,
                secondary_positions: also,
            },
        );
        let mut also: Vec<Position> = Vec::new();
        also.push(Position::SecondBase);
        eagles.push(
            PlayerData {
                id: String::from_str("player_002"),
                name: String::from_str("Carlos Martinez"),
                jersey_number: 27,
                age: 24,
                height: String::from_str("6'2\""),
                weight: 195,
                position: Position::Shortstop,
                throws: Handedness::Right,
                bats: Handedness::Left,
                salary: 650000,
                years_pro: 3,
                pitcher_role: None,
                secondary_positions: also,
            },
        );
        let mut also: Vec<Position> = Vec::new();
        also.push(Position::RightField);
        also.push(Position::LeftField);
        eagles.push(
            PlayerData {
                id: String::from_str("player_003"),
                name: String::from_str("David Thompson"),
                jersey_number: 34,
                age: 26,
                height: String::from_str("6'0\""),
                weight: 185,
                position: Position::CenterField,
                throws: Handedness::Right,
                bats: Handedness::Right,
                salary: 1200000,
                years_pro: 4,
                pitcher_role: None,
                secondary_positions: also,
            },
        );
        let mut also: Vec<Position> = Vec::new();
        eagles.push(
            PlayerData {
                id: String::from_str("player_004"),
                name: String::from_str("Josh Wilson"),
                jersey_number: 15,
                age: 29,
                height: String::from_str("6'3\""),
                weight: 220,
                position: Position::FirstBase,
                throws: Handedness::Left,
                bats: Handedness::Left,
                salary: 2100000,
                years_pro: 7,
                pitcher_role: None,
                secondary_positions: also,
            },
        );
        let mut also: Vec<Position> = Vec::new();
        also.push(Position::RightField);
        eagles.push(
            PlayerData {
                id: String::from_str("player_005"),
                name: String::from_str("Tony Garcia"),
                jersey_number: 9,
                age: 25,
                height: String::from_str("5'10\""),
                weight: 175,
                position: Position::LeftField,
                throws: Handedness::Right,
                bats: Handedness::Switch,
                salary: 850000,
                years_pro: 3,
                pitcher_role: None,
                secondary_positions: also,
            },
        );
        let mut also: Vec<Position> = Vec::new();
        also.push(Position::CenterField);
        eagles.push(
            PlayerData {
                id: String::from_str("player_006"),
                name: String::from_str("Alex Johnson"),
                jersey_number: 22,
                age: 27,
                height: String::from_str("6'1\""),
                weight: 190,
                position: Position::RightField,
                throws: Handedness::Right,
                bats: Handedness::Right,
                salary: 950000,
                years_pro: 5,
                pitcher_role: None,
                secondary_positions: also,
            },
        );
        let mut also: Vec<Position> = Vec::new();
        eagles.push(
            PlayerData {
                id: String::from_str("player_007"),
                name: String::from_str("Ryan Anderson"),
                jersey_number: 5,
                age: 30,
                height: String::from_str("6'0\""),
                weight: 185,
                position: Position::ThirdBase,
                throws: Handedness::Right,
                bats: Handedness::Right,
                salary: 1500000,
                years_pro: 8,
                pitcher_role: None,
                secondary_positions: also,
            },
        );
        let mut also: Vec<Position> = Vec::new();
        eagles.push(
            PlayerData {
                id: String::from_str("player_008"),
                name: String::from_str("Steve Davis"),
                jersey_number: 8,
                age: 26,
                height: String::from_str("6'2\""),
                weight: 200,
                position: Position::Catcher,
                throws: Handedness::Right,
                bats: Handedness::Right,
                salary: 800000,
                years_pro: 4,
                pitcher_role: None,
                secondary_positions: also,
            },
        );
        let mut also: Vec<Position> = Vec::new();
        eagles.push(
            PlayerData {
                id: String::from_str("player_009"),
                name: String::from_str("Jake Smith"),
                jersey_number: 21,
                age: 28,
                height: String::from_str("6'4\""),
                weight: 210,
                position: Position::Pitcher,
                throws: Handedness::Right,
                bats: Handedness::Right,
                salary: 3200000,
                years_pro: 6,
                pitcher_role: Some(PitcherRole::Starter),
                secondary_positions: also,
            },
        );
        proof {
            assert(eagles@[0].secondary_positions@ =~= sample_eagles()[0].secondary_positions);
            assert(eagles@[1].secondary_positions@ =~= sample_eagles()[1].secondary_positions);
            assert(eagles@[2].secondary_positions@ =~= sample_eagles()[2].secondary_positions);
            assert(eagles@[3].secondary_positions@ =~= sample_eagles()[3].secondary_positions);
            assert(eagles@[4].secondary_positions@ =~= sample_eagles()[4].secondary_positions);
            assert(eagles@[5].secondary_positions@ =~= sample_eagles()[5].secondary_positions);
            assert(eagles@[6].secondary_positions@ =~= sample_eagles()[6].secondary_positions);
            assert(eagles@[7].secondary_positions@ =~= sample_eagles()[7].secondary_positions);
            assert(eagles@[8].secondary_positions@ =~= sample_eagles()[8].secondary_positions);
        }
        assert(eagles@.map_values(|p: PlayerData| p.sheet()) =~= sample_eagles());
        let mut tigers: Vec<PlayerData> = Vec::new();
        let mut also: Vec<Position> = Vec::new();
        tigers.push(
            PlayerData {
                id: String::from_str("player_101"),
                name: String::from_str("Frank Williams"),
                jersey_number: 3,
                age: 27,
                height: String::from_str("5'9\""),
                weight: 170,
                position: Position::SecondBase,
                throws: Handedness::Right,
                bats: Handedness::Left,
                salary: 700000,
                years_pro: 4,
                pitcher_role: None,
                secondary_positions: also,
            },
        );
        proof {
            assert(tigers@[0].secondary_positions@ =~= sample_tigers()[0].secondary_positions);
        }
        assert(tigers@.map_values(|p: PlayerData| p.sheet()) =~= sample_tigers());
        let mut teams: Vec<TeamData> = Vec::new();
        teams.push(
            TeamData {
                id: String::from_str("team_001"),
                name: String::from_str("Eagles"),
                city: String::from_str("Metro"),
                abbreviation: String::from_str("MET"),
                primary_color: String::from_str("Blue"),
                secondary_color: String::from_str("White"),
                ballpark_name: String::from_str("Eagle Stadium"),
                players: eagles,
            },
        );
        teams.push(
            TeamData {
                id: String::from_str("team_002"),
                name: String::from_str("Tigers"),
                city: String::from_str("Capital"),
                abbreviation: String::from_str("CAP"),
                primary_color: String::from_str("Orange"),
                secondary_color: String::from_str("Black"),
                ballpark_name: String::from_str("Tiger Field"),
                players: tigers,
            },
        );
        assert(teams@.map_values(|t: TeamData| t.sheet()) =~= sample_league().teams);
        LeagueData { name: String::from_str("Wild Pitch League"), teams, season_year: 2024 }
    }
}

/// What `download_team_data` answers for a club's number: the table of one of
/// the two clubs that come with the game, or that the club is not known.
pub open spec fn team_table(team_id: Seq<char>) -> Result<Seq<char>, Seq<char>> {
    if team_id == "147"@ {
        Ok(SAMPLE_YANKEES_CSV@)
    } else if team_id == "119"@ {
        Ok(SAMPLE_DODGERS_CSV@)
    } else {
        Err("Unknown team ID: "@ + team_id)
    }
}

pub struct MLBTestData;

impl MLBTestData {
    pub fn get_sample_yankees_csv() -> (table: &'static str)
        ensures
            table@ == SAMPLE_YANKEES_CSV@,
    {
        SAMPLE_YANKEES_CSV
    }

    pub fn get_sample_dodgers_csv() -> (table: &'static str)
        ensures
            table@ == SAMPLE_DODGERS_CSV@,
    {
        SAMPLE_DODGERS_CSV
    }

    /// The batted-ball table of a club for a season. Only the tables that
    /// come with the game can be had, whatever the season: those of the clubs
    /// numbered 147 and 119.
    pub fn download_team_data(team_id: &str, year: u16) -> (data: Result<String, String>)
        ensures
            match (data, team_table(team_id@)) {
                (Ok(text), Ok(table)) => text@ == table,
                (Err(why), Err(reason)) => why@ == reason,
                _ => false,
            },
    {
        if str_eq(team_id, "147") {
            Ok(String::from_str(Self::get_sample_yankees_csv()))
        } else if str_eq(team_id, "119") {
            Ok(String::from_str(Self::get_sample_dodgers_csv()))
        } else {
            let mut why = String::from_str("Unknown team ID: ");
            why.append(team_id);
            Err(why)
        }
    }
}

} // verus!
