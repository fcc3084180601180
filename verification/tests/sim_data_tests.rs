use wild_pitch::sim::data::{DataLoader, MLBDataImporter, PlayerData, TeamData};
use wild_pitch::sim::samples::{MLBTestData, SAMPLE_DODGERS_CSV, SAMPLE_YANKEES_CSV};
use wild_pitch::sim::game::GameState;
use wild_pitch::sim::players::{Handedness, PitcherRole, Position};
use wild_pitch::sim::roster::PitchingCard;
use wild_pitch::sim::saves::{SavedGame, SavedGameList};
use wild_pitch::sim::team::Team;

fn data(id: &str, position: Position, role: Option<PitcherRole>) -> PlayerData {
    PlayerData {
        id: id.to_string(),
        name: format!("Name of {}", id),
        jersey_number: 12,
        age: 28,
        height: "5'11\"".to_string(),
        weight: 180,
        position,
        throws: Handedness::Right,
        bats: Handedness::Switch,
        salary: 750000,
        years_pro: 5,
        pitcher_role: role,
        secondary_positions: vec![Position::Shortstop],
    }
}

#[test]
fn players_from_descriptions() {
    let batter = DataLoader::create_player_from_data(&data("player_001", Position::SecondBase, None)).unwrap();
    assert_eq!(batter.id, "player_001");
    assert_eq!(batter.name, "Name of player_001");
    assert_eq!((batter.jersey_number, batter.age, batter.weight), (12, 28, 180));
    assert_eq!((batter.salary, batter.years_pro), (750000, 5));
    assert_eq!(batter.height, "5'11\"");
    assert_eq!(batter.primary_position, Position::SecondBase);
    assert_eq!(batter.secondary_positions, vec![Position::Shortstop]);
    assert_eq!((batter.throws, batter.bats), (Handedness::Right, Handedness::Switch));
    assert!(batter.can_bat() && !batter.can_pitch());
    assert!(batter.can_play_position(Position::Shortstop));

    let closer = DataLoader::create_player_from_data(&data("arm", Position::Pitcher, Some(PitcherRole::Closer))).unwrap();
    assert_eq!(closer.pitching, Some(PitchingCard { control: 600, role: PitcherRole::Closer }));
    assert_eq!(closer.bats, Handedness::Right);
    assert!(!closer.can_bat());
    let starter = DataLoader::create_player_from_data(&data("arm", Position::Pitcher, None)).unwrap();
    assert_eq!(starter.pitching, Some(PitchingCard { control: 600, role: PitcherRole::Starter }));
}

fn team_data(players: Vec<PlayerData>) -> TeamData {
    TeamData {
        id: "team_001".to_string(),
        name: "Thunder".to_string(),
        city: "Metro City".to_string(),
        abbreviation: "MCT".to_string(),
        primary_color: "Blue".to_string(),
        secondary_color: "Gold".to_string(),
        ballpark_name: "Thunder Stadium".to_string(),
        players,
    }
}

#[test]
fn teams_from_descriptions() {
    let players = vec![
        data("a", Position::Catcher, None),
        data("b", Position::Pitcher, Some(PitcherRole::Reliever)),
        data("a", Position::FirstBase, None),
    ];
    let team = DataLoader::create_team_from_data(&team_data(players)).expect("room for three");
    assert_eq!(team.full_name(), "Metro City Thunder");
    assert_eq!(team.abbreviation, "MCT");
    assert_eq!((team.colors.primary.as_str(), team.colors.secondary.as_str()), ("Blue", "Gold"));
    assert_eq!(team.ballpark_name, "Thunder Stadium");
    // the second "a" took the place of the first
    assert_eq!(team.roster.players.len(), 2);
    assert_eq!(team.roster.players[0].primary_position, Position::FirstBase);
    assert_eq!(team.roster.players[1].id, "b");
    assert_eq!(team.roster.active_roster, vec!["a", "b", "a"]);

    let many: Vec<PlayerData> = (0..41).map(|i| data(&format!("id{}", i), Position::LeftField, None)).collect();
    assert_eq!(
        DataLoader::create_team_from_data(&team_data(many)).unwrap_err(),
        "Roster is full"
    );
    let full: Vec<PlayerData> = (0..40).map(|i| data(&format!("id{}", i), Position::LeftField, None)).collect();
    let team = DataLoader::create_team_from_data(&team_data(full)).expect("forty fit");
    assert_eq!(team.roster.players.len(), 40);
    assert_eq!(team.roster.active_roster.len(), 25);
}

#[test]
fn known_clubs() {
    assert_eq!(MLBDataImporter::get_team_name("147"), "Yankees");
    assert_eq!(MLBDataImporter::get_team_city("147"), "New York");
    assert_eq!(MLBDataImporter::get_team_abbreviation("147"), "NYY");
    assert_eq!(MLBDataImporter::get_ballpark_name("147"), "Yankee Stadium");
    let colors = MLBDataImporter::get_team_colors("147");
    assert_eq!((colors.primary.as_str(), colors.secondary.as_str()), ("Navy Blue", "Gray"));
    assert_eq!(MLBDataImporter::get_team_name("119"), "Dodgers");
    assert_eq!(MLBDataImporter::get_team_city("119"), "Los Angeles");
    assert_eq!(MLBDataImporter::get_team_abbreviation("119"), "LAD");
    assert_eq!(MLBDataImporter::get_ballpark_name("119"), "Dodger Stadium");
    let colors = MLBDataImporter::get_team_colors("119");
    assert_eq!((colors.primary.as_str(), colors.secondary.as_str()), ("Dodger Blue", "White"));
    assert_eq!(MLBDataImporter::get_team_name("1"), "Team");
    assert_eq!(MLBDataImporter::get_team_city(""), "Unknown");
    assert_eq!(MLBDataImporter::get_team_abbreviation("1470"), "UNK");
    assert_eq!(MLBDataImporter::get_ballpark_name("x"), "Stadium");
    let colors = MLBDataImporter::get_team_colors("x");
    assert_eq!((colors.primary.as_str(), colors.secondary.as_str()), ("Blue", "White"));
}

#[test]
fn standard_line_up() {
    assert!(MLBDataImporter::create_standard_lineup(0).is_empty());
    assert_eq!(
        MLBDataImporter::create_standard_lineup(3),
        vec![(Position::Catcher, 0), (Position::FirstBase, 1), (Position::SecondBase, 2)]
    );
    let nine = MLBDataImporter::create_standard_lineup(30);
    assert_eq!(nine.len(), 9);
    assert_eq!(nine[4], (Position::Shortstop, 4));
    assert_eq!(nine[7], (Position::RightField, 7));
    assert_eq!(nine[8], (Position::DesignatedHitter, 8));
}

fn game(id: &str) -> GameState {
    let visitor = Team::new("v".to_string(), "Red Sox".to_string(), "Boston".to_string(), "BOS".to_string());
    let home = Team::new("h".to_string(), "Yankees".to_string(), "New York".to_string(), "NYY".to_string());
    GameState::new(id.to_string(), visitor, home, "19:05".to_string())
}

#[test]
fn saved_games() {
    let mut g = game("g1");
    g.situation.inning = 7;
    g.score.visitor = 3;
    g.score.home = 12;
    let save = SavedGame::new(g, "rain delay".to_string(), "2024-05-01 20:00:00 UTC".to_string());
    assert_eq!(save.game_id, "g1");
    assert_eq!(save.description, "rain delay");
    assert_eq!(save.save_timestamp, "2024-05-01 20:00:00 UTC");
    assert_eq!(save.inning_display, "Top 7");
    assert_eq!(save.score_display, "BOS 3 - 12 NYY");
    let save = save.with_description("resumed".to_string());
    assert_eq!(save.description, "resumed");

    let mut list = SavedGameList::new("t0".to_string());
    assert!(list.list_saves().is_empty());
    assert!(list.get_save("g1").is_none());
    list.add_save(save, "t1".to_string());
    let mut second = game("g2");
    second.situation.advance_inning();
    list.add_save(SavedGame::new(second, String::new(), "s".to_string()), "t2".to_string());
    list.add_save(SavedGame::new(game("g1"), "again".to_string(), "s".to_string()), "t3".to_string());
    assert_eq!(list.last_modified, "t3");
    assert_eq!(
        list.list_saves(),
        vec!["g1: Top 7 - BOS 3 - 12 NYY", "g2: Bottom 1 - BOS 0 - 0 NYY", "g1: Top 1 - BOS 0 - 0 NYY"]
    );
    assert_eq!(list.get_save("g1").unwrap().description, "resumed");
    assert_eq!(list.get_save("g2").unwrap().inning_display, "Bottom 1");

    assert!(!list.remove_save("g9", "t4".to_string()));
    assert_eq!(list.last_modified, "t3");
    assert_eq!(list.saves.len(), 3);
    assert!(list.remove_save("g1", "t5".to_string()));
    assert_eq!(list.last_modified, "t5");
    assert_eq!(list.list_saves(), vec!["g2: Bottom 1 - BOS 0 - 0 NYY"]);
    assert!(list.remove_save("g2", "t6".to_string()));
    assert!(list.saves.is_empty());
}

#[test]
fn sample_league_as_it_comes() {
    let league = DataLoader::create_sample_league();
    assert_eq!(league.name, "Wild Pitch League");
    assert_eq!(league.season_year, 2024);
    assert_eq!(league.teams.len(), 2);

    let eagles = &league.teams[0];
    assert_eq!((eagles.id.as_str(), eagles.name.as_str(), eagles.city.as_str()), ("team_001", "Eagles", "Metro"));
    assert_eq!(eagles.abbreviation, "MET");
    assert_eq!((eagles.primary_color.as_str(), eagles.secondary_color.as_str()), ("Blue", "White"));
    assert_eq!(eagles.ballpark_name, "Eagle Stadium");
    assert_eq!(eagles.players.len(), 9);
    let names: Vec<&str> = eagles.players.iter().map(|p| p.name.as_str()).collect();
    assert_eq!(
        names,
        vec![
            "Mike Rodriguez",
            "Carlos Martinez",
            "David Thompson",
            "Josh Wilson",
            "Tony Garcia",
            "Alex Johnson",
            "Ryan Anderson",
            "Steve Davis",
            "Jake Smith",
        ]
    );
    let ids: Vec<&str> = eagles.players.iter().map(|p| p.id.as_str()).collect();
    assert_eq!(
        ids,
        vec![
            "player_001", "player_002", "player_003", "player_004", "player_005", "player_006", "player_007",
            "player_008", "player_009",
        ]
    );
    let numbers: Vec<u8> = eagles.players.iter().map(|p| p.jersey_number).collect();
    assert_eq!(numbers, vec![12, 27, 34, 15, 9, 22, 5, 8, 21]);
    let ages: Vec<u8> = eagles.players.iter().map(|p| p.age).collect();
    assert_eq!(ages, vec![28, 24, 26, 29, 25, 27, 30, 26, 28]);
    let heights: Vec<&str> = eagles.players.iter().map(|p| p.height.as_str()).collect();
    assert_eq!(
        heights,
        vec!["5'11\"", "6'2\"", "6'0\"", "6'3\"", "5'10\"", "6'1\"", "6'0\"", "6'2\"", "6'4\""]
    );
    let weights: Vec<u16> = eagles.players.iter().map(|p| p.weight).collect();
    assert_eq!(weights, vec![180, 195, 185, 220, 175, 190, 185, 200, 210]);
    let positions: Vec<Position> = eagles.players.iter().map(|p| p.position).collect();
    assert_eq!(
        positions,
        vec![
            Position::SecondBase,
            Position::Shortstop,
            Position::CenterField,
            Position::FirstBase,
            Position::LeftField,
            Position::RightField,
            Position::ThirdBase,
            Position::Catcher,
            Position::Pitcher,
        ]
    );
    let salaries: Vec<u32> = eagles.players.iter().map(|p| p.salary).collect();
    assert_eq!(salaries, vec![750000, 650000, 1200000, 2100000, 850000, 950000, 1500000, 800000, 3200000]);
    let years: Vec<u8> = eagles.players.iter().map(|p| p.years_pro).collect();
    assert_eq!(years, vec![5, 3, 4, 7, 3, 5, 8, 4, 6]);
    let throws: Vec<Handedness> = eagles.players.iter().map(|p| p.throws).collect();
    assert_eq!(throws[3], Handedness::Left);
    assert_eq!(throws.iter().filter(|&&h| h == Handedness::Right).count(), 8);
    let bats: Vec<Handedness> = eagles.players.iter().map(|p| p.bats).collect();
    assert_eq!(
        bats,
        vec![
            Handedness::Right,
            Handedness::Left,
            Handedness::Right,
            Handedness::Left,
            Handedness::Switch,
            Handedness::Right,
            Handedness::Right,
            Handedness::Right,
            Handedness::Right,
        ]
    );
    for fielder in &eagles.players[..8] {
        assert_eq!(fielder.pitcher_role, None);
    }
    assert_eq!(eagles.players[8].pitcher_role, Some(PitcherRole::Starter));
    assert_eq!(eagles.players[0].secondary_positions, vec![Position::Shortstop]);
    assert_eq!(eagles.players[1].secondary_positions, vec![Position::SecondBase]);
    assert_eq!(eagles.players[2].secondary_positions, vec![Position::RightField, Position::LeftField]);
    assert!(eagles.players[3].secondary_positions.is_empty());
    assert_eq!(eagles.players[4].secondary_positions, vec![Position::RightField]);
    assert_eq!(eagles.players[5].secondary_positions, vec![Position::CenterField]);
    assert!(eagles.players[6].secondary_positions.is_empty());
    assert!(eagles.players[7].secondary_positions.is_empty());
    assert!(eagles.players[8].secondary_positions.is_empty());

    let tigers = &league.teams[1];
    assert_eq!((tigers.id.as_str(), tigers.name.as_str(), tigers.city.as_str()), ("team_002", "Tigers", "Capital"));
    assert_eq!(tigers.abbreviation, "CAP");
    assert_eq!((tigers.primary_color.as_str(), tigers.secondary_color.as_str()), ("Orange", "Black"));
    assert_eq!(tigers.ballpark_name, "Tiger Field");
    assert_eq!(tigers.players.len(), 1);
    let frank = &tigers.players[0];
    assert_eq!((frank.id.as_str(), frank.name.as_str()), ("player_101", "Frank Williams"));
    assert_eq!((frank.jersey_number, frank.age, frank.weight), (3, 27, 170));
    assert_eq!(frank.height, "5'9\"");
    assert_eq!(frank.position, Position::SecondBase);
    assert_eq!((frank.throws, frank.bats), (Handedness::Right, Handedness::Left));
    assert_eq!((frank.salary, frank.years_pro), (700000, 4));
    assert_eq!(frank.pitcher_role, None);
    assert!(frank.secondary_positions.is_empty());
}

#[test]
fn sample_league_ids_differ() {
    let league = DataLoader::create_sample_league();
    let mut ids: Vec<String> = league.teams.iter().flat_map(|t| t.players.iter().map(|p| p.id.clone())).collect();
    assert_eq!(ids.len(), 10);
    ids.sort();
    ids.dedup();
    assert_eq!(ids.len(), 10);
}

#[test]
fn sample_league_makes_teams() {
    let league = DataLoader::create_sample_league();
    let eagles = DataLoader::create_team_from_data(&league.teams[0]).expect("nine fit");
    assert_eq!(eagles.full_name(), "Metro Eagles");
    assert_eq!(eagles.roster.players.len(), 9);
    assert_eq!(eagles.roster.players[8].name, "Jake Smith");
    assert!(eagles.roster.players[8].can_pitch());
    let tigers = DataLoader::create_team_from_data(&league.teams[1]).expect("one fits");
    assert_eq!(tigers.full_name(), "Capital Tigers");
    assert_eq!(tigers.roster.players.len(), 1);
}

#[test]
fn sample_tables() {
    let yankees = MLBTestData::get_sample_yankees_csv();
    assert_eq!(yankees, SAMPLE_YANKEES_CSV);
    let lines: Vec<&str> = yankees.lines().collect();
    assert_eq!(lines.len(), 10);
    assert!(lines[0].starts_with("\"last_name, first_name\",\"player_id\",\"attempts\""));
    assert!(lines[0].ends_with("\"barrels\",\"brl_percent\",\"brl_pa\""));
    assert_eq!(
        lines[1],
        "\"Judge, Aaron\",\"592450\",\"283\",\"18.5\",\"36\",\"118.1\",\"94.8\",\"106.2\",\"98.5\",\"90\",\"469\",\"201\",\"405\",\"157\",\"55.5\",\"68\",\"24.0\",\"13.7\""
    );
    assert!(lines[9].starts_with("\"Verdugo, Alex\",\"657077\""));
    for line in &lines {
        assert_eq!(line.matches("\",\"").count(), 17);
    }

    let dodgers = MLBTestData::get_sample_dodgers_csv();
    assert_eq!(dodgers, SAMPLE_DODGERS_CSV);
    let lines: Vec<&str> = dodgers.lines().collect();
    assert_eq!(lines.len(), 10);
    assert_eq!(lines[0], yankees.lines().next().unwrap());
    assert_eq!(
        lines[1],
        "\"Ohtani, Shohei\",\"660271\",\"321\",\"13.1\",\"35\",\"117.9\",\"92.4\",\"104.8\",\"97.2\",\"86.1\",\"473\",\"195\",\"412\",\"145\",\"45.2\",\"73\",\"22.7\",\"15.2\""
    );
    assert!(lines[9].starts_with("\"Lux, Gavin\",\"666624\""));
    for line in &lines {
        assert_eq!(line.matches("\",\"").count(), 17);
    }
}

#[test]
fn team_tables_by_number() {
    assert_eq!(MLBTestData::download_team_data("147", 2024).unwrap(), SAMPLE_YANKEES_CSV);
    assert_eq!(MLBTestData::download_team_data("147", 1999).unwrap(), SAMPLE_YANKEES_CSV);
    assert_eq!(MLBTestData::download_team_data("119", 2025).unwrap(), SAMPLE_DODGERS_CSV);
    assert_eq!(MLBTestData::download_team_data("120", 2025).unwrap_err(), "Unknown team ID: 120");
    assert_eq!(MLBTestData::download_team_data("", 2025).unwrap_err(), "Unknown team ID: ");
    assert_eq!(MLBTestData::download_team_data("1470", 2025).unwrap_err(), "Unknown team ID: 1470");
    assert_eq!(MLBTestData::download_team_data("NYY", 2025).unwrap_err(), "Unknown team ID: NYY");
}
