use wild_pitch::sim::engine::{
    carry_out_play, ends_at_bat, hit_type_by, move_runners_on_hit, move_runners_on_walk,
    out_type_by, pick_fielder, pick_infielder, pick_outfielder, resolve_at_bat, AtBatRolls,
    GameEngine,
};
use wild_pitch::sim::events::{GameEvent, HitType, PlayResult};
use wild_pitch::sim::game::GameState;
use wild_pitch::sim::lineup::Lineup;
use wild_pitch::sim::players::{Handedness, PitcherRole, Position};
use wild_pitch::sim::random::WildPitchRng;
use wild_pitch::sim::roster::{BattingCard, PitchingCard, Player};
use wild_pitch::sim::team::Team;
use wild_pitch::sim::state::{GamePhase, GameSituation, InningHalf};

fn rolls(play: u32, hit: u32, out: u32) -> AtBatRolls {
    AtBatRolls { play, hit, out, infielder: 3, outfielder: 1, fielder: 5 }
}

const BATTER: BattingCard = BattingCard { contact: 700, power: 500, patience: 500 };
const PITCHER: PitchingCard = PitchingCard { control: 600, role: PitcherRole::Starter };

fn team(tag: &str, city: &str, name: &str) -> Team {
    let positions = [
        Position::Catcher,
        Position::FirstBase,
        Position::SecondBase,
        Position::ThirdBase,
        Position::Shortstop,
        Position::LeftField,
        Position::CenterField,
        Position::RightField,
        Position::DesignatedHitter,
    ];
    let mut team = Team::new(tag.to_string(), name.to_string(), city.to_string(), tag.to_uppercase());
    let mut lineup = Lineup::new();
    for (i, position) in positions.iter().enumerate() {
        let id = format!("{}-bat{}", tag, i + 1);
        lineup.add_batter(id.clone(), *position).unwrap();
        let player = Player::position_player(
            id,
            format!("{} Batter {}", name, i + 1),
            i as u8 + 1,
            *position,
            Handedness::Right,
            Handedness::Left,
        );
        team.add_player(player).unwrap();
    }
    let ace = format!("{}-ace", tag);
    lineup.set_starting_pitcher(ace.clone());
    team.add_player(Player::pitcher(
        ace,
        format!("{} Ace", name),
        50,
        Handedness::Right,
        PitcherRole::Starter,
    ))
    .unwrap();
    for i in 0..4 {
        team.add_player(Player::pitcher(
            format!("{}-arm{}", tag, i),
            format!("{} Arm {}", name, i),
            60 + i,
            Handedness::Left,
            if i == 0 { PitcherRole::Closer } else { PitcherRole::Reliever },
        ))
        .unwrap();
    }
    team.set_lineup(lineup).unwrap();
    team
}

fn game() -> GameState {
    let mut game = GameState::new(
        "g1".to_string(),
        team("v", "Boston", "Red Sox"),
        team("h", "New York", "Yankees"),
        "19:05".to_string(),
    );
    game.start_game();
    game
}

#[test]
fn plate_appearance_by_the_dice() {
    // walk 0.08 * 0.4 * 1.5 = 0.048, strikeout 0.20 * 0.6 * 0.3 = 0.036,
    // hit 0.25 * 0.7 * 0.4 = 0.070
    assert_eq!(resolve_at_bat(&BATTER, &PITCHER, &rolls(0, 0, 1)), PlayResult::Walk);
    assert_eq!(resolve_at_bat(&BATTER, &PITCHER, &rolls(47_999_999, 0, 1)), PlayResult::Walk);
    assert_eq!(resolve_at_bat(&BATTER, &PITCHER, &rolls(48_000_000, 0, 1)), PlayResult::Strikeout);
    assert_eq!(resolve_at_bat(&BATTER, &PITCHER, &rolls(83_999_999, 0, 1)), PlayResult::Strikeout);
    assert_eq!(
        resolve_at_bat(&BATTER, &PITCHER, &rolls(84_000_000, 0, 1)),
        PlayResult::Hit(HitType::HomeRun)
    );
    assert_eq!(
        resolve_at_bat(&BATTER, &PITCHER, &rolls(153_999_999, 99_999, 1)),
        PlayResult::Hit(HitType::Single(None))
    );
    assert_eq!(
        resolve_at_bat(&BATTER, &PITCHER, &rolls(154_000_000, 0, 1)),
        PlayResult::Hit(HitType::GroundOut(Position::Shortstop))
    );
    assert_eq!(
        resolve_at_bat(&BATTER, &PITCHER, &rolls(999_999_999, 0, 8)),
        PlayResult::Hit(HitType::FlyOut(Position::CenterField))
    );
    // a pitcher with more than full control walks nobody
    let sharp = PitchingCard { control: 1200, ..PITCHER };
    assert_eq!(resolve_at_bat(&BATTER, &sharp, &rolls(0, 0, 1)), PlayResult::Strikeout);
    let wild = PitchingCard { control: 0, ..PITCHER };
    assert_eq!(resolve_at_bat(&BATTER, &wild, &rolls(119_999_999, 0, 1)), PlayResult::Walk);
    assert_eq!(
        resolve_at_bat(&BATTER, &wild, &rolls(120_000_000, 2_499, 1)),
        PlayResult::Hit(HitType::HomeRun)
    );
}

#[test]
fn kinds_of_hit_and_out() {
    // power 0.5: home run under 0.025, double under 0.075, triple under 0.09
    assert_eq!(hit_type_by(500, 2_499), PlayResult::Hit(HitType::HomeRun));
    assert_eq!(hit_type_by(500, 2_500), PlayResult::Hit(HitType::Double(None)));
    assert_eq!(hit_type_by(500, 7_499), PlayResult::Hit(HitType::Double(None)));
    assert_eq!(hit_type_by(500, 7_500), PlayResult::Hit(HitType::Triple(None)));
    assert_eq!(hit_type_by(500, 8_999), PlayResult::Hit(HitType::Triple(None)));
    assert_eq!(hit_type_by(500, 9_000), PlayResult::Hit(HitType::Single(None)));
    assert_eq!(hit_type_by(0, 0), PlayResult::Hit(HitType::Single(None)));
    assert_eq!(hit_type_by(u32::MAX, u32::MAX), PlayResult::Hit(HitType::HomeRun));

    assert_eq!(
        out_type_by(&rolls(0, 0, 4)),
        PlayResult::Hit(HitType::GroundOut(Position::Shortstop))
    );
    assert_eq!(
        out_type_by(&rolls(0, 0, 5)),
        PlayResult::Hit(HitType::FlyOut(Position::CenterField))
    );
    assert_eq!(
        out_type_by(&rolls(0, 0, 9)),
        PlayResult::Hit(HitType::LineOut(Position::CenterField))
    );
    let infield = [Position::FirstBase, Position::SecondBase, Position::ThirdBase, Position::Shortstop];
    let outfield = [Position::LeftField, Position::CenterField, Position::RightField];
    for (i, position) in infield.iter().enumerate() {
        assert_eq!(pick_infielder(i as u32), *position);
        assert_eq!(pick_fielder(i as u32), *position);
    }
    for (i, position) in outfield.iter().enumerate() {
        assert_eq!(pick_outfielder(i as u32), *position);
        assert_eq!(pick_fielder(i as u32 + 4), *position);
    }
    let mut engine = GameEngine::new();
    for _ in 0..100 {
        assert!(engine.random_infield_position().is_infield());
        assert!(engine.random_outfield_position().is_outfield());
        let any = engine.random_defensive_position();
        assert!(any.is_infield() || any.is_outfield());
        let drawn = engine.determine_play_result(&BATTER, &PITCHER);
        assert!(engine.is_at_bat_over(&drawn));
        assert!(matches!(
            engine.determine_hit_type(500),
            PlayResult::Hit(
                HitType::HomeRun | HitType::Double(None) | HitType::Triple(None) | HitType::Single(None)
            )
        ));
        assert!(matches!(
            engine.determine_out_type(),
            PlayResult::Hit(HitType::GroundOut(_) | HitType::FlyOut(_) | HitType::LineOut(_))
        ));
    }
    assert!(!ends_at_bat(&PlayResult::Ball));
    assert!(!ends_at_bat(&PlayResult::Strike));
    assert!(!ends_at_bat(&PlayResult::FoulBall));
    assert!(ends_at_bat(&PlayResult::Walk));
    assert!(ends_at_bat(&PlayResult::Error(Position::Catcher)));
}

fn on(situation: &GameSituation) -> (Option<&str>, Option<&str>, Option<&str>) {
    (
        situation.runners.first.as_deref(),
        situation.runners.second.as_deref(),
        situation.runners.third.as_deref(),
    )
}

fn with_runners(first: bool, second: bool, third: bool) -> GameSituation {
    let mut s = GameSituation::new();
    s.current_batter_id = "bat".to_string();
    s.runners.first = first.then(|| "r1".to_string());
    s.runners.second = second.then(|| "r2".to_string());
    s.runners.third = third.then(|| "r3".to_string());
    s
}

#[test]
fn runners_move_on_hits_and_walks() {
    let mut s = with_runners(true, true, true);
    assert_eq!(move_runners_on_hit(&HitType::Single(None), &mut s), 1);
    assert_eq!(on(&s), (Some("bat"), Some("r1"), Some("r2")));
    let mut s = with_runners(false, true, false);
    assert_eq!(move_runners_on_hit(&HitType::Single(None), &mut s), 0);
    assert_eq!(on(&s), (Some("bat"), None, Some("r2")));
    let mut s = with_runners(true, true, true);
    assert_eq!(move_runners_on_hit(&HitType::Double(None), &mut s), 2);
    assert_eq!(on(&s), (None, Some("bat"), Some("r1")));
    let mut s = with_runners(true, false, true);
    assert_eq!(move_runners_on_hit(&HitType::Triple(None), &mut s), 2);
    assert_eq!(on(&s), (None, None, Some("bat")));
    let mut s = with_runners(true, true, true);
    assert_eq!(move_runners_on_hit(&HitType::HomeRun, &mut s), 4);
    assert_eq!(on(&s), (None, None, None));
    let mut s = with_runners(false, false, false);
    assert_eq!(move_runners_on_hit(&HitType::HomeRun, &mut s), 1);
    let mut s = with_runners(true, false, false);
    s.count.add_ball();
    assert_eq!(move_runners_on_hit(&HitType::FlyOut(Position::LeftField), &mut s), 0);
    assert_eq!(on(&s), (Some("r1"), None, None));
    assert_eq!(s.outs, 1);
    assert_eq!(s.count.balls, 0);

    let mut s = with_runners(true, true, true);
    move_runners_on_walk(&mut s);
    assert_eq!(on(&s), (Some("bat"), Some("r1"), Some("r2")));
    let mut s = with_runners(false, false, true);
    move_runners_on_walk(&mut s);
    assert_eq!(on(&s), (Some("bat"), None, Some("r3")));
    let mut s = with_runners(false, true, false);
    move_runners_on_walk(&mut s);
    assert_eq!(on(&s), (Some("bat"), None, Some("r2")));
}

#[test]
fn the_game_starts() {
    let game = game();
    assert_eq!(game.phase, GamePhase::Playing);
    assert_eq!(game.play_by_play, vec!["T1: GAME STARTED".to_string()]);
    assert_eq!(game.situation.current_batter_id, "v-bat1");
    assert_eq!(game.situation.current_pitcher_id, "h-ace");
    assert_eq!(game.current_batting_team().full_name(), "Boston Red Sox");
    assert_eq!(game.current_pitching_team().full_name(), "New York Yankees");
    assert_eq!(game.weather, "Clear, 72°F");
    assert_eq!(game.attendance, 35000);
    assert_eq!(game.game_start_time, "19:05");
    assert!(game.is_top_inning());
    assert_eq!((game.inning(), game.outs(), game.visitor_score(), game.home_score()), (1, 0, 0, 0));
    assert!(game.is_ready());
    assert!(!game.is_game_over());
    assert_eq!(game.home_team.get_player("h-bat3").unwrap().name, "Yankees Batter 3");
    assert!(game.home_team.get_player("v-bat3").is_none());
}

fn play(game: &mut GameState, result: PlayResult) -> GameEvent {
    let mut event = GameEvent::new(
        game.situation.inning,
        game.situation.inning_half,
        game.situation.outs,
        game.situation.current_batter_id.clone(),
        game.situation.current_pitcher_id.clone(),
        result,
    );
    assert!(game.is_ready());
    assert_eq!(carry_out_play(&mut event, game), Ok(()));
    event
}

#[test]
fn plays_are_carried_out() {
    let mut game = game();
    let e = play(&mut game, PlayResult::Hit(HitType::Single(None)));
    assert_eq!(e.description, "Red Sox Batter 1 singles");
    assert_eq!(e.runs_scored, 0);
    assert_eq!(game.situation.runners.first.as_deref(), Some("v-bat1"));
    assert_eq!(game.situation.batter_number, 2);
    assert_eq!(game.situation.current_batter_id, "v-bat2");
    assert_eq!(game.play_by_play.last().unwrap(), "T1: Red Sox Batter 1 singles");

    let e = play(&mut game, PlayResult::Walk);
    assert_eq!(e.description, "Red Sox Batter 2 walks");
    assert_eq!(game.situation.runners.second.as_deref(), Some("v-bat1"));

    // a ball does not end the plate appearance
    play(&mut game, PlayResult::Ball);
    assert_eq!(game.situation.current_batter_id, "v-bat3");
    assert_eq!(game.play_by_play.last().unwrap(), "T1: Ball");

    let e = play(&mut game, PlayResult::Hit(HitType::HomeRun));
    assert_eq!(e.runs_scored, 3);
    assert_eq!(e.description, "Red Sox Batter 3 home run!. 3 runs score.");
    assert_eq!(game.visitor_score(), 3);
    assert_eq!(game.score.visitor_runs_by_inning[0], 3);
    assert_eq!(game.home_score(), 0);

    play(&mut game, PlayResult::Strikeout);
    play(&mut game, PlayResult::Hit(HitType::GroundOut(Position::Shortstop)));
    assert_eq!(game.outs(), 2);
    play(&mut game, PlayResult::Hit(HitType::Single(None)));
    let e = play(&mut game, PlayResult::FieldersChoice);
    assert_eq!(e.description, "Red Sox Batter 7 fielder's choice");
    // the third out turns the sides
    assert_eq!(game.outs(), 0);
    assert!(!game.is_top_inning());
    assert_eq!(game.inning(), 1);
    assert_eq!(game.situation.runners.first, None);
    assert_eq!(game.situation.batter_number, 1);
    assert_eq!(game.situation.current_batter_id, "h-bat1");
    assert_eq!(game.situation.current_pitcher_id, "v-ace");
    let n = game.play_by_play.len();
    assert_eq!(game.play_by_play[n - 2], "T1: Red Sox Batter 7 fielder's choice");
    assert_eq!(game.play_by_play[n - 1], "T1: END TOP 1");

    let e = play(&mut game, PlayResult::Hit(HitType::HomeRun));
    assert_eq!(e.description, "Yankees Batter 1 home run!. 1 run scores.");
    assert_eq!(game.home_score(), 1);
    assert_eq!(game.score.home_runs_by_inning[0], 1);
}

#[test]
fn unknown_batter_stops_the_play() {
    let mut game = game();
    game.situation.current_batter_id = "nobody".to_string();
    let lines = game.play_by_play.len();
    let mut event = GameEvent::new(1, InningHalf::Top, 0, "nobody".to_string(), "h-ace".to_string(), PlayResult::Walk);
    let mut engine = GameEngine::with_seed(7);
    assert_eq!(
        engine.process_play_result(&mut event, &mut game),
        Err("Current batter not found".to_string())
    );
    assert_eq!(engine.get_current_batter(&game).unwrap_err(), "Current batter not found");
    assert_eq!(engine.get_current_pitcher(&game).unwrap().name, "Yankees Ace");
    assert_eq!(game.play_by_play.len(), lines);
    assert_eq!(event.description, "");
    assert_eq!(engine.simulate_at_bat(&mut game).unwrap_err(), "Current batter not found");
    game.situation.current_batter_id = "v-bat1".to_string();
    game.situation.current_pitcher_id = "nobody".to_string();
    assert_eq!(engine.simulate_at_bat(&mut game).unwrap_err(), "Current pitcher not found");
    game.situation.current_pitcher_id = "h-bat1".to_string();
    assert_eq!(engine.simulate_at_bat(&mut game).unwrap_err(), "Current pitcher does not pitch");
    game.situation.current_pitcher_id = "h-ace".to_string();
    game.visitor_team.roster.players[0].batting = None;
    assert_eq!(engine.simulate_at_bat(&mut game).unwrap_err(), "Current batter does not bat");
}

#[test]
fn the_game_ends() {
    // bottom of the ninth, home team ahead: over at once
    let mut game = game();
    game.situation.inning = 9;
    game.situation.inning_half = InningHalf::Bottom;
    game.score.home = 2;
    game.score.visitor = 1;
    assert!(game.is_game_over());
    game.check_game_end();
    assert_eq!(game.phase, GamePhase::GameOver);
    assert_eq!(game.play_by_play.last().unwrap(), "B9: FINAL: New York Yankees wins");

    // top of the ninth is played out
    let mut game = self::game();
    game.situation.inning = 9;
    game.score.visitor = 5;
    assert!(!game.is_game_over());
    game.situation.outs = 3;
    assert!(!game.is_game_over());
    game.score.home = 6;
    assert!(game.is_game_over());

    // extra innings: a tie while the home team bats ends the game
    let mut game = self::game();
    game.situation.inning = 10;
    game.situation.inning_half = InningHalf::Bottom;
    game.score.home = 3;
    game.score.visitor = 3;
    assert!(game.is_game_over());
    game.check_game_end();
    assert_eq!(game.play_by_play.last().unwrap(), "B10: FINAL: Game tied");
    game.situation.inning_half = InningHalf::Top;
    game.phase = GamePhase::Playing;
    assert!(!game.is_game_over());
    game.score.visitor = 4;
    assert!(!game.is_game_over());
    let lines = game.play_by_play.len();
    game.check_game_end();
    assert_eq!(game.play_by_play.len(), lines);
    assert_eq!(game.phase, GamePhase::Playing);
    // before the ninth nothing is decided
    game.situation.inning = 8;
    game.situation.inning_half = InningHalf::Bottom;
    game.score.home = 10;
    assert!(!game.is_game_over());
    game.phase = GamePhase::GameOver;
    assert!(game.is_game_over());
}

#[test]
fn plate_appearances_are_simulated() {
    let mut engine = GameEngine::new();
    let mut game = game();
    let mut played = 0;
    while !game.is_game_over() && played < 2000 {
        assert!(game.is_ready());
        let before = game.play_by_play.len();
        let event = engine.simulate_at_bat(&mut game).expect("both sides can play");
        assert!(engine.is_at_bat_over(&event.result));
        assert!(!event.description.is_empty());
        assert!(game.play_by_play.len() > before);
        assert!(game.outs() < 3);
        played += 1;
    }
    assert!(played > 50);
    let by_inning: u32 = game.score.visitor_runs_by_inning.iter().sum();
    assert_eq!(by_inning, game.visitor_score());
    let by_inning: u32 = game.score.home_runs_by_inning.iter().sum();
    assert_eq!(by_inning, game.home_score());
}

#[test]
fn players_are_made() {
    let batter = Player::new(
        "id1".to_string(),
        "Ted".to_string(),
        9,
        Position::LeftField,
        Handedness::Right,
        Handedness::Left,
    );
    assert_eq!(batter.batting, Some(BattingCard { contact: 700, power: 500, patience: 500 }));
    assert_eq!(batter.pitching, None);
    assert!(batter.is_position_player() && batter.can_bat());
    assert!(!batter.is_pitcher() && !batter.can_pitch());
    assert_eq!(batter.primary_position(), Position::LeftField);
    assert!(batter.can_play_position(Position::LeftField));
    assert!(!batter.can_play_position(Position::CenterField));
    assert!(!batter.is_injured());
    assert_eq!(
        (batter.age, batter.height.as_str(), batter.weight, batter.salary, batter.years_pro),
        (25, "6'0\"", 180, 500000, 1)
    );
    assert_eq!((batter.throws, batter.bats), (Handedness::Right, Handedness::Left));
    assert_eq!(batter.display_name(), "Ted (LF)");
    let mut utility = batter.clone();
    utility.secondary_positions = vec![Position::FirstBase, Position::CenterField];
    assert!(utility.can_play_position(Position::CenterField));
    assert!(utility.can_play_position(Position::FirstBase));
    assert!(!utility.can_play_position(Position::Catcher));

    let closer = Player::pitcher(
        "id2".to_string(),
        "Mo".to_string(),
        42,
        Handedness::Right,
        PitcherRole::Closer,
    );
    assert_eq!(closer.pitching, Some(PitchingCard { control: 600, role: PitcherRole::Closer }));
    assert_eq!(closer.batting, None);
    assert_eq!(closer.bats, Handedness::Right);
    assert!(closer.is_pitcher() && closer.can_pitch() && !closer.can_bat());
    assert_eq!(closer.display_name(), "Mo (P)");
    let starter = Player::new(
        "id3".to_string(),
        "Cy".to_string(),
        1,
        Position::Pitcher,
        Handedness::Right,
        Handedness::Right,
    );
    assert_eq!(starter.pitching, Some(PitchingCard { control: 600, role: PitcherRole::Starter }));
}

fn names(players: &[&Player]) -> Vec<String> {
    players.iter().map(|p| p.name.clone()).collect()
}

#[test]
fn the_roster() {
    let team = team("v", "Boston", "Red Sox");
    let roster = team.roster.clone();
    assert_eq!(roster.players.len(), 14);
    assert_eq!(roster.active_roster.len(), 14);
    assert_eq!(roster.get_active_players().len(), 14);
    assert_eq!(roster.get_pitchers().len(), 5);
    assert_eq!(names(&roster.get_starters()), vec!["Red Sox Ace"]);
    assert_eq!(
        names(&roster.get_relievers()),
        vec!["Red Sox Arm 0", "Red Sox Arm 1", "Red Sox Arm 2", "Red Sox Arm 3"]
    );
    assert_eq!(roster.get_position_players().len(), 9);
    assert_eq!(names(&roster.get_players_by_position(Position::Shortstop)), vec!["Red Sox Batter 5"]);
    assert!(roster.get_injured_players().is_empty());
    assert!(roster.is_roster_legal());
    assert!(team.is_ready_to_play());
    assert_eq!(
        roster.roster_summary(),
        "Roster: 14/40 total, 14/25 active, 0 injured, 5 pitchers, 9 position players"
    );
    assert_eq!(team.get_player("v-arm2").unwrap().name, "Red Sox Arm 2");
    assert_eq!(team.get_active_players().len(), 14);
    assert_eq!(roster.player_index("v-bat3"), Some(2));

    let mut roster = roster;
    assert_eq!(roster.move_to_injured_list("v-arm0"), Ok(()));
    assert!(roster.get_player("v-arm0").unwrap().is_injured());
    assert_eq!(roster.active_roster.len(), 13);
    assert_eq!(roster.injured_list, vec!["v-arm0".to_string()]);
    assert_eq!(names(&roster.get_injured_players()), vec!["Red Sox Arm 0"]);
    assert!(!roster.is_roster_legal());
    assert_eq!(roster.move_to_injured_list("v-arm0"), Ok(()));
    assert_eq!(roster.injured_list.len(), 1);
    assert_eq!(roster.move_to_injured_list("ghost"), Err("Player not found".to_string()));
    assert_eq!(
        roster.roster_summary(),
        "Roster: 14/40 total, 13/25 active, 1 injured, 4 pitchers, 9 position players"
    );
    assert_eq!(roster.activate_from_injured_list("v-arm0"), Ok(()));
    assert!(!roster.get_player("v-arm0").unwrap().is_injured());
    assert!(roster.injured_list.is_empty());
    assert_eq!(roster.active_roster.last().unwrap(), "v-arm0");
    assert_eq!(
        roster.activate_from_injured_list("v-arm0"),
        Err("Player not on injured list".to_string())
    );

    assert_eq!(roster.deactivate_player("v-bat9"), Ok(()));
    assert_eq!(roster.deactivate_player("v-bat9"), Err("Player not on active roster".to_string()));
    assert_eq!(roster.active_roster.len(), 13);
    assert_eq!(roster.activate_player("v-bat1"), Err("Player already active".to_string()));
    assert_eq!(roster.activate_player("ghost"), Err("Player not found".to_string()));
    assert_eq!(roster.activate_player("v-bat9"), Ok(()));
    assert_eq!(roster.active_roster.last().unwrap(), "v-bat9");
    roster.max_active_size = 14;
    roster.deactivate_player("v-bat9").unwrap();
    roster.max_active_size = 13;
    assert_eq!(roster.activate_player("v-bat9"), Err("Active roster is full".to_string()));
    roster.injured_list.push("v-bat9".to_string());
    assert_eq!(
        roster.activate_from_injured_list("v-bat9"),
        Err("Active roster is full".to_string())
    );

    let gone = roster.remove_player("v-bat2").expect("on the roster");
    assert_eq!(gone.name, "Red Sox Batter 2");
    assert_eq!(roster.players.len(), 13);
    assert!(!roster.active_roster.contains(&"v-bat2".to_string()));
    assert!(roster.get_player("v-bat2").is_none());
    assert_eq!(roster.remove_player("v-bat2").unwrap_err(), "Player not found");
    roster.get_player_mut("v-bat3").unwrap().jersey_number = 99;
    assert_eq!(roster.get_player("v-bat3").unwrap().jersey_number, 99);

    // a player with an id that is taken replaces the one who had it
    let replacement = Player::position_player(
        "v-bat3".to_string(),
        "New Third".to_string(),
        3,
        Position::SecondBase,
        Handedness::Left,
        Handedness::Left,
    );
    roster.max_active_size = 25;
    assert_eq!(roster.add_player(replacement), Ok(()));
    assert_eq!(roster.players.len(), 13);
    assert_eq!(roster.get_player("v-bat3").unwrap().name, "New Third");
    roster.max_roster_size = 13;
    let late = Player::pitcher("x".to_string(), "Late".to_string(), 0, Handedness::Left, PitcherRole::Reliever);
    assert_eq!(roster.add_player(late), Err("Roster is full".to_string()));
}

#[test]
fn line_ups_are_checked() {
    let mut team = team("h", "New York", "Yankees");
    assert_eq!(team.full_name(), "New York Yankees");
    assert_eq!((team.colors.primary.as_str(), team.colors.secondary.as_str()), ("Blue", "White"));
    assert_eq!(team.ballpark_name, "Stadium");
    let team2 = team
        .clone()
        .with_colors("Navy Blue".to_string(), "Gray".to_string())
        .with_ballpark("Yankee Stadium".to_string());
    assert_eq!(team2.colors.primary, "Navy Blue");
    assert_eq!(team2.colors.secondary, "Gray");
    assert_eq!(team2.ballpark_name, "Yankee Stadium");

    let active = team.get_active_players();
    assert!(team.lineup.validate_lineup(&active).is_empty());
    assert_eq!(
        team.lineup.display_lineup(&active),
        vec![
            "BATTING ORDER:",
            "1. Yankees Batter 1 1 - C",
            "2. Yankees Batter 2 2 - 1B",
            "3. Yankees Batter 3 3 - 2B",
            "4. Yankees Batter 4 4 - 3B",
            "5. Yankees Batter 5 5 - SS",
            "6. Yankees Batter 6 6 - LF",
            "7. Yankees Batter 7 7 - CF",
            "8. Yankees Batter 8 8 - RF",
            "9. Yankees Batter 9 9 - DH",
            "SP: Yankees Ace 50",
        ]
    );
    let mut with_dh = team.lineup.clone();
    with_dh.set_designated_hitter("h-bat9".to_string());
    assert_eq!(with_dh.display_lineup(&active)[10], "DH: Yankees Batter 9 9");
    assert_eq!(with_dh.display_lineup(&active)[11], "SP: Yankees Ace 50");
    drop(active);

    let mut bad = Lineup::new();
    bad.add_batter("h-bat1".to_string(), Position::Shortstop).unwrap();
    bad.add_batter("ghost".to_string(), Position::Catcher).unwrap();
    bad.set_starting_pitcher("h-bat2".to_string());
    let active = team.get_active_players();
    assert_eq!(
        bad.validate_lineup(&active),
        vec![
            "Lineup is not complete",
            "No player assigned to First Base",
            "No player assigned to Second Base",
            "No player assigned to Third Base",
            "No player assigned to Left Field",
            "No player assigned to Center Field",
            "No player assigned to Right Field",
            "Yankees Batter 1 cannot play Shortstop",
            "Player ghost not found in roster",
            "Yankees Batter 2 is not a pitcher",
        ]
    );
    assert_eq!(bad.display_lineup(&active), vec!["BATTING ORDER:", "1. Yankees Batter 1 1 - SS", "SP: Yankees Batter 2 2"]);
    drop(active);
    let kept = team.lineup.spots.len();
    let refused = team.set_lineup(bad).unwrap_err();
    assert!(refused.starts_with("Invalid lineup: Lineup is not complete, No player assigned to First Base, "));
    assert!(refused.ends_with(", Player ghost not found in roster, Yankees Batter 2 is not a pitcher"));
    assert_eq!(team.lineup.spots.len(), kept);

    let mut no_pitcher = team.lineup.clone();
    no_pitcher.set_starting_pitcher("nobody".to_string());
    assert_eq!(
        team.set_lineup(no_pitcher),
        Err("Invalid lineup: Starting pitcher not found in roster".to_string())
    );
    team.roster.deactivate_player("h-arm1").unwrap();
    assert!(!team.is_ready_to_play());
}

#[test]
fn a_seeded_game_plays_the_same() {
    let mut plays = Vec::new();
    for _ in 0..2 {
        let mut engine = GameEngine::with_seed(2024);
        let mut game = game();
        let mut lines = Vec::new();
        for _ in 0..40 {
            if game.is_game_over() {
                break;
            }
            let event = engine.simulate_at_bat(&mut game).expect("both sides can play");
            lines.push(event.description);
        }
        plays.push((lines, game.visitor_score(), game.home_score(), game.inning()));
    }
    assert_eq!(plays[0], plays[1]);
    assert_eq!(plays[0].0.len(), 40);
    // not every plate appearance ends alike
    assert!(plays[0].0.iter().any(|line| line != &plays[0].0[0]));
}

#[test]
fn engine_moves_runners_on_the_game() {
    let engine = GameEngine::with_seed(1);
    let mut game = game();
    engine.process_walk(&mut game);
    assert_eq!(game.situation.runners.first.as_deref(), Some("v-bat1"));
    assert_eq!(engine.process_hit(&HitType::Double(None), &mut game), 0);
    assert_eq!(game.situation.runners.third.as_deref(), Some("v-bat1"));
    assert_eq!(game.situation.runners.second.as_deref(), Some("v-bat1"));
    assert_eq!(engine.process_hit(&HitType::HomeRun, &mut game), 3);
    assert_eq!(engine.process_hit(&HitType::PopOut(Position::Catcher), &mut game), 0);
    assert_eq!(game.outs(), 1);
}

#[test]
fn the_generator() {
    let mut a = WildPitchRng::with_seed(99);
    let mut b = WildPitchRng::with_seed(99);
    let mut fresh = WildPitchRng::new();
    let mut seen = [false; 6];
    for _ in 0..300 {
        let x = a.gen_range(10, 20);
        assert_eq!(x, b.gen_range(10, 20));
        assert!((10..=20).contains(&x));
        let d = a.roll_d6();
        assert_eq!(d, b.roll_d6());
        assert!((1..=6).contains(&d));
        seen[d as usize - 1] = true;
        assert!((1..=20).contains(&fresh.roll_d20()));
        assert!((1..=100).contains(&fresh.roll_d100()));
        assert_eq!(fresh.gen_range(5, 5), 5);
        assert!(!fresh.gen_ratio(0, 10));
        assert!(fresh.gen_ratio(10, 10));
        assert!(fresh.gen_ratio(11, 10));
    }
    assert!(seen.iter().all(|s| *s));

    let items: Vec<u32> = (0..50).collect();
    assert_eq!(fresh.pick_one(&Vec::<u32>::new()), None);
    for _ in 0..50 {
        let picked = *fresh.pick_one(&items).expect("one of the items");
        assert!(picked < 50);
    }
    let mut shuffled = items.clone();
    fresh.shuffle(&mut shuffled);
    assert_ne!(shuffled, items);
    shuffled.sort();
    assert_eq!(shuffled, items);

    let weights = vec![0, 3, 0, 1, 0];
    let mut counts = [0u32; 5];
    for _ in 0..400 {
        counts[fresh.weighted_choice(&weights)] += 1;
    }
    assert_eq!(counts[0] + counts[2] + counts[4], 0);
    assert!(counts[1] > counts[3] && counts[3] > 0);
    assert_eq!(WildPitchRng::choice_for(&weights, 0), 1);
    assert_eq!(WildPitchRng::choice_for(&weights, 2), 1);
    assert_eq!(WildPitchRng::choice_for(&weights, 3), 3);
    assert_eq!(WildPitchRng::choice_for(&vec![5], 4), 0);
}

#[test]
fn room_for_another_play() {
    let mut game = game();
    assert!(game.is_ready());
    game.situation.inning = 255;
    assert!(game.is_ready());
    game.situation.advance_inning();
    assert_eq!(game.situation.inning, 255);
    assert!(!game.is_top_inning());
    assert!(!game.is_ready());
    game.situation.inning = 254;
    assert!(game.is_ready());
    game.situation.inning = 0;
    assert!(!game.is_ready());
    game.situation.inning = 1;
    game.situation.outs = 255;
    assert!(!game.is_ready());
    game.situation.outs = 0;
    game.score.home = u32::MAX - 254;
    assert!(!game.is_ready());
    game.score.home = u32::MAX - 255;
    assert!(game.is_ready());
}
