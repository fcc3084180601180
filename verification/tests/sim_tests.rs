use wild_pitch::sim::events::{
    BaseRunningEvent, GameEvent, HitType, InningEvents, ManagerAction, PlayResult,
};
use wild_pitch::sim::lineup::{Lineup, LineupSpot};
use wild_pitch::sim::players::{BatterStats, FieldingStats, Position};
use wild_pitch::sim::state::{Base, BaseRunners, Count, GameSituation, InningHalf, Score};

fn id(s: &str) -> Option<String> {
    Some(s.to_string())
}

#[test]
fn runners_on_the_bases() {
    let mut runners = BaseRunners::new();
    assert_eq!(runners.count_runners(), 0);
    assert!(runners.runners_on_base().is_empty());
    assert!(!runners.is_scoring_position());
    runners.set_runner(Base::First, id("a"));
    runners.set_runner(Base::Third, id("c"));
    assert_eq!(runners.get_runner(Base::First), Some(&"a".to_string()));
    assert_eq!(runners.get_runner(Base::Second), None);
    assert_eq!(runners.runners_on_base(), vec![Base::First, Base::Third]);
    assert_eq!(runners.count_runners(), 2);
    assert!(runners.is_scoring_position());
    assert!(!runners.is_bases_loaded());

    // first to second
    assert_eq!(runners.advance_runner(Base::First, Some(Base::Second)), id("a"));
    assert_eq!(runners.first, None);
    assert_eq!(runners.second, id("a"));
    // third scores
    assert_eq!(runners.advance_runner(Base::Third, None), id("c"));
    assert_eq!(runners.third, None);
    // nobody on first: the base reached is emptied
    assert_eq!(runners.advance_runner(Base::First, Some(Base::Second)), None);
    assert_eq!(runners.second, None);

    runners.set_runner(Base::First, id("x"));
    runners.set_runner(Base::Second, id("y"));
    runners.set_runner(Base::Third, id("z"));
    assert!(runners.is_bases_loaded());
    assert_eq!(runners.count_runners(), 3);
    // a runner who stays where he is
    assert_eq!(runners.advance_runner(Base::Second, Some(Base::Second)), id("y"));
    assert_eq!(runners.second, id("y"));
    runners.clear();
    assert_eq!(runners.count_runners(), 0);
}

#[test]
fn the_count() {
    let mut count = Count::new();
    assert_eq!(count.display(), "0-0");
    assert!(!count.add_ball());
    assert!(!count.add_ball());
    assert!(!count.add_ball());
    assert!(!count.add_strike());
    assert!(!count.is_full_count());
    assert!(!count.add_strike());
    assert!(count.is_full_count());
    assert_eq!(count.display(), "3-2");
    assert!(count.add_ball());
    assert_eq!(count.balls, 4);
    assert!(count.add_strike());
    assert_eq!(count.strikes, 3);
    count.reset();
    assert_eq!(count, Count::new());
    count.balls = 12;
    count.strikes = 200;
    assert_eq!(count.display(), "12-200");
}

#[test]
fn the_situation() {
    let mut situation = GameSituation::new();
    assert_eq!(situation.inning, 1);
    assert!(situation.is_top_inning());
    assert!(!situation.is_bottom_inning());
    assert_eq!(situation.batter_number, 1);
    situation.count.add_ball();
    situation.add_out();
    assert_eq!(situation.outs, 1);
    assert_eq!(situation.count, Count::new());
    assert!(!situation.is_inning_over());
    situation.add_out();
    situation.add_out();
    assert!(situation.is_inning_over());
    situation.runners.set_runner(Base::Second, id("r"));
    situation.advance_inning();
    assert_eq!(situation.inning, 1);
    assert!(situation.is_bottom_inning());
    assert_eq!(situation.outs, 0);
    assert_eq!(situation.runners.count_runners(), 0);
    situation.advance_inning();
    assert_eq!(situation.inning, 2);
    assert!(situation.is_top_inning());
    for expected in [2, 3, 4, 5, 6, 7, 8, 9, 1, 2] {
        situation.count.add_strike();
        situation.advance_batter();
        assert_eq!(situation.batter_number, expected);
        assert_eq!(situation.count, Count::new());
    }
}

#[test]
fn the_score() {
    let mut score = Score::new();
    assert_eq!(score.visitor_runs_by_inning, vec![0; 9]);
    assert_eq!(score.home_runs_by_inning, vec![0; 9]);
    assert_eq!(score.get_winning_team(), None);
    assert_eq!(score.get_margin(), 0);
    score.add_run(false, 1);
    score.add_run(false, 1);
    score.add_run(true, 9);
    assert_eq!(score.visitor, 2);
    assert_eq!(score.home, 1);
    assert_eq!(score.visitor_runs_by_inning, vec![2, 0, 0, 0, 0, 0, 0, 0, 0]);
    assert_eq!(score.home_runs_by_inning, vec![0, 0, 0, 0, 0, 0, 0, 0, 1]);
    assert_eq!(score.get_winning_team(), Some(false));
    assert_eq!(score.get_margin(), 1);
    // extra innings stretch both lines
    score.add_run(true, 11);
    score.add_run(true, 11);
    assert_eq!(score.home, 3);
    assert_eq!(score.home_runs_by_inning, vec![0, 0, 0, 0, 0, 0, 0, 0, 1, 0, 2]);
    assert_eq!(score.visitor_runs_by_inning, vec![2, 0, 0, 0, 0, 0, 0, 0, 0, 0, 0]);
    score.add_run(false, 12);
    assert_eq!(score.visitor_runs_by_inning, vec![2, 0, 0, 0, 0, 0, 0, 0, 0, 0, 0, 1]);
    assert_eq!(score.home_runs_by_inning, vec![0, 0, 0, 0, 0, 0, 0, 0, 1, 0, 2, 0]);
    assert_eq!(score.get_winning_team(), None);
    score.add_run(true, 12);
    assert_eq!(score.get_winning_team(), Some(true));
    assert_eq!(score.get_margin(), 1);
}

fn event(result: PlayResult) -> GameEvent {
    GameEvent::new(3, InningHalf::Bottom, 1, "bat1".to_string(), "arm1".to_string(), result)
}

#[test]
fn events_are_built_up() {
    let e = event(PlayResult::Walk);
    assert_eq!(e.inning, 3);
    assert_eq!(e.inning_half, InningHalf::Bottom);
    assert_eq!(e.outs, 1);
    assert_eq!(e.batter_id, "bat1");
    assert_eq!(e.pitcher_id, "arm1");
    assert!(e.base_running.is_empty() && e.manager_actions.is_empty());
    assert_eq!(e.description, "");
    assert!(!e.is_scoring_play());
    let mut e = e
        .with_description("custom".to_string())
        .with_runs_scored(2)
        .with_base_running(vec![BaseRunningEvent::WildPitch, BaseRunningEvent::Balk]);
    assert_eq!(e.description, "custom");
    assert_eq!(e.runs_scored, 2);
    assert_eq!(e.base_running.len(), 2);
    assert!(e.is_scoring_play());
    e.add_manager_action(ManagerAction::Bunt);
    e.add_manager_action(ManagerAction::IntentionalWalk);
    assert_eq!(e.manager_actions.len(), 2);
    assert!(matches!(e.manager_actions[1], ManagerAction::IntentionalWalk));
    assert_eq!(e.format_play_description("Ruth"), "custom");
}

#[test]
fn outs_and_hits_by_result() {
    let ss = Position::Shortstop;
    let cases = [
        (PlayResult::Ball, false, false, 0),
        (PlayResult::Strike, false, false, 0),
        (PlayResult::FoulBall, false, false, 0),
        (PlayResult::Walk, false, false, 0),
        (PlayResult::HitByPitch, false, false, 0),
        (PlayResult::SacrificeHit, false, false, 0),
        (PlayResult::SacrificeFly, false, false, 0),
        (PlayResult::Error(ss), false, false, 0),
        (PlayResult::Strikeout, true, false, 1),
        (PlayResult::FieldersChoice, true, false, 1),
        (PlayResult::DoublePlay, true, false, 2),
        (PlayResult::TriplePlay, true, false, 3),
        (PlayResult::Hit(HitType::Single(None)), false, true, 0),
        (PlayResult::Hit(HitType::Double(Some(ss))), false, true, 0),
        (PlayResult::Hit(HitType::Triple(None)), false, true, 0),
        (PlayResult::Hit(HitType::HomeRun), false, true, 0),
        (PlayResult::Hit(HitType::GroundOut(ss)), true, false, 1),
        (PlayResult::Hit(HitType::FlyOut(ss)), true, false, 1),
        (PlayResult::Hit(HitType::LineOut(ss)), true, false, 1),
        (PlayResult::Hit(HitType::PopOut(ss)), true, false, 1),
    ];
    for (result, out, hit, outs) in cases {
        let e = event(result);
        assert_eq!(e.is_out(), out, "{:?}", result);
        assert_eq!(e.is_hit(), hit, "{:?}", result);
        assert_eq!(e.outs_recorded(), outs, "{:?}", result);
    }
}

#[test]
fn plays_are_described() {
    let cf = Position::CenterField;
    let cases = [
        (PlayResult::Ball, "Ball"),
        (PlayResult::Strike, "Strike"),
        (PlayResult::FoulBall, "Foul ball"),
        (PlayResult::Walk, "Ruth walks"),
        (PlayResult::Strikeout, "Ruth strikes out"),
        (PlayResult::HitByPitch, "Ruth hit by pitch"),
        (PlayResult::SacrificeHit, "Ruth sacrifice hit"),
        (PlayResult::SacrificeFly, "Ruth sacrifice fly"),
        (PlayResult::FieldersChoice, "Ruth fielder's choice"),
        (PlayResult::Error(Position::ThirdBase), "Ruth reaches on error by 3B"),
        (PlayResult::DoublePlay, "Ruth grounds into double play"),
        (PlayResult::TriplePlay, "Ruth hits into triple play"),
        (PlayResult::Hit(HitType::Single(Some(cf))), "Ruth singles to CF"),
        (PlayResult::Hit(HitType::Single(None)), "Ruth singles"),
        (PlayResult::Hit(HitType::Double(Some(cf))), "Ruth doubles to CF"),
        (PlayResult::Hit(HitType::Double(None)), "Ruth doubles"),
        (PlayResult::Hit(HitType::Triple(Some(cf))), "Ruth triples to CF"),
        (PlayResult::Hit(HitType::Triple(None)), "Ruth triples"),
        (PlayResult::Hit(HitType::HomeRun), "Ruth home run!"),
        (PlayResult::Hit(HitType::GroundOut(Position::Shortstop)), "Ruth grounds out to SS"),
        (PlayResult::Hit(HitType::FlyOut(cf)), "Ruth flies out to CF"),
        (PlayResult::Hit(HitType::LineOut(Position::Pitcher)), "Ruth lines out to P"),
        (PlayResult::Hit(HitType::PopOut(Position::Catcher)), "Ruth pops out to C"),
    ];
    for (result, text) in cases {
        assert_eq!(event(result).format_play_description("Ruth"), text);
    }
    let homer = event(PlayResult::Hit(HitType::HomeRun));
    assert_eq!(
        homer.clone().with_runs_scored(1).format_play_description("Ruth"),
        "Ruth home run!. 1 run scores."
    );
    assert_eq!(
        homer.with_runs_scored(4).format_play_description("Ruth"),
        "Ruth home run!. 4 runs score."
    );
}

#[test]
fn the_line_of_a_half_inning() {
    let mut half = InningEvents::new(5, InningHalf::Top);
    assert_eq!((half.inning, half.inning_half), (5, InningHalf::Top));
    assert_eq!(half.total_outs(), 0);
    assert!(!half.is_complete());
    half.add_event(event(PlayResult::Hit(HitType::Single(None))));
    half.add_event(event(PlayResult::Error(Position::Shortstop)));
    half.add_event(event(PlayResult::Hit(HitType::HomeRun)).with_runs_scored(3));
    half.add_event(event(PlayResult::Strikeout));
    assert_eq!(half.events.len(), 4);
    assert_eq!((half.runs_scored, half.hits, half.errors, half.left_on_base), (3, 2, 1, 0));
    assert_eq!(half.total_outs(), 1);
    assert!(!half.is_complete());
    half.add_event(event(PlayResult::DoublePlay));
    assert_eq!(half.total_outs(), 3);
    assert!(half.is_complete());
    half.add_event(event(PlayResult::Hit(HitType::FlyOut(Position::LeftField))));
    assert_eq!(half.total_outs(), 4);
    assert_eq!(half.hits, 2);
}

#[test]
fn sim_position_names() {
    let all = [
        (Position::Pitcher, "P", "Pitcher", false, false),
        (Position::Catcher, "C", "Catcher", false, false),
        (Position::FirstBase, "1B", "First Base", true, false),
        (Position::SecondBase, "2B", "Second Base", true, false),
        (Position::ThirdBase, "3B", "Third Base", true, false),
        (Position::Shortstop, "SS", "Shortstop", true, false),
        (Position::LeftField, "LF", "Left Field", false, true),
        (Position::CenterField, "CF", "Center Field", false, true),
        (Position::RightField, "RF", "Right Field", false, true),
        (Position::DesignatedHitter, "DH", "Designated Hitter", false, false),
    ];
    for (position, short, long, infield, outfield) in all {
        assert_eq!(position.abbreviation(), short);
        assert_eq!(position.full_name(), long);
        assert_eq!(position.is_infield(), infield);
        assert_eq!(position.is_outfield(), outfield);
    }
    let batting = BatterStats::new();
    assert_eq!((batting.at_bats, batting.hits, batting.home_runs, batting.errors), (0, 0, 0, 0));
    let fielding = FieldingStats::new();
    assert_eq!((fielding.games_played, fielding.putouts, fielding.caught_stealing), (0, 0, 0));
}

fn nine() -> Lineup {
    let positions = [
        Position::Catcher,
        Position::FirstBase,
        Position::SecondBase,
        Position::ThirdBase,
        Position::Shortstop,
        Position::LeftField,
        Position::CenterField,
        Position::RightField,
        Position::DesignatedHitter,
    ];
    let mut lineup = Lineup::new();
    for (i, position) in positions.iter().enumerate() {
        assert_eq!(lineup.add_batter(format!("bat{}", i + 1), *position), Ok(()));
    }
    lineup
}

fn order(lineup: &Lineup) -> Vec<(String, u8)> {
    lineup.spots.iter().map(|s| (s.player_id.clone(), s.batting_order)).collect()
}

fn ids(lineup: &Lineup) -> Vec<&str> {
    lineup.spots.iter().map(|s| s.player_id.as_str()).collect()
}

#[test]
fn lineup_is_filled() {
    let mut lineup = Lineup::new();
    assert!(!lineup.is_complete());
    assert!(!lineup.has_designated_hitter());
    assert_eq!(lineup.add_batter("a".to_string(), Position::Catcher), Ok(()));
    assert_eq!(
        lineup.add_batter("b".to_string(), Position::Catcher),
        Err("Position C already filled".to_string())
    );
    assert_eq!(lineup.add_batter("b".to_string(), Position::DesignatedHitter), Ok(()));
    assert_eq!(lineup.add_batter("c".to_string(), Position::DesignatedHitter), Ok(()));
    assert_eq!(order(&lineup), vec![("a".to_string(), 1), ("b".to_string(), 2), ("c".to_string(), 3)]);

    let mut full = nine();
    assert!(!full.is_complete());
    full.set_starting_pitcher("sp".to_string());
    assert!(full.is_complete());
    assert_eq!(
        full.add_batter("x".to_string(), Position::Pitcher),
        Err("Lineup is full".to_string())
    );
    assert_eq!(full.spots.len(), 9);
    full.set_designated_hitter("dh".to_string());
    assert!(full.has_designated_hitter());
    assert_eq!(full.designated_hitter, Some("dh".to_string()));

    full.add_bench_player("b1".to_string());
    full.add_bench_player("b2".to_string());
    full.add_bench_player("b1".to_string());
    assert_eq!(full.bench_players, vec!["b1".to_string(), "b2".to_string()]);

    assert_eq!(full.get_batter_by_order(3).unwrap().player_id, "bat3");
    assert!(full.get_batter_by_order(10).is_none());
    assert_eq!(full.get_player_at_position(Position::Shortstop).unwrap().player_id, "bat5");
    assert!(full.get_player_at_position(Position::Pitcher).is_none());
    assert_eq!(full.get_batting_order("bat9"), Some(9));
    assert_eq!(full.get_batting_order("nobody"), None);
    let spot = LineupSpot::new("z".to_string(), 4, Position::Pitcher);
    assert_eq!((spot.player_id.as_str(), spot.batting_order, spot.position), ("z", 4, Position::Pitcher));
}

#[test]
fn removing_renumbers_the_order() {
    let mut lineup = nine();
    let removed = lineup.remove_from_lineup("bat3").expect("the third batter");
    assert_eq!((removed.player_id.as_str(), removed.batting_order), ("bat3", 3));
    assert_eq!(ids(&lineup), vec!["bat1", "bat2", "bat4", "bat5", "bat6", "bat7", "bat8", "bat9"]);
    let orders: Vec<u8> = lineup.spots.iter().map(|s| s.batting_order).collect();
    assert_eq!(orders, vec![1, 2, 3, 4, 5, 6, 7, 8]);
    assert!(lineup.remove_from_lineup("bat3").is_none());
    assert_eq!(lineup.spots.len(), 8);
}

#[test]
fn substitutes_take_over_the_spot() {
    let mut lineup = nine();
    lineup.set_starting_pitcher("sp".to_string());
    lineup.set_designated_hitter("dh".to_string());
    assert_eq!(lineup.substitute_player("bat4", "new4".to_string(), None), Ok(()));
    assert_eq!(ids(&lineup), vec!["bat1", "bat2", "bat3", "new4", "bat5", "bat6", "bat7", "bat8", "bat9"]);
    assert_eq!(lineup.spots[3].position, Position::ThirdBase);
    assert_eq!(lineup.spots[3].batting_order, 4);
    assert_eq!(lineup.substitute_player("bat1", "new1".to_string(), Some(Position::Pitcher)), Ok(()));
    assert_eq!(lineup.spots[0].player_id, "new1");
    assert_eq!(lineup.spots[0].position, Position::Pitcher);
    assert_eq!(lineup.substitute_player("dh", "dh2".to_string(), None), Ok(()));
    assert_eq!(lineup.designated_hitter, Some("dh2".to_string()));
    assert_eq!(lineup.substitute_player("sp", "rp".to_string(), None), Ok(()));
    assert_eq!(lineup.starting_pitcher_id, "rp");
    assert_eq!(
        lineup.substitute_player("ghost", "x".to_string(), None),
        Err("Player not found in lineup".to_string())
    );
    assert_eq!(lineup.spots.len(), 9);
}

#[test]
fn moving_in_the_order() {
    let mut lineup = nine();
    assert_eq!(
        lineup.move_batting_order("bat1", 0),
        Err("Batting order must be between 1 and 9".to_string())
    );
    assert_eq!(
        lineup.move_batting_order("bat1", 10),
        Err("Batting order must be between 1 and 9".to_string())
    );
    assert_eq!(
        lineup.move_batting_order("ghost", 3),
        Err("Player not found in lineup".to_string())
    );
    // second to fifth: third to fifth move up
    assert_eq!(lineup.move_batting_order("bat2", 5), Ok(()));
    assert_eq!(ids(&lineup), vec!["bat1", "bat3", "bat4", "bat5", "bat2", "bat6", "bat7", "bat8", "bat9"]);
    let orders: Vec<u8> = lineup.spots.iter().map(|s| s.batting_order).collect();
    assert_eq!(orders, vec![1, 2, 3, 4, 5, 6, 7, 8, 9]);
    // and back: ninth to first
    assert_eq!(lineup.move_batting_order("bat9", 1), Ok(()));
    assert_eq!(ids(&lineup), vec!["bat9", "bat1", "bat3", "bat4", "bat5", "bat2", "bat6", "bat7", "bat8"]);
    let orders: Vec<u8> = lineup.spots.iter().map(|s| s.batting_order).collect();
    assert_eq!(orders, vec![1, 2, 3, 4, 5, 6, 7, 8, 9]);
    // staying put changes nothing
    assert_eq!(lineup.move_batting_order("bat3", 3), Ok(()));
    assert_eq!(ids(&lineup), vec!["bat9", "bat1", "bat3", "bat4", "bat5", "bat2", "bat6", "bat7", "bat8"]);
}

#[test]
fn team_statistics_start_blank() {
    let batting = wild_pitch::sim::stats::TeamBattingStats::new();
    assert_eq!(
        (batting.games_played, batting.at_bats, batting.runs, batting.hits, batting.left_on_base),
        (0, 0, 0, 0, 0)
    );
    assert_eq!(batting, wild_pitch::sim::stats::TeamBattingStats::new());
    let fielding = wild_pitch::sim::stats::TeamFieldingStats::new();
    assert_eq!(
        (fielding.games_played, fielding.putouts, fielding.errors, fielding.triple_plays),
        (0, 0, 0, 0)
    );
}

#[test]
fn seeds_of_a_run() {
    let mut run = wild_pitch::sim::seed::SeededRandom::new(40);
    assert_eq!(run.get_seed(), 40);
    assert_eq!(run.next_seed(), 40);
    assert_eq!(run.next_seed(), 41);
    assert_eq!(run.next_seed(), 42);
    assert_eq!(run.counter, 3);
    run.reset();
    assert_eq!(run.counter, 0);
    assert_eq!(run.get_seed(), 40);
    assert_eq!(run.next_seed(), 40);
    // seeds wrap round at the top
    let mut high = wild_pitch::sim::seed::SeededRandom::new(u64::MAX);
    assert_eq!(high.next_seed(), u64::MAX);
    assert_eq!(high.next_seed(), 0);
    assert_eq!(high.next_seed(), 1);
    high.counter = u64::MAX;
    assert_eq!(high.next_seed(), u64::MAX - 1);
    assert_eq!(high.counter, 0);
}

#[test]
fn generators_of_a_run() {
    let mut run = wild_pitch::sim::seed::SeededRandom::new(7);
    let mut first = run.next_rng();
    assert_eq!(run.counter, 1);
    assert_eq!(run.get_seed(), 7);
    let mut second = run.next_rng();
    assert_eq!(run.counter, 2);
    for _ in 0..50 {
        let a = first.gen_range(3, 9);
        assert!((3..=9).contains(&a));
        let b = second.roll_d6();
        assert!((1..=6).contains(&b));
    }
    // the next seed of the run is the one after the two that were taken
    assert_eq!(run.next_seed(), 9);
    let mut last = wild_pitch::sim::seed::SeededRandom::new(1);
    last.counter = u64::MAX;
    let _ = last.next_rng();
    assert_eq!(last.counter, 0);
}
