use wild_pitch::audio::SoundCue;
use wild_pitch::game::engine::GameEngine;
use wild_pitch::game::input_handler::{
    calculate_swing_timing, complete_team_load, fail_team_load, format_timing, handle_input,
    handle_quit, handle_team_selection_input,
};
use wild_pitch::game::state::{
    BallInPlay, BallType, FieldDirection, GameMode, GameState, HitType, OutType, PitchLocation,
    PitchState, PlayResult, SwingTiming, TeamInputMode,
};
use wild_pitch::game::update::{estimate_contact_quality, update_game_state};
use wild_pitch::input::{GameInput, InputState};
use wild_pitch::team::PlayerStats;

fn playing() -> GameState {
    let mut state = GameState::new();
    state.start_game("NYY".to_string(), "BOS".to_string());
    state
}

fn row(name: &str, attempts: u32, barrel: u32) -> PlayerStats {
    PlayerStats {
        name: name.to_string(),
        id: name.to_string(),
        attempts,
        gb: 450,
        max_distance: 420,
        barrel_percent: barrel,
    }
}

fn tick(state: &mut GameState, engine: &GameEngine, pads: &mut InputState) -> Vec<SoundCue> {
    let mut pitches = 0u32;
    let mut hits = 0u8;
    assert!(state.is_ready());
    update_game_state(state, engine, pads, &mut pitches, &mut hits).sounds
}

#[test]
fn pitch_goes_from_choice_to_clock_to_approach() {
    let engine = GameEngine::new();
    let mut pads = InputState::new();
    let mut state = playing();
    assert_eq!(state.message, "Choose your pitch!");

    // a pitch that is not on offer is ignored
    handle_input(&mut state, &engine, &mut pads, GameInput::SelectPitch(4));
    assert_eq!(state.pitch_state, PitchState::ChoosePitch);
    handle_input(&mut state, &engine, &mut pads, GameInput::SelectPitch(1));
    assert_eq!(state.pitch_state, PitchState::Aiming { pitch_type: 1 });
    assert_eq!(
        state.message,
        "Aiming Curveball. Use arrows or SHIFT+(1-9) to aim, SPACE to pitch."
    );

    handle_input(&mut state, &engine, &mut pads, GameInput::Up);
    handle_input(&mut state, &engine, &mut pads, GameInput::Right);
    assert!(pads.up && pads.right && !pads.down && !pads.left);
    handle_input(&mut state, &engine, &mut pads, GameInput::Action);
    assert_eq!(state.pitch_location, Some(PitchLocation::UpOutside));
    assert_eq!(state.pitch_state, PitchState::PitchClock { frames_left: 90, pitch_type: 1 });
    assert_eq!(state.message, "Get ready! Pitch clock started...");
    assert_eq!(pads, InputState::new());

    tick(&mut state, &engine, &mut pads);
    assert_eq!(state.pitch_state, PitchState::PitchClock { frames_left: 89, pitch_type: 1 });
    assert_eq!(state.message, "GET READY! 3...");
    for _ in 0..88 {
        tick(&mut state, &engine, &mut pads);
    }
    assert_eq!(state.pitch_state, PitchState::PitchClock { frames_left: 1, pitch_type: 1 });
    assert_eq!(state.message, "GET READY! 1...");
    tick(&mut state, &engine, &mut pads);
    assert_eq!(
        state.pitch_state,
        PitchState::BallApproaching { frames_left: 90, ball_position: 0, can_swing: false, pitch_type: 1 }
    );
    assert_eq!(state.message, "Here comes the pitch! Watch the ball!");
}

#[test]
fn pitch_clock_counts_seconds() {
    let engine = GameEngine::new();
    let mut pads = InputState::new();
    let mut state = playing();
    state.pitch_state = PitchState::PitchClock { frames_left: 300, pitch_type: 0 };
    tick(&mut state, &engine, &mut pads);
    assert_eq!(state.message, "Pitch clock: 10s - Get in position!");
    state.pitch_state = PitchState::PitchClock { frames_left: 92, pitch_type: 0 };
    tick(&mut state, &engine, &mut pads);
    assert_eq!(state.message, "Pitch clock: 4s - Get in position!");
    tick(&mut state, &engine, &mut pads);
    assert_eq!(state.message, "GET READY! 3...");
    // a clock that has run out starts the pitch
    state.pitch_state = PitchState::PitchClock { frames_left: 0, pitch_type: 2 };
    tick(&mut state, &engine, &mut pads);
    assert_eq!(
        state.pitch_state,
        PitchState::BallApproaching { frames_left: 90, ball_position: 0, can_swing: false, pitch_type: 2 }
    );
}

#[test]
fn direct_position_locks_the_aim() {
    let engine = GameEngine::new();
    let mut pads = InputState::new();
    let mut state = playing();
    state.pitch_state = PitchState::Aiming { pitch_type: 3 };
    handle_input(&mut state, &engine, &mut pads, GameInput::DirectPosition(7));
    assert_eq!(state.pitch_location, Some(PitchLocation::UpInside));
    assert_eq!(state.pitch_state, PitchState::PitchClock { frames_left: 90, pitch_type: 3 });
}

#[test]
fn ball_approaches_and_the_window_opens() {
    let engine = GameEngine::new();
    let mut pads = InputState::new();
    let mut state = playing();
    state.pitch_location = Some(PitchLocation::Middle);
    state.pitch_state = PitchState::BallApproaching {
        frames_left: 90,
        ball_position: 0,
        can_swing: false,
        pitch_type: 0,
    };
    state.message = "before".to_string();
    tick(&mut state, &engine, &mut pads);
    assert_eq!(
        state.pitch_state,
        PitchState::BallApproaching { frames_left: 89, ball_position: 1, can_swing: false, pitch_type: 0 }
    );
    assert_eq!(state.message, "before");
    for _ in 0..58 {
        tick(&mut state, &engine, &mut pads);
    }
    assert_eq!(
        state.pitch_state,
        PitchState::BallApproaching { frames_left: 31, ball_position: 59, can_swing: false, pitch_type: 0 }
    );
    tick(&mut state, &engine, &mut pads);
    assert_eq!(
        state.pitch_state,
        PitchState::BallApproaching { frames_left: 30, ball_position: 60, can_swing: true, pitch_type: 0 }
    );
    assert_eq!(state.message, "SWING NOW! Time your swing!");
    for _ in 0..11 {
        tick(&mut state, &engine, &mut pads);
    }
    assert_eq!(state.message, "SWING NOW! Time your swing!");
    tick(&mut state, &engine, &mut pads);
    assert_eq!(state.message, "Good timing zone...");
    for _ in 0..12 {
        tick(&mut state, &engine, &mut pads);
    }
    assert_eq!(state.message, "PERFECT TIMING!");
    assert_eq!(
        state.pitch_state,
        PitchState::BallApproaching { frames_left: 6, ball_position: 84, can_swing: true, pitch_type: 0 }
    );
}

#[test]
fn a_pitch_not_swung_at_is_taken() {
    let engine = GameEngine::new();
    let mut pads = InputState::new();
    let mut state = playing();
    state.pitch_location = Some(PitchLocation::Middle);
    state.swing_timing = SwingTiming::Perfect;
    state.pitch_state = PitchState::BallApproaching {
        frames_left: 1,
        ball_position: 89,
        can_swing: true,
        pitch_type: 0,
    };
    let sounds = tick(&mut state, &engine, &mut pads);
    assert!(sounds.is_empty());
    assert_eq!(
        state.pitch_state,
        PitchState::ShowResult { result: PlayResult::Strike, frames_left: 90 }
    );
    assert_eq!(state.swing_timing, SwingTiming::NoSwing);
    assert_eq!(state.strikes, 1);
    assert_eq!(state.message, "Strike 1!");

    let mut outside = playing();
    outside.pitch_location = Some(PitchLocation::DownInside);
    outside.balls = 3;
    outside.pitch_state = PitchState::BallApproaching {
        frames_left: 1,
        ball_position: 89,
        can_swing: true,
        pitch_type: 0,
    };
    tick(&mut outside, &engine, &mut pads);
    assert_eq!(
        outside.pitch_state,
        PitchState::ShowResult { result: PlayResult::Ball, frames_left: 90 }
    );
    assert_eq!(outside.balls, 0);
    assert_eq!(outside.bases, [true, false, false]);
    assert_eq!(outside.pitch_location, None);

    // a pitch that was never aimed counts as down the middle
    let mut unaimed = playing();
    unaimed.pitch_state = PitchState::BallApproaching {
        frames_left: 0,
        ball_position: 90,
        can_swing: true,
        pitch_type: 0,
    };
    tick(&mut unaimed, &engine, &mut pads);
    assert_eq!(
        unaimed.pitch_state,
        PitchState::ShowResult { result: PlayResult::Strike, frames_left: 90 }
    );
}

#[test]
fn swing_timing_windows() {
    let mut state = playing();
    let mut at = |frames_left: u8, can_swing: bool| {
        state.pitch_state = PitchState::BallApproaching {
            frames_left,
            ball_position: 0,
            can_swing,
            pitch_type: 0,
        };
        calculate_swing_timing(&state)
    };
    assert_eq!(at(0, true), SwingTiming::Late);
    assert_eq!(at(3, true), SwingTiming::Late);
    assert_eq!(at(4, true), SwingTiming::Perfect);
    assert_eq!(at(9, true), SwingTiming::Perfect);
    assert_eq!(at(10, true), SwingTiming::Early);
    assert_eq!(at(21, true), SwingTiming::Early);
    assert_eq!(at(22, true), SwingTiming::TooEarly);
    assert_eq!(at(30, true), SwingTiming::TooEarly);
    assert_eq!(at(5, false), SwingTiming::TooEarly);
    assert_eq!(calculate_swing_timing(&playing()), SwingTiming::NoSwing);
    assert_eq!(format_timing(&SwingTiming::TooEarly), "Too Early!");
    assert_eq!(format_timing(&SwingTiming::Early), "Early");
    assert_eq!(format_timing(&SwingTiming::Perfect), "Perfect!");
    assert_eq!(format_timing(&SwingTiming::Late), "Late");
    assert_eq!(format_timing(&SwingTiming::TooLate), "Too Late!");
    assert_eq!(format_timing(&SwingTiming::NoSwing), "No Swing");
}

#[test]
fn swing_is_timed_and_resolved() {
    let engine = GameEngine::new();
    let mut pads = InputState::new();
    let mut state = playing();
    state.pitch_location = Some(PitchLocation::Middle);
    state.pitch_state = PitchState::BallApproaching {
        frames_left: 5,
        ball_position: 85,
        can_swing: true,
        pitch_type: 0,
    };
    handle_input(&mut state, &engine, &mut pads, GameInput::DirectPosition(5));
    assert_eq!(state.swing_location, Some(PitchLocation::Middle));
    assert_eq!(state.swing_timing, SwingTiming::Perfect);
    assert_eq!(
        state.pitch_state,
        PitchState::Swinging { frames_left: 10, swing_timing: SwingTiming::Perfect }
    );
    assert_eq!(state.message, "Swing! (Perfect!)");
    for left in (1..10).rev() {
        let sounds = tick(&mut state, &engine, &mut pads);
        assert!(sounds.is_empty());
        assert_eq!(
            state.pitch_state,
            PitchState::Swinging { frames_left: left, swing_timing: SwingTiming::Perfect }
        );
    }
    let mut pitches = 41u32;
    let mut hits = 0u8;
    let events = update_game_state(&mut state, &engine, &mut pads, &mut pitches, &mut hits);
    assert_eq!(pitches, 42);
    let report = events.pitch.expect("a resolved swing is reported");
    assert_eq!(report.pitch_number, 42);
    assert_eq!(report.inning, 1);
    assert_eq!(report.pitch_location, PitchLocation::Middle);
    assert_eq!(report.swing_location, Some(PitchLocation::Middle));
    assert_eq!(report.fatigue_penalty, 100);
    assert!(report.batter.is_none());
    let quality = report.contact_quality.expect("contact was made");
    assert!((1..=100).contains(&quality));
    match report.result {
        PlayResult::Hit(_) => {
            assert_eq!(hits, 1);
            assert_eq!(events.sounds, vec![SoundCue::BatContact]);
            match state.pitch_state {
                PitchState::Fielding { ball_in_play, frames_elapsed } => {
                    assert_eq!(frames_elapsed, 0);
                    assert_eq!(ball_in_play.initial_contact_quality, quality);
                    assert_eq!(state.fielding_cursor, Some(ball_in_play.direction));
                    assert_eq!(
                        state.message,
                        format!(
                            "{:?} to {:?}! Press SPACE to field!",
                            ball_in_play.ball_type, ball_in_play.direction
                        )
                    );
                }
                other => panic!("a hit goes to the fielders, not to {:?}", other),
            }
            assert_eq!(state.bases, [false, false, false]);
        }
        PlayResult::Out(_) => {
            assert_eq!(hits, 0);
            assert_eq!(events.sounds, vec![SoundCue::BatContact]);
            assert_eq!(state.outs, 1);
            assert_eq!(
                state.pitch_state,
                PitchState::ShowResult { result: report.result, frames_left: 90 }
            );
        }
        PlayResult::Foul => {
            assert_eq!(events.sounds, vec![SoundCue::BatContact]);
            assert_eq!(state.strikes, 1);
        }
        other => panic!("a perfect swing on the ball does not give {:?}", other),
    }
}

#[test]
fn unfielded_ball_gets_through_in_time() {
    let engine = GameEngine::new();
    let mut pads = InputState::new();
    let mut state = playing();
    let ball = BallInPlay {
        ball_type: BallType::Grounder,
        direction: FieldDirection::Shortstop,
        speed: 700,
        hang_time: 0,
        initial_contact_quality: 50,
    };
    state.fielding_cursor = Some(ball.direction);
    state.pitch_state = PitchState::Fielding { ball_in_play: ball, frames_elapsed: 0 };
    for elapsed in 1..45u8 {
        let sounds = tick(&mut state, &engine, &mut pads);
        assert!(sounds.is_empty());
        assert_eq!(
            state.pitch_state,
            PitchState::Fielding { ball_in_play: ball, frames_elapsed: elapsed }
        );
    }
    let sounds = tick(&mut state, &engine, &mut pads);
    assert_eq!(sounds, vec![SoundCue::CheerSingle, SoundCue::CheerSingle]);
    assert_eq!(
        state.pitch_state,
        PitchState::ShowResult { result: PlayResult::Hit(HitType::Single), frames_left: 90 }
    );
    assert_eq!(state.fielding_cursor, None);
    assert_eq!(state.bases, [true, false, false]);
    assert_eq!(state.message, "Single!");

    // a ball that hangs longer than 45 frames is waited for
    let mut long = playing();
    let fly = BallInPlay { ball_type: BallType::FlyBall, hang_time: 80, ..ball };
    long.pitch_state = PitchState::Fielding { ball_in_play: fly, frames_elapsed: 78 };
    tick(&mut long, &engine, &mut pads);
    assert_eq!(long.pitch_state, PitchState::Fielding { ball_in_play: fly, frames_elapsed: 79 });
    tick(&mut long, &engine, &mut pads);
    assert!(matches!(long.pitch_state, PitchState::ShowResult { .. }));
}

#[test]
fn fielding_attempt_is_resolved_and_reported() {
    let engine = GameEngine::new();
    let mut pads = InputState::new();
    let ball = BallInPlay {
        ball_type: BallType::FlyBall,
        direction: FieldDirection::LeftField,
        speed: 900,
        hang_time: 60,
        initial_contact_quality: 70,
    };
    for _ in 0..50 {
        let mut state = playing();
        state.fielding_cursor = Some(ball.direction);
        state.pitch_state = PitchState::Fielding { ball_in_play: ball, frames_elapsed: 30 };
        // anything but the action key is ignored
        handle_input(&mut state, &engine, &mut pads, GameInput::Up);
        assert_eq!(state.pitch_state, PitchState::Fielding { ball_in_play: ball, frames_elapsed: 30 });
        let events = handle_input(&mut state, &engine, &mut pads, GameInput::Action);
        let report = events.fielding.expect("an attempt is reported");
        assert_eq!(report.ball, ball);
        assert_eq!(report.catch_timing, 30);
        assert_eq!(report.perfect_timing, 30);
        assert_eq!(report.success_chance, 81000);
        assert_eq!(state.fielding_cursor, None);
        assert_eq!(
            state.pitch_state,
            PitchState::ShowResult { result: report.result, frames_left: 90 }
        );
        match report.result {
            PlayResult::Out(OutType::Flyout) => {
                assert_eq!(events.sounds, vec![SoundCue::Catch]);
                assert_eq!(state.outs, 1);
            }
            PlayResult::Hit(hit) => {
                let cheer = match hit {
                    HitType::Single => SoundCue::CheerSingle,
                    HitType::Double => SoundCue::CheerDouble,
                    _ => SoundCue::CheerTripleAndHomer,
                };
                assert_eq!(events.sounds, vec![SoundCue::CheerDouble, cheer]);
                assert_eq!(state.outs, 0);
            }
            other => panic!("not a fielding result: {:?}", other),
        }
    }
}

#[test]
fn result_is_shown_then_the_next_pitch_begins() {
    let engine = GameEngine::new();
    let mut pads = InputState::new();
    pads.update(&GameInput::Left);
    let mut state = playing();
    state.pitch_location = Some(PitchLocation::Up);
    state.swing_location = Some(PitchLocation::Up);
    state.swing_timing = SwingTiming::Late;
    state.pitch_state = PitchState::ShowResult { result: PlayResult::Foul, frames_left: 2 };
    tick(&mut state, &engine, &mut pads);
    assert_eq!(
        state.pitch_state,
        PitchState::ShowResult { result: PlayResult::Foul, frames_left: 1 }
    );
    assert!(pads.left);
    tick(&mut state, &engine, &mut pads);
    assert_eq!(state.pitch_state, PitchState::ChoosePitch);
    assert_eq!(state.pitch_location, None);
    assert_eq!(state.swing_location, None);
    assert_eq!(state.swing_timing, SwingTiming::NoSwing);
    assert_eq!(state.message, "Choose your pitch!");
    assert_eq!(pads, InputState::new());
    // nothing happens while the pitcher chooses
    let before = state.message.clone();
    tick(&mut state, &engine, &mut pads);
    assert_eq!(state.pitch_state, PitchState::ChoosePitch);
    assert_eq!(state.message, before);

    // the action key moves on at once
    state.pitch_state = PitchState::ShowResult { result: PlayResult::Foul, frames_left: 80 };
    state.pitch_location = Some(PitchLocation::Up);
    handle_input(&mut state, &engine, &mut pads, GameInput::Action);
    assert_eq!(state.pitch_state, PitchState::ChoosePitch);
    assert_eq!(state.pitch_location, None);
}

#[test]
fn estimated_quality_by_result() {
    assert_eq!(estimate_contact_quality(&PlayResult::Hit(HitType::HomeRun)), 95);
    assert_eq!(estimate_contact_quality(&PlayResult::Hit(HitType::Triple)), 95);
    assert_eq!(estimate_contact_quality(&PlayResult::Hit(HitType::Double)), 75);
    assert_eq!(estimate_contact_quality(&PlayResult::Hit(HitType::Single)), 55);
    assert_eq!(estimate_contact_quality(&PlayResult::Out(OutType::Flyout)), 65);
    assert_eq!(estimate_contact_quality(&PlayResult::Out(OutType::LineOut)), 65);
    assert_eq!(estimate_contact_quality(&PlayResult::Out(OutType::Groundout)), 35);
    assert_eq!(estimate_contact_quality(&PlayResult::Out(OutType::Strikeout)), 20);
    assert_eq!(estimate_contact_quality(&PlayResult::Foul), 20);
}

fn selection(state: &GameState) -> (Option<String>, Option<String>, String, TeamInputMode) {
    match &state.mode {
        GameMode::TeamSelection { selected_home, selected_away, input_buffer, input_mode } => {
            (selected_home.clone(), selected_away.clone(), input_buffer.clone(), *input_mode)
        }
        GameMode::Playing => panic!("not selecting teams"),
    }
}

#[test]
fn team_numbers_are_typed_and_entered() {
    let mut state = GameState::new();
    // digits are ignored until a side is being chosen
    assert!(handle_team_selection_input(&mut state, GameInput::NumberInput('5')).is_none());
    assert_eq!(selection(&state), (None, None, String::new(), TeamInputMode::Idle));

    handle_team_selection_input(&mut state, GameInput::SelectAwayTeam);
    assert_eq!(state.message, "Enter away team number (1-30), then press ENTER:");
    assert_eq!(selection(&state).3, TeamInputMode::SelectingAway);
    handle_team_selection_input(&mut state, GameInput::NumberInput('1'));
    assert_eq!(state.message, "Entered: 1");
    handle_team_selection_input(&mut state, GameInput::NumberInput('9'));
    assert_eq!(state.message, "Entered: 19");
    // two digits at most
    handle_team_selection_input(&mut state, GameInput::NumberInput('3'));
    assert_eq!(selection(&state).2, "19");

    // the nineteenth club is not loaded yet: its roster is asked for
    let request = handle_team_selection_input(&mut state, GameInput::Action).expect("a load request");
    assert_eq!(request.abbreviation, "NYY");
    assert!(!request.for_home);
    assert_eq!(state.message, "Loading team NYY...");
    assert_eq!(selection(&state), (None, None, String::new(), TeamInputMode::Idle));

    let batters = vec![row("Judge", 400, 250), row("Bench", 10, 300), row("Soto", 380, 180)];
    let pitchers = vec![row("Cole", 300, 60)];
    assert!(complete_team_load(&mut state, &request, &batters, &pitchers).is_ok());
    assert_eq!(state.message, "Away team: NYY selected");
    assert_eq!(selection(&state).1, Some("NYY".to_string()));
    assert_eq!(state.team_manager.teams.len(), 1);

    // a loaded club is selected on the spot
    handle_team_selection_input(&mut state, GameInput::SelectHomeTeam);
    assert_eq!(state.message, "Enter home team number (1-30), then press ENTER:");
    handle_team_selection_input(&mut state, GameInput::NumberInput('1'));
    handle_team_selection_input(&mut state, GameInput::NumberInput('9'));
    assert!(handle_team_selection_input(&mut state, GameInput::Action).is_none());
    assert_eq!(state.message, "Home team: NYY selected");
    assert_eq!(selection(&state).0, Some("NYY".to_string()));

    // with both sides chosen and nothing typed, Enter starts the game
    assert!(handle_team_selection_input(&mut state, GameInput::Action).is_none());
    assert!(matches!(state.mode, GameMode::Playing));
    assert_eq!(state.home_team, Some("NYY".to_string()));
    assert_eq!(state.away_team, Some("NYY".to_string()));
    assert_eq!(state.message, "Choose your pitch!");
    let batter = state.get_current_batter().expect("the first batter");
    assert_eq!(batter.stats.name, "Judge");
    assert_eq!(state.get_current_pitcher().expect("the pitcher").stats.name, "Cole");
    state.advance_batter();
    assert_eq!(state.current_batter_idx, 1);
    state.advance_batter();
    // two batters make an order of two
    assert_eq!(state.current_batter_idx, 0);
}

#[test]
fn bad_team_numbers_are_answered() {
    let mut state = GameState::new();
    handle_team_selection_input(&mut state, GameInput::SelectHomeTeam);
    handle_team_selection_input(&mut state, GameInput::NumberInput('3'));
    handle_team_selection_input(&mut state, GameInput::NumberInput('3'));
    assert!(handle_team_selection_input(&mut state, GameInput::Action).is_none());
    assert_eq!(state.message, "Invalid team number: 33. Please choose 1-32");
    assert_eq!(selection(&state), (None, None, String::new(), TeamInputMode::Idle));

    handle_team_selection_input(&mut state, GameInput::SelectHomeTeam);
    handle_team_selection_input(&mut state, GameInput::NumberInput('x'));
    assert!(handle_team_selection_input(&mut state, GameInput::Action).is_none());
    assert_eq!(state.message, "Invalid input. Please enter a number.");

    // zero counts as one
    handle_team_selection_input(&mut state, GameInput::SelectHomeTeam);
    handle_team_selection_input(&mut state, GameInput::NumberInput('0'));
    let request = handle_team_selection_input(&mut state, GameInput::Action).expect("a request");
    assert_eq!(request.abbreviation, "ARI");
    assert!(request.for_home);

    // a roster without players is refused
    let loaded = complete_team_load(&mut state, &request, &vec![row("Bench", 10, 300)], &vec![]);
    assert_eq!(loaded, Err("No player data found for team ARI".to_string()));
    assert_eq!(state.message, "Error loading team ARI: No player data found for team ARI");
    assert_eq!(selection(&state).0, None);
    assert!(state.team_manager.teams.is_empty());

    fail_team_load(&mut state, &request, "Failed to load batters for ARI: no such file");
    assert_eq!(
        state.message,
        "Error loading team ARI: Failed to load batters for ARI: no such file"
    );

    // Enter with nothing typed and no teams chosen does nothing
    let before = state.message.clone();
    assert!(handle_team_selection_input(&mut state, GameInput::Action).is_none());
    assert_eq!(state.message, before);
    // through the main handler, too
    let engine = GameEngine::new();
    let mut pads = InputState::new();
    let events = handle_input(&mut state, &engine, &mut pads, GameInput::SelectAwayTeam);
    assert!(events.load.is_none() && events.sounds.is_empty() && events.fielding.is_none());
    assert_eq!(selection(&state).3, TeamInputMode::SelectingAway);
}

#[test]
fn pitching_charges_stamina() {
    let engine = GameEngine::new();
    let mut pads = InputState::new();
    let mut state = GameState::new();
    state
        .team_manager
        .load_team("BOS", &vec![row("Devers", 300, 150)], &vec![row("Sale", 300, 50)])
        .unwrap();
    state
        .team_manager
        .load_team("NYY", &vec![row("Judge", 300, 250)], &vec![row("Cole", 300, 60)])
        .unwrap();
    state.start_game("NYY".to_string(), "BOS".to_string());
    state.pitch_location = Some(PitchLocation::Middle);
    state.swing_location = Some(PitchLocation::Down);
    state.pitch_state = PitchState::Swinging { frames_left: 1, swing_timing: SwingTiming::Early };
    let mut pitches = 0u32;
    let mut hits = 0u8;
    let events = update_game_state(&mut state, &engine, &mut pads, &mut pitches, &mut hits);
    let report = events.pitch.expect("a report");
    assert_eq!(report.batter.expect("batter").stats.name, "Devers");
    assert_eq!(report.pitcher.expect("pitcher").stats.name, "Cole");
    assert_eq!(report.fatigue_penalty, 100);
    let home = state.team_manager.get_team("NYY").unwrap();
    assert_eq!(home.pitcher_stamina, 985);
    assert_eq!(home.pitches_thrown, 1);
    let away = state.team_manager.get_team("BOS").unwrap();
    assert_eq!(away.pitcher_stamina, 1000);
    assert_eq!(away.pitches_thrown, 0);

    // a take costs less
    state.pitch_location = Some(PitchLocation::Middle);
    state.swing_location = None;
    state.pitch_state = PitchState::Swinging { frames_left: 1, swing_timing: SwingTiming::Early };
    let events = update_game_state(&mut state, &engine, &mut pads, &mut pitches, &mut hits);
    assert_eq!(events.pitch.unwrap().result, PlayResult::Strike);
    assert_eq!(events.sounds, vec![SoundCue::Miss]);
    assert_eq!(state.team_manager.get_team("NYY").unwrap().pitcher_stamina, 977);
    assert_eq!(pitches, 2);

    let team = state.get_current_pitching_team_mut().expect("the home side pitches");
    team.decrease_stamina(2000);
    assert_eq!(state.team_manager.get_team("NYY").unwrap().pitcher_stamina, 0);
    assert_eq!(state.team_manager.get_team("NYY").unwrap().get_fatigue_penalty(), 50);
}

#[test]
fn quitting_takes_two_presses() {
    let mut state = playing();
    assert!(!handle_quit(&mut state, GameInput::Quit));
    assert!(state.quit_requested);
    assert_eq!(state.message, "Press Q again to quit.");
    // anything else withdraws the request
    assert!(!handle_quit(&mut state, GameInput::Up));
    assert!(!state.quit_requested);
    assert!(!handle_quit(&mut state, GameInput::Quit));
    assert!(handle_quit(&mut state, GameInput::Quit));
    assert!(state.quit_requested);
}
