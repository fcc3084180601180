use wild_pitch::audio::SoundCue;
use wild_pitch::game::state::{
    GameState, HitType, InningHalf, OutType, PitchLocation, PitchState, PlayResult,
};
use wild_pitch::game::update::process_play_result;

fn playing() -> GameState {
    let mut state = GameState::new();
    state.start_game("NYY".to_string(), "BOS".to_string());
    state
}

#[test]
fn single_with_empty_bases() {
    let mut state = playing();
    let cheer = process_play_result(&mut state, &PlayResult::Hit(HitType::Single));
    assert_eq!(state.bases, [true, false, false]);
    assert_eq!(state.away_score, 0);
    assert_eq!(state.home_score, 0);
    assert_eq!(state.message, "Single!");
    assert_eq!(cheer, Some(SoundCue::CheerSingle));
    assert_eq!(state.current_batter_idx, 1);
}

#[test]
fn home_run_with_loaded_bases() {
    let mut state = playing();
    state.bases = [true, true, true];
    state.away_score = 2;
    let cheer = process_play_result(&mut state, &PlayResult::Hit(HitType::HomeRun));
    assert_eq!(state.bases, [false, false, false]);
    assert_eq!(state.away_score, 6);
    assert_eq!(state.home_score, 0);
    assert_eq!(state.message, "HOME RUN!");
    assert_eq!(cheer, Some(SoundCue::CheerTripleAndHomer));
}

#[test]
fn fourth_ball_is_a_walk() {
    let mut state = playing();
    state.balls = 3;
    state.strikes = 2;
    state.pitch_location = Some(PitchLocation::UpInside);
    state.pitch_state = PitchState::ShowResult { result: PlayResult::Ball, frames_left: 3 };
    let cheer = process_play_result(&mut state, &PlayResult::Ball);
    assert_eq!(cheer, None);
    assert_eq!(state.balls, 0);
    assert_eq!(state.strikes, 0);
    assert_eq!(state.bases, [true, false, false]);
    assert_eq!(state.current_batter_idx, 1);
    assert_eq!(state.message, "Ball 4! Walk!");
    assert_eq!(state.pitch_state, PitchState::ChoosePitch);
    assert_eq!(state.pitch_location, None);
    assert_eq!(state.outs, 0);
}

#[test]
fn balls_count_up_by_one_and_never_reach_four() {
    let mut state = playing();
    for expected in 1..=3u8 {
        process_play_result(&mut state, &PlayResult::Ball);
        assert_eq!(state.balls, expected);
        assert_eq!(state.current_batter_idx, 0);
        assert_eq!(state.message, format!("Ball {}!", expected));
    }
    process_play_result(&mut state, &PlayResult::Ball);
    assert_eq!(state.balls, 0);
    assert_eq!(state.current_batter_idx, 1);
    for _ in 0..40 {
        process_play_result(&mut state, &PlayResult::Ball);
        assert!(state.balls <= 3);
    }
}

#[test]
fn foul_with_two_strikes_changes_nothing() {
    let mut state = playing();
    state.strikes = 2;
    state.balls = 1;
    process_play_result(&mut state, &PlayResult::Foul);
    assert_eq!(state.strikes, 2);
    assert_eq!(state.balls, 1);
    assert_eq!(state.outs, 0);
    assert_eq!(state.current_batter_idx, 0);
    assert_eq!(state.message, "Foul ball!");
}

#[test]
fn fouls_count_as_strikes_up_to_two() {
    let mut state = playing();
    process_play_result(&mut state, &PlayResult::Foul);
    assert_eq!(state.strikes, 1);
    process_play_result(&mut state, &PlayResult::Foul);
    assert_eq!(state.strikes, 2);
    process_play_result(&mut state, &PlayResult::Foul);
    assert_eq!(state.strikes, 2);
}

#[test]
fn third_strike_is_a_strikeout() {
    let mut state = playing();
    process_play_result(&mut state, &PlayResult::Strike);
    assert_eq!(state.strikes, 1);
    assert_eq!(state.message, "Strike 1!");
    process_play_result(&mut state, &PlayResult::Strike);
    assert_eq!(state.strikes, 2);
    assert_eq!(state.outs, 0);
    process_play_result(&mut state, &PlayResult::Strike);
    assert_eq!(state.strikes, 0);
    assert_eq!(state.balls, 0);
    assert_eq!(state.outs, 1);
    assert_eq!(state.current_batter_idx, 1);
    assert_eq!(state.message, "Strike 3! You're out!");
}

#[test]
fn outs_are_called_by_kind() {
    let calls = [
        (OutType::Strikeout, "Strikeout!"),
        (OutType::Groundout, "Groundout!"),
        (OutType::Flyout, "Fly out!"),
        (OutType::LineOut, "Line out!"),
    ];
    for (kind, call) in calls {
        let mut state = playing();
        state.balls = 2;
        state.strikes = 1;
        process_play_result(&mut state, &PlayResult::Out(kind));
        assert_eq!(state.message, call);
        assert_eq!(state.outs, 1);
        assert_eq!(state.balls, 0);
        assert_eq!(state.strikes, 0);
    }
}

#[test]
fn third_out_clears_outs_and_bases_at_once() {
    let mut state = playing();
    state.outs = 2;
    state.bases = [true, false, true];
    state.current_batter_idx = 8;
    process_play_result(&mut state, &PlayResult::Out(OutType::Flyout));
    assert_eq!(state.outs, 0);
    assert_eq!(state.bases, [false, false, false]);
    assert_eq!(state.half, InningHalf::Bottom);
    assert_eq!(state.inning, 1);
    assert_eq!(state.current_batter_idx, 0);
    process_play_result(&mut state, &PlayResult::Out(OutType::Flyout));
    process_play_result(&mut state, &PlayResult::Out(OutType::Flyout));
    process_play_result(&mut state, &PlayResult::Out(OutType::Flyout));
    assert_eq!(state.half, InningHalf::Top);
    assert_eq!(state.inning, 2);
    assert!(!state.game_over);
}

#[test]
fn game_ends_after_the_bottom_of_the_ninth_unless_tied() {
    let mut state = playing();
    state.inning = 9;
    state.half = InningHalf::Bottom;
    state.outs = 2;
    state.home_score = 12;
    state.away_score = 7;
    process_play_result(&mut state, &PlayResult::Out(OutType::Groundout));
    assert!(state.game_over);
    assert_eq!(state.inning, 9);
    assert_eq!(state.message, "Game Over! Final Score - Home: 12 Away: 7");

    let mut tied = playing();
    tied.inning = 11;
    tied.half = InningHalf::Bottom;
    tied.outs = 2;
    tied.home_score = 4;
    tied.away_score = 4;
    process_play_result(&mut tied, &PlayResult::Strike);
    process_play_result(&mut tied, &PlayResult::Strike);
    process_play_result(&mut tied, &PlayResult::Strike);
    assert!(!tied.game_over);
    assert_eq!(tied.inning, 12);
    assert_eq!(tied.half, InningHalf::Top);

    // the top of the ninth never ends the game
    let mut top = playing();
    top.inning = 9;
    top.outs = 2;
    top.away_score = 3;
    process_play_result(&mut top, &PlayResult::Out(OutType::LineOut));
    assert!(!top.game_over);
    assert_eq!(top.half, InningHalf::Bottom);
    // nor does the bottom of the eighth
    let mut eighth = playing();
    eighth.inning = 8;
    eighth.half = InningHalf::Bottom;
    eighth.outs = 2;
    eighth.away_score = 3;
    eighth.add_out();
    assert!(!eighth.game_over);
    assert_eq!(eighth.inning, 9);
}

fn count(bases: [bool; 3]) -> u8 {
    bases.iter().filter(|b| **b).count() as u8
}

#[test]
fn runners_are_conserved_on_every_advance() {
    for half in [InningHalf::Top, InningHalf::Bottom] {
        for mask in 0..8u8 {
            let before = [mask & 1 != 0, mask & 2 != 0, mask & 4 != 0];
            for bases in 0..=6u8 {
                let mut state = playing();
                state.half = half;
                state.bases = before;
                state.advance_runners(bases);
                let runs = state.away_score + state.home_score;
                match half {
                    InningHalf::Top => assert_eq!(state.home_score, 0),
                    InningHalf::Bottom => assert_eq!(state.away_score, 0),
                }
                assert!(runs + count(state.bases) <= count(before) + 1);
                if (1..=4).contains(&bases) {
                    assert_eq!(runs + count(state.bases), count(before) + 1);
                }
            }
        }
    }
}

#[test]
fn advance_table() {
    let case = |before: [bool; 3], bases: u8| {
        let mut state = playing();
        state.bases = before;
        state.advance_runners(bases);
        (state.bases, state.away_score)
    };
    // walks force only the runners behind whom the bases are full
    assert_eq!(case([false, true, false], 0), ([true, true, false], 0));
    assert_eq!(case([false, false, true], 0), ([true, false, true], 0));
    assert_eq!(case([true, false, true], 0), ([true, true, true], 0));
    assert_eq!(case([true, true, false], 0), ([true, true, true], 0));
    assert_eq!(case([true, true, true], 0), ([true, true, true], 1));
    // singles move everyone up one base
    assert_eq!(case([true, true, true], 1), ([true, true, true], 1));
    assert_eq!(case([false, true, false], 1), ([true, false, true], 0));
    // doubles score the runners on second and third
    assert_eq!(case([true, true, true], 2), ([false, true, true], 2));
    assert_eq!(case([true, false, false], 2), ([false, true, true], 0));
    // triples clear the bases
    assert_eq!(case([true, true, true], 3), ([false, false, true], 3));
    assert_eq!(case([false, false, false], 3), ([false, false, true], 0));
    // a home run with nobody on scores the batter
    assert_eq!(case([false, false, false], 4), ([false, false, false], 1));
}

#[test]
fn batting_order_wraps_after_nine() {
    let mut state = playing();
    for expected in [1, 2, 3, 4, 5, 6, 7, 8, 0, 1] {
        state.advance_batter();
        assert_eq!(state.current_batter_idx, expected);
    }
    state.current_batter_idx = usize::MAX;
    state.advance_batter();
    assert_eq!(state.current_batter_idx, ((usize::MAX % 9) + 1) % 9);
    assert_eq!(state.batting_team(), "Away");
    state.half = InningHalf::Bottom;
    assert_eq!(state.batting_team(), "Home");
}

#[test]
fn walk_and_strikeout_messages() {
    let mut state = playing();
    state.add_walk();
    assert_eq!(state.message, "Ball 4! Walk!");
    assert_eq!(state.bases, [true, false, false]);
    state.add_strikeout();
    assert_eq!(state.message, "Strike 3! You're out!");
    assert_eq!(state.outs, 1);
    state.end_half_inning();
    assert_eq!(state.outs, 0);
    assert_eq!(state.bases, [false, false, false]);
    assert_eq!(state.half, InningHalf::Bottom);
}

#[test]
fn new_game_waits_for_teams() {
    let state = GameState::new();
    assert_eq!(state.message, "Select teams to start playing!");
    assert!(state.is_ready());
    assert!(state.get_current_batter().is_none());
    assert!(state.get_current_pitcher().is_none());
    assert!(state.get_current_batting_team().is_none());
    assert!(state.get_current_pitching_team().is_none());
    let mut full = GameState::new();
    full.outs = 3;
    assert!(!full.is_ready());
}

#[test]
fn room_on_the_board() {
    // the side at bat needs room for the batter and every runner
    let mut state = playing();
    state.home_score = 255;
    state.away_score = 254;
    assert!(state.is_ready());
    state.bases = [false, true, false];
    assert!(!state.is_ready());
    state.away_score = 253;
    assert!(state.is_ready());
    state.bases = [true, true, true];
    assert!(!state.is_ready());
    state.away_score = 251;
    assert!(state.is_ready());
    process_play_result(&mut state, &PlayResult::Hit(HitType::HomeRun));
    assert_eq!(state.away_score, 255);
    assert!(!state.is_ready());
    // a play that brings nobody home still fits
    process_play_result(&mut state, &PlayResult::Strike);
    process_play_result(&mut state, &PlayResult::Foul);
    process_play_result(&mut state, &PlayResult::Out(OutType::Flyout));
    assert_eq!((state.away_score, state.outs, state.strikes), (255, 1, 0));

    // the inning must be countable only where the next out begins a new one
    let mut late = playing();
    late.inning = 255;
    assert!(late.is_ready());
    late.outs = 2;
    assert!(late.is_ready());
    late.half = InningHalf::Bottom;
    assert!(!late.is_ready());
    late.home_score = 1;
    assert!(late.is_ready());
    late.home_score = 0;
    late.outs = 1;
    assert!(late.is_ready());
    late.balls = 4;
    assert!(!late.is_ready());
}

#[test]
fn outs_in_the_last_inning_the_board_can_show() {
    // the top half ends without a new inning
    let mut state = playing();
    state.inning = 255;
    state.outs = 2;
    state.add_out();
    assert_eq!((state.inning, state.half, state.outs), (255, InningHalf::Bottom, 0));
    // an out that does not retire the side
    state.add_strikeout();
    assert_eq!((state.inning, state.half, state.outs), (255, InningHalf::Bottom, 1));
    // the bottom half ends a decided game
    state.home_score = 3;
    state.away_score = 2;
    state.end_half_inning();
    assert!(state.game_over);
    assert_eq!((state.inning, state.half, state.outs), (255, InningHalf::Bottom, 0));
    assert_eq!(state.message, "Game Over! Final Score - Home: 3 Away: 2");
}
