//! What the game does with an input, by the stage it is in.

use crate::audio::{cue_for_fielding, fielding_cue, hit_cue, SoundCue};
use crate::game::constants::{
    EARLY_LATE_WINDOW_FRAMES, PERFECT_TIMING_WINDOW_FRAMES, PITCH_CLOCK_FRAMES,
    RESULT_DISPLAY_FRAMES, SWINGING_ANIMATION_FRAMES,
};
use crate::game::engine::{fielding_outcome, FieldingRolls, GameEngine};
use crate::game::state::{
    BallInPlay, GameMode, GameState, PitchLocation, PitchState, PlayResult, SwingTiming,
    TeamInputMode,
};
use crate::league::club_abbreviation;
use crate::team::{PlayerStats, TeamManager};
use crate::text::{decimal, decimal_string, numeral_value, parse_number, push_char};
use crate::game::update::{only_stage_moved, process_play_result, result_shown};
use crate::input::{GameInput, InputState};
use vstd::prelude::*;
use vstd::string::*;

verus! {

/// A fielding attempt, for the game's log.
#[derive(Debug, Clone, Copy, PartialEq, Eq, Structural)]
pub struct FieldingReport {
    pub ball: BallInPlay,
    /// The frame of the play on which the fielder went for the ball.
    pub catch_timing: u8,
    /// The frame on which the attempt would have been timed perfectly.
    pub perfect_timing: u8,
    /// The chance the attempt had, in parts of 90000.
    pub success_chance: u32,
    pub result: PlayResult,
}

/// How a swing is timed that starts with `frames_left` frames to go: late in
/// the last three frames, perfect from there to nine, early up to twenty-one,
/// too early before that and whenever the swing window is still closed.
pub open spec fn swing_timing_at(frames_left: u8, can_swing: bool) -> SwingTiming {
    if !can_swing {
        SwingTiming::TooEarly
    } else if frames_left <= 3 {
        SwingTiming::Late
    } else if frames_left <= 9 {
        SwingTiming::Perfect
    } else if frames_left <= 21 {
        SwingTiming::Early
    } else {
        SwingTiming::TooEarly
    }
}

/// The timing of a swing started now; there is no swing to time unless the
/// ball is on its way.
pub open spec fn swing_timing_now(stage: PitchState) -> SwingTiming {
    match stage {
        PitchState::BallApproaching { frames_left, can_swing, .. } => swing_timing_at(
            frames_left,
            can_swing,
        ),
        _ => SwingTiming::NoSwing,
    }
}

/// How a swing started now would be timed.
pub fn calculate_swing_timing(state: &GameState) -> (timing: SwingTiming)
    ensures
        timing == swing_timing_now(state.pitch_state),
{
    match state.pitch_state {
        PitchState::BallApproaching { frames_left, ball_position: _, can_swing, pitch_type: _ } => {
            if !can_swing {
                return SwingTiming::TooEarly;
            }
            let perfect_start = PERFECT_TIMING_WINDOW_FRAMES / 2;
            let perfect_end = perfect_start + PERFECT_TIMING_WINDOW_FRAMES;
            let early_end = perfect_end + EARLY_LATE_WINDOW_FRAMES;
            let late_end = perfect_start;
            if frames_left <= late_end {
                SwingTiming::Late
            } else if frames_left <= perfect_end {
                SwingTiming::Perfect
            } else if frames_left <= early_end {
                SwingTiming::Early
            } else {
                SwingTiming::TooEarly
            }
        },
        _ => SwingTiming::NoSwing,
    }
}

/// The word for a swing's timing.
pub open spec fn timing_label(timing: SwingTiming) -> Seq<char> {
    match timing {
        SwingTiming::TooEarly => "Too Early!"@,
        SwingTiming::Early => "Early"@,
        SwingTiming::Perfect => "Perfect!"@,
        SwingTiming::Late => "Late"@,
        SwingTiming::TooLate => "Too Late!"@,
        SwingTiming::NoSwing => "No Swing"@,
    }
}

pub fn format_timing(timing: &SwingTiming) -> (label: &'static str)
    ensures
        label@ == timing_label(*timing),
{
    match timing {
        SwingTiming::TooEarly => "Too Early!",
        SwingTiming::Early => "Early",
        SwingTiming::Perfect => "Perfect!",
        SwingTiming::Late => "Late",
        SwingTiming::TooLate => "Too Late!",
        SwingTiming::NoSwing => "No Swing",
    }
}

/// The pitcher has picked a pitch and goes on to aim it.
pub open spec fn pitch_chosen(pre: GameState, post: GameState, name: Seq<char>, idx: usize) -> bool {
    &&& only_stage_moved(pre, post)
    &&& post.pitch_state == (PitchState::Aiming { pitch_type: idx })
    &&& post.message@ == "Aiming "@ + name
        + ". Use arrows or SHIFT+(1-9) to aim, SPACE to pitch."@
}

/// The aim of the pitch is locked and the pitch clock starts.
pub open spec fn aim_locked(
    pre: GameState,
    post: GameState,
    location: PitchLocation,
    pitch_type: usize,
) -> bool {
    &&& post.board() == pre.board()
    &&& post.same_setting(&pre)
    &&& post.pitch_location == Some(location)
    &&& post.swing_location == pre.swing_location
    &&& post.pitch_state == (PitchState::PitchClock { frames_left: 90, pitch_type })
    &&& post.message@ == "Get ready! Pitch clock started..."@
}

/// The batter swings at `location`; the swing is timed by where the ball is.
pub open spec fn swing_started(pre: GameState, post: GameState, location: PitchLocation) -> bool {
    let timing = swing_timing_now(pre.pitch_state);
    &&& post.board() == pre.board()
    &&& post.mode == pre.mode
    &&& post.team_manager == pre.team_manager
    &&& post.home_team == pre.home_team
    &&& post.away_team == pre.away_team
    &&& post.quit_requested == pre.quit_requested
    &&& post.fielding_cursor == pre.fielding_cursor
    &&& post.pitch_location == pre.pitch_location
    &&& post.swing_location == Some(location)
    &&& post.swing_timing == timing
    &&& post.pitch_state == (PitchState::Swinging { frames_left: 10, swing_timing: timing })
    &&& post.message@ == "Swing! ("@ + timing_label(timing) + ")"@
}

/// The fielder goes for the ball `frames_elapsed` frames into the play, for
/// the dice `rolls`. The perfect frame is half the hang time. The result is
/// entered in the ledger and shown.
pub open spec fn fielding_attempted(
    pre: GameState,
    post: GameState,
    sounds: Seq<SoundCue>,
    report: FieldingReport,
    ball: BallInPlay,
    frames_elapsed: u8,
    rolls: FieldingRolls,
) -> bool {
    let perfect = ball.hang_time / 2;
    let out = fielding_outcome(ball, frames_elapsed, perfect, rolls);
    &&& rolls.valid()
    &&& report == (FieldingReport {
        ball,
        catch_timing: frames_elapsed,
        perfect_timing: perfect,
        success_chance: out.1,
        result: out.0,
    })
    &&& post.fielding_cursor is None
    &&& result_shown(GameState { fielding_cursor: None, ..pre }, post, out.0)
    &&& sounds == match fielding_cue(out.0, ball.initial_contact_quality) {
        Some(cue) => seq![cue],
        None => Seq::<SoundCue>::empty(),
    } + match out.0 {
        PlayResult::Hit(hit) => seq![hit_cue(hit)],
        _ => Seq::<SoundCue>::empty(),
    }
}

/// The player has seen the result; the next pitch begins.
pub open spec fn result_dismissed(pre: GameState, post: GameState) -> bool {
    &&& post.board() == pre.board()
    &&& post.same_setting(&pre)
    &&& post.pitch_state == PitchState::ChoosePitch
    &&& post.pitch_location is None
    &&& post.swing_location is None
    &&& post.message@ == "Choose your pitch!"@
}

/// Starts the swing at a location.
pub fn start_swing(state: &mut GameState, location: PitchLocation)
    ensures
        swing_started(*old(state), *final(state), location),
{
    let timing = calculate_swing_timing(state);
    state.swing_location = Some(location);
    state.swing_timing = timing;
    state.pitch_state = PitchState::Swinging {
        frames_left: SWINGING_ANIMATION_FRAMES,
        swing_timing: timing,
    };
    let mut text = String::from_str("Swing! (");
    text.append(format_timing(&timing));
    text.append(")");
    state.message = text;
}

/// Locks the aim of the pitch and starts the pitch clock.
pub fn lock_aim(state: &mut GameState, location: PitchLocation, pitch_type: usize)
    ensures
        aim_locked(*old(state), *final(state), location, pitch_type),
{
    state.pitch_location = Some(location);
    state.pitch_state = PitchState::PitchClock { frames_left: PITCH_CLOCK_FRAMES, pitch_type };
    state.message = String::from_str("Get ready! Pitch clock started...");
}

/// Makes the fielding attempt on a ball in play.
pub fn attempt_fielding(
    state: &mut GameState,
    engine: &GameEngine,
    ball: BallInPlay,
    frames_elapsed: u8,
) -> (done: (Vec<SoundCue>, FieldingReport))
    requires
        old(state).board().at_rest(),
        old(state).board().has_room(),
    ensures
        exists|rolls: FieldingRolls| #[trigger]
            fielding_attempted(
                *old(state),
                *final(state),
                done.0@,
                done.1,
                ball,
                frames_elapsed,
                rolls,
            ),
        final(state).board().at_rest(),
{
    let ghost pre = *state;
    let perfect_timing = ball.hang_time / 2;
    let (result, success_chance) = engine.calculate_fielding_result(
        &ball,
        frames_elapsed,
        perfect_timing,
    );
    let ghost rolls = choose|rolls: FieldingRolls|
        rolls.valid() && (result, success_chance) == #[trigger] fielding_outcome(
            ball,
            frames_elapsed,
            perfect_timing,
            rolls,
        );
    let report = FieldingReport {
        ball,
        catch_timing: frames_elapsed,
        perfect_timing,
        success_chance,
        result,
    };
    let mut sounds: Vec<SoundCue> = Vec::new();
    match cue_for_fielding(&result, ball.initial_contact_quality) {
        Some(cue) => sounds.push(cue),
        None => {},
    }
    state.fielding_cursor = None;
    match process_play_result(state, &result) {
        Some(cheer) => sounds.push(cheer),
        None => {},
    }
    state.pitch_state = PitchState::ShowResult { result, frames_left: RESULT_DISPLAY_FRAMES };
    proof {
        assert(sounds@ =~= match fielding_cue(result, ball.initial_contact_quality) {
            Some(cue) => seq![cue],
            None => Seq::<SoundCue>::empty(),
        } + match result {
            PlayResult::Hit(hit) => seq![hit_cue(hit)],
            _ => Seq::<SoundCue>::empty(),
        });
        assert(result_shown(GameState { fielding_cursor: None, ..pre }, *state, result));
        assert(fielding_attempted(pre, *state, sounds@, report, ball, frames_elapsed, rolls));
    }
    let ghost played = sounds@;
    let done = (sounds, report);
    assert(done.0@ == played && done.1 == report);
    done
}


/// A team whose roster has to be read before it can be selected.
#[derive(Debug, Clone)]
pub struct LoadRequest {
    pub abbreviation: String,
    pub for_home: bool,
}

/// What an input asks of the world outside.
#[derive(Debug, Clone)]
pub struct InputEvents {
    pub sounds: Vec<SoundCue>,
    pub fielding: Option<FieldingReport>,
    pub load: Option<LoadRequest>,
}

/// The team selection screen, as the rules of selection see it.
pub struct Selection {
    pub home: Option<Seq<char>>,
    pub away: Option<Seq<char>>,
    pub buffer: Seq<char>,
    pub input_mode: TeamInputMode,
}

pub open spec fn opt_text(s: Option<String>) -> Option<Seq<char>> {
    match s {
        Some(t) => Some(t@),
        None => None,
    }
}

impl GameState {
    /// The team selection screen, while teams are being selected.
    pub open spec fn selection(&self) -> Option<Selection> {
        match self.mode {
            GameMode::TeamSelection { selected_home, selected_away, input_buffer, input_mode } => {
                Some(
                    Selection {
                        home: opt_text(selected_home),
                        away: opt_text(selected_away),
                        buffer: input_buffer@,
                        input_mode,
                    },
                )
            },
            GameMode::Playing => None,
        }
    }

    /// The two states differ at most in the game mode, the chosen teams and
    /// the message.
    pub open spec fn same_game(&self, other: &GameState) -> bool {
        &&& self.board() == other.board()
        &&& self.same_pitch(other)
        &&& self.team_manager == other.team_manager
        &&& self.swing_timing == other.swing_timing
        &&& self.quit_requested == other.quit_requested
        &&& self.fielding_cursor == other.fielding_cursor
    }
}

/// What the player reads once a team is selected.
pub open spec fn selected_message(abbr: Seq<char>, for_home: bool) -> Seq<char> {
    if for_home {
        "Home team: "@ + abbr + " selected"@
    } else {
        "Away team: "@ + abbr + " selected"@
    }
}

/// The selection with a team put in one of its two places.
pub open spec fn with_team(sel: Selection, abbr: Seq<char>, for_home: bool) -> Selection {
    if for_home {
        Selection { home: Some(abbr), ..sel }
    } else {
        Selection { away: Some(abbr), ..sel }
    }
}

/// What the Enter key does with a typed team number.
///
/// The number picks a club from the list, counting from one (zero counts as
/// one). A club that is loaded already is selected on the spot; for one that
/// is not, a request to load it is issued. A number past the list, or a text
/// that is no number, is answered with a message. In every case the typed
/// text is cleared and number entry ends.
pub open spec fn number_entered(
    pre: GameState,
    post: GameState,
    load: Option<LoadRequest>,
    sel: Selection,
) -> bool {
    let cleared = Selection { buffer: Seq::<char>::empty(), input_mode: TeamInputMode::Idle, ..sel };
    match numeral_value(sel.buffer) {
        Some(num) => {
            let idx = if num >= 1 {
                num - 1
            } else {
                0
            };
            if idx < 32 {
                let abbr = club_abbreviation(idx);
                if sel.input_mode == TeamInputMode::Idle {
                    &&& post.selection() == Some(cleared)
                    &&& post.message == pre.message
                    &&& load is None
                } else {
                    let for_home = sel.input_mode == TeamInputMode::SelectingHome;
                    if pre.team_manager.position(abbr) is Some {
                        &&& post.selection() == Some(with_team(cleared, abbr, for_home))
                        &&& post.message@ == selected_message(abbr, for_home)
                        &&& load is None
                    } else {
                        &&& post.selection() == Some(cleared)
                        &&& post.message@ == "Loading team "@ + abbr + "..."@
                        &&& load matches Some(request)
                        &&& request.abbreviation@ == abbr
                        &&& request.for_home == for_home
                    }
                }
            } else {
                &&& post.selection() == Some(cleared)
                &&& post.message@ == "Invalid team number: "@ + decimal(num) + ". Please choose 1-"@
                    + decimal(32)
                &&& load is None
            }
        },
        None => {
            &&& post.selection() == Some(cleared)
            &&& post.message@ == "Invalid input. Please enter a number."@
            &&& load is None
        },
    }
}

/// What an input does on the team selection screen.
///
/// A and H start the entry of the visiting and of the home team's number.
/// Digits are collected, two at most, while a number is being entered.
/// Enter ends the entry, or starts the game once both teams are selected
/// and nothing is typed.
pub open spec fn selection_handled(
    pre: GameState,
    post: GameState,
    load: Option<LoadRequest>,
    input: GameInput,
) -> bool {
    let sel = pre.selection()->0;
    &&& post.same_game(&pre)
    &&& match input {
        GameInput::SelectAwayTeam => {
            &&& post.selection() == Some(
                Selection {
                    buffer: Seq::<char>::empty(),
                    input_mode: TeamInputMode::SelectingAway,
                    ..sel
                },
            )
            &&& post.message@ == "Enter away team number (1-30), then press ENTER:"@
            &&& post.home_team == pre.home_team && post.away_team == pre.away_team
            &&& load is None
        },
        GameInput::SelectHomeTeam => {
            &&& post.selection() == Some(
                Selection {
                    buffer: Seq::<char>::empty(),
                    input_mode: TeamInputMode::SelectingHome,
                    ..sel
                },
            )
            &&& post.message@ == "Enter home team number (1-30), then press ENTER:"@
            &&& post.home_team == pre.home_team && post.away_team == pre.away_team
            &&& load is None
        },
        GameInput::NumberInput(digit) => {
            &&& post.home_team == pre.home_team && post.away_team == pre.away_team
            &&& load is None
            &&& if sel.input_mode != TeamInputMode::Idle && sel.buffer.len() < 2 {
                &&& post.selection() == Some(Selection { buffer: sel.buffer.push(digit), ..sel })
                &&& post.message@ == "Entered: "@ + sel.buffer.push(digit)
            } else {
                &&& post.selection() == Some(sel)
                &&& post.message == pre.message
            }
        },
        GameInput::Action => {
            if sel.buffer.len() > 0 {
                &&& post.home_team == pre.home_team && post.away_team == pre.away_team
                &&& number_entered(pre, post, load, sel)
            } else if sel.home is Some && sel.away is Some {
                &&& post.mode is Playing
                &&& opt_text(post.home_team) == sel.home
                &&& opt_text(post.away_team) == sel.away
                &&& post.message@ == "Choose your pitch!"@
                &&& load is None
            } else {
                &&& post.selection() == Some(sel)
                &&& post.message == pre.message
                &&& post.home_team == pre.home_team && post.away_team == pre.away_team
                &&& load is None
            }
        },
        _ => {
            &&& post.selection() == Some(sel)
            &&& post.message == pre.message
            &&& post.home_team == pre.home_team && post.away_team == pre.away_team
            &&& load is None
        },
    }
}

/// Handles an input on the team selection screen. In play it does nothing.
pub fn handle_team_selection_input(state: &mut GameState, input: GameInput) -> (load: Option<
    LoadRequest,
>)
    ensures
        old(state).mode is TeamSelection ==> selection_handled(
            *old(state),
            *final(state),
            load,
            input,
        ),
        old(state).mode is Playing ==> *final(state) == *old(state) && load is None,
{
    let ghost pre = *state;
    let mut request: Option<LoadRequest> = None;
    let mut start: Option<(String, String)> = None;
    match &mut state.mode {
        GameMode::TeamSelection { selected_home, selected_away, input_buffer, input_mode } => {
            match input {
                GameInput::SelectAwayTeam => {
                    *input_buffer = String::new();
                    *input_mode = TeamInputMode::SelectingAway;
                    state.message = String::from_str(
                        "Enter away team number (1-30), then press ENTER:",
                    );
                },
                GameInput::SelectHomeTeam => {
                    *input_buffer = String::new();
                    *input_mode = TeamInputMode::SelectingHome;
                    state.message = String::from_str(
                        "Enter home team number (1-30), then press ENTER:",
                    );
                },
                GameInput::NumberInput(digit) => {
                    if *input_mode != TeamInputMode::Idle && input_buffer.as_str().unicode_len()
                        < 2 {
                        push_char(input_buffer, digit);
                        let mut text = String::from_str("Entered: ");
                        text.append(input_buffer.as_str());
                        state.message = text;
                    }
                },
                GameInput::Action => {
                    if input_buffer.as_str().unicode_len() > 0 {
                        match parse_number(input_buffer.as_str()) {
                            Some(num) => {
                                let idx = if num >= 1 {
                                    num - 1
                                } else {
                                    0
                                };
                                if idx < 32 {
                                    let for_home = *input_mode == TeamInputMode::SelectingHome;
                                    if *input_mode != TeamInputMode::Idle {
                                        let abbr = crate::league::abbreviation_at(idx);
                                        if state.team_manager.is_loaded(abbr) {
                                            if for_home {
                                                *selected_home = Some(String::from_str(abbr));
                                                let mut text = String::from_str("Home team: ");
                                                text.append(abbr);
                                                text.append(" selected");
                                                state.message = text;
                                            } else {
                                                *selected_away = Some(String::from_str(abbr));
                                                let mut text = String::from_str("Away team: ");
                                                text.append(abbr);
                                                text.append(" selected");
                                                state.message = text;
                                            }
                                        } else {
                                            let mut text = String::from_str("Loading team ");
                                            text.append(abbr);
                                            text.append("...");
                                            state.message = text;
                                            request = Some(
                                                LoadRequest {
                                                    abbreviation: String::from_str(abbr),
                                                    for_home,
                                                },
                                            );
                                        }
                                    }
                                } else {
                                    let mut text = String::from_str("Invalid team number: ");
                                    text.append(decimal_string(num as u64).as_str());
                                    text.append(". Please choose 1-");
                                    text.append(decimal_string(32).as_str());
                                    state.message = text;
                                }
                            },
                            None => {
                                state.message = String::from_str(
                                    "Invalid input. Please enter a number.",
                                );
                            },
                        }
                        *input_buffer = String::new();
                        *input_mode = TeamInputMode::Idle;
                    } else {
                        match (&*selected_home, &*selected_away) {
                            (Some(home), Some(away)) => {
                                start = Some((home.clone(), away.clone()));
                            },
                            _ => {},
                        }
                    }
                },
                _ => {},
            }
        },
        GameMode::Playing => {},
    }
    match start {
        Some((home, away)) => {
            state.start_game(home, away);
        },
        None => {},
    }
    request
}


/// What the player reads when a team cannot be loaded.
pub open spec fn load_error_message(abbr: Seq<char>, why: Seq<char>) -> Seq<char> {
    "Error loading team "@ + abbr + ": "@ + why
}

/// What the answer to a load request does. The team is loaded from its rows
/// and, if that succeeds, selected; if not, the player is told why. Outside
/// team selection only the loading happens.
pub open spec fn load_completed(
    pre: GameState,
    post: GameState,
    request: LoadRequest,
    batter_rows: Seq<PlayerStats>,
    pitcher_rows: Seq<PlayerStats>,
    loaded: Result<(), String>,
) -> bool {
    &&& TeamManager::team_loaded(
        pre.team_manager,
        post.team_manager,
        request.abbreviation@,
        batter_rows,
        pitcher_rows,
        loaded,
    )
    &&& post.board() == pre.board()
    &&& post.same_pitch(&pre)
    &&& post.swing_timing == pre.swing_timing
    &&& post.quit_requested == pre.quit_requested
    &&& post.fielding_cursor == pre.fielding_cursor
    &&& post.home_team == pre.home_team
    &&& post.away_team == pre.away_team
    &&& match pre.selection() {
        Some(sel) => match loaded {
            Ok(_) => {
                &&& post.selection() == Some(
                    with_team(sel, request.abbreviation@, request.for_home),
                )
                &&& post.message@ == selected_message(request.abbreviation@, request.for_home)
            },
            Err(why) => {
                &&& post.selection() == Some(sel)
                &&& post.message@ == load_error_message(request.abbreviation@, why@)
            },
        },
        None => post.mode == pre.mode && post.message == pre.message,
    }
}

/// Answers a load request with the rows that were read for the team.
pub fn complete_team_load(
    state: &mut GameState,
    request: &LoadRequest,
    batter_rows: &Vec<PlayerStats>,
    pitcher_rows: &Vec<PlayerStats>,
) -> (loaded: Result<(), String>)
    ensures
        load_completed(
            *old(state),
            *final(state),
            *request,
            batter_rows@,
            pitcher_rows@,
            loaded,
        ),
        old(state).team_manager.wf() ==> final(state).team_manager.wf(),
{
    let loaded = state.team_manager.load_team(
        request.abbreviation.as_str(),
        batter_rows,
        pitcher_rows,
    );
    match &mut state.mode {
        GameMode::TeamSelection { selected_home, selected_away, input_buffer: _, input_mode: _ } => {
            match &loaded {
                Ok(_) => {
                    if request.for_home {
                        *selected_home = Some(request.abbreviation.clone());
                        let mut text = String::from_str("Home team: ");
                        text.append(request.abbreviation.as_str());
                        text.append(" selected");
                        state.message = text;
                    } else {
                        *selected_away = Some(request.abbreviation.clone());
                        let mut text = String::from_str("Away team: ");
                        text.append(request.abbreviation.as_str());
                        text.append(" selected");
                        state.message = text;
                    }
                },
                Err(why) => {
                    let mut text = String::from_str("Error loading team ");
                    text.append(request.abbreviation.as_str());
                    text.append(": ");
                    text.append(why.as_str());
                    state.message = text;
                },
            }
        },
        GameMode::Playing => {},
    }
    loaded
}

/// Answers a load request whose rows could not be read: on the team
/// selection screen the player is told why, and nothing else changes.
pub fn fail_team_load(state: &mut GameState, request: &LoadRequest, why: &str)
    ensures
        final(state).same_game(old(state)),
        final(state).mode == old(state).mode,
        final(state).home_team == old(state).home_team,
        final(state).away_team == old(state).away_team,
        old(state).mode is TeamSelection ==> final(state).message@ == load_error_message(
            request.abbreviation@,
            why@,
        ),
        old(state).mode is Playing ==> final(state).message == old(state).message,
{
    match state.mode {
        GameMode::TeamSelection { .. } => {
            let mut text = String::from_str("Error loading team ");
            text.append(request.abbreviation.as_str());
            text.append(": ");
            text.append(why);
            state.message = text;
        },
        GameMode::Playing => {},
    }
}

/// Quitting takes two presses of the quit key: the first asks for
/// confirmation, the second, coming right after, confirms. Any other input
/// withdraws the request. Returns whether the game is to stop.
pub fn handle_quit(state: &mut GameState, input: GameInput) -> (quit: bool)
    ensures
        quit == (input is Quit && old(state).quit_requested),
        final(state).quit_requested == (input is Quit),
        final(state).board() == old(state).board(),
        final(state).same_pitch(old(state)),
        final(state).mode == old(state).mode,
        final(state).team_manager == old(state).team_manager,
        final(state).home_team == old(state).home_team,
        final(state).away_team == old(state).away_team,
        final(state).swing_timing == old(state).swing_timing,
        final(state).fielding_cursor == old(state).fielding_cursor,
        input is Quit && !old(state).quit_requested ==> final(state).message@
            == "Press Q again to quit."@,
        !(input is Quit && !old(state).quit_requested) ==> final(state).message == old(
            state,
        ).message,
{
    match input {
        GameInput::Quit => {
            if state.quit_requested {
                true
            } else {
                state.quit_requested = true;
                state.message = String::from_str("Press Q again to quit.");
                false
            }
        },
        _ => {
            state.quit_requested = false;
            false
        },
    }
}

/// What an input does in play, stage by stage.
///
/// While choosing: a pitch on offer is picked. While aiming: directions are
/// held, and a keypad digit or the action key locks the aim. While the ball
/// approaches: directions are held, and a keypad digit or the action key
/// swings. While a ball is in play: the action key goes for it. While a
/// result is shown: the action key moves on. Nothing else does anything.
pub open spec fn play_handled(
    pre: GameState,
    post: GameState,
    pads_before: InputState,
    pads_after: InputState,
    events: InputEvents,
    names: Seq<Seq<char>>,
    input: GameInput,
    rolls: FieldingRolls,
) -> bool {
    let untouched = post == pre && pads_after == pads_before && events.sounds@.len() == 0
        && events.fielding is None;
    let silent = events.sounds@.len() == 0 && events.fielding is None;
    let is_direction = input is Up || input is Down || input is Left || input is Right;
    match pre.pitch_state {
        PitchState::ChoosePitch => match input {
            GameInput::SelectPitch(idx) => if idx < names.len() {
                &&& pitch_chosen(pre, post, names[idx as int], idx)
                &&& pads_after == InputState::released()
                &&& silent
            } else {
                untouched
            },
            _ => untouched,
        },
        PitchState::Aiming { pitch_type } => match input {
            GameInput::DirectPosition(num) => {
                &&& aim_locked(pre, post, PitchLocation::keypad(num), pitch_type)
                &&& pads_after == InputState::released()
                &&& silent
            },
            GameInput::Action => {
                &&& aim_locked(
                    pre,
                    post,
                    PitchLocation::aimed(
                        pads_before.up,
                        pads_before.down,
                        pads_before.left,
                        pads_before.right,
                    ),
                    pitch_type,
                )
                &&& pads_after == InputState::released()
                &&& silent
            },
            _ => if is_direction {
                post == pre && pads_after == pads_before.pressed(input) && silent
            } else {
                untouched
            },
        },
        PitchState::BallApproaching { .. } => match input {
            GameInput::DirectPosition(num) => {
                &&& swing_started(pre, post, PitchLocation::keypad(num))
                &&& pads_after == InputState::released()
                &&& silent
            },
            GameInput::Action => {
                &&& swing_started(
                    pre,
                    post,
                    PitchLocation::aimed(
                        pads_before.up,
                        pads_before.down,
                        pads_before.left,
                        pads_before.right,
                    ),
                )
                &&& pads_after == InputState::released()
                &&& silent
            },
            _ => if is_direction {
                post == pre && pads_after == pads_before.pressed(input) && silent
            } else {
                untouched
            },
        },
        PitchState::Fielding { ball_in_play, frames_elapsed } => match input {
            GameInput::Action => {
                &&& events.fielding matches Some(report)
                &&& fielding_attempted(
                    pre,
                    post,
                    events.sounds@,
                    report,
                    ball_in_play,
                    frames_elapsed,
                    rolls,
                )
                &&& pads_after == pads_before
            },
            _ => untouched,
        },
        PitchState::ShowResult { .. } => match input {
            GameInput::Action => {
                &&& result_dismissed(pre, post)
                &&& pads_after == InputState::released()
                &&& silent
            },
            _ => untouched,
        },
        _ => untouched,
    }
}

/// The names of the pitches on offer.
pub open spec fn pitch_names(engine: GameEngine) -> Seq<Seq<char>> {
    Seq::new(engine.pitch_types@.len(), |i: int| engine.pitch_types@[i].name@)
}

/// Handles one input.
///
/// On the team selection screen the input goes to team selection (see
/// [`selection_handled`]); in play it goes to the stage of the pitch (see
/// [`play_handled`]). A fielding attempt rolls dice: of it the contract
/// states what holds for some valid roll.
pub fn handle_input(
    state: &mut GameState,
    engine: &GameEngine,
    input_state: &mut InputState,
    input: GameInput,
) -> (events: InputEvents)
    requires
        old(state).board().at_rest(),
        old(state).board().has_room(),
    ensures
        old(state).mode is TeamSelection ==> {
            &&& selection_handled(*old(state), *final(state), events.load, input)
            &&& *final(input_state) == *old(input_state)
            &&& events.sounds@.len() == 0
            &&& events.fielding is None
        },
        old(state).mode is Playing ==> events.load is None && exists|rolls: FieldingRolls| #[trigger]
            play_handled(
                *old(state),
                *final(state),
                *old(input_state),
                *final(input_state),
                events,
                pitch_names(*engine),
                input,
                rolls,
            ),
        final(state).board().at_rest(),
{
    let ghost pre = *state;
    let ghost pads = *input_state;
    let ghost no_rolls = FieldingRolls { catch: 0, split: 1, table: 1 };
    let ghost names = pitch_names(*engine);
    let playing = match state.mode {
        GameMode::TeamSelection { .. } => false,
        GameMode::Playing => true,
    };
    if !playing {
        let load = handle_team_selection_input(state, input);
        return InputEvents { sounds: Vec::new(), fielding: None, load };
    }
    let stage = state.pitch_state;
    match stage {
        PitchState::ChoosePitch => {
            match input {
                GameInput::SelectPitch(idx) => {
                    if idx < engine.pitch_types.len() {
                        state.pitch_state = PitchState::Aiming { pitch_type: idx };
                        let mut text = String::from_str("Aiming ");
                        text.append(engine.get_pitch_name(idx));
                        text.append(". Use arrows or SHIFT+(1-9) to aim, SPACE to pitch.");
                        state.message = text;
                        input_state.reset();
                    }
                },
                _ => {},
            }
            let events = InputEvents { sounds: Vec::new(), fielding: None, load: None };
            assert(play_handled(pre, *state, pads, *input_state, events, names, input, no_rolls));
            events
        },
        PitchState::Aiming { pitch_type } => {
            match input {
                GameInput::Up | GameInput::Down | GameInput::Left | GameInput::Right => {
                    input_state.update(&input);
                },
                GameInput::DirectPosition(num) => {
                    lock_aim(state, PitchLocation::from_numpad(num), pitch_type);
                    input_state.reset();
                },
                GameInput::Action => {
                    let location = PitchLocation::from_direction(
                        input_state.up,
                        input_state.down,
                        input_state.left,
                        input_state.right,
                    );
                    lock_aim(state, location, pitch_type);
                    input_state.reset();
                },
                _ => {},
            }
            let events = InputEvents { sounds: Vec::new(), fielding: None, load: None };
            assert(play_handled(pre, *state, pads, *input_state, events, names, input, no_rolls));
            events
        },
        PitchState::BallApproaching { .. } => {
            match input {
                GameInput::Up | GameInput::Down | GameInput::Left | GameInput::Right => {
                    input_state.update(&input);
                },
                GameInput::DirectPosition(num) => {
                    start_swing(state, PitchLocation::from_numpad(num));
                    input_state.reset();
                },
                GameInput::Action => {
                    let location = PitchLocation::from_direction(
                        input_state.up,
                        input_state.down,
                        input_state.left,
                        input_state.right,
                    );
                    start_swing(state, location);
                    input_state.reset();
                },
                _ => {},
            }
            let events = InputEvents { sounds: Vec::new(), fielding: None, load: None };
            assert(play_handled(pre, *state, pads, *input_state, events, names, input, no_rolls));
            events
        },
        PitchState::Fielding { ball_in_play, frames_elapsed } => {
            match input {
                GameInput::Action => {
                    let (sounds, report) = attempt_fielding(
                        state,
                        engine,
                        ball_in_play,
                        frames_elapsed,
                    );
                    let ghost rolls = choose|rolls: FieldingRolls| #[trigger]
                        fielding_attempted(
                            pre,
                            *state,
                            sounds@,
                            report,
                            ball_in_play,
                            frames_elapsed,
                            rolls,
                        );
                    let events = InputEvents { sounds, fielding: Some(report), load: None };
                    assert(play_handled(
                        pre,
                        *state,
                        pads,
                        *input_state,
                        events,
                        names,
                        input,
                        rolls,
                    ));
                    events
                },
                _ => {
                    let events = InputEvents { sounds: Vec::new(), fielding: None, load: None };
                    assert(play_handled(
                        pre,
                        *state,
                        pads,
                        *input_state,
                        events,
                        names,
                        input,
                        no_rolls,
                    ));
                    events
                },
            }
        },
        PitchState::ShowResult { .. } => {
            match input {
                GameInput::Action => {
                    input_state.reset();
                    state.pitch_state = PitchState::ChoosePitch;
                    state.pitch_location = None;
                    state.swing_location = None;
                    state.message = String::from_str("Choose your pitch!");
                },
                _ => {},
            }
            let events = InputEvents { sounds: Vec::new(), fielding: None, load: None };
            assert(play_handled(pre, *state, pads, *input_state, events, names, input, no_rolls));
            events
        },
        _ => {
            let events = InputEvents { sounds: Vec::new(), fielding: None, load: None };
            assert(play_handled(pre, *state, pads, *input_state, events, names, input, no_rolls));
            events
        },
    }
}

} // verus!
