//! The ledger entry for a resolved play, and the once-per-frame advance of
//! the pitch state machine.

use crate::audio::{cue_for_hit, cue_for_swing, hit_cue, swing_cue, SoundCue};
use crate::game::constants::{
    BALL_APPROACH_FRAMES, EARLY_LATE_WINDOW_FRAMES, FATIGUE_PENALTY_FRESH,
    FIELDING_AUTO_RESOLVE_MIN_FRAMES, MAX_BALLS, MAX_STRIKES, PERFECT_TIMING_WINDOW_FRAMES,
    RESULT_DISPLAY_FRAMES, STAMINA_COST_SWING, STAMINA_COST_TAKE, SWING_TIMING_WINDOW_FRAMES,
    TARGET_FPS,
};
use crate::game::engine::{
    ball_possible, hit_when_through, pitch_outcome, take_result, FieldingRolls, GameEngine,
    Matchup, PitchRolls,
};
use crate::game::state::{
    game_over_message, BallInPlay, GameState, HitType, InningHalf, OutType, PitchLocation,
    PitchState, PlayResult, Scoreboard, SwingTiming,
};
use crate::input::InputState;
use crate::team::{lemma_find_team, owned, stamina_after, Player, Team, TeamManager};
use crate::text::{decimal, decimal_string};
use vstd::prelude::*;
use vstd::string::*;

verus! {

/// Whether a play ends the batter's turn.
pub open spec fn turn_over(b: Scoreboard, result: PlayResult) -> bool {
    match result {
        PlayResult::Strike => b.strikes + 1 >= 3,
        PlayResult::Ball => b.balls + 1 >= 4,
        PlayResult::Foul => false,
        PlayResult::Hit(_) | PlayResult::Out(_) => true,
    }
}

/// Whether a play retires the batter: an out, or the third strike.
pub open spec fn makes_out(b: Scoreboard, result: PlayResult) -> bool {
    match result {
        PlayResult::Out(_) => true,
        PlayResult::Strike => b.strikes + 1 >= 3,
        _ => false,
    }
}

/// The call that goes with a play.
pub open spec fn play_message(b: Scoreboard, result: PlayResult) -> Seq<char> {
    match result {
        PlayResult::Strike => if b.strikes + 1 >= 3 {
            "Strike 3! You're out!"@
        } else {
            "Strike "@ + decimal((b.strikes + 1) as nat) + "!"@
        },
        PlayResult::Ball => if b.balls + 1 >= 4 {
            "Ball 4! Walk!"@
        } else {
            "Ball "@ + decimal((b.balls + 1) as nat) + "!"@
        },
        PlayResult::Foul => "Foul ball!"@,
        PlayResult::Hit(HitType::Single) => "Single!"@,
        PlayResult::Hit(HitType::Double) => "Double!"@,
        PlayResult::Hit(HitType::Triple) => "Triple!"@,
        PlayResult::Hit(HitType::HomeRun) => "HOME RUN!"@,
        PlayResult::Out(OutType::Strikeout) => "Strikeout!"@,
        PlayResult::Out(OutType::Groundout) => "Groundout!"@,
        PlayResult::Out(OutType::Flyout) => "Fly out!"@,
        PlayResult::Out(OutType::LineOut) => "Line out!"@,
    }
}

/// What `post` is once `result` has been entered in the ledger of `pre`.
///
/// The board moves by the rules. If the play ends the batter's turn the pitch
/// starts over, otherwise the stage of the pitch and the aims stay. The
/// message is the call of the play, or the final score if the play made the
/// last out of a game that is decided.
pub open spec fn ledger_entered(pre: GameState, post: GameState, result: PlayResult) -> bool {
    &&& post.board() == pre.board().applied(result, pre.sizes())
    &&& post.same_setting(&pre)
    &&& turn_over(pre.board(), result) ==> {
        &&& post.pitch_state == PitchState::ChoosePitch
        &&& post.pitch_location is None
        &&& post.swing_location is None
    }
    &&& !turn_over(pre.board(), result) ==> post.same_pitch(&pre)
    &&& post.message@ == if makes_out(pre.board(), result) && pre.board().on_last_out() {
        game_over_message(pre.home_score, pre.away_score)
    } else {
        play_message(pre.board(), result)
    }
}

/// Enters a resolved play in the ledger: count, outs, bases, score, inning
/// and the end of the game. Returns the cheer that a hit earns.
pub fn process_play_result(state: &mut GameState, result: &PlayResult) -> (cheer: Option<
    SoundCue,
>)
    requires
        old(state).board().at_rest(),
        old(state).board().room_for(*result),
    ensures
        ledger_entered(*old(state), *final(state), *result),
        final(state).board().at_rest(),
        cheer == match *result {
            PlayResult::Hit(hit) => Some(hit_cue(hit)),
            _ => None,
        },
{
    proof {
        crate::game::state::lemma_applied_at_rest(
            state.board(),
            *result,
            state.sizes(),
        );
    }
    match result {
        PlayResult::Strike => {
            state.strikes = state.strikes + 1;
            let mut text = String::from_str("Strike ");
            text.append(decimal_string(state.strikes as u64).as_str());
            text.append("!");
            state.message = text;
            if state.strikes >= MAX_STRIKES {
                state.add_strikeout();
            }
            None
        },
        PlayResult::Ball => {
            state.balls = state.balls + 1;
            let mut text = String::from_str("Ball ");
            text.append(decimal_string(state.balls as u64).as_str());
            text.append("!");
            state.message = text;
            if state.balls >= MAX_BALLS {
                state.add_walk();
            }
            None
        },
        PlayResult::Foul => {
            if state.strikes < 2 {
                state.strikes = state.strikes + 1;
            }
            state.message = String::from_str("Foul ball!");
            None
        },
        PlayResult::Hit(hit_type) => {
            let bases: u8 = match hit_type {
                HitType::Single => 1,
                HitType::Double => 2,
                HitType::Triple => 3,
                HitType::HomeRun => 4,
            };
            state.message = match hit_type {
                HitType::Single => String::from_str("Single!"),
                HitType::Double => String::from_str("Double!"),
                HitType::Triple => String::from_str("Triple!"),
                HitType::HomeRun => String::from_str("HOME RUN!"),
            };
            state.advance_runners(bases);
            state.advance_batter();
            Some(cue_for_hit(hit_type))
        },
        PlayResult::Out(out_type) => {
            state.message = match out_type {
                OutType::Strikeout => String::from_str("Strikeout!"),
                OutType::Groundout => String::from_str("Groundout!"),
                OutType::Flyout => String::from_str("Fly out!"),
                OutType::LineOut => String::from_str("Line out!"),
            };
            state.add_out();
            None
        },
    }
}


/// A contact quality that would account for a result, where none was
/// measured: 95 for a triple or a home run, 75 for a double, 55 for a single,
/// 65 for a ball caught in the air, 35 for a groundout and 20 for anything
/// else.
pub open spec fn typical_quality(result: PlayResult) -> i32 {
    match result {
        PlayResult::Hit(HitType::HomeRun) | PlayResult::Hit(HitType::Triple) => 95,
        PlayResult::Hit(HitType::Double) => 75,
        PlayResult::Hit(HitType::Single) => 55,
        PlayResult::Out(OutType::Flyout) | PlayResult::Out(OutType::LineOut) => 65,
        PlayResult::Out(OutType::Groundout) => 35,
        _ => 20,
    }
}

pub fn estimate_contact_quality(result: &PlayResult) -> (quality: i32)
    ensures
        quality == typical_quality(*result),
        1 <= quality <= 100,
{
    match result {
        PlayResult::Hit(HitType::HomeRun) | PlayResult::Hit(HitType::Triple) => 95,
        PlayResult::Hit(HitType::Double) => 75,
        PlayResult::Hit(HitType::Single) => 55,
        PlayResult::Out(OutType::Flyout) | PlayResult::Out(OutType::LineOut) => 65,
        PlayResult::Out(OutType::Groundout) => 35,
        _ => 20,
    }
}

/// What a pitch came to, for the game's log.
#[derive(Debug, Clone)]
pub struct PitchReport {
    pub pitch_number: u32,
    pub inning: u8,
    pub half: InningHalf,
    pub batter: Option<Player>,
    pub pitcher: Option<Player>,
    pub pitch_location: PitchLocation,
    pub swing_location: Option<PitchLocation>,
    pub contact_quality: Option<i32>,
    pub result: PlayResult,
    /// The pitcher's fatigue multiplier, in hundredths.
    pub fatigue_penalty: u32,
}

/// What one frame asks of the world outside: sounds to play, in order, and
/// a pitch to log.
#[derive(Debug, Clone)]
pub struct TickEvents {
    pub sounds: Vec<SoundCue>,
    pub pitch: Option<PitchReport>,
}

/// One less, stopping at zero.
pub open spec fn counted_down(frames: int) -> int {
    if frames > 0 {
        frames - 1
    } else {
        0
    }
}

/// The whole seconds that a number of frames still takes.
pub open spec fn seconds_left(frames: int) -> int {
    (frames + 29) / 30
}

/// The two states differ at most in the stage of the pitch and the message.
pub open spec fn only_stage_moved(pre: GameState, post: GameState) -> bool {
    &&& post.board() == pre.board()
    &&& post.same_setting(&pre)
    &&& post.pitch_location == pre.pitch_location
    &&& post.swing_location == pre.swing_location
}

/// The state that shows a result after the ledger has taken it in: what the
/// ledger leaves, with the result put on show for the usual time.
pub open spec fn result_shown(pre: GameState, post: GameState, result: PlayResult) -> bool {
    &&& post.pitch_state == (PitchState::ShowResult { result, frames_left: 90 })
    &&& ledger_entered(
        pre,
        GameState {
            pitch_state: if turn_over(pre.board(), result) {
                PitchState::ChoosePitch
            } else {
                pre.pitch_state
            },
            ..post
        },
        result,
    )
}

/// A frame of the pitch clock: it runs down, and at zero the ball is on its
/// way.
pub open spec fn clock_ticked(
    pre: GameState,
    post: GameState,
    frames_left: u16,
    pitch_type: usize,
) -> bool {
    let left = counted_down(frames_left as int);
    &&& only_stage_moved(pre, post)
    &&& left == 0 ==> {
        &&& post.pitch_state == (PitchState::BallApproaching {
            frames_left: 90,
            ball_position: 0,
            pitch_type,
            can_swing: false,
        })
        &&& post.message@ == "Here comes the pitch! Watch the ball!"@
    }
    &&& left > 0 ==> {
        &&& post.pitch_state == (PitchState::PitchClock { frames_left: left as u16, pitch_type })
        &&& post.message@ == if seconds_left(left) <= 3 {
            "GET READY! "@ + decimal(seconds_left(left) as nat) + "..."@
        } else {
            "Pitch clock: "@ + decimal(seconds_left(left) as nat) + "s - Get in position!"@
        }
    }
}

/// How far the ball has come with `left` frames to go, in ninetieths of the
/// way.
pub open spec fn ball_position_at(left: int) -> int {
    if left >= 90 {
        0
    } else {
        90 - left
    }
}

/// The cue shown while the ball approaches with `left` frames to go.
pub open spec fn approach_message(before: Seq<char>, left: int, could_swing: bool) -> Seq<char> {
    if left > 30 && !could_swing {
        before
    } else if left <= 6 {
        "PERFECT TIMING!"@
    } else if left <= 18 {
        "Good timing zone..."@
    } else if !could_swing {
        "SWING NOW! Time your swing!"@
    } else {
        before
    }
}

/// A frame of the ball's approach. The ball comes nearer and the swing
/// window opens thirty frames out. If the ball arrives unswung at, it is a
/// take: a strike or a ball by the zone, entered in the ledger and shown. A
/// pitch whose aim was never set counts as down the middle.
pub open spec fn approach_ticked(
    pre: GameState,
    post: GameState,
    frames_left: u8,
    can_swing: bool,
    pitch_type: usize,
) -> bool {
    let left = counted_down(frames_left as int);
    if left == 0 {
        let pitch = match pre.pitch_location {
            Some(loc) => loc,
            None => PitchLocation::Middle,
        };
        &&& post.swing_timing == SwingTiming::NoSwing
        &&& result_shown(
            GameState { swing_timing: SwingTiming::NoSwing, ..pre },
            post,
            take_result(pitch),
        )
    } else {
        &&& only_stage_moved(pre, post)
        &&& post.pitch_state == (PitchState::BallApproaching {
            frames_left: left as u8,
            ball_position: ball_position_at(left) as u8,
            can_swing: can_swing || left <= 30,
            pitch_type,
        })
        &&& post.message@ == approach_message(pre.message@, left, can_swing)
    }
}

/// A frame of showing a result: at zero the next pitch begins.
pub open spec fn show_ticked(
    pre: GameState,
    post: GameState,
    result: PlayResult,
    frames_left: u8,
) -> bool {
    let left = counted_down(frames_left as int);
    &&& post.board() == pre.board()
    &&& post.mode == pre.mode
    &&& post.team_manager == pre.team_manager
    &&& post.home_team == pre.home_team
    &&& post.away_team == pre.away_team
    &&& post.quit_requested == pre.quit_requested
    &&& post.fielding_cursor == pre.fielding_cursor
    &&& left == 0 ==> {
        &&& post.pitch_state == PitchState::ChoosePitch
        &&& post.pitch_location is None
        &&& post.swing_location is None
        &&& post.swing_timing == SwingTiming::NoSwing
        &&& post.message@ == "Choose your pitch!"@
    }
    &&& left > 0 ==> {
        &&& post.pitch_state == (PitchState::ShowResult { result, frames_left: left as u8 })
        &&& post.pitch_location == pre.pitch_location
        &&& post.swing_location == pre.swing_location
        &&& post.swing_timing == pre.swing_timing
        &&& post.message == pre.message
    }
}

/// The pitch clock runs one frame.
pub fn tick_pitch_clock(state: &mut GameState, frames_left: u16, pitch_type: usize)
    ensures
        clock_ticked(*old(state), *final(state), frames_left, pitch_type),
{
    let left: u16 = if frames_left > 0 {
        frames_left - 1
    } else {
        0
    };
    if left == 0 {
        state.pitch_state = PitchState::BallApproaching {
            frames_left: BALL_APPROACH_FRAMES,
            ball_position: 0,
            pitch_type,
            can_swing: false,
        };
        state.message = String::from_str("Here comes the pitch! Watch the ball!");
    } else {
        state.pitch_state = PitchState::PitchClock { frames_left: left, pitch_type };
        let seconds: u64 = (left as u64 + (TARGET_FPS - 1)) / TARGET_FPS;
        if seconds <= 3 {
            let mut text = String::from_str("GET READY! ");
            text.append(decimal_string(seconds).as_str());
            text.append("...");
            state.message = text;
        } else {
            let mut text = String::from_str("Pitch clock: ");
            text.append(decimal_string(seconds).as_str());
            text.append("s - Get in position!");
            state.message = text;
        }
    }
}

/// The ball's approach runs one frame.
pub fn tick_ball_approaching(
    state: &mut GameState,
    frames_left: u8,
    can_swing: bool,
    pitch_type: usize,
)
    requires
        old(state).board().at_rest(),
        old(state).board().has_room(),
    ensures
        approach_ticked(*old(state), *final(state), frames_left, can_swing, pitch_type),
        final(state).board().at_rest(),
{
    let left: u8 = if frames_left > 0 {
        frames_left - 1
    } else {
        0
    };
    if left == 0 {
        state.swing_timing = SwingTiming::NoSwing;
        let pitch = match state.pitch_location {
            Some(loc) => loc,
            None => PitchLocation::Middle,
        };
        let result = if pitch.is_strike() {
            PlayResult::Strike
        } else {
            PlayResult::Ball
        };
        let _ = process_play_result(state, &result);
        state.pitch_state = PitchState::ShowResult { result, frames_left: RESULT_DISPLAY_FRAMES };
    } else {
        let ball_position: u8 = if left >= BALL_APPROACH_FRAMES {
            0
        } else {
            BALL_APPROACH_FRAMES - left
        };
        let window_open = can_swing || left <= SWING_TIMING_WINDOW_FRAMES;
        if window_open && !can_swing {
            state.message = String::from_str("SWING NOW! Time your swing!");
        }
        if window_open {
            if left <= PERFECT_TIMING_WINDOW_FRAMES {
                state.message = String::from_str("PERFECT TIMING!");
            } else if left <= PERFECT_TIMING_WINDOW_FRAMES + EARLY_LATE_WINDOW_FRAMES {
                state.message = String::from_str("Good timing zone...");
            }
        }
        state.pitch_state = PitchState::BallApproaching {
            frames_left: left,
            ball_position,
            can_swing: window_open,
            pitch_type,
        };
    }
}

/// The display of a result runs one frame.
pub fn tick_show_result(
    state: &mut GameState,
    input_state: &mut InputState,
    result: PlayResult,
    frames_left: u8,
)
    ensures
        show_ticked(*old(state), *final(state), result, frames_left),
        counted_down(frames_left as int) == 0 ==> *final(input_state) == InputState::released(),
        counted_down(frames_left as int) > 0 ==> *final(input_state) == *old(input_state),
{
    let left: u8 = if frames_left > 0 {
        frames_left - 1
    } else {
        0
    };
    if left == 0 {
        input_state.reset();
        state.pitch_state = PitchState::ChoosePitch;
        state.pitch_location = None;
        state.swing_location = None;
        state.swing_timing = SwingTiming::NoSwing;
        state.message = String::from_str("Choose your pitch!");
    } else {
        state.pitch_state = PitchState::ShowResult { result, frames_left: left };
    }
}


/// The pitching side of `pre` has been charged one pitch, and nothing else
/// about the teams has changed.
pub open spec fn pitch_charged(pre: GameState, teams: TeamManager, amount: u32) -> bool {
    match pre.pitching_position() {
        Some(i) => {
            let before = pre.team_manager.teams@;
            &&& teams.teams@.len() == before.len()
            &&& teams.teams@[i] == (Team {
                pitcher_stamina: stamina_after(before[i].pitcher_stamina as nat, amount as nat) as u32,
                pitches_thrown: (before[i].pitches_thrown + 1) as u32,
                ..before[i]
            })
            &&& forall|j: int| 0 <= j < before.len() && j != i ==> teams.teams@[j] == before[j]
        },
        None => teams == pre.team_manager,
    }
}

/// What the player reads when a ball is put in play.
pub open spec fn fielding_message(ball: BallInPlay) -> Seq<char> {
    ball.ball_type.label() + " to "@ + ball.direction.label() + "! Press SPACE to field!"@
}

/// The state after a swing has been resolved. A hit with a ball in play goes
/// to the fielders: the board waits. Anything else is entered in the ledger
/// and shown.
pub open spec fn swing_concluded(
    pre: GameState,
    post: GameState,
    result: PlayResult,
    made: Option<BallInPlay>,
) -> bool {
    if result is Hit && made is Some {
        let ball = made->0;
        &&& post.pitch_state == (PitchState::Fielding { ball_in_play: ball, frames_elapsed: 0 })
        &&& post.fielding_cursor == Some(ball.direction)
        &&& post.message@ == fielding_message(ball)
        &&& post.board() == pre.board()
        &&& post.pitch_location == pre.pitch_location
        &&& post.swing_location == pre.swing_location
        &&& post.mode == pre.mode
        &&& post.team_manager == pre.team_manager
        &&& post.home_team == pre.home_team
        &&& post.away_team == pre.away_team
        &&& post.swing_timing == pre.swing_timing
        &&& post.quit_requested == pre.quit_requested
    } else {
        result_shown(pre, post, result)
    }
}

/// The sounds of a resolved swing: the bat or the miss, then the cheer for a
/// hit that goes straight into the books.
pub open spec fn swing_sounds(result: PlayResult, made: Option<BallInPlay>) -> Seq<SoundCue> {
    let first = match swing_cue(result) {
        Some(cue) => seq![cue],
        None => Seq::<SoundCue>::empty(),
    };
    match result {
        PlayResult::Hit(hit) => if made is None {
            first.push(hit_cue(hit))
        } else {
            first
        },
        _ => first,
    }
}

/// Sends a resolved swing on its way: to the fielders if it is a hit with a
/// ball in play, into the ledger otherwise.
pub fn conclude_swing(state: &mut GameState, result: PlayResult, made: Option<BallInPlay>) -> (sounds:
    Vec<SoundCue>)
    requires
        old(state).board().at_rest(),
        old(state).board().has_room(),
    ensures
        swing_concluded(*old(state), *final(state), result, made),
        sounds@ == swing_sounds(result, made),
        final(state).board().at_rest(),
{
    let mut sounds: Vec<SoundCue> = Vec::new();
    match cue_for_swing(&result) {
        Some(cue) => sounds.push(cue),
        None => {},
    }
    match (result, made) {
        (PlayResult::Hit(_), Some(ball)) => {
            state.fielding_cursor = Some(ball.direction);
            let mut text = String::from_str(ball.ball_type.name());
            text.append(" to ");
            text.append(ball.direction.name());
            text.append("! Press SPACE to field!");
            state.message = text;
            state.pitch_state = PitchState::Fielding { ball_in_play: ball, frames_elapsed: 0 };
        },
        _ => {
            match process_play_result(state, &result) {
                Some(cheer) => sounds.push(cheer),
                None => {},
            }
            state.pitch_state = PitchState::ShowResult {
                result,
                frames_left: RESULT_DISPLAY_FRAMES,
            };
        },
    }
    sounds
}

/// One more, stopping at the top of the type.
pub open spec fn counted_up(n: int, top: int) -> int {
    if n < top {
        n + 1
    } else {
        top
    }
}

/// What a frame that resolves a swing does, for the dice `rolls` and the ball
/// `made` of them.
///
/// The pitcher and the batter are read and the pitching side is charged
/// fifteen tenths of stamina for a swing, eight for a take; the pitch is
/// resolved; a hit puts a ball in play; the pitch is reported. An aim that
/// was never set counts as down the middle.
pub open spec fn swing_resolved(
    pre: GameState,
    post: GameState,
    events: TickEvents,
    timing: SwingTiming,
    count_before: u32,
    rolls: PitchRolls,
    made: Option<BallInPlay>,
) -> bool {
    let pitch = match pre.pitch_location {
        Some(loc) => loc,
        None => PitchLocation::Middle,
    };
    let cost: u32 = if pre.swing_location is Some {
        15
    } else {
        8
    };
    let out = pitch_outcome(
        pitch,
        pre.swing_location,
        Some(timing),
        Matchup::spec_of(pre.batter_at_plate(), pre.pitcher_on_mound(), pre.fatigue()),
        rolls,
    );
    &&& rolls.valid()
    &&& pitch_charged(pre, post.team_manager, cost)
    &&& match out {
        (PlayResult::Hit(_), Some(quality)) => made matches Some(ball) && ball_possible(
            quality,
            Matchup::spec_of(pre.batter_at_plate(), None, 100).groundball_tendency,
            ball,
        ),
        _ => made is None,
    }
    &&& swing_concluded(GameState { team_manager: post.team_manager, ..pre }, post, out.0, made)
    &&& events.sounds@ == swing_sounds(out.0, made)
    &&& events.pitch == Some(
        PitchReport {
            pitch_number: counted_up(count_before as int, u32::MAX as int) as u32,
            inning: pre.inning,
            half: pre.half,
            batter: pre.batter_at_plate(),
            pitcher: pre.pitcher_on_mound(),
            pitch_location: pitch,
            swing_location: pre.swing_location,
            contact_quality: out.1,
            result: out.0,
            fatigue_penalty: pre.fatigue(),
        },
    )
}

/// Resolves the swing when its animation has run out.
///
/// Whatever the dice, the frame is one that [`swing_resolved`] describes.
/// The pitch is counted, and so is a hit; each counter stops at the top of
/// its type.
#[verifier::rlimit(80)]
pub fn resolve_swing(
    state: &mut GameState,
    engine: &GameEngine,
    timing: SwingTiming,
    pitch_count: &mut u32,
    inning_hits: &mut u8,
) -> (events: TickEvents)
    requires
        old(state).ready(),
    ensures
        exists|rolls: PitchRolls, made: Option<BallInPlay>| #[trigger]
            swing_resolved(
                *old(state),
                *final(state),
                events,
                timing,
                *old(pitch_count),
                rolls,
                made,
            ),
        final(state).board().at_rest(),
        *final(pitch_count) == counted_up(*old(pitch_count) as int, u32::MAX as int),
        events.pitch matches Some(report) && *final(inning_hits) == if report.result is Hit {
            counted_up(*old(inning_hits) as int, u8::MAX as int)
        } else {
            *old(inning_hits) as int
        },
{
    let ghost pre = *state;
    let pitch = match state.pitch_location {
        Some(loc) => loc,
        None => PitchLocation::Middle,
    };
    let swing = state.swing_location;
    let fatigue = match state.get_current_pitching_team() {
        Some(team) => team.get_fatigue_penalty(),
        None => FATIGUE_PENALTY_FRESH,
    };
    let batter: Option<Player> = match state.get_current_batter() {
        Some(player) => Some(player.duplicate()),
        None => None,
    };
    let pitcher: Option<Player> = match state.get_current_pitcher() {
        Some(player) => Some(player.duplicate()),
        None => None,
    };
    assert(batter == pre.batter_at_plate());
    assert(pitcher == pre.pitcher_on_mound());
    let cost = if swing.is_some() {
        STAMINA_COST_SWING
    } else {
        STAMINA_COST_TAKE
    };
    match state.pitching_index() {
        Some(i) => {
            state.team_manager.charge_pitch(i, cost);
        },
        None => {},
    }
    let ghost mid = *state;
    assert(mid == GameState { team_manager: mid.team_manager, ..pre });
    assert(pitch_charged(pre, mid.team_manager, cost));
    assert(mid.sizes() == pre.sizes()) by {
        assert(mid.team_position(pre.away_team) == pre.team_position(pre.away_team));
        assert(mid.team_position(pre.home_team) == pre.team_position(pre.home_team));
        if pre.away_team is Some {
            lemma_find_team(pre.team_manager.teams@, pre.away_team->0@, 0);
        }
        if pre.home_team is Some {
            lemma_find_team(pre.team_manager.teams@, pre.home_team->0@, 0);
        }
        assert(mid.order_size_of(pre.away_team) == pre.order_size_of(pre.away_team));
        assert(mid.order_size_of(pre.home_team) == pre.order_size_of(pre.home_team));
    }

    let batter_ref = batter.as_ref();
    let pitcher_ref = pitcher.as_ref();
    assert(owned(batter_ref) == batter);
    assert(owned(pitcher_ref) == pitcher);
    let (result, contact_quality) = engine.calculate_pitch_result_with_timing(
        pitch,
        swing,
        0,
        batter_ref,
        pitcher_ref,
        fatigue,
        &timing,
    );
    let ghost rolls = choose|rolls: PitchRolls|
        rolls.valid() && (result, contact_quality) == #[trigger] pitch_outcome(
            pitch,
            swing,
            Some(timing),
            Matchup::spec_of(batter, pitcher, fatigue),
            rolls,
        );

    *pitch_count = if *pitch_count < u32::MAX {
        *pitch_count + 1
    } else {
        u32::MAX
    };
    let is_hit = match result {
        PlayResult::Hit(_) => true,
        _ => false,
    };
    if is_hit {
        *inning_hits = if *inning_hits < u8::MAX {
            *inning_hits + 1
        } else {
            u8::MAX
        };
    }
    let made = match (result, contact_quality) {
        (PlayResult::Hit(_), Some(quality)) => engine.generate_ball_in_play(
            quality,
            batter_ref,
            pitcher_ref,
        ),
        _ => None,
    };
    let report = PitchReport {
        pitch_number: *pitch_count,
        inning: state.inning,
        half: state.half,
        batter,
        pitcher,
        pitch_location: pitch,
        swing_location: swing,
        contact_quality,
        result,
        fatigue_penalty: fatigue,
    };
    let sounds = conclude_swing(state, result, made);
    let events = TickEvents { sounds, pitch: Some(report) };
    assert(swing_resolved(pre, *state, events, timing, *old(pitch_count), rolls, made));
    events
}

/// What a frame does while a ball is in play, for the dice `rolls`: the play
/// runs on, and once it has run as long as the ball hangs, and for
/// forty-five frames at least, the ball is through for a hit.
pub open spec fn fielding_ticked(
    pre: GameState,
    post: GameState,
    sounds: Seq<SoundCue>,
    ball: BallInPlay,
    frames_elapsed: u8,
    rolls: FieldingRolls,
) -> bool {
    let now = counted_up(frames_elapsed as int, 255);
    let limit = if ball.hang_time > 45 {
        ball.hang_time as int
    } else {
        45
    };
    if now >= limit {
        let result = hit_when_through(ball, rolls);
        &&& rolls.valid()
        &&& post.fielding_cursor is None
        &&& result_shown(GameState { fielding_cursor: None, ..pre }, post, result)
        &&& result matches PlayResult::Hit(hit) && sounds == seq![
            SoundCue::CheerSingle,
            hit_cue(hit),
        ]
    } else {
        &&& only_stage_moved(pre, post)
        &&& post.pitch_state == (PitchState::Fielding {
            ball_in_play: ball,
            frames_elapsed: now as u8,
        })
        &&& post.message == pre.message
        &&& sounds == Seq::<SoundCue>::empty()
    }
}

/// A ball in play runs one frame.
pub fn tick_fielding(
    state: &mut GameState,
    engine: &GameEngine,
    ball: BallInPlay,
    frames_elapsed: u8,
) -> (sounds: Vec<SoundCue>)
    requires
        old(state).board().at_rest(),
        old(state).board().has_room(),
    ensures
        exists|rolls: FieldingRolls| #[trigger]
            fielding_ticked(*old(state), *final(state), sounds@, ball, frames_elapsed, rolls),
        final(state).board().at_rest(),
{
    let ghost pre = *state;
    let now: u8 = if frames_elapsed < u8::MAX {
        frames_elapsed + 1
    } else {
        u8::MAX
    };
    let limit: u8 = if ball.hang_time > FIELDING_AUTO_RESOLVE_MIN_FRAMES {
        ball.hang_time
    } else {
        FIELDING_AUTO_RESOLVE_MIN_FRAMES
    };
    let mut sounds: Vec<SoundCue> = Vec::new();
    if now >= limit {
        let result = engine.ball_gets_through(&ball);
        let ghost rolls = choose|rolls: FieldingRolls|
            rolls.valid() && result == #[trigger] hit_when_through(ball, rolls);
        sounds.push(SoundCue::CheerSingle);
        state.fielding_cursor = None;
        match process_play_result(state, &result) {
            Some(cheer) => sounds.push(cheer),
            None => {},
        }
        state.pitch_state = PitchState::ShowResult { result, frames_left: RESULT_DISPLAY_FRAMES };
        proof {
            let hit = result->Hit_0;
            assert(sounds@ =~= seq![SoundCue::CheerSingle, hit_cue(hit)]);
            assert(result_shown(GameState { fielding_cursor: None, ..pre }, *state, result));
            assert(fielding_ticked(pre, *state, sounds@, ball, frames_elapsed, rolls));
        }
    } else {
        state.pitch_state = PitchState::Fielding { ball_in_play: ball, frames_elapsed: now };
        proof {
            let rolls = FieldingRolls { catch: 0, split: 1, table: 1 };
            assert(sounds@ =~= Seq::<SoundCue>::empty());
            assert(fielding_ticked(pre, *state, sounds@, ball, frames_elapsed, rolls));
        }
    }
    sounds
}

/// A frame that asks nothing of the outside and counts nothing.
pub open spec fn quiet(
    events: TickEvents,
    count_before: u32,
    count_after: u32,
    hits_before: u8,
    hits_after: u8,
) -> bool {
    &&& events.sounds@.len() == 0
    &&& events.pitch is None
    &&& count_after == count_before
    &&& hits_after == hits_before
}

/// Advances the game by one frame.
///
/// The stage of the pitch decides what the frame does: a clock or countdown
/// runs, and where one runs out the next stage begins. The two stages that
/// roll dice are the end of a swing and the end of an unfielded play; of
/// those the contract states what holds for some valid roll. Nothing happens
/// while the pitcher chooses or aims.
pub fn update_game_state(
    state: &mut GameState,
    engine: &GameEngine,
    input_state: &mut InputState,
    pitch_count: &mut u32,
    inning_hits: &mut u8,
) -> (events: TickEvents)
    requires
        old(state).ready(),
    ensures
        final(state).board().at_rest(),
        match old(state).pitch_state {
            PitchState::PitchClock { frames_left, pitch_type } => {
                &&& clock_ticked(*old(state), *final(state), frames_left, pitch_type)
                &&& *final(input_state) == *old(input_state)
                &&& quiet(
                    events,
                    *old(pitch_count),
                    *final(pitch_count),
                    *old(inning_hits),
                    *final(inning_hits),
                )
            },
            PitchState::BallApproaching { frames_left, ball_position, can_swing, pitch_type } => {
                &&& approach_ticked(*old(state), *final(state), frames_left, can_swing, pitch_type)
                &&& *final(input_state) == *old(input_state)
                &&& quiet(
                    events,
                    *old(pitch_count),
                    *final(pitch_count),
                    *old(inning_hits),
                    *final(inning_hits),
                )
            },
            PitchState::Swinging { frames_left, swing_timing } => {
                &&& *final(input_state) == *old(input_state)
                &&& if counted_down(frames_left as int) == 0 {
                    &&& exists|rolls: PitchRolls, made: Option<BallInPlay>| #[trigger]
                        swing_resolved(
                            *old(state),
                            *final(state),
                            events,
                            swing_timing,
                            *old(pitch_count),
                            rolls,
                            made,
                        )
                    &&& *final(pitch_count) == counted_up(*old(pitch_count) as int, u32::MAX as int)
                    &&& events.pitch matches Some(report) && *final(inning_hits)
                        == if report.result is Hit {
                        counted_up(*old(inning_hits) as int, u8::MAX as int)
                    } else {
                        *old(inning_hits) as int
                    }
                } else {
                    &&& only_stage_moved(*old(state), *final(state))
                    &&& final(state).message == old(state).message
                    &&& final(state).pitch_state == (PitchState::Swinging {
                        frames_left: counted_down(frames_left as int) as u8,
                        swing_timing,
                    })
                    &&& quiet(
                        events,
                        *old(pitch_count),
                        *final(pitch_count),
                        *old(inning_hits),
                        *final(inning_hits),
                    )
                }
            },
            PitchState::Fielding { ball_in_play, frames_elapsed } => {
                &&& exists|rolls: FieldingRolls| #[trigger]
                    fielding_ticked(
                        *old(state),
                        *final(state),
                        events.sounds@,
                        ball_in_play,
                        frames_elapsed,
                        rolls,
                    )
                &&& events.pitch is None
                &&& *final(input_state) == *old(input_state)
                &&& *final(pitch_count) == *old(pitch_count)
                &&& *final(inning_hits) == *old(inning_hits)
            },
            PitchState::ShowResult { result, frames_left } => {
                &&& show_ticked(*old(state), *final(state), result, frames_left)
                &&& *final(input_state) == if counted_down(frames_left as int) == 0 {
                    InputState::released()
                } else {
                    *old(input_state)
                }
                &&& quiet(
                    events,
                    *old(pitch_count),
                    *final(pitch_count),
                    *old(inning_hits),
                    *final(inning_hits),
                )
            },
            PitchState::ChoosePitch | PitchState::Aiming { .. } => {
                &&& *final(state) == *old(state)
                &&& *final(input_state) == *old(input_state)
                &&& quiet(
                    events,
                    *old(pitch_count),
                    *final(pitch_count),
                    *old(inning_hits),
                    *final(inning_hits),
                )
            },
        },
{
    let stage = state.pitch_state;
    match stage {
        PitchState::PitchClock { frames_left, pitch_type } => {
            tick_pitch_clock(state, frames_left, pitch_type);
            let events = TickEvents { sounds: Vec::new(), pitch: None };
            assert(clock_ticked(*old(state), *state, frames_left, pitch_type));
            assert(quiet(events, *old(pitch_count), *pitch_count, *old(inning_hits), *inning_hits));
            events
        },
        PitchState::BallApproaching { frames_left, ball_position: _, can_swing, pitch_type } => {
            tick_ball_approaching(state, frames_left, can_swing, pitch_type);
            let events = TickEvents { sounds: Vec::new(), pitch: None };
            assert(approach_ticked(*old(state), *state, frames_left, can_swing, pitch_type));
            events
        },
        PitchState::Swinging { frames_left, swing_timing } => {
            if frames_left <= 1 {
                let events = resolve_swing(state, engine, swing_timing, pitch_count, inning_hits);
                assert(counted_down(frames_left as int) == 0);
                events
            } else {
                state.pitch_state = PitchState::Swinging {
                    frames_left: frames_left - 1,
                    swing_timing,
                };
                let events = TickEvents { sounds: Vec::new(), pitch: None };
                assert(only_stage_moved(*old(state), *state));
                events
            }
        },
        PitchState::Fielding { ball_in_play, frames_elapsed } => {
            let sounds = tick_fielding(state, engine, ball_in_play, frames_elapsed);
            let events = TickEvents { sounds, pitch: None };
            assert(events.sounds@ == sounds@);
            events
        },
        PitchState::ShowResult { result, frames_left } => {
            tick_show_result(state, input_state, result, frames_left);
            let events = TickEvents { sounds: Vec::new(), pitch: None };
            assert(show_ticked(*old(state), *state, result, frames_left));
            events
        },
        _ => {
            let events = TickEvents { sounds: Vec::new(), pitch: None };
            assert(*state == *old(state));
            events
        },
    }
}

} // verus!
