//! The rules by which a simulated plate appearance is resolved and by which
//! its result moves the runners.

use crate::sim::events::{with_runs, GameEvent, HitType, PlayResult};
use crate::sim::game::{batter_advanced, end_checked, inning_ended, play_added, GameState};
use crate::sim::players::Position;
use crate::sim::random::WildPitchRng;
use crate::sim::roster::{card_of, BattingCard, PitchingCard, Player};
use crate::sim::state::{BaseRunners, Count, GameSituation, InningHalf};
use vstd::prelude::*;
use vstd::string::*;

verus! {

/// The dice of one plate appearance.
#[derive(Debug, Clone, Copy, PartialEq, Eq, Structural)]
pub struct AtBatRolls {
    /// 0 to 999999999: against the chances of a walk, a strikeout and a hit.
    pub play: u32,
    /// 0 to 99999: against the chances of the kinds of hit.
    pub hit: u32,
    /// 1 to 10: against the shares of the kinds of out.
    pub out: u32,
    /// 0 to 3: which infielder makes a groundout.
    pub infielder: u32,
    /// 0 to 2: which outfielder makes a flyout.
    pub outfielder: u32,
    /// 0 to 6: which fielder makes a line-out.
    pub fielder: u32,
}

impl AtBatRolls {
    pub open spec fn valid(self) -> bool {
        &&& self.play <= 999999999
        &&& self.hit <= 99999
        &&& 1 <= self.out <= 10
        &&& self.infielder <= 3
        &&& self.outfielder <= 2
        &&& self.fielder <= 6
    }

    /// Rolls the dice of one plate appearance.
    pub fn draw(rng: &mut WildPitchRng) -> (rolls: AtBatRolls)
        ensures
            rolls.valid(),
    {
        AtBatRolls {
            play: rng.gen_range(0, 999999999),
            hit: rng.gen_range(0, 99999),
            out: rng.gen_range(1, 10),
            infielder: rng.gen_range(0, 3),
            outfielder: rng.gen_range(0, 2),
            fielder: rng.gen_range(0, 6),
        }
    }
}

/// The infielders, in the order in which a roll picks them.
pub open spec fn infield_position(roll: u32) -> Position {
    if roll == 0 {
        Position::FirstBase
    } else if roll == 1 {
        Position::SecondBase
    } else if roll == 2 {
        Position::ThirdBase
    } else {
        Position::Shortstop
    }
}

/// The outfielders, in the order in which a roll picks them.
pub open spec fn outfield_position(roll: u32) -> Position {
    if roll == 0 {
        Position::LeftField
    } else if roll == 1 {
        Position::CenterField
    } else {
        Position::RightField
    }
}

/// The fielders behind the pitcher and in front of the catcher, in the order
/// in which a roll picks them.
pub open spec fn defensive_position(roll: u32) -> Position {
    if roll <= 3 {
        infield_position(roll)
    } else {
        outfield_position((roll - 4) as u32)
    }
}

/// The chance of a walk, in parts of a thousand million: eight in a hundred,
/// less for a pitcher with control, more for a patient batter.
pub open spec fn walk_chance(control: int, patience: int) -> int {
    80 * (1000 - control) * (1000 + patience)
}

/// The chance of a strikeout, in parts of a thousand million: twenty in a
/// hundred, scaled by the pitcher's control and by the batter's failure to
/// make contact.
pub open spec fn strikeout_chance(control: int, contact: int) -> int {
    200 * control * (1000 - contact)
}

/// The chance of a hit, in parts of a thousand million: twenty-five in a
/// hundred, scaled by the batter's contact and the pitcher's lack of
/// control.
pub open spec fn hit_chance(contact: int, control: int) -> int {
    250 * contact * (1000 - control)
}

/// The kind of a hit: a home run for a roll under five hundredths of the
/// batter's power, a double under fifteen, a triple under eighteen, else a
/// single. The roll counts parts of a hundred thousand.
pub open spec fn hit_for(power: int, roll: int) -> PlayResult {
    if roll < power * 5 {
        PlayResult::Hit(HitType::HomeRun)
    } else if roll < power * 15 {
        PlayResult::Hit(HitType::Double(None))
    } else if roll < power * 18 {
        PlayResult::Hit(HitType::Triple(None))
    } else {
        PlayResult::Hit(HitType::Single(None))
    }
}

/// The kind of an out: four in ten on the ground to an infielder, four in
/// ten in the air to an outfielder, two in ten on a line to any fielder.
pub open spec fn out_for(r: AtBatRolls) -> PlayResult {
    if r.out <= 4 {
        PlayResult::Hit(HitType::GroundOut(infield_position(r.infielder)))
    } else if r.out <= 8 {
        PlayResult::Hit(HitType::FlyOut(outfield_position(r.outfielder)))
    } else {
        PlayResult::Hit(HitType::LineOut(defensive_position(r.fielder)))
    }
}

/// What a plate appearance comes to.
pub open spec fn at_bat_result(b: BattingCard, p: PitchingCard, r: AtBatRolls) -> PlayResult {
    let walk = walk_chance(p.control as int, b.patience as int);
    let strikeout = strikeout_chance(p.control as int, b.contact as int);
    let hit = hit_chance(b.contact as int, p.control as int);
    if r.play < walk {
        PlayResult::Walk
    } else if r.play < walk + strikeout {
        PlayResult::Strikeout
    } else if r.play < walk + strikeout + hit {
        hit_for(b.power as int, r.hit as int)
    } else {
        out_for(r)
    }
}

pub fn pick_infielder(roll: u32) -> (position: Position)
    ensures
        position == infield_position(roll),
{
    match roll {
        0 => Position::FirstBase,
        1 => Position::SecondBase,
        2 => Position::ThirdBase,
        _ => Position::Shortstop,
    }
}

pub fn pick_outfielder(roll: u32) -> (position: Position)
    ensures
        position == outfield_position(roll),
{
    match roll {
        0 => Position::LeftField,
        1 => Position::CenterField,
        _ => Position::RightField,
    }
}

pub fn pick_fielder(roll: u32) -> (position: Position)
    ensures
        position == defensive_position(roll),
{
    if roll <= 3 {
        pick_infielder(roll)
    } else {
        pick_outfielder(roll - 4)
    }
}

/// The kind of a hit by the batter's power.
pub fn hit_type_by(power: u32, roll: u32) -> (result: PlayResult)
    ensures
        result == hit_for(power as int, roll as int),
{
    let power = power as u64;
    let roll = roll as u64;
    if roll < power * 5 {
        PlayResult::Hit(HitType::HomeRun)
    } else if roll < power * 15 {
        PlayResult::Hit(HitType::Double(None))
    } else if roll < power * 18 {
        PlayResult::Hit(HitType::Triple(None))
    } else {
        PlayResult::Hit(HitType::Single(None))
    }
}

/// The kind of an out.
pub fn out_type_by(rolls: &AtBatRolls) -> (result: PlayResult)
    ensures
        result == out_for(*rolls),
{
    if rolls.out <= 4 {
        PlayResult::Hit(HitType::GroundOut(pick_infielder(rolls.infielder)))
    } else if rolls.out <= 8 {
        PlayResult::Hit(HitType::FlyOut(pick_outfielder(rolls.outfielder)))
    } else {
        PlayResult::Hit(HitType::LineOut(pick_fielder(rolls.fielder)))
    }
}

/// Resolves a plate appearance from the two players and the dice.
pub fn resolve_at_bat(batting: &BattingCard, pitching: &PitchingCard, rolls: &AtBatRolls) -> (result:
    PlayResult)
    ensures
        result == at_bat_result(*batting, *pitching, *rolls),
{
    let control = pitching.control as i128;
    let contact = batting.contact as i128;
    let patience = batting.patience as i128;
    let play = rolls.play as i128;
    assert(-0x1_0000_0000 * 0x1_0000_03e8 <= (1000 - control) * (1000 + patience) <= 1000
        * 0x1_0000_03e8) by (nonlinear_arith)
        requires
            0 <= control <= 0xffff_ffff,
            0 <= patience <= 0xffff_ffff,
    ;
    assert(-0x1_0000_0000 * 0x1_0000_0000 <= control * (1000 - contact) <= 1000 * 0x1_0000_0000)
        by (nonlinear_arith)
        requires
            0 <= control <= 0xffff_ffff,
            0 <= contact <= 0xffff_ffff,
    ;
    assert(-0x1_0000_0000 * 0x1_0000_0000 <= contact * (1000 - control) <= 1000 * 0x1_0000_0000)
        by (nonlinear_arith)
        requires
            0 <= control <= 0xffff_ffff,
            0 <= contact <= 0xffff_ffff,
    ;
    let walk: i128 = 80 * ((1000 - control) * (1000 + patience));
    let strikeout: i128 = 200 * (control * (1000 - contact));
    let hit: i128 = 250 * (contact * (1000 - control));
    assert(walk == walk_chance(control as int, patience as int)) by (nonlinear_arith)
        requires
            walk == 80 * ((1000 - control) * (1000 + patience)),
    ;
    assert(strikeout == strikeout_chance(control as int, contact as int)) by (nonlinear_arith)
        requires
            strikeout == 200 * (control * (1000 - contact)),
    ;
    assert(hit == hit_chance(contact as int, control as int)) by (nonlinear_arith)
        requires
            hit == 250 * (contact * (1000 - control)),
    ;
    if play < walk {
        PlayResult::Walk
    } else if play < walk + strikeout {
        PlayResult::Strikeout
    } else if play < walk + strikeout + hit {
        hit_type_by(batting.power, rolls.hit)
    } else {
        out_type_by(rolls)
    }
}

/// Whether a result ends the plate appearance: anything but a ball, a strike
/// or a foul.
pub fn ends_at_bat(result: &PlayResult) -> (over: bool)
    ensures
        over == !(*result is Ball || *result is Strike || *result is FoulBall),
{
    !matches!(result, PlayResult::Ball | PlayResult::Strike | PlayResult::FoulBall)
}

fn occupied(runner: &Option<String>) -> (n: u8)
    ensures
        n == if *runner is Some {
            1int
        } else {
            0
        },
{
    if runner.is_some() {
        1
    } else {
        0
    }
}

/// How many runners are on base.
pub open spec fn on_base(runners: BaseRunners) -> int {
    (if runners.first is Some {
        1int
    } else {
        0
    }) + (if runners.second is Some {
        1int
    } else {
        0
    }) + (if runners.third is Some {
        1int
    } else {
        0
    })
}

/// The runners after a walk to `batter`: the batter takes first, and the
/// runners on first and second move up one base each. A runner on third
/// holds unless the runner from second takes the base from him.
pub open spec fn runners_after_walk(runners: BaseRunners, batter: String) -> BaseRunners {
    BaseRunners {
        first: Some(batter),
        second: runners.first,
        third: if runners.second is Some {
            runners.second
        } else {
            runners.third
        },
    }
}

/// The runners after a hit by `batter`: on a single everyone moves up one
/// base, on a double two, and a triple or a home run clears the bases.
pub open spec fn runners_after_hit(runners: BaseRunners, hit: HitType, batter: String) -> BaseRunners {
    match hit {
        HitType::Single(_) => BaseRunners {
            first: Some(batter),
            second: runners.first,
            third: runners.second,
        },
        HitType::Double(_) => BaseRunners {
            first: None,
            second: Some(batter),
            third: runners.first,
        },
        HitType::Triple(_) => BaseRunners { first: None, second: None, third: Some(batter) },
        HitType::HomeRun => BaseRunners { first: None, second: None, third: None },
        _ => runners,
    }
}

/// The runs that a hit brings home.
pub open spec fn runs_on_hit(runners: BaseRunners, hit: HitType) -> int {
    match hit {
        HitType::Single(_) => if runners.third is Some {
            1
        } else {
            0
        },
        HitType::Double(_) => (if runners.third is Some {
            1int
        } else {
            0
        }) + (if runners.second is Some {
            1int
        } else {
            0
        }),
        HitType::Triple(_) => on_base(runners),
        HitType::HomeRun => on_base(runners) + 1,
        _ => 0,
    }
}

/// A hit or a walk loses no runner: those who score and those left on base
/// are the runners before and the batter.
pub proof fn lemma_hit_conserves_runners(runners: BaseRunners, hit: HitType, batter: String)
    requires
        !hit.retires_batter(),
    ensures
        runs_on_hit(runners, hit) + on_base(runners_after_hit(runners, hit, batter)) == on_base(
            runners,
        ) + 1,
        0 <= runs_on_hit(runners, hit) <= 4,
{
}

/// Puts the batter on first after a walk or a hit by pitch and moves the
/// runners up. No run is counted.
pub fn move_runners_on_walk(situation: &mut GameSituation)
    ensures
        final(situation).runners == runners_after_walk(
            old(situation).runners,
            old(situation).current_batter_id,
        ),
        final(situation).inning == old(situation).inning,
        final(situation).inning_half == old(situation).inning_half,
        final(situation).outs == old(situation).outs,
        final(situation).count == old(situation).count,
        final(situation).current_batter_id == old(situation).current_batter_id,
        final(situation).current_pitcher_id == old(situation).current_pitcher_id,
        final(situation).batter_number == old(situation).batter_number,
{
    let batter_id = situation.current_batter_id.clone();
    if situation.runners.is_bases_loaded() {
        situation.runners.third = None;
    }
    let second = situation.runners.second.take();
    if second.is_some() {
        situation.runners.third = second;
    }
    let first = situation.runners.first.take();
    if first.is_some() {
        situation.runners.second = first;
    }
    situation.runners.first = Some(batter_id);
}

/// Moves the runners for a batted ball and returns the runs that score. A
/// batted ball that is caught or fielded for an out makes an out instead,
/// and clears the count.
pub fn move_runners_on_hit(hit_type: &HitType, situation: &mut GameSituation) -> (runs_scored:
    u8)
    requires
        hit_type.retires_batter() ==> old(situation).outs < u8::MAX,
    ensures
        runs_scored == runs_on_hit(old(situation).runners, *hit_type),
        final(situation).runners == runners_after_hit(
            old(situation).runners,
            *hit_type,
            old(situation).current_batter_id,
        ),
        final(situation).outs == old(situation).outs + if hit_type.retires_batter() {
            1int
        } else {
            0
        },
        final(situation).count == if hit_type.retires_batter() {
            Count { balls: 0, strikes: 0 }
        } else {
            old(situation).count
        },
        final(situation).inning == old(situation).inning,
        final(situation).inning_half == old(situation).inning_half,
        final(situation).current_batter_id == old(situation).current_batter_id,
        final(situation).current_pitcher_id == old(situation).current_pitcher_id,
        final(situation).batter_number == old(situation).batter_number,
{
    let batter_id = situation.current_batter_id.clone();
    let on_first = occupied(&situation.runners.first);
    let on_second = occupied(&situation.runners.second);
    let on_third = occupied(&situation.runners.third);
    match hit_type {
        HitType::Single(_) => {
            let second = situation.runners.second.take();
            situation.runners.third = second;
            let first = situation.runners.first.take();
            situation.runners.second = first;
            situation.runners.first = Some(batter_id);
            on_third
        },
        HitType::Double(_) => {
            let first = situation.runners.first.take();
            situation.runners.third = first;
            situation.runners.second = Some(batter_id);
            on_third + on_second
        },
        HitType::Triple(_) => {
            situation.runners.clear();
            situation.runners.third = Some(batter_id);
            on_third + on_second + on_first
        },
        HitType::HomeRun => {
            situation.runners.clear();
            1 + on_first + on_second + on_third
        },
        HitType::GroundOut(_) | HitType::FlyOut(_) | HitType::LineOut(_) | HitType::PopOut(_) => {
            situation.add_out();
            0
        },
    }
}


/// The situation once a play has moved the runners and made its outs.
pub open spec fn situation_after(s: GameSituation, result: PlayResult) -> GameSituation {
    match result {
        PlayResult::Walk | PlayResult::HitByPitch => GameSituation {
            runners: runners_after_walk(s.runners, s.current_batter_id),
            ..s
        },
        PlayResult::Hit(hit) => if hit.retires_batter() {
            GameSituation {
                outs: (s.outs + 1) as u8,
                count: Count { balls: 0, strikes: 0 },
                ..s
            }
        } else {
            GameSituation {
                runners: runners_after_hit(s.runners, hit, s.current_batter_id),
                ..s
            }
        },
        _ => if result.makes_out() {
            GameSituation {
                outs: (s.outs + 1) as u8,
                count: Count { balls: 0, strikes: 0 },
                ..s
            }
        } else {
            s
        },
    }
}

/// The runs that a play is credited with: those that a hit brings home, and
/// for any other play those that the event came with.
pub open spec fn runs_credited(s: GameSituation, result: PlayResult, given: u8) -> int {
    match result {
        PlayResult::Hit(hit) => runs_on_hit(s.runners, hit),
        _ => given as int,
    }
}

/// The play has moved the runners, made its outs and put its runs on the
/// board of the side at bat.
pub open spec fn play_scored(pre: GameState, post: GameState, result: PlayResult, runs: nat) -> bool {
    &&& post.situation == situation_after(pre.situation, result)
    &&& post.score.lines() == pre.score.lines().runs_added(
        pre.situation.inning_half == InningHalf::Bottom,
        pre.situation.inning as int,
        runs,
    )
    &&& post.score.wf()
    &&& post.same_fixture(&pre)
    &&& post.phase == pre.phase
    &&& post.play_by_play == pre.play_by_play
}

/// What a play does to a game, step by step: the play is scored and written
/// down; if it ends the plate appearance the next batter comes up; if the
/// side is retired the half inning ends; and the end of the game is looked
/// for. The states between the steps are `scored`, `written`, `called` and
/// `turned`.
pub open spec fn play_processed(
    pre: GameState,
    post: GameState,
    before: GameEvent,
    after: GameEvent,
    batter_name: Seq<char>,
    scored: GameState,
    written: GameState,
    called: GameState,
    turned: GameState,
) -> bool {
    let result = before.result;
    let runs = runs_credited(pre.situation, result, before.runs_scored);
    &&& after.result == result
    &&& after.inning == before.inning
    &&& after.inning_half == before.inning_half
    &&& after.outs == before.outs
    &&& after.batter_id == before.batter_id
    &&& after.pitcher_id == before.pitcher_id
    &&& after.base_running == before.base_running
    &&& after.manager_actions == before.manager_actions
    &&& after.runs_scored == runs
    &&& after.description@ == match result {
        PlayResult::Walk | PlayResult::Strikeout | PlayResult::HitByPitch => result.told(
            batter_name,
        ),
        _ => if before.description@.len() > 0 {
            before.description@
        } else {
            with_runs(result.told(batter_name), runs as u8)
        },
    }
    &&& play_scored(pre, scored, result, runs as nat)
    &&& play_added(scored, written, after.description@)
    &&& if result is Ball || result is Strike || result is FoulBall {
        called == written
    } else {
        batter_advanced(written, called)
    }
    &&& if called.situation.outs >= 3 {
        inning_ended(called, turned)
    } else {
        turned == called
    }
    &&& end_checked(turned, post)
}

/// Puts runs on the board of one side, one by one.
fn credit_runs(game_state: &mut GameState, is_home_team: bool, inning: u8, runs: u8)
    requires
        inning >= 1,
        old(game_state).score.wf(),
        old(game_state).score.visitor <= u32::MAX - 255,
        old(game_state).score.home <= u32::MAX - 255,
    ensures
        final(game_state).score.lines() == old(game_state).score.lines().runs_added(
            is_home_team,
            inning as int,
            runs as nat,
        ),
        final(game_state).score.wf(),
        final(game_state).situation == old(game_state).situation,
        final(game_state).same_fixture(old(game_state)),
        final(game_state).phase == old(game_state).phase,
        final(game_state).play_by_play == old(game_state).play_by_play,
{
    let mut done: u8 = 0;
    while done < runs
        invariant
            done <= runs,
            inning >= 1,
            game_state.score.wf(),
            game_state.score.visitor <= old(game_state).score.visitor + done,
            game_state.score.home <= old(game_state).score.home + done,
            old(game_state).score.visitor <= u32::MAX - 255,
            old(game_state).score.home <= u32::MAX - 255,
            game_state.score.lines() == old(game_state).score.lines().runs_added(
                is_home_team,
                inning as int,
                done as nat,
            ),
            game_state.situation == old(game_state).situation,
            game_state.same_fixture(old(game_state)),
            game_state.phase == old(game_state).phase,
            game_state.play_by_play == old(game_state).play_by_play,
        decreases runs - done,
    {
        game_state.score.add_run(is_home_team, inning);
        done = done + 1;
    }
}

/// Carries a play out on the game: runners, outs, score, play-by-play, the
/// next batter, the end of the half inning and the end of the game. The
/// event is given its description and its runs. Nothing happens if the
/// batter is not among the players of the side at bat.
pub fn carry_out_play(event: &mut GameEvent, game_state: &mut GameState) -> (done: Result<
    (),
    String,
>)
    requires
        old(game_state).ready(),
    ensures
        match card_of(
            old(game_state).batting().roster.players@,
            old(game_state).situation.current_batter_id@,
            0,
        ) {
            Some(i) => {
                &&& done is Ok
                &&& exists|
                    scored: GameState,
                    written: GameState,
                    called: GameState,
                    turned: GameState,
                | #[trigger]
                    play_processed(
                        *old(game_state),
                        *final(game_state),
                        *old(event),
                        *final(event),
                        old(game_state).batting().roster.players@[i].name@,
                        scored,
                        written,
                        called,
                        turned,
                    )
            },
            None => {
                &&& done matches Err(why)
                &&& why@ == "Current batter not found"@
                &&& *final(game_state) == *old(game_state)
                &&& *final(event) == *old(event)
            },
        },
{
    let ghost pre = *game_state;
    let ghost before = *event;
    let batter_name: String = {
        let team = game_state.current_batting_team();
        match team.get_player(game_state.situation.current_batter_id.as_str()) {
            Some(player) => player.name.clone(),
            None => {
                return Err(String::from_str("Current batter not found"));
            },
        }
    };
    let result = event.result;
    let is_home_team = !game_state.situation.is_top_inning();
    let inning = game_state.situation.inning;
    match result {
        PlayResult::Walk => {
            move_runners_on_walk(&mut game_state.situation);
            let mut text = batter_name.clone();
            text.append(" walks");
            event.description = text;
        },
        PlayResult::Strikeout => {
            game_state.situation.add_out();
            let mut text = batter_name.clone();
            text.append(" strikes out");
            event.description = text;
        },
        PlayResult::Hit(hit_type) => {
            event.runs_scored = move_runners_on_hit(&hit_type, &mut game_state.situation);
            event.description = event.format_play_description(batter_name.as_str());
        },
        PlayResult::HitByPitch => {
            move_runners_on_walk(&mut game_state.situation);
            let mut text = batter_name.clone();
            text.append(" hit by pitch");
            event.description = text;
        },
        _ => {
            if event.is_out() {
                game_state.situation.add_out();
            }
            event.description = event.format_play_description(batter_name.as_str());
        },
    }
    assert(game_state.situation == situation_after(pre.situation, result));
    credit_runs(game_state, is_home_team, inning, event.runs_scored);
    let ghost scored = *game_state;
    game_state.add_play(event.description.clone());
    let ghost written = *game_state;
    if ends_at_bat(&result) {
        game_state.advance_to_next_batter();
    }
    let ghost called = *game_state;
    if game_state.situation.is_inning_over() {
        game_state.end_inning();
    }
    let ghost turned = *game_state;
    game_state.check_game_end();
    assert(play_processed(
        pre,
        *game_state,
        before,
        *event,
        batter_name@,
        scored,
        written,
        called,
        turned,
    ));
    Ok(())
}

/// What a plate appearance is resolved from: the batter and the pitcher as
/// the two sides list them, with what they bring.
pub open spec fn opponents(game: GameState) -> Option<(BattingCard, PitchingCard)> {
    match (
        card_of(game.batting().roster.players@, game.situation.current_batter_id@, 0),
        card_of(game.pitching().roster.players@, game.situation.current_pitcher_id@, 0),
    ) {
        (Some(b), Some(p)) => match (
            game.batting().roster.players@[b].batting,
            game.pitching().roster.players@[p].pitching,
        ) {
            (Some(batting), Some(pitching)) => Some((batting, pitching)),
            _ => None,
        },
        _ => None,
    }
}

/// Why a plate appearance cannot be played.
pub open spec fn missing(game: GameState) -> Seq<char> {
    match card_of(game.batting().roster.players@, game.situation.current_batter_id@, 0) {
        None => "Current batter not found"@,
        Some(b) => match card_of(
            game.pitching().roster.players@,
            game.situation.current_pitcher_id@,
            0,
        ) {
            None => "Current pitcher not found"@,
            Some(p) => if game.batting().roster.players@[b].batting is None {
                "Current batter does not bat"@
            } else {
                "Current pitcher does not pitch"@
            },
        },
    }
}

/// The engine of the simulation: the rules above, with a random number
/// generator of its own.
pub struct GameEngine {
    rng: WildPitchRng,
}

impl GameEngine {
    /// An engine whose generator is seeded by the operating system.
    pub fn new() -> Self {
        Self { rng: WildPitchRng::new() }
    }

    /// An engine that plays the same game for the same seed.
    pub fn with_seed(seed: u64) -> Self {
        Self { rng: WildPitchRng::with_seed(seed) }
    }

    /// The batter at the plate, as the side at bat lists him.
    pub fn get_current_batter<'a>(&self, game_state: &'a GameState) -> (found: Result<
        &'a Player,
        String,
    >)
        ensures
            match card_of(
                game_state.batting().roster.players@,
                game_state.situation.current_batter_id@,
                0,
            ) {
                Some(i) => 0 <= i < game_state.batting().roster.players@.len() && found == Ok::<
                    &Player,
                    String,
                >(&game_state.batting().roster.players@[i]),
                None => found matches Err(why) && why@ == "Current batter not found"@,
            },
    {
        match game_state.current_batting_team().get_player(
            game_state.situation.current_batter_id.as_str(),
        ) {
            Some(player) => Ok(player),
            None => Err(String::from_str("Current batter not found")),
        }
    }

    /// The pitcher on the mound, as the side in the field lists him.
    pub fn get_current_pitcher<'a>(&self, game_state: &'a GameState) -> (found: Result<
        &'a Player,
        String,
    >)
        ensures
            match card_of(
                game_state.pitching().roster.players@,
                game_state.situation.current_pitcher_id@,
                0,
            ) {
                Some(i) => 0 <= i < game_state.pitching().roster.players@.len() && found == Ok::<
                    &Player,
                    String,
                >(&game_state.pitching().roster.players@[i]),
                None => found matches Err(why) && why@ == "Current pitcher not found"@,
            },
    {
        match game_state.current_pitching_team().get_player(
            game_state.situation.current_pitcher_id.as_str(),
        ) {
            Some(player) => Ok(player),
            None => Err(String::from_str("Current pitcher not found")),
        }
    }

    /// Resolves a plate appearance between a batter and a pitcher. Whatever
    /// the dice, the result is one that [`at_bat_result`] gives for some
    /// valid roll.
    pub fn determine_play_result(&mut self, batting: &BattingCard, pitching: &PitchingCard) -> (result:
        PlayResult)
        ensures
            exists|rolls: AtBatRolls|
                rolls.valid() && result == #[trigger] at_bat_result(*batting, *pitching, rolls),
    {
        let rolls = AtBatRolls::draw(&mut self.rng);
        resolve_at_bat(batting, pitching, &rolls)
    }

    /// Draws the kind of a hit for a batter's power, in thousandths.
    pub fn determine_hit_type(&mut self, power: u32) -> (result: PlayResult)
        ensures
            exists|roll: int| 0 <= roll <= 99999 && result == #[trigger] hit_for(power as int, roll),
    {
        let roll = self.rng.gen_range(0, 99999);
        let result = hit_type_by(power, roll);
        assert(result == hit_for(power as int, roll as int));
        result
    }

    /// Draws the kind of an out and the fielder who makes it.
    pub fn determine_out_type(&mut self) -> (result: PlayResult)
        ensures
            exists|rolls: AtBatRolls| rolls.valid() && result == #[trigger] out_for(rolls),
    {
        let rolls = AtBatRolls::draw(&mut self.rng);
        out_type_by(&rolls)
    }

    /// Picks an infielder at random.
    pub fn random_infield_position(&mut self) -> (position: Position)
        ensures
            exists|roll: u32| roll <= 3 && position == #[trigger] infield_position(roll),
    {
        pick_infielder(self.rng.gen_range(0, 3))
    }

    /// Picks an outfielder at random.
    pub fn random_outfield_position(&mut self) -> (position: Position)
        ensures
            exists|roll: u32| roll <= 2 && position == #[trigger] outfield_position(roll),
    {
        pick_outfielder(self.rng.gen_range(0, 2))
    }

    /// Picks one of the seven fielders behind the pitcher at random.
    pub fn random_defensive_position(&mut self) -> (position: Position)
        ensures
            exists|roll: u32| roll <= 6 && position == #[trigger] defensive_position(roll),
    {
        pick_fielder(self.rng.gen_range(0, 6))
    }

    /// Whether a result ends the plate appearance.
    pub fn is_at_bat_over(&self, result: &PlayResult) -> (over: bool)
        ensures
            over == !(*result is Ball || *result is Strike || *result is FoulBall),
    {
        ends_at_bat(result)
    }

    /// Puts the batter on first after a walk and moves the runners up.
    pub fn process_walk(&self, game_state: &mut GameState)
        ensures
            final(game_state).situation == (GameSituation {
                runners: runners_after_walk(
                    old(game_state).situation.runners,
                    old(game_state).situation.current_batter_id,
                ),
                ..old(game_state).situation
            }),
            final(game_state).same_fixture(old(game_state)),
            final(game_state).score == old(game_state).score,
            final(game_state).phase == old(game_state).phase,
            final(game_state).play_by_play == old(game_state).play_by_play,
    {
        move_runners_on_walk(&mut game_state.situation);
    }

    /// Moves the runners for a batted ball and returns the runs that score;
    /// a batted ball that is fielded for an out makes an out instead.
    pub fn process_hit(&self, hit_type: &HitType, game_state: &mut GameState) -> (runs_scored: u8)
        requires
            hit_type.retires_batter() ==> old(game_state).situation.outs < u8::MAX,
        ensures
            runs_scored == runs_on_hit(old(game_state).situation.runners, *hit_type),
            final(game_state).situation == situation_after(
                old(game_state).situation,
                PlayResult::Hit(*hit_type),
            ),
            final(game_state).same_fixture(old(game_state)),
            final(game_state).score == old(game_state).score,
            final(game_state).phase == old(game_state).phase,
            final(game_state).play_by_play == old(game_state).play_by_play,
    {
        move_runners_on_hit(hit_type, &mut game_state.situation)
    }

    /// Carries a play out on the game (see [`carry_out_play`]).
    pub fn process_play_result(&mut self, event: &mut GameEvent, game_state: &mut GameState) -> (done:
        Result<(), String>)
        requires
            old(game_state).ready(),
        ensures
            match card_of(
                old(game_state).batting().roster.players@,
                old(game_state).situation.current_batter_id@,
                0,
            ) {
                Some(i) => {
                    &&& done is Ok
                    &&& exists|
                        scored: GameState,
                        written: GameState,
                        called: GameState,
                        turned: GameState,
                    | #[trigger]
                        play_processed(
                            *old(game_state),
                            *final(game_state),
                            *old(event),
                            *final(event),
                            old(game_state).batting().roster.players@[i].name@,
                            scored,
                            written,
                            called,
                            turned,
                        )
                },
                None => {
                    &&& done matches Err(why)
                    &&& why@ == "Current batter not found"@
                    &&& *final(game_state) == *old(game_state)
                    &&& *final(event) == *old(event)
                },
            },
    {
        carry_out_play(event, game_state)
    }

    /// Plays one plate appearance: the batter at the plate against the pitcher
    /// on the mound. Whatever the dice, the result is one that
    /// [`at_bat_result`] gives for some valid roll, and it is carried out as
    /// [`play_processed`] says. Without a batter who bats or a pitcher who
    /// pitches nothing is played.
    pub fn simulate_at_bat(&mut self, game_state: &mut GameState) -> (played: Result<
        GameEvent,
        String,
    >)
        requires
            old(game_state).ready(),
        ensures
            match opponents(*old(game_state)) {
                Some((batting, pitching)) => {
                    &&& played matches Ok(event)
                    &&& exists|rolls: AtBatRolls|
                        rolls.valid() && event.result == #[trigger] at_bat_result(
                            batting,
                            pitching,
                            rolls,
                        )
                    &&& event.inning == old(game_state).situation.inning
                    &&& event.inning_half == old(game_state).situation.inning_half
                    &&& event.outs == old(game_state).situation.outs
                    &&& event.batter_id == old(game_state).situation.current_batter_id
                    &&& event.pitcher_id == old(game_state).situation.current_pitcher_id
                    &&& exists|
                        before: GameEvent,
                        name: Seq<char>,
                        scored: GameState,
                        written: GameState,
                        called: GameState,
                        turned: GameState,
                    |
                        before.runs_scored == 0 && before.description@.len() == 0 && #[trigger]
                        play_processed(
                            *old(game_state),
                            *final(game_state),
                            before,
                            event,
                            name,
                            scored,
                            written,
                            called,
                            turned,
                        )
                },
                None => {
                    &&& played matches Err(why)
                    &&& why@ == missing(*old(game_state))
                    &&& *final(game_state) == *old(game_state)
                },
            },
    {
        let batter_id = game_state.situation.current_batter_id.clone();
        let pitcher_id = game_state.situation.current_pitcher_id.clone();
        let batting: Option<BattingCard> = match game_state.current_batting_team().get_player(
            batter_id.as_str(),
        ) {
            Some(player) => player.batting,
            None => {
                return Err(String::from_str("Current batter not found"));
            },
        };
        let pitching: Option<PitchingCard> = match game_state.current_pitching_team().get_player(
            pitcher_id.as_str(),
        ) {
            Some(player) => player.pitching,
            None => {
                return Err(String::from_str("Current pitcher not found"));
            },
        };
        let batting = match batting {
            Some(card) => card,
            None => {
                return Err(String::from_str("Current batter does not bat"));
            },
        };
        let pitching = match pitching {
            Some(card) => card,
            None => {
                return Err(String::from_str("Current pitcher does not pitch"));
            },
        };
        let play_result = self.determine_play_result(&batting, &pitching);
        let mut event = GameEvent::new(
            game_state.situation.inning,
            game_state.situation.inning_half,
            game_state.situation.outs,
            batter_id,
            pitcher_id,
            play_result,
        );
        let ghost pre = *game_state;
        let ghost before = event;
        match carry_out_play(&mut event, game_state) {
            Ok(_) => {
                proof {
                    let b = card_of(pre.batting().roster.players@, pre.situation.current_batter_id@, 0)->0;
                    let name = pre.batting().roster.players@[b].name@;
                    let (scored, written, called, turned) = choose|
                        scored: GameState,
                        written: GameState,
                        called: GameState,
                        turned: GameState,
                    | #[trigger]
                        play_processed(
                            pre,
                            *game_state,
                            before,
                            event,
                            name,
                            scored,
                            written,
                            called,
                            turned,
                        );
                    assert(before.runs_scored == 0 && before.description@.len() == 0 && play_processed(
                        pre,
                        *game_state,
                        before,
                        event,
                        name,
                        scored,
                        written,
                        called,
                        turned,
                    ));
                    assert(exists|
                        before: GameEvent,
                        name: Seq<char>,
                        scored: GameState,
                        written: GameState,
                        called: GameState,
                        turned: GameState,
                    |
                        before.runs_scored == 0 && before.description@.len() == 0 && #[trigger]
                        play_processed(
                            pre,
                            *game_state,
                            before,
                            event,
                            name,
                            scored,
                            written,
                            called,
                            turned,
                        ));
                    assert(exists|rolls: AtBatRolls|
                        rolls.valid() && event.result == #[trigger] at_bat_result(
                            batting,
                            pitching,
                            rolls,
                        ));
                }
                let out: Result<GameEvent, String> = Ok(event);
                assert(out matches Ok(e) && e == event);
                assert(opponents(pre) matches Some((b, p)) && b == batting && p == pitching);
                assert(event.inning == pre.situation.inning);
                assert(event.inning_half == pre.situation.inning_half);
                assert(event.outs == pre.situation.outs);
                assert(event.batter_id == pre.situation.current_batter_id);
                assert(event.pitcher_id == pre.situation.current_pitcher_id);
                out
            },
            Err(why) => Err(why),
        }
    }
}

} // verus!
