//! The resolvers: what a pitch comes to, what ball a swing puts in play, and
//! whether the fielder gets to it.
//!
//! Every resolver comes in two layers. The inner one is a function of its
//! inputs and of the dice handed to it, with an exact contract. The outer one
//! rolls the dice and calls the inner one.

use crate::chance::roll_between;
use crate::game::constants::{
    ADJACENT_BATTER_SKILL_MULTIPLIER, ADJACENT_PITCHER_SKILL_MULTIPLIER,
    BATTER_SKILL_BONUS_MULTIPLIER, CONTACT_EXCELLENT_MIN, CONTACT_EXCEPTIONAL_MIN,
    CONTACT_GOOD_MIN, CONTACT_GREAT_MIN, CONTACT_QUALITY_MAX,
    CONTACT_WEAK_MIN, DEFAULT_GROUNDBALL_TENDENCY, DEFAULT_HOME_RUN_CHANCE,
    FIELDING_CHANCE_SCALE, FIELDING_MIN_SUCCESS, FIELDING_SPEED_THRESHOLD, FIELDING_SUCCESS_FLYBALL,
    FIELDING_SUCCESS_GROUNDER, FIELDING_SUCCESS_LINEDRIVE, FIELDING_SUCCESS_POPFLY,
    FIELDING_TIMING_GOOD_THRESHOLD, FIELDING_TIMING_WINDOW, HOME_RUN_CHANCE_CAP,
    PITCHER_SKILL_PENALTY_MULTIPLIER, TIMING_MULTIPLIER_OFF, TIMING_MULTIPLIER_PERFECT,
};
use crate::game::state::{
    BallInPlay, BallType, FieldDirection, HitType, OutType, PitchLocation, PlayResult,
    SwingTiming,
};
use crate::team::{owned, Player};
use vstd::arithmetic::mul::lemma_mul_upper_bound;
use vstd::prelude::*;

verus! {

/// One kind of pitch on offer.
#[derive(Debug, Clone, Copy)]
pub struct PitchType {
    pub name: &'static str,
    /// Miles per hour.
    pub speed: u8,
    pub break_amount: i8,
}

pub struct GameEngine {
    pub pitch_types: Vec<PitchType>,
}

/// How a swing's aim relates to where the pitch went.
#[derive(Debug, Clone, Copy, PartialEq, Eq, Structural)]
pub enum LocationMatch {
    Exact,
    Adjacent,
    Miss,
}

/// Two cells are adjacent when they share a side.
pub open spec fn adjacent(a: PitchLocation, b: PitchLocation) -> bool {
    let dr = if a.row() >= b.row() {
        a.row() - b.row()
    } else {
        b.row() - a.row()
    };
    let dc = if a.col() >= b.col() {
        a.col() - b.col()
    } else {
        b.col() - a.col()
    };
    dr + dc == 1
}

/// The tier of a swing: on the pitch, next to it, or neither.
pub open spec fn location_match(pitch: PitchLocation, swing: PitchLocation) -> LocationMatch {
    if pitch == swing {
        LocationMatch::Exact
    } else if adjacent(pitch, swing) {
        LocationMatch::Adjacent
    } else {
        LocationMatch::Miss
    }
}

/// Adjacency is symmetric, and no cell is adjacent to itself: an exact match
/// is never also an adjacent one.
pub proof fn lemma_adjacency(a: PitchLocation, b: PitchLocation)
    ensures
        adjacent(a, b) == adjacent(b, a),
        !adjacent(a, a),
        a == b ==> !adjacent(a, b),
        adjacent(a, b) ==> location_match(a, b) == LocationMatch::Adjacent,
{
}

/// What the resolvers read of the two players, after a missing player has
/// been replaced by neutral values.
#[derive(Debug, Clone, Copy, PartialEq, Eq, Structural)]
pub struct Matchup {
    /// The batter's barrel rate, in tenths of a percent; 0 without a batter.
    pub batter_barrel: u32,
    /// The barrel rate the pitcher allows, in tenths of a percent; 0 without a
    /// pitcher.
    pub pitcher_barrel: u32,
    /// Tenths of a percent; 500 without a batter.
    pub groundball_tendency: u32,
    /// Percent, before the cap: a fifth of the batter's longest ball in feet;
    /// 25 without a batter.
    pub home_run_chance: u32,
    /// The pitcher's fatigue multiplier, in hundredths.
    pub fatigue_penalty: u32,
}

impl Matchup {
    pub open spec fn spec_of(
        batter: Option<Player>,
        pitcher: Option<Player>,
        fatigue_penalty: u32,
    ) -> Matchup {
        Matchup {
            batter_barrel: match batter {
                Some(b) => b.stats.barrel_percent,
                None => 0,
            },
            pitcher_barrel: match pitcher {
                Some(p) => p.stats.barrel_percent,
                None => 0,
            },
            groundball_tendency: match batter {
                Some(b) => b.stats.gb,
                None => 500,
            },
            home_run_chance: match batter {
                Some(b) => b.stats.max_distance / 5,
                None => 25,
            },
            fatigue_penalty,
        }
    }

    /// Reads the two players, putting the neutral value in place of each
    /// missing one.
    pub fn of(batter: Option<&Player>, pitcher: Option<&Player>, fatigue_penalty: u32) -> (m:
        Matchup)
        ensures
            m == Self::spec_of(owned(batter), owned(pitcher), fatigue_penalty),
    {
        let (batter_barrel, groundball_tendency, home_run_chance) = match batter {
            Some(b) => (b.stats.barrel_percent, b.stats.gb, b.stats.max_distance / 5),
            None => (0, DEFAULT_GROUNDBALL_TENDENCY, DEFAULT_HOME_RUN_CHANCE),
        };
        let pitcher_barrel = match pitcher {
            Some(p) => p.stats.barrel_percent,
            None => 0,
        };
        Matchup {
            batter_barrel,
            pitcher_barrel,
            groundball_tendency,
            home_run_chance,
            fatigue_penalty,
        }
    }
}

/// The dice of one pitch.
#[derive(Debug, Clone, Copy, PartialEq, Eq, Structural)]
pub struct PitchRolls {
    /// 1 to 100: the contact quality before any adjustment.
    pub contact: u32,
    /// 1 to 100: against the home-run chance.
    pub power: u32,
    /// 1 to 10: the row of an outcome table.
    pub table: u32,
    /// 1 to 10: a weighted coin, read against a number of tenths.
    pub split: u32,
    /// 0 to 999: against the batter's ground-ball tendency.
    pub ground: u32,
}

impl PitchRolls {
    pub open spec fn valid(self) -> bool {
        &&& 1 <= self.contact <= 100
        &&& 1 <= self.power <= 100
        &&& 1 <= self.table <= 10
        &&& 1 <= self.split <= 10
        &&& self.ground <= 999
    }

    /// Rolls the dice of one pitch.
    pub fn draw() -> (rolls: PitchRolls)
        ensures
            rolls.valid(),
    {
        PitchRolls {
            contact: roll_between(1, 100),
            power: roll_between(1, 100),
            table: roll_between(1, 10),
            split: roll_between(1, 10),
            ground: roll_between(0, 999),
        }
    }
}

/// A pitch let go by: a strike in the zone, a ball outside it.
pub open spec fn take_result(pitch: PitchLocation) -> PlayResult {
    if pitch.in_zone() {
        PlayResult::Strike
    } else {
        PlayResult::Ball
    }
}

pub open spec fn clamp_quality(q: int) -> int {
    if q < 1 {
        1
    } else if q > 100 {
        100
    } else {
        q
    }
}

/// The rolled quality after the timing of the swing: six tenths of it for an
/// early or late swing, thirteen tenths for a perfect one, unchanged where
/// the timing is not known; always within 1 to 100.
pub open spec fn timed_quality(base: int, timing: Option<SwingTiming>) -> int {
    match timing {
        Some(SwingTiming::Early) | Some(SwingTiming::Late) => clamp_quality(base * 6 / 10),
        Some(SwingTiming::Perfect) => clamp_quality(base * 13 / 10),
        _ => clamp_quality(base),
    }
}

/// Points of quality that the batter's skill adds: one and a half times the
/// barrel percentage on an exact match, once on an adjacent one.
pub open spec fn skill_bonus(barrel: int, exact: bool) -> int {
    if exact {
        barrel * 150 / 1000
    } else {
        barrel * 100 / 1000
    }
}

/// Points of quality that the pitcher's skill takes away: twice the barrel
/// percentage on an exact match, once on an adjacent one, scaled by fatigue.
pub open spec fn skill_penalty(barrel: int, exact: bool, fatigue: int) -> int {
    if exact {
        barrel * 200 * fatigue / 100000
    } else {
        barrel * 100 * fatigue / 100000
    }
}

/// The contact quality of a swing that meets the ball: the timed roll, raised
/// by the batter's bonus but not past 100, then lowered by the pitcher's
/// penalty but not below 1.
pub open spec fn contact_quality(
    base: int,
    timing: Option<SwingTiming>,
    exact: bool,
    m: Matchup,
) -> int {
    let timed = timed_quality(base, timing);
    let bonus = skill_bonus(m.batter_barrel as int, exact);
    let raised = if timed + bonus > 100 {
        100
    } else {
        timed + bonus
    };
    let penalty = skill_penalty(m.pitcher_barrel as int, exact, m.fatigue_penalty as int);
    if raised - penalty < 1 {
        1
    } else {
        raised - penalty
    }
}

/// Contact quality never leaves 1 to 100, whatever the dice and the skills.
pub proof fn lemma_contact_quality_bounds(
    base: int,
    timing: Option<SwingTiming>,
    exact: bool,
    m: Matchup,
)
    ensures
        1 <= contact_quality(base, timing, exact, m) <= 100,
{
    let b = m.batter_barrel as int;
    assert(0 <= b * 150 / 1000 && 0 <= b * 100 / 1000);
    let p = m.pitcher_barrel as int;
    let f = m.fatigue_penalty as int;
    assert(0 <= p * 200 * f && 0 <= p * 100 * f) by (nonlinear_arith)
        requires
            0 <= p,
            0 <= f,
    ;
    assert(0 <= p * 200 * f / 100000 && 0 <= p * 100 * f / 100000);
}

/// A weakly hit ball: on the ground if the roll falls under the batter's
/// ground-ball tendency, in the air otherwise.
pub open spec fn grounder_or_fly(m: Matchup, r: PitchRolls) -> PlayResult {
    if r.ground < m.groundball_tendency {
        PlayResult::Out(OutType::Groundout)
    } else {
        PlayResult::Out(OutType::Flyout)
    }
}

/// The outcome table of a swing aimed exactly at a pitch in the zone.
pub open spec fn exact_zone_result(q: int, m: Matchup, r: PitchRolls) -> PlayResult {
    if 90 <= q <= 100 {
        let chance = if m.home_run_chance > 25 {
            25
        } else {
            m.home_run_chance as int
        };
        if r.power <= chance {
            PlayResult::Hit(HitType::HomeRun)
        } else if r.split <= 6 {
            PlayResult::Hit(HitType::Triple)
        } else {
            PlayResult::Hit(HitType::Double)
        }
    } else if 75 <= q <= 89 {
        if r.table == 1 {
            PlayResult::Hit(HitType::Triple)
        } else if 2 <= r.table <= 4 {
            PlayResult::Hit(HitType::Double)
        } else if 5 <= r.table <= 7 {
            PlayResult::Hit(HitType::Single)
        } else if r.split <= 6 {
            PlayResult::Out(OutType::Flyout)
        } else {
            PlayResult::Out(OutType::LineOut)
        }
    } else if 55 <= q <= 74 {
        if 1 <= r.table <= 3 {
            PlayResult::Hit(HitType::Single)
        } else if r.table == 4 {
            PlayResult::Hit(HitType::Double)
        } else if 5 <= r.table <= 6 {
            PlayResult::Foul
        } else {
            grounder_or_fly(m, r)
        }
    } else if 35 <= q <= 54 {
        if 1 <= r.table <= 2 {
            PlayResult::Foul
        } else if r.table == 3 {
            PlayResult::Hit(HitType::Single)
        } else {
            grounder_or_fly(m, r)
        }
    } else {
        if r.split <= 2 {
            PlayResult::Foul
        } else {
            grounder_or_fly(m, r)
        }
    }
}

/// The outcome table of a swing aimed next to a pitch in the zone.
pub open spec fn adjacent_zone_result(q: int, m: Matchup, r: PitchRolls) -> PlayResult {
    if 75 <= q <= 100 {
        PlayResult::Hit(HitType::Single)
    } else if 50 <= q <= 74 {
        if r.split <= 5 {
            PlayResult::Hit(HitType::Single)
        } else {
            PlayResult::Foul
        }
    } else if 30 <= q <= 49 {
        PlayResult::Foul
    } else {
        grounder_or_fly(m, r)
    }
}

/// Tenths of a chance that a timed swing with poor aim misses altogether.
pub open spec fn miss_chance(in_zone: bool, timing: SwingTiming) -> int {
    if in_zone {
        match timing {
            SwingTiming::Early | SwingTiming::Late => 8,
            SwingTiming::Perfect => 6,
            _ => 9,
        }
    } else {
        9
    }
}

/// What a pitch comes to, with the contact quality where the batter swung.
///
/// `timing` is `None` where the swing was not timed.
pub open spec fn pitch_outcome(
    pitch: PitchLocation,
    swing: Option<PitchLocation>,
    timing: Option<SwingTiming>,
    m: Matchup,
    r: PitchRolls,
) -> (PlayResult, Option<i32>) {
    if swing is None || timing == Some(SwingTiming::NoSwing) {
        (take_result(pitch), None)
    } else if timing == Some(SwingTiming::TooEarly) || timing == Some(SwingTiming::TooLate) {
        if r.split <= 9 {
            (PlayResult::Strike, Some(5i32))
        } else {
            (PlayResult::Foul, Some(10i32))
        }
    } else {
        let tier = location_match(pitch, swing->0);
        if tier == LocationMatch::Exact && pitch.in_zone() {
            let q = contact_quality(r.contact as int, timing, true, m);
            (exact_zone_result(q, m, r), Some(q as i32))
        } else if tier == LocationMatch::Adjacent && pitch.in_zone() {
            let q = contact_quality(r.contact as int, timing, false, m);
            (adjacent_zone_result(q, m, r), Some(q as i32))
        } else if timing is Some {
            if r.split <= miss_chance(pitch.in_zone(), timing->0) {
                (PlayResult::Strike, Some(5i32))
            } else {
                (PlayResult::Foul, Some(15i32))
            }
        } else if tier != LocationMatch::Miss {
            if r.split <= 7 {
                (PlayResult::Foul, Some(20i32))
            } else {
                (PlayResult::Out(OutType::Flyout), Some(15i32))
            }
        } else {
            let whiff: int = if pitch.in_zone() {
                6
            } else {
                8
            };
            if r.split <= whiff {
                (PlayResult::Strike, Some(10i32))
            } else {
                (PlayResult::Foul, Some(10i32))
            }
        }
    }
}

/// Every resolved contact quality lies within 1 to 100, and a pitch that is
/// not swung at has none.
pub proof fn lemma_pitch_outcome_quality(
    pitch: PitchLocation,
    swing: Option<PitchLocation>,
    timing: Option<SwingTiming>,
    m: Matchup,
    r: PitchRolls,
)
    ensures
        pitch_outcome(pitch, swing, timing, m, r).1 matches Some(q) ==> 1 <= q <= 100,
        swing is None ==> pitch_outcome(pitch, swing, timing, m, r) == (take_result(pitch), None::<i32>),
        pitch_outcome(pitch, swing, timing, m, r).0 == PlayResult::Ball ==> (swing is None || timing
            == Some(SwingTiming::NoSwing)) && !pitch.in_zone(),
{
    lemma_contact_quality_bounds(r.contact as int, timing, true, m);
    lemma_contact_quality_bounds(r.contact as int, timing, false, m);
}


/// The contact quality of a swing that meets the ball.
pub fn compute_contact_quality(
    base: u32,
    timing: Option<SwingTiming>,
    exact: bool,
    m: &Matchup,
) -> (q: i32)
    ensures
        q == contact_quality(base as int, timing, exact, *m),
        1 <= q <= 100,
{
    proof {
        lemma_contact_quality_bounds(base as int, timing, exact, *m);
    }
    let rolled: i64 = base as i64;
    let scaled: i64 = match timing {
        Some(SwingTiming::Early) | Some(SwingTiming::Late) => rolled * TIMING_MULTIPLIER_OFF / 10,
        Some(SwingTiming::Perfect) => rolled * TIMING_MULTIPLIER_PERFECT / 10,
        _ => rolled,
    };
    let timed: u64 = if scaled < 1 {
        1
    } else if scaled > 100 {
        100
    } else {
        scaled as u64
    };
    let bonus_rate: u64 = if exact {
        BATTER_SKILL_BONUS_MULTIPLIER
    } else {
        ADJACENT_BATTER_SKILL_MULTIPLIER
    };
    let bonus: u64 = (m.batter_barrel as u64) * bonus_rate / 1000;
    let raised: u64 = if timed + bonus > 100 {
        100
    } else {
        timed + bonus
    };
    let penalty_rate: u64 = if exact {
        PITCHER_SKILL_PENALTY_MULTIPLIER
    } else {
        ADJACENT_PITCHER_SKILL_MULTIPLIER
    };
    let per_thousand: u64 = (m.pitcher_barrel as u64) * penalty_rate;
    proof {
        lemma_mul_upper_bound(
            per_thousand as int,
            0xffff_ffff * 200int,
            m.fatigue_penalty as int,
            0xffff_ffff,
        );
    }
    let penalty: u128 = (per_thousand as u128) * (m.fatigue_penalty as u128) / 100000;
    if penalty + 1 > raised as u128 {
        1
    } else {
        (raised as u128 - penalty) as i32
    }
}

/// A weakly hit ball: a groundout or a flyout, by the batter's tendency.
pub fn resolve_grounder_or_fly(m: &Matchup, rolls: &PitchRolls) -> (result: PlayResult)
    ensures
        result == grounder_or_fly(*m, *rolls),
{
    if rolls.ground < m.groundball_tendency {
        PlayResult::Out(OutType::Groundout)
    } else {
        PlayResult::Out(OutType::Flyout)
    }
}

/// Reads the outcome table of a swing aimed exactly at a pitch in the zone.
pub fn resolve_exact_zone(quality: i32, m: &Matchup, rolls: &PitchRolls) -> (result: PlayResult)
    ensures
        result == exact_zone_result(quality as int, *m, *rolls),
{
    if quality >= CONTACT_EXCEPTIONAL_MIN && quality <= CONTACT_QUALITY_MAX {
        let chance = if m.home_run_chance > HOME_RUN_CHANCE_CAP {
            HOME_RUN_CHANCE_CAP
        } else {
            m.home_run_chance
        };
        if rolls.power <= chance {
            PlayResult::Hit(HitType::HomeRun)
        } else if rolls.split <= 6 {
            PlayResult::Hit(HitType::Triple)
        } else {
            PlayResult::Hit(HitType::Double)
        }
    } else if quality >= CONTACT_GREAT_MIN && quality < CONTACT_EXCEPTIONAL_MIN {
        match rolls.table {
            1 => PlayResult::Hit(HitType::Triple),
            2..=4 => PlayResult::Hit(HitType::Double),
            5..=7 => PlayResult::Hit(HitType::Single),
            _ => {
                if rolls.split <= 6 {
                    PlayResult::Out(OutType::Flyout)
                } else {
                    PlayResult::Out(OutType::LineOut)
                }
            },
        }
    } else if quality >= CONTACT_GOOD_MIN && quality < CONTACT_GREAT_MIN {
        match rolls.table {
            1..=3 => PlayResult::Hit(HitType::Single),
            4 => PlayResult::Hit(HitType::Double),
            5..=6 => PlayResult::Foul,
            _ => resolve_grounder_or_fly(m, rolls),
        }
    } else if quality >= CONTACT_WEAK_MIN && quality < CONTACT_GOOD_MIN {
        match rolls.table {
            1..=2 => PlayResult::Foul,
            3 => PlayResult::Hit(HitType::Single),
            _ => resolve_grounder_or_fly(m, rolls),
        }
    } else {
        if rolls.split <= 2 {
            PlayResult::Foul
        } else {
            resolve_grounder_or_fly(m, rolls)
        }
    }
}

/// Reads the outcome table of a swing aimed next to a pitch in the zone.
pub fn resolve_adjacent_zone(quality: i32, m: &Matchup, rolls: &PitchRolls) -> (result:
    PlayResult)
    ensures
        result == adjacent_zone_result(quality as int, *m, *rolls),
{
    if quality >= 75 && quality <= CONTACT_QUALITY_MAX {
        PlayResult::Hit(HitType::Single)
    } else if quality >= 50 && quality <= 74 {
        if rolls.split <= 5 {
            PlayResult::Hit(HitType::Single)
        } else {
            PlayResult::Foul
        }
    } else if quality >= 30 && quality <= 49 {
        PlayResult::Foul
    } else {
        resolve_grounder_or_fly(m, rolls)
    }
}

/// Whether two cells of the aiming grid share a side.
pub fn cells_adjacent(loc1: PitchLocation, loc2: PitchLocation) -> (yes: bool)
    ensures
        yes == adjacent(loc1, loc2),
{
    match (loc1, loc2) {
        (PitchLocation::Up, PitchLocation::UpInside)
        | (PitchLocation::UpInside, PitchLocation::Up)
        | (PitchLocation::Up, PitchLocation::UpOutside)
        | (PitchLocation::UpOutside, PitchLocation::Up)
        | (PitchLocation::Inside, PitchLocation::UpInside)
        | (PitchLocation::UpInside, PitchLocation::Inside)
        | (PitchLocation::Inside, PitchLocation::Middle)
        | (PitchLocation::Middle, PitchLocation::Inside)
        | (PitchLocation::Inside, PitchLocation::DownInside)
        | (PitchLocation::DownInside, PitchLocation::Inside)
        | (PitchLocation::Outside, PitchLocation::UpOutside)
        | (PitchLocation::UpOutside, PitchLocation::Outside)
        | (PitchLocation::Outside, PitchLocation::Middle)
        | (PitchLocation::Middle, PitchLocation::Outside)
        | (PitchLocation::Outside, PitchLocation::DownOutside)
        | (PitchLocation::DownOutside, PitchLocation::Outside)
        | (PitchLocation::Down, PitchLocation::DownInside)
        | (PitchLocation::DownInside, PitchLocation::Down)
        | (PitchLocation::Down, PitchLocation::DownOutside)
        | (PitchLocation::DownOutside, PitchLocation::Down)
        | (PitchLocation::Middle, PitchLocation::Up)
        | (PitchLocation::Up, PitchLocation::Middle)
        | (PitchLocation::Middle, PitchLocation::Down)
        | (PitchLocation::Down, PitchLocation::Middle) => true,
        _ => false,
    }
}

/// The tier of a swing against a pitch.
pub fn classify_swing(pitch: PitchLocation, swing: PitchLocation) -> (tier: LocationMatch)
    ensures
        tier == location_match(pitch, swing),
{
    if pitch == swing {
        LocationMatch::Exact
    } else if cells_adjacent(pitch, swing) {
        LocationMatch::Adjacent
    } else {
        LocationMatch::Miss
    }
}

/// Resolves one pitch from its inputs and its dice.
///
/// `timing` is `None` where the swing was not timed. The result is a function
/// of the arguments alone.
pub fn resolve_pitch(
    pitch: PitchLocation,
    swing: Option<PitchLocation>,
    timing: Option<SwingTiming>,
    m: &Matchup,
    rolls: &PitchRolls,
) -> (out: (PlayResult, Option<i32>))
    ensures
        out == pitch_outcome(pitch, swing, timing, *m, *rolls),
        out.1 matches Some(q) ==> 1 <= q <= 100,
{
    proof {
        lemma_pitch_outcome_quality(pitch, swing, timing, *m, *rolls);
    }
    let zone = pitch.is_strike();
    let taken = if zone {
        PlayResult::Strike
    } else {
        PlayResult::Ball
    };
    let swing_loc = match swing {
        None => {
            return (taken, None);
        },
        Some(loc) => loc,
    };
    match timing {
        Some(SwingTiming::NoSwing) => {
            return (taken, None);
        },
        Some(SwingTiming::TooEarly) | Some(SwingTiming::TooLate) => {
            return if rolls.split <= 9 {
                (PlayResult::Strike, Some(5))
            } else {
                (PlayResult::Foul, Some(10))
            };
        },
        _ => {},
    }
    let tier = classify_swing(pitch, swing_loc);
    if tier == LocationMatch::Exact && zone {
        let quality = compute_contact_quality(rolls.contact, timing, true, m);
        return (resolve_exact_zone(quality, m, rolls), Some(quality));
    }
    if tier == LocationMatch::Adjacent && zone {
        let quality = compute_contact_quality(rolls.contact, timing, false, m);
        return (resolve_adjacent_zone(quality, m, rolls), Some(quality));
    }
    match timing {
        Some(timed) => {
            let miss: u32 = if zone {
                match timed {
                    SwingTiming::Early | SwingTiming::Late => 8,
                    SwingTiming::Perfect => 6,
                    _ => 9,
                }
            } else {
                9
            };
            if rolls.split <= miss {
                (PlayResult::Strike, Some(5))
            } else {
                (PlayResult::Foul, Some(15))
            }
        },
        None => {
            if tier != LocationMatch::Miss {
                if rolls.split <= 7 {
                    (PlayResult::Foul, Some(20))
                } else {
                    (PlayResult::Out(OutType::Flyout), Some(15))
                }
            } else {
                let whiff: u32 = if zone {
                    6
                } else {
                    8
                };
                if rolls.split <= whiff {
                    (PlayResult::Strike, Some(10))
                } else {
                    (PlayResult::Foul, Some(10))
                }
            }
        },
    }
}

/// The dice that shape a batted ball.
#[derive(Debug, Clone, Copy, PartialEq, Eq, Structural)]
pub struct FlightRolls {
    /// 1 to 10: the row of an outcome table.
    pub table: u32,
    /// 1 to 10: a weighted coin, read against a number of tenths.
    pub split: u32,
    /// 0 to 999: against the batter's ground-ball tendency.
    pub ground: u32,
}

impl FlightRolls {
    pub open spec fn valid(self) -> bool {
        &&& 1 <= self.table <= 10
        &&& 1 <= self.split <= 10
        &&& self.ground <= 999
    }

    /// Rolls the dice that shape a batted ball.
    pub fn draw() -> (rolls: FlightRolls)
        ensures
            rolls.valid(),
    {
        FlightRolls {
            table: roll_between(1, 10),
            split: roll_between(1, 10),
            ground: roll_between(0, 999),
        }
    }
}

/// The kind of a batted ball, with the ranges its speed (tenths of a mile per
/// hour) and hang time (frames) are drawn from. Both ends of a range count.
#[derive(Debug, Clone, Copy, PartialEq, Eq, Structural)]
pub struct FlightPlan {
    pub ball_type: BallType,
    pub speed_min: u32,
    pub speed_max: u32,
    pub hang_min: u8,
    pub hang_max: u8,
}

impl FlightPlan {
    /// Whether a ball is one that this plan can produce.
    pub open spec fn admits(self, ball: BallInPlay) -> bool {
        &&& ball.ball_type == self.ball_type
        &&& self.speed_min <= ball.speed <= self.speed_max
        &&& self.hang_min <= ball.hang_time <= self.hang_max
    }
}

/// The flight that a contact quality leads to. A ball on the ground has no
/// hang time.
pub open spec fn flight_plan(quality: int, tendency: u32, r: FlightRolls) -> FlightPlan {
    if 85 <= quality <= 100 {
        if r.split <= 6 {
            FlightPlan {
                ball_type: BallType::FlyBall,
                speed_min: 800,
                speed_max: 999,
                hang_min: 60,
                hang_max: 89,
            }
        } else {
            FlightPlan {
                ball_type: BallType::LineDrive,
                speed_min: 900,
                speed_max: 1099,
                hang_min: 20,
                hang_max: 39,
            }
        }
    } else if 60 <= quality <= 84 {
        if 1 <= r.table <= 3 {
            FlightPlan {
                ball_type: BallType::FlyBall,
                speed_min: 700,
                speed_max: 899,
                hang_min: 50,
                hang_max: 69,
            }
        } else if 4 <= r.table <= 6 {
            FlightPlan {
                ball_type: BallType::LineDrive,
                speed_min: 800,
                speed_max: 999,
                hang_min: 25,
                hang_max: 44,
            }
        } else {
            FlightPlan {
                ball_type: BallType::Grounder,
                speed_min: 600,
                speed_max: 899,
                hang_min: 0,
                hang_max: 0,
            }
        }
    } else if 40 <= quality <= 59 {
        if r.split <= 7 {
            FlightPlan {
                ball_type: BallType::Grounder,
                speed_min: 500,
                speed_max: 749,
                hang_min: 0,
                hang_max: 0,
            }
        } else {
            FlightPlan {
                ball_type: BallType::PopFly,
                speed_min: 400,
                speed_max: 599,
                hang_min: 40,
                hang_max: 59,
            }
        }
    } else {
        if r.ground < tendency {
            FlightPlan {
                ball_type: BallType::Grounder,
                speed_min: 400,
                speed_max: 649,
                hang_min: 0,
                hang_max: 0,
            }
        } else {
            FlightPlan {
                ball_type: BallType::PopFly,
                speed_min: 300,
                speed_max: 499,
                hang_min: 30,
                hang_max: 49,
            }
        }
    }
}

/// Where a ball of a given kind goes, by a roll of 1 to 9 (1 to 7 for a ball
/// in the air): grounders stay in the infield, fly balls and pop flies reach
/// the outfield, line drives go either way.
pub open spec fn field_direction(ball_type: BallType, roll: u32) -> FieldDirection {
    match ball_type {
        BallType::Grounder => {
            if roll == 1 {
                FieldDirection::ThirdBase
            } else if 2 <= roll <= 3 {
                FieldDirection::Shortstop
            } else if 4 <= roll <= 6 {
                FieldDirection::SecondBase
            } else if 7 <= roll <= 8 {
                FieldDirection::FirstBase
            } else {
                FieldDirection::Shortstop
            }
        },
        BallType::LineDrive => {
            if roll == 1 {
                FieldDirection::LeftField
            } else if roll == 2 {
                FieldDirection::LeftCenter
            } else if 3 <= roll <= 4 {
                FieldDirection::CenterField
            } else if roll == 5 {
                FieldDirection::RightCenter
            } else if roll == 6 {
                FieldDirection::RightField
            } else if roll == 7 {
                FieldDirection::ThirdBase
            } else if roll == 8 {
                FieldDirection::Shortstop
            } else {
                FieldDirection::FirstBase
            }
        },
        BallType::FlyBall | BallType::PopFly => {
            if roll == 1 {
                FieldDirection::LeftField
            } else if roll == 2 {
                FieldDirection::LeftCenter
            } else if 3 <= roll <= 4 {
                FieldDirection::CenterField
            } else if roll == 5 {
                FieldDirection::RightCenter
            } else {
                FieldDirection::RightField
            }
        },
    }
}

/// The highest roll of the direction table of a kind of ball.
pub open spec fn direction_sides(ball_type: BallType) -> u32 {
    match ball_type {
        BallType::Grounder | BallType::LineDrive => 9,
        BallType::FlyBall | BallType::PopFly => 7,
    }
}

/// Whether a ball of this kind can be hit that way.
pub open spec fn direction_possible(ball_type: BallType, direction: FieldDirection) -> bool {
    exists|roll: u32|
        1 <= roll <= direction_sides(ball_type) && #[trigger] field_direction(ball_type, roll)
            == direction
}

/// Whether a contact of this quality, by a batter of this ground-ball
/// tendency, can put this ball in play.
pub open spec fn ball_possible(quality: i32, tendency: u32, ball: BallInPlay) -> bool {
    &&& ball.initial_contact_quality == quality
    &&& exists|rolls: FlightRolls|
        rolls.valid() && (#[trigger] flight_plan(quality as int, tendency, rolls)).admits(ball)
    &&& direction_possible(ball.ball_type, ball.direction)
}

/// Grounders go to an infielder, balls in the air to an outfield lane.
pub proof fn lemma_direction_by_kind(ball_type: BallType, roll: u32)
    ensures
        ball_type is Grounder ==> field_direction(ball_type, roll).is_infield(),
        ball_type is FlyBall || ball_type is PopFly ==> !field_direction(
            ball_type,
            roll,
        ).is_infield(),
{
}

/// Timing accuracy of a fielding attempt, in fifteenths: full marks on the
/// perfect frame, one fifteenth less for each frame off, none from fifteen
/// frames off.
pub open spec fn timing_accuracy(catch_timing: int, perfect_timing: int) -> int {
    let diff = if catch_timing >= perfect_timing {
        catch_timing - perfect_timing
    } else {
        perfect_timing - catch_timing
    };
    if diff >= 15 {
        0
    } else {
        15 - diff
    }
}

/// How often a ball of this kind is fielded, in hundredths, before speed and
/// timing are taken into account.
pub open spec fn base_success(ball_type: BallType) -> int {
    match ball_type {
        BallType::PopFly => 98,
        BallType::FlyBall => 90,
        BallType::LineDrive => 75,
        BallType::Grounder => 85,
    }
}

/// What speed takes off the chance, in parts of 3000: one part for each
/// tenth of a mile per hour above 95.
pub open spec fn speed_penalty(speed: int) -> int {
    if speed > 950 {
        speed - 950
    } else {
        0
    }
}

/// The base rate less the speed penalty, in parts of 3000.
pub open spec fn raw_success(ball: BallInPlay) -> int {
    30 * base_success(ball.ball_type) - speed_penalty(ball.speed as int)
}

/// The chance that a fielding attempt succeeds, in parts of 90000.
///
/// With good timing (accuracy above nine fifteenths) it is the base rate less
/// the speed penalty. With poor timing that is scaled by a half plus half the
/// accuracy. It is never less than one in ten.
pub open spec fn fielding_chance(ball: BallInPlay, catch_timing: int, perfect_timing: int) -> int {
    let accuracy = timing_accuracy(catch_timing, perfect_timing);
    let chance = if accuracy > 9 {
        30 * raw_success(ball)
    } else {
        raw_success(ball) * (15 + accuracy)
    };
    if chance < 9000 {
        9000
    } else {
        chance
    }
}

/// A fielding chance is at least one in ten and short of certain.
pub proof fn lemma_fielding_chance_bounds(ball: BallInPlay, catch_timing: int, perfect_timing: int)
    ensures
        9000 <= fielding_chance(ball, catch_timing, perfect_timing) <= 88200,
{
    let x = raw_success(ball);
    let k = 15 + timing_accuracy(catch_timing, perfect_timing);
    assert(x * k <= 88200) by (nonlinear_arith)
        requires
            x <= 2940,
            15 <= k <= 30,
    ;
}

/// On the perfect frame the timing accuracy is full, and the chance is the
/// base rate less the speed penalty, with no scaling for poor timing.
pub proof fn lemma_perfect_timing(ball: BallInPlay, timing: int)
    ensures
        timing_accuracy(timing, timing) == 15,
        raw_success(ball) >= 300 ==> fielding_chance(ball, timing, timing) == 30 * raw_success(
            ball,
        ),
        raw_success(ball) < 300 ==> fielding_chance(ball, timing, timing) == 9000,
{
}

/// The out that a fielded ball makes.
pub open spec fn fielded_out(ball_type: BallType) -> PlayResult {
    match ball_type {
        BallType::Grounder => PlayResult::Out(OutType::Groundout),
        _ => PlayResult::Out(OutType::Flyout),
    }
}

/// The dice of one fielding play.
#[derive(Debug, Clone, Copy, PartialEq, Eq, Structural)]
pub struct FieldingRolls {
    /// 0 to 89999: against the fielding chance.
    pub catch: u32,
    /// 1 to 10: a weighted coin, read against a number of tenths.
    pub split: u32,
    /// 1 to 10: the row of an outcome table.
    pub table: u32,
}

impl FieldingRolls {
    pub open spec fn valid(self) -> bool {
        &&& self.catch <= 89999
        &&& 1 <= self.split <= 10
        &&& 1 <= self.table <= 10
    }

    /// Rolls the dice of one fielding play.
    pub fn draw() -> (rolls: FieldingRolls)
        ensures
            rolls.valid(),
    {
        FieldingRolls {
            catch: roll_between(0, FIELDING_CHANCE_SCALE - 1),
            split: roll_between(1, 10),
            table: roll_between(1, 10),
        }
    }
}

/// The hit that a ball becomes once it is past the fielder, by the quality of
/// the contact that launched it. Excellent contact gives a home run or a
/// triple: a ball faster than 95 mph leaves the park four times in ten, a
/// slower one stays in it.
pub open spec fn hit_when_through(ball: BallInPlay, r: FieldingRolls) -> PlayResult {
    let q = ball.initial_contact_quality;
    if 85 <= q <= 100 {
        if ball.speed > 950 && r.split <= 4 {
            PlayResult::Hit(HitType::HomeRun)
        } else {
            PlayResult::Hit(HitType::Triple)
        }
    } else if 60 <= q <= 84 {
        if 1 <= r.table <= 2 {
            PlayResult::Hit(HitType::Triple)
        } else if 3 <= r.table <= 5 {
            PlayResult::Hit(HitType::Double)
        } else {
            PlayResult::Hit(HitType::Single)
        }
    } else {
        PlayResult::Hit(HitType::Single)
    }
}

/// Whether a play is a hit of a size that contact of this quality can give
/// once the ball is past the fielder: a home run or a triple for excellent
/// contact, a single, a double or a triple for contact between 60 and 84, a
/// single for any other.
pub open spec fn hit_fits_contact(quality: i32, result: PlayResult) -> bool {
    if 85 <= quality <= 100 {
        result == PlayResult::Hit(HitType::HomeRun) || result == PlayResult::Hit(HitType::Triple)
    } else if 60 <= quality <= 84 {
        ||| result == PlayResult::Hit(HitType::Single)
        ||| result == PlayResult::Hit(HitType::Double)
        ||| result == PlayResult::Hit(HitType::Triple)
    } else {
        result == PlayResult::Hit(HitType::Single)
    }
}

/// A ball past the fielder is always a hit, and the size of the hit goes by
/// the contact, whatever the dice show. Only excellent contact on a ball
/// faster than 95 mph gives a home run; excellent contact on a slower ball
/// gives a triple.
pub proof fn lemma_hit_by_contact(ball: BallInPlay, rolls: FieldingRolls)
    ensures
        hit_when_through(ball, rolls) is Hit,
        hit_fits_contact(ball.initial_contact_quality, hit_when_through(ball, rolls)),
        hit_when_through(ball, rolls) == PlayResult::Hit(HitType::HomeRun) ==> {
            &&& 85 <= ball.initial_contact_quality <= 100
            &&& ball.speed > 950
        },
        85 <= ball.initial_contact_quality <= 100 && ball.speed <= 950 ==> hit_when_through(
            ball,
            rolls,
        ) == PlayResult::Hit(HitType::Triple),
{
}

/// What a fielding attempt comes to, with its chance of success in parts of
/// 90000.
pub open spec fn fielding_outcome(
    ball: BallInPlay,
    catch_timing: u8,
    perfect_timing: u8,
    r: FieldingRolls,
) -> (PlayResult, u32) {
    let chance = fielding_chance(ball, catch_timing as int, perfect_timing as int);
    if r.catch < chance {
        (fielded_out(ball.ball_type), chance as u32)
    } else {
        (hit_when_through(ball, r), chance as u32)
    }
}

/// Lays out the flight of a batted ball.
pub fn plan_flight(quality: i32, tendency: u32, rolls: &FlightRolls) -> (plan: FlightPlan)
    ensures
        plan == flight_plan(quality as int, tendency, *rolls),
        plan.speed_min <= plan.speed_max,
        plan.hang_min <= plan.hang_max,
{
    if quality >= CONTACT_EXCELLENT_MIN && quality <= CONTACT_QUALITY_MAX {
        if rolls.split <= 6 {
            FlightPlan {
                ball_type: BallType::FlyBall,
                speed_min: 800,
                speed_max: 999,
                hang_min: 60,
                hang_max: 89,
            }
        } else {
            FlightPlan {
                ball_type: BallType::LineDrive,
                speed_min: 900,
                speed_max: 1099,
                hang_min: 20,
                hang_max: 39,
            }
        }
    } else if quality >= 60 && quality < CONTACT_EXCELLENT_MIN {
        match rolls.table {
            1..=3 => FlightPlan {
                ball_type: BallType::FlyBall,
                speed_min: 700,
                speed_max: 899,
                hang_min: 50,
                hang_max: 69,
            },
            4..=6 => FlightPlan {
                ball_type: BallType::LineDrive,
                speed_min: 800,
                speed_max: 999,
                hang_min: 25,
                hang_max: 44,
            },
            _ => FlightPlan {
                ball_type: BallType::Grounder,
                speed_min: 600,
                speed_max: 899,
                hang_min: 0,
                hang_max: 0,
            },
        }
    } else if quality >= 40 && quality < 60 {
        if rolls.split <= 7 {
            FlightPlan {
                ball_type: BallType::Grounder,
                speed_min: 500,
                speed_max: 749,
                hang_min: 0,
                hang_max: 0,
            }
        } else {
            FlightPlan {
                ball_type: BallType::PopFly,
                speed_min: 400,
                speed_max: 599,
                hang_min: 40,
                hang_max: 59,
            }
        }
    } else {
        if rolls.ground < tendency {
            FlightPlan {
                ball_type: BallType::Grounder,
                speed_min: 400,
                speed_max: 649,
                hang_min: 0,
                hang_max: 0,
            }
        } else {
            FlightPlan {
                ball_type: BallType::PopFly,
                speed_min: 300,
                speed_max: 499,
                hang_min: 30,
                hang_max: 49,
            }
        }
    }
}

/// Reads the direction table of a kind of ball.
pub fn direct_ball(ball_type: BallType, roll: u32) -> (direction: FieldDirection)
    ensures
        direction == field_direction(ball_type, roll),
{
    match ball_type {
        BallType::Grounder => match roll {
            1 => FieldDirection::ThirdBase,
            2..=3 => FieldDirection::Shortstop,
            4..=6 => FieldDirection::SecondBase,
            7..=8 => FieldDirection::FirstBase,
            _ => FieldDirection::Shortstop,
        },
        BallType::LineDrive => match roll {
            1 => FieldDirection::LeftField,
            2 => FieldDirection::LeftCenter,
            3..=4 => FieldDirection::CenterField,
            5 => FieldDirection::RightCenter,
            6 => FieldDirection::RightField,
            7 => FieldDirection::ThirdBase,
            8 => FieldDirection::Shortstop,
            _ => FieldDirection::FirstBase,
        },
        BallType::FlyBall | BallType::PopFly => match roll {
            1 => FieldDirection::LeftField,
            2 => FieldDirection::LeftCenter,
            3..=4 => FieldDirection::CenterField,
            5 => FieldDirection::RightCenter,
            _ => FieldDirection::RightField,
        },
    }
}

/// The chance that a fielding attempt succeeds, in parts of 90000.
pub fn compute_fielding_chance(ball: &BallInPlay, catch_timing: u8, perfect_timing: u8) -> (chance:
    u32)
    ensures
        chance == fielding_chance(*ball, catch_timing as int, perfect_timing as int),
        9000 <= chance <= 88200,
{
    proof {
        lemma_fielding_chance_bounds(*ball, catch_timing as int, perfect_timing as int);
    }
    let diff: u32 = if catch_timing >= perfect_timing {
        (catch_timing - perfect_timing) as u32
    } else {
        (perfect_timing - catch_timing) as u32
    };
    let accuracy: u32 = if diff >= FIELDING_TIMING_WINDOW {
        0
    } else {
        FIELDING_TIMING_WINDOW - diff
    };
    let base: u32 = match ball.ball_type {
        BallType::PopFly => FIELDING_SUCCESS_POPFLY,
        BallType::FlyBall => FIELDING_SUCCESS_FLYBALL,
        BallType::LineDrive => FIELDING_SUCCESS_LINEDRIVE,
        BallType::Grounder => FIELDING_SUCCESS_GROUNDER,
    };
    let penalty: u32 = if ball.speed > FIELDING_SPEED_THRESHOLD {
        ball.speed - FIELDING_SPEED_THRESHOLD
    } else {
        0
    };
    let ghost x = raw_success(*ball);
    let ghost k = 15 + accuracy as int;
    if penalty + 300 >= 30 * base {
        // What is left of the base rate is under the floor whatever the timing.
        proof {
            assert(x * k <= 9000) by (nonlinear_arith)
                requires
                    x <= 300,
                    15 <= k <= 30,
            ;
        }
        return FIELDING_MIN_SUCCESS;
    }
    let raw: u32 = 30 * base - penalty;
    let factor: u32 = if accuracy > FIELDING_TIMING_GOOD_THRESHOLD {
        30
    } else {
        15 + accuracy
    };
    proof {
        lemma_mul_upper_bound(raw as int, 2940, factor as int, 30);
    }
    let chance: u32 = raw * factor;
    if chance < FIELDING_MIN_SUCCESS {
        FIELDING_MIN_SUCCESS
    } else {
        chance
    }
}

/// The hit that a ball becomes once it is past the fielder.
pub fn resolve_through(ball: &BallInPlay, rolls: &FieldingRolls) -> (result: PlayResult)
    ensures
        result == hit_when_through(*ball, *rolls),
        result is Hit,
        hit_fits_contact(ball.initial_contact_quality, result),
{
    let q = ball.initial_contact_quality;
    if q >= CONTACT_EXCELLENT_MIN && q <= CONTACT_QUALITY_MAX {
        if ball.speed > FIELDING_SPEED_THRESHOLD && rolls.split <= 4 {
            PlayResult::Hit(HitType::HomeRun)
        } else {
            PlayResult::Hit(HitType::Triple)
        }
    } else if q >= 60 && q < CONTACT_EXCELLENT_MIN {
        match rolls.table {
            1..=2 => PlayResult::Hit(HitType::Triple),
            3..=5 => PlayResult::Hit(HitType::Double),
            _ => PlayResult::Hit(HitType::Single),
        }
    } else {
        PlayResult::Hit(HitType::Single)
    }
}

/// Resolves one fielding attempt from its inputs and its dice.
pub fn resolve_fielding(
    ball: &BallInPlay,
    catch_timing: u8,
    perfect_timing: u8,
    rolls: &FieldingRolls,
) -> (out: (PlayResult, u32))
    ensures
        out == fielding_outcome(*ball, catch_timing, perfect_timing, *rolls),
        out.1 == fielding_chance(*ball, catch_timing as int, perfect_timing as int),
        out.0 == fielded_out(ball.ball_type) || hit_fits_contact(
            ball.initial_contact_quality,
            out.0,
        ),
{
    let chance = compute_fielding_chance(ball, catch_timing, perfect_timing);
    if rolls.catch < chance {
        let out = match ball.ball_type {
            BallType::FlyBall | BallType::PopFly | BallType::LineDrive => PlayResult::Out(
                OutType::Flyout,
            ),
            BallType::Grounder => PlayResult::Out(OutType::Groundout),
        };
        (out, chance)
    } else {
        (resolve_through(ball, rolls), chance)
    }
}

impl GameEngine {
    /// The four pitches on offer, in menu order.
    pub open spec fn standard_pitches(self) -> bool {
        &&& self.pitch_types@.len() == 4
        &&& self.pitch_types@[0].name@ == "Fastball"@
        &&& self.pitch_types@[0].speed == 90
        &&& self.pitch_types@[0].break_amount == 0
        &&& self.pitch_types@[1].name@ == "Curveball"@
        &&& self.pitch_types@[1].speed == 75
        &&& self.pitch_types@[1].break_amount == 5
        &&& self.pitch_types@[2].name@ == "Slider"@
        &&& self.pitch_types@[2].speed == 82
        &&& self.pitch_types@[2].break_amount == 3
        &&& self.pitch_types@[3].name@ == "Changeup"@
        &&& self.pitch_types@[3].speed == 78
        &&& self.pitch_types@[3].break_amount == 1
    }

    pub fn new() -> (engine: Self)
        ensures
            engine.standard_pitches(),
    {
        let mut pitch_types: Vec<PitchType> = Vec::new();
        pitch_types.push(PitchType { name: "Fastball", speed: 90, break_amount: 0 });
        pitch_types.push(PitchType { name: "Curveball", speed: 75, break_amount: 5 });
        pitch_types.push(PitchType { name: "Slider", speed: 82, break_amount: 3 });
        pitch_types.push(PitchType { name: "Changeup", speed: 78, break_amount: 1 });
        Self { pitch_types }
    }

    /// The name of a pitch by its index, or "Unknown" past the end.
    pub fn get_pitch_name(&self, idx: usize) -> (name: &str)
        ensures
            idx < self.pitch_types@.len() ==> name@ == self.pitch_types@[idx as int].name@,
            idx >= self.pitch_types@.len() ==> name@ == "Unknown"@,
    {
        if idx < self.pitch_types.len() {
            self.pitch_types[idx].name
        } else {
            "Unknown"
        }
    }

    /// Whether a swing is aimed next to the pitch. An exact match is not a
    /// neighbour.
    pub fn locations_match(&self, loc1: PitchLocation, loc2: PitchLocation) -> (yes: bool)
        ensures
            yes == adjacent(loc1, loc2),
    {
        cells_adjacent(loc1, loc2)
    }

    /// Resolves a pitch against a swing whose timing is not modelled.
    ///
    /// `fatigue_penalty` is the pitcher's fatigue multiplier in hundredths.
    /// Whatever the dice, the result is an outcome of [`pitch_outcome`] for
    /// some valid roll.
    pub fn calculate_pitch_result(
        &self,
        pitch_location: PitchLocation,
        swing_location: Option<PitchLocation>,
        _pitch_type_idx: usize,
        batter: Option<&Player>,
        pitcher: Option<&Player>,
        fatigue_penalty: u32,
    ) -> (out: (PlayResult, Option<i32>))
        ensures
            exists|rolls: PitchRolls|
                rolls.valid() && out == #[trigger] pitch_outcome(
                    pitch_location,
                    swing_location,
                    None,
                    Matchup::spec_of(owned(batter), owned(pitcher), fatigue_penalty),
                    rolls,
                ),
            swing_location is None ==> out == (take_result(pitch_location), None::<i32>),
            out.1 matches Some(q) ==> 1 <= q <= 100,
    {
        let matchup = Matchup::of(batter, pitcher, fatigue_penalty);
        let rolls = PitchRolls::draw();
        resolve_pitch(pitch_location, swing_location, None, &matchup, &rolls)
    }

    /// Resolves a pitch against a timed swing.
    ///
    /// `fatigue_penalty` is the pitcher's fatigue multiplier in hundredths.
    /// Whatever the dice, the result is an outcome of [`pitch_outcome`] for
    /// some valid roll.
    pub fn calculate_pitch_result_with_timing(
        &self,
        pitch_location: PitchLocation,
        swing_location: Option<PitchLocation>,
        _pitch_type_idx: usize,
        batter: Option<&Player>,
        pitcher: Option<&Player>,
        fatigue_penalty: u32,
        swing_timing: &SwingTiming,
    ) -> (out: (PlayResult, Option<i32>))
        ensures
            exists|rolls: PitchRolls|
                rolls.valid() && out == #[trigger] pitch_outcome(
                    pitch_location,
                    swing_location,
                    Some(*swing_timing),
                    Matchup::spec_of(owned(batter), owned(pitcher), fatigue_penalty),
                    rolls,
                ),
            swing_location is None || *swing_timing == SwingTiming::NoSwing ==> out == (
                take_result(pitch_location),
                None::<i32>,
            ),
            out.1 matches Some(q) ==> 1 <= q <= 100,
    {
        let matchup = Matchup::of(batter, pitcher, fatigue_penalty);
        let rolls = PitchRolls::draw();
        resolve_pitch(pitch_location, swing_location, Some(*swing_timing), &matchup, &rolls)
    }
    /// Puts a ball in play for a contact quality: its kind, direction, speed
    /// and hang time. Always produces a ball.
    pub fn generate_ball_in_play(
        &self,
        contact_quality: i32,
        batter: Option<&Player>,
        _pitcher: Option<&Player>,
    ) -> (made: Option<BallInPlay>)
        ensures
            made matches Some(ball) && ball_possible(
                contact_quality,
                Matchup::spec_of(owned(batter), None, 100).groundball_tendency,
                ball,
            ),
    {
        let tendency = match batter {
            Some(b) => b.stats.gb,
            None => DEFAULT_GROUNDBALL_TENDENCY,
        };
        let rolls = FlightRolls::draw();
        let plan = plan_flight(contact_quality, tendency, &rolls);
        let speed = roll_between(plan.speed_min, plan.speed_max);
        let hang_time = roll_between(plan.hang_min as u32, plan.hang_max as u32) as u8;
        let direction = self.generate_field_direction(&plan.ball_type);
        let ball = BallInPlay {
            ball_type: plan.ball_type,
            direction,
            speed,
            hang_time,
            initial_contact_quality: contact_quality,
        };
        assert(tendency == Matchup::spec_of(owned(batter), None, 100).groundball_tendency);
        assert(flight_plan(contact_quality as int, tendency, rolls).admits(ball));
        Some(ball)
    }

    /// Picks the direction of a batted ball from the table of its kind.
    pub fn generate_field_direction(&self, ball_type: &BallType) -> (direction: FieldDirection)
        ensures
            direction_possible(*ball_type, direction),
    {
        let sides: u32 = match ball_type {
            BallType::Grounder | BallType::LineDrive => 9,
            BallType::FlyBall | BallType::PopFly => 7,
        };
        let roll = roll_between(1, sides);
        direct_ball(*ball_type, roll)
    }

    /// Resolves a fielding attempt made `catch_timing` frames into the play,
    /// where `perfect_timing` is the ideal frame. Returns the result and the
    /// chance the attempt had, in parts of 90000.
    pub fn calculate_fielding_result(
        &self,
        ball: &BallInPlay,
        catch_timing: u8,
        perfect_timing: u8,
    ) -> (out: (PlayResult, u32))
        ensures
            exists|rolls: FieldingRolls|
                rolls.valid() && out == #[trigger] fielding_outcome(
                    *ball,
                    catch_timing,
                    perfect_timing,
                    rolls,
                ),
            out.1 == fielding_chance(*ball, catch_timing as int, perfect_timing as int),
            out.0 == fielded_out(ball.ball_type) || hit_fits_contact(
                ball.initial_contact_quality,
                out.0,
            ),
    {
        let rolls = FieldingRolls::draw();
        resolve_fielding(ball, catch_timing, perfect_timing, &rolls)
    }

    /// The hit that results when nobody fields the ball.
    pub fn ball_gets_through(&self, ball: &BallInPlay) -> (result: PlayResult)
        ensures
            exists|rolls: FieldingRolls|
                rolls.valid() && result == #[trigger] hit_when_through(*ball, rolls),
            result is Hit,
            hit_fits_contact(ball.initial_contact_quality, result),
            85 <= ball.initial_contact_quality <= 100 && ball.speed <= 950 ==> result
                == PlayResult::Hit(HitType::Triple),
    {
        let rolls = FieldingRolls::draw();
        resolve_through(ball, &rolls)
    }
}

} // verus!
