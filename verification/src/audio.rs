//! Which sound goes with which event. Playing the sounds is the caller's part.

use crate::chance::roll_between;
use crate::game::state::{HitType, OutType, PlayResult};
use vstd::prelude::*;

verus! {

/// A sound the game can ask for.
#[derive(Debug, Clone, Copy, PartialEq, Eq, Structural)]
pub enum SoundCue {
    BatContact,
    Catch,
    GroundBall,
    Miss,
    CheerSingle,
    CheerDouble,
    CheerTripleAndHomer,
}

/// The sound of a resolved swing: the bat for any contact, a miss for a
/// strike, nothing for a ball.
pub open spec fn swing_cue(result: PlayResult) -> Option<SoundCue> {
    match result {
        PlayResult::Hit(_) | PlayResult::Out(_) | PlayResult::Foul => Some(SoundCue::BatContact),
        PlayResult::Strike => Some(SoundCue::Miss),
        PlayResult::Ball => None,
    }
}

/// The cheer for a hit grows with the hit.
pub open spec fn hit_cue(hit: HitType) -> SoundCue {
    match hit {
        HitType::Single => SoundCue::CheerSingle,
        HitType::Double => SoundCue::CheerDouble,
        HitType::Triple | HitType::HomeRun => SoundCue::CheerTripleAndHomer,
    }
}

/// The sound of a fielding attempt: the glove for a ball caught in the air,
/// the ground ball for a groundout, and for a hit a cheer that grows with the
/// quality of the contact that launched the ball.
pub open spec fn fielding_cue(result: PlayResult, contact_quality: i32) -> Option<SoundCue> {
    match result {
        PlayResult::Out(OutType::Flyout) | PlayResult::Out(OutType::LineOut) => Some(
            SoundCue::Catch,
        ),
        PlayResult::Out(OutType::Groundout) => Some(SoundCue::GroundBall),
        PlayResult::Hit(_) => {
            if 85 <= contact_quality <= 100 {
                Some(SoundCue::CheerTripleAndHomer)
            } else if 60 <= contact_quality <= 84 {
                Some(SoundCue::CheerDouble)
            } else {
                Some(SoundCue::CheerSingle)
            }
        },
        _ => None,
    }
}

/// How many recordings there are of a sound.
pub open spec fn takes(cue: SoundCue) -> u32 {
    match cue {
        SoundCue::GroundBall => 2,
        SoundCue::Miss => 3,
        _ => 1,
    }
}

/// The file that holds recording number `take` of a sound.
pub open spec fn sound_file(cue: SoundCue, take: u32) -> Seq<char> {
    match cue {
        SoundCue::BatContact => "bat.wav"@,
        SoundCue::Catch => "catch.wav"@,
        SoundCue::GroundBall => if take == 1 {
            "ground_1.wav"@
        } else {
            "ground_2.wav"@
        },
        SoundCue::Miss => if take == 1 {
            "miss_1.wav"@
        } else if take == 2 {
            "miss_2.wav"@
        } else {
            "miss_3.wav"@
        },
        SoundCue::CheerSingle => "cheer_single.wav"@,
        SoundCue::CheerDouble => "cheer_double.wav"@,
        SoundCue::CheerTripleAndHomer => "cheer_triple_and_homer.wav"@,
    }
}

pub fn cue_for_swing(result: &PlayResult) -> (cue: Option<SoundCue>)
    ensures
        cue == swing_cue(*result),
{
    match result {
        PlayResult::Hit(_) | PlayResult::Out(_) => Some(SoundCue::BatContact),
        PlayResult::Foul => Some(SoundCue::BatContact),
        PlayResult::Strike => Some(SoundCue::Miss),
        _ => None,
    }
}

pub fn cue_for_hit(hit: &HitType) -> (cue: SoundCue)
    ensures
        cue == hit_cue(*hit),
{
    match hit {
        HitType::Single => SoundCue::CheerSingle,
        HitType::Double => SoundCue::CheerDouble,
        HitType::Triple | HitType::HomeRun => SoundCue::CheerTripleAndHomer,
    }
}

pub fn cue_for_fielding(result: &PlayResult, contact_quality: i32) -> (cue: Option<SoundCue>)
    ensures
        cue == fielding_cue(*result, contact_quality),
{
    match result {
        PlayResult::Out(OutType::Flyout) | PlayResult::Out(OutType::LineOut) => Some(
            SoundCue::Catch,
        ),
        PlayResult::Out(OutType::Groundout) => Some(SoundCue::GroundBall),
        PlayResult::Hit(_) => {
            if contact_quality >= 85 && contact_quality <= 100 {
                Some(SoundCue::CheerTripleAndHomer)
            } else if contact_quality >= 60 && contact_quality <= 84 {
                Some(SoundCue::CheerDouble)
            } else {
                Some(SoundCue::CheerSingle)
            }
        },
        _ => None,
    }
}

/// The file of one recording of a sound.
pub fn file_of_take(cue: SoundCue, take: u32) -> (name: &'static str)
    ensures
        name@ == sound_file(cue, take),
{
    match cue {
        SoundCue::BatContact => "bat.wav",
        SoundCue::Catch => "catch.wav",
        SoundCue::GroundBall => if take == 1 {
            "ground_1.wav"
        } else {
            "ground_2.wav"
        },
        SoundCue::Miss => if take == 1 {
            "miss_1.wav"
        } else if take == 2 {
            "miss_2.wav"
        } else {
            "miss_3.wav"
        },
        SoundCue::CheerSingle => "cheer_single.wav",
        SoundCue::CheerDouble => "cheer_double.wav",
        SoundCue::CheerTripleAndHomer => "cheer_triple_and_homer.wav",
    }
}

/// Picks one of the recordings of a sound at random.
pub fn pick_sound_file(cue: SoundCue) -> (name: &'static str)
    ensures
        exists|take: u32| 1 <= take <= takes(cue) && name@ == #[trigger] sound_file(cue, take),
{
    let count: u32 = match cue {
        SoundCue::GroundBall => 2,
        SoundCue::Miss => 3,
        _ => 1,
    };
    let take = roll_between(1, count);
    file_of_take(cue, take)
}

} // verus!
