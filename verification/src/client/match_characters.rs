//! What each on-Stage Character shows, driven entirely by the latest
//! server snapshot: which limb is mid-swing, whether the speech bubble is
//! up, and the speech bubble's text.

use vstd::prelude::*;
use crate::client::character_rig::{Limb, LimbPose};
use crate::combat::Attack;
use crate::net_protocol::{CharacterSnapshot, StateSnapshot};

verus! {

/// Which Match participant a rendered Character represents - a
/// rendering-side tag for picking the right half of the snapshot.
#[derive(Debug, Clone, Copy, PartialEq, Eq, Structural)]
pub enum Slot {
    P1,
    P2,
}

/// How many Stage pixels one world unit spans.
pub const POSITION_SCALE: i32 = 100;

/// Each slot's starting spot in world units, as the Match starts them.
pub open spec fn default_world_position(slot: Slot) -> int {
    match slot {
        Slot::P1 => -3,
        Slot::P2 => 3,
    }
}

/// A Character's first-frame Stage x coordinate, before any snapshot has
/// arrived: its starting spot, in Stage pixels.
pub fn default_world_x(slot: Slot) -> (r: i32)
    ensures
        r == default_world_position(slot) * POSITION_SCALE,
{
    let game_position: i32 = match slot {
        Slot::P1 => -3,
        Slot::P2 => 3,
    };
    game_position * POSITION_SCALE
}

/// The half of `snapshot` describing `slot`'s Character.
pub fn character_snapshot_for(snapshot: &StateSnapshot, slot: Slot) -> (r: CharacterSnapshot)
    ensures
        r == (match slot {
            Slot::P1 => snapshot.p1,
            Slot::P2 => snapshot.p2,
        }),
{
    match slot {
        Slot::P1 => snapshot.p1,
        Slot::P2 => snapshot.p2,
    }
}

/// The pose `limb` should show while its Character's swing is `attacking`:
/// the arm swings on a Punch, the leg on a Kick, landed or not.
pub open spec fn pose_for(attacking: Option<Attack>, limb: Limb) -> LimbPose {
    match (attacking, limb) {
        (Some(Attack::Punch), Limb::Arm) => LimbPose::Attacking,
        (Some(Attack::Kick), Limb::Leg) => LimbPose::Attacking,
        _ => LimbPose::Idle,
    }
}

/// The pose `limb` should show for the Character's current swing.
pub fn desired_limb_pose(attacking: Option<Attack>, limb: Limb) -> (r: LimbPose)
    ensures
        r == pose_for(attacking, limb),
{
    match (attacking, limb) {
        (Some(Attack::Punch), Limb::Arm) => LimbPose::Attacking,
        (Some(Attack::Kick), Limb::Leg) => LimbPose::Attacking,
        _ => LimbPose::Idle,
    }
}

/// The speech-bubble line each slot's Character says.
pub open spec fn speech_line(slot: Slot) -> Seq<char> {
    match slot {
        Slot::P1 => "You've got this!"@,
        Slot::P2 => "Believe in yourself!"@,
    }
}

/// The speech-bubble text for `slot`'s Character.
pub fn speech_bubble_text(slot: Slot) -> (r: &'static str)
    ensures
        r@ == speech_line(slot),
{
    match slot {
        Slot::P1 => "You've got this!",
        Slot::P2 => "Believe in yourself!",
    }
}

/// Player 1 starts on the left and Player 2 on the right, mirrored about
/// the Stage's center; a Special never swings a limb, and no limb swings
/// without a Punch or Kick.
pub proof fn law_presentation(slot: Slot, limb: Limb)
    ensures
        default_world_position(Slot::P1) * POSITION_SCALE < 0 < default_world_position(Slot::P2)
            * POSITION_SCALE,
        default_world_position(Slot::P1) == -default_world_position(Slot::P2),
        pose_for(Some(Attack::Special), limb) == LimbPose::Idle,
        pose_for(None, limb) == LimbPose::Idle,
{
}

} // verus!
