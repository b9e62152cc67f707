//! The decisions behind compositing a Character from separate torso, arm
//! and leg sprites: which art each part loads, and how the parts layer.
//! For a given Body Type every part shares one canvas, so compositing is
//! stacking same-size sprites at one origin with a per-part layer. The one
//! offset that needs real arithmetic is the face slot, a separate part laid
//! over the torso art's head circle.

use vstd::prelude::*;
use crate::combat::Facing;

verus! {

/// One of the three cosmetic sprite proportions. Carries no gameplay
/// effect - purely which art assets get loaded.
#[derive(Debug, Clone, Copy, PartialEq, Eq, Structural)]
pub enum BodyType {
    Small,
    Medium,
    Large,
}

/// Which pose an arm/leg is currently showing.
#[derive(Debug, Clone, Copy, PartialEq, Eq, Structural)]
pub enum LimbPose {
    Idle,
    Attacking,
}

/// Tells the arm apart from the leg, since both carry a `LimbPose`.
#[derive(Debug, Clone, Copy, PartialEq, Eq, Structural)]
pub enum Limb {
    Arm,
    Leg,
}

/// Drawing layers, back to front: idle limbs sit behind the torso; an
/// attacking limb (arm on Punch, leg on Kick) is drawn in front of it; the
/// face slot sits above everything else on the Character.
pub const Z_LIMB_IDLE: u8 = 0;

pub const Z_TORSO: u8 = 1;

pub const Z_LIMB_ATTACKING: u8 = 2;

pub const Z_FACE: u8 = 3;

/// The art file prefix for each Body Type.
pub open spec fn prefix_of(body_type: BodyType) -> Seq<char> {
    match body_type {
        BodyType::Small => "small"@,
        BodyType::Medium => "medium"@,
        BodyType::Large => "large"@,
    }
}

/// The art file suffix for each limb and pose.
pub open spec fn suffix_of(limb: Limb, pose: LimbPose) -> Seq<char> {
    match (limb, pose) {
        (Limb::Arm, LimbPose::Idle) => "arm_idle"@,
        (Limb::Arm, LimbPose::Attacking) => "arm_punch"@,
        (Limb::Leg, LimbPose::Idle) => "leg_idle"@,
        (Limb::Leg, LimbPose::Attacking) => "leg_kick"@,
    }
}

/// The art file prefix for `body_type`.
pub fn asset_prefix(body_type: BodyType) -> (r: &'static str)
    ensures
        r@ == prefix_of(body_type),
{
    match body_type {
        BodyType::Small => "small",
        BodyType::Medium => "medium",
        BodyType::Large => "large",
    }
}

/// The art file suffix for `limb` in `pose`.
pub fn limb_asset_suffix(limb: Limb, pose: LimbPose) -> (r: &'static str)
    ensures
        r@ == suffix_of(limb, pose),
{
    match (limb, pose) {
        (Limb::Arm, LimbPose::Idle) => "arm_idle",
        (Limb::Arm, LimbPose::Attacking) => "arm_punch",
        (Limb::Leg, LimbPose::Idle) => "leg_idle",
        (Limb::Leg, LimbPose::Attacking) => "leg_kick",
    }
}

/// The drawing layer of a limb in `pose`.
pub fn limb_z(pose: LimbPose) -> (r: u8)
    ensures
        r == (match pose {
            LimbPose::Idle => Z_LIMB_IDLE,
            LimbPose::Attacking => Z_LIMB_ATTACKING,
        }),
{
    match pose {
        LimbPose::Idle => Z_LIMB_IDLE,
        LimbPose::Attacking => Z_LIMB_ATTACKING,
    }
}

/// The art path of one part (`suffix`, e.g. "torso" or a limb suffix) for
/// `body_type`: `characters/<prefix>_<suffix>.png`.
pub open spec fn asset_path_of(body_type: BodyType, suffix: Seq<char>) -> Seq<char> {
    "characters/"@ + prefix_of(body_type) + "_"@ + suffix + ".png"@
}

/// The art path of one part (`suffix`) for `body_type`.
pub fn asset_path(body_type: BodyType, suffix: &str) -> (r: String)
    ensures
        r@ == asset_path_of(body_type, suffix@),
{
    let mut s = String::from_str("characters/");
    s.append(asset_prefix(body_type));
    s.append("_");
    s.append(suffix);
    s.append(".png");
    s
}

/// How many geometry units make one pixel of the art: every measurement of
/// the committed art is a whole number of half pixels.
pub const GEOMETRY_UNITS_PER_PIXEL: i32 = 2;

/// Pixel geometry measured from the committed art, in half pixels, in image
/// space (Y grows downward, origin top-left). Every part of one Body Type
/// shares one canvas; the head circle is the light-fill circle in the torso
/// art.
#[derive(Debug, Clone, Copy, PartialEq, Eq, Structural)]
pub struct BodyTypeGeometry {
    pub canvas_width: i32,
    pub canvas_height: i32,
    pub head_center_x: i32,
    pub head_center_y: i32,
    pub head_diameter: i32,
    /// Image-space Y of the sole of the idle-pose foot (the lowest opaque
    /// pixel of the idle leg).
    pub feet_bottom_y: i32,
}

/// The measured geometry of each Body Type's art.
pub open spec fn geometry_of(body_type: BodyType) -> BodyTypeGeometry {
    match body_type {
        BodyType::Small => BodyTypeGeometry {
            canvas_width: 1196,
            canvas_height: 1040,
            head_center_x: 371,
            head_center_y: 155,
            head_diameter: 242,
            feet_bottom_y: 1024,
        },
        BodyType::Medium => BodyTypeGeometry {
            canvas_width: 1380,
            canvas_height: 1200,
            head_center_x: 429,
            head_center_y: 179,
            head_diameter: 282,
            feet_bottom_y: 1180,
        },
        BodyType::Large => BodyTypeGeometry {
            canvas_width: 1564,
            canvas_height: 1360,
            head_center_x: 487,
            head_center_y: 203,
            head_diameter: 318,
            feet_bottom_y: 1338,
        },
    }
}

/// The measured geometry of `body_type`'s art.
pub fn body_type_geometry(body_type: BodyType) -> (r: BodyTypeGeometry)
    ensures
        r == geometry_of(body_type),
{
    match body_type {
        BodyType::Small => BodyTypeGeometry {
            canvas_width: 1196,
            canvas_height: 1040,
            head_center_x: 371,
            head_center_y: 155,
            head_diameter: 242,
            feet_bottom_y: 1024,
        },
        BodyType::Medium => BodyTypeGeometry {
            canvas_width: 1380,
            canvas_height: 1200,
            head_center_x: 429,
            head_center_y: 179,
            head_diameter: 282,
            feet_bottom_y: 1180,
        },
        BodyType::Large => BodyTypeGeometry {
            canvas_width: 1564,
            canvas_height: 1360,
            head_center_x: 487,
            head_center_y: 203,
            head_diameter: 318,
            feet_bottom_y: 1338,
        },
    }
}

/// A position relative to a Character's root (the origin every part's
/// sprite shares), in half pixels, with Y growing upward.
#[derive(Debug, Clone, Copy, PartialEq, Eq, Structural)]
pub struct LocalOffset {
    pub x: i32,
    pub y: i32,
}

/// +1 for `Right`, -1 for `Left`.
pub open spec fn facing_sign(facing: Facing) -> int {
    match facing {
        Facing::Right => 1,
        Facing::Left => -1,
    }
}

/// Where the face slot sits: over the torso art's head circle, measured
/// from the canvas center. The art is drawn facing right; mirroring a
/// sprite for `Left` moves the head circle to the other side of the
/// center, so the slot's X is mirrored with it.
pub open spec fn head_offset_of(body_type: BodyType, facing: Facing) -> LocalOffset {
    let g = geometry_of(body_type);
    LocalOffset {
        x: (facing_sign(facing) * (g.head_center_x - g.canvas_width / 2)) as i32,
        y: (g.canvas_height / 2 - g.head_center_y) as i32,
    }
}

/// How far from the root's origin the sole of the foot sits, vertically
/// (negative: below it). The same for both Facings.
pub open spec fn feet_offset_of(body_type: BodyType) -> int {
    let g = geometry_of(body_type);
    g.canvas_height / 2 - g.feet_bottom_y
}

/// The face slot's position, local to the Character root.
pub fn head_local_offset(body_type: BodyType, facing: Facing) -> (r: LocalOffset)
    ensures
        r == head_offset_of(body_type, facing),
{
    let g = body_type_geometry(body_type);
    let canonical_x = g.head_center_x - g.canvas_width / 2;
    let y = g.canvas_height / 2 - g.head_center_y;
    let x = match facing {
        Facing::Right => canonical_x,
        Facing::Left => -canonical_x,
    };
    LocalOffset { x, y }
}

/// How far below the Character root's origin the sole of the foot sits (a
/// negative Y), so a Character can be stood on a floor line.
pub fn feet_local_offset_y(body_type: BodyType) -> (r: i32)
    ensures
        r == feet_offset_of(body_type),
{
    let g = body_type_geometry(body_type);
    g.canvas_height / 2 - g.feet_bottom_y
}

/// The face slot mirrors between the two Facings: same height, opposite
/// side of the center.
pub proof fn law_head_offset_mirrors(body_type: BodyType)
    ensures
        head_offset_of(body_type, Facing::Right).y == head_offset_of(body_type, Facing::Left).y,
        head_offset_of(body_type, Facing::Right).x == -head_offset_of(body_type, Facing::Left).x,
{
}

/// Every Body Type's feet sit below the Character's origin.
pub proof fn law_feet_below_origin(body_type: BodyType)
    ensures
        feet_offset_of(body_type) < 0,
{
}

/// Every Body Type loads its own art, and an attacking limb is always drawn
/// in front of the torso while an idle one is always drawn behind it.
pub proof fn law_rig_layers_and_assets(a: BodyType, b: BodyType)
    ensures
        a != b ==> prefix_of(a) != prefix_of(b),
        Z_LIMB_IDLE < Z_TORSO < Z_LIMB_ATTACKING < Z_FACE,
{
    reveal_strlit("small");
    reveal_strlit("medium");
    reveal_strlit("large");
    if a != b {
        assert(prefix_of(a).len() != prefix_of(b).len() || prefix_of(a)[0] != prefix_of(b)[0]);
    }
}

} // verus!
