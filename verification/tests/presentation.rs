//! What the client shows: rig art and layering, starting placement, limb
//! poses, speech lines, role and Health readouts, and the Match-Ended
//! headline.

use combat_ductus::client::character_rig::{
    asset_path, asset_prefix, feet_local_offset_y, head_local_offset, limb_asset_suffix, limb_z,
    BodyType, Limb, LimbPose, GEOMETRY_UNITS_PER_PIXEL, Z_FACE, Z_TORSO,
};
use combat_ductus::client::connect_screen::{AppState, MyRole};
use combat_ductus::client::health_hud::{health_text, HealthLabel};
use combat_ductus::client::match_characters::{
    character_snapshot_for, default_world_x, desired_limb_pose, speech_bubble_text, Slot,
};
use combat_ductus::client::match_end_screen::{
    detect_match_end, detect_match_restarted, match_end_message,
};
use combat_ductus::client::role_indicator::role_text;
use combat_ductus::combat::{Attack, Facing, MatchEndReason, Player};
use combat_ductus::net_protocol::{CharacterSnapshot, MatchStatus, StateSnapshot};

/// A length in the rig's geometry units, in pixels.
fn pixels(units: i32) -> f32 {
    units as f32 / GEOMETRY_UNITS_PER_PIXEL as f32
}

#[test]
fn head_offset_mirrors_between_facings() {
    let right = head_local_offset(BodyType::Medium, Facing::Right);
    let left = head_local_offset(BodyType::Medium, Facing::Left);

    // Same vertical position...
    assert_eq!(right.y, left.y);
    // ...but the horizontal position mirrors around the canvas center.
    assert_eq!(right.x, -left.x);
}

#[test]
fn head_offset_matches_measured_art_for_medium_right() {
    // Measured from the medium torso art: canvas 690x600, head circle
    // center (214.5, 89.5).
    let offset = head_local_offset(BodyType::Medium, Facing::Right);
    assert!((pixels(offset.x) - (-130.5)).abs() < f32::EPSILON);
    assert!((pixels(offset.y) - 210.5).abs() < f32::EPSILON);
}

#[test]
fn feet_offset_matches_measured_art_for_medium() {
    // Measured from the medium idle leg art: canvas height 600, lowest
    // opaque pixel (the sole) at y=590.
    let offset = feet_local_offset_y(BodyType::Medium);
    assert!((pixels(offset) - (-290.0)).abs() < f32::EPSILON);
}

#[test]
fn feet_sit_below_the_character_origin_for_every_body_type() {
    for body_type in [BodyType::Small, BodyType::Medium, BodyType::Large] {
        assert!(feet_local_offset_y(body_type) < 0);
    }
}

#[test]
fn head_offset_for_small_and_large_facing_left() {
    let small = head_local_offset(BodyType::Small, Facing::Left);
    assert!((pixels(small.x) - 113.5).abs() < f32::EPSILON);
    assert!((pixels(small.y) - 182.5).abs() < f32::EPSILON);
    let large = head_local_offset(BodyType::Large, Facing::Left);
    assert!((pixels(large.x) - 147.5).abs() < f32::EPSILON);
    assert!((pixels(large.y) - 238.5).abs() < f32::EPSILON);
}

#[test]
fn every_body_type_has_a_distinct_asset_prefix() {
    let prefixes: Vec<_> = [BodyType::Small, BodyType::Medium, BodyType::Large]
        .into_iter()
        .map(|body_type| asset_prefix(body_type))
        .collect();
    assert_eq!(prefixes, ["small", "medium", "large"]);
}

#[test]
fn limb_asset_suffix_covers_every_limb_pose_combination() {
    assert_eq!(limb_asset_suffix(Limb::Arm, LimbPose::Idle), "arm_idle");
    assert_eq!(limb_asset_suffix(Limb::Arm, LimbPose::Attacking), "arm_punch");
    assert_eq!(limb_asset_suffix(Limb::Leg, LimbPose::Idle), "leg_idle");
    assert_eq!(limb_asset_suffix(Limb::Leg, LimbPose::Attacking), "leg_kick");
}

#[test]
fn attacking_pose_renders_in_front_of_idle_pose() {
    assert!(limb_z(LimbPose::Attacking) > Z_TORSO);
    assert!(limb_z(LimbPose::Idle) < Z_TORSO);
}

#[test]
fn face_renders_above_every_limb_pose() {
    assert!(Z_FACE > limb_z(LimbPose::Attacking));
    assert!(Z_FACE > limb_z(LimbPose::Idle));
}

#[test]
fn asset_paths_combine_prefix_and_part() {
    assert_eq!(asset_path(BodyType::Medium, "torso"), "characters/medium_torso.png");
    assert_eq!(
        asset_path(BodyType::Small, limb_asset_suffix(Limb::Leg, LimbPose::Attacking)),
        "characters/small_leg_kick.png"
    );
}

#[test]
fn default_positions_place_p1_left_of_p2() {
    assert!(default_world_x(Slot::P1) < 0);
    assert!(default_world_x(Slot::P2) > 0);
}

#[test]
fn default_positions_are_symmetric() {
    assert_eq!(default_world_x(Slot::P1), -default_world_x(Slot::P2));
}

#[test]
fn default_positions_are_the_starting_spots_in_stage_pixels() {
    assert_eq!(default_world_x(Slot::P1), -300);
    assert_eq!(default_world_x(Slot::P2), 300);
}

#[test]
fn arm_swings_on_punch_and_leg_on_kick_only() {
    assert_eq!(desired_limb_pose(Some(Attack::Punch), Limb::Arm), LimbPose::Attacking);
    assert_eq!(desired_limb_pose(Some(Attack::Punch), Limb::Leg), LimbPose::Idle);
    assert_eq!(desired_limb_pose(Some(Attack::Kick), Limb::Leg), LimbPose::Attacking);
    assert_eq!(desired_limb_pose(Some(Attack::Kick), Limb::Arm), LimbPose::Idle);
    assert_eq!(desired_limb_pose(Some(Attack::Special), Limb::Arm), LimbPose::Idle);
    assert_eq!(desired_limb_pose(None, Limb::Leg), LimbPose::Idle);
}

#[test]
fn each_slot_has_its_own_speech_line() {
    assert_eq!(speech_bubble_text(Slot::P1), "You've got this!");
    assert_eq!(speech_bubble_text(Slot::P2), "Believe in yourself!");
}

#[test]
fn role_indicator_text_for_every_role() {
    assert_eq!(role_text(MyRole::Unknown), "");
    assert_eq!(role_text(MyRole::Player(Player::P1)), "Player 1");
    assert_eq!(role_text(MyRole::Player(Player::P2)), "Player 2");
    assert_eq!(role_text(MyRole::Spectating), "Spectating");
}

#[test]
fn health_readout_writes_health_in_decimal() {
    assert_eq!(health_text(HealthLabel::P1, 5), "P1: 5");
    assert_eq!(health_text(HealthLabel::P2, 0), "P2: 0");
    assert_eq!(health_text(HealthLabel::P2, 42), "P2: 42");
    assert_eq!(health_text(HealthLabel::P1, 255), "P1: 255");
    assert_eq!(health_text(HealthLabel::P1, 100), "P1: 100");
}

fn character(position: i32, facing: Facing) -> CharacterSnapshot {
    CharacterSnapshot {
        position,
        facing,
        health: 5,
        airborne: false,
        vertical_offset: 0,
        speaking: false,
        attacking: None,
    }
}

fn snapshot(status: MatchStatus) -> StateSnapshot {
    StateSnapshot {
        tick: 7,
        p1: character(-3000, Facing::Right),
        p2: character(3000, Facing::Left),
        status,
    }
}

#[test]
fn match_end_and_restart_are_detected_from_the_latest_snapshot() {
    let ended = Some(snapshot(MatchStatus::Ended {
        winner: Player::P2,
        reason: MatchEndReason::Forfeit,
    }));
    let running = Some(snapshot(MatchStatus::InProgress));
    assert_eq!(detect_match_end(&ended), Some(AppState::MatchEnded));
    assert_eq!(detect_match_end(&running), None);
    assert_eq!(detect_match_end(&None), None);
    assert_eq!(detect_match_restarted(&running), Some(AppState::InMatch));
    assert_eq!(detect_match_restarted(&ended), None);
    assert_eq!(detect_match_restarted(&None), None);
}

#[test]
fn match_end_headline_names_the_winner() {
    let p1_won = Some(snapshot(MatchStatus::Ended {
        winner: Player::P1,
        reason: MatchEndReason::Defeated,
    }));
    let p2_won = Some(snapshot(MatchStatus::Ended {
        winner: Player::P2,
        reason: MatchEndReason::Defeated,
    }));
    assert_eq!(match_end_message(&p1_won), "Player 1 wins!");
    assert_eq!(match_end_message(&p2_won), "Player 2 wins!");
    assert_eq!(match_end_message(&Some(snapshot(MatchStatus::InProgress))), "Match ended.");
    assert_eq!(match_end_message(&None), "Match ended.");
}

#[test]
fn each_slot_reads_its_own_half_of_the_snapshot() {
    let s = snapshot(MatchStatus::InProgress);
    assert_eq!(character_snapshot_for(&s, Slot::P1).position, -3000);
    assert_eq!(character_snapshot_for(&s, Slot::P2).position, 3000);
}
