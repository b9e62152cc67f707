//! Ground movement and Jump, and the Special's gating and speech bubble. Positions are in thousandths of a world unit,
//! heights in `HEIGHT_UNITS_PER_WORLD_UNIT`ths.

use combat_ductus::combat::{
    Attack, CharacterState, Facing, MatchEndReason, MatchState, Player, ATTACK_ANIMATION_TICKS,
    ATTACK_RANGE, HEIGHT_UNITS_PER_WORLD_UNIT, JUMP_DURATION_TICKS, JUMP_HEIGHT, KICK_COOLDOWN_TICKS, KICK_DAMAGE,
    MOVE_SPEED_PER_TICK, PUNCH_COOLDOWN_TICKS, PUNCH_DAMAGE, SPECIAL_COOLDOWN_TICKS,
    SPECIAL_DAMAGE, SPECIAL_LOCKOUT_TICKS, SPECIAL_MIN_RANGE, SPEECH_BUBBLE_DURATION_TICKS,
    STAGE_HALF_WIDTH, STARTING_HEALTH,
};

/// A height in world units.
fn world_units(height: i32) -> f32 {
    height as f32 / HEIGHT_UNITS_PER_WORLD_UNIT as f32
}

fn state_at(position: i32, facing: Facing) -> CharacterState {
    CharacterState::new(position, facing)
}

#[test]
fn movement_move_player_applies_delta_in_either_direction() {
    let mut m = MatchState::new();
    m.p1 = state_at(0, Facing::Right);

    m.move_player(Player::P1, MOVE_SPEED_PER_TICK);
    assert_eq!(m.p1.position, MOVE_SPEED_PER_TICK);

    m.move_player(Player::P1, -2 * MOVE_SPEED_PER_TICK);
    assert_eq!(m.p1.position, -MOVE_SPEED_PER_TICK);
}

#[test]
fn movement_move_player_clamps_at_the_positive_stage_bound() {
    let mut m = MatchState::new();
    m.p1 = state_at(STAGE_HALF_WIDTH - 10, Facing::Right);

    m.move_player(Player::P1, 10000);
    assert_eq!(m.p1.position, STAGE_HALF_WIDTH);
}

#[test]
fn movement_move_player_clamps_at_the_negative_stage_bound() {
    let mut m = MatchState::new();
    m.p1 = state_at(-STAGE_HALF_WIDTH + 10, Facing::Right);

    m.move_player(Player::P1, -10000);
    assert_eq!(m.p1.position, -STAGE_HALF_WIDTH);
}

#[test]
fn movement_move_player_does_nothing_after_the_match_has_ended() {
    let mut m = MatchState::new();
    m.p1 = state_at(0, Facing::Right);
    m.winner = Some(Player::P2);

    m.move_player(Player::P1, 1000);
    assert_eq!(m.p1.position, 0);
}

#[test]
fn movement_jump_sends_a_character_airborne_and_they_land_again() {
    let mut m = MatchState::new();
    m.p1 = state_at(0, Facing::Right);

    m.jump(Player::P1);
    assert!(m.p1.airborne);
    assert_eq!(m.p1.vertical_offset, 0);

    for _ in 0..JUMP_DURATION_TICKS - 1 {
        m.advance_tick();
        assert!(m.p1.airborne);
        assert!(m.p1.vertical_offset > 0);
    }

    m.advance_tick();
    assert!(!m.p1.airborne);
    assert_eq!(m.p1.vertical_offset, 0);
}

#[test]
fn movement_jump_arc_peaks_at_the_midpoint_and_is_symmetric() {
    let mut m = MatchState::new();
    m.p1 = state_at(0, Facing::Right);
    m.jump(Player::P1);

    let half = JUMP_DURATION_TICKS / 2;
    for _ in 0..half {
        m.advance_tick();
    }
    let midpoint_height = m.p1.vertical_offset;
    assert!(world_units(midpoint_height - JUMP_HEIGHT).abs() < 0.01);

    // One tick before takeoff and one tick before landing should read
    // the same height - the arc is symmetric, not a sawtooth.
    let mut early = MatchState::new();
    early.p1 = state_at(0, Facing::Right);
    early.jump(Player::P1);
    early.advance_tick();
    let mut late = MatchState::new();
    late.p1 = state_at(0, Facing::Right);
    late.jump(Player::P1);
    for _ in 0..JUMP_DURATION_TICKS - 1 {
        late.advance_tick();
    }
    assert!(world_units(early.p1.vertical_offset - late.p1.vertical_offset).abs() < 0.01);
}

#[test]
fn movement_jump_does_not_change_horizontal_position() {
    let mut m = MatchState::new();
    m.p1 = state_at(1000, Facing::Right);

    m.jump(Player::P1);
    for _ in 0..JUMP_DURATION_TICKS {
        m.advance_tick();
    }

    assert_eq!(m.p1.position, 1000);
}

#[test]
fn movement_jumping_again_while_already_airborne_is_a_no_op() {
    let mut m = MatchState::new();
    m.p1 = state_at(0, Facing::Right);

    m.jump(Player::P1);
    m.advance_tick();
    let mid_arc_remaining_offset = m.p1.vertical_offset;

    // A second Jump input mid-arc shouldn't restart the arc's duration.
    m.jump(Player::P1);
    m.advance_tick();
    assert!(m.p1.vertical_offset != mid_arc_remaining_offset);
    for _ in 0..JUMP_DURATION_TICKS - 2 {
        m.advance_tick();
    }
    assert!(!m.p1.airborne);
}

#[test]
fn movement_jump_does_nothing_after_the_match_has_ended() {
    let mut m = MatchState::new();
    m.p1 = state_at(0, Facing::Right);
    m.winner = Some(Player::P2);

    m.jump(Player::P1);
    assert!(!m.p1.airborne);
}

#[test]
fn special_special_hits_regardless_of_distance_and_facing_when_allowed() {
    let mut m = MatchState::new();
    m.p1 = state_at(0, Facing::Right);
    // Opponent is behind the attacker's Facing and far away - a Punch/Kick
    // would never land here, but Special ignores both.
    m.p2 = state_at(-(SPECIAL_MIN_RANGE + 1000), Facing::Left);

    assert!(m.apply_attack(Player::P1, Attack::Special));
    assert_eq!(m.p2.health, STARTING_HEALTH - SPECIAL_DAMAGE);
    assert!(m.p1.speaking);
}

#[test]
fn special_special_fails_exactly_at_min_range_boundary() {
    let mut m = MatchState::new();
    m.p1 = state_at(0, Facing::Right);
    m.p2 = state_at(SPECIAL_MIN_RANGE, Facing::Left);

    assert!(!m.apply_attack(Player::P1, Attack::Special));
    assert!(!m.p1.speaking);
}

#[test]
fn special_special_succeeds_just_beyond_min_range_boundary() {
    let mut m = MatchState::new();
    m.p1 = state_at(0, Facing::Right);
    m.p2 = state_at(SPECIAL_MIN_RANGE + 10, Facing::Left);

    assert!(m.apply_attack(Player::P1, Attack::Special));
}

#[test]
fn special_special_is_gated_by_cooldown() {
    let mut m = MatchState::new();
    m.p1 = state_at(0, Facing::Right);
    m.p2 = state_at(SPECIAL_MIN_RANGE + 1000, Facing::Left);

    assert!(m.apply_attack(Player::P1, Attack::Special));

    // Still within cooldown - immediately re-casting should fail.
    assert!(!m.apply_attack(Player::P1, Attack::Special));

    // Exactly at the cooldown boundary - still not ready.
    m.tick += SPECIAL_COOLDOWN_TICKS - 1;
    assert!(!m.apply_attack(Player::P1, Attack::Special));

    // One tick further - cooldown has elapsed.
    m.tick += 1;
    assert!(m.apply_attack(Player::P1, Attack::Special));
}

#[test]
fn special_special_is_gated_by_recent_damage_lockout() {
    let mut m = MatchState::new();
    m.p1 = state_at(0, Facing::Right);
    m.p2 = state_at(SPECIAL_MIN_RANGE + 1000, Facing::Left);

    // P1 gets hit by P2's Punch (bring them into Punch range briefly).
    m.p1.position = 0;
    m.p2.position = 1000;
    assert!(m.apply_attack(Player::P2, Attack::Punch));
    assert_eq!(m.p1.last_hit_tick, Some(0));

    // Move back out to Special range; P1 tries to cast immediately -
    // still within the lockout window.
    m.p2.position = SPECIAL_MIN_RANGE + 1000;
    assert!(!m.apply_attack(Player::P1, Attack::Special));

    // Exactly at the lockout boundary - still not ready.
    m.tick += SPECIAL_LOCKOUT_TICKS - 1;
    assert!(!m.apply_attack(Player::P1, Attack::Special));

    // One tick further - lockout has elapsed.
    m.tick += 1;
    assert!(m.apply_attack(Player::P1, Attack::Special));
}

#[test]
fn special_rejected_special_casts_never_show_a_speech_bubble() {
    let mut m = MatchState::new();
    m.p1 = state_at(0, Facing::Right);

    // Too close - gated by minimum range.
    m.p2 = state_at(SPECIAL_MIN_RANGE, Facing::Left);
    assert!(!m.apply_attack(Player::P1, Attack::Special));
    assert!(!m.p1.speaking);

    // Far enough now, but still within cooldown from a prior cast.
    m.p2 = state_at(SPECIAL_MIN_RANGE + 1000, Facing::Left);
    assert!(m.apply_attack(Player::P1, Attack::Special));
    m.p1.speaking = false; // reset to isolate the next (rejected) cast
    assert!(!m.apply_attack(Player::P1, Attack::Special));
    assert!(!m.p1.speaking);
}

#[test]
fn special_speech_bubble_clears_after_its_duration() {
    let mut m = MatchState::new();
    m.p1 = state_at(0, Facing::Right);
    m.p2 = state_at(SPECIAL_MIN_RANGE + 1000, Facing::Left);

    m.apply_attack(Player::P1, Attack::Special);
    assert!(m.p1.speaking);

    for _ in 0..SPEECH_BUBBLE_DURATION_TICKS - 1 {
        m.advance_tick();
        assert!(m.p1.speaking);
    }

    m.advance_tick();
    assert!(!m.p1.speaking);
}

#[test]
fn special_special_never_starts_an_attack_animation() {
    let mut m = MatchState::new();
    m.p1 = state_at(0, Facing::Right);
    m.p2 = state_at(SPECIAL_MIN_RANGE + 1000, Facing::Left);

    assert!(m.apply_attack(Player::P1, Attack::Special));
    assert_eq!(m.p1.attack_animation, None);
}
