//! Properties the combat rules keep across every operation and over time:
//! a decided Match stays decided, Health only ever falls, Characters stay
//! on the Stage and keep their Facing, cooldowns gate exactly as long as
//! they say, and every timed effect (swing, Jump, speech bubble) lasts
//! exactly its stated number of ticks.

use vstd::prelude::*;
use crate::combat::{
    cooldown_elapsed, cooldown_of, damage_of, is_ground_attack, jump_arc_height, other, special_allowed,
    starting_match, Attack, CharacterState, Facing, MatchEndReason, MatchState, Player,
    ATTACK_ANIMATION_TICKS, ATTACK_RANGE, HEIGHT_UNITS_PER_WORLD_UNIT, JUMP_DURATION_TICKS,
    JUMP_HEIGHT, KICK_COOLDOWN_TICKS, PUNCH_COOLDOWN_TICKS, SPECIAL_COOLDOWN_TICKS,
    SPECIAL_LOCKOUT_TICKS, SPECIAL_MIN_RANGE, SPEECH_BUBBLE_DURATION_TICKS, STAGE_HALF_WIDTH,
    STARTING_HEALTH, PUNCH_DAMAGE, KICK_DAMAGE, SPECIAL_DAMAGE,
};

verus! {

/// Stepping a Character `n + 1` ticks is stepping it `n` ticks and then one
/// more.
pub proof fn lemma_character_advanced_step(c: CharacterState, n: nat)
    ensures
        c.advanced(n + 1) == c.advanced(n).ticked(),
    decreases n,
{
    if n > 0 {
        lemma_character_advanced_step(c.ticked(), (n - 1) as nat);
        assert(c.advanced(n) == c.ticked().advanced((n - 1) as nat));
        assert(c.advanced(n + 1) == c.ticked().advanced(n));
    }
}

/// Stepping a Match `n` ticks steps each Character `n` ticks and leaves the
/// outcome alone.
pub proof fn lemma_match_advanced_characters(m: MatchState, n: nat)
    ensures
        m.advanced(n).p1 == m.p1.advanced(n),
        m.advanced(n).p2 == m.p2.advanced(n),
        m.advanced(n).winner == m.winner,
        m.advanced(n).end_reason == m.end_reason,
    decreases n,
{
    if n > 0 {
        lemma_match_advanced_characters(m.ticked(), (n - 1) as nat);
    }
}

/// A freshly started Match is in progress at tick 0, consistent and well
/// formed, with Player 1 facing right at `-2 * ATTACK_RANGE` and Player 2
/// facing left at `2 * ATTACK_RANGE`, both grounded at full Health with no
/// history, no swing and no speech bubble.
pub proof fn law_fresh_match(p: Player)
    ensures
        !starting_match().ended(),
        starting_match().outcome_consistent(),
        starting_match().well_formed(),
        starting_match().p1.facing == Facing::Right,
        starting_match().p2.facing == Facing::Left,
        starting_match().p1.position < starting_match().p2.position,
        -STAGE_HALF_WIDTH <= starting_match().character(p).position <= STAGE_HALF_WIDTH,
        starting_match().character(p).health == STARTING_HEALTH,
        starting_match().tick == 0,
        starting_match().p1.position == -2 * ATTACK_RANGE,
        starting_match().p2.position == 2 * ATTACK_RANGE,
        !starting_match().character(p).airborne,
        starting_match().character(p).vertical_offset == 0,
        !starting_match().character(p).speaking,
        starting_match().character(p).attack_animation is None,
        starting_match().character(p).last_attack_tick is None,
        starting_match().character(p).last_hit_tick is None,
        starting_match().character(p).special_last_cast_tick is None,
{
}

/// A decided Match is terminal: no attack lands, and attacks, movement,
/// jumps and forfeits all leave it exactly as it was; ticking on never
/// changes who won or why.
pub proof fn law_ended_match_is_terminal(m: MatchState, p: Player, attack: Attack, delta: int, n: nat)
    requires
        m.ended(),
    ensures
        !m.attack_lands(p, attack),
        m.attacked(p, attack) == m,
        m.moved(p, delta) == m,
        m.jumped(p) == m,
        m.forfeited(p) == m,
        m.advanced(n).winner == m.winner,
        m.advanced(n).end_reason == m.end_reason,
{
    lemma_match_advanced_characters(m, n);
}

/// `winner` and `end_reason` are always set together: every operation
/// keeps them consistent, and each way of ending records its own reason.
pub proof fn law_outcome_stays_consistent(m: MatchState, p: Player, attack: Attack, delta: int)
    requires
        m.outcome_consistent(),
    ensures
        m.attacked(p, attack).outcome_consistent(),
        m.moved(p, delta).outcome_consistent(),
        m.jumped(p).outcome_consistent(),
        m.forfeited(p).outcome_consistent(),
        m.ticked().outcome_consistent(),
        !m.ended() && m.attacked(p, attack).ended() ==> m.attacked(p, attack).end_reason
            == Some(MatchEndReason::Defeated),
        !m.ended() ==> m.forfeited(p).end_reason == Some(MatchEndReason::Forfeit),
{
}

/// Health never increases, and only a landed attack lowers it - for the
/// defender, by at most that attack's damage.
pub proof fn law_health_never_increases(m: MatchState, p: Player, q: Player, attack: Attack, delta: int)
    ensures
        m.attacked(p, attack).character(q).health <= m.character(q).health,
        m.moved(p, delta).character(q).health == m.character(q).health,
        m.jumped(p).character(q).health == m.character(q).health,
        m.forfeited(p).character(q).health == m.character(q).health,
        m.ticked().character(q).health == m.character(q).health,
        m.attacked(p, attack).character(p).health == m.character(p).health,
        !m.attack_lands(p, attack) ==> m.attacked(p, attack).character(q).health == m.character(
            q,
        ).health,
        m.attack_lands(p, attack) ==> m.attacked(p, attack).character(other(p)).health == (if m.character(
            other(p),
        ).health >= damage_of(attack) {
            m.character(other(p)).health - damage_of(attack)
        } else {
            0
        }),
{
}

/// A Match in progress ends on an attack exactly when that attack lands and
/// brings the defender's Health to zero; the attacker is then the winner.
pub proof fn law_match_ends_exactly_when_health_reaches_zero(
    m: MatchState,
    attacker: Player,
    attack: Attack,
)
    requires
        !m.ended(),
    ensures
        m.attacked(attacker, attack).ended() <==> (m.attack_lands(attacker, attack) && m.attacked(
            attacker,
            attack,
        ).character(other(attacker)).health == 0),
        m.attacked(attacker, attack).ended() ==> m.attacked(attacker, attack).winner == Some(
            attacker,
        ),
{
}

/// A forfeit in an undecided Match goes to the disconnected player's
/// opponent and touches nothing else.
pub proof fn law_forfeit_goes_to_the_opponent(m: MatchState, disconnected: Player)
    requires
        !m.ended(),
    ensures
        m.forfeited(disconnected).winner == Some(other(disconnected)),
        m.forfeited(disconnected).end_reason == Some(MatchEndReason::Forfeit),
        m.forfeited(disconnected).p1 == m.p1,
        m.forfeited(disconnected).p2 == m.p2,
        m.forfeited(disconnected).tick == m.tick,
{
}

/// A Character's Facing never changes, whatever happens in the Match.
pub proof fn law_facing_is_fixed(m: MatchState, p: Player, q: Player, attack: Attack, delta: int)
    ensures
        m.attacked(p, attack).character(q).facing == m.character(q).facing,
        m.moved(p, delta).character(q).facing == m.character(q).facing,
        m.jumped(p).character(q).facing == m.character(q).facing,
        m.forfeited(p).character(q).facing == m.character(q).facing,
        m.ticked().character(q).facing == m.character(q).facing,
{
}

/// Only movement changes positions, and movement always leaves a
/// Character on the Stage; so Characters that start on the Stage stay on
/// it.
pub proof fn law_characters_stay_on_stage(m: MatchState, p: Player, q: Player, attack: Attack, delta: int)
    ensures
        !m.ended() ==> -STAGE_HALF_WIDTH <= m.moved(p, delta).character(p).position
            <= STAGE_HALF_WIDTH,
        p != q ==> m.moved(p, delta).character(q).position == m.character(q).position,
        m.attacked(p, attack).character(q).position == m.character(q).position,
        m.jumped(p).character(q).position == m.character(q).position,
        m.forfeited(p).character(q).position == m.character(q).position,
        m.ticked().character(q).position == m.character(q).position,
{
}

/// A Punch/Kick still on its shared cooldown is dropped without a trace:
/// nothing lands and nothing changes, not even the swing.
pub proof fn law_gated_attack_changes_nothing(m: MatchState, attacker: Player, attack: Attack)
    requires
        is_ground_attack(attack),
        !cooldown_elapsed(m.character(attacker), attack, m.tick),
    ensures
        !m.attack_lands(attacker, attack),
        m.attacked(attacker, attack) == m,
{
}

/// A rejected Special leaves the Match exactly as it was - in particular no
/// speech bubble appears.
pub proof fn law_rejected_special_changes_nothing(m: MatchState, attacker: Player)
    requires
        !m.attack_lands(attacker, Attack::Special),
    ensures
        m.attacked(attacker, Attack::Special) == m,
{
}

/// A Punch/Kick that is off cooldown is always thrown, whether or not it
/// lands: its swing starts and the shared cooldown clock restarts.
pub proof fn law_thrown_attack_always_swings(m: MatchState, attacker: Player, attack: Attack)
    requires
        !m.ended(),
        is_ground_attack(attack),
        cooldown_elapsed(m.character(attacker), attack, m.tick),
    ensures
        m.attacked(attacker, attack).character(attacker).attack_animation == Some(attack),
        m.attacked(attacker, attack).character(attacker).last_attack_tick == Some(m.tick),
{
}

/// The Special never starts a limb swing, landed or not.
pub proof fn law_special_never_swings(m: MatchState, attacker: Player)
    ensures
        m.attacked(attacker, Attack::Special).character(attacker).attack_animation == m.character(
            attacker,
        ).attack_animation,
{
}

/// Punch and Kick share one cooldown clock: after either is thrown at tick
/// `t`, a Punch is next allowed from `t + PUNCH_COOLDOWN_TICKS` and a Kick
/// from `t + KICK_COOLDOWN_TICKS`, and not a tick earlier.
pub proof fn law_shared_attack_cooldown(c: CharacterState, thrown: Attack, t: u64, next: Attack, now: u64)
    requires
        is_ground_attack(thrown),
        is_ground_attack(next),
    ensures
        cooldown_elapsed(c.swung(thrown, t), next, now) <==> now >= t + cooldown_of(next),
        cooldown_of(Attack::Punch) * 2 == cooldown_of(Attack::Kick),
{
}

/// A fresh Match gates nothing: either Character may throw any attack on
/// the first tick, whatever came before it.
pub proof fn law_fresh_match_has_no_cooldowns(p: Player, attack: Attack)
    ensures
        cooldown_elapsed(starting_match().character(p), attack, starting_match().tick),
{
}

/// The Special is gated by its own cooldown and by the recent-damage
/// lockout: after a cast at `t` it is refused before `t +
/// SPECIAL_COOLDOWN_TICKS`, and after a hit (of any damage) at `h` before
/// `h + SPECIAL_LOCKOUT_TICKS`.
pub proof fn law_special_gates(
    a: CharacterState,
    d: CharacterState,
    t: u64,
    h: u64,
    damage: u8,
    now: u64,
)
    ensures
        now < t + SPECIAL_COOLDOWN_TICKS ==> !special_allowed(a.cast(t), d, now),
        now < h + SPECIAL_LOCKOUT_TICKS ==> !special_allowed(a.hit(damage, h), d, now),
{
}

/// The Jump arc is exact - `jump_arc_height` is the parabola
/// `JUMP_HEIGHT * 4 * p * (1 - p)` with no rounding, and `JUMP_HEIGHT` is
/// 0.8 world units - symmetric about its midpoint, where it reaches exactly
/// `JUMP_HEIGHT`, and above the ground everywhere strictly between takeoff
/// and landing.
pub proof fn law_jump_arc_shape(e: int)
    requires
        0 <= e <= JUMP_DURATION_TICKS,
    ensures
        jump_arc_height(e) * (JUMP_DURATION_TICKS * JUMP_DURATION_TICKS) == JUMP_HEIGHT * 4 * e * (
        JUMP_DURATION_TICKS - e),
        JUMP_HEIGHT * 5 == HEIGHT_UNITS_PER_WORLD_UNIT * 4,
        jump_arc_height(e) == jump_arc_height(JUMP_DURATION_TICKS - e),
        jump_arc_height((JUMP_DURATION_TICKS / 2) as int) == JUMP_HEIGHT,
        0 < e < JUMP_DURATION_TICKS ==> jump_arc_height(e) > 0,
        jump_arc_height(e) <= JUMP_HEIGHT,
{
    let k = e * (24 - e);
    assert(JUMP_HEIGHT * 4 * e * (JUMP_DURATION_TICKS - e) == 28800 * k) by (nonlinear_arith)
        requires
            k == e * (24 - e),
    ;
    assert(JUMP_HEIGHT * 4 * (JUMP_DURATION_TICKS - e) * (JUMP_DURATION_TICKS - (
    JUMP_DURATION_TICKS - e)) == 28800 * k) by (nonlinear_arith)
        requires
            k == e * (24 - e),
    ;
    assert((28800 * k) / 576 == 50 * k);
    assert(jump_arc_height(e) == 50 * k);
    assert(JUMP_DURATION_TICKS * JUMP_DURATION_TICKS == 576);
    assert(0 < e < 24 ==> k >= 23) by (nonlinear_arith)
        requires
            k == e * (24 - e),
    ;
    assert(0 <= k <= 144) by (nonlinear_arith)
        requires
            k == e * (24 - e),
            0 <= e <= 24,
    ;
}

/// Step-by-step progress of a Jump arc that has run for `n` ticks.
proof fn lemma_jump_progress(c: CharacterState, n: nat)
    requires
        c.airborne,
        c.jump_ticks_remaining == JUMP_DURATION_TICKS,
        n <= JUMP_DURATION_TICKS,
    ensures
        c.advanced(n).jump_ticks_remaining == JUMP_DURATION_TICKS - n,
        c.advanced(n).airborne == (n < JUMP_DURATION_TICKS),
        0 < n < JUMP_DURATION_TICKS ==> c.advanced(n).vertical_offset == jump_arc_height(n as int),
        n == JUMP_DURATION_TICKS ==> c.advanced(n).vertical_offset == 0,
        n == 0 ==> c.advanced(n).vertical_offset == c.vertical_offset,
        c.advanced(n).position == c.position,
        c.advanced(n).facing == c.facing,
    decreases n,
{
    if n > 0 {
        lemma_jump_progress(c, (n - 1) as nat);
        lemma_character_advanced_step(c, (n - 1) as nat);
        law_jump_arc_shape(n as int);
    }
}

/// A Jump from the ground keeps the Character airborne, above the ground
/// (`n` ticks in, at exactly `jump_arc_height(n)`) and at the same
/// horizontal position for `JUMP_DURATION_TICKS - 1` ticks, and lands it back on the ground, at that same position, on tick
/// `JUMP_DURATION_TICKS`.
pub proof fn law_jump_lasts_exactly_its_duration(m: MatchState, p: Player, n: nat)
    requires
        !m.ended(),
        !m.character(p).airborne,
    ensures
        0 < n < JUMP_DURATION_TICKS ==> m.jumped(p).advanced(n).character(p).airborne,
        0 < n < JUMP_DURATION_TICKS ==> m.jumped(p).advanced(n).character(p).vertical_offset > 0,
        0 < n < JUMP_DURATION_TICKS ==> m.jumped(p).advanced(n).character(p).vertical_offset
            == jump_arc_height(n as int),
        !m.jumped(p).advanced(JUMP_DURATION_TICKS as nat).character(p).airborne,
        m.jumped(p).advanced(JUMP_DURATION_TICKS as nat).character(p).vertical_offset == 0,
        n <= JUMP_DURATION_TICKS ==> m.jumped(p).advanced(n).character(p).position == m.character(
            p,
        ).position,
{
    let j = m.jumped(p);
    let c = j.character(p);
    lemma_match_advanced_characters(j, n);
    lemma_match_advanced_characters(j, JUMP_DURATION_TICKS as nat);
    lemma_jump_progress(c, JUMP_DURATION_TICKS as nat);
    if n <= JUMP_DURATION_TICKS {
        lemma_jump_progress(c, n);
        if 0 < n < JUMP_DURATION_TICKS {
            law_jump_arc_shape(n as int);
        }
    }
}

/// Step-by-step progress of a swing that has run for `n` ticks.
proof fn lemma_swing_progress(c: CharacterState, attack: Attack, n: nat)
    requires
        c.attack_animation == Some(attack),
        c.attack_animation_ticks_remaining == ATTACK_ANIMATION_TICKS,
        n <= ATTACK_ANIMATION_TICKS,
    ensures
        c.advanced(n).attack_animation_ticks_remaining == ATTACK_ANIMATION_TICKS - n,
        c.advanced(n).attack_animation == (if n < ATTACK_ANIMATION_TICKS {
            Some(attack)
        } else {
            None
        }),
    decreases n,
{
    if n > 0 {
        lemma_swing_progress(c, attack, (n - 1) as nat);
        lemma_character_advanced_step(c, (n - 1) as nat);
    }
}

/// A thrown Punch/Kick's swing shows for exactly `ATTACK_ANIMATION_TICKS`
/// ticks and is gone on the tick after.
pub proof fn law_swing_lasts_exactly_its_duration(
    m: MatchState,
    attacker: Player,
    attack: Attack,
    n: nat,
)
    requires
        !m.ended(),
        is_ground_attack(attack),
        cooldown_elapsed(m.character(attacker), attack, m.tick),
    ensures
        n < ATTACK_ANIMATION_TICKS ==> m.attacked(attacker, attack).advanced(n).character(
            attacker,
        ).attack_animation == Some(attack),
        m.attacked(attacker, attack).advanced(ATTACK_ANIMATION_TICKS as nat).character(
            attacker,
        ).attack_animation is None,
{
    let r = m.attacked(attacker, attack);
    let c = r.character(attacker);
    lemma_match_advanced_characters(r, n);
    lemma_match_advanced_characters(r, ATTACK_ANIMATION_TICKS as nat);
    lemma_swing_progress(c, attack, ATTACK_ANIMATION_TICKS as nat);
    if n < ATTACK_ANIMATION_TICKS {
        lemma_swing_progress(c, attack, n);
    }
}

/// Step-by-step progress of a speech bubble that has shown for `n` ticks.
proof fn lemma_bubble_progress(c: CharacterState, n: nat)
    requires
        c.speaking,
        c.speech_bubble_ticks_remaining == SPEECH_BUBBLE_DURATION_TICKS,
        n <= SPEECH_BUBBLE_DURATION_TICKS,
    ensures
        c.advanced(n).speech_bubble_ticks_remaining == SPEECH_BUBBLE_DURATION_TICKS - n,
        c.advanced(n).speaking == (n < SPEECH_BUBBLE_DURATION_TICKS),
    decreases n,
{
    if n > 0 {
        lemma_bubble_progress(c, (n - 1) as nat);
        lemma_character_advanced_step(c, (n - 1) as nat);
    }
}

/// A landed Special shows the caster's speech bubble for exactly
/// `SPEECH_BUBBLE_DURATION_TICKS` ticks.
pub proof fn law_speech_bubble_lasts_exactly_its_duration(m: MatchState, attacker: Player, n: nat)
    requires
        m.attack_lands(attacker, Attack::Special),
    ensures
        n < SPEECH_BUBBLE_DURATION_TICKS ==> m.attacked(attacker, Attack::Special).advanced(
            n,
        ).character(attacker).speaking,
        !m.attacked(attacker, Attack::Special).advanced(
            SPEECH_BUBBLE_DURATION_TICKS as nat,
        ).character(attacker).speaking,
{
    let r = m.attacked(attacker, Attack::Special);
    let c = r.character(attacker);
    lemma_match_advanced_characters(r, n);
    lemma_match_advanced_characters(r, SPEECH_BUBBLE_DURATION_TICKS as nat);
    lemma_bubble_progress(c, SPEECH_BUBBLE_DURATION_TICKS as nat);
    if n < SPEECH_BUBBLE_DURATION_TICKS {
        lemma_bubble_progress(c, n);
    }
}

/// A tick advances the tick counter by one and only runs the timed effects
/// (swing, Jump arc, speech bubble): who won and why, and each Character's
/// position, Facing, Health and attack history stay as they were. In a well
/// formed Match a grounded Character has no height, before and after.
pub proof fn law_tick_only_runs_timers(m: MatchState, p: Player)
    requires
        m.tick < u64::MAX,
    ensures
        m.ticked().tick == m.tick + 1,
        m.ticked().winner == m.winner,
        m.ticked().end_reason == m.end_reason,
        m.ticked().character(p).position == m.character(p).position,
        m.ticked().character(p).facing == m.character(p).facing,
        m.ticked().character(p).health == m.character(p).health,
        m.ticked().character(p).last_attack_tick == m.character(p).last_attack_tick,
        m.ticked().character(p).last_hit_tick == m.character(p).last_hit_tick,
        m.ticked().character(p).special_last_cast_tick == m.character(p).special_last_cast_tick,
        m.well_formed() && !m.character(p).airborne ==> m.character(p).vertical_offset == 0,
        m.well_formed() && !m.ticked().character(p).airborne ==> m.ticked().character(
            p,
        ).vertical_offset == 0,
{
    if m.well_formed() {
        law_operations_keep_match_well_formed(m, p, Attack::Punch, 0);
    }
}

/// A Punch or Kick lands exactly when the Match is undecided, at least the
/// attack's cooldown (`PUNCH_COOLDOWN_TICKS` or `KICK_COOLDOWN_TICKS`) has
/// passed since the attacker last threw either, neither Character is
/// airborne, and the defender stands at most `ATTACK_RANGE` away on the
/// side the attacker faces (at or to the right of it when facing right, at
/// or to the left of it when facing left).
pub proof fn law_ground_attack_lands_exactly_in_reach(m: MatchState, p: Player, attack: Attack)
    requires
        attack == Attack::Punch || attack == Attack::Kick,
    ensures
        ({
            let a = match p {
                Player::P1 => m.p1,
                Player::P2 => m.p2,
            };
            let d = match p {
                Player::P1 => m.p2,
                Player::P2 => m.p1,
            };
            let cooldown = if attack == Attack::Punch {
                PUNCH_COOLDOWN_TICKS
            } else {
                KICK_COOLDOWN_TICKS
            };
            m.attack_lands(p, attack) <==> {
                &&& m.winner is None
                &&& (a.last_attack_tick matches Some(t) ==> t <= m.tick && m.tick - t >= cooldown)
                &&& !a.airborne
                &&& !d.airborne
                &&& d.position - a.position <= ATTACK_RANGE
                &&& a.position - d.position <= ATTACK_RANGE
                &&& (a.facing == Facing::Right ==> d.position >= a.position)
                &&& (a.facing == Facing::Left ==> d.position <= a.position)
            }
        }),
{
}

/// The Special lands exactly when the Match is undecided, the opponent is
/// farther than `SPECIAL_MIN_RANGE` away in either direction, at least
/// `SPECIAL_COOLDOWN_TICKS` have passed since the caster's last cast, and at
/// least `SPECIAL_LOCKOUT_TICKS` since the caster was last hit - whatever
/// either Character's Facing or airborne state, and whatever the caster's
/// Punch/Kick cooldown.
pub proof fn law_special_lands_exactly_when_allowed(m: MatchState, p: Player)
    ensures
        ({
            let a = match p {
                Player::P1 => m.p1,
                Player::P2 => m.p2,
            };
            let d = match p {
                Player::P1 => m.p2,
                Player::P2 => m.p1,
            };
            m.attack_lands(p, Attack::Special) <==> {
                &&& m.winner is None
                &&& (d.position - a.position > SPECIAL_MIN_RANGE || a.position - d.position
                    > SPECIAL_MIN_RANGE)
                &&& (a.special_last_cast_tick matches Some(t) ==> t <= m.tick && m.tick - t
                    >= SPECIAL_COOLDOWN_TICKS)
                &&& (a.last_hit_tick matches Some(t) ==> t <= m.tick && m.tick - t
                    >= SPECIAL_LOCKOUT_TICKS)
            }
        }),
{
}

/// A landed attack costs the defender exactly its damage - `PUNCH_DAMAGE`,
/// `KICK_DAMAGE` or `SPECIAL_DAMAGE` - never going below zero, records the
/// hit at the current tick, and leaves the defender where it stands; the
/// Match ends, won by the attacker and `Defeated`, exactly when that brings
/// the defender's Health to zero. A landed Special also shows the caster's
/// speech bubble for `SPEECH_BUBBLE_DURATION_TICKS` and restarts its
/// cooldown from the current tick.
pub proof fn law_landed_attack_effects(m: MatchState, p: Player, attack: Attack)
    requires
        m.attack_lands(p, attack),
    ensures
        ({
            let d = match p {
                Player::P1 => m.p2,
                Player::P2 => m.p1,
            };
            let r = m.attacked(p, attack);
            let rd = match p {
                Player::P1 => r.p2,
                Player::P2 => r.p1,
            };
            let ra = match p {
                Player::P1 => r.p1,
                Player::P2 => r.p2,
            };
            let damage = match attack {
                Attack::Punch => PUNCH_DAMAGE,
                Attack::Kick => KICK_DAMAGE,
                Attack::Special => SPECIAL_DAMAGE,
            };
            &&& rd.health == (if d.health >= damage {
                d.health - damage
            } else {
                0
            })
            &&& rd.last_hit_tick == Some(m.tick)
            &&& rd.position == d.position
            &&& rd.facing == d.facing
            &&& (r.winner is Some) == (rd.health == 0)
            &&& rd.health == 0 ==> r.winner == Some(p) && r.end_reason == Some(
                MatchEndReason::Defeated,
            )
            &&& r.tick == m.tick
            &&& attack == Attack::Special ==> {
                &&& ra.speaking
                &&& ra.speech_bubble_ticks_remaining == SPEECH_BUBBLE_DURATION_TICKS
                &&& ra.special_last_cast_tick == Some(m.tick)
            }
        }),
{
}

/// Movement and Jump act on the named Character only. In an undecided
/// Match, moving by `delta` puts the Character at its position plus
/// `delta`, stopped at the Stage's edges; a Jump from the ground sends it
/// airborne for `JUMP_DURATION_TICKS` without moving it, and a Jump while
/// already airborne (no double jump) or after the Match has ended changes
/// nothing.
pub proof fn law_move_and_jump(m: MatchState, p: Player, delta: int)
    ensures
        ({
            let (c, o) = match p {
                Player::P1 => (m.p1, m.p2),
                Player::P2 => (m.p2, m.p1),
            };
            let moved = m.moved(p, delta);
            let (mc, mo) = match p {
                Player::P1 => (moved.p1, moved.p2),
                Player::P2 => (moved.p2, moved.p1),
            };
            let target = c.position + delta;
            &&& m.winner is None ==> mc.position == (if target < -STAGE_HALF_WIDTH {
                -STAGE_HALF_WIDTH as int
            } else if target > STAGE_HALF_WIDTH {
                STAGE_HALF_WIDTH as int
            } else {
                target
            })
            &&& mo == o
            &&& mc.facing == c.facing && mc.health == c.health && mc.airborne == c.airborne
        }),
        ({
            let (c, o) = match p {
                Player::P1 => (m.p1, m.p2),
                Player::P2 => (m.p2, m.p1),
            };
            let jumped = m.jumped(p);
            let (jc, jo) = match p {
                Player::P1 => (jumped.p1, jumped.p2),
                Player::P2 => (jumped.p2, jumped.p1),
            };
            &&& jo == o
            &&& (m.winner is None && !c.airborne) ==> (jc.airborne && jc.jump_ticks_remaining
                == JUMP_DURATION_TICKS && jc.position == c.position && jc.health == c.health)
            &&& (m.winner is Some || c.airborne) ==> jumped == m
        }),
{
}

/// Every operation keeps a Match well formed (its countdowns within their
/// durations).
pub proof fn law_operations_keep_match_well_formed(m: MatchState, p: Player, attack: Attack, delta: int)
    requires
        m.well_formed(),
    ensures
        m.attacked(p, attack).well_formed(),
        m.moved(p, delta).well_formed(),
        m.jumped(p).well_formed(),
        m.forfeited(p).well_formed(),
        m.ticked().well_formed(),
{
}

} // verus!
