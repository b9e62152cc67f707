//! Pure combat rules: Health, damage, range checks, Special gating, and
//! Match-end detection.
//!
//! Operates on plain state (positions, Facing, tick counters) and returns
//! plain results; the server-authoritative simulation (`server_net`) is the
//! only consumer.
//!
//! Positions are integers measured in thousandths of a world unit
//! (`POSITION_UNITS_PER_WORLD_UNIT` of them make one world unit), and
//! heights integers in ninths of that (`HEIGHT_UNITS_PER_WORLD_UNIT`), so
//! every range check and every point of the Jump arc is exact.

use vstd::prelude::*;

verus! {

/// A Character's facing direction, fixed for the whole Match.
/// Player 1 always faces right, Player 2 always faces left.
#[derive(Debug, Clone, Copy, PartialEq, Eq, Structural)]
pub enum Facing {
    Right,
    Left,
}

/// Which of the two Match participants an action applies to.
#[derive(Debug, Clone, Copy, PartialEq, Eq, Structural)]
pub enum Player {
    P1,
    P2,
}

/// The other Match participant.
pub open spec fn other(player: Player) -> Player {
    match player {
        Player::P1 => Player::P2,
        Player::P2 => Player::P1,
    }
}

impl Player {
    /// The other Match participant.
    pub fn opponent(self) -> (r: Player)
        ensures
            r == other(self),
    {
        match self {
            Player::P1 => Player::P2,
            Player::P2 => Player::P1,
        }
    }
}

/// A Character's three attack categories: Punch, Kick, and the Special
/// (Motivational Speech).
#[derive(Debug, Clone, Copy, PartialEq, Eq, Structural)]
pub enum Attack {
    Punch,
    Kick,
    Special,
}

/// Why a Match ended, alongside who won.
#[derive(Debug, Clone, Copy, PartialEq, Eq, Structural)]
pub enum MatchEndReason {
    /// The winner depleted the loser's Health via a landed Punch, Kick, or
    /// Special.
    Defeated,
    /// The loser's connection disconnected mid-Match while the winner's
    /// connection was still present (see `MatchState::forfeit`).
    Forfeit,
}

pub const STARTING_HEALTH: u8 = 5;

pub const PUNCH_DAMAGE: u8 = 1;

pub const KICK_DAMAGE: u8 = 2;

/// How many position units make one world unit.
pub const POSITION_UNITS_PER_WORLD_UNIT: i32 = 1000;

/// Punch and Kick share the same range (1.5 world units) - they differ
/// only by damage. A simple 1D distance check.
pub const ATTACK_RANGE: i32 = 1500;

/// Ticks between successive Kicks, measured from the attacker's last Punch
/// *or* Kick (one shared cooldown clock).
pub const KICK_COOLDOWN_TICKS: u64 = 16;

/// Ticks between successive Punches, measured the same way: half of Kick's.
pub const PUNCH_COOLDOWN_TICKS: u64 = KICK_COOLDOWN_TICKS / 2;

pub const SPECIAL_DAMAGE: u8 = 1;

/// The Special can only be cast when the opponent is farther away than
/// this floor (3 world units) - the opposite of a normal attack's range.
pub const SPECIAL_MIN_RANGE: i32 = 3000;

/// Ticks between successive Special casts.
pub const SPECIAL_COOLDOWN_TICKS: u64 = 90;

/// Ticks a Character is locked out of Special after last being hit.
pub const SPECIAL_LOCKOUT_TICKS: u64 = 60;

/// Ground movement speed per simulation tick (0.05 world units).
pub const MOVE_SPEED_PER_TICK: i32 = 50;

/// Half the Stage's walkable width, measured from center (6 world units).
/// A Character's position is clamped to
/// `[-STAGE_HALF_WIDTH, STAGE_HALF_WIDTH]`.
pub const STAGE_HALF_WIDTH: i32 = 6000;

/// How long a Punch/Kick's visible arm/leg swing lasts, in ticks.
pub const ATTACK_ANIMATION_TICKS: u8 = 10;

/// How long a Jump's full rise-and-fall arc lasts, in ticks.
pub const JUMP_DURATION_TICKS: u8 = 24;

/// How many height units make one world unit. At this scale every point
/// of the Jump arc (see `jump_arc_height`) is a whole number of units, so
/// heights carry no rounding.
pub const HEIGHT_UNITS_PER_WORLD_UNIT: i32 = 9000;

/// The peak height a Jump reaches, in height units (0.8 world units).
pub const JUMP_HEIGHT: i32 = 7200;

/// How long a successfully-cast Special's speech bubble stays up, in ticks.
pub const SPEECH_BUBBLE_DURATION_TICKS: u8 = 60;

/// `p` clamped to the Stage's walkable width.
pub open spec fn clamp_to_stage(p: int) -> int {
    if p < -STAGE_HALF_WIDTH {
        -STAGE_HALF_WIDTH
    } else if p > STAGE_HALF_WIDTH {
        STAGE_HALF_WIDTH as int
    } else {
        p
    }
}

/// The height of the Jump arc `elapsed` ticks after takeoff: the parabola
/// `JUMP_HEIGHT * 4 * p * (1 - p)` with `p = elapsed / JUMP_DURATION_TICKS`,
/// in height units. The division is exact: `JUMP_HEIGHT * 4` is a multiple
/// of `JUMP_DURATION_TICKS * JUMP_DURATION_TICKS` (see
/// `law_jump_arc_shape`).
pub open spec fn jump_arc_height(elapsed: int) -> int {
    (JUMP_HEIGHT * 4 * elapsed * (JUMP_DURATION_TICKS - elapsed)) / (JUMP_DURATION_TICKS
        * JUMP_DURATION_TICKS)
}

/// The damage a landed `attack` deals.
pub open spec fn damage_of(attack: Attack) -> u8 {
    match attack {
        Attack::Punch => PUNCH_DAMAGE,
        Attack::Kick => KICK_DAMAGE,
        Attack::Special => SPECIAL_DAMAGE,
    }
}

/// Whether `attack` is a ground attack (Punch or Kick), as opposed to the
/// Special.
pub open spec fn is_ground_attack(attack: Attack) -> bool {
    attack !is Special
}

/// Ticks that must pass after the last Punch or Kick before `attack` may be
/// thrown.
pub open spec fn cooldown_of(attack: Attack) -> u64 {
    match attack {
        Attack::Punch => PUNCH_COOLDOWN_TICKS,
        Attack::Kick => KICK_COOLDOWN_TICKS,
        Attack::Special => 0,
    }
}

/// Ticks from `since` to `now`; a `since` later than `now` counts as no
/// time having passed.
pub open spec fn ticks_between(since: u64, now: u64) -> int {
    if since <= now {
        now - since
    } else {
        0
    }
}

/// Whether at least `ticks` ticks have passed since `since` (if ever), by
/// tick `now`.
pub open spec fn elapsed_at_least(since: Option<u64>, now: u64, ticks: u64) -> bool {
    match since {
        Some(t) => ticks_between(t, now) >= ticks,
        None => true,
    }
}

/// One Character's simulated state within a Match.
#[derive(Debug, Clone, Copy, PartialEq)]
pub struct CharacterState {
    pub position: i32,
    pub facing: Facing,
    pub health: u8,
    pub airborne: bool,
    /// How high off the ground a Character currently is, in height units.
    /// Zero whenever `airborne` is false; driven through a rise-and-fall arc
    /// while it's true. Rendering-only.
    pub vertical_offset: i32,
    /// Ticks left in the current Jump arc; zero when not jumping.
    pub jump_ticks_remaining: u8,
    /// Whether a successfully-cast Special's speech bubble is showing.
    pub speaking: bool,
    /// Ticks left before the speech bubble clears.
    pub speech_bubble_ticks_remaining: u8,
    /// The tick Special was last successfully cast, if ever.
    pub special_last_cast_tick: Option<u64>,
    /// The tick this Character last threw a Punch *or* Kick, if ever,
    /// whether or not it landed.
    pub last_attack_tick: Option<u64>,
    /// The tick this Character was last hit, if ever.
    pub last_hit_tick: Option<u64>,
    /// Which attack's arm/leg swing is currently animating, if any - only
    /// ever `Punch` or `Kick`.
    pub attack_animation: Option<Attack>,
    /// Ticks left before the current swing clears.
    pub attack_animation_ticks_remaining: u8,
}

/// A fresh Character standing at `position`, facing `facing`, at full
/// Health with no history.
pub open spec fn fresh_character(position: i32, facing: Facing) -> CharacterState {
    CharacterState {
        position,
        facing,
        health: STARTING_HEALTH,
        airborne: false,
        vertical_offset: 0,
        jump_ticks_remaining: 0,
        speaking: false,
        speech_bubble_ticks_remaining: 0,
        special_last_cast_tick: None,
        last_attack_tick: None,
        last_hit_tick: None,
        attack_animation: None,
        attack_animation_ticks_remaining: 0,
    }
}

impl CharacterState {
    /// The countdowns never exceed the durations they count down from, a
    /// Character is airborne exactly while its Jump countdown runs, and a
    /// grounded Character has no height.
    pub open spec fn well_formed(self) -> bool {
        &&& self.jump_ticks_remaining <= JUMP_DURATION_TICKS
        &&& self.attack_animation_ticks_remaining <= ATTACK_ANIMATION_TICKS
        &&& self.speech_bubble_ticks_remaining <= SPEECH_BUBBLE_DURATION_TICKS
        &&& (self.jump_ticks_remaining > 0) == self.airborne
        &&& !self.airborne ==> self.vertical_offset == 0
    }

    /// The state after one tick of the attack swing countdown.
    pub open spec fn swing_ticked(self) -> CharacterState {
        if self.attack_animation_ticks_remaining > 0 {
            let left = (self.attack_animation_ticks_remaining - 1) as u8;
            CharacterState {
                attack_animation_ticks_remaining: left,
                attack_animation: if left == 0 {
                    None
                } else {
                    self.attack_animation
                },
                ..self
            }
        } else {
            self
        }
    }

    /// The state after one tick of the Jump arc.
    pub open spec fn jump_ticked(self) -> CharacterState {
        if self.jump_ticks_remaining == 0 {
            self
        } else {
            let left = (self.jump_ticks_remaining - 1) as u8;
            if left == 0 {
                CharacterState {
                    jump_ticks_remaining: 0,
                    airborne: false,
                    vertical_offset: 0,
                    ..self
                }
            } else {
                CharacterState {
                    jump_ticks_remaining: left,
                    vertical_offset: jump_arc_height(JUMP_DURATION_TICKS - left) as i32,
                    ..self
                }
            }
        }
    }

    /// The state after one tick of the speech-bubble countdown.
    pub open spec fn bubble_ticked(self) -> CharacterState {
        if self.speech_bubble_ticks_remaining > 0 {
            let left = (self.speech_bubble_ticks_remaining - 1) as u8;
            CharacterState {
                speech_bubble_ticks_remaining: left,
                speaking: if left == 0 {
                    false
                } else {
                    self.speaking
                },
                ..self
            }
        } else {
            self
        }
    }

    /// The state after one simulation tick: swing, then Jump arc, then
    /// speech bubble.
    pub open spec fn ticked(self) -> CharacterState {
        self.swing_ticked().jump_ticked().bubble_ticked()
    }

    /// The state after `n` simulation ticks.
    pub open spec fn advanced(self, n: nat) -> CharacterState
        decreases n,
    {
        if n == 0 {
            self
        } else {
            self.ticked().advanced((n - 1) as nat)
        }
    }

    /// The state after throwing `attack` (Punch or Kick) at tick `tick`:
    /// the swing starts and the shared cooldown clock is reset.
    pub open spec fn swung(self, attack: Attack, tick: u64) -> CharacterState {
        CharacterState {
            attack_animation: Some(attack),
            attack_animation_ticks_remaining: ATTACK_ANIMATION_TICKS,
            last_attack_tick: Some(tick),
            ..self
        }
    }

    /// The state after successfully casting the Special at tick `tick`.
    pub open spec fn cast(self, tick: u64) -> CharacterState {
        CharacterState {
            special_last_cast_tick: Some(tick),
            speaking: true,
            speech_bubble_ticks_remaining: SPEECH_BUBBLE_DURATION_TICKS,
            ..self
        }
    }

    /// The state after being hit for `damage` at tick `tick`: Health drops
    /// by `damage` but never below zero.
    pub open spec fn hit(self, damage: u8, tick: u64) -> CharacterState {
        CharacterState {
            health: if self.health >= damage {
                (self.health - damage) as u8
            } else {
                0
            },
            last_hit_tick: Some(tick),
            ..self
        }
    }

    pub fn new(position: i32, facing: Facing) -> (r: Self)
        ensures
            r == fresh_character(position, facing),
    {
        CharacterState {
            position,
            facing,
            health: STARTING_HEALTH,
            airborne: false,
            vertical_offset: 0,
            jump_ticks_remaining: 0,
            speaking: false,
            speech_bubble_ticks_remaining: 0,
            special_last_cast_tick: None,
            last_attack_tick: None,
            last_hit_tick: None,
            attack_animation: None,
            attack_animation_ticks_remaining: 0,
        }
    }

    fn tick_attack_animation(&mut self)
        ensures
            *final(self) == old(self).swing_ticked(),
    {
        if self.attack_animation_ticks_remaining > 0 {
            self.attack_animation_ticks_remaining = self.attack_animation_ticks_remaining - 1;
            if self.attack_animation_ticks_remaining == 0 {
                self.attack_animation = None;
            }
        }
    }

    /// Advances the Jump arc by one tick, if one is in progress - a simple
    /// parabola, zero at takeoff and landing, `JUMP_HEIGHT` at the midpoint.
    fn tick_jump(&mut self)
        requires
            old(self).jump_ticks_remaining <= JUMP_DURATION_TICKS,
        ensures
            *final(self) == old(self).jump_ticked(),
    {
        if self.jump_ticks_remaining == 0 {
            return;
        }
        self.jump_ticks_remaining = self.jump_ticks_remaining - 1;
        if self.jump_ticks_remaining == 0 {
            self.airborne = false;
            self.vertical_offset = 0;
            return;
        }
        let left = self.jump_ticks_remaining;
        let elapsed: u32 = (JUMP_DURATION_TICKS - left) as u32;
        let remaining: u32 = left as u32;
        assert(0 < elapsed < 24 && 0 < remaining < 24 && elapsed + remaining == 24);
        assert(elapsed * remaining <= 144) by (nonlinear_arith)
            requires
                0 < elapsed < 24,
                elapsed + remaining == 24,
        ;
        let product: u32 = elapsed * remaining;
        let scaled: u32 = 28800 * product;
        let height: u32 = scaled / 576;
        assert(height <= 7200);
        assert(jump_arc_height(elapsed as int) == height) by (nonlinear_arith)
            requires
                scaled == 28800 * (elapsed * remaining),
                height == scaled / 576,
                remaining == 24 - elapsed,
        ;
        self.vertical_offset = height as i32;
    }

    fn tick_speech_bubble(&mut self)
        ensures
            *final(self) == old(self).bubble_ticked(),
    {
        if self.speech_bubble_ticks_remaining > 0 {
            self.speech_bubble_ticks_remaining = self.speech_bubble_ticks_remaining - 1;
            if self.speech_bubble_ticks_remaining == 0 {
                self.speaking = false;
            }
        }
    }
}

/// The full simulated state of one Match, and the single source of truth
/// the server steps every tick.
#[derive(Debug, Clone, PartialEq)]
pub struct MatchState {
    pub tick: u64,
    pub p1: CharacterState,
    pub p2: CharacterState,
    /// `None` while the Match is in progress; set the instant a Character's
    /// Health reaches 0, or a forfeit is declared. Terminal.
    pub winner: Option<Player>,
    /// `None` exactly when `winner` is `None` - set alongside it, always.
    pub end_reason: Option<MatchEndReason>,
}

/// The state a Match starts in: both Characters at full Health, twice
/// `ATTACK_RANGE` either side of the Stage's center, facing each other.
pub open spec fn starting_match() -> MatchState {
    MatchState {
        tick: 0,
        p1: fresh_character((-2 * ATTACK_RANGE) as i32, Facing::Right),
        p2: fresh_character((2 * ATTACK_RANGE) as i32, Facing::Left),
        winner: None,
        end_reason: None,
    }
}

/// Whether an attacker at `a` can land a Punch/Kick on a defender at `d`:
/// neither is airborne, the defender is within `ATTACK_RANGE`, and on the
/// side the attacker is facing.
pub open spec fn within_reach(a: CharacterState, d: CharacterState) -> bool {
    &&& !a.airborne
    &&& !d.airborne
    &&& d.position - a.position <= ATTACK_RANGE
    &&& a.position - d.position <= ATTACK_RANGE
    &&& match a.facing {
        Facing::Right => d.position >= a.position,
        Facing::Left => d.position <= a.position,
    }
}

/// Whether enough ticks have passed since `a`'s last Punch or Kick for a
/// new `attack` to be thrown at tick `tick`. The Special is never gated by
/// this clock.
pub open spec fn cooldown_elapsed(a: CharacterState, attack: Attack, tick: u64) -> bool {
    is_ground_attack(attack) ==> elapsed_at_least(a.last_attack_tick, tick, cooldown_of(attack))
}

/// Whether an attacker at `a` may cast the Special on a defender at `d` at
/// tick `tick`: the defender is farther than `SPECIAL_MIN_RANGE` away, the
/// Special's own cooldown has elapsed, and the attacker is out of its
/// recent-damage lockout.
pub open spec fn special_allowed(a: CharacterState, d: CharacterState, tick: u64) -> bool {
    &&& (d.position - a.position > SPECIAL_MIN_RANGE || a.position - d.position > SPECIAL_MIN_RANGE)
    &&& elapsed_at_least(a.special_last_cast_tick, tick, SPECIAL_COOLDOWN_TICKS)
    &&& elapsed_at_least(a.last_hit_tick, tick, SPECIAL_LOCKOUT_TICKS)
}

impl MatchState {
    /// Both Characters are well formed.
    pub open spec fn well_formed(self) -> bool {
        self.p1.well_formed() && self.p2.well_formed()
    }

    /// Whether the Match has ended.
    pub open spec fn ended(self) -> bool {
        self.winner is Some
    }

    /// `winner` and `end_reason` are set together or not at all.
    pub open spec fn outcome_consistent(self) -> bool {
        (self.winner is Some) == (self.end_reason is Some)
    }

    pub open spec fn character(self, player: Player) -> CharacterState {
        match player {
            Player::P1 => self.p1,
            Player::P2 => self.p2,
        }
    }

    pub open spec fn with_character(self, player: Player, c: CharacterState) -> MatchState {
        match player {
            Player::P1 => MatchState { p1: c, ..self },
            Player::P2 => MatchState { p2: c, ..self },
        }
    }

    /// The Match after one simulation tick.
    pub open spec fn ticked(self) -> MatchState {
        MatchState { tick: (self.tick + 1) as u64, p1: self.p1.ticked(), p2: self.p2.ticked(), ..self }
    }

    /// The Match after `n` simulation ticks.
    pub open spec fn advanced(self, n: nat) -> MatchState
        decreases n,
    {
        if n == 0 {
            self
        } else {
            self.ticked().advanced((n - 1) as nat)
        }
    }

    /// The Match after moving `player` by `delta`, clamped to the Stage; no
    /// change once the Match has ended.
    pub open spec fn moved(self, player: Player, delta: int) -> MatchState {
        if self.ended() {
            self
        } else {
            let c = self.character(player);
            self.with_character(
                player,
                CharacterState { position: clamp_to_stage(c.position + delta) as i32, ..c },
            )
        }
    }

    /// The Match after `player` jumps; no change once the Match has ended or
    /// while already airborne.
    pub open spec fn jumped(self, player: Player) -> MatchState {
        let c = self.character(player);
        if self.ended() || c.airborne {
            self
        } else {
            self.with_character(
                player,
                CharacterState { airborne: true, jump_ticks_remaining: JUMP_DURATION_TICKS, ..c },
            )
        }
    }

    /// Whether `attack` by `attacker` lands at the current tick.
    pub open spec fn attack_lands(self, attacker: Player, attack: Attack) -> bool {
        let a = self.character(attacker);
        let d = self.character(other(attacker));
        &&& !self.ended()
        &&& if is_ground_attack(attack) {
            cooldown_elapsed(a, attack, self.tick) && within_reach(a, d)
        } else {
            special_allowed(a, d, self.tick)
        }
    }

    /// The Match after `attacker` attempts `attack`. An attempt on an ended
    /// Match, or a Punch/Kick still on cooldown, changes nothing. Any other
    /// Punch/Kick starts its swing and resets the cooldown clock, landed or
    /// not. A landed attack damages the defender (and a landed Special also
    /// shows the attacker's speech bubble); the Match ends, won by the
    /// attacker, the instant the defender's Health reaches 0.
    pub open spec fn attacked(self, attacker: Player, attack: Attack) -> MatchState {
        let tick = self.tick;
        let defender = other(attacker);
        let a = self.character(attacker);
        if self.ended() || !cooldown_elapsed(a, attack, tick) {
            self
        } else {
            let a1 = if is_ground_attack(attack) {
                a.swung(attack, tick)
            } else {
                a
            };
            if !self.attack_lands(attacker, attack) {
                self.with_character(attacker, a1)
            } else {
                let a2 = if is_ground_attack(attack) {
                    a1
                } else {
                    a1.cast(tick)
                };
                let d1 = self.character(defender).hit(damage_of(attack), tick);
                let m1 = self.with_character(attacker, a2).with_character(defender, d1);
                if d1.health == 0 {
                    MatchState {
                        winner: Some(attacker),
                        end_reason: Some(MatchEndReason::Defeated),
                        ..m1
                    }
                } else {
                    m1
                }
            }
        }
    }

    /// The Match after `disconnected` forfeits: their opponent wins, unless
    /// the Match had already ended.
    pub open spec fn forfeited(self, disconnected: Player) -> MatchState {
        if self.ended() {
            self
        } else {
            MatchState {
                winner: Some(other(disconnected)),
                end_reason: Some(MatchEndReason::Forfeit),
                ..self
            }
        }
    }

    pub fn new() -> (r: Self)
        ensures
            r == starting_match(),
    {
        MatchState {
            tick: 0,
            p1: CharacterState::new(-ATTACK_RANGE * 2, Facing::Right),
            p2: CharacterState::new(ATTACK_RANGE * 2, Facing::Left),
            winner: None,
            end_reason: None,
        }
    }

    /// Whether both Characters are well formed (countdowns within their
    /// durations, airborne exactly while jumping, no height on the ground) -
    /// what `advance_tick` needs; every operation here keeps it.
    pub fn is_well_formed(&self) -> (r: bool)
        ensures
            r == self.well_formed(),
    {
        character_well_formed(&self.p1) && character_well_formed(&self.p2)
    }

    /// Whether the Match has already ended. Once true, no further attacks
    /// or movement are applied.
    pub fn has_ended(&self) -> (r: bool)
        ensures
            r == self.ended(),
    {
        self.winner.is_some()
    }

    /// Advance the tick counter by one, along with every running swing,
    /// Jump arc and speech bubble. Called once per server simulation step,
    /// regardless of whether any input arrived.
    pub fn advance_tick(&mut self)
        requires
            old(self).tick < u64::MAX,
            old(self).well_formed(),
        ensures
            *final(self) == old(self).ticked(),
            final(self).tick == old(self).tick + 1,
            final(self).well_formed(),
    {
        self.tick = self.tick + 1;
        self.p1.tick_attack_animation();
        self.p2.tick_attack_animation();
        self.p1.tick_jump();
        self.p2.tick_jump();
        self.p1.tick_speech_bubble();
        self.p2.tick_speech_bubble();
    }

    /// Move `player` by `delta` position units (positive = toward positive
    /// X, regardless of Facing), clamped so they can't walk off the Stage.
    /// A no-op once the Match has ended.
    pub fn move_player(&mut self, player: Player, delta: i32)
        ensures
            *final(self) == old(self).moved(player, delta as int),
    {
        if self.has_ended() {
            return;
        }
        let current = match player {
            Player::P1 => self.p1.position,
            Player::P2 => self.p2.position,
        };
        let target: i64 = current as i64 + delta as i64;
        let clamped: i32 = if target < -(STAGE_HALF_WIDTH as i64) {
            -STAGE_HALF_WIDTH
        } else if target > STAGE_HALF_WIDTH as i64 {
            STAGE_HALF_WIDTH
        } else {
            target as i32
        };
        match player {
            Player::P1 => self.p1.position = clamped,
            Player::P2 => self.p2.position = clamped,
        }
    }

    /// Sends `player` airborne on a Jump arc. A no-op once the Match has
    /// ended, or if the Character is already airborne (no double-jump).
    pub fn jump(&mut self, player: Player)
        ensures
            *final(self) == old(self).jumped(player),
    {
        if self.has_ended() {
            return;
        }
        match player {
            Player::P1 => {
                if !self.p1.airborne {
                    self.p1.airborne = true;
                    self.p1.jump_ticks_remaining = JUMP_DURATION_TICKS;
                }
            },
            Player::P2 => {
                if !self.p2.airborne {
                    self.p2.airborne = true;
                    self.p2.jump_ticks_remaining = JUMP_DURATION_TICKS;
                }
            },
        }
    }

    /// Attempt `attack` by `attacker` against their opponent at the current
    /// tick. Returns `true` if the attack landed and dealt damage, `false`
    /// if it was rejected (out of range, gated, or the Match already ended).
    ///
    /// On a successful hit this applies damage, records the recent-damage
    /// lockout on the defender, and sets `winner` the instant Health
    /// reaches 0.
    pub fn apply_attack(&mut self, attacker: Player, attack: Attack) -> (landed: bool)
        ensures
            landed == old(self).attack_lands(attacker, attack),
            *final(self) == old(self).attacked(attacker, attack),
    {
        if self.has_ended() {
            return false;
        }
        let tick = self.tick;
        let defender = attacker.opponent();
        let a = self.character_of(attacker);
        let d = self.character_of(defender);
        let ground = match attack {
            Attack::Special => false,
            _ => true,
        };
        // A cooldown-gated Punch/Kick is silently dropped: no animation, no
        // damage, no feedback of any kind.
        if ground && !attack_cooldown_elapsed(&a, attack, tick) {
            return false;
        }
        let landed = if ground {
            in_attack_range(&a, &d)
        } else {
            can_cast_special(&a, &d, tick)
        };
        let mut a1 = a;
        // A Punch/Kick's swing plays whether or not it lands, and either
        // resets the shared cooldown clock.
        if ground {
            a1.attack_animation = Some(attack);
            a1.attack_animation_ticks_remaining = ATTACK_ANIMATION_TICKS;
            a1.last_attack_tick = Some(tick);
        }
        if !landed {
            self.set_character(attacker, a1);
            return false;
        }
        let damage = match attack {
            Attack::Punch => PUNCH_DAMAGE,
            Attack::Kick => KICK_DAMAGE,
            Attack::Special => SPECIAL_DAMAGE,
        };
        if !ground {
            a1.special_last_cast_tick = Some(tick);
            a1.speaking = true;
            a1.speech_bubble_ticks_remaining = SPEECH_BUBBLE_DURATION_TICKS;
        }
        let mut d1 = d;
        d1.health = d1.health.saturating_sub(damage);
        d1.last_hit_tick = Some(tick);
        self.set_character(attacker, a1);
        self.set_character(defender, d1);
        if d1.health == 0 {
            self.winner = Some(attacker);
            self.end_reason = Some(MatchEndReason::Defeated);
        }
        true
    }

    /// Declares the winner of a forfeit: `disconnected`'s connection ended
    /// mid-Match while their opponent's was still present, so the opponent
    /// wins without landing a hit. A no-op if the Match has already ended -
    /// a forfeit never overwrites an already-decided Match.
    pub fn forfeit(&mut self, disconnected: Player)
        ensures
            *final(self) == old(self).forfeited(disconnected),
    {
        if self.has_ended() {
            return;
        }
        self.winner = Some(disconnected.opponent());
        self.end_reason = Some(MatchEndReason::Forfeit);
    }

    fn character_of(&self, player: Player) -> (c: CharacterState)
        ensures
            c == self.character(player),
    {
        match player {
            Player::P1 => self.p1,
            Player::P2 => self.p2,
        }
    }

    fn set_character(&mut self, player: Player, c: CharacterState)
        ensures
            *final(self) == old(self).with_character(player, c),
    {
        match player {
            Player::P1 => self.p1 = c,
            Player::P2 => self.p2 = c,
        }
    }
}

impl Default for MatchState {
    fn default() -> (r: Self)
        ensures
            r == starting_match(),
    {
        Self::new()
    }
}

/// Whether `c`'s countdowns are within their durations and agree with
/// whether it is airborne.
fn character_well_formed(c: &CharacterState) -> (r: bool)
    ensures
        r == c.well_formed(),
{
    c.jump_ticks_remaining <= JUMP_DURATION_TICKS
        && c.attack_animation_ticks_remaining <= ATTACK_ANIMATION_TICKS
        && c.speech_bubble_ticks_remaining <= SPEECH_BUBBLE_DURATION_TICKS
        && (c.jump_ticks_remaining > 0) == c.airborne
        && (c.airborne || c.vertical_offset == 0)
}

/// A Punch/Kick lands when the defender is within `ATTACK_RANGE` of the
/// attacker, on the side the attacker is facing, and neither is airborne.
fn in_attack_range(attacker: &CharacterState, defender: &CharacterState) -> (r: bool)
    ensures
        r == within_reach(*attacker, *defender),
{
    if attacker.airborne || defender.airborne {
        return false;
    }
    let offset: i64 = defender.position as i64 - attacker.position as i64;
    let distance: i64 = if offset < 0 {
        -offset
    } else {
        offset
    };
    let facing_matches = match attacker.facing {
        Facing::Right => offset >= 0,
        Facing::Left => offset <= 0,
    };
    distance <= ATTACK_RANGE as i64 && facing_matches
}

/// Whether at least `ticks` ticks have passed since `since` (if ever).
fn elapsed_since(since: Option<u64>, now: u64, ticks: u64) -> (r: bool)
    ensures
        r == elapsed_at_least(since, now, ticks),
{
    match since {
        Some(t) => now.saturating_sub(t) >= ticks,
        None => true,
    }
}

/// Whether enough ticks have passed since the attacker's last Punch *or*
/// Kick for a new `attack` to be thrown: Kick needs the full
/// `KICK_COOLDOWN_TICKS`, Punch half that.
fn attack_cooldown_elapsed(attacker: &CharacterState, attack: Attack, tick: u64) -> (r: bool)
    ensures
        r == cooldown_elapsed(*attacker, attack, tick),
{
    let threshold = match attack {
        Attack::Punch => PUNCH_COOLDOWN_TICKS,
        Attack::Kick => KICK_COOLDOWN_TICKS,
        Attack::Special => return true,
    };
    elapsed_since(attacker.last_attack_tick, tick, threshold)
}

/// The Special ignores range and Facing once cast, so it is balanced by
/// whether the attacker may cast it at all: the defender must be farther
/// than `SPECIAL_MIN_RANGE` away, the cooldown must have elapsed, and the
/// attacker must be out of their recent-damage lockout.
fn can_cast_special(attacker: &CharacterState, defender: &CharacterState, tick: u64) -> (r: bool)
    ensures
        r == special_allowed(*attacker, *defender, tick),
{
    let offset: i64 = defender.position as i64 - attacker.position as i64;
    let distance: i64 = if offset < 0 {
        -offset
    } else {
        offset
    };
    if distance <= SPECIAL_MIN_RANGE as i64 {
        return false;
    }
    if !elapsed_since(attacker.special_last_cast_tick, tick, SPECIAL_COOLDOWN_TICKS) {
        return false;
    }
    if !elapsed_since(attacker.last_hit_tick, tick, SPECIAL_LOCKOUT_TICKS) {
        return false;
    }
    true
}

} // verus!
