//! One step of the authoritative simulation: apply whatever disconnects and
//! inputs arrived since the last tick, apply held movement, advance the
//! tick, and produce the snapshot to broadcast. Steps run ~30 times a
//! second whether or not anyone is connected.

use vstd::prelude::*;
use crate::combat::{
    other, starting_match, Attack, CharacterState, MatchEndReason, MatchState, Player, MOVE_SPEED_PER_TICK,
    STAGE_HALF_WIDTH,
};
use crate::combat_laws::law_operations_keep_match_well_formed;
use crate::net_protocol::{
    attack_of, CharacterSnapshot, InputEvent, MatchStatus, ServerMessage, StateSnapshot,
};
use crate::server_net::{Disconnection, TaggedInputEvent};

verus! {

/// Which movement keys are currently held, per player slot. Player 2's
/// fields simply stay `false` for as long as it is an unclaimed Idle
/// Opponent, since nothing ever sends it movement input.
#[derive(Debug, Clone, Copy, PartialEq, Eq, Structural)]
pub struct HeldMovement {
    pub p1_left: bool,
    pub p1_right: bool,
    pub p2_left: bool,
    pub p2_right: bool,
}

/// No movement key held.
pub open spec fn nothing_held() -> HeldMovement {
    HeldMovement { p1_left: false, p1_right: false, p2_left: false, p2_right: false }
}

impl HeldMovement {
    pub open spec fn left(self, player: Player) -> bool {
        match player {
            Player::P1 => self.p1_left,
            Player::P2 => self.p2_left,
        }
    }

    pub open spec fn right(self, player: Player) -> bool {
        match player {
            Player::P1 => self.p1_right,
            Player::P2 => self.p2_right,
        }
    }

    pub open spec fn with_left(self, player: Player, pressed: bool) -> HeldMovement {
        match player {
            Player::P1 => HeldMovement { p1_left: pressed, ..self },
            Player::P2 => HeldMovement { p2_left: pressed, ..self },
        }
    }

    pub open spec fn with_right(self, player: Player, pressed: bool) -> HeldMovement {
        match player {
            Player::P1 => HeldMovement { p1_right: pressed, ..self },
            Player::P2 => HeldMovement { p2_right: pressed, ..self },
        }
    }

    /// Both of `player`'s keys released.
    pub open spec fn released(self, player: Player) -> HeldMovement {
        self.with_left(player, false).with_right(player, false)
    }

    pub fn new() -> (r: Self)
        ensures
            r == nothing_held(),
    {
        HeldMovement { p1_left: false, p1_right: false, p2_left: false, p2_right: false }
    }

    pub fn set_left(&mut self, player: Player, pressed: bool)
        ensures
            *final(self) == old(self).with_left(player, pressed),
    {
        match player {
            Player::P1 => self.p1_left = pressed,
            Player::P2 => self.p2_left = pressed,
        }
    }

    pub fn set_right(&mut self, player: Player, pressed: bool)
        ensures
            *final(self) == old(self).with_right(player, pressed),
    {
        match player {
            Player::P1 => self.p1_right = pressed,
            Player::P2 => self.p2_right = pressed,
        }
    }

    /// Releases both of `player`'s held movement keys - used when their
    /// connection disconnects, so they stop walking on their own.
    pub fn reset(&mut self, player: Player)
        ensures
            *final(self) == old(self).released(player),
    {
        self.set_left(player, false);
        self.set_right(player, false);
    }
}

impl Default for HeldMovement {
    fn default() -> (r: Self)
        ensures
            r == nothing_held(),
    {
        Self::new()
    }
}

/// The server's simulation state between ticks: the Match itself and the
/// movement keys each player currently holds.
#[derive(Debug, Clone, PartialEq)]
pub struct Simulation {
    pub match_state: MatchState,
    pub held: HeldMovement,
}

/// A fresh Match with nothing held.
pub open spec fn starting_simulation() -> Simulation {
    Simulation { match_state: starting_match(), held: nothing_held() }
}

impl Simulation {
    /// The simulation after a connection ends: a player slot's held
    /// movement is released, and if its opponent was a real connected
    /// client, the Match is forfeited to that opponent. A spectator's
    /// disconnect changes nothing.
    pub open spec fn after_disconnection(self, d: Disconnection) -> Simulation {
        match d.slot {
            Some(player) => Simulation {
                held: self.held.released(player),
                match_state: if d.opponent_connected {
                    self.match_state.forfeited(player)
                } else {
                    self.match_state
                },
            },
            None => self,
        }
    }

    /// The simulation after one input from `slot`. A spectator's input
    /// (`slot` is `None`) changes nothing. A restart request from a player
    /// on an ended Match starts a fresh Match with every key released;
    /// on a Match in progress it is ignored.
    pub open spec fn after_input(self, slot: Option<Player>, event: InputEvent) -> Simulation {
        match slot {
            None => self,
            Some(player) => match event {
                InputEvent::MoveLeft(pressed) => Simulation {
                    held: self.held.with_left(player, pressed),
                    ..self
                },
                InputEvent::MoveRight(pressed) => Simulation {
                    held: self.held.with_right(player, pressed),
                    ..self
                },
                InputEvent::Jump => Simulation {
                    match_state: self.match_state.jumped(player),
                    ..self
                },
                InputEvent::RequestRestart => if self.match_state.ended() {
                    starting_simulation()
                } else {
                    self
                },
                _ => match attack_of(event) {
                    Some(attack) => Simulation {
                        match_state: self.match_state.attacked(player, attack),
                        ..self
                    },
                    None => self,
                },
            },
        }
    }

    /// The simulation after every disconnect in `ds`, in order.
    pub open spec fn after_disconnections(self, ds: Seq<Disconnection>) -> Simulation
        decreases ds.len(),
    {
        if ds.len() == 0 {
            self
        } else {
            self.after_disconnections(ds.drop_last()).after_disconnection(ds.last())
        }
    }

    /// The simulation after every input in `inputs`, in order.
    pub open spec fn after_inputs(self, inputs: Seq<TaggedInputEvent>) -> Simulation
        decreases inputs.len(),
    {
        if inputs.len() == 0 {
            self
        } else {
            let (slot, event) = inputs.last();
            self.after_inputs(inputs.drop_last()).after_input(slot, event)
        }
    }

    /// One tick of held movement: each held key moves its Character by
    /// `MOVE_SPEED_PER_TICK` in its direction (left before right, P1 before
    /// P2).
    pub open spec fn after_held_movement(self) -> Simulation {
        let h = self.held;
        let m0 = self.match_state;
        let m1 = if h.p1_left {
            m0.moved(Player::P1, -MOVE_SPEED_PER_TICK)
        } else {
            m0
        };
        let m2 = if h.p1_right {
            m1.moved(Player::P1, MOVE_SPEED_PER_TICK as int)
        } else {
            m1
        };
        let m3 = if h.p2_left {
            m2.moved(Player::P2, -MOVE_SPEED_PER_TICK)
        } else {
            m2
        };
        let m4 = if h.p2_right {
            m3.moved(Player::P2, MOVE_SPEED_PER_TICK as int)
        } else {
            m3
        };
        Simulation { match_state: m4, ..self }
    }

    /// One full simulation step: disconnects, then inputs, then held
    /// movement, then the tick itself.
    pub open spec fn stepped(self, ds: Seq<Disconnection>, inputs: Seq<TaggedInputEvent>) -> Simulation {
        let s = self.after_disconnections(ds).after_inputs(inputs).after_held_movement();
        Simulation { match_state: s.match_state.ticked(), ..s }
    }

    pub fn new() -> (r: Self)
        ensures
            r == starting_simulation(),
    {
        Simulation { match_state: MatchState::new(), held: HeldMovement::new() }
    }

    /// Reacts to one connection ending.
    pub fn apply_disconnection(&mut self, d: Disconnection)
        ensures
            *final(self) == old(self).after_disconnection(d),
    {
        if let Some(player) = d.slot {
            self.held.reset(player);
            if d.opponent_connected {
                self.match_state.forfeit(player);
            }
        }
    }

    /// Applies one input event from `slot`.
    pub fn apply_input(&mut self, slot: Option<Player>, event: InputEvent)
        ensures
            *final(self) == old(self).after_input(slot, event),
    {
        let player = match slot {
            Some(player) => player,
            // A spectator has no Character to move - its input is dropped
            // rather than guessing which Character it meant.
            None => return ,
        };
        match event {
            InputEvent::MoveLeft(pressed) => self.held.set_left(player, pressed),
            InputEvent::MoveRight(pressed) => self.held.set_right(player, pressed),
            InputEvent::Jump => self.match_state.jump(player),
            InputEvent::RequestRestart => {
                // Only a concluded Match is reset. A key held when the
                // Match ended may never see its release event, so every
                // key is released along with the reset.
                if self.match_state.has_ended() {
                    self.match_state = MatchState::new();
                    self.held.reset(Player::P1);
                    self.held.reset(Player::P2);
                }
            },
            other => {
                if let Some(attack) = other.as_attack() {
                    self.match_state.apply_attack(player, attack);
                }
            },
        }
    }

    /// Applies one tick's worth of held movement.
    pub fn apply_held_movement(&mut self)
        ensures
            *final(self) == old(self).after_held_movement(),
    {
        if self.held.p1_left {
            self.match_state.move_player(Player::P1, -MOVE_SPEED_PER_TICK);
        }
        if self.held.p1_right {
            self.match_state.move_player(Player::P1, MOVE_SPEED_PER_TICK);
        }
        if self.held.p2_left {
            self.match_state.move_player(Player::P2, -MOVE_SPEED_PER_TICK);
        }
        if self.held.p2_right {
            self.match_state.move_player(Player::P2, MOVE_SPEED_PER_TICK);
        }
    }

    /// One simulation step: applies the disconnects and then the inputs
    /// that arrived since the last step, in arrival order, then held
    /// movement, then advances the tick; returns the snapshot message to
    /// broadcast.
    pub fn step(&mut self, disconnections: &Vec<Disconnection>, inputs: &Vec<TaggedInputEvent>) -> (r:
        ServerMessage)
        requires
            old(self).match_state.tick < u64::MAX,
            old(self).match_state.well_formed(),
        ensures
            *final(self) == old(self).stepped(disconnections@, inputs@),
            r == ServerMessage::Snapshot(snapshot_of(final(self).match_state)),
            final(self).match_state.well_formed(),
    {
        let ghost start = *self;
        let mut i: usize = 0;
        while i < disconnections.len()
            invariant
                i <= disconnections@.len(),
                *self == start.after_disconnections(disconnections@.take(i as int)),
                self.match_state.well_formed(),
                self.match_state.tick == start.match_state.tick,
            decreases disconnections@.len() - i,
        {
            let d = disconnections[i];
            proof {
                assert(disconnections@.take(i + 1).drop_last() == disconnections@.take(i as int));
                law_operations_keep_match_well_formed(self.match_state, d.slot->0, Attack::Punch, 0);
            }
            self.apply_disconnection(d);
            i = i + 1;
        }
        assert(disconnections@.take(disconnections@.len() as int) == disconnections@);
        let ghost mid = *self;
        let mut j: usize = 0;
        while j < inputs.len()
            invariant
                j <= inputs@.len(),
                *self == mid.after_inputs(inputs@.take(j as int)),
                self.match_state.well_formed(),
                self.match_state.tick == mid.match_state.tick || self.match_state.tick == 0,
                mid.match_state.tick < u64::MAX,
            decreases inputs@.len() - j,
        {
            let (slot, event) = inputs[j];
            proof {
                assert(inputs@.take(j + 1).drop_last() == inputs@.take(j as int));
                if let Some(player) = slot {
                    match attack_of(event) {
                        Some(attack) => law_operations_keep_match_well_formed(self.match_state, player, attack, 0),
                        None => law_operations_keep_match_well_formed(self.match_state, player, Attack::Punch, 0),
                    }
                }
            }
            self.apply_input(slot, event);
            j = j + 1;
        }
        assert(inputs@.take(inputs@.len() as int) == inputs@);
        proof {
            lemma_held_movement_keeps_well_formed(*self);
        }
        self.apply_held_movement();
        self.match_state.advance_tick();
        ServerMessage::Snapshot(snapshot_from_state(&self.match_state))
    }
}

/// Held movement keeps the Match well formed and leaves its tick alone.
proof fn lemma_held_movement_keeps_well_formed(s: Simulation)
    requires
        s.match_state.well_formed(),
    ensures
        s.after_held_movement().match_state.well_formed(),
        s.after_held_movement().match_state.tick == s.match_state.tick,
{
    let m0 = s.match_state;
    let step = MOVE_SPEED_PER_TICK as int;
    law_operations_keep_match_well_formed(m0, Player::P1, Attack::Punch, -step);
    law_operations_keep_match_well_formed(m0, Player::P1, Attack::Punch, step);
    let m1 = if s.held.p1_left { m0.moved(Player::P1, -step) } else { m0 };
    law_operations_keep_match_well_formed(m1, Player::P1, Attack::Punch, step);
    let m2 = if s.held.p1_right { m1.moved(Player::P1, step) } else { m1 };
    law_operations_keep_match_well_formed(m2, Player::P2, Attack::Punch, -step);
    let m3 = if s.held.p2_left { m2.moved(Player::P2, -step) } else { m2 };
    law_operations_keep_match_well_formed(m3, Player::P2, Attack::Punch, step);
}

impl Default for Simulation {
    fn default() -> (r: Self)
        ensures
            r == starting_simulation(),
    {
        Self::new()
    }
}

/// What a snapshot says about one Character.
pub open spec fn character_snapshot_of(c: CharacterState) -> CharacterSnapshot {
    CharacterSnapshot {
        position: c.position,
        facing: c.facing,
        health: c.health,
        airborne: c.airborne,
        vertical_offset: c.vertical_offset,
        speaking: c.speaking,
        attacking: c.attack_animation,
    }
}

/// The Match's status as broadcast: ended (with its winner and reason)
/// exactly when a winner is set. A winner without a recorded reason - which
/// `MatchState` never produces - is reported as `Defeated`.
pub open spec fn status_of(m: MatchState) -> MatchStatus {
    match m.winner {
        Some(winner) => MatchStatus::Ended {
            winner,
            reason: match m.end_reason {
                Some(reason) => reason,
                None => MatchEndReason::Defeated,
            },
        },
        None => MatchStatus::InProgress,
    }
}

/// The snapshot broadcast for Match state `m`.
pub open spec fn snapshot_of(m: MatchState) -> StateSnapshot {
    StateSnapshot {
        tick: m.tick,
        p1: character_snapshot_of(m.p1),
        p2: character_snapshot_of(m.p2),
        status: status_of(m),
    }
}

/// Builds the snapshot broadcast for `state`.
pub fn snapshot_from_state(state: &MatchState) -> (r: StateSnapshot)
    ensures
        r == snapshot_of(*state),
{
    StateSnapshot {
        tick: state.tick,
        p1: character_snapshot(&state.p1),
        p2: character_snapshot(&state.p2),
        status: match (state.winner, state.end_reason) {
            (Some(winner), Some(reason)) => MatchStatus::Ended { winner, reason },
            (Some(winner), None) => MatchStatus::Ended { winner, reason: MatchEndReason::Defeated },
            (None, _) => MatchStatus::InProgress,
        },
    }
}

fn character_snapshot(character: &CharacterState) -> (r: CharacterSnapshot)
    ensures
        r == character_snapshot_of(*character),
{
    CharacterSnapshot {
        position: character.position,
        facing: character.facing,
        health: character.health,
        airborne: character.airborne,
        vertical_offset: character.vertical_offset,
        speaking: character.speaking,
        attacking: character.attack_animation,
    }
}

/// A spectator's input never changes anything.
pub proof fn law_spectator_input_changes_nothing(s: Simulation, event: InputEvent)
    ensures
        s.after_input(None, event) == s,
{
}

/// `inputs` without the ones spectators sent, in the same order.
pub open spec fn players_only(inputs: Seq<TaggedInputEvent>) -> Seq<TaggedInputEvent>
    decreases inputs.len(),
{
    if inputs.len() == 0 {
        inputs
    } else {
        let rest = players_only(inputs.drop_last());
        if inputs.last().0 is Some {
            rest.push(inputs.last())
        } else {
            rest
        }
    }
}

/// Applying inputs then one more is applying that one to the result.
proof fn lemma_after_inputs_push(s: Simulation, inputs: Seq<TaggedInputEvent>, x: TaggedInputEvent)
    ensures
        s.after_inputs(inputs.push(x)) == s.after_inputs(inputs).after_input(x.0, x.1),
{
    assert(inputs.push(x).drop_last() =~= inputs);
}

/// Spectators can neither move, jump, attack nor restart: whatever they
/// send, a whole step ends exactly where the same step without their
/// inputs ends.
pub proof fn law_spectators_change_nothing(
    s: Simulation,
    ds: Seq<Disconnection>,
    inputs: Seq<TaggedInputEvent>,
)
    ensures
        s.after_inputs(inputs) == s.after_inputs(players_only(inputs)),
        s.stepped(ds, inputs) == s.stepped(ds, players_only(inputs)),
    decreases inputs.len(),
{
    if inputs.len() > 0 {
        let rest = inputs.drop_last();
        let x = inputs.last();
        law_spectators_change_nothing(s, ds, rest);
        law_spectators_change_nothing(s.after_disconnections(ds), ds, rest);
        assert(rest.push(x) =~= inputs);
        lemma_after_inputs_push(s, players_only(rest), x);
        lemma_after_inputs_push(s.after_disconnections(ds), players_only(rest), x);
        law_spectator_input_changes_nothing(s.after_inputs(rest), x.1);
        law_spectator_input_changes_nothing(s.after_disconnections(ds).after_inputs(rest), x.1);
    }
}

/// Held movement walks each Character by its own keys only: in an
/// undecided Match, holding just a player's left key moves that player's
/// Character `MOVE_SPEED_PER_TICK` toward negative X, and just the right
/// key the same distance toward positive X, in both cases stopping at the
/// Stage's edge, while the other Character stays where it is; with no key
/// held nothing changes.
pub proof fn law_held_keys_walk_their_own_character(s: Simulation, p: Player)
    ensures
        ({
            let h = s.held;
            let (left, right, other_left, other_right) = match p {
                Player::P1 => (h.p1_left, h.p1_right, h.p2_left, h.p2_right),
                Player::P2 => (h.p2_left, h.p2_right, h.p1_left, h.p1_right),
            };
            let before = s.match_state;
            let after = s.after_held_movement().match_state;
            let (pos, other_pos) = match p {
                Player::P1 => (before.p1.position as int, before.p2.position as int),
                Player::P2 => (before.p2.position as int, before.p1.position as int),
            };
            let (new_pos, new_other_pos) = match p {
                Player::P1 => (after.p1.position as int, after.p2.position as int),
                Player::P2 => (after.p2.position as int, after.p1.position as int),
            };
            let walked_left = if pos - MOVE_SPEED_PER_TICK < -STAGE_HALF_WIDTH {
                -STAGE_HALF_WIDTH as int
            } else if pos - MOVE_SPEED_PER_TICK > STAGE_HALF_WIDTH {
                STAGE_HALF_WIDTH as int
            } else {
                pos - MOVE_SPEED_PER_TICK
            };
            let walked_right = if pos + MOVE_SPEED_PER_TICK < -STAGE_HALF_WIDTH {
                -STAGE_HALF_WIDTH as int
            } else if pos + MOVE_SPEED_PER_TICK > STAGE_HALF_WIDTH {
                STAGE_HALF_WIDTH as int
            } else {
                pos + MOVE_SPEED_PER_TICK
            };
            &&& (before.winner is None && left && !right && !other_left && !other_right) ==> (
            new_pos == walked_left && new_other_pos == other_pos)
            &&& (before.winner is None && !left && right && !other_left && !other_right) ==> (
            new_pos == walked_right && new_other_pos == other_pos)
            &&& (!left && !right && !other_left && !other_right) ==> after == before
            &&& (!other_left && !other_right) ==> new_other_pos == other_pos
        }),
{
}

/// Every input acts on the sender's own Character and keys, never the
/// other player's: a Jump sends the sender airborne (in an undecided Match)
/// without moving it, a move key sets exactly that key of the sender, and
/// an attack never costs the sender Health. None of them touches the other
/// Character.
pub proof fn law_inputs_act_on_the_sender(s: Simulation, p: Player, pressed: bool, e: InputEvent)
    ensures
        ({
            let q = other(p);
            let r = s.after_input(Some(p), InputEvent::Jump);
            &&& r.match_state.character(q) == s.match_state.character(q)
            &&& r.held == s.held
            &&& s.match_state.winner is None ==> r.match_state.character(p).airborne
            &&& r.match_state.character(p).position == s.match_state.character(p).position
        }),
        ({
            let r = s.after_input(Some(p), InputEvent::MoveLeft(pressed));
            &&& r.match_state == s.match_state
            &&& r.held.left(p) == pressed
            &&& r.held.right(p) == s.held.right(p)
            &&& r.held.left(other(p)) == s.held.left(other(p))
            &&& r.held.right(other(p)) == s.held.right(other(p))
        }),
        ({
            let r = s.after_input(Some(p), InputEvent::MoveRight(pressed));
            &&& r.match_state == s.match_state
            &&& r.held.right(p) == pressed
            &&& r.held.left(p) == s.held.left(p)
            &&& r.held.left(other(p)) == s.held.left(other(p))
            &&& r.held.right(other(p)) == s.held.right(other(p))
        }),
        (e == InputEvent::Punch || e == InputEvent::Kick || e == InputEvent::Special) ==> {
            let r = s.after_input(Some(p), e);
            &&& r.held == s.held
            &&& r.match_state.character(p).health == s.match_state.character(p).health
            &&& r.match_state.character(p).position == s.match_state.character(p).position
            &&& r.match_state.character(other(p)).position == s.match_state.character(
                other(p),
            ).position
        },
{
}

/// A restart request from a player is ignored while the Match is in
/// progress, and once it has ended starts a fresh Match with every
/// movement key released.
pub proof fn law_restart_only_after_match_end(s: Simulation, p: Player)
    ensures
        !s.match_state.ended() ==> s.after_input(Some(p), InputEvent::RequestRestart) == s,
        s.match_state.ended() ==> s.after_input(Some(p), InputEvent::RequestRestart)
            == starting_simulation(),
        !starting_simulation().match_state.ended(),
        starting_simulation().held == nothing_held(),
        !starting_simulation().held.p1_left && !starting_simulation().held.p1_right,
        !starting_simulation().held.p2_left && !starting_simulation().held.p2_right,
        starting_simulation().match_state == starting_match(),
{
}

/// A player's connection ending releases that player's movement keys
/// (and only theirs), and ends an undecided Match as a forfeit to the
/// opponent exactly when that opponent was a real connected client.
pub proof fn law_disconnect_releases_movement_and_forfeits(s: Simulation, p: Player, opponent_connected: bool)
    ensures
        ({
            let r = s.after_disconnection(Disconnection { slot: Some(p), opponent_connected });
            &&& !r.held.left(p)
            &&& !r.held.right(p)
            &&& r.held.left(other(p)) == s.held.left(other(p))
            &&& r.held.right(other(p)) == s.held.right(other(p))
            &&& !s.match_state.ended() ==> (r.match_state.ended() <==> opponent_connected)
            &&& !s.match_state.ended() && opponent_connected ==> r.match_state.winner == Some(
                other(p),
            )
            &&& s.match_state.ended() ==> r.match_state == s.match_state
        }),
        s.after_disconnection(Disconnection { slot: None, opponent_connected }) == s,
{
}

/// The broadcast status says the Match ended exactly when it has a winner,
/// and for a consistent Match reports the recorded winner and reason; the
/// snapshot carries the tick, and for each player that player's own
/// Character as it stands.
pub proof fn law_snapshot_reports_the_outcome(m: MatchState)
    ensures
        (status_of(m) is Ended) <==> m.ended(),
        m.outcome_consistent() && m.ended() ==> status_of(m) == (MatchStatus::Ended {
            winner: m.winner->0,
            reason: m.end_reason->0,
        }),
        (snapshot_of(m).status is Ended) <==> m.winner is Some,
        m.winner is Some && m.end_reason is Some ==> snapshot_of(m).status == (MatchStatus::Ended {
            winner: m.winner->0,
            reason: m.end_reason->0,
        }),
        snapshot_of(m).tick == m.tick,
        snapshot_of(m).p1.position == m.p1.position && snapshot_of(m).p2.position == m.p2.position,
        snapshot_of(m).p1.facing == m.p1.facing && snapshot_of(m).p2.facing == m.p2.facing,
        snapshot_of(m).p1.health == m.p1.health && snapshot_of(m).p2.health == m.p2.health,
        snapshot_of(m).p1.airborne == m.p1.airborne && snapshot_of(m).p2.airborne
            == m.p2.airborne,
        snapshot_of(m).p1.vertical_offset == m.p1.vertical_offset
            && snapshot_of(m).p2.vertical_offset == m.p2.vertical_offset,
        snapshot_of(m).p1.speaking == m.p1.speaking && snapshot_of(m).p2.speaking
            == m.p2.speaking,
        snapshot_of(m).p1.attacking == m.p1.attack_animation && snapshot_of(m).p2.attacking
            == m.p2.attack_animation,
{
}

/// Disconnects never move the tick.
proof fn lemma_disconnections_keep_tick(s: Simulation, ds: Seq<Disconnection>)
    ensures
        s.after_disconnections(ds).match_state.tick == s.match_state.tick,
    decreases ds.len(),
{
    if ds.len() > 0 {
        lemma_disconnections_keep_tick(s, ds.drop_last());
    }
}

/// Inputs never move the tick, except a restart, which sets it back to 0.
proof fn lemma_inputs_keep_or_reset_tick(s: Simulation, inputs: Seq<TaggedInputEvent>)
    ensures
        s.after_inputs(inputs).match_state.tick == s.match_state.tick || s.after_inputs(
            inputs,
        ).match_state.tick == 0,
    decreases inputs.len(),
{
    if inputs.len() > 0 {
        lemma_inputs_keep_or_reset_tick(s, inputs.drop_last());
    }
}

/// Every step advances the Match by exactly one tick - from where it was,
/// or from a fresh start if a restart was honored during the step -
/// whether or not any input arrived.
pub proof fn law_every_step_advances_one_tick(s: Simulation, ds: Seq<Disconnection>, inputs: Seq<TaggedInputEvent>)
    requires
        s.match_state.tick < u64::MAX,
    ensures
        s.stepped(ds, inputs).match_state.tick == s.match_state.tick + 1 || s.stepped(
            ds,
            inputs,
        ).match_state.tick == 1,
        inputs.len() == 0 ==> s.stepped(ds, inputs).match_state.tick == s.match_state.tick + 1,
{
    lemma_disconnections_keep_tick(s, ds);
    lemma_inputs_keep_or_reset_tick(s.after_disconnections(ds), inputs);
    lemma_held_movement_keeps_tick(s.after_disconnections(ds).after_inputs(inputs));
}

/// Held movement never moves the tick.
proof fn lemma_held_movement_keeps_tick(s: Simulation)
    ensures
        s.after_held_movement().match_state.tick == s.match_state.tick,
{
}

} // verus!
