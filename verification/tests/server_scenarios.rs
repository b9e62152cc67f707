//! Whole-server scenarios, tick by tick: connections claim slots, send
//! input and leave, and the simulation steps once per tick and broadcasts
//! a snapshot. The harness stands in for the network: a connection is the
//! slot it was told it holds, and one tick is `TICK_NANOS` on the
//! server's clock.

use combat_ductus::combat::{
    Player, ATTACK_RANGE, KICK_DAMAGE, MatchEndReason, PUNCH_DAMAGE, SPECIAL_DAMAGE,
    STAGE_HALF_WIDTH, STARTING_HEALTH,
};
use combat_ductus::net_protocol::{InputEvent, MatchStatus, ServerMessage, StateSnapshot};
use combat_ductus::server_net::accept::{assign_slot, end_connection, SlotAssignment};
use combat_ductus::server_net::simulation::Simulation;
use combat_ductus::server_net::{Disconnection, TaggedInputEvent};

/// Roughly one tick at the server's ~30Hz schedule, in nanoseconds.
const TICK_NANOS: u64 = 33_333_333;

/// Enough ticks for anything in these scenarios to happen.
const PATIENCE: usize = 1000;

struct Server {
    sim: Simulation,
    slots: SlotAssignment,
    now: u64,
    inputs: Vec<TaggedInputEvent>,
    disconnects: Vec<Disconnection>,
}

impl Server {
    fn new() -> Self {
        Server {
            sim: Simulation::new(),
            slots: SlotAssignment::default(),
            now: 0,
            inputs: Vec::new(),
            disconnects: Vec::new(),
        }
    }

    /// A new connection arrives; the one-time message it is sent first.
    fn connect(&mut self) -> ServerMessage {
        ServerMessage::YourSlot(assign_slot(&mut self.slots, self.now))
    }

    /// A new connection arrives; the slot it holds.
    fn join(&mut self) -> Option<Player> {
        match self.connect() {
            ServerMessage::YourSlot(slot) => slot,
            ServerMessage::Snapshot(_) => panic!("a connection is told its slot first"),
        }
    }

    fn send(&mut self, slot: Option<Player>, event: InputEvent) {
        self.inputs.push((slot, event));
    }

    /// The connection holding `slot` is gone.
    fn drop_connection(&mut self, slot: Option<Player>) {
        let d = end_connection(&mut self.slots, slot, self.now);
        self.disconnects.push(d);
    }

    /// One simulation step; the snapshot every connection is sent.
    fn tick(&mut self) -> StateSnapshot {
        let message = self.sim.step(&self.disconnects, &self.inputs);
        self.disconnects.clear();
        self.inputs.clear();
        self.now += TICK_NANOS;
        match message {
            ServerMessage::Snapshot(snapshot) => snapshot,
            ServerMessage::YourSlot(_) => panic!("a step always broadcasts a snapshot"),
        }
    }

    /// Ticks until `done` holds of a snapshot, which is returned.
    fn tick_until(&mut self, what: &str, done: impl Fn(&StateSnapshot) -> bool) -> StateSnapshot {
        for _ in 0..PATIENCE {
            let snapshot = self.tick();
            if done(&snapshot) {
                return snapshot;
            }
        }
        panic!("gave up waiting for {what}");
    }

    /// Runs P1 toward P2 until they are within Punch/Kick range, then
    /// stops.
    fn move_p1_into_attack_range_of_p2(&mut self, p1: Option<Player>) {
        self.send(p1, InputEvent::MoveRight(true));
        self.tick_until("attack range", |s| (s.p2.position - s.p1.position).abs() <= ATTACK_RANGE);
        self.send(p1, InputEvent::MoveRight(false));
        self.tick();
    }

    /// Throws `attack` from `slot` every few ticks until `landed` holds.
    fn throw_until(
        &mut self,
        slot: Option<Player>,
        attack: InputEvent,
        landed: impl Fn(&StateSnapshot) -> bool,
    ) -> StateSnapshot {
        for _ in 0..PATIENCE {
            self.send(slot, attack);
            for _ in 0..5 {
                let snapshot = self.tick();
                if landed(&snapshot) {
                    return snapshot;
                }
            }
        }
        panic!("gave up waiting for the attack to land");
    }

    /// Knocks P2 out with Punches from P1.
    fn knock_out_p2(&mut self, p1: Option<Player>) -> StateSnapshot {
        self.move_p1_into_attack_range_of_p2(p1);
        let mut expected_health = STARTING_HEALTH;
        for _ in 0..STARTING_HEALTH {
            expected_health -= PUNCH_DAMAGE;
            self.throw_until(p1, InputEvent::Punch, |s| s.p2.health <= expected_health);
        }
        self.tick_until("the match to end", |s| matches!(s.status, MatchStatus::Ended { .. }))
    }

    /// Ticks until the position `position` reads stops changing, and
    /// returns it.
    fn settled(&mut self, position: impl Fn(&StateSnapshot) -> i32) -> i32 {
        let mut previous = position(&self.tick());
        for _ in 0..PATIENCE {
            let current = position(&self.tick());
            if current == previous {
                return current;
            }
            previous = current;
        }
        panic!("gave up waiting for movement to settle");
    }
}

#[test]
fn jump_input_sends_player_one_airborne_and_they_land_again() {
    let mut server = Server::new();
    let p1 = server.join();
    server.send(p1, InputEvent::Jump);
    let airborne = server.tick_until("the jump to start", |s| s.p1.airborne);
    assert!(airborne.p1.vertical_offset > 0);
    let landed = server.tick_until("the jump to end", |s| !s.p1.airborne);
    assert_eq!(landed.p1.vertical_offset, 0);
}

#[test]
fn special_input_lands_shows_the_speech_bubble_then_it_clears() {
    let mut server = Server::new();
    let p1 = server.join();
    // The starting positions are already farther apart than the Special's
    // minimum range.
    server.send(p1, InputEvent::Special);
    let cast = server.tick_until("the special to land", |s| s.p2.health < STARTING_HEALTH);
    assert_eq!(cast.p2.health, STARTING_HEALTH - SPECIAL_DAMAGE);
    assert!(cast.p1.speaking);
    let cleared = server.tick_until("the speech bubble to clear", |s| !s.p1.speaking);
    assert!(!cleared.p1.speaking);
}

#[test]
fn punch_lands_and_reduces_player_twos_health_when_in_range() {
    let mut server = Server::new();
    let p1 = server.join();
    server.move_p1_into_attack_range_of_p2(p1);
    server.send(p1, InputEvent::Punch);
    let hit = server.tick_until("the punch to land", |s| s.p2.health < STARTING_HEALTH);
    assert_eq!(hit.p2.health, STARTING_HEALTH - PUNCH_DAMAGE);
}

#[test]
fn kick_lands_and_reduces_player_twos_health_by_two_when_in_range() {
    let mut server = Server::new();
    let p1 = server.join();
    server.move_p1_into_attack_range_of_p2(p1);
    server.send(p1, InputEvent::Kick);
    let hit = server.tick_until("the kick to land", |s| s.p2.health < STARTING_HEALTH);
    assert_eq!(hit.p2.health, STARTING_HEALTH - KICK_DAMAGE);
}

#[test]
fn attacks_do_not_land_when_thrown_out_of_range() {
    let mut server = Server::new();
    let p1 = server.join();
    server.send(p1, InputEvent::Punch);
    server.send(p1, InputEvent::Kick);
    for _ in 0..10 {
        assert_eq!(server.tick().p2.health, STARTING_HEALTH);
    }
}

#[test]
fn rapid_repeated_punch_and_kick_presses_are_throttled_by_the_shared_cooldown() {
    let mut server = Server::new();
    let p1 = server.join();
    server.move_p1_into_attack_range_of_p2(p1);
    for _ in 0..STARTING_HEALTH {
        server.send(p1, InputEvent::Punch);
        server.send(p1, InputEvent::Kick);
    }
    let after_burst =
        server.tick_until("the first attack to land", |s| s.p2.health < STARTING_HEALTH);
    assert_eq!(after_burst.p2.health, STARTING_HEALTH - PUNCH_DAMAGE);
    for _ in 0..10 {
        assert_eq!(server.tick().p2.health, STARTING_HEALTH - PUNCH_DAMAGE);
    }
}

#[test]
fn server_ticks_and_broadcasts_snapshots_before_any_client_connects() {
    let mut server = Server::new();
    let snapshot = server.tick();
    assert_eq!(snapshot.p1.health, STARTING_HEALTH);
    assert_eq!(snapshot.p2.health, STARTING_HEALTH);
    assert_eq!(snapshot.status, MatchStatus::InProgress);
}

#[test]
fn server_applies_a_connected_clients_input_to_player_one() {
    let mut server = Server::new();
    let p1 = server.join();
    let starting_position = server.tick().p1.position;
    server.send(p1, InputEvent::MoveRight(true));
    let moved = server.tick_until("P1 to move", |s| s.p1.position > starting_position);
    assert!(moved.p1.position > starting_position);
}

#[test]
fn a_second_connection_is_assigned_player_two_and_controls_it() {
    let mut server = Server::new();
    let _p1 = server.join();
    let p2 = server.join();
    let start = server.tick();
    server.send(p2, InputEvent::MoveLeft(true));
    let moved = server.tick_until("P2 to move", |s| s.p2.position < start.p2.position);
    assert!(moved.p2.position < start.p2.position);
    assert_eq!(moved.p1.position, start.p1.position);
}

#[test]
fn a_third_connection_is_a_spectator_and_controls_neither_player() {
    let mut server = Server::new();
    let _p1 = server.join();
    let _p2 = server.join();
    let spectator = server.join();
    assert_eq!(spectator, None);
    let starting = server.tick();
    server.send(spectator, InputEvent::MoveRight(true));
    server.send(spectator, InputEvent::MoveLeft(true));
    server.send(spectator, InputEvent::Punch);
    for _ in 0..10 {
        let snapshot = server.tick();
        assert_eq!(snapshot.p1.position, starting.p1.position);
        assert_eq!(snapshot.p2.position, starting.p2.position);
        assert_eq!(snapshot.p1.health, starting.p1.health);
        assert_eq!(snapshot.p2.health, starting.p2.health);
    }
}

#[test]
fn each_connection_is_told_its_own_slot_right_after_connecting() {
    let mut server = Server::new();
    assert_eq!(server.connect(), ServerMessage::YourSlot(Some(Player::P1)));
    assert_eq!(server.connect(), ServerMessage::YourSlot(Some(Player::P2)));
    assert_eq!(server.connect(), ServerMessage::YourSlot(None));
}

#[test]
fn a_freed_player_slot_is_reassigned_to_the_next_connection() {
    let mut server = Server::new();
    let p1 = server.join();
    server.drop_connection(p1);
    server.tick();
    let next = server.join();
    assert_eq!(next, Some(Player::P1));
    let starting = server.tick().p1.position;
    server.send(next, InputEvent::MoveRight(true));
    server.tick_until("the new connection to move P1", |s| s.p1.position > starting);
}

#[test]
fn a_connection_joining_after_the_match_has_ended_sees_ended_status_immediately() {
    let mut server = Server::new();
    let p1 = server.join();
    server.knock_out_p2(p1);
    let _latecomer = server.join();
    let first_snapshot = server.tick();
    assert!(matches!(first_snapshot.status, MatchStatus::Ended { .. }));
}

#[test]
fn player_two_reverts_to_idle_when_its_connection_disconnects() {
    let mut server = Server::new();
    let _p1 = server.join();
    let p2 = server.join();
    server.send(p2, InputEvent::MoveLeft(true));
    server.tick_until("P2 to start moving", |s| s.p2.position < 0);
    server.drop_connection(p2);
    let _observer = server.join();
    let settled = server.settled(|s| s.p2.position);
    for _ in 0..10 {
        assert_eq!(server.tick().p2.position, settled);
    }
}

#[test]
fn a_real_players_mid_match_disconnect_forfeits_the_match_to_the_remaining_player() {
    let mut server = Server::new();
    let _p1 = server.join();
    let p2 = server.join();
    for _ in 0..10 {
        assert_eq!(server.tick().status, MatchStatus::InProgress);
    }
    server.drop_connection(p2);
    let ended =
        server.tick_until("the forfeit", |s| matches!(s.status, MatchStatus::Ended { .. }));
    assert_eq!(
        ended.status,
        MatchStatus::Ended { winner: Player::P1, reason: MatchEndReason::Forfeit }
    );
}

#[test]
fn disconnecting_while_the_other_slot_is_still_the_idle_opponent_does_not_end_the_match() {
    let mut server = Server::new();
    let p1 = server.join();
    server.drop_connection(p1);
    let _observer = server.join();
    for _ in 0..10 {
        assert_eq!(server.tick().status, MatchStatus::InProgress);
    }
}

#[test]
fn disconnecting_while_movement_is_held_stops_the_character_from_continuing_to_move() {
    let mut server = Server::new();
    let p1 = server.join();
    server.send(p1, InputEvent::MoveRight(true));
    server.tick_until("movement to start", |s| s.p1.position > 0);
    server.drop_connection(p1);
    let _observer = server.join();
    let settled = server.settled(|s| s.p1.position);
    for _ in 0..10 {
        assert_eq!(server.tick().p1.position, settled);
    }
}

#[test]
fn disconnecting_while_move_left_is_held_also_stops_the_character() {
    let mut server = Server::new();
    let p1 = server.join();
    server.send(p1, InputEvent::MoveLeft(true));
    server.tick_until("movement to start", |s| s.p1.position < 0);
    server.drop_connection(p1);
    let _observer = server.join();
    let settled = server.settled(|s| s.p1.position);
    for _ in 0..10 {
        assert_eq!(server.tick().p1.position, settled);
    }
}

#[test]
fn a_connection_taking_over_a_forfeited_slot_inherits_the_ended_match_not_a_fresh_start() {
    let mut server = Server::new();
    let p1 = server.join();
    let p2 = server.join();
    server.move_p1_into_attack_range_of_p2(p1);
    server.send(p1, InputEvent::Punch);
    let damaged = server.tick_until("the punch to land", |s| s.p2.health < STARTING_HEALTH);
    assert_eq!(damaged.p2.health, STARTING_HEALTH - PUNCH_DAMAGE);
    for _ in 0..10 {
        server.tick();
    }
    server.drop_connection(p2);
    server.tick_until("the forfeit", |s| matches!(s.status, MatchStatus::Ended { .. }));
    assert_eq!(server.connect(), ServerMessage::YourSlot(Some(Player::P2)));
    let inherited = server.tick();
    assert_eq!(inherited.p2.health, STARTING_HEALTH - PUNCH_DAMAGE);
    assert_eq!(
        inherited.status,
        MatchStatus::Ended { winner: Player::P1, reason: MatchEndReason::Forfeit }
    );
}

#[test]
fn server_clamps_movement_at_the_stage_bound() {
    let mut server = Server::new();
    let p1 = server.join();
    server.send(p1, InputEvent::MoveRight(true));
    let saturated =
        server.tick_until("the stage bound", |s| s.p1.position >= STAGE_HALF_WIDTH);
    assert_eq!(saturated.p1.position, STAGE_HALF_WIDTH);
    for _ in 0..5 {
        assert_eq!(server.tick().p1.position, STAGE_HALF_WIDTH);
    }
}

#[test]
fn releasing_movement_input_stops_the_position_from_changing() {
    let mut server = Server::new();
    let p1 = server.join();
    server.send(p1, InputEvent::MoveRight(true));
    server.tick_until("movement to start", |s| s.p1.position > 0);
    server.send(p1, InputEvent::MoveRight(false));
    let settled = server.settled(|s| s.p1.position);
    for _ in 0..5 {
        assert_eq!(server.tick().p1.position, settled);
    }
}

#[test]
fn restart_request_is_ignored_while_the_match_is_in_progress() {
    let mut server = Server::new();
    let p1 = server.join();
    server.move_p1_into_attack_range_of_p2(p1);
    server.send(p1, InputEvent::Punch);
    let hit = server.tick_until("the punch to land", |s| s.p2.health < STARTING_HEALTH);
    assert_eq!(hit.p2.health, STARTING_HEALTH - PUNCH_DAMAGE);
    server.send(p1, InputEvent::RequestRestart);
    for _ in 0..10 {
        let snapshot = server.tick();
        assert_eq!(snapshot.p2.health, STARTING_HEALTH - PUNCH_DAMAGE);
        assert_eq!(snapshot.status, MatchStatus::InProgress);
    }
}

#[test]
fn restart_resets_the_match_once_it_has_ended() {
    let mut server = Server::new();
    let p1 = server.join();
    let ended = server.knock_out_p2(p1);
    assert_eq!(ended.p2.health, 0);
    server.send(p1, InputEvent::RequestRestart);
    let restarted =
        server.tick_until("the restart", |s| matches!(s.status, MatchStatus::InProgress));
    assert_eq!(restarted.p1.health, STARTING_HEALTH);
    assert_eq!(restarted.p2.health, STARTING_HEALTH);
}

#[test]
fn restart_resets_held_movement_so_a_character_does_not_keep_walking_on_its_own() {
    let mut server = Server::new();
    let p1 = server.join();
    server.move_p1_into_attack_range_of_p2(p1);
    let mut expected_health = STARTING_HEALTH;
    for _ in 0..STARTING_HEALTH - PUNCH_DAMAGE {
        expected_health -= PUNCH_DAMAGE;
        server.throw_until(p1, InputEvent::Punch, |s| s.p2.health <= expected_health);
    }
    // Movement held at the winning blow, and never released.
    server.send(p1, InputEvent::MoveRight(true));
    server.throw_until(p1, InputEvent::Punch, |s| s.p2.health == 0);
    server.tick_until("the match to end", |s| matches!(s.status, MatchStatus::Ended { .. }));
    server.send(p1, InputEvent::RequestRestart);
    let restarted =
        server.tick_until("the restart", |s| matches!(s.status, MatchStatus::InProgress));
    let starting_position = restarted.p1.position;
    for _ in 0..10 {
        assert_eq!(server.tick().p1.position, starting_position);
    }
}

#[test]
fn a_spectators_restart_request_has_no_effect_but_a_players_still_works() {
    let mut server = Server::new();
    let p1 = server.join();
    let _p2 = server.join();
    server.knock_out_p2(p1);
    let spectator = server.join();
    assert_eq!(spectator, None);
    assert!(matches!(server.tick().status, MatchStatus::Ended { .. }));
    server.send(spectator, InputEvent::RequestRestart);
    for _ in 0..10 {
        assert!(matches!(server.tick().status, MatchStatus::Ended { .. }));
    }
    server.send(p1, InputEvent::RequestRestart);
    let restarted =
        server.tick_until("the restart", |s| matches!(s.status, MatchStatus::InProgress));
    assert_eq!(restarted.p1.health, STARTING_HEALTH);
    assert_eq!(restarted.p2.health, STARTING_HEALTH);
}
