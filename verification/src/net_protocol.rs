//! Wire message types exchanged between the client and the server over a
//! WebSocket connection. Plain data with no I/O of its own; encoding these
//! as JSON happens where the bytes are actually sent and received.

use vstd::prelude::*;
use crate::combat::{Attack, Facing, MatchEndReason, Player};

verus! {

/// A single input event sent from the client to the server for the tick it
/// occurred on. Movement is edge-triggered (key down/up).
#[derive(Debug, Clone, Copy, PartialEq, Eq, Structural)]
pub enum InputEvent {
    /// The move-left key was pressed or released.
    MoveLeft(bool),
    /// The move-right key was pressed or released.
    MoveRight(bool),
    /// The jump key was pressed.
    Jump,
    /// The punch key was pressed.
    Punch,
    /// The kick key was pressed.
    Kick,
    /// The special key was pressed.
    Special,
    /// The restart control on the Match-Ended screen was activated. Only
    /// honored once the Match has actually ended, and only from a
    /// connection holding a player slot.
    RequestRestart,
}

/// The attack an input triggers, if it is an attack input at all.
pub open spec fn attack_of(event: InputEvent) -> Option<Attack> {
    match event {
        InputEvent::Punch => Some(Attack::Punch),
        InputEvent::Kick => Some(Attack::Kick),
        InputEvent::Special => Some(Attack::Special),
        _ => None,
    }
}

impl InputEvent {
    /// The `combat::Attack` this input triggers, if it's an attack input at
    /// all (movement/jump/restart events return `None`).
    pub fn as_attack(self) -> (r: Option<Attack>)
        ensures
            r == attack_of(self),
    {
        match self {
            InputEvent::Punch => Some(Attack::Punch),
            InputEvent::Kick => Some(Attack::Kick),
            InputEvent::Special => Some(Attack::Special),
            InputEvent::MoveLeft(_) | InputEvent::MoveRight(_) | InputEvent::Jump
            | InputEvent::RequestRestart => None,
        }
    }
}

/// A snapshot of one Character's rendering-relevant state, sent every tick.
/// Positions and heights are in the same units as `combat::CharacterState`
/// (position units and height units).
#[derive(Debug, Clone, Copy, PartialEq, Eq)]
pub struct CharacterSnapshot {
    pub position: i32,
    pub facing: Facing,
    pub health: u8,
    pub airborne: bool,
    /// How high off the ground this Character currently is. Zero whenever
    /// `airborne` is false. Rendering-only.
    pub vertical_offset: i32,
    /// Whether this Character's speech bubble is currently showing.
    pub speaking: bool,
    /// Which attack's arm/leg swing is currently animating, if any.
    pub attacking: Option<Attack>,
}

/// Whether the Match is still being played or has already ended, and if so
/// by whom and why.
#[derive(Debug, Clone, Copy, PartialEq, Eq, Structural)]
pub enum MatchStatus {
    InProgress,
    Ended { winner: Player, reason: MatchEndReason },
}

/// The full state snapshot broadcast from server to client every tick.
/// Carries everything the client needs to render a frame - it never
/// simulates anything itself.
#[derive(Debug, Clone, Copy, PartialEq, Eq)]
pub struct StateSnapshot {
    pub tick: u64,
    pub p1: CharacterSnapshot,
    pub p2: CharacterSnapshot,
    pub status: MatchStatus,
}

/// Everything the server ever sends a connection.
#[derive(Debug, Clone, Copy, PartialEq, Eq)]
pub enum ServerMessage {
    /// Sent once, right after connecting: which player slot this
    /// connection holds, or `None` for a spectator.
    YourSlot(Option<Player>),
    /// Sent every tick.
    Snapshot(StateSnapshot),
}

} // verus!
