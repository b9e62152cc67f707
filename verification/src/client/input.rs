//! Which gameplay keys send which inputs to the server. Movement is
//! edge-triggered (once on key-down, once on key-up); jump and attacks are
//! one-shot on key-down. The client never simulates anything itself.

use vstd::prelude::*;
use crate::net_protocol::InputEvent;

verus! {

/// The gameplay keys: A/D move, Space jumps, J punches, K kicks, H casts
/// the Special.
#[derive(Debug, Clone, Copy, PartialEq, Eq, Structural)]
pub enum GameKey {
    A,
    D,
    Space,
    J,
    K,
    H,
}

/// Whether a key was just pressed or just released this frame.
#[derive(Debug, Clone, Copy, PartialEq, Eq, Structural)]
pub enum KeyEdge {
    Pressed,
    Released,
}

/// The input a key edge sends, if any.
pub open spec fn input_for(key: GameKey, edge: KeyEdge) -> Option<InputEvent> {
    let pressed = edge == KeyEdge::Pressed;
    match key {
        GameKey::A => Some(InputEvent::MoveLeft(pressed)),
        GameKey::D => Some(InputEvent::MoveRight(pressed)),
        GameKey::Space => if pressed {
            Some(InputEvent::Jump)
        } else {
            None
        },
        GameKey::J => if pressed {
            Some(InputEvent::Punch)
        } else {
            None
        },
        GameKey::K => if pressed {
            Some(InputEvent::Kick)
        } else {
            None
        },
        GameKey::H => if pressed {
            Some(InputEvent::Special)
        } else {
            None
        },
    }
}

/// The input to send for `key` having just been pressed or released.
pub fn key_input(key: GameKey, edge: KeyEdge) -> (r: Option<InputEvent>)
    ensures
        r == input_for(key, edge),
{
    let pressed = match edge {
        KeyEdge::Pressed => true,
        KeyEdge::Released => false,
    };
    match key {
        GameKey::A => Some(InputEvent::MoveLeft(pressed)),
        GameKey::D => Some(InputEvent::MoveRight(pressed)),
        GameKey::Space => if pressed {
            Some(InputEvent::Jump)
        } else {
            None
        },
        GameKey::J => if pressed {
            Some(InputEvent::Punch)
        } else {
            None
        },
        GameKey::K => if pressed {
            Some(InputEvent::Kick)
        } else {
            None
        },
        GameKey::H => if pressed {
            Some(InputEvent::Special)
        } else {
            None
        },
    }
}

/// Movement keys report both edges - A as `MoveLeft`, D as `MoveRight`,
/// `true` on press and `false` on release - while Space, J, K and H fire
/// once, on press only, as `Jump`, `Punch`, `Kick` and `Special`.
pub proof fn law_key_bindings(edge: KeyEdge)
    ensures
        input_for(GameKey::A, edge) == Some(InputEvent::MoveLeft(edge is Pressed)),
        input_for(GameKey::D, edge) == Some(InputEvent::MoveRight(edge is Pressed)),
        input_for(GameKey::Space, KeyEdge::Pressed) == Some(InputEvent::Jump),
        input_for(GameKey::J, KeyEdge::Pressed) == Some(InputEvent::Punch),
        input_for(GameKey::K, KeyEdge::Pressed) == Some(InputEvent::Kick),
        input_for(GameKey::H, KeyEdge::Pressed) == Some(InputEvent::Special),
        input_for(GameKey::Space, KeyEdge::Released) is None,
        input_for(GameKey::J, KeyEdge::Released) is None,
        input_for(GameKey::K, KeyEdge::Released) is None,
        input_for(GameKey::H, KeyEdge::Released) is None,
{
}

} // verus!
