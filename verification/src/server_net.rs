//! The server's decisions: which connection holds which player slot, what a
//! disconnect means for the Match, and how one simulation tick turns the
//! inputs that arrived into the next state and the snapshot to broadcast.
//!
//! Two halves, one per submodule:
//! - [`accept`] - player-slot assignment for arriving and departing
//!   connections
//! - [`simulation`] - one step of the authoritative simulation

pub mod accept;
pub mod simulation;

use vstd::prelude::*;
use crate::combat::Player;
use crate::net_protocol::InputEvent;

verus! {

/// An input event tagged with which player slot sent it, if any. `None`
/// means the sending connection is a spectator with no Character of its
/// own to control.
pub type TaggedInputEvent = (Option<Player>, InputEvent);

/// What happened when one connection ended, for the simulation to react to.
/// `opponent_connected` is only meaningful when `slot` is `Some` - a
/// spectator disconnecting never triggers a forfeit.
#[derive(Debug, Clone, Copy, PartialEq, Eq, Structural)]
pub struct Disconnection {
    /// Which player slot (if any) the ended connection held - `None` means
    /// it was a spectator.
    pub slot: Option<Player>,
    /// Whether the *other* player slot was still held by a real, settled
    /// connected client at the instant this connection ended - the fact a
    /// forfeit hinges on.
    pub opponent_connected: bool,
}

} // verus!
