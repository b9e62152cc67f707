//! What the client's connection to the server reports, in terms the rest
//! of the client cares about.

use vstd::prelude::*;
use crate::combat::Player;
use crate::net_protocol::{ServerMessage, StateSnapshot};

verus! {

/// Something worth telling the rest of the client about, distilled from the
/// raw WebSocket events.
#[derive(Debug, Clone, PartialEq)]
pub enum ConnectionEvent {
    /// The WebSocket handshake completed; the connection is now usable.
    Opened,
    /// This connection's own role - arrives exactly once, from the server's
    /// one-time `ServerMessage::YourSlot`.
    YourSlot(Option<Player>),
    /// A `StateSnapshot` arrived and decoded successfully.
    Snapshot(StateSnapshot),
    /// The connection failed, or a message arrived that wasn't a server
    /// message this client understood.
    Error(String),
    /// The connection was closed (by either side).
    Closed,
}

/// One raw event from the WebSocket, with a text frame already decoded as
/// a server message (or the reason it could not be).
#[derive(Debug, Clone, PartialEq)]
pub enum SocketEvent {
    Opened,
    /// A text frame holding this server message.
    Message(ServerMessage),
    /// A text frame that did not decode as a server message, and the
    /// decoder's reason.
    Undecodable(String),
    /// A binary, ping, pong or other non-text frame - not part of this
    /// protocol.
    OtherFrame,
    Error(String),
    Closed,
}

/// The error text reported for a text frame that did not decode, given the
/// decoder's own description `err`.
pub open spec fn invalid_message_text(err: Seq<char>) -> Seq<char> {
    "received a message that wasn't a valid server message: "@ + err
}

/// What a raw socket event means to the client: a decoded message becomes
/// its role or snapshot, an undecodable one an error, and a non-text frame
/// nothing at all.
pub fn connection_event(event: SocketEvent) -> (r: Option<ConnectionEvent>)
    ensures
        event is Opened ==> r == Some(ConnectionEvent::Opened),
        event is OtherFrame ==> r is None,
        event is Closed ==> r == Some(ConnectionEvent::Closed),
        event matches SocketEvent::Error(err) ==> r == Some(ConnectionEvent::Error(err)),
        event matches SocketEvent::Message(ServerMessage::YourSlot(slot)) ==> r == Some(
            ConnectionEvent::YourSlot(slot),
        ),
        event matches SocketEvent::Message(ServerMessage::Snapshot(s)) ==> r == Some(
            ConnectionEvent::Snapshot(s),
        ),
        event matches SocketEvent::Undecodable(err) ==> (r matches Some(ConnectionEvent::Error(text))
            && text@ == invalid_message_text(err@)),
{
    match event {
        SocketEvent::Opened => Some(ConnectionEvent::Opened),
        SocketEvent::Message(ServerMessage::YourSlot(slot)) => Some(
            ConnectionEvent::YourSlot(slot),
        ),
        SocketEvent::Message(ServerMessage::Snapshot(snapshot)) => Some(
            ConnectionEvent::Snapshot(snapshot),
        ),
        SocketEvent::Undecodable(err) => {
            let mut text = String::from_str(
                "received a message that wasn't a valid server message: ",
            );
            text.append(err.as_str());
            Some(ConnectionEvent::Error(text))
        },
        SocketEvent::OtherFrame => None,
        SocketEvent::Error(err) => Some(ConnectionEvent::Error(err)),
        SocketEvent::Closed => Some(ConnectionEvent::Closed),
    }
}

} // verus!
