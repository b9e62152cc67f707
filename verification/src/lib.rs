//! The rules and decisions behind a two-player, server-authoritative
//! fighting game: combat rules, the wire protocol's message types, the
//! server's slot assignment and simulation step, and the client's
//! connection and presentation decisions.

pub mod combat;
pub mod combat_laws;
pub mod net_protocol;
pub mod server_net;
pub mod client_net;
pub mod client;
