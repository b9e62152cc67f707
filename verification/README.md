# combat_ductus

A two-player versus fighting game played over a local network: one
headless server runs the single authoritative Match and broadcasts a
snapshot of it every tick; every player connects to it as a client that
renders those snapshots and sends key presses back.

The rules and decisions of the game are a Verus library, proved against
their contracts:

- `src/combat.rs` - Health, damage, reach, the shared Punch/Kick cooldown,
  the Special's gates, Jump arcs, timed swings and speech bubbles, and how
  a Match ends. Positions are integers in thousandths of a world unit and
  heights in 9000ths, so every range check and the Jump arc are exact.
- `src/combat_laws.rs` - what holds across all of those operations and over
  time (a decided Match stays decided, Health never rises, Facing never
  changes, Characters stay on the Stage, timed effects last exactly their
  stated number of ticks, every operation keeps a Match well formed).
- `src/net_protocol.rs` - the messages exchanged between client and server.
- `src/server_net/` - slot assignment for arriving and departing
  connections (`accept`) and one step of the simulation (`simulation`).
- `src/client_net.rs`, `src/client/` - what the client makes of socket
  events, its screen flow, and what each on-screen element shows.

`app/` is the program around the library: sockets, JSON, threads, the
fixed-rate schedule, and drawing. It runs the server by default and the
client with the argument `client`.

`tests/` runs the library on concrete values, including whole-server
scenarios driven tick by tick.
