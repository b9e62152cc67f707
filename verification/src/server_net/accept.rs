//! Player-slot assignment: the first connection to arrive while a slot is
//! free claims it (P1 before P2) and releases it again the moment that
//! connection ends, so the next connection can take over the same slot. A
//! connection arriving while both slots are taken gets no slot and
//! spectates.
//!
//! Times are nanoseconds on the server's own monotonic clock.

use vstd::prelude::*;
use crate::combat::{other, Player};
use crate::server_net::Disconnection;

verus! {

/// How long a slot must have been *continuously* taken before its occupant
/// counts as a real opponent for forfeit purposes. Debounces a race where,
/// while a disconnect is still being noticed, an unrelated connection
/// claims the other, vacant slot and vanishes again.
pub const MIN_OPPONENT_SETTLE_NANOS: u64 = 75_000_000;

/// Which player slots are currently held by a connected client, and since
/// when.
#[derive(Debug, Clone, Copy, PartialEq, Eq)]
pub struct SlotAssignment {
    pub p1_taken: bool,
    pub p2_taken: bool,
    /// When each slot most recently went from vacant to taken - `None`
    /// while vacant. Used only to debounce the forfeit check.
    pub p1_taken_since: Option<u64>,
    pub p2_taken_since: Option<u64>,
}

impl SlotAssignment {
    pub open spec fn taken(self, player: Player) -> bool {
        match player {
            Player::P1 => self.p1_taken,
            Player::P2 => self.p2_taken,
        }
    }

    pub open spec fn taken_since(self, player: Player) -> Option<u64> {
        match player {
            Player::P1 => self.p1_taken_since,
            Player::P2 => self.p2_taken_since,
        }
    }

    /// The assignment with `player`'s slot marked taken (since `now`) or
    /// vacant; the other slot is untouched.
    pub open spec fn with_slot(self, player: Player, taken: bool, now: u64) -> SlotAssignment {
        let since = if taken {
            Some(now)
        } else {
            None
        };
        match player {
            Player::P1 => SlotAssignment { p1_taken: taken, p1_taken_since: since, ..self },
            Player::P2 => SlotAssignment { p2_taken: taken, p2_taken_since: since, ..self },
        }
    }

    /// Whether `player`'s slot has been taken for at least
    /// `MIN_OPPONENT_SETTLE_NANOS` by `now`.
    pub open spec fn settled(self, player: Player, now: u64) -> bool {
        match self.taken_since(player) {
            Some(since) => since <= now && now - since >= MIN_OPPONENT_SETTLE_NANOS,
            None => false,
        }
    }

    /// The first free slot, P1 before P2, if any.
    pub open spec fn first_free(self) -> Option<Player> {
        if !self.p1_taken {
            Some(Player::P1)
        } else if !self.p2_taken {
            Some(Player::P2)
        } else {
            None
        }
    }

    /// No slot taken.
    pub fn new() -> (r: Self)
        ensures
            !r.taken(Player::P1),
            !r.taken(Player::P2),
            r.taken_since(Player::P1) is None,
            r.taken_since(Player::P2) is None,
    {
        SlotAssignment { p1_taken: false, p2_taken: false, p1_taken_since: None, p2_taken_since: None }
    }

    pub fn is_taken(&self, player: Player) -> (r: bool)
        ensures
            r == self.taken(player),
    {
        match player {
            Player::P1 => self.p1_taken,
            Player::P2 => self.p2_taken,
        }
    }

    /// Marks `player`'s slot taken or vacant at time `now`.
    pub fn set_taken(&mut self, player: Player, taken: bool, now: u64)
        ensures
            *final(self) == old(self).with_slot(player, taken, now),
    {
        let since = if taken {
            Some(now)
        } else {
            None
        };
        match player {
            Player::P1 => {
                self.p1_taken = taken;
                self.p1_taken_since = since;
            },
            Player::P2 => {
                self.p2_taken = taken;
                self.p2_taken_since = since;
            },
        }
    }

    /// Whether `player`'s slot is not just taken, but has been taken for at
    /// least `MIN_OPPONENT_SETTLE_NANOS` continuously, as of `now`.
    pub fn is_settled(&self, player: Player, now: u64) -> (r: bool)
        ensures
            r == self.settled(player, now),
    {
        let taken_since = match player {
            Player::P1 => self.p1_taken_since,
            Player::P2 => self.p2_taken_since,
        };
        match taken_since {
            Some(since) => since <= now && now - since >= MIN_OPPONENT_SETTLE_NANOS,
            None => false,
        }
    }
}

impl Default for SlotAssignment {
    fn default() -> (r: Self)
        ensures
            !r.taken(Player::P1),
            !r.taken(Player::P2),
            r.taken_since(Player::P1) is None,
            r.taken_since(Player::P2) is None,
    {
        Self::new()
    }
}

/// The other of the two player slots - used at disconnect time to check
/// whether *that* slot is still held by a real connected client.
pub fn other_player(player: Player) -> (r: Player)
    ensures
        r == other(player),
{
    match player {
        Player::P1 => Player::P2,
        Player::P2 => Player::P1,
    }
}

/// Claim the first free slot (P1 before P2) at time `now`, or `None` if
/// both are already taken (this connection is a spectator).
pub fn assign_slot(slots: &mut SlotAssignment, now: u64) -> (r: Option<Player>)
    ensures
        r == old(slots).first_free(),
        *final(slots) == match r {
            Some(player) => old(slots).with_slot(player, true, now),
            None => *old(slots),
        },
{
    if !slots.is_taken(Player::P1) {
        slots.set_taken(Player::P1, true, now);
        return Some(Player::P1);
    }
    if !slots.is_taken(Player::P2) {
        slots.set_taken(Player::P2, true, now);
        return Some(Player::P2);
    }
    None
}

/// Frees the slot of a connection that never finished opening (its
/// handshake failed, or it was gone before it could be told its slot).
pub fn release_unopened(slots: &mut SlotAssignment, slot: Option<Player>)
    ensures
        *final(slots) == match slot {
            Some(player) => old(slots).with_slot(player, false, 0),
            None => *old(slots),
        },
{
    if let Some(player) = slot {
        slots.set_taken(player, false, 0);
    }
}

/// A connection holding `slot` has fully ended at time `now`: decide
/// whether its opponent was a real, settled connected client (the forfeit
/// decision) and free its slot, both against the same slot state.
pub fn end_connection(slots: &mut SlotAssignment, slot: Option<Player>, now: u64) -> (r:
    Disconnection)
    ensures
        r.slot == slot,
        r.opponent_connected == match slot {
            Some(player) => old(slots).taken(other(player)) && old(slots).settled(
                other(player),
                now,
            ),
            None => false,
        },
        *final(slots) == match slot {
            Some(player) => old(slots).with_slot(player, false, now),
            None => *old(slots),
        },
{
    let opponent_connected = if let Some(player) = slot {
        let opponent = other_player(player);
        let connected = slots.is_taken(opponent) && slots.is_settled(opponent, now);
        slots.set_taken(player, false, now);
        connected
    } else {
        false
    };
    Disconnection { slot, opponent_connected }
}

/// Slots are handed out first come, first served: P1 before P2, and once
/// both are held every further connection spectates without disturbing
/// either slot. A claimed slot records when it was claimed.
pub proof fn law_slots_first_come_first_served(s: SlotAssignment, now: u64)
    ensures
        !s.taken(Player::P1) ==> s.first_free() == Some(Player::P1),
        s.taken(Player::P1) && !s.taken(Player::P2) ==> s.first_free() == Some(Player::P2),
        s.taken(Player::P1) && s.taken(Player::P2) ==> s.first_free() is None,
        s.first_free() matches Some(p) ==> !s.taken(p) && s.with_slot(p, true, now).taken(p)
            && s.with_slot(p, true, now).taken_since(p) == Some(now)
            && s.with_slot(p, true, now).taken(other(p)) == s.taken(other(p)),
{
}

/// A slot freed by a disconnect is free again for the next connection:
/// after `p` leaves, some slot is free, and it is `p`'s own unless an
/// earlier slot was already free.
pub proof fn law_freed_slot_is_reassigned(s: SlotAssignment, p: Player, now: u64)
    ensures
        s.with_slot(p, false, now).first_free() is Some,
        (p == Player::P1 || s.taken(Player::P1)) ==> s.with_slot(p, false, now).first_free()
            == Some(p),
        !s.with_slot(p, false, now).settled(p, now),
{
}

/// A slot claimed at `t` counts as a settled opponent exactly from
/// `t + MIN_OPPONENT_SETTLE_NANOS` on; a vacant slot never does.
pub proof fn law_settle_window(s: SlotAssignment, p: Player, t: u64, now: u64)
    ensures
        s.with_slot(p, true, t).settled(p, now) <==> t + MIN_OPPONENT_SETTLE_NANOS <= now,
        !s.with_slot(p, false, t).settled(p, now),
{
}

/// Releasing one player's slot never disturbs the other: whether it is
/// taken, since when, and so whether it counts as a settled opponent.
pub proof fn law_release_leaves_other_slot(s: SlotAssignment, p: Player, t: u64, now: u64)
    ensures
        s.with_slot(p, false, t).taken(other(p)) == s.taken(other(p)),
        s.with_slot(p, false, t).taken_since(other(p)) == s.taken_since(other(p)),
        s.with_slot(p, false, t).settled(other(p), now) == s.settled(other(p), now),
{
}

} // verus!
