//! The Connect screen's decisions: turning the typed server address into a
//! connection attempt, and reacting to what the connection reports - the
//! client's screen flow (`Connecting` <-> `InMatch`), its own role, the
//! latest snapshot, and the status line.

use vstd::prelude::*;
use crate::client_net::ConnectionEvent;
use crate::combat::Player;
use crate::net_protocol::StateSnapshot;

verus! {

/// The client's top-level screen/flow state.
#[derive(Debug, Clone, Copy, PartialEq, Eq, Structural)]
pub enum AppState {
    Connecting,
    InMatch,
    /// The Match has ended - the Match-Ended screen moves into and out of
    /// this state; the Connect screen only owns Connecting <-> InMatch.
    MatchEnded,
}

/// This connection's own role - which player slot it controls, or that it
/// is spectating - once the server has said.
#[derive(Debug, Clone, Copy, PartialEq, Eq, Structural)]
pub enum MyRole {
    /// Briefly, before the server's one-time message arrives.
    Unknown,
    Player(Player),
    Spectating,
}

/// The role a `YourSlot` message assigns.
pub open spec fn role_for_slot(slot: Option<Player>) -> MyRole {
    match slot {
        Some(player) => MyRole::Player(player),
        None => MyRole::Spectating,
    }
}

/// The address the Connect screen starts out filled in with when there is
/// no page host to go by.
pub const DEFAULT_SERVER_ADDRESS: &'static str = "127.0.0.1:9000";

/// What the Connect screen starts out filled in with: the host that served
/// the page, on the server's port 9000, so players on the LAN can simply
/// press Connect; `DEFAULT_SERVER_ADDRESS` where there is no page host (a
/// client not running in a browser, or a page with a blank host).
pub open spec fn prefilled_address(page_host: Option<Seq<char>>) -> Seq<char> {
    match page_host {
        Some(host) => if host.len() > 0 {
            host + ":9000"@
        } else {
            DEFAULT_SERVER_ADDRESS@
        },
        None => DEFAULT_SERVER_ADDRESS@,
    }
}

/// The Connect screen's initial address, given the host name the page was
/// served from, if any.
pub fn initial_server_address(page_host: Option<&str>) -> (r: String)
    ensures
        r@ == prefilled_address(
            match page_host {
                Some(host) => Some(host@),
                None => None,
            },
        ),
{
    match page_host {
        Some(host) => {
            if host.is_empty() {
                String::from_str(DEFAULT_SERVER_ADDRESS)
            } else {
                let mut address = String::from_str(host);
                address.append(":9000");
                address
            }
        },
        None => String::from_str(DEFAULT_SERVER_ADDRESS),
    }
}

/// What the status line under the Connect button says.
#[derive(Debug, Clone, PartialEq)]
pub enum StatusMessage {
    EnterAddressFirst,
    Connecting(String),
    CouldNotConnect(String),
    Connected,
    ConnectionError(String),
    ConnectionClosed,
}

/// The text of a status message.
pub open spec fn status_text(m: StatusMessage) -> Seq<char> {
    match m {
        StatusMessage::EnterAddressFirst => "Enter a server address first."@,
        StatusMessage::Connecting(url) => "Connecting to "@ + url@ + "..."@,
        StatusMessage::CouldNotConnect(err) => "Could not connect: "@ + err@,
        StatusMessage::Connected => "Connected."@,
        StatusMessage::ConnectionError(err) => "Connection error: "@ + err@,
        StatusMessage::ConnectionClosed => "Connection closed."@,
    }
}

impl StatusMessage {
    /// The text shown for this status.
    pub fn text(&self) -> (r: String)
        ensures
            r@ == status_text(*self),
    {
        match self {
            StatusMessage::EnterAddressFirst => String::from_str("Enter a server address first."),
            StatusMessage::Connecting(url) => {
                let mut s = String::from_str("Connecting to ");
                s.append(url.as_str());
                s.append("...");
                s
            },
            StatusMessage::CouldNotConnect(err) => {
                let mut s = String::from_str("Could not connect: ");
                s.append(err.as_str());
                s
            },
            StatusMessage::Connected => String::from_str("Connected."),
            StatusMessage::ConnectionError(err) => {
                let mut s = String::from_str("Connection error: ");
                s.append(err.as_str());
                s
            },
            StatusMessage::ConnectionClosed => String::from_str("Connection closed."),
        }
    }
}

/// Whether `c` is whitespace: one of the characters with the Unicode
/// `White_Space` property.
pub open spec fn is_white_space(c: char) -> bool {
    let n = c as int;
    ||| 0x9 <= n <= 0xd
    ||| n == 0x20
    ||| n == 0x85
    ||| n == 0xa0
    ||| n == 0x1680
    ||| 0x2000 <= n <= 0x200a
    ||| n == 0x2028
    ||| n == 0x2029
    ||| n == 0x202f
    ||| n == 0x205f
    ||| n == 0x3000
}

/// `s` without its leading and trailing whitespace.
pub open spec fn trimmed(s: Seq<char>) -> Seq<char>
    decreases s.len(),
{
    if s.len() == 0 {
        s
    } else if is_white_space(s[0]) {
        trimmed(s.drop_first())
    } else if is_white_space(s.last()) {
        trimmed(s.drop_last())
    } else {
        s
    }
}

/// Calls `str::trim`, which its documentation says returns the string with
/// leading and trailing whitespace removed, whitespace being the characters
/// with the Unicode `White_Space` property.
#[verifier::external_body]
fn trim_whitespace(s: &str) -> (r: &str)
    ensures
        r@ == trimmed(s@),
{
    s.trim()
}

/// What pressing Connect with a given address does.
#[derive(Debug, Clone, PartialEq)]
pub enum ConnectRequest {
    /// The address was blank: nothing is attempted and the status line asks
    /// for an address.
    EnterAddressFirst,
    /// Attempt a WebSocket connection to this URL.
    Connect(String),
}

/// The URL a (trimmed) address is reached at.
pub open spec fn url_for(address: Seq<char>) -> Seq<char> {
    "ws://"@ + address
}

/// Turns the typed server address into a connection request: surrounding
/// whitespace is ignored, a blank address is refused, and anything else is
/// reached over `ws://`.
pub fn connect_request(address: &str) -> (r: ConnectRequest)
    ensures
        trimmed(address@).len() == 0 ==> r == ConnectRequest::EnterAddressFirst,
        trimmed(address@).len() != 0 ==> (r matches ConnectRequest::Connect(url) && url@ == url_for(
            trimmed(address@),
        )),
{
    let address = trim_whitespace(address);
    if address.is_empty() {
        return ConnectRequest::EnterAddressFirst;
    }
    let mut url = String::from_str("ws://");
    url.append(address);
    ConnectRequest::Connect(url)
}

/// The status line after a connection attempt to `url` started (`Ok`) or
/// failed outright with `err`.
pub fn connect_attempt_status(url: &String, attempt: Result<(), String>) -> (r: StatusMessage)
    ensures
        attempt is Ok ==> r == StatusMessage::Connecting(*url),
        attempt matches Err(err) ==> r == StatusMessage::CouldNotConnect(err),
{
    match attempt {
        Ok(()) => StatusMessage::Connecting(url.clone()),
        Err(err) => StatusMessage::CouldNotConnect(err),
    }
}

/// Everything one poll of the connection decides.
#[derive(Debug, Clone, PartialEq)]
pub struct PollOutcome {
    /// The screen to switch to, if any.
    pub next_state: Option<AppState>,
    pub role: MyRole,
    pub latest_snapshot: Option<StateSnapshot>,
    /// The new status line, if it changed.
    pub status: Option<StatusMessage>,
    /// Whether the connection is gone and must be dropped.
    pub disconnect: bool,
}

/// The outcome so far after one more connection event, while the client is
/// on screen `state`. The screen switch is requested against the screen
/// the poll started on.
pub open spec fn after_event(o: PollOutcome, state: AppState, event: ConnectionEvent) -> PollOutcome {
    match event {
        ConnectionEvent::Opened => PollOutcome {
            status: Some(StatusMessage::Connected),
            next_state: if state == AppState::Connecting {
                Some(AppState::InMatch)
            } else {
                o.next_state
            },
            ..o
        },
        ConnectionEvent::YourSlot(slot) => PollOutcome { role: role_for_slot(slot), ..o },
        ConnectionEvent::Snapshot(snapshot) => PollOutcome {
            latest_snapshot: Some(snapshot),
            ..o
        },
        ConnectionEvent::Error(err) => PollOutcome {
            status: Some(StatusMessage::ConnectionError(err)),
            disconnect: true,
            ..o
        },
        ConnectionEvent::Closed => PollOutcome {
            status: Some(StatusMessage::ConnectionClosed),
            disconnect: true,
            ..o
        },
    }
}

/// The outcome after every event in `events`, in order.
pub open spec fn after_events(o: PollOutcome, state: AppState, events: Seq<ConnectionEvent>) -> PollOutcome
    decreases events.len(),
{
    if events.len() == 0 {
        o
    } else {
        after_event(after_events(o, state, events.drop_last()), state, events.last())
    }
}

/// The full outcome of one poll: every event applied in order; then, if the
/// connection is gone, the role is forgotten (a new connection may be given
/// a different slot) and the client falls back to the Connect screen
/// unless it is already there.
pub open spec fn poll_result(
    state: AppState,
    role: MyRole,
    latest: Option<StateSnapshot>,
    events: Seq<ConnectionEvent>,
) -> PollOutcome {
    let start = PollOutcome {
        next_state: None,
        role,
        latest_snapshot: latest,
        status: None,
        disconnect: false,
    };
    let o = after_events(start, state, events);
    if o.disconnect {
        PollOutcome {
            role: MyRole::Unknown,
            next_state: if state != AppState::Connecting {
                Some(AppState::Connecting)
            } else {
                o.next_state
            },
            ..o
        }
    } else {
        o
    }
}

/// Reacts to every event the connection reported since the last frame,
/// while the client is on screen `state` with role `role` and latest
/// snapshot `latest`.
pub fn handle_connection_events(
    state: AppState,
    role: MyRole,
    latest: Option<StateSnapshot>,
    events: &Vec<ConnectionEvent>,
) -> (r: PollOutcome)
    ensures
        r == poll_result(state, role, latest, events@),
{
    let ghost start = PollOutcome {
        next_state: None,
        role,
        latest_snapshot: latest,
        status: None,
        disconnect: false,
    };
    let mut o = PollOutcome {
        next_state: None,
        role,
        latest_snapshot: latest,
        status: None,
        disconnect: false,
    };
    let mut i: usize = 0;
    while i < events.len()
        invariant
            i <= events@.len(),
            o == after_events(start, state, events@.take(i as int)),
        decreases events@.len() - i,
    {
        proof {
            assert(events@.take(i + 1).drop_last() == events@.take(i as int));
        }
        match &events[i] {
            ConnectionEvent::Opened => {
                o.status = Some(StatusMessage::Connected);
                if state == AppState::Connecting {
                    o.next_state = Some(AppState::InMatch);
                }
            },
            ConnectionEvent::YourSlot(slot) => {
                o.role = match slot {
                    Some(player) => MyRole::Player(*player),
                    None => MyRole::Spectating,
                };
            },
            ConnectionEvent::Snapshot(snapshot) => {
                o.latest_snapshot = Some(*snapshot);
            },
            ConnectionEvent::Error(err) => {
                o.status = Some(StatusMessage::ConnectionError(err.clone()));
                o.disconnect = true;
            },
            ConnectionEvent::Closed => {
                o.status = Some(StatusMessage::ConnectionClosed);
                o.disconnect = true;
            },
        }
        i = i + 1;
    }
    assert(events@.take(events@.len() as int) == events@);
    if o.disconnect {
        o.role = MyRole::Unknown;
        if state != AppState::Connecting {
            o.next_state = Some(AppState::Connecting);
        }
    }
    o
}

/// A lost connection always clears the role, and takes the client back to
/// the Connect screen from anywhere else; a poll with no events changes
/// nothing.
pub proof fn law_disconnect_returns_to_connect_screen(
    state: AppState,
    role: MyRole,
    latest: Option<StateSnapshot>,
    events: Seq<ConnectionEvent>,
)
    ensures
        poll_result(state, role, latest, events).disconnect ==> poll_result(
            state,
            role,
            latest,
            events,
        ).role == MyRole::Unknown,
        poll_result(state, role, latest, events).disconnect && state != AppState::Connecting
            ==> poll_result(state, role, latest, events).next_state == Some(AppState::Connecting),
        events.len() == 0 ==> poll_result(state, role, latest, events).role == role
            && poll_result(state, role, latest, events).latest_snapshot == latest
            && poll_result(state, role, latest, events).next_state is None,
{
}

/// A connection that reports an error or closes is always dropped.
pub proof fn law_error_or_close_disconnects(
    state: AppState,
    role: MyRole,
    latest: Option<StateSnapshot>,
    events: Seq<ConnectionEvent>,
    i: int,
)
    requires
        0 <= i < events.len(),
        events[i] is Error || events[i] is Closed,
    ensures
        poll_result(state, role, latest, events).disconnect,
{
    let start = PollOutcome {
        next_state: None,
        role,
        latest_snapshot: latest,
        status: None,
        disconnect: false,
    };
    lemma_disconnect_sticks(start, state, events, i);
}

/// After a poll the latest snapshot is the last one the poll received,
/// whatever its tick (a restarted Match starts counting again), and a poll
/// that received no snapshot keeps the one the client already had.
pub proof fn law_latest_snapshot_is_the_last_received(
    state: AppState,
    role: MyRole,
    latest: Option<StateSnapshot>,
    events: Seq<ConnectionEvent>,
    i: int,
    s: StateSnapshot,
)
    ensures
        (0 <= i < events.len() && events[i] == ConnectionEvent::Snapshot(s) && (forall|j: int|
            i < j < events.len() ==> !(#[trigger] events[j] is Snapshot))) ==> poll_result(
            state,
            role,
            latest,
            events,
        ).latest_snapshot == Some(s),
        (forall|j: int| 0 <= j < events.len() ==> !(#[trigger] events[j] is Snapshot))
            ==> poll_result(state, role, latest, events).latest_snapshot == latest,
{
    let start = PollOutcome {
        next_state: None,
        role,
        latest_snapshot: latest,
        status: None,
        disconnect: false,
    };
    if 0 <= i < events.len() && events[i] == ConnectionEvent::Snapshot(s) && (forall|j: int|
        i < j < events.len() ==> !(#[trigger] events[j] is Snapshot)) {
        lemma_last_snapshot_kept(start, state, events, i, s);
    }
    if forall|j: int| 0 <= j < events.len() ==> !(#[trigger] events[j] is Snapshot) {
        lemma_no_snapshot_keeps_latest(start, state, events);
    }
}

/// The last snapshot event of a run of events is the one the outcome holds.
proof fn lemma_last_snapshot_kept(
    o: PollOutcome,
    state: AppState,
    events: Seq<ConnectionEvent>,
    i: int,
    s: StateSnapshot,
)
    requires
        0 <= i < events.len(),
        events[i] == ConnectionEvent::Snapshot(s),
        forall|j: int| i < j < events.len() ==> !(#[trigger] events[j] is Snapshot),
    ensures
        after_events(o, state, events).latest_snapshot == Some(s),
    decreases events.len(),
{
    if i < events.len() - 1 {
        let rest = events.drop_last();
        assert forall|j: int| i < j < rest.len() implies !(#[trigger] rest[j] is Snapshot) by {
            assert(rest[j] == events[j]);
        }
        lemma_last_snapshot_kept(o, state, rest, i, s);
        assert(!(events[events.len() - 1] is Snapshot));
    }
}

/// Events other than snapshots never change the latest snapshot.
proof fn lemma_no_snapshot_keeps_latest(o: PollOutcome, state: AppState, events: Seq<ConnectionEvent>)
    requires
        forall|j: int| 0 <= j < events.len() ==> !(#[trigger] events[j] is Snapshot),
    ensures
        after_events(o, state, events).latest_snapshot == o.latest_snapshot,
    decreases events.len(),
{
    if events.len() > 0 {
        let rest = events.drop_last();
        assert forall|j: int| 0 <= j < rest.len() implies !(#[trigger] rest[j] is Snapshot) by {
            assert(rest[j] == events[j]);
        }
        lemma_no_snapshot_keeps_latest(o, state, rest);
        assert(!(events[events.len() - 1] is Snapshot));
    }
}

/// What a poll makes of the role and the screen. The role is the one the
/// last `YourSlot` message of the poll gave (`Player(p)` for a slot `p`,
/// `Spectating` for none), or the client's own if the poll had none - until
/// the connection is lost, which makes it `Unknown`. A connection that opens
/// while on the Connect screen and is not lost in the same poll moves the
/// client into the Match; a poll that loses nothing never moves it anywhere
/// else.
pub proof fn law_role_and_screen_after_a_poll(
    state: AppState,
    role: MyRole,
    latest: Option<StateSnapshot>,
    events: Seq<ConnectionEvent>,
    i: int,
    slot: Option<Player>,
)
    ensures
        ({
            let r = poll_result(state, role, latest, events);
            &&& (!r.disconnect && 0 <= i < events.len() && events[i] == ConnectionEvent::YourSlot(
                slot,
            ) && (forall|j: int| i < j < events.len() ==> !(#[trigger] events[j] is YourSlot)))
                ==> r.role == (match slot {
                Some(p) => MyRole::Player(p),
                None => MyRole::Spectating,
            })
            &&& (!r.disconnect && (forall|j: int|
                0 <= j < events.len() ==> !(#[trigger] events[j] is YourSlot))) ==> r.role == role
            &&& r.disconnect ==> r.role == MyRole::Unknown
            &&& (!r.disconnect && state == AppState::Connecting && (exists|j: int|
                0 <= j < events.len() && #[trigger] events[j] is Opened)) ==> r.next_state == Some(
                AppState::InMatch,
            )
            &&& (!r.disconnect && state != AppState::Connecting) ==> r.next_state is None
            &&& (!r.disconnect && (forall|j: int|
                0 <= j < events.len() ==> !(#[trigger] events[j] is Opened))) ==> r.next_state is None
        }),
{
    let start = PollOutcome {
        next_state: None,
        role,
        latest_snapshot: latest,
        status: None,
        disconnect: false,
    };
    lemma_role_progress(start, state, events, i, slot);
    lemma_screen_progress(start, state, events);
}

/// How the role evolves over a run of events.
proof fn lemma_role_progress(
    o: PollOutcome,
    state: AppState,
    events: Seq<ConnectionEvent>,
    i: int,
    slot: Option<Player>,
)
    ensures
        (0 <= i < events.len() && events[i] == ConnectionEvent::YourSlot(slot) && (forall|j: int|
            i < j < events.len() ==> !(#[trigger] events[j] is YourSlot))) ==> after_events(
            o,
            state,
            events,
        ).role == role_for_slot(slot),
        (forall|j: int| 0 <= j < events.len() ==> !(#[trigger] events[j] is YourSlot))
            ==> after_events(o, state, events).role == o.role,
    decreases events.len(),
{
    if events.len() > 0 {
        let rest = events.drop_last();
        assert forall|j: int| 0 <= j < rest.len() implies rest[j] == events[j] by {}
        lemma_role_progress(o, state, rest, i, slot);
        if (forall|j: int| 0 <= j < events.len() ==> !(#[trigger] events[j] is YourSlot)) {
            assert(!(events[events.len() - 1] is YourSlot));
            assert forall|j: int| 0 <= j < rest.len() implies !(#[trigger] rest[j] is YourSlot) by {
                assert(rest[j] == events[j]);
            }
        }
        if 0 <= i < events.len() - 1 && events[i] == ConnectionEvent::YourSlot(slot) && (forall|
            j: int,
        | i < j < events.len() ==> !(#[trigger] events[j] is YourSlot)) {
            assert(!(events[events.len() - 1] is YourSlot));
            assert forall|j: int| i < j < rest.len() implies !(#[trigger] rest[j] is YourSlot) by {
                assert(rest[j] == events[j]);
            }
        }
    }
}

/// How the screen switch evolves over a run of events.
proof fn lemma_screen_progress(o: PollOutcome, state: AppState, events: Seq<ConnectionEvent>)
    ensures
        (state == AppState::Connecting && (exists|j: int|
            0 <= j < events.len() && #[trigger] events[j] is Opened)) ==> after_events(
            o,
            state,
            events,
        ).next_state == Some(AppState::InMatch),
        state != AppState::Connecting ==> after_events(o, state, events).next_state
            == o.next_state,
        (forall|j: int| 0 <= j < events.len() ==> !(#[trigger] events[j] is Opened))
            ==> after_events(o, state, events).next_state == o.next_state,
    decreases events.len(),
{
    if events.len() > 0 {
        let rest = events.drop_last();
        lemma_screen_progress(o, state, rest);
        if (forall|j: int| 0 <= j < events.len() ==> !(#[trigger] events[j] is Opened)) {
            assert(!(events[events.len() - 1] is Opened));
            assert forall|j: int| 0 <= j < rest.len() implies !(#[trigger] rest[j] is Opened) by {
                assert(rest[j] == events[j]);
            }
        }
        if state == AppState::Connecting && (exists|j: int|
            0 <= j < events.len() && #[trigger] events[j] is Opened) {
            let j = choose|j: int| 0 <= j < events.len() && #[trigger] events[j] is Opened;
            if j < events.len() - 1 {
                assert(rest[j] == events[j]);
                assert(rest[j] is Opened);
            }
        }
    }
}

/// Once an event in the poll disconnects, the outcome stays disconnected.
proof fn lemma_disconnect_sticks(o: PollOutcome, state: AppState, events: Seq<ConnectionEvent>, i: int)
    requires
        0 <= i < events.len(),
        events[i] is Error || events[i] is Closed,
    ensures
        after_events(o, state, events).disconnect,
    decreases events.len(),
{
    if i < events.len() - 1 {
        lemma_disconnect_sticks(o, state, events.drop_last(), i);
    }
}

} // verus!
