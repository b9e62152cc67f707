//! Reacting to the Match ending and restarting on the client: leave the
//! In-Match view when a snapshot reports the Match ended, show who won, and
//! go back once a snapshot reports it in progress again.

use vstd::prelude::*;
use crate::client::connect_screen::AppState;
use crate::combat::Player;
use crate::net_protocol::{MatchStatus, StateSnapshot};

verus! {

/// While In-Match: switch to the Match-Ended screen once the latest
/// snapshot reports the Match ended.
pub fn detect_match_end(latest: &Option<StateSnapshot>) -> (r: Option<AppState>)
    ensures
        r == (match latest {
            Some(s) => if s.status is Ended {
                Some(AppState::MatchEnded)
            } else {
                None
            },
            None => None,
        }),
{
    match latest {
        Some(snapshot) => match snapshot.status {
            MatchStatus::Ended { .. } => Some(AppState::MatchEnded),
            MatchStatus::InProgress => None,
        },
        None => None,
    }
}

/// While on the Match-Ended screen: go back In-Match once a restart has
/// been honored and the latest snapshot reports the Match in progress.
pub fn detect_match_restarted(latest: &Option<StateSnapshot>) -> (r: Option<AppState>)
    ensures
        r == (match latest {
            Some(s) => if s.status is InProgress {
                Some(AppState::InMatch)
            } else {
                None
            },
            None => None,
        }),
{
    match latest {
        Some(snapshot) => match snapshot.status {
            MatchStatus::InProgress => Some(AppState::InMatch),
            MatchStatus::Ended { .. } => None,
        },
        None => None,
    }
}

/// The winner the latest snapshot reports, if it reports the Match ended.
pub open spec fn reported_winner(latest: Option<StateSnapshot>) -> Option<Player> {
    match latest {
        Some(s) => match s.status {
            MatchStatus::Ended { winner, .. } => Some(winner),
            MatchStatus::InProgress => None,
        },
        None => None,
    }
}

/// The headline on the Match-Ended screen.
pub open spec fn end_headline(winner: Option<Player>) -> Seq<char> {
    match winner {
        Some(Player::P1) => "Player 1 wins!"@,
        Some(Player::P2) => "Player 2 wins!"@,
        None => "Match ended."@,
    }
}

/// The Match-Ended screen's headline for the latest snapshot.
pub fn match_end_message(latest: &Option<StateSnapshot>) -> (r: &'static str)
    ensures
        r@ == end_headline(reported_winner(*latest)),
{
    let winner = match latest {
        Some(snapshot) => match snapshot.status {
            MatchStatus::Ended { winner, .. } => Some(winner),
            MatchStatus::InProgress => None,
        },
        None => None,
    };
    match winner {
        Some(Player::P1) => "Player 1 wins!",
        Some(Player::P2) => "Player 2 wins!",
        None => "Match ended.",
    }
}

} // verus!
