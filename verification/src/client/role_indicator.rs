//! Shows each connected client which role it holds - Player 1, Player 2, or
//! Spectating - throughout the Match.

use vstd::prelude::*;
use crate::client::connect_screen::MyRole;
use crate::combat::Player;

verus! {

/// The indicator's text for each role; blank while the role is unknown.
pub open spec fn role_label(role: MyRole) -> Seq<char> {
    match role {
        MyRole::Unknown => ""@,
        MyRole::Player(Player::P1) => "Player 1"@,
        MyRole::Player(Player::P2) => "Player 2"@,
        MyRole::Spectating => "Spectating"@,
    }
}

/// The role indicator's text.
pub fn role_text(role: MyRole) -> (r: &'static str)
    ensures
        r@ == role_label(role),
{
    match role {
        MyRole::Unknown => "",
        MyRole::Player(Player::P1) => "Player 1",
        MyRole::Player(Player::P2) => "Player 2",
        MyRole::Spectating => "Spectating",
    }
}

} // verus!
