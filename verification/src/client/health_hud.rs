//! The Health readout for both Characters: plain "P1: 5"-style text.

use vstd::prelude::*;

verus! {

/// Which Character a Health readout is for.
#[derive(Debug, Clone, Copy, PartialEq, Eq, Structural)]
pub enum HealthLabel {
    P1,
    P2,
}

/// The label's prefix text.
pub open spec fn label_prefix(label: HealthLabel) -> Seq<char> {
    match label {
        HealthLabel::P1 => "P1"@,
        HealthLabel::P2 => "P2"@,
    }
}

/// The character for decimal digit `d` (0 to 9).
pub open spec fn digit_char(d: nat) -> char {
    (('0' as int) + d) as char
}

/// `n` written in decimal, most significant digit first, with no leading
/// zeros.
pub open spec fn decimal(n: nat) -> Seq<char>
    decreases n,
{
    if n < 10 {
        seq![digit_char(n)]
    } else {
        decimal(n / 10) + seq![digit_char(n % 10)]
    }
}

/// The readout text: the label's prefix, a colon, and the Health in
/// decimal.
pub open spec fn health_readout(label: HealthLabel, health: u8) -> Seq<char> {
    label_prefix(label) + ": "@ + decimal(health as nat)
}

impl HealthLabel {
    pub fn prefix(self) -> (r: &'static str)
        ensures
            r@ == label_prefix(self),
    {
        match self {
            HealthLabel::P1 => "P1",
            HealthLabel::P2 => "P2",
        }
    }
}

/// The one-character text of decimal digit `d`.
fn digit_text(d: u8) -> (r: &'static str)
    requires
        d < 10,
    ensures
        r@ == seq![digit_char(d as nat)],
{
    proof {
        reveal_strlit("0");
        reveal_strlit("1");
        reveal_strlit("2");
        reveal_strlit("3");
        reveal_strlit("4");
        reveal_strlit("5");
        reveal_strlit("6");
        reveal_strlit("7");
        reveal_strlit("8");
        reveal_strlit("9");
    }
    let r = match d {
        0 => "0",
        1 => "1",
        2 => "2",
        3 => "3",
        4 => "4",
        5 => "5",
        6 => "6",
        7 => "7",
        8 => "8",
        _ => "9",
    };
    assert(r@ =~= seq![digit_char(d as nat)]);
    r
}

/// The Health readout for `label`, e.g. "P1: 5".
pub fn health_text(label: HealthLabel, health: u8) -> (r: String)
    ensures
        r@ == health_readout(label, health),
{
    let mut s = String::from_str(label.prefix());
    s.append(": ");
    let ghost before = s@;
    let ghost n = health as nat;
    if health >= 100 {
        s.append(digit_text(health / 100));
        s.append(digit_text((health / 10) % 10));
        s.append(digit_text(health % 10));
        assert(decimal((health / 100) as nat) == seq![digit_char((health / 100) as nat)]);
        assert(decimal((health / 10) as nat) == decimal((health / 100) as nat) + seq![digit_char(((health / 10) % 10) as nat)]);
        assert(decimal(n) == decimal((health / 10) as nat) + seq![digit_char((health % 10) as nat)]);
    } else if health >= 10 {
        s.append(digit_text(health / 10));
        s.append(digit_text(health % 10));
        assert(decimal((health / 10) as nat) == seq![digit_char((health / 10) as nat)]);
        assert(decimal(n) == decimal((health / 10) as nat) + seq![digit_char((health % 10) as nat)]);
    } else {
        s.append(digit_text(health));
        assert(decimal(n) == seq![digit_char(n)]);
    }
    assert(s@ =~= before + decimal(n));
    s
}

} // verus!
