//! Text of the score and lives display.
use vstd::prelude::*;
use crate::player::Player;

verus! {

/// The character of decimal digit `d`.
pub open spec fn digit_char(d: nat) -> char {
    if d == 0 { '0' }
    else if d == 1 { '1' }
    else if d == 2 { '2' }
    else if d == 3 { '3' }
    else if d == 4 { '4' }
    else if d == 5 { '5' }
    else if d == 6 { '6' }
    else if d == 7 { '7' }
    else if d == 8 { '8' }
    else { '9' }
}

/// The decimal digits of `n`, most significant first, without leading zeros.
pub open spec fn decimal(n: nat) -> Seq<char>
    decreases n,
{
    if n < 10 {
        seq![digit_char(n)]
    } else {
        decimal(n / 10).push(digit_char(n % 10))
    }
}

/// Relies on `ToString::to_string` for `u64`, through its `Display`: the
/// number in decimal digits, without sign or leading zeros.
#[verifier::external_body]
fn decimal_text(n: u64) -> (r: String)
    ensures
        r@ == decimal(n as nat),
{
    n.to_string()
}

/// Shows the lives left, while there is a player.
pub fn update_lifes_ui(player: &Option<Player>, text: &mut String)
    ensures
        match *player {
            Some(p) => final(text)@ == decimal(p.life_count as nat),
            None => *final(text) == *old(text),
        },
{
    match player {
        Some(p) => {
            *text = decimal_text(p.life_count as u64);
        },
        None => {},
    }
}

/// Shows the score, while there is a player.
pub fn update_score_ui(player: &Option<Player>, text: &mut String)
    requires
        player matches Some(p) ==> p.wf(),
    ensures
        match *player {
            Some(p) => final(text)@ == decimal(p.score as nat),
            None => *final(text) == *old(text),
        },
{
    match player {
        Some(p) => {
            *text = decimal_text(p.score as u64);
        },
        None => {},
    }
}

} // verus!
