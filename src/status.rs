use vstd::prelude::*;

verus! {

/// The message shown to the player.
#[derive(Clone, Copy, Debug, PartialEq, Eq, Structural)]
pub enum Status {
    /// Shown at the start of a game.
    Welcome,
    /// A beneficial coin was picked up.
    MoreCoins,
    /// A harmful coin was picked up.
    Ouch,
    /// The chain is gone; holds how many coins were collected in all.
    GameOver(u64),
}

/// The decimal digits of `n`, most significant first.
pub open spec fn decimal(n: nat) -> Seq<char>
    decreases n,
{
    if n < 10 {
        seq![digit_char(n)]
    } else {
        decimal(n / 10) + seq![digit_char(n % 10)]
    }
}

pub open spec fn digit_char(d: nat) -> char {
    ((d + '0' as nat) as u8) as char
}

/// The text of each message.
pub open spec fn status_text(s: Status) -> Seq<char> {
    match s {
        Status::Welcome => "Try collecting that coin over there"@,
        Status::MoreCoins => "Increased number of coins that spawn!"@,
        Status::Ouch => "Ouch that coin hurt!"@,
        Status::GameOver(n) => "Game Over\nCollected "@ + decimal(n as nat) + " Coins"@,
    }
}

fn digit_str(d: u64) -> (r: &'static str)
    requires
        d < 10,
    ensures
        r@ == seq![digit_char(d as nat)],
{
    proof {
        reveal_strlit("0");
        reveal_strlit("1");
        reveal_strlit("2");
        reveal_strlit("3");
        reveal_strlit("4");
        reveal_strlit("5");
        reveal_strlit("6");
        reveal_strlit("7");
        reveal_strlit("8");
        reveal_strlit("9");
    }
    let r = match d {
        0 => "0",
        1 => "1",
        2 => "2",
        3 => "3",
        4 => "4",
        5 => "5",
        6 => "6",
        7 => "7",
        8 => "8",
        _ => "9",
    };
    assert(r@ =~= seq![digit_char(d as nat)]);
    r
}

/// Appends the decimal digits of `n` to `out`.
fn push_decimal(out: &mut String, n: u64)
    ensures
        final(out)@ == old(out)@ + decimal(n as nat),
    decreases n,
{
    if n < 10 {
        out.append(digit_str(n));
    } else {
        push_decimal(out, n / 10);
        out.append(digit_str(n % 10));
        assert(final(out)@ =~= old(out)@ + decimal(n as nat));
    }
}

impl Status {
    /// The text shown for this message.
    pub fn text(&self) -> (r: String)
        ensures
            r@ == status_text(*self),
    {
        match self {
            Status::Welcome => String::from_str("Try collecting that coin over there"),
            Status::MoreCoins => String::from_str("Increased number of coins that spawn!"),
            Status::Ouch => String::from_str("Ouch that coin hurt!"),
            Status::GameOver(n) => {
                let mut out = String::from_str("Game Over\nCollected ");
                push_decimal(&mut out, *n);
                out.append(" Coins");
                out
            },
        }
    }
}

} // verus!
