//! The body of the random-number reply.
use vstd::prelude::*;

verus! {

/// Relies on rand::random (thread-local generator): any `T` that the
/// `Standard` distribution covers. Nothing is known of the value drawn.
pub assume_specification<T>[ rand::random::<T> ]() -> (r: T)
    where
        rand::distributions::Standard: rand::distributions::Distribution<T>,
;

/// The decimal digit for `d < 10`.
pub open spec fn digit_char(d: nat) -> char {
    if d == 0 {
        '0'
    } else if d == 1 {
        '1'
    } else if d == 2 {
        '2'
    } else if d == 3 {
        '3'
    } else if d == 4 {
        '4'
    } else if d == 5 {
        '5'
    } else if d == 6 {
        '6'
    } else if d == 7 {
        '7'
    } else if d == 8 {
        '8'
    } else {
        '9'
    }
}

/// `n` written in decimal, without leading zeros.
pub open spec fn decimal(n: nat) -> Seq<char>
    decreases n,
{
    if n < 10 {
        seq![digit_char(n)]
    } else {
        decimal(n / 10).push(digit_char(n % 10))
    }
}

/// The reply that announces the number `n`.
pub open spec fn random_reply_text(n: nat) -> Seq<char> {
    "Hello. Your random number is "@ + decimal(n) + "."@
}

fn digit_str(d: u64) -> (r: &'static str)
    requires
        d < 10,
    ensures
        r@ == seq![digit_char(d as nat)],
{
    proof {
        reveal_strlit("0");
        reveal_strlit("1");
        reveal_strlit("2");
        reveal_strlit("3");
        reveal_strlit("4");
        reveal_strlit("5");
        reveal_strlit("6");
        reveal_strlit("7");
        reveal_strlit("8");
        reveal_strlit("9");
    }
    let r = match d {
        0 => "0",
        1 => "1",
        2 => "2",
        3 => "3",
        4 => "4",
        5 => "5",
        6 => "6",
        7 => "7",
        8 => "8",
        _ => "9",
    };
    assert(r@ =~= seq![digit_char(d as nat)]);
    r
}

fn append_decimal(out: &mut String, n: u64)
    ensures
        final(out)@ == old(out)@ + decimal(n as nat),
    decreases n,
{
    if n >= 10 {
        append_decimal(out, n / 10);
    }
    out.append(digit_str(n % 10));
    assert(out@ =~= old(out)@ + decimal(n as nat));
}

/// The reply that announces the number `n`.
pub fn random_reply_body(n: u64) -> (r: String)
    ensures
        r@ == random_reply_text(n as nat),
{
    let mut out = "Hello. Your random number is ".to_owned();
    append_decimal(&mut out, n);
    out.append(".");
    assert(out@ =~= random_reply_text(n as nat));
    out
}

/// A reply announcing a freshly drawn random number.
pub fn random_reply() -> (r: String)
    ensures
        exists|n: u64| r@ == random_reply_text(n as nat),
{
    let n: u64 = rand::random();
    random_reply_body(n)
}

} // verus!
