use vstd::prelude::*;

verus! {

/// The character of a decimal digit.
pub open spec fn digit_char(d: nat) -> char
    recommends
        d < 10,
{
    (d + 48) as char
}

/// The decimal representation of `n`, without leading zeros.
pub open spec fn decimal(n: nat) -> Seq<char>
    decreases n,
{
    if n < 10 {
        seq![digit_char(n)]
    } else {
        decimal(n / 10).push(digit_char(n % 10))
    }
}

/// Appends the decimal digit `d`.
fn push_digit(s: &mut String, d: u8)
    requires
        d < 10,
    ensures
        final(s)@ == old(s)@.push(digit_char(d as nat)),
{
    match d {
        0 => { proof { reveal_strlit("0"); } s.append("0"); }
        1 => { proof { reveal_strlit("1"); } s.append("1"); }
        2 => { proof { reveal_strlit("2"); } s.append("2"); }
        3 => { proof { reveal_strlit("3"); } s.append("3"); }
        4 => { proof { reveal_strlit("4"); } s.append("4"); }
        5 => { proof { reveal_strlit("5"); } s.append("5"); }
        6 => { proof { reveal_strlit("6"); } s.append("6"); }
        7 => { proof { reveal_strlit("7"); } s.append("7"); }
        8 => { proof { reveal_strlit("8"); } s.append("8"); }
        _ => { proof { reveal_strlit("9"); } s.append("9"); }
    }
}

/// Appends the decimal representation of `n`.
pub(crate) fn push_decimal(s: &mut String, n: u8)
    ensures
        final(s)@ == old(s)@ + decimal(n as nat),
{
    let ghost start = s@;
    let ghost m = n as nat;
    if n >= 100 {
        push_digit(s, n / 100);
        push_digit(s, (n / 10) % 10);
        push_digit(s, n % 10);
        assert(decimal(m / 100) == seq![digit_char(m / 100)]);
        assert(decimal(m / 10) == decimal(m / 10 / 10).push(digit_char((m / 10) % 10)));
        assert(m / 10 / 10 == m / 100);
        assert(decimal(m) == decimal(m / 10).push(digit_char(m % 10)));
    } else if n >= 10 {
        push_digit(s, n / 10);
        push_digit(s, n % 10);
        assert(decimal(m / 10) == seq![digit_char(m / 10)]);
        assert(decimal(m) == decimal(m / 10).push(digit_char(m % 10)));
    } else {
        push_digit(s, n);
    }
    assert(s@ =~= start + decimal(m));
}

} // verus!
