use vstd::prelude::*;
use vstd::string::*;

verus! {

/// The character of a decimal digit.
pub open spec fn digit_char(d: nat) -> char {
    if d == 0 {
        '0'
    } else if d == 1 {
        '1'
    } else if d == 2 {
        '2'
    } else if d == 3 {
        '3'
    } else if d == 4 {
        '4'
    } else if d == 5 {
        '5'
    } else if d == 6 {
        '6'
    } else if d == 7 {
        '7'
    } else if d == 8 {
        '8'
    } else {
        '9'
    }
}

/// The decimal numeral of `n`, without leading zeros.
pub open spec fn decimal(n: nat) -> Seq<char>
    decreases n,
{
    if n < 10 {
        seq![digit_char(n)]
    } else {
        decimal(n / 10) + seq![digit_char(n % 10)]
    }
}

/// A count of milliseconds shown as seconds with three decimals and an `s`.
pub open spec fn seconds_text_of(millis: nat) -> Seq<char> {
    decimal(millis / 1000) + seq![
        '.',
        digit_char(millis % 1000 / 100),
        digit_char(millis % 100 / 10),
        digit_char(millis % 10),
        's',
    ]
}

fn digit_str(d: u64) -> (r: &'static str)
    requires
        d < 10,
    ensures
        r@ == seq![digit_char(d as nat)],
{
    proof {
        reveal_strlit("0");
        reveal_strlit("1");
        reveal_strlit("2");
        reveal_strlit("3");
        reveal_strlit("4");
        reveal_strlit("5");
        reveal_strlit("6");
        reveal_strlit("7");
        reveal_strlit("8");
        reveal_strlit("9");
    }
    if d == 0 {
        "0"
    } else if d == 1 {
        "1"
    } else if d == 2 {
        "2"
    } else if d == 3 {
        "3"
    } else if d == 4 {
        "4"
    } else if d == 5 {
        "5"
    } else if d == 6 {
        "6"
    } else if d == 7 {
        "7"
    } else if d == 8 {
        "8"
    } else {
        "9"
    }
}

fn push_decimal(s: &mut String, n: u64)
    ensures
        final(s)@ == old(s)@ + decimal(n as nat),
    decreases n,
{
    let ghost start = s@;
    if n >= 10 {
        push_decimal(s, n / 10);
    }
    s.append(digit_str(n % 10));
    proof {
        if n >= 10 {
            assert(s@ =~= start + decimal(n as nat));
        } else {
            assert(s@ =~= start + decimal(n as nat));
        }
    }
}

/// A count of milliseconds as seconds with three decimals: `12.345s`.
pub fn seconds_text(millis: u64) -> (r: String)
    ensures
        r@ == seconds_text_of(millis as nat),
{
    let mut s = String::new();
    push_decimal(&mut s, millis / 1000);
    s.append(".");
    s.append(digit_str(millis % 1000 / 100));
    s.append(digit_str(millis % 100 / 10));
    s.append(digit_str(millis % 10));
    s.append("s");
    proof {
        reveal_strlit(".");
        reveal_strlit("s");
        assert(s@ =~= seconds_text_of(millis as nat));
    }
    s
}

} // verus!
