use vstd::prelude::*;
use vstd::string::*;

verus! {

/// Locates a channel or a release: by its name, or by its numeric id.
///
/// Which variant an operation accepts depends on the operation: a lookup
/// that only one variant can serve fails with an `InvalidIdentifier` error
/// on the other.
#[derive(Debug)]
pub enum Identifier {
    Name(String),
    Id(i64),
}

/// The decimal digit character for `d` (`d < 10`).
pub open spec fn digit_char(d: nat) -> char {
    if d == 0 {
        '0'
    } else if d == 1 {
        '1'
    } else if d == 2 {
        '2'
    } else if d == 3 {
        '3'
    } else if d == 4 {
        '4'
    } else if d == 5 {
        '5'
    } else if d == 6 {
        '6'
    } else if d == 7 {
        '7'
    } else if d == 8 {
        '8'
    } else {
        '9'
    }
}

/// The decimal digits of `n`, most significant first, without leading zeros.
pub open spec fn digits(n: nat) -> Seq<char>
    decreases n,
{
    if n < 10 {
        seq![digit_char(n)]
    } else {
        digits(n / 10) + seq![digit_char(n % 10)]
    }
}

/// The decimal text of an integer, with a leading `-` when it is negative.
pub open spec fn decimal(i: int) -> Seq<char> {
    if i < 0 {
        seq!['-'] + digits((-i) as nat)
    } else {
        digits(i as nat)
    }
}

fn digit_str(d: u64) -> (r: &'static str)
    requires
        d < 10,
    ensures
        r@ == seq![digit_char(d as nat)],
{
    if d == 0 {
        proof { reveal_strlit("0"); }
        "0"
    } else if d == 1 {
        proof { reveal_strlit("1"); }
        "1"
    } else if d == 2 {
        proof { reveal_strlit("2"); }
        "2"
    } else if d == 3 {
        proof { reveal_strlit("3"); }
        "3"
    } else if d == 4 {
        proof { reveal_strlit("4"); }
        "4"
    } else if d == 5 {
        proof { reveal_strlit("5"); }
        "5"
    } else if d == 6 {
        proof { reveal_strlit("6"); }
        "6"
    } else if d == 7 {
        proof { reveal_strlit("7"); }
        "7"
    } else if d == 8 {
        proof { reveal_strlit("8"); }
        "8"
    } else {
        proof { reveal_strlit("9"); }
        "9"
    }
}

/// Renders an id as the path segment that addresses it: its decimal text.
pub fn decimal_text(i: i64) -> (r: String)
    ensures
        r@ == decimal(i as int),
{
    let negative = i < 0;
    let m: u64 = if negative {
        (0i128 - i as i128) as u64
    } else {
        i as u64
    };
    assert(m as int == if negative { -(i as int) } else { i as int });
    let mut n: u64 = m;
    let mut s = String::new();
    loop
        invariant_except_break
            digits(m as nat) == digits(n as nat) + s@,
        ensures
            digits(m as nat) == s@,
        decreases n,
    {
        let d = n % 10;
        let t = String::from_str(digit_str(d)).concat(s.as_str());
        assert(t@ == seq![digit_char(d as nat)] + s@);
        if n < 10 {
            assert(digits(m as nat) == t@);
            s = t;
            break;
        }
        assert(digits(n as nat) == digits((n / 10) as nat) + seq![digit_char(d as nat)]);
        assert(digits(m as nat) == digits((n / 10) as nat) + t@);
        s = t;
        n = n / 10;
    }
    if negative {
        proof { reveal_strlit("-"); }
        String::from_str("-").concat(s.as_str())
    } else {
        s
    }
}

} // verus!
