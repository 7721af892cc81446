use vstd::prelude::*;

verus! {

/// Relies on `str`'s `PartialEq`: two string slices are equal exactly when
/// their character sequences are.  vstd gives this operation no
/// specification of its own.
pub assume_specification[ <str as PartialEq<str>>::eq ](a: &str, b: &str) -> (r: bool)
    ensures
        r == (a@ == b@),
;

/// The decimal digit character for `d`, which must lie in 0..10.
pub open spec fn digit_char(d: int) -> char {
    if d == 0 {
        '0'
    } else if d == 1 {
        '1'
    } else if d == 2 {
        '2'
    } else if d == 3 {
        '3'
    } else if d == 4 {
        '4'
    } else if d == 5 {
        '5'
    } else if d == 6 {
        '6'
    } else if d == 7 {
        '7'
    } else if d == 8 {
        '8'
    } else {
        '9'
    }
}

/// The decimal digits of a non-negative number, most significant first;
/// empty for zero.
pub open spec fn dec_rep(n: int) -> Seq<char>
    decreases n,
{
    if n <= 0 {
        Seq::empty()
    } else {
        dec_rep(n / 10).push(digit_char(n % 10))
    }
}

/// The decimal rendering of an integer, with a leading minus sign when it
/// is negative, as `i64`'s own formatting writes it.
pub open spec fn dec_str(n: int) -> Seq<char> {
    if n == 0 {
        seq!['0']
    } else if n < 0 {
        seq!['-'] + dec_rep(-n)
    } else {
        dec_rep(n)
    }
}

/// One decimal digit as a string slice.
fn digit_str(d: u64) -> (r: &'static str)
    requires
        d < 10,
    ensures
        r@ == seq![digit_char(d as int)],
{
    proof {
        reveal_strlit("0");
        reveal_strlit("1");
        reveal_strlit("2");
        reveal_strlit("3");
        reveal_strlit("4");
        reveal_strlit("5");
        reveal_strlit("6");
        reveal_strlit("7");
        reveal_strlit("8");
        reveal_strlit("9");
    }
    match d {
        0 => "0",
        1 => "1",
        2 => "2",
        3 => "3",
        4 => "4",
        5 => "5",
        6 => "6",
        7 => "7",
        8 => "8",
        _ => "9",
    }
}

/// The decimal digits of `m`, most significant first; the empty string
/// for zero.
fn fmt_u64(m: u64) -> (r: String)
    ensures
        r@ == dec_rep(m as int),
    decreases m,
{
    if m == 0 {
        String::new()
    } else {
        let mut s = fmt_u64(m / 10);
        s.append(digit_str(m % 10));
        proof {
            assert(s@ =~= dec_rep(m as int / 10).push(digit_char(m as int % 10)));
        }
        s
    }
}

/// Formats a signed number in decimal, exactly as `i64`'s own formatting
/// does.
pub fn fmt_i64(n: i64) -> (r: String)
    ensures
        r@ == dec_str(n as int),
{
    if n == 0 {
        proof {
            reveal_strlit("0");
        }
        String::from_str("0")
    } else if n > 0 {
        fmt_u64(n as u64)
    } else {
        proof {
            reveal_strlit("-");
        }
        let mut s = String::from_str("-");
        let mag: u64 = ((-(n + 1)) as u64) + 1;
        assert(mag as int == -(n as int));
        let tail = fmt_u64(mag);
        s.append(tail.as_str());
        proof {
            assert(s@ =~= seq!['-'] + dec_rep(-(n as int)));
        }
        s
    }
}

} // verus!
