//! Numbers and flags as the text that stands for them in a query.

use vstd::prelude::*;

verus! {

/// The character of a decimal digit.
pub open spec fn digit(d: int) -> char {
    if d == 0 {
        '0'
    } else if d == 1 {
        '1'
    } else if d == 2 {
        '2'
    } else if d == 3 {
        '3'
    } else if d == 4 {
        '4'
    } else if d == 5 {
        '5'
    } else if d == 6 {
        '6'
    } else if d == 7 {
        '7'
    } else if d == 8 {
        '8'
    } else {
        '9'
    }
}

/// The digit a character stands for, if it is one.
pub open spec fn digit_value(c: char) -> Option<int> {
    if c == '0' {
        Some(0)
    } else if c == '1' {
        Some(1)
    } else if c == '2' {
        Some(2)
    } else if c == '3' {
        Some(3)
    } else if c == '4' {
        Some(4)
    } else if c == '5' {
        Some(5)
    } else if c == '6' {
        Some(6)
    } else if c == '7' {
        Some(7)
    } else if c == '8' {
        Some(8)
    } else if c == '9' {
        Some(9)
    } else {
        None
    }
}

/// A number in decimal, without sign or leading zeros.
pub open spec fn decimal(n: nat) -> Seq<char>
    decreases n,
{
    if n < 10 {
        seq![digit(n as int)]
    } else {
        decimal(n / 10).push(digit((n % 10) as int))
    }
}

/// The number a run of decimal digits stands for; `None` for the empty text
/// and for text that holds anything but digits.
pub open spec fn parse_decimal(s: Seq<char>) -> Option<nat>
    decreases s.len(),
{
    if s.len() == 0 {
        None
    } else {
        match digit_value(s.last()) {
            None => None,
            Some(d) => if s.len() == 1 {
                Some(d as nat)
            } else {
                match parse_decimal(s.drop_last()) {
                    None => None,
                    Some(high) => Some(high * 10 + d as nat),
                }
            },
        }
    }
}

/// An optional bound: blank where there is none, decimal where there is one.
pub open spec fn optional_decimal(bound: Option<u32>) -> Seq<char> {
    match bound {
        None => Seq::empty(),
        Some(n) => decimal(n as nat),
    }
}

/// The optional bound a text stands for; `None` where it stands for none.
pub open spec fn parse_optional_decimal(s: Seq<char>) -> Option<Option<u32>> {
    if s.len() == 0 {
        Some(None)
    } else {
        match parse_decimal(s) {
            Some(n) => if n <= u32::MAX {
                Some(Some(n as u32))
            } else {
                None
            },
            None => None,
        }
    }
}

/// The character of a flag.
pub open spec fn flag(set: bool) -> char {
    if set {
        '1'
    } else {
        '0'
    }
}

/// The flag a character stands for, if it is one.
pub open spec fn parse_flag(c: char) -> Option<bool> {
    if c == '1' {
        Some(true)
    } else if c == '0' {
        Some(false)
    } else {
        None
    }
}

/// Decimal text is never blank.
pub proof fn decimal_is_not_empty(n: nat)
    ensures
        decimal(n).len() >= 1,
    decreases n,
{
    if n >= 10 {
        decimal_is_not_empty(n / 10);
    }
}

/// Reading a number back from its decimal text gives the number.
pub proof fn decimal_round_trip(n: nat)
    ensures
        parse_decimal(decimal(n)) == Some(n),
    decreases n,
{
    if n >= 10 {
        let high = decimal(n / 10);
        let low = digit((n % 10) as int);
        decimal_round_trip(n / 10);
        decimal_is_not_empty(n / 10);
        assert(high.push(low).last() == low);
        assert(high.push(low).drop_last() =~= high);
    }
}

/// Reading an optional bound back from its text gives the bound.
pub proof fn optional_decimal_round_trip(bound: Option<u32>)
    ensures
        parse_optional_decimal(optional_decimal(bound)) == Some(bound),
{
    if let Some(n) = bound {
        decimal_round_trip(n as nat);
        decimal_is_not_empty(n as nat);
    }
}

/// The text of one decimal digit.
fn digit_str(d: u32) -> (s: &'static str)
    requires
        d < 10,
    ensures
        s@ == seq![digit(d as int)],
{
    proof {
        reveal_strlit("0");
        reveal_strlit("1");
        reveal_strlit("2");
        reveal_strlit("3");
        reveal_strlit("4");
        reveal_strlit("5");
        reveal_strlit("6");
        reveal_strlit("7");
        reveal_strlit("8");
        reveal_strlit("9");
    }
    let s = if d == 0 {
        "0"
    } else if d == 1 {
        "1"
    } else if d == 2 {
        "2"
    } else if d == 3 {
        "3"
    } else if d == 4 {
        "4"
    } else if d == 5 {
        "5"
    } else if d == 6 {
        "6"
    } else if d == 7 {
        "7"
    } else if d == 8 {
        "8"
    } else {
        "9"
    };
    assert(s@ =~= seq![digit(d as int)]);
    s
}

/// A number written in decimal.
pub fn decimal_string(n: u32) -> (s: String)
    ensures
        s@ == decimal(n as nat),
    decreases n,
{
    if n < 10 {
        String::from_str(digit_str(n))
    } else {
        let high = decimal_string(n / 10);
        let s = high.concat(digit_str(n % 10));
        assert(s@ =~= decimal(n as nat));
        s
    }
}

/// An optional bound written as text: blank for none.
pub fn optional_decimal_string(bound: Option<u32>) -> (s: String)
    ensures
        s@ == optional_decimal(bound),
{
    match bound {
        None => String::new(),
        Some(n) => decimal_string(n),
    }
}

/// A flag written as text.
pub fn flag_str(set: bool) -> (s: &'static str)
    ensures
        s@ == seq![flag(set)],
{
    proof {
        reveal_strlit("0");
        reveal_strlit("1");
    }
    let s = if set {
        "1"
    } else {
        "0"
    };
    assert(s@ =~= seq![flag(set)]);
    s
}

} // verus!
