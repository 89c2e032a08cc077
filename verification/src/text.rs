//! Decimal text of numbers, as `format!("{}", n)` writes it, for error messages.
use vstd::prelude::*;

verus! {

/// The character of a decimal digit.
pub open spec fn digit_char(d: u64) -> char {
    if d == 0 {
        '0'
    } else if d == 1 {
        '1'
    } else if d == 2 {
        '2'
    } else if d == 3 {
        '3'
    } else if d == 4 {
        '4'
    } else if d == 5 {
        '5'
    } else if d == 6 {
        '6'
    } else if d == 7 {
        '7'
    } else if d == 8 {
        '8'
    } else {
        '9'
    }
}

/// The decimal digits of `n`, without leading zeros.
pub open spec fn decimal(n: u64) -> Seq<char>
    decreases n,
{
    if n < 10 {
        seq![digit_char(n)]
    } else {
        decimal(n / 10).push(digit_char(n % 10))
    }
}

fn digit_text(d: u64) -> (s: &'static str)
    requires
        d < 10,
    ensures
        s@ == seq![digit_char(d)],
{
    let s = if d == 0 {
        "0"
    } else if d == 1 {
        "1"
    } else if d == 2 {
        "2"
    } else if d == 3 {
        "3"
    } else if d == 4 {
        "4"
    } else if d == 5 {
        "5"
    } else if d == 6 {
        "6"
    } else if d == 7 {
        "7"
    } else if d == 8 {
        "8"
    } else {
        "9"
    };
    proof {
        reveal_strlit("0");
        reveal_strlit("1");
        reveal_strlit("2");
        reveal_strlit("3");
        reveal_strlit("4");
        reveal_strlit("5");
        reveal_strlit("6");
        reveal_strlit("7");
        reveal_strlit("8");
        reveal_strlit("9");
    }
    assert(s@ =~= seq![digit_char(d)]);
    s
}

/// `prefix` followed by the decimal digits of `n`.
pub fn with_number(prefix: &str, n: u64) -> (s: String)
    ensures
        s@ == prefix@ + decimal(n),
    decreases n,
{
    if n < 10 {
        let s = String::from_str(prefix).concat(digit_text(n));
        s
    } else {
        let s = with_number(prefix, n / 10).concat(digit_text(n % 10));
        assert(s@ =~= prefix@ + decimal(n));
        s
    }
}

/// The decimal digits of `n`.
pub fn decimal_text(n: u64) -> (s: String)
    ensures
        s@ == decimal(n),
{
    let s = with_number("", n);
    proof {
        reveal_strlit("");
    }
    assert(s@ =~= decimal(n));
    s
}


/// The decimal digits of `n`, with zeros in front up to `width` characters.
pub open spec fn zero_padded(n: u64, width: nat) -> Seq<char> {
    let d = decimal(n);
    if d.len() >= width {
        d
    } else {
        Seq::new((width - d.len()) as nat, |i: int| '0') + d
    }
}

/// The decimal digits of `n`, with zeros in front up to `width` characters.
pub fn zero_padded_text(n: u64, width: usize) -> (s: String)
    ensures
        s@ == zero_padded(n, width as nat),
{
    let digits = decimal_text(n);
    let len = digits.as_str().unicode_len();
    let mut s = String::new();
    let mut k: usize = len;
    proof {
        reveal_strlit("0");
    }
    while k < width
        invariant
            len == decimal(n).len(),
            len <= k <= width || (k == len && len > width),
            s@ == Seq::new((k - len) as nat, |i: int| '0'),
        decreases width - k,
    {
        proof {
            reveal_strlit("0");
        }
        s.append("0");
        k = k + 1;
        assert(s@ =~= Seq::new((k - len) as nat, |i: int| '0'));
    }
    s.append(digits.as_str());
    if len >= width {
        assert(s@ =~= decimal(n));
    } else {
        assert(s@ =~= Seq::new((width - len) as nat, |i: int| '0') + decimal(n));
    }
    s
}

/// A calendar date as `%Y-%m-%d`: a year from 0 to 9999 as four digits, other years with
/// their sign and at least four digits; month and day as two digits.
pub open spec fn date_display(year: i32, month: u32, day: u32) -> Seq<char> {
    let y = if 0 <= year <= 9999 {
        zero_padded(year as u64, 4)
    } else if year > 9999 {
        seq!['+'] + zero_padded(year as u64, 4)
    } else {
        seq!['-'] + zero_padded((-(year as int)) as u64, 4)
    };
    y + seq!['-'] + zero_padded(month as u64, 2) + seq!['-'] + zero_padded(day as u64, 2)
}

/// A calendar date as `%Y-%m-%d` (see `date_display`).
pub fn date_text(year: i32, month: u32, day: u32) -> (s: String)
    ensures
        s@ == date_display(year, month, day),
{
    let mut s = String::new();
    proof {
        reveal_strlit("+");
        reveal_strlit("-");
    }
    if 0 <= year && year <= 9999 {
        let y = zero_padded_text(year as u64, 4);
        s.append(y.as_str());
    } else if year > 9999 {
        s.append("+");
        let y = zero_padded_text(year as u64, 4);
        s.append(y.as_str());
    } else {
        s.append("-");
        let a: i64 = -(year as i64);
        let y = zero_padded_text(a as u64, 4);
        s.append(y.as_str());
    }
    s.append("-");
    let m = zero_padded_text(month as u64, 2);
    s.append(m.as_str());
    s.append("-");
    let d = zero_padded_text(day as u64, 2);
    s.append(d.as_str());
    assert(s@ =~= date_display(year, month, day));
    s
}

} // verus!
