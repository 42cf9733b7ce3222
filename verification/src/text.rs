//! Decimal text of the numbers that file names and rows are made of.

use vstd::prelude::*;
use vstd::string::StringExecFns;

verus! {

/// The character of a decimal digit.
pub open spec fn digit_char(d: int) -> char {
    if d == 0 {
        '0'
    } else if d == 1 {
        '1'
    } else if d == 2 {
        '2'
    } else if d == 3 {
        '3'
    } else if d == 4 {
        '4'
    } else if d == 5 {
        '5'
    } else if d == 6 {
        '6'
    } else if d == 7 {
        '7'
    } else if d == 8 {
        '8'
    } else {
        '9'
    }
}

/// The decimal digits of a number, without leading zeros.
pub open spec fn decimal(n: nat) -> Seq<char>
    decreases n,
{
    if n < 10 {
        seq![digit_char(n as int)]
    } else {
        decimal(n / 10).push(digit_char((n % 10) as int))
    }
}

/// The decimal digits of a number, with zeros in front up to `width`
/// characters; a longer number is not shortened.
pub open spec fn zero_padded(n: nat, width: nat) -> Seq<char> {
    let digits = decimal(n);
    if digits.len() >= width {
        digits
    } else {
        Seq::new((width - digits.len()) as nat, |i: int| '0') + digits
    }
}

/// The decimal text of an integer, with a minus sign where it is negative.
pub open spec fn signed_decimal(n: int) -> Seq<char> {
    if n < 0 {
        seq!['-'] + decimal((-n) as nat)
    } else {
        decimal(n as nat)
    }
}

/// The digits after the decimal point of a number of thousandths, without
/// trailing zeros; `thousandths` is below 1000 and not 0.
pub open spec fn fraction_digits(thousandths: nat) -> Seq<char> {
    let tenths = digit_char((thousandths / 100) as int);
    let hundredths = digit_char((thousandths / 10 % 10) as int);
    let last = digit_char((thousandths % 10) as int);
    if thousandths % 100 == 0 {
        seq![tenths]
    } else if thousandths % 10 == 0 {
        seq![tenths, hundredths]
    } else {
        seq![tenths, hundredths, last]
    }
}

/// A length in millimetres written in metres: the whole metres, and after
/// a decimal point the remaining millimetres without trailing zeros; a
/// whole number of metres has no decimal point.
pub open spec fn metres(millimetres: nat) -> Seq<char> {
    if millimetres % 1000 == 0 {
        decimal(millimetres / 1000)
    } else {
        decimal(millimetres / 1000) + seq!['.'] + fraction_digits(millimetres % 1000)
    }
}

/// The text of one decimal digit.
pub fn digit_str(d: u8) -> (text: &'static str)
    requires
        d < 10,
    ensures
        text@ == seq![digit_char(d as int)],
{
    proof {
        reveal_strlit("0");
        reveal_strlit("1");
        reveal_strlit("2");
        reveal_strlit("3");
        reveal_strlit("4");
        reveal_strlit("5");
        reveal_strlit("6");
        reveal_strlit("7");
        reveal_strlit("8");
        reveal_strlit("9");
    }
    let text = if d == 0 {
        "0"
    } else if d == 1 {
        "1"
    } else if d == 2 {
        "2"
    } else if d == 3 {
        "3"
    } else if d == 4 {
        "4"
    } else if d == 5 {
        "5"
    } else if d == 6 {
        "6"
    } else if d == 7 {
        "7"
    } else if d == 8 {
        "8"
    } else {
        "9"
    };
    assert(text@ =~= seq![digit_char(d as int)]);
    text
}

/// Appends the decimal digits of a number.
pub fn push_decimal(out: &mut String, n: u64)
    ensures
        final(out)@ == old(out)@ + decimal(n as nat),
    decreases n,
{
    if n >= 10 {
        push_decimal(out, n / 10);
    }
    out.append(digit_str((n % 10) as u8));
    assert(final(out)@ =~= old(out)@ + decimal(n as nat));
}

/// Appends the decimal digits of a number, with zeros in front up to
/// `width` characters.
pub fn push_zero_padded(out: &mut String, n: u64, width: usize)
    ensures
        final(out)@ == old(out)@ + zero_padded(n as nat, width as nat),
{
    let mut digits: usize = 1;
    let mut rest: u64 = n;
    while rest >= 10 && digits < width
        invariant
            1 <= digits,
            digits <= width || digits == 1,
            decimal(n as nat).len() == decimal(rest as nat).len() + digits - 1,
        decreases rest,
    {
        rest = rest / 10;
        digits = digits + 1;
    }
    assert(digits < width ==> decimal(n as nat).len() == digits);
    let mut filled: usize = digits;
    while filled < width
        invariant
            digits <= filled,
            filled <= width || filled == digits,
            out@ == old(out)@ + Seq::new((filled - digits) as nat, |i: int| '0'),
        decreases width - filled,
    {
        proof {
            reveal_strlit("0");
        }
        out.append("0");
        filled = filled + 1;
        assert(out@ =~= old(out)@ + Seq::new((filled - digits) as nat, |i: int| '0'));
    }
    push_decimal(out, n);
    assert(final(out)@ =~= old(out)@ + zero_padded(n as nat, width as nat));
}

/// Appends the decimal text of an integer.
pub fn push_signed_decimal(out: &mut String, n: i64)
    requires
        n > i64::MIN,
    ensures
        final(out)@ == old(out)@ + signed_decimal(n as int),
{
    if n < 0 {
        proof {
            reveal_strlit("-");
        }
        out.append("-");
        push_decimal(out, (-n) as u64);
        assert(final(out)@ =~= old(out)@ + signed_decimal(n as int));
    } else {
        push_decimal(out, n as u64);
    }
}

/// Appends a length in millimetres, written in metres.
pub fn push_metres(out: &mut String, millimetres: u32)
    ensures
        final(out)@ == old(out)@ + metres(millimetres as nat),
{
    let whole: u32 = millimetres / 1000;
    let rest: u32 = millimetres % 1000;
    push_decimal(out, whole as u64);
    if rest != 0 {
        proof {
            reveal_strlit(".");
        }
        out.append(".");
        out.append(digit_str((rest / 100) as u8));
        if rest % 100 != 0 {
            out.append(digit_str((rest / 10 % 10) as u8));
            if rest % 10 != 0 {
                out.append(digit_str((rest % 10) as u8));
            }
        }
        assert(final(out)@ =~= old(out)@ + metres(millimetres as nat));
    }
}

} // verus!
