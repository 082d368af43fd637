//! Decimal text of integers and rounding of fractions.

use vstd::prelude::*;
use vstd::string::*;

verus! {

/// The character that writes the digit `d`.
pub open spec fn digit_char(d: int) -> char
    recommends
        0 <= d <= 9,
{
    if d == 0 {
        '0'
    } else if d == 1 {
        '1'
    } else if d == 2 {
        '2'
    } else if d == 3 {
        '3'
    } else if d == 4 {
        '4'
    } else if d == 5 {
        '5'
    } else if d == 6 {
        '6'
    } else if d == 7 {
        '7'
    } else if d == 8 {
        '8'
    } else {
        '9'
    }
}

/// Decimal notation of `n`: most significant digit first, no leading zero.
pub open spec fn decimal(n: nat) -> Seq<char>
    decreases n,
{
    if n < 10 {
        seq![digit_char(n as int)]
    } else {
        decimal(n / 10).push(digit_char((n % 10) as int))
    }
}

/// Decimal notation of an integer; a negative number starts with `-`.
pub open spec fn signed_decimal(n: int) -> Seq<char> {
    if n < 0 {
        seq!['-'] + decimal((-n) as nat)
    } else {
        decimal(n as nat)
    }
}

/// A number given in tenths, written with one digit after the point.
pub open spec fn one_decimal(tenths: int) -> Seq<char> {
    let m = if tenths < 0 {
        -tenths
    } else {
        tenths
    };
    let sign = if tenths < 0 {
        seq!['-']
    } else {
        Seq::<char>::empty()
    };
    sign + decimal((m / 10) as nat) + seq!['.', digit_char(m % 10)]
}

/// The fraction `num / den` rounded to the nearest natural number; a fraction
/// halfway between two numbers goes to the even one.
pub open spec fn round_half_even(num: nat, den: nat) -> nat
    recommends
        den > 0,
{
    let q = num / den;
    let r = num % den;
    if 2 * r < den || (2 * r == den && q % 2 == 0) {
        q
    } else {
        q + 1
    }
}

/// [`round_half_even`] extended to negative numerators by symmetry.
pub open spec fn round_half_even_signed(num: int, den: nat) -> int
    recommends
        den > 0,
{
    if num >= 0 {
        round_half_even(num as nat, den) as int
    } else {
        -(round_half_even((-num) as nat, den) as int)
    }
}

/// Whether `c` is one of the ten digits.
pub open spec fn is_digit(c: char) -> bool {
    exists|d: int| 0 <= d <= 9 && c == #[trigger] digit_char(d)
}

/// The decimal notation of a number is not empty and holds digits only.
pub proof fn lemma_decimal_digits(n: nat)
    ensures
        decimal(n).len() >= 1,
        forall|i: int| 0 <= i < decimal(n).len() ==> is_digit(#[trigger] decimal(n)[i]),
    decreases n,
{
    if n < 10 {
        assert(is_digit(digit_char(n as int)));
    } else {
        lemma_decimal_digits(n / 10);
        assert(is_digit(digit_char((n % 10) as int)));
    }
}

/// Rounding goes to a nearest number: the rounded value is at most one half
/// away from the fraction.
pub proof fn lemma_round_half_even_nearest(num: int, den: nat)
    requires
        den > 0,
    ensures
        -(den as int) <= 2 * (round_half_even_signed(num, den) * den - num) <= den,
{
    let a: nat = if num >= 0 {
        num as nat
    } else {
        (-num) as nat
    };
    let q = a / den;
    let r = a % den;
    assert(a == den * q + r && 0 <= r < den) by (nonlinear_arith)
        requires
            den > 0,
            q == a / den,
            r == a % den,
    ;
    let m = round_half_even(a, den);
    let d = den as int;
    let off: int = m * d - a;
    assert(off == if m == q {
        -(r as int)
    } else {
        d - r
    }) by (nonlinear_arith)
        requires
            a == den * q + r,
            m == q || m == q + 1,
            off == m * d - a,
            d == den,
    ;
    assert(-d <= 2 * off <= d);
    let rounded = round_half_even_signed(num, den);
    assert(rounded * d - num == if num >= 0 {
        off
    } else {
        -off
    }) by (nonlinear_arith)
        requires
            off == m * d - a,
            num >= 0 ==> rounded == m && num == a,
            num < 0 ==> rounded == -(m as int) && num == -(a as int),
    ;
}

/// The absolute value of `n`.
pub fn magnitude(n: i128) -> (m: u128)
    ensures
        m == if n < 0 {
            -n
        } else {
            n as int
        },
{
    if n < 0 {
        (-(n + 1)) as u128 + 1
    } else {
        n as u128
    }
}

/// The text of one digit.
fn digit_str(d: u8) -> (s: &'static str)
    requires
        d <= 9,
    ensures
        s@ == seq![digit_char(d as int)],
{
    proof {
        reveal_strlit("0");
        reveal_strlit("1");
        reveal_strlit("2");
        reveal_strlit("3");
        reveal_strlit("4");
        reveal_strlit("5");
        reveal_strlit("6");
        reveal_strlit("7");
        reveal_strlit("8");
        reveal_strlit("9");
    }
    let s = match d {
        0 => "0",
        1 => "1",
        2 => "2",
        3 => "3",
        4 => "4",
        5 => "5",
        6 => "6",
        7 => "7",
        8 => "8",
        _ => "9",
    };
    assert(s@ =~= seq![digit_char(d as int)]);
    s
}

/// Appends the decimal notation of `n` to `out`.
pub fn push_decimal(out: &mut String, n: u128)
    ensures
        final(out)@ == old(out)@ + decimal(n as nat),
    decreases n,
{
    if n >= 10 {
        push_decimal(out, n / 10);
    }
    let d: u8 = (n % 10) as u8;
    out.append(digit_str(d));
    assert(final(out)@ =~= old(out)@ + decimal(n as nat));
}

/// Appends the decimal notation of the integer `n` to `out`.
pub fn push_signed_decimal(out: &mut String, n: i128)
    ensures
        final(out)@ == old(out)@ + signed_decimal(n as int),
{
    if n < 0 {
        proof {
            reveal_strlit("-");
        }
        out.append("-");
        push_decimal(out, magnitude(n));
        assert(final(out)@ =~= old(out)@ + signed_decimal(n as int));
    } else {
        push_decimal(out, n as u128);
    }
}

/// Appends `tenths`, written with one digit after the point, to `out`.
pub fn push_one_decimal(out: &mut String, tenths: i128)
    requires
        tenths > i128::MIN,
    ensures
        final(out)@ == old(out)@ + one_decimal(tenths as int),
{
    let m: u128 = magnitude(tenths);
    if tenths < 0 {
        proof {
            reveal_strlit("-");
        }
        out.append("-");
    }
    push_decimal(out, m / 10);
    proof {
        reveal_strlit(".");
    }
    out.append(".");
    let d: u8 = (m % 10) as u8;
    out.append(digit_str(d));
    assert(final(out)@ =~= old(out)@ + one_decimal(tenths as int));
}

/// Rounds `num / den` to the nearest integer, halves to the even neighbour.
pub fn rounded_half_even(num: i128, den: u128) -> (r: i128)
    requires
        den > 0,
        num > i128::MIN,
    ensures
        r == round_half_even_signed(num as int, den as nat),
{
    let a: u128 = magnitude(num);
    let q: u128 = a / den;
    let r: u128 = a % den;
    let up: bool = r > den - r || (r == den - r && q % 2 == 1);
    proof {
        assert(a == den * q + r) by (nonlinear_arith)
            requires
                den > 0,
                q == a / den,
                r == a % den,
        ;
        assert(den * q >= q) by (nonlinear_arith)
            requires
                den > 0,
        ;
    }
    let m: u128 = if up {
        q + 1
    } else {
        q
    };
    if num < 0 {
        -(m as i128)
    } else {
        m as i128
    }
}

} // verus!
