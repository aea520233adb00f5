//! Decimal rendering of integers and of decimal numbers.

use crate::pretty::Pretty;
use crate::pretty::Printer;
use vstd::prelude::*;

verus! {

/// The lower-case character of a hexadecimal digit; for `d < 10` that is
/// also its decimal digit.
pub open spec fn digit_char(d: nat) -> char
    recommends
        d < 16,
{
    seq!['0', '1', '2', '3', '4', '5', '6', '7', '8', '9', 'a', 'b', 'c', 'd', 'e', 'f'][d as int]
}

/// Ten to the power `k`.
pub open spec fn pow10(k: nat) -> nat
    decreases k,
{
    if k == 0 {
        1
    } else {
        10 * pow10((k - 1) as nat)
    }
}

/// The string of `k` zero digits.
pub open spec fn zeros(k: nat) -> Seq<char> {
    Seq::new(k, |i: int| '0')
}

/// The decimal digits of `n`, most significant first, without leading
/// zeros; the digits of zero are `0`.
pub open spec fn nat_text(n: nat) -> Seq<char>
    decreases n,
{
    if n < 10 {
        seq![digit_char(n)]
    } else {
        nat_text(n / 10).push(digit_char(n % 10))
    }
}

/// The decimal text of an integer: a minus sign for a negative one, then the
/// digits of its magnitude.
pub open spec fn int_text(v: int) -> Seq<char> {
    if v < 0 {
        seq!['-'] + nat_text((-v) as nat)
    } else {
        nat_text(v as nat)
    }
}

/// The last `k` decimal digits of `f`, most significant first, with leading
/// zeros kept.
pub open spec fn fixed_digits(f: nat, k: nat) -> Seq<char>
    decreases k,
{
    if k == 0 {
        Seq::empty()
    } else {
        fixed_digits(f / 10, (k - 1) as nat).push(digit_char(f % 10))
    }
}

/// The shortest plain decimal text of `c * 10^e`: no exponent, no leading
/// zeros but the one before a decimal point, no trailing zeros after it, and
/// no decimal point where no fraction is left.
pub open spec fn decimal_text(c: nat, e: int) -> Seq<char>
    decreases c,
{
    if c == 0 {
        seq!['0']
    } else if e >= 0 {
        nat_text(c) + zeros(e as nat)
    } else if c % 10 == 0 {
        decimal_text(c / 10, e + 1)
    } else {
        nat_text(c / pow10((-e) as nat)) + seq!['.'] + fixed_digits(
            c % pow10((-e) as nat),
            (-e) as nat,
        )
    }
}

/// A number as a number literal denotes it.
#[derive(Debug, Clone, Copy, PartialEq, Eq)]
pub enum Number {
    /// The value `coefficient * 10^exponent`, negated where `negative` is set.
    Finite { negative: bool, coefficient: u64, exponent: i32 },
    /// Positive or negative infinity.
    Infinite { negative: bool },
    /// Not a number.
    Nan,
}

/// The one-character string of a hexadecimal digit.
pub(crate) fn digit_str(d: u8) -> (s: &'static str)
    requires
        d < 16,
    ensures
        s@ == seq![digit_char(d as nat)],
{
    proof {
        reveal_strlit("0");
        reveal_strlit("1");
        reveal_strlit("2");
        reveal_strlit("3");
        reveal_strlit("4");
        reveal_strlit("5");
        reveal_strlit("6");
        reveal_strlit("7");
        reveal_strlit("8");
        reveal_strlit("9");
        reveal_strlit("a");
        reveal_strlit("b");
        reveal_strlit("c");
        reveal_strlit("d");
        reveal_strlit("e");
        reveal_strlit("f");
    }
    match d {
        0 => "0",
        1 => "1",
        2 => "2",
        3 => "3",
        4 => "4",
        5 => "5",
        6 => "6",
        7 => "7",
        8 => "8",
        9 => "9",
        10 => "a",
        11 => "b",
        12 => "c",
        13 => "d",
        14 => "e",
        _ => "f",
    }
}

/// Appends the decimal digits of `n`.
pub fn push_nat(p: &mut Printer, n: u64)
    ensures
        final(p)@ == old(p)@ + nat_text(n as nat),
    decreases n,
{
    if n >= 10 {
        push_nat(p, n / 10);
    }
    p.push_str(digit_str((n % 10) as u8));
}

impl Pretty for i64 {
    open spec fn text(&self) -> Seq<char> {
        int_text(*self as int)
    }

    fn pretty(&self, p: &mut Printer) {
        let v: i64 = *self;
        if v < 0 {
            proof {
                reveal_strlit("-");
            }
            p.push_str("-");
            let magnitude: u64 = (-(v + 1)) as u64 + 1;
            push_nat(p, magnitude);
        } else {
            push_nat(p, v as u64);
        }
    }
}

impl Pretty for Number {
    open spec fn text(&self) -> Seq<char> {
        match self {
            Number::Finite { negative, coefficient, exponent } => {
                if *negative {
                    "-"@ + decimal_text(*coefficient as nat, *exponent as int)
                } else {
                    decimal_text(*coefficient as nat, *exponent as int)
                }
            },
            Number::Infinite { negative } => {
                if *negative {
                    "-inf"@
                } else {
                    "inf"@
                }
            },
            Number::Nan => "NaN"@,
        }
    }

    fn pretty(&self, p: &mut Printer) {
        match self {
            Number::Finite { negative, coefficient, exponent } => {
                if *negative {
                    p.push_str("-");
                }
                push_decimal(p, *coefficient, *exponent);
            },
            Number::Infinite { negative } => {
                if *negative {
                    p.push_str("-inf");
                } else {
                    p.push_str("inf");
                }
            },
            Number::Nan => p.push_str("NaN"),
        }
    }
}

/// Every power of ten is positive, and the powers grow with the exponent.
pub proof fn lemma_pow10_grows(j: nat, k: nat)
    requires
        j <= k,
    ensures
        0 < pow10(j) <= pow10(k),
    decreases k,
{
    if k == 0 {
    } else if j == k {
        lemma_pow10_grows((j - 1) as nat, (k - 1) as nat);
    } else {
        lemma_pow10_grows(j, (k - 1) as nat);
    }
}

/// No 64-bit number has more than twenty decimal digits.
pub proof fn lemma_pow10_bounds()
    ensures
        pow10(19) == 10_000_000_000_000_000_000,
        pow10(20) > u64::MAX,
{
    reveal_with_fuel(pow10, 21);
}

/// The last `k` digits of zero are `k` zeros.
pub proof fn lemma_fixed_digits_of_zero(k: nat)
    ensures
        fixed_digits(0, k) == zeros(k),
    decreases k,
{
    if k > 0 {
        lemma_fixed_digits_of_zero((k - 1) as nat);
        assert(zeros((k - 1) as nat).push('0') =~= zeros(k));
    } else {
        assert(fixed_digits(0, k) =~= zeros(k));
    }
}

/// A number below `10^j` has only zeros before its last `j` digits.
pub proof fn lemma_fixed_digits_padding(f: nat, j: nat, k: nat)
    requires
        f < pow10(j),
        j <= k,
    ensures
        fixed_digits(f, k) == zeros((k - j) as nat) + fixed_digits(f, j),
    decreases j,
{
    if j == 0 {
        lemma_fixed_digits_of_zero(k);
        assert(fixed_digits(f, k) =~= zeros(k) + fixed_digits(f, 0));
    } else {
        lemma_fixed_digits_padding(f / 10, (j - 1) as nat, (k - 1) as nat);
        assert(fixed_digits(f, k) =~= zeros((k - j) as nat) + fixed_digits(f, j));
    }
}

/// The digits of ten times a positive number are its digits and a zero.
pub proof fn lemma_nat_text_times_ten(n: nat)
    requires
        n > 0,
    ensures
        nat_text(10 * n) == nat_text(n).push('0'),
{
    assert((10 * n) / 10 == n && (10 * n) % 10 == 0);
}

/// The decimal text is that of the number, whichever coefficient and
/// exponent denote it: `c * 10^k` with the exponent `e - k` is printed as `c`
/// with the exponent `e` is.
pub proof fn lemma_decimal_text_by_value(c: nat, e: int, k: nat)
    ensures
        decimal_text(c * pow10(k), e - k) == decimal_text(c, e),
    decreases k,
{
    if k == 0 {
        assert(c * pow10(0) == c) by (nonlinear_arith)
            requires
                pow10(0) == 1,
        ;
    } else {
        let d = c * pow10((k - 1) as nat);
        assert(c * pow10(k) == 10 * d) by (nonlinear_arith)
            requires
                pow10(k) == 10 * pow10((k - 1) as nat),
                d == c * pow10((k - 1) as nat),
        ;
        lemma_decimal_text_by_value(c, e, (k - 1) as nat);
        // One step: ten times `d` with the exponent one lower.
        let f = e - k;
        assert((10 * d) / 10 == d && (10 * d) % 10 == 0);
        if d == 0 {
        } else if f >= 0 {
            lemma_nat_text_times_ten(d);
            assert(nat_text(d).push('0') + zeros(f as nat) =~= nat_text(d) + zeros((f + 1) as nat));
        } else {
        }
        assert(decimal_text(10 * d, f) == decimal_text(d, f + 1));
    }
}

/// Appends `k` zero digits.
fn push_zeros(p: &mut Printer, k: u64)
    ensures
        final(p)@ == old(p)@ + zeros(k as nat),
{
    let mut i: u64 = 0;
    assert(p@ =~= old(p)@ + zeros(0));
    while i < k
        invariant
            i <= k,
            p@ == old(p)@ + zeros(i as nat),
        decreases k - i,
    {
        proof {
            reveal_strlit("0");
        }
        p.push_str("0");
        i += 1;
        assert(p@ =~= old(p)@ + zeros(i as nat));
    }
}

/// Appends the last `k` decimal digits of `f`.
fn push_fixed(p: &mut Printer, f: u64, k: u32)
    ensures
        final(p)@ == old(p)@ + fixed_digits(f as nat, k as nat),
    decreases k,
{
    if k > 0 {
        push_fixed(p, f / 10, k - 1);
        p.push_str(digit_str((f % 10) as u8));
    }
    assert(p@ =~= old(p)@ + fixed_digits(f as nat, k as nat));
}

/// Computes ten to the power `k`.
fn power_of_ten(k: u32) -> (r: u64)
    requires
        k <= 19,
    ensures
        r == pow10(k as nat),
{
    let mut r: u64 = 1;
    let mut i: u32 = 0;
    while i < k
        invariant
            i <= k <= 19,
            r == pow10(i as nat),
        decreases k - i,
    {
        proof {
            lemma_pow10_grows((i + 1) as nat, 19);
            lemma_pow10_bounds();
        }
        r = r * 10;
        i += 1;
    }
    r
}

/// Appends the shortest plain decimal text of `coefficient * 10^exponent`.
pub fn push_decimal(p: &mut Printer, coefficient: u64, exponent: i32)
    ensures
        final(p)@ == old(p)@ + decimal_text(coefficient as nat, exponent as int),
{
    proof {
        reveal_strlit("0");
        reveal_strlit(".");
    }
    if coefficient == 0 {
        p.push_str("0");
        return ;
    }
    if exponent >= 0 {
        push_nat(p, coefficient);
        push_zeros(p, exponent as u64);
        assert(p@ =~= old(p)@ + decimal_text(coefficient as nat, exponent as int));
        return ;
    }
    // Trailing zeros of the coefficient go into the exponent.
    let mut c: u64 = coefficient;
    let mut k: u64 = (-(exponent as i64)) as u64;
    while k > 0 && c % 10 == 0
        invariant
            c > 0,
            k <= 0x8000_0000,
            decimal_text(coefficient as nat, exponent as int) == decimal_text(
                c as nat,
                -(k as int),
            ),
        decreases k,
    {
        c = c / 10;
        k = k - 1;
    }
    if k == 0 {
        push_nat(p, c);
        assert(p@ =~= old(p)@ + (nat_text(c as nat) + zeros(0)));
    } else if k >= 20 {
        // The whole coefficient lies behind the decimal point.
        proof {
            lemma_pow10_bounds();
            lemma_pow10_grows(20, k as nat);
            let m = pow10(k as nat);
            assert(c as nat / m == 0 && c as nat % m == c) by (nonlinear_arith)
                requires
                    0 <= c < m,
            ;
            lemma_fixed_digits_padding(c as nat, 20, k as nat);
        }
        p.push_str("0");
        p.push_str(".");
        push_zeros(p, k - 20);
        push_fixed(p, c, 20);
        assert(p@ =~= old(p)@ + decimal_text(c as nat, -(k as int)));
    } else {
        let scale = power_of_ten(k as u32);
        proof {
            lemma_pow10_grows(0, k as nat);
        }
        push_nat(p, c / scale);
        p.push_str(".");
        push_fixed(p, c % scale, k as u32);
        assert(p@ =~= old(p)@ + decimal_text(c as nat, -(k as int)));
    }
}

} // verus!
