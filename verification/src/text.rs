//! Decimal text: digits, rounding to the nearest integer, percentages and
//! byte counts.
use crate::fraction::{Fraction, Percent};
use vstd::prelude::*;

verus! {

/// The character that writes a single decimal digit.
pub open spec fn digit_char(digit: nat) -> char
    recommends
        digit < 10,
{
    if digit == 0 {
        '0'
    } else if digit == 1 {
        '1'
    } else if digit == 2 {
        '2'
    } else if digit == 3 {
        '3'
    } else if digit == 4 {
        '4'
    } else if digit == 5 {
        '5'
    } else if digit == 6 {
        '6'
    } else if digit == 7 {
        '7'
    } else if digit == 8 {
        '8'
    } else {
        '9'
    }
}

/// The decimal digits of a number, most significant first, without leading
/// zeros; zero is written `0`.
pub open spec fn decimal_text(n: nat) -> Seq<char>
    decreases n,
{
    if n < 10 {
        seq![digit_char(n)]
    } else {
        decimal_text(n / 10).push(digit_char(n % 10))
    }
}

/// The integer nearest to `n / d`; of two equally near integers, the even one.
pub open spec fn round_half_even(n: nat, d: nat) -> nat
    recommends
        d > 0,
{
    let q = n / d;
    let r = n % d;
    if 2 * r > d || (2 * r == d && q % 2 == 1) {
        q + 1
    } else {
        q
    }
}

/// `k` is an integer nearest to `n / d`, and is even where `n / d` lies
/// exactly halfway between two integers.
pub open spec fn nearest_even(n: nat, d: nat, k: nat) -> bool {
    let gap = if k * d >= n {
        k * d - n
    } else {
        n - k * d
    };
    2 * gap <= d && (2 * gap == d ==> k % 2 == 0)
}

/// Rounding half to even gives the nearest integer, the even one on a tie,
/// and is the only number to do so.
pub proof fn lemma_round_half_even_is_nearest(n: nat, d: nat, k: nat)
    requires
        d > 0,
    ensures
        nearest_even(n, d, round_half_even(n, d)),
        nearest_even(n, d, k) ==> k == round_half_even(n, d),
{
    let q = n / d;
    let r = n % d;
    assert(n == d * q + r && 0 <= r < d) by {
        vstd::arithmetic::div_mod::lemma_fundamental_div_mod(n as int, d as int);
        vstd::arithmetic::div_mod::lemma_mod_bound(n as int, d as int);
    }
    assert((q + 1) * d == q * d + d) by (nonlinear_arith);
    assert(d * q == q * d) by (nonlinear_arith);
    if nearest_even(n, d, k) {
        if k < q {
            assert(k * d <= (q - 1) * d) by (nonlinear_arith)
                requires
                    k <= q - 1,
                    d > 0,
            ;
            assert((q - 1) * d == q * d - d) by (nonlinear_arith);
        } else if k > q + 1 {
            assert(k * d >= (q + 2) * d) by (nonlinear_arith)
                requires
                    k >= q + 2,
                    d > 0,
            ;
            assert((q + 2) * d == q * d + 2 * d) by (nonlinear_arith);
        }
    }
}

/// A percentage as shown in the status line: `100%` from 99.5 upwards, a
/// whole number from 10 upwards, and one decimal place below 10. The share is
/// the percentage divided by one hundred.
pub open spec fn percent_text(share: Fraction) -> Seq<char> {
    let n = share.num as nat;
    let d = share.den as nat;
    if 200 * n >= 199 * d {
        "100%"@
    } else if 10 * n >= d {
        decimal_text(round_half_even(100 * n, d)) + "%"@
    } else {
        let tenths = round_half_even(1000 * n, d);
        decimal_text(tenths / 10) + "."@ + decimal_text(tenths % 10) + "%"@
    }
}

/// The rounded quotient depends on the number only, not on the fraction that
/// writes it: if `a / b == c / d`, then `m * a / b` and `m * c / d` round to
/// the same integer.
pub proof fn lemma_rounding_depends_on_the_number_only(a: nat, b: nat, c: nat, d: nat, m: nat)
    requires
        b > 0,
        d > 0,
        a * d == c * b,
    ensures
        round_half_even(m * a, b) == round_half_even(m * c, d),
{
    let k = round_half_even(m * a, b);
    lemma_round_half_even_is_nearest(m * a, b, k);
    let gap_b = if k * b >= m * a {
        k * b - m * a
    } else {
        m * a - k * b
    };
    let gap_d = if k * d >= m * c {
        k * d - m * c
    } else {
        m * c - k * d
    };
    assert(gap_b * d == gap_d * b) by (nonlinear_arith)
        requires
            a * d == c * b,
            b > 0,
            d > 0,
            gap_b == if k * b >= m * a {
                k * b - m * a
            } else {
                m * a - k * b
            },
            gap_d == if k * d >= m * c {
                k * d - m * c
            } else {
                m * c - k * d
            },
    {
        assert((k * b - m * a) * d == (k * d - m * c) * b) by {
            assert(k * b * d == k * d * b);
            assert(m * a * d == m * (a * d));
            assert(m * c * b == m * (c * b));
        }
    }
    assert(2 * gap_d <= d && (2 * gap_d == d ==> 2 * gap_b == b)) by (nonlinear_arith)
        requires
            gap_b * d == gap_d * b,
            2 * gap_b <= b,
            b > 0,
            d > 0,
    ;
    lemma_round_half_even_is_nearest(m * c, d, k);
}

/// The text of a percentage depends on the number only, not on the fraction
/// that writes it.
pub proof fn lemma_percent_text_depends_on_the_number_only(first: Fraction, second: Fraction)
    requires
        first.den > 0,
        second.den > 0,
        first.same(second),
    ensures
        percent_text(first) == percent_text(second),
{
    let (a, b) = (first.num as nat, first.den as nat);
    let (c, d) = (second.num as nat, second.den as nat);
    assert((200 * a >= 199 * b) == (200 * c >= 199 * d) && (10 * a >= b) == (10 * c >= d))
        by (nonlinear_arith)
        requires
            a * d == c * b,
            b > 0,
            d > 0,
    ;
    lemma_rounding_depends_on_the_number_only(a, b, c, d, 100);
    lemma_rounding_depends_on_the_number_only(a, b, c, d, 1000);
}

/// The text of a single decimal digit.
pub fn digit_str(digit: u64) -> (r: &'static str)
    requires
        digit < 10,
    ensures
        r@ == seq![digit_char(digit as nat)],
{
    proof {
        reveal_strlit("0");
        reveal_strlit("1");
        reveal_strlit("2");
        reveal_strlit("3");
        reveal_strlit("4");
        reveal_strlit("5");
        reveal_strlit("6");
        reveal_strlit("7");
        reveal_strlit("8");
        reveal_strlit("9");
    }
    let r = if digit == 0 {
        "0"
    } else if digit == 1 {
        "1"
    } else if digit == 2 {
        "2"
    } else if digit == 3 {
        "3"
    } else if digit == 4 {
        "4"
    } else if digit == 5 {
        "5"
    } else if digit == 6 {
        "6"
    } else if digit == 7 {
        "7"
    } else if digit == 8 {
        "8"
    } else {
        "9"
    };
    assert(r@ =~= seq![digit_char(digit as nat)]);
    r
}

/// Appends the decimal digits of `n` to `out`.
pub fn push_decimal(out: &mut String, n: u64)
    ensures
        final(out)@ == old(out)@ + decimal_text(n as nat),
    decreases n,
{
    if n >= 10 {
        push_decimal(out, n / 10);
    }
    let ghost before = out@;
    out.append(digit_str(n % 10));
    proof {
        if n >= 10 {
            assert(old(out)@ + decimal_text((n / 10) as nat) + seq![digit_char((n % 10) as nat)]
                =~= old(out)@ + decimal_text((n / 10) as nat).push(digit_char((n % 10) as nat)));
        }
    }
}

/// The decimal digits of `n`.
pub fn decimal_string(n: u64) -> (r: String)
    ensures
        r@ == decimal_text(n as nat),
{
    let mut out = String::new();
    push_decimal(&mut out, n);
    assert(Seq::<char>::empty() + decimal_text(n as nat) =~= decimal_text(n as nat));
    out
}

/// `n / d` rounded to the nearest integer, half to even.
pub fn rounded_quotient(n: u128, d: u128) -> (k: u128)
    requires
        d > 0,
        d <= u64::MAX,
    ensures
        k == round_half_even(n as nat, d as nat),
        n / d <= k <= n / d + 1,
{
    let q = n / d;
    let r = n % d;
    if 2 * r > d || (2 * r == d && q % 2 == 1) {
        proof {
            vstd::arithmetic::div_mod::lemma_fundamental_div_mod(n as int, d as int);
            assert(q < n) by (nonlinear_arith)
                requires
                    n == d * q + r,
                    r > 0,
                    d > 0,
                    q >= 0,
            ;
        }
        q + 1
    } else {
        q
    }
}

/// Formats a percentage for the status line: `100%` from 99.5 upwards, a
/// whole number from 10 upwards, one decimal place below 10.
pub fn format_percent(value: Percent) -> (r: String)
    ensures
        r@ == percent_text(value.share),
{
    let n: u128 = value.share.num as u128;
    let d: u128 = value.share.den as u128;
    if 200 * n >= 199 * d {
        String::from_str("100%")
    } else if 10 * n >= d {
        let whole = rounded_quotient(100 * n, d);
        assert(whole <= 100) by (nonlinear_arith)
            requires
                whole <= (100 * n) / (d as int) + 1,
                200 * n < 199 * d,
                d > 0,
        ;
        let mut out = decimal_string(whole as u64);
        out.append("%");
        out
    } else {
        let tenths = rounded_quotient(1000 * n, d);
        assert(tenths <= 100) by (nonlinear_arith)
            requires
                tenths <= (1000 * n) / (d as int) + 1,
                10 * n < d,
                d > 0,
        ;
        let mut out = decimal_string((tenths / 10) as u64);
        out.append(".");
        out.append(digit_str((tenths % 10) as u64));
        out.append("%");
        out
    }
}

/// The scaling function may be called with every byte count but zero.
pub open spec fn scales_nonzero<F: Fn(u64) -> String>(scale: &F) -> bool {
    forall|bytes: u64| bytes > 0 ==> call_requires(scale, (bytes,))
}

/// `text` is how a byte count is shown: zero as `0 B`, every other count as
/// the scaling function renders it.
pub open spec fn is_bytes_text<F: Fn(u64) -> String>(
    scale: &F,
    bytes: u64,
    text: Seq<char>,
) -> bool {
    if bytes == 0 {
        text == "0 B"@
    } else {
        exists|scaled: String| #[trigger] call_ensures(scale, (bytes,), scaled) && scaled@ == text
    }
}

/// Formats a byte count. Zero is written `0 B` and never reaches the scaling
/// function; every other count is rendered by `scale`, which picks the unit.
pub fn format_bytes<F: Fn(u64) -> String>(bytes: u64, scale: &F) -> (r: String)
    requires
        scales_nonzero(scale),
    ensures
        bytes == 0 ==> r@ == "0 B"@,
        bytes > 0 ==> call_ensures(scale, (bytes,), r),
        is_bytes_text(scale, bytes, r@),
{
    if bytes == 0 {
        String::from_str("0 B")
    } else {
        scale(bytes)
    }
}

} // verus!
