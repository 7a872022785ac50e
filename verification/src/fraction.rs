//! Exact shares of a whole, and the percentages they are shown as.
use vstd::prelude::*;

verus! {

/// How many units of a raw CPU reading make one percent of one core.
pub const MILLIPERCENT_PER_PERCENT: u64 = 1000;

/// How many units of a raw CPU reading make one whole core.
pub const MILLIPERCENT_PER_CORE: u64 = 100_000;

/// The number of cores assumed when the platform cannot report one.
pub const DEFAULT_CPU_COUNT: u32 = 1;

/// The non-negative rational number `num / den`, kept unreduced.
///
/// A zero denominator stands for no number at all; comparisons treat it as
/// lying above every number.
#[derive(Clone, Copy, Debug)]
pub struct Fraction {
    pub num: u64,
    pub den: u64,
}

impl Fraction {
    /// The fraction denotes a number between zero and one, both included.
    pub open spec fn wf(self) -> bool {
        0 < self.den && self.num <= self.den
    }

    /// The fraction denotes the number `n / d`.
    pub open spec fn is_ratio(self, n: int, d: int) -> bool {
        self.num * d == n * self.den
    }

    /// `self >= other`, as numbers.
    pub open spec fn ge(self, other: Fraction) -> bool {
        self.num * other.den >= other.num * self.den
    }

    /// `self < other`, as numbers.
    pub open spec fn lt(self, other: Fraction) -> bool {
        !self.ge(other)
    }

    /// `self == other`, as numbers.
    pub open spec fn same(self, other: Fraction) -> bool {
        self.num * other.den == other.num * self.den
    }

    /// The number zero.
    pub fn zero() -> (r: Fraction)
        ensures
            r == (Fraction { num: 0, den: 1 }),
    {
        Fraction { num: 0, den: 1 }
    }

    /// The number one.
    pub fn one() -> (r: Fraction)
        ensures
            r == (Fraction { num: 1, den: 1 }),
    {
        Fraction { num: 1, den: 1 }
    }

    /// Whether `self >= other`, as numbers.
    pub fn at_least(&self, other: &Fraction) -> (r: bool)
        ensures
            r == self.ge(*other),
    {
        wide_product(self.num, other.den) >= wide_product(other.num, self.den)
    }

    /// Whether `self == other`, as numbers.
    pub fn same_value(&self, other: &Fraction) -> (r: bool)
        ensures
            r == self.same(*other),
    {
        wide_product(self.num, other.den) == wide_product(other.num, self.den)
    }
}

impl Default for Fraction {
    fn default() -> (r: Fraction)
        ensures
            r == (Fraction { num: 0, den: 1 }),
    {
        Fraction::zero()
    }
}

/// The product of two 64-bit numbers, which always fits in 128 bits.
pub fn wide_product(a: u64, b: u64) -> (r: u128)
    ensures
        r == a * b,
{
    assert(a * b <= 0xFFFF_FFFF_FFFF_FFFF * 0xFFFF_FFFF_FFFF_FFFF) by (nonlinear_arith)
        requires
            a <= 0xFFFF_FFFF_FFFF_FFFF,
            b <= 0xFFFF_FFFF_FFFF_FFFF,
    ;
    (a as u128) * (b as u128)
}

/// `numerator / denominator` limited to the range from zero to one, and zero
/// where the denominator is zero.
pub open spec fn clamped_ratio(numerator: u64, denominator: u64) -> Fraction {
    if denominator == 0 {
        Fraction { num: 0, den: 1 }
    } else if numerator >= denominator {
        Fraction { num: 1, den: 1 }
    } else {
        Fraction { num: numerator, den: denominator }
    }
}

/// The share `numerator / denominator`, limited to the range from zero to one.
///
/// A zero denominator gives exactly zero: nothing is divided.
pub fn fraction(numerator: u64, denominator: u64) -> (r: Fraction)
    ensures
        r == clamped_ratio(numerator, denominator),
        r.wf(),
        denominator == 0 ==> r.is_ratio(0, 1),
        denominator > 0 && numerator >= denominator ==> r.is_ratio(1, 1),
        denominator > 0 && numerator < denominator ==> r.is_ratio(
            numerator as int,
            denominator as int,
        ),
{
    if denominator == 0 {
        Fraction::zero()
    } else if numerator >= denominator {
        Fraction::one()
    } else {
        Fraction { num: numerator, den: denominator }
    }
}

/// A percentage between 0 and 100, held as the share of the whole that it
/// stands for: the percentage is `100 * share`.
#[derive(Clone, Copy, Debug)]
pub struct Percent {
    pub share: Fraction,
}

impl Percent {
    /// The percentage lies between 0 and 100, both included.
    pub open spec fn wf(self) -> bool {
        self.share.wf()
    }

    /// The percentage is the number `n / d`.
    pub open spec fn is_value(self, n: int, d: int) -> bool {
        100 * self.share.num * d == n * self.share.den
    }

    /// Zero percent.
    pub fn zero() -> (r: Percent)
        ensures
            r.share == (Fraction { num: 0, den: 1 }),
    {
        Percent { share: Fraction::zero() }
    }

    /// The share multiplied by one hundred.
    pub fn from_fraction(share: Fraction) -> (r: Percent)
        ensures
            r.share == share,
    {
        Percent { share }
    }

    /// The percentage divided by one hundred, limited to the range from zero
    /// to one.
    pub fn to_fraction(&self) -> (r: Fraction)
        ensures
            r == clamped_ratio(self.share.num, self.share.den),
            r.wf(),
            self.wf() ==> r.same(self.share),
    {
        let r = fraction(self.share.num, self.share.den);
        assert(self.wf() ==> r.same(self.share)) by (nonlinear_arith)
            requires
                r == clamped_ratio(self.share.num, self.share.den),
        ;
        r
    }

    /// The percentage `numerator / denominator`, limited to the range from 0
    /// to 100, and zero where the denominator is zero.
    pub fn from_ratio(numerator: u64, denominator: u32) -> (r: Percent)
        ensures
            r.share == clamped_ratio(numerator, (100 * denominator) as u64),
            r.wf(),
            denominator == 0 ==> r.is_value(0, 1),
            denominator > 0 && numerator >= 100 * denominator ==> r.is_value(100, 1),
            denominator > 0 && numerator < 100 * denominator ==> r.is_value(
                numerator as int,
                denominator as int,
            ),
    {
        let whole: u64 = 100 * (denominator as u64);
        let r = Percent { share: fraction(numerator, whole) };
        assert(denominator > 0 && numerator < 100 * denominator ==> r.is_value(
            numerator as int,
            denominator as int,
        )) by (nonlinear_arith)
            requires
                denominator > 0 && numerator < 100 * denominator ==> r.share.num == numerator
                    && r.share.den == 100 * denominator,
        ;
        r
    }
}

impl Default for Percent {
    fn default() -> (r: Percent)
        ensures
            r.share == (Fraction { num: 0, den: 1 }),
    {
        Percent::zero()
    }
}

/// The number of cores to divide by: the reported one, or one core where the
/// platform reports none.
pub fn effective_cpu_count(available: Option<u32>) -> (r: u32)
    ensures
        r == match available {
            Some(n) => n,
            None => DEFAULT_CPU_COUNT,
        },
{
    match available {
        Some(n) => n,
        None => DEFAULT_CPU_COUNT,
    }
}

/// The share of the whole machine that a raw reading stands for: the reading
/// counts thousandths of a percent of one core, so that a process that
/// saturates four cores reads 400 000.
pub open spec fn machine_share(raw_cpu_millipercent: u64, cpu_count: u32) -> Fraction {
    if cpu_count == 0 {
        Fraction { num: 0, den: 1 }
    } else {
        clamped_ratio(raw_cpu_millipercent, (MILLIPERCENT_PER_CORE * cpu_count) as u64)
    }
}

/// Turns a raw CPU reading, in thousandths of a percent of one core, into a
/// percentage of the whole machine: the reading divided by the number of
/// cores, limited to the range from 0 to 100. With no cores the result is zero.
pub fn normalize_process_cpu(raw_cpu_millipercent: u64, cpu_count: u32) -> (r: Percent)
    ensures
        r.share == machine_share(raw_cpu_millipercent, cpu_count),
        r.wf(),
        cpu_count == 0 ==> r.is_value(0, 1),
        cpu_count > 0 && raw_cpu_millipercent >= 100 * MILLIPERCENT_PER_PERCENT * cpu_count
            ==> r.is_value(100, 1),
        cpu_count > 0 && raw_cpu_millipercent < 100 * MILLIPERCENT_PER_PERCENT * cpu_count
            ==> r.is_value(
            raw_cpu_millipercent as int,
            MILLIPERCENT_PER_PERCENT * cpu_count,
        ),
{
    if cpu_count == 0 {
        return Percent::zero();
    }
    let whole: u64 = MILLIPERCENT_PER_CORE * (cpu_count as u64);
    let r = Percent { share: fraction(raw_cpu_millipercent, whole) };
    assert(raw_cpu_millipercent < whole ==> r.is_value(
        raw_cpu_millipercent as int,
        1000 * cpu_count,
    )) by (nonlinear_arith)
        requires
            whole == 100_000 * cpu_count,
            raw_cpu_millipercent < whole ==> r.share.num == raw_cpu_millipercent && r.share.den
                == whole,
    ;
    r
}

} // verus!
