//! Warning and critical thresholds, and the severity of a usage against them.
use crate::fraction::{fraction, Fraction};
use vstd::prelude::*;

verus! {

/// Memory use counts as a warning from this percentage of the machine's memory.
pub const WARN_MEMORY_PERCENT: u64 = 70;

/// Memory use counts as critical from this percentage of the machine's memory.
pub const CRITICAL_MEMORY_PERCENT: u64 = 85;

/// CPU use counts as a warning from this percentage of the machine's capacity.
pub const WARN_CPU_PERCENT: u64 = 70;

/// CPU use counts as critical from this percentage of the machine's capacity.
pub const CRITICAL_CPU_PERCENT: u64 = 90;

/// How serious a usage is.
#[derive(Clone, Copy, Debug, PartialEq, Eq, Structural)]
pub enum Severity {
    Normal,
    Warning,
    Critical,
}

/// The colour a label is drawn in.
#[derive(Clone, Copy, Debug, PartialEq, Eq, Structural)]
pub enum Color {
    Muted,
    Warning,
    Error,
}

impl Severity {
    /// The colour that shows this severity.
    pub open spec fn spec_color(self) -> Color {
        match self {
            Severity::Normal => Color::Muted,
            Severity::Warning => Color::Warning,
            Severity::Critical => Color::Error,
        }
    }

    /// The colour that shows this severity.
    pub fn color(self) -> (c: Color)
        ensures
            c == self.spec_color(),
    {
        match self {
            Severity::Normal => Color::Muted,
            Severity::Warning => Color::Warning,
            Severity::Critical => Color::Error,
        }
    }
}

/// The severity of a usage against a warning and a critical threshold: each
/// threshold itself belongs to the higher tier.
pub open spec fn severity_of(usage: Fraction, warn: Fraction, critical: Fraction) -> Severity {
    if usage.ge(critical) {
        Severity::Critical
    } else if usage.ge(warn) {
        Severity::Warning
    } else {
        Severity::Normal
    }
}

/// A warning threshold below a critical one.
#[derive(Clone, Copy, Debug)]
pub struct Thresholds {
    pub warn: Fraction,
    pub critical: Fraction,
}

impl Thresholds {
    /// Both thresholds lie between zero and one, the warning one strictly
    /// below the critical one.
    pub open spec fn wf(self) -> bool {
        &&& self.warn.wf()
        &&& self.critical.wf()
        &&& self.warn.lt(self.critical)
    }

    /// The thresholds for memory use.
    pub fn memory() -> (t: Thresholds)
        ensures
            t.warn == (Fraction { num: WARN_MEMORY_PERCENT, den: 100 }),
            t.critical == (Fraction { num: CRITICAL_MEMORY_PERCENT, den: 100 }),
            t.wf(),
    {
        Thresholds { warn: warn_memory_ratio(), critical: critical_memory_ratio() }
    }

    /// The thresholds for CPU use.
    pub fn cpu() -> (t: Thresholds)
        ensures
            t.warn == (Fraction { num: WARN_CPU_PERCENT, den: 100 }),
            t.critical == (Fraction { num: CRITICAL_CPU_PERCENT, den: 100 }),
            t.wf(),
    {
        Thresholds { warn: warn_cpu_ratio(), critical: critical_cpu_ratio() }
    }

    /// Classifies a usage into exactly one severity.
    pub fn classify(&self, usage: Fraction) -> (s: Severity)
        ensures
            s == severity_of(usage, self.warn, self.critical),
    {
        if usage.at_least(&self.critical) {
            Severity::Critical
        } else if usage.at_least(&self.warn) {
            Severity::Warning
        } else {
            Severity::Normal
        }
    }
}

/// The share of memory from which use counts as a warning.
pub fn warn_memory_ratio() -> (r: Fraction)
    ensures
        r == (Fraction { num: WARN_MEMORY_PERCENT, den: 100 }),
{
    fraction(WARN_MEMORY_PERCENT, 100)
}

/// The share of memory from which use counts as critical.
pub fn critical_memory_ratio() -> (r: Fraction)
    ensures
        r == (Fraction { num: CRITICAL_MEMORY_PERCENT, den: 100 }),
{
    fraction(CRITICAL_MEMORY_PERCENT, 100)
}

/// The share of CPU capacity from which use counts as a warning.
pub fn warn_cpu_ratio() -> (r: Fraction)
    ensures
        r == (Fraction { num: WARN_CPU_PERCENT, den: 100 }),
{
    fraction(WARN_CPU_PERCENT, 100)
}

/// The share of CPU capacity from which use counts as critical.
pub fn critical_cpu_ratio() -> (r: Fraction)
    ensures
        r == (Fraction { num: CRITICAL_CPU_PERCENT, den: 100 }),
{
    fraction(CRITICAL_CPU_PERCENT, 100)
}

/// The colour for a usage against a warning and a critical threshold: the
/// error colour from the critical threshold upwards, the warning colour from
/// the warning threshold upwards, and the muted colour below both.
pub fn color_for_usage(
    fraction: Fraction,
    warn_threshold: Fraction,
    critical_threshold: Fraction,
) -> (c: Color)
    ensures
        c == severity_of(fraction, warn_threshold, critical_threshold).spec_color(),
        c == Color::Error <==> fraction.ge(critical_threshold),
        c == Color::Warning <==> fraction.lt(critical_threshold) && fraction.ge(warn_threshold),
        c == Color::Muted <==> fraction.lt(critical_threshold) && fraction.lt(warn_threshold),
{
    let thresholds = Thresholds { warn: warn_threshold, critical: critical_threshold };
    thresholds.classify(fraction).color()
}

/// With a warning threshold below the critical one, the three tiers split
/// every usage as stated: critical from the critical threshold upwards,
/// warning from the warning threshold up to the critical one, normal below the
/// warning threshold.
pub proof fn lemma_tiers_partition(usage: Fraction, thresholds: Thresholds)
    requires
        thresholds.wf(),
        usage.den > 0,
    ensures
        severity_of(usage, thresholds.warn, thresholds.critical) == Severity::Critical
            <==> usage.ge(thresholds.critical),
        severity_of(usage, thresholds.warn, thresholds.critical) == Severity::Warning
            <==> usage.ge(thresholds.warn) && usage.lt(thresholds.critical),
        severity_of(usage, thresholds.warn, thresholds.critical) == Severity::Normal
            <==> usage.lt(thresholds.warn),
{
    lemma_ge_transitive(usage, thresholds.critical, thresholds.warn);
}

/// The severity of a usage depends on the number only, not on the fraction
/// that writes it.
pub proof fn lemma_severity_depends_on_the_number_only(
    first: Fraction,
    second: Fraction,
    warn: Fraction,
    critical: Fraction,
)
    requires
        first.den > 0,
        second.den > 0,
        first.same(second),
    ensures
        severity_of(first, warn, critical) == severity_of(second, warn, critical),
{
    lemma_ge_depends_on_the_number_only(first, second, warn);
    lemma_ge_depends_on_the_number_only(first, second, critical);
}

/// Whether a usage reaches a threshold depends on the number only.
pub proof fn lemma_ge_depends_on_the_number_only(
    first: Fraction,
    second: Fraction,
    threshold: Fraction,
)
    requires
        first.den > 0,
        second.den > 0,
        first.same(second),
    ensures
        first.ge(threshold) == second.ge(threshold),
{
    let (a, b) = (first.num as int, first.den as int);
    let (c, d) = (second.num as int, second.den as int);
    let (n, m) = (threshold.num as int, threshold.den as int);
    assert((a * m >= n * b) == (c * m >= n * d)) by (nonlinear_arith)
        requires
            a * d == c * b,
            b > 0,
            d > 0,
            m >= 0,
            n >= 0,
            a >= 0,
            c >= 0,
    {
        assert((a * m) * d == (c * m) * b);
        assert((n * b) * d == (n * d) * b);
    }
}

/// If `a >= b` and `b >= c` as numbers, then `a >= c`.
pub proof fn lemma_ge_transitive(a: Fraction, b: Fraction, c: Fraction)
    requires
        a.den > 0,
        b.den > 0,
        c.den > 0,
    ensures
        a.ge(b) && b.ge(c) ==> a.ge(c),
{
    let (an, ad) = (a.num as int, a.den as int);
    let (bn, bd) = (b.num as int, b.den as int);
    let (cn, cd) = (c.num as int, c.den as int);
    if a.ge(b) && b.ge(c) {
        assert(an * bd * cd >= bn * ad * cd) by (nonlinear_arith)
            requires
                an * bd >= bn * ad,
                cd > 0,
        ;
        assert(bn * cd * ad >= cn * bd * ad) by (nonlinear_arith)
            requires
                bn * cd >= cn * bd,
                ad > 0,
        ;
        assert(bn * ad * cd == bn * cd * ad) by (nonlinear_arith);
        assert(an * bd * cd == (an * cd) * bd) by (nonlinear_arith);
        assert(cn * bd * ad == (cn * ad) * bd) by (nonlinear_arith);
        assert(an * cd >= cn * ad) by (nonlinear_arith)
            requires
                (an * cd) * bd >= (cn * ad) * bd,
                bd > 0,
        ;
    }
}

} // verus!
