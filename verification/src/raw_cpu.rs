//! The raw CPU reading of the metrics source, taken from the bit pattern of
//! the single-precision number that the source hands out.
//!
//! The reading is turned into thousandths of a percent, the unit that
//! [`crate::fraction::normalize_process_cpu`] takes, with one exactly stated
//! rounding and nothing else lost.
use crate::fraction::MILLIPERCENT_PER_PERCENT;
use crate::text::{round_half_even, rounded_quotient};
use vstd::arithmetic::div_mod::{lemma_basic_div, lemma_small_mod};
use vstd::arithmetic::power2::{
    lemma2_to64, lemma2_to64_rest, lemma_pow2_strictly_increases, lemma_pow2_unfold, pow2,
};
use vstd::prelude::*;

verus! {

/// The sign bit is set: the number is negative, or a negative zero.
pub open spec fn is_negative(bits: u32) -> bool {
    bits >= 0x8000_0000
}

/// The eight exponent bits.
pub open spec fn exponent_bits(bits: u32) -> nat {
    ((bits as nat) / 0x80_0000) % 0x100
}

/// The twenty-three fraction bits.
pub open spec fn fraction_bits(bits: u32) -> nat {
    (bits as nat) % 0x80_0000
}

/// The bit pattern is not a number.
pub open spec fn is_nan(bits: u32) -> bool {
    exponent_bits(bits) == 0xFF && fraction_bits(bits) != 0
}

/// The bit pattern is an infinity.
pub open spec fn is_infinite(bits: u32) -> bool {
    exponent_bits(bits) == 0xFF && fraction_bits(bits) == 0
}

/// The integer that the fraction bits stand for, with the leading one of a
/// normal number.
pub open spec fn significand(bits: u32) -> nat {
    if exponent_bits(bits) == 0 {
        fraction_bits(bits)
    } else {
        0x80_0000 + fraction_bits(bits)
    }
}

/// The power of two that scales the significand: a finite number has the
/// magnitude `significand * 2^scale`.
pub open spec fn scale(bits: u32) -> int {
    if exponent_bits(bits) == 0 {
        -149
    } else {
        exponent_bits(bits) - 150
    }
}

/// The reading in thousandths of a percent: the number times one thousand,
/// rounded to the nearest integer, half to even, and limited to 64 bits. A
/// negative reading and one that is not a number count as zero.
pub open spec fn millipercent_of(bits: u32) -> nat {
    let thousandfold = significand(bits) * MILLIPERCENT_PER_PERCENT as nat;
    if is_negative(bits) || is_nan(bits) {
        0
    } else if is_infinite(bits) {
        u64::MAX as nat
    } else if scale(bits) >= 0 {
        if thousandfold * pow2(scale(bits) as nat) > u64::MAX {
            u64::MAX as nat
        } else {
            thousandfold * pow2(scale(bits) as nat)
        }
    } else {
        round_half_even(thousandfold, pow2((-scale(bits)) as nat))
    }
}

/// Two to the power of `exponent`.
pub fn power_of_two(exponent: u32) -> (power: u128)
    requires
        exponent <= 64,
    ensures
        power == pow2(exponent as nat),
        power <= 0x1_0000_0000_0000_0000,
{
    let mut power: u128 = 1;
    let mut i: u32 = 0;
    proof {
        lemma2_to64();
    }
    while i < exponent
        invariant
            i <= exponent <= 64,
            power == pow2(i as nat),
            power <= pow2(64),
            pow2(64) == 0x1_0000_0000_0000_0000,
        decreases exponent - i,
    {
        proof {
            lemma_pow2_unfold((i + 1) as nat);
            if i + 1 < 64 {
                lemma_pow2_strictly_increases((i + 1) as nat, 64);
            }
        }
        power = power * 2;
        i += 1;
    }
    power
}

/// `thousandfold * 2^shift`, limited to 64 bits.
fn scaled_up(thousandfold: u128, shift: u32) -> (millipercent: u64)
    requires
        0x80_0000 * 1000 <= thousandfold < 0x100_0000 * 1000,
        shift <= 104,
    ensures
        millipercent == if thousandfold * pow2(shift as nat) > u64::MAX {
            u64::MAX as int
        } else {
            thousandfold * pow2(shift as nat)
        },
{
    proof {
        lemma2_to64();
        lemma2_to64_rest();
    }
    if shift > 40 {
        proof {
            lemma_pow2_strictly_increases(40, shift as nat);
            assert(thousandfold * pow2(shift as nat) > u64::MAX) by (nonlinear_arith)
                requires
                    thousandfold >= 0x80_0000 * 1000,
                    pow2(shift as nat) > 0x100_0000_0000,
            ;
        }
        return u64::MAX;
    }
    let power = power_of_two(shift);
    proof {
        if shift < 40 {
            lemma_pow2_strictly_increases(shift as nat, 40);
        }
        assert(thousandfold * power <= 0x1_0000_0000 * 1000 * 0x100_0000_0000) by (nonlinear_arith)
            requires
                thousandfold <= 0x1_0000_0000 * 1000,
                power <= 0x100_0000_0000,
        ;
    }
    let product: u128 = thousandfold * power;
    if product > u64::MAX as u128 {
        u64::MAX
    } else {
        product as u64
    }
}

/// `thousandfold / 2^shift`, rounded to the nearest integer, half to even.
fn scaled_down(thousandfold: u128, shift: u32) -> (millipercent: u64)
    requires
        thousandfold < 0x100_0000 * 1000,
        1 <= shift <= 149,
    ensures
        millipercent == round_half_even(thousandfold as nat, pow2(shift as nat)),
{
    proof {
        lemma2_to64();
        lemma2_to64_rest();
    }
    if shift > 35 {
        proof {
            let d = pow2(shift as nat);
            lemma_pow2_strictly_increases(35, shift as nat);
            lemma_small_mod(thousandfold as nat, d);
            lemma_basic_div(thousandfold as int, d as int);
        }
        return 0;
    }
    let power = power_of_two(shift);
    proof {
        if shift < 35 {
            lemma_pow2_strictly_increases(shift as nat, 35);
        }
        assert(thousandfold / power <= thousandfold / 2) by (nonlinear_arith)
            requires
                power >= 2,
        ;
    }
    let rounded = rounded_quotient(thousandfold, power);
    rounded as u64
}

/// Turns the bit pattern of a raw CPU reading, a single-precision percentage
/// of one core, into thousandths of a percent.
pub fn millipercent_from_bits(bits: u32) -> (millipercent: u64)
    ensures
        millipercent == millipercent_of(bits),
{
    if bits >= 0x8000_0000 {
        return 0;
    }
    let exponent: u32 = (bits / 0x80_0000) % 0x100;
    let fraction: u32 = bits % 0x80_0000;
    if exponent == 0xFF {
        return if fraction != 0 {
            0
        } else {
            u64::MAX
        };
    }
    let mantissa: u128 = if exponent == 0 {
        fraction as u128
    } else {
        0x80_0000 + fraction as u128
    };
    let per_percent: u128 = MILLIPERCENT_PER_PERCENT as u128;
    let thousandfold: u128 = mantissa * per_percent;
    if exponent >= 150 {
        scaled_up(thousandfold, exponent - 150)
    } else if exponent == 0 {
        scaled_down(thousandfold, 149)
    } else {
        scaled_down(thousandfold, 150 - exponent)
    }
}

} // verus!
