//! Doubles as bit patterns (IEEE 754 binary64), read with integer arithmetic alone.

use vstd::arithmetic::power2::pow2;
use vstd::prelude::*;

verus! {

/// The bits of one.
pub const ONE: u64 = 0x3ff0_0000_0000_0000;

/// The bits of positive infinity: every pattern from zero up to it is a non-negative number, in
/// order.
pub const INFINITY: u64 = 0x7ff0_0000_0000_0000;

/// Two to the power of 52, the weight of a significand's leading bit.
pub const LEADING: u64 = 0x10_0000_0000_0000;

pub open spec fn negative(bits: u64) -> bool {
    bits >= 0x8000_0000_0000_0000
}

/// The biased exponent.
pub open spec fn exponent(bits: u64) -> int {
    bits as int / LEADING as int % 2048
}

/// The significand of a normal number, with its leading bit.
pub open spec fn significand(bits: u64) -> int {
    LEADING + bits as int % LEADING as int
}

pub open spec fn not_a_number(bits: u64) -> bool {
    exponent(bits) == 2047 && bits as int % LEADING as int != 0
}

/// The magnitude without its fraction: the significand scaled by the exponent, rounded towards
/// zero. (A subnormal number has none; infinity exceeds every bound that is asked for.)
pub open spec fn whole(bits: u64) -> int {
    let e = exponent(bits);
    if e == 0 {
        0
    } else if e < 1075 {
        significand(bits) / pow2((1075 - e) as nat) as int
    } else {
        significand(bits) * pow2((e - 1075) as nat)
    }
}

/// The integer next to the double on the side of zero, within the bounds; zero where the double is
/// not a number.
pub open spec fn truncated(bits: u64, least: int, most: int) -> int {
    let exact = if negative(bits) {
        -whole(bits)
    } else {
        whole(bits)
    };
    if not_a_number(bits) {
        0
    } else if exact < least {
        least
    } else if exact > most {
        most
    } else {
        exact
    }
}

/// The double is the whole number `n`, not below zero, or a little above it.
pub open spec fn stands_for(bits: u64, n: int) -> bool {
    !not_a_number(bits) && !negative(bits) && whole(bits) == n
}

/// Is the double greater than zero?
pub open spec fn positive(bits: u64) -> bool {
    0 < bits <= INFINITY
}

/// The whole magnitude, or `0x1_0000_0000` where that is less.
fn whole_up_to_cap(bits: u64) -> (r: u64)
    ensures
        r == if whole(bits) < 0x1_0000_0000 {
            whole(bits)
        } else {
            0x1_0000_0000
        },
{
    let e: u64 = bits / LEADING % 2048;
    let m: u64 = LEADING + bits % LEADING;
    if e < 1023 {
        proof {
            if e > 0 {
                vstd::arithmetic::power2::lemma2_to64_rest();
                if e < 1022 {
                    vstd::arithmetic::power2::lemma_pow2_strictly_increases(
                        53,
                        (1075 - e) as nat,
                    );
                }
                vstd::arithmetic::div_mod::lemma_basic_div(
                    m as int,
                    pow2((1075 - e) as nat) as int,
                );
            }
        }
        return 0;
    }
    if e > 1055 {
        proof {
            vstd::arithmetic::power2::lemma2_to64();
            vstd::arithmetic::power2::lemma2_to64_rest();
            if e < 1075 {
                let d = pow2((1075 - e) as nat) as int;
                vstd::arithmetic::power2::lemma_pow2_pos((1075 - e) as nat);
                if e > 1056 {
                    vstd::arithmetic::power2::lemma_pow2_strictly_increases(
                        (1075 - e) as nat,
                        19,
                    );
                }
                assert(m as int / d >= 0x1_0000_0000) by (nonlinear_arith)
                    requires
                        0 < d <= 0x8_0000,
                        m >= 0x10_0000_0000_0000,
                ;
            } else {
                let d = pow2((e - 1075) as nat) as int;
                vstd::arithmetic::power2::lemma_pow2_pos((e - 1075) as nat);
                assert(m * d >= 0x1_0000_0000) by (nonlinear_arith)
                    requires
                        1 <= d,
                        m >= 0x10_0000_0000_0000,
                ;
            }
        }
        return 0x1_0000_0000;
    }
    let shift: u64 = 1075 - e;
    let r: u64 = m >> shift;
    proof {
        vstd::bits::lemma_u64_shr_is_div(m, shift);
    }
    if r < 0x1_0000_0000 {
        r
    } else {
        0x1_0000_0000
    }
}

fn is_not_a_number(bits: u64) -> (r: bool)
    ensures
        r == not_a_number(bits),
{
    bits / LEADING % 2048 == 2047 && bits % LEADING != 0
}

/// The double as a `u32`: rounded towards zero and clamped, as an `as` cast does.
pub fn to_u32(bits: u64) -> (r: u32)
    ensures
        r == truncated(bits, 0, u32::MAX as int),
{
    let w: u64 = whole_up_to_cap(bits);
    proof {
        lemma_whole_not_negative(bits);
    }
    if is_not_a_number(bits) || bits >= 0x8000_0000_0000_0000 {
        0
    } else if w > u32::MAX as u64 {
        u32::MAX
    } else {
        w as u32
    }
}

/// The double as an `i32`: rounded towards zero and clamped, as an `as` cast does.
pub fn to_i32(bits: u64) -> (r: i32)
    ensures
        r == truncated(bits, i32::MIN as int, i32::MAX as int),
{
    let w: u64 = whole_up_to_cap(bits);
    proof {
        lemma_whole_not_negative(bits);
    }
    if is_not_a_number(bits) {
        0
    } else if bits >= 0x8000_0000_0000_0000 {
        if w > 0x8000_0000 {
            i32::MIN
        } else {
            (-(w as i64)) as i32
        }
    } else if w > 0x7fff_ffff {
        i32::MAX
    } else {
        w as i32
    }
}

/// Is the double greater than zero?
pub fn is_positive(bits: u64) -> (r: bool)
    ensures
        r == positive(bits),
{
    0 < bits && bits <= INFINITY
}

proof fn lemma_whole_not_negative(bits: u64)
    ensures
        whole(bits) >= 0,
{
    let e = exponent(bits);
    if 0 < e < 1075 {
        let d = pow2((1075 - e) as nat) as int;
        vstd::arithmetic::power2::lemma_pow2_pos((1075 - e) as nat);
        let m = significand(bits);
        assert(m / d >= 0) by (nonlinear_arith)
            requires
                d > 0,
                m >= 0,
        ;
    } else if e >= 1075 {
        let d = pow2((e - 1075) as nat) as int;
        let m = significand(bits);
        assert(m * d >= 0) by (nonlinear_arith)
            requires
                d >= 0,
                m >= 0,
        ;
    }
}

/// How the bits of a double are read: a sign, an exponent and a fraction. The value is the fraction
/// with its leading bit, scaled by the exponent, and its whole part the greatest integer that does
/// not exceed it.
pub proof fn law_whole_is_the_integer_part(bits: u64, minus: bool, e: int, f: int)
    requires
        0 <= e < 2048,
        0 <= f < 0x10_0000_0000_0000,
        bits == (if minus {
            0x8000_0000_0000_0000int
        } else {
            0
        }) + e * 0x10_0000_0000_0000 + f,
    ensures
        negative(bits) == minus,
        not_a_number(bits) <==> e == 2047 && f != 0,
        positive(bits) <==> !minus && (e != 0 || f != 0) && !(e == 2047 && f != 0),
        e < 1023 ==> whole(bits) == 0,
        1023 <= e <= 1075 ==> whole(bits) * pow2((1075 - e) as nat) <= 0x10_0000_0000_0000 + f < (
        whole(bits) + 1) * pow2((1075 - e) as nat),
        1075 < e ==> whole(bits) == (0x10_0000_0000_0000 + f) * pow2((e - 1075) as nat),
{
    assert(exponent(bits) == e);
    let m = 0x10_0000_0000_0000 + f;
    assert(significand(bits) == m);
    if 0 < e < 1023 {
        vstd::arithmetic::power2::lemma2_to64_rest();
        if e < 1022 {
            vstd::arithmetic::power2::lemma_pow2_strictly_increases(53, (1075 - e) as nat);
        }
        vstd::arithmetic::div_mod::lemma_basic_div(m, pow2((1075 - e) as nat) as int);
    }
    if 1023 <= e < 1075 {
        let d = pow2((1075 - e) as nat) as int;
        vstd::arithmetic::power2::lemma_pow2_pos((1075 - e) as nat);
        let w = m / d;
        assert(w * d <= m < (w + 1) * d) by (nonlinear_arith)
            requires
                d > 0,
                w == m / d,
        ;
    }
    if e == 1075 {
        vstd::arithmetic::power2::lemma2_to64();
    }
}

/// A double becomes an integer by losing its fraction, whatever its sign, and keeps within the
/// bounds. What is not a number becomes zero, and infinity the bound on its side.
pub proof fn law_truncation_drops_the_fraction(
    bits: u64,
    minus: bool,
    e: int,
    f: int,
    least: int,
    most: int,
)
    requires
        0 <= e < 2048,
        0 <= f < 0x10_0000_0000_0000,
        bits == (if minus {
            0x8000_0000_0000_0000int
        } else {
            0
        }) + e * 0x10_0000_0000_0000 + f,
        -0x1_0000_0000 <= least <= 0 <= most <= 0x1_0000_0000,
    ensures
        e == 2047 && f != 0 ==> truncated(bits, least, most) == 0,
        e == 2047 && f == 0 ==> truncated(bits, least, most) == if minus {
            least
        } else {
            most
        },
        e < 2047 && !minus ==> truncated(bits, least, most) == if whole(bits) < most {
            whole(bits)
        } else {
            most
        },
        e < 2047 && minus ==> truncated(bits, least, most) == if -whole(bits) > least {
            -whole(bits)
        } else {
            least
        },
{
    law_whole_is_the_integer_part(bits, minus, e, f);
    lemma_whole_not_negative(bits);
    if e == 2047 {
        let d = pow2(972) as int;
        vstd::arithmetic::power2::lemma_pow2_pos(972);
        let m = 0x10_0000_0000_0000 + f;
        assert(m * d >= m) by (nonlinear_arith)
            requires
                d >= 1,
                m >= 0,
        ;
    }
}

} // verus!
