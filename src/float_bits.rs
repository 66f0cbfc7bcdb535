use vstd::prelude::*;
use vstd::arithmetic::power2::{
    pow2, lemma2_to64, lemma_pow2_pos, lemma_pow2_unfold, lemma_pow2_adds,
    lemma_pow2_strictly_increases,
};
use vstd::arithmetic::div_mod::{lemma_fundamental_div_mod_converse, lemma_basic_div};
use vstd::arithmetic::mul::{lemma_mul_increases, lemma_mul_strict_inequality};

verus! {

// An IEEE-754 single-precision value is carried as its 32-bit pattern, the form it has on
// the DIS wire: sign bit, 8 exponent bits, 23 fraction bits.

pub open spec fn f32_negative(bits: u32) -> bool {
    bits >= 0x8000_0000
}

pub open spec fn f32_exponent(bits: u32) -> nat {
    ((bits / 0x80_0000) % 256) as nat
}

pub open spec fn f32_fraction(bits: u32) -> nat {
    (bits % 0x80_0000) as nat
}

/// Neither an infinity nor a NaN.
pub open spec fn f32_is_finite(bits: u32) -> bool {
    f32_exponent(bits) != 255
}

/// The integer significand, with the implicit leading bit of normal numbers.
pub open spec fn f32_significand(bits: u32) -> nat {
    if f32_exponent(bits) == 0 {
        f32_fraction(bits)
    } else {
        f32_fraction(bits) + 0x80_0000
    }
}

/// The power of two that scales the significand: |value| = significand * 2^scale.
pub open spec fn f32_scale(bits: u32) -> int {
    if f32_exponent(bits) == 0 {
        -149
    } else {
        f32_exponent(bits) - 150
    }
}

/// The magnitude of a finite value rounded to the nearest integer, halves away from zero
/// (2.5 gives 3, -42.5 gives -43), as `f32::round` does. Ties are not rounded to even:
/// the received power of -42.5 dBm is carried in C-DIS as -43.
pub open spec fn rounded_magnitude(bits: u32) -> nat {
    let sig = f32_significand(bits);
    let k = f32_scale(bits);
    if k >= 0 {
        sig * pow2(k as nat)
    } else {
        (2 * sig + pow2((-k) as nat)) / pow2((1 - k) as nat)
    }
}

/// A finite value rounded to the nearest integer, halves away from zero.
pub open spec fn rounded_value(bits: u32) -> int {
    if f32_negative(bits) {
        -(rounded_magnitude(bits) as int)
    } else {
        rounded_magnitude(bits) as int
    }
}

/// The value rounded to a 16-bit integer; zero where it is not finite or does not fit.
pub open spec fn f32_to_i16_rounded(bits: u32) -> i16 {
    if f32_is_finite(bits) && i16::MIN <= rounded_value(bits) <= i16::MAX {
        rounded_value(bits) as i16
    } else {
        0
    }
}

/// Index of the highest set bit of a positive number.
pub open spec fn msb(a: nat) -> nat
    decreases a,
{
    if a <= 1 {
        0
    } else {
        1 + msb(a / 2)
    }
}

/// The single-precision pattern of a 16-bit integer, which it represents exactly.
pub open spec fn i16_to_f32(x: i16) -> u32 {
    if x == 0 {
        0
    } else {
        let a: nat = if x < 0 {
            (-x) as nat
        } else {
            x as nat
        };
        let p = msb(a);
        let sign: nat = if x < 0 {
            0x8000_0000
        } else {
            0
        };
        (sign + (127 + p) * 0x80_0000 + (a - pow2(p)) * pow2((23 - p) as nat)) as u32
    }
}

/// 2^k as a machine integer.
pub fn pow2_u64(k: u32) -> (r: u64)
    requires
        k <= 62,
    ensures
        r == pow2(k as nat),
{
    proof {
        lemma2_to64();
    }
    let mut p: u64 = 1;
    let mut i: u32 = 0;
    while i < k
        invariant
            i <= k <= 62,
            p == pow2(i as nat),
        decreases k - i,
    {
        proof {
            lemma_pow2_unfold((i + 1) as nat);
            lemma_pow2_strictly_increases((i + 1) as nat, 64);
            lemma2_to64();
        }
        p = p * 2;
        i = i + 1;
    }
    p
}

/// Rounds a single-precision value to the nearest 16-bit integer, halves away from zero;
/// infinities, NaNs and values out of range give zero.
pub fn f32_bits_to_i16_rounded(bits: u32) -> (r: i16)
    ensures
        r == f32_to_i16_rounded(bits),
{
    let negative = bits >= 0x8000_0000;
    let exponent = (bits / 0x80_0000) % 256;
    let fraction = bits % 0x80_0000;
    if exponent == 255 {
        return 0;
    }
    if exponent >= 150 {
        proof {
            let k = (exponent - 150) as nat;
            lemma_pow2_pos(k);
            lemma_mul_increases(pow2(k) as int, f32_significand(bits) as int);
        }
        return 0;
    }
    let sig: u64 = if exponent == 0 {
        fraction as u64
    } else {
        fraction as u64 + 0x80_0000
    };
    let k: u32 = if exponent == 0 {
        149
    } else {
        150 - exponent
    };
    assert(k as int == -f32_scale(bits));
    if k > 40 {
        proof {
            lemma2_to64();
            lemma_pow2_strictly_increases(25, k as nat);
            lemma_pow2_unfold((k + 1) as nat);
            lemma_basic_div((2 * sig + pow2(k as nat)) as int, pow2((k + 1) as nat) as int);
        }
        return 0;
    }
    let p = pow2_u64(k);
    proof {
        lemma2_to64();
        lemma_pow2_unfold((k + 1) as nat);
        lemma_pow2_unfold(64);
        lemma_pow2_strictly_increases((k + 1) as nat, 64);
        lemma_pow2_pos(k as nat);
    }
    let mag: u64 = (2 * sig + p) / (2 * p);
    assert(mag == rounded_magnitude(bits));
    if negative {
        if mag <= 32768 {
            (0i32 - mag as i32) as i16
        } else {
            0
        }
    } else {
        if mag <= 32767 {
            mag as i16
        } else {
            0
        }
    }
}

pub proof fn lemma_msb_bounds(a: nat)
    requires
        a >= 1,
    ensures
        pow2(msb(a)) <= a < pow2(msb(a) + 1),
    decreases a,
{
    lemma2_to64();
    if a > 1 {
        lemma_msb_bounds(a / 2);
        lemma_pow2_unfold(msb(a / 2) + 1);
        lemma_pow2_unfold(msb(a / 2) + 2);
    }
}

/// Widens a 16-bit integer to the single-precision pattern of the same value.
pub fn i16_to_f32_bits(x: i16) -> (r: u32)
    ensures
        r == i16_to_f32(x),
{
    if x == 0 {
        return 0;
    }
    let a: u32 = if x < 0 {
        (0i32 - x as i32) as u32
    } else {
        x as u32
    };
    proof {
        lemma2_to64();
    }
    let mut t: u32 = a;
    let mut p: u32 = 0;
    let mut pp: u32 = 1;
    while t > 1
        invariant
            1 <= t,
            1 <= a <= 32768,
            pp == pow2(p as nat),
            msb(a as nat) == p + msb(t as nat),
            pp * t <= a,
            a < pp * (t + 1),
            p <= 15,
        decreases t,
    {
        let t2 = t / 2;
        proof {
            lemma_pow2_unfold((p + 1) as nat);
            lemma2_to64();
            assert(2 * pp * t2 <= a) by (nonlinear_arith)
                requires
                    pp * t <= a,
                    t2 == t / 2,
                    t >= 2,
                    pp >= 1,
            ;
            assert(a < 2 * pp * (t2 + 1)) by (nonlinear_arith)
                requires
                    a < pp * (t + 1),
                    t2 == t / 2,
                    t >= 2,
                    pp >= 1,
            ;
            assert(2 * pp <= 32768) by (nonlinear_arith)
                requires
                    2 * pp * t2 <= a,
                    a <= 32768,
                    t2 >= 1,
                    pp >= 1,
            ;
            if p + 1 > 15 {
                lemma_pow2_strictly_increases(15, (p + 1) as nat);
            }
        }
        t = t2;
        p = p + 1;
        pp = pp * 2;
    }
    proof {
        lemma_msb_bounds(a as nat);
        lemma_pow2_adds(p as nat, (23 - p) as nat);
        lemma_pow2_pos((23 - p) as nat);
        lemma_mul_strict_inequality((a - pp) as int, pp as int, pow2((23 - p) as nat) as int);
    }
    let q = pow2_u64(23 - p) as u32;
    let sign: u32 = if x < 0 {
        0x8000_0000
    } else {
        0
    };
    sign + (127 + p) * 0x80_0000 + (a - pp) * q
}

/// Widening a 16-bit integer to single precision and rounding it back gives the integer again.
pub proof fn lemma_i16_f32_round_trip(x: i16)
    ensures
        f32_to_i16_rounded(i16_to_f32(x)) == x,
{
    lemma2_to64();
    let bits = i16_to_f32(x);
    if x == 0 {
        lemma_pow2_strictly_increases(149, 150);
        lemma_basic_div(pow2(149) as int, pow2(150) as int);
        assert(f32_exponent(bits) == 0);
        assert(rounded_magnitude(bits) == 0);
    } else {
        let a: nat = if x < 0 {
            (-x) as nat
        } else {
            x as nat
        };
        let p = msb(a);
        lemma_msb_bounds(a);
        if p >= 16 {
            lemma_pow2_strictly_increases(15, p);
        }
        assert(p <= 15);
        let k = (23 - p) as nat;
        let q = pow2(k);
        let pp = pow2(p);
        lemma_pow2_adds(p, k);
        lemma_pow2_pos(k);
        lemma_mul_strict_inequality((a - pp) as int, pp as int, q as int);
        let f = (a - pp) * q;
        let e = 127 + p;
        let s: nat = if x < 0 {
            1
        } else {
            0
        };
        assert(bits as int == (256 * s + e) * 0x80_0000 + f);
        lemma_fundamental_div_mod_converse(bits as int, 0x80_0000, (256 * s + e) as int, f as int);
        lemma_fundamental_div_mod_converse((256 * s + e) as int, 256, s as int, e as int);
        assert(f32_exponent(bits) == e);
        assert(f32_fraction(bits) == f);
        assert(f32_negative(bits) == (x < 0));
        assert(f32_significand(bits) == a * q) by (nonlinear_arith)
            requires
                f32_significand(bits) == f + 0x80_0000,
                f == (a - pp) * q,
                pp * q == 0x80_0000,
                a >= pp,
        ;
        assert(f32_scale(bits) == -(k as int));
        lemma_pow2_unfold(k + 1);
        assert(2 * (a * q) + q == a * (2 * q) + q) by (nonlinear_arith);
        lemma_fundamental_div_mod_converse((2 * (a * q) + q) as int, (2 * q) as int, a as int, q as int);
        assert(rounded_magnitude(bits) == a);
    }
}

/// A finite value and its rounding differ by at most one half:
/// |significand / 2^d - rounded| <= 1/2, where 2^d is the divisor of the significand.
pub proof fn lemma_rounding_within_half(bits: u32)
    requires
        f32_is_finite(bits),
        f32_scale(bits) < 0,
    ensures
        ({
            let d = pow2((-f32_scale(bits)) as nat) as int;
            let diff = f32_significand(bits) as int - rounded_magnitude(bits) as int * d;
            -d <= 2 * diff < d
        }),
{
    let k = (-f32_scale(bits)) as nat;
    let d = pow2(k) as int;
    let sig = f32_significand(bits) as int;
    lemma_pow2_pos(k);
    lemma_pow2_unfold(k + 1);
    assert((1 - f32_scale(bits)) as nat == k + 1);
    let n = 2 * sig + d;
    let m = rounded_magnitude(bits) as int;
    assert(m == n / (2 * d));
    vstd::arithmetic::div_mod::lemma_fundamental_div_mod(n, 2 * d);
    vstd::arithmetic::div_mod::lemma_mod_bound(n, 2 * d);
    assert(-d <= 2 * (sig - m * d) < d) by (nonlinear_arith)
        requires
            n == (2 * d) * m + n % (2 * d),
            0 <= n % (2 * d) < 2 * d,
            n == 2 * sig + d,
    ;
}

/// Integers are carried exactly: a value with no fractional part rounds to itself.
pub proof fn lemma_rounding_exact_for_integers(bits: u32)
    requires
        f32_scale(bits) >= 0,
    ensures
        rounded_magnitude(bits) == f32_significand(bits) * pow2(f32_scale(bits) as nat),
{
}

} // verus!
