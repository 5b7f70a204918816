//! Fixed-point scalars.
//!
//! A scalar is an `i64` holding a real value scaled by `FX_ONE` (2^20).
//! Products are truncated toward zero, matching the hardware behaviour a
//! caller would get from integer division.  The trigonometric helpers are
//! quarter-turn polynomials used by the circle tessellator; their results
//! stay within `TRIG_BOUND` of zero.

use vstd::prelude::*;
use vstd::arithmetic::power2::{
    pow2, lemma_pow2_adds, lemma_pow2_pos, lemma_pow2_subtracts, lemma_pow2_strictly_increases,
    lemma2_to64, lemma2_to64_rest,
};
use vstd::arithmetic::div_mod::{
    lemma_div_denominator, lemma_div_is_ordered, lemma_div_multiples_vanish,
    lemma_fundamental_div_mod, lemma_mod_bound,
};

verus! {

/// One whole unit in fixed-point scale.
pub const FX_ONE: i64 = 1048576;

/// Largest magnitude accepted by [`fx_mul`]; squares of it still fit in `i64`.
pub const FX_LIM: i64 = 3000000000;

/// Division by a positive divisor, truncated toward zero.
pub open spec fn tdiv(a: int, b: int) -> int {
    if a >= 0 {
        a / b
    } else {
        -((-a) / b)
    }
}

/// The fixed-point product of `a` and `b`.
pub open spec fn fx_mul_spec(a: int, b: int) -> int {
    tdiv(a * b, FX_ONE as int)
}

/// Half of `a`, truncated toward zero.
pub open spec fn fx_half_spec(a: int) -> int {
    tdiv(a, 2)
}

proof fn lemma_tdiv_bound(a: int, b: int)
    requires
        b > 0,
    ensures
        a >= 0 ==> 0 <= tdiv(a, b) <= a,
        a < 0 ==> a <= tdiv(a, b) <= 0,
{
    if a >= 0 {
        assert(0 <= a / b <= a) by (nonlinear_arith)
            requires
                a >= 0,
                b > 0,
        ;
    } else {
        assert(0 <= (-a) / b <= -a) by (nonlinear_arith)
            requires
                -a >= 0,
                b > 0,
        ;
    }
}

/// Truncating division of `a` by a positive `b`, as exec code.
fn div_trunc(a: i64, b: i64) -> (r: i64)
    requires
        b > 0,
        a > i64::MIN,
    ensures
        r == tdiv(a as int, b as int),
{
    proof {
        lemma_tdiv_bound(a as int, b as int);
    }
    if a >= 0 {
        ((a as u64) / (b as u64)) as i64
    } else {
        let m: u64 = (-a) as u64;
        -(((m / (b as u64))) as i64)
    }
}

/// Fixed-point multiplication: the scaled product, truncated toward zero.
pub fn fx_mul(a: i64, b: i64) -> (r: i64)
    requires
        -FX_LIM <= a <= FX_LIM,
        -FX_LIM <= b <= FX_LIM,
    ensures
        r == fx_mul_spec(a as int, b as int),
{
    proof {
        assert(-FX_LIM * FX_LIM <= a * b <= FX_LIM * FX_LIM) by (nonlinear_arith)
            requires
                -FX_LIM <= a <= FX_LIM,
                -FX_LIM <= b <= FX_LIM,
        ;
    }
    let p: i64 = a * b;
    div_trunc(p, FX_ONE)
}

/// Half of a scalar, truncated toward zero.
pub fn fx_half(a: i64) -> (r: i64)
    requires
        a > i64::MIN,
    ensures
        r == fx_half_spec(a as int),
{
    div_trunc(a, 2)
}

/// The negation of a scalar.
pub fn fx_neg(a: i64) -> (r: i64)
    requires
        a > i64::MIN,
    ensures
        r == -a,
{
    -a
}

/// Quarter-turn sine polynomial coefficients, in fixed-point scale:
/// the Taylor expansion of `sin(u * pi / 2)` for `u` in `[0, 1]`.
pub const SIN_C1: i64 = 1647099;

pub const SIN_C3: i64 = -677342;

pub const SIN_C5: i64 = 83564;

pub const SIN_C7: i64 = -4909;

pub const SIN_C9: i64 = 168;

/// Quarter-turn cosine polynomial coefficients: `cos(u * pi / 2)`.
pub const COS_C0: i64 = 1048576;

pub const COS_C2: i64 = -1293629;

pub const COS_C4: i64 = 265992;

pub const COS_C6: i64 = -21877;

pub const COS_C8: i64 = 964;

/// Magnitude bound on the quarter-turn polynomial values.
pub const TRIG_BOUND: i64 = 2700000;

/// `sin(u * pi / 2)` for a quarter-turn fraction `u` in `[0, FX_ONE]`.
pub open spec fn sinq_spec(u: int) -> int {
    let u2 = fx_mul_spec(u, u);
    let s9 = SIN_C9 as int;
    let s7 = fx_mul_spec(s9, u2) + SIN_C7;
    let s5 = fx_mul_spec(s7, u2) + SIN_C5;
    let s3 = fx_mul_spec(s5, u2) + SIN_C3;
    let s1 = fx_mul_spec(s3, u2) + SIN_C1;
    fx_mul_spec(s1, u)
}

/// `cos(u * pi / 2)` for a quarter-turn fraction `u` in `[0, FX_ONE]`.
pub open spec fn cosq_spec(u: int) -> int {
    let u2 = fx_mul_spec(u, u);
    let c8 = COS_C8 as int;
    let c6 = fx_mul_spec(c8, u2) + COS_C6;
    let c4 = fx_mul_spec(c6, u2) + COS_C4;
    let c2 = fx_mul_spec(c4, u2) + COS_C2;
    fx_mul_spec(c2, u2) + COS_C0
}

/// A product scaled down by a factor in `[0, FX_ONE]` keeps its magnitude bound.
proof fn lemma_fx_mul_unit_bound(a: int, b: int, m: int)
    requires
        -m <= a <= m,
        0 <= b <= FX_ONE,
        0 <= m,
    ensures
        -m <= fx_mul_spec(a, b) <= m,
{
    assert(-(m * FX_ONE) <= a * b <= m * FX_ONE) by (nonlinear_arith)
        requires
            -m <= a <= m,
            0 <= b <= FX_ONE,
            0 <= m,
    ;
    lemma_tdiv_bound(a * b, FX_ONE as int);
    if a * b >= 0 {
        assert((a * b) / (FX_ONE as int) <= m) by (nonlinear_arith)
            requires
                0 <= a * b <= m * FX_ONE,
        ;
    } else {
        assert((-(a * b)) / (FX_ONE as int) <= m) by (nonlinear_arith)
            requires
                0 <= -(a * b) <= m * FX_ONE,
        ;
    }
}

/// The square of a quarter-turn fraction stays in `[0, FX_ONE]`.
proof fn lemma_unit_square(u: int)
    requires
        0 <= u <= FX_ONE,
    ensures
        0 <= fx_mul_spec(u, u) <= FX_ONE,
{
    assert(0 <= u * u <= FX_ONE * FX_ONE) by (nonlinear_arith)
        requires
            0 <= u <= FX_ONE,
    ;
    lemma_tdiv_bound(u * u, FX_ONE as int);
    assert((u * u) / (FX_ONE as int) <= FX_ONE) by (nonlinear_arith)
        requires
            0 <= u * u <= FX_ONE * FX_ONE,
    ;
}

/// The quarter-turn sine, on fractions of a quarter turn.
pub fn fx_sin_quarter(u: i64) -> (r: i64)
    requires
        0 <= u <= FX_ONE,
    ensures
        r == sinq_spec(u as int),
        -TRIG_BOUND <= r <= TRIG_BOUND,
{
    proof {
        lemma_unit_square(u as int);
    }
    let u2 = fx_mul(u, u);
    let s9: i64 = SIN_C9;
    proof {
        lemma_fx_mul_unit_bound(s9 as int, u2 as int, 168);
    }
    let s7 = fx_mul(s9, u2) + SIN_C7;
    proof {
        lemma_fx_mul_unit_bound(s7 as int, u2 as int, 5077);
    }
    let s5 = fx_mul(s7, u2) + SIN_C5;
    proof {
        lemma_fx_mul_unit_bound(s5 as int, u2 as int, 88641);
    }
    let s3 = fx_mul(s5, u2) + SIN_C3;
    proof {
        lemma_fx_mul_unit_bound(s3 as int, u2 as int, 765983);
    }
    let s1 = fx_mul(s3, u2) + SIN_C1;
    proof {
        lemma_fx_mul_unit_bound(s1 as int, u as int, 2413082);
    }
    fx_mul(s1, u)
}

/// The quarter-turn cosine, on fractions of a quarter turn.
pub fn fx_cos_quarter(u: i64) -> (r: i64)
    requires
        0 <= u <= FX_ONE,
    ensures
        r == cosq_spec(u as int),
        -TRIG_BOUND <= r <= TRIG_BOUND,
{
    proof {
        lemma_unit_square(u as int);
    }
    let u2 = fx_mul(u, u);
    let c8: i64 = COS_C8;
    proof {
        lemma_fx_mul_unit_bound(c8 as int, u2 as int, 964);
    }
    let c6 = fx_mul(c8, u2) + COS_C6;
    proof {
        lemma_fx_mul_unit_bound(c6 as int, u2 as int, 22841);
    }
    let c4 = fx_mul(c6, u2) + COS_C4;
    proof {
        lemma_fx_mul_unit_bound(c4 as int, u2 as int, 288833);
    }
    let c2 = fx_mul(c4, u2) + COS_C2;
    proof {
        lemma_fx_mul_unit_bound(c2 as int, u2 as int, 1582462);
    }
    fx_mul(c2, u2) + COS_C0
}

/// The quarter-turn fraction and quadrant of step `i` out of `n` around a turn:
/// the pair `(q, u)` with the turn fraction `i / n` equal to `(q + u / FX_ONE) / 4`.
pub open spec fn turn_phase_spec(i: int, n: int) -> (int, int) {
    let p = (FX_ONE * i) / n;
    let t = 4 * p;
    (t / (FX_ONE as int), t % (FX_ONE as int))
}

/// `cos(2 * pi * i / n)` in fixed point.
pub open spec fn cos_turn_spec(i: int, n: int) -> int {
    let (q, u) = turn_phase_spec(i, n);
    if q == 0 {
        cosq_spec(u)
    } else if q == 1 {
        -sinq_spec(u)
    } else if q == 2 {
        -cosq_spec(u)
    } else {
        sinq_spec(u)
    }
}

/// `sin(2 * pi * i / n)` in fixed point.
pub open spec fn sin_turn_spec(i: int, n: int) -> int {
    let (q, u) = turn_phase_spec(i, n);
    if q == 0 {
        sinq_spec(u)
    } else if q == 1 {
        cosq_spec(u)
    } else if q == 2 {
        -sinq_spec(u)
    } else {
        -cosq_spec(u)
    }
}

/// Scaling by one whole unit is the identity.
pub proof fn lemma_fx_mul_one(a: int)
    ensures
        fx_mul_spec(a, FX_ONE as int) == a,
{
    if a >= 0 {
        lemma_div_multiples_vanish(a, FX_ONE as int);
        assert(a * FX_ONE == FX_ONE * a) by (nonlinear_arith);
    } else {
        lemma_div_multiples_vanish(-a, FX_ONE as int);
        assert(-(a * FX_ONE) == FX_ONE * (-a)) by (nonlinear_arith);
    }
}

/// Scaling zero, or by zero, gives zero.
pub proof fn lemma_fx_mul_zero(a: int)
    ensures
        fx_mul_spec(a, 0) == 0,
        fx_mul_spec(0, a) == 0,
{
    assert(a * 0 == 0) by (nonlinear_arith);
    assert(0 * a == 0) by (nonlinear_arith);
}

/// The turn starts on the axis: at step 0 of any turn the cosine is
/// exactly one whole unit and the sine exactly zero.
pub proof fn lemma_turn_starts_at_unit(n: int)
    requires
        n >= 1,
    ensures
        cos_turn_spec(0, n) == FX_ONE,
        sin_turn_spec(0, n) == 0,
{
    assert((FX_ONE as int) * 0 == 0) by (nonlinear_arith);
    assert(0int / n == 0);
    assert(turn_phase_spec(0, n) == (0int, 0int));
    lemma_fx_mul_zero(0);
    lemma_fx_mul_zero(SIN_C9 as int);
    lemma_fx_mul_zero(SIN_C7 as int);
    lemma_fx_mul_zero(SIN_C5 as int);
    lemma_fx_mul_zero(SIN_C3 as int);
    lemma_fx_mul_zero(SIN_C1 as int);
    lemma_fx_mul_zero(COS_C8 as int);
    lemma_fx_mul_zero(COS_C6 as int);
    lemma_fx_mul_zero(COS_C4 as int);
    lemma_fx_mul_zero(COS_C2 as int);
    assert(sinq_spec(0) == 0);
    assert(cosq_spec(0) == FX_ONE);
}

/// The quadrant and quarter-turn fraction of step `i` out of `n`.
fn turn_phase(i: u32, n: u32) -> (r: (u64, i64))
    requires
        0 < n,
        i < n,
    ensures
        (r.0 as int, r.1 as int) == turn_phase_spec(i as int, n as int),
        r.0 <= 3,
        0 <= r.1 < FX_ONE,
{
    let p: u64 = ((FX_ONE as u64) * (i as u64)) / (n as u64);
    proof {
        assert(((FX_ONE as u64) * (i as u64)) as int / (n as int) < FX_ONE) by (nonlinear_arith)
            requires
                0 <= (i as int) < (n as int),
                ((FX_ONE as u64) * (i as u64)) as int == (FX_ONE as int) * (i as int),
        ;
    }
    let t: u64 = 4 * p;
    let q: u64 = t / (FX_ONE as u64);
    let u: u64 = t % (FX_ONE as u64);
    (q, u as i64)
}

/// The fixed-point cosine of the angle `2 * pi * i / n`.
pub fn fx_cos_turn(i: u32, n: u32) -> (r: i64)
    requires
        0 < n,
        i < n,
    ensures
        r == cos_turn_spec(i as int, n as int),
        -TRIG_BOUND <= r <= TRIG_BOUND,
{
    let (q, u) = turn_phase(i, n);
    if q == 0 {
        fx_cos_quarter(u)
    } else if q == 1 {
        -fx_sin_quarter(u)
    } else if q == 2 {
        -fx_cos_quarter(u)
    } else {
        fx_sin_quarter(u)
    }
}

/// The exponent of the highest power of two not above `m`.
pub open spec fn log2_floor(m: nat) -> nat
    decreases m,
{
    if m < 2 {
        0
    } else {
        1 + log2_floor(m / 2)
    }
}

/// The bits of the IEEE 754 single-precision number nearest to the real
/// value `v / FX_ONE`, ties to even.  Every scalar's real value is far
/// inside the single-precision range, so the result is always finite and
/// normal (or zero).
pub open spec fn f32_bits_spec(v: i64) -> int {
    if v == 0 {
        0
    } else {
        let sign: int = if v < 0 {
            0x80000000
        } else {
            0
        };
        let m: nat = (if v < 0 {
            -(v as int)
        } else {
            v as int
        }) as nat;
        let h = log2_floor(m);
        if h <= 23 {
            sign + (h + 107) * 0x800000 + (m * pow2((23 - h) as nat) - 0x800000)
        } else {
            let s = (h - 23) as nat;
            let q0 = m / pow2(s);
            let rem = m % pow2(s);
            let half = pow2((s - 1) as nat);
            let q: nat = if rem > half || (rem == half && q0 % 2 == 1) {
                q0 + 1
            } else {
                q0
            };
            if q == 0x1000000 {
                sign + (h + 108) * 0x800000
            } else {
                sign + (h + 107) * 0x800000 + (q - 0x800000)
            }
        }
    }
}

/// The floor of the base-two logarithm, by repeated halving.
fn log2_floor_u64(m: u64) -> (h: u32)
    requires
        m >= 1,
    ensures
        h == log2_floor(m as nat),
        h <= 63,
        pow2(h as nat) <= m < pow2(h as nat + 1),
{
    proof {
        lemma2_to64();
        lemma2_to64_rest();
    }
    let mut t: u64 = m;
    let mut h: u32 = 0;
    while t >= 2
        invariant
            1 <= t,
            t as nat == (m as nat) / pow2(h as nat),
            pow2(h as nat) <= m as nat,
            h <= 63,
            log2_floor(m as nat) == h + log2_floor(t as nat),
        decreases t,
    {
        proof {
            lemma_pow2_pos(h as nat);
            lemma_pow2_adds(h as nat, 1);
            lemma2_to64();
            lemma_fundamental_div_mod(m as int, pow2(h as nat) as int);
            lemma_mod_bound(m as int, pow2(h as nat) as int);
            assert(m as nat >= 2 * pow2(h as nat)) by (nonlinear_arith)
                requires
                    m as int == (pow2(h as nat) as int) * (t as int) + (m as int) % (pow2(
                        h as nat,
                    ) as int),
                    t >= 2,
                    (m as int) % (pow2(h as nat) as int) >= 0,
                    pow2(h as nat) > 0,
            ;
            if h >= 63 {
                lemma2_to64_rest();
                assert(false);
            }
            lemma_div_denominator(m as int, pow2(h as nat) as int, 2);
        }
        t = t / 2;
        h = h + 1;
    }
    proof {
        lemma_pow2_pos(h as nat);
        lemma_fundamental_div_mod(m as int, pow2(h as nat) as int);
        lemma_mod_bound(m as int, pow2(h as nat) as int);
        lemma_pow2_adds(h as nat, 1);
        lemma2_to64();
        assert((m as nat) < 2 * pow2(h as nat)) by (nonlinear_arith)
            requires
                m as int == (pow2(h as nat) as int) * (t as int) + (m as int) % (pow2(
                    h as nat,
                ) as int),
                t == 1,
                (m as int) % (pow2(h as nat) as int) < pow2(h as nat),
                pow2(h as nat) > 0,
        ;
    }
    h
}

/// `2^e` as a machine word.
fn pow2_u64(e: u32) -> (r: u64)
    requires
        e <= 63,
    ensures
        r as nat == pow2(e as nat),
        r >= 1,
{
    proof {
        lemma2_to64();
    }
    let mut r: u64 = 1;
    let mut k: u32 = 0;
    while k < e
        invariant
            k <= e,
            e <= 63,
            r as nat == pow2(k as nat),
        decreases e - k,
    {
        proof {
            lemma_pow2_adds(k as nat, 1);
            lemma2_to64();
            if (k as nat) < 63 {
                lemma_pow2_strictly_increases(k as nat, 63);
            }
            lemma2_to64_rest();
        }
        r = r * 2;
        k = k + 1;
    }
    proof {
        lemma_pow2_pos(k as nat);
    }
    r
}

/// The IEEE 754 single-precision bits nearest to `v / FX_ONE`, computed in
/// integer arithmetic alone: normalize the magnitude to a 24-bit mantissa,
/// round to nearest with ties to even, and pack sign, exponent and
/// mantissa fields.
pub fn fx_to_f32_bits(v: i64) -> (r: u32)
    ensures
        r == f32_bits_spec(v),
{
    if v == 0 {
        return 0;
    }
    let sign: u32 = if v < 0 {
        0x80000000
    } else {
        0
    };
    let m: u64 = if v == i64::MIN {
        9223372036854775808u64
    } else if v < 0 {
        (-v) as u64
    } else {
        v as u64
    };
    let h: u32 = log2_floor_u64(m);
    proof {
        lemma2_to64();
        lemma2_to64_rest();
    }
    if h <= 23 {
        let p: u64 = pow2_u64(23 - h);
        proof {
            lemma_pow2_adds(h as nat + 1, (23 - h) as nat);
            lemma_pow2_adds(h as nat, (23 - h) as nat);
            assert((m as nat) * (p as nat) < pow2(24)) by (nonlinear_arith)
                requires
                    (m as nat) < pow2(h as nat + 1),
                    p as nat == pow2((23 - h) as nat),
                    p >= 1,
                    pow2(h as nat + 1) * pow2((23 - h) as nat) == pow2(24),
            ;
            assert((m as nat) * (p as nat) >= pow2(23)) by (nonlinear_arith)
                requires
                    (m as nat) >= pow2(h as nat),
                    p as nat == pow2((23 - h) as nat),
                    pow2(h as nat) * pow2((23 - h) as nat) == pow2(23),
            ;
        }
        let frac: u64 = m * p;
        sign + (h + 107) * 0x800000 + (frac as u32 - 0x800000)
    } else {
        let s: u32 = h - 23;
        let p: u64 = pow2_u64(s);
        let half: u64 = p / 2;
        let q0: u64 = m / p;
        let rem: u64 = m % p;
        proof {
            lemma_pow2_subtracts(s as nat, h as nat);
            lemma_div_is_ordered(pow2(h as nat) as int, m as int, p as int);
            lemma_pow2_adds(24, s as nat);
            assert((m as nat) / (p as nat) < pow2(24)) by (nonlinear_arith)
                requires
                    (m as nat) < pow2(h as nat + 1),
                    p as nat == pow2(s as nat),
                    p >= 1,
                    pow2(h as nat + 1) <= pow2(24) * pow2(s as nat),
            ;
            lemma_pow2_adds((s - 1) as nat, 1);
            lemma2_to64();
            if h as nat + 1 <= 24 + s as nat {
                lemma_pow2_strictly_increases(h as nat, 24 + s as nat);
            }
        }
        let q: u64 = if rem > half || (rem == half && q0 % 2 == 1) {
            q0 + 1
        } else {
            q0
        };
        if q == 0x1000000 {
            sign + (h + 108) * 0x800000
        } else {
            sign + (h + 107) * 0x800000 + (q as u32 - 0x800000)
        }
    }
}

/// The fixed-point sine of the angle `2 * pi * i / n`.
pub fn fx_sin_turn(i: u32, n: u32) -> (r: i64)
    requires
        0 < n,
        i < n,
    ensures
        r == sin_turn_spec(i as int, n as int),
        -TRIG_BOUND <= r <= TRIG_BOUND,
{
    let (q, u) = turn_phase(i, n);
    if q == 0 {
        fx_sin_quarter(u)
    } else if q == 1 {
        fx_cos_quarter(u)
    } else if q == 2 {
        -fx_sin_quarter(u)
    } else {
        -fx_cos_quarter(u)
    }
}

} // verus!
