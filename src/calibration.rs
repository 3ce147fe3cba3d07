//! The calibration curve of the gauge.
//!
//! The curve is `duty = (a·r² + b·r + c) × 6` with `a = -0.00036`,
//! `b = 0.52171` and `c = 35.98441`, `r` being the gauge reading. The
//! coefficients are held as integers in units of 1e-5, and readings as exact
//! fractions, so that the curve's value is computed exactly. The duty written
//! to the timer is that value rounded down and clamped into its range.
use vstd::prelude::*;
use vstd::arithmetic::div_mod::{
    lemma_fundamental_div_mod, lemma_fundamental_div_mod_converse, lemma_mod_pos_bound,
};

verus! {

/// Quadratic coefficient of the curve, in units of 1e-5.
pub const CURVE_A: i128 = -36;

/// Linear coefficient of the curve, in units of 1e-5.
pub const CURVE_B: i128 = 52171;

/// Constant term of the curve, in units of 1e-5.
pub const CURVE_C: i128 = 3598441;

/// The unit of the coefficients: they are multiples of 1 / CURVE_SCALE.
pub const CURVE_SCALE: i128 = 100000;

/// The factor between the curve's value and the timer's duty value.
pub const DUTY_FACTOR: i128 = 6;

/// The gauge reading that the channels are driven to before any command.
pub const STARTUP_READING: i32 = 150;

/// A command byte's full scale: 255 stands for one hundred percent.
pub const COMMAND_FULL_SCALE: u32 = 255;

/// The gauge reading of one percent of the dial.
pub const READING_PER_PERCENT: i32 = 3;

/// An exact fraction `num / den`: a percentage or a gauge reading.
#[derive(Clone, Copy, Debug, PartialEq, Eq, Structural)]
pub struct Fraction {
    pub num: i32,
    pub den: u32,
}

impl Fraction {
    /// A fraction is well formed when its denominator is positive.
    pub open spec fn wf(self) -> bool {
        self.den > 0
    }

    /// The whole number `n` as a fraction.
    pub fn whole(n: i32) -> (r: Fraction)
        ensures
            r == (Fraction { num: n, den: 1 }),
            r.wf(),
    {
        Fraction { num: n, den: 1 }
    }
}

/// Numerator of the curve's duty at reading `r`, over `duty_denominator(r)`.
pub open spec fn duty_numerator(r: Fraction) -> int {
    DUTY_FACTOR * (CURVE_A * r.num * r.num + CURVE_B * r.num * r.den + CURVE_C * r.den * r.den)
}

/// Denominator of the curve's duty at reading `r`.
pub open spec fn duty_denominator(r: Fraction) -> int {
    CURVE_SCALE * r.den * r.den
}

/// The curve's duty at reading `r`, rounded down to a whole duty.
pub open spec fn duty_of(r: Fraction) -> int {
    duty_numerator(r) / duty_denominator(r)
}

/// A value of the curve, exactly: `num / den`, with `den > 0`.
#[derive(Clone, Copy, Debug, PartialEq, Eq, Structural)]
pub struct CurveValue {
    pub num: i128,
    pub den: i128,
}

/// A duty clamped into the timer's range `[0, max_duty]`.
pub open spec fn clamped(d: int, max_duty: u16) -> u16 {
    if d < 0 {
        0
    } else if d > max_duty {
        max_duty
    } else {
        d as u16
    }
}

/// The percentage that command byte `b` asks for: `b / 255 × 100`.
pub open spec fn percentage_of(b: u8) -> Fraction {
    Fraction { num: (100 * b) as i32, den: COMMAND_FULL_SCALE }
}

/// The gauge reading of percentage `p`: `p × 3`.
pub open spec fn reading_of(p: Fraction) -> Fraction {
    Fraction { num: (READING_PER_PERCENT * p.num) as i32, den: p.den }
}

/// The duty written to the gauge's channels for command byte `b`.
pub open spec fn command_duty(b: u8, max_duty: u16) -> u16 {
    clamped(duty_of(reading_of(percentage_of(b))), max_duty)
}

/// The duty written to the gauge's channels at startup.
pub open spec fn startup_duty(max_duty: u16) -> u16 {
    clamped(duty_of(Fraction { num: STARTUP_READING, den: 1 }), max_duty)
}

/// The duty cycle of the calibration curve at gauge reading `r`, exactly,
/// as a fraction. It is not clamped: readings off the dial may give a
/// negative value or one above the timer's range.
pub fn duty_cycle_from_desired_gauge_reading(r: Fraction) -> (d: CurveValue)
    requires
        r.wf(),
    ensures
        d.num == duty_numerator(r),
        d.den == duty_denominator(r),
        d.den > 0,
{
    let n = r.num as i128;
    let m = r.den as i128;
    proof {
        assert(n * n <= 0x4000_0000_0000_0000) by (nonlinear_arith)
            requires -0x8000_0000 <= n < 0x8000_0000;
        assert(n * n >= 0) by (nonlinear_arith);
        assert(-0x8000_0000_0000_0000 <= n * m <= 0x8000_0000_0000_0000) by (nonlinear_arith)
            requires -0x8000_0000 <= n < 0x8000_0000, 0 < m < 0x1_0000_0000;
        assert(0 < m * m < 0x1_0000_0000_0000_0000) by (nonlinear_arith)
            requires 0 < m < 0x1_0000_0000;
    }
    let nn = n * n;
    let nm = n * m;
    let mm = m * m;
    let p = DUTY_FACTOR * (CURVE_A * nn + CURVE_B * nm + CURVE_C * mm);
    let q = CURVE_SCALE * mm;
    assert(p == duty_numerator(r)) by (nonlinear_arith)
        requires nn == n * n, nm == n * m, mm == m * m, n == r.num, m == r.den,
            p == DUTY_FACTOR * (CURVE_A * nn + CURVE_B * nm + CURVE_C * mm);
    assert(q == duty_denominator(r)) by (nonlinear_arith)
        requires mm == m * m, m == r.den, q == CURVE_SCALE * mm;
    CurveValue { num: p, den: q }
}

/// A curve value `d` rounded down to a whole duty.
pub fn truncate_duty(d: CurveValue) -> (t: i128)
    requires
        d.den > 0,
    ensures
        t == d.num / d.den,
{
    if d.num >= 0 {
        d.num / d.den
    } else {
        // -(num + 1) cannot overflow, and floor(num / den) is -(it / den) - 1.
        let m = -(d.num + 1);
        let k = m / d.den;
        let rem = m % d.den;
        proof {
            lemma_fundamental_div_mod(m as int, d.den as int);
            lemma_mod_pos_bound(m as int, d.den as int);
            assert(d.num == (-k - 1) * d.den + (d.den - rem - 1)) by (nonlinear_arith)
                requires m == d.den * k + rem, m == -(d.num + 1);
            lemma_fundamental_div_mod_converse(d.num as int, d.den as int, -k - 1, d.den - rem - 1);
        }
        -k - 1
    }
}

/// The desired percentage of command byte `b`: `b / 255 × 100`, exactly.
pub fn desired_percentage(b: u8) -> (p: Fraction)
    ensures
        p == percentage_of(b),
        p.wf(),
{
    Fraction { num: 100 * (b as i32), den: COMMAND_FULL_SCALE }
}

/// The gauge reading of percentage `p`: `p × 3`, exactly.
pub fn gauge_reading_from_percentage(p: Fraction) -> (r: Fraction)
    requires
        p.wf(),
        i32::MIN <= READING_PER_PERCENT * p.num <= i32::MAX,
    ensures
        r == reading_of(p),
        r.wf(),
{
    Fraction { num: READING_PER_PERCENT * p.num, den: p.den }
}

/// Clamps duty `d` into the timer's range `[0, max_duty]`.
pub fn clamp_duty(d: i128, max_duty: u16) -> (r: u16)
    ensures
        r == clamped(d as int, max_duty),
        r <= max_duty,
{
    if d < 0 {
        0
    } else if d > max_duty as i128 {
        max_duty
    } else {
        d as u16
    }
}

/// The duty written to the gauge's channels when command byte `b` arrives,
/// for a timer whose counter period is `max_duty`.
pub fn duty_for_command(b: u8, max_duty: u16) -> (r: u16)
    ensures
        r == command_duty(b, max_duty),
        r <= max_duty,
{
    let p = desired_percentage(b);
    let reading = gauge_reading_from_percentage(p);
    clamp_duty(truncate_duty(duty_cycle_from_desired_gauge_reading(reading)), max_duty)
}

/// The duty that the gauge's channels hold before any command arrives.
pub fn duty_at_startup(max_duty: u16) -> (r: u16)
    ensures
        r == startup_duty(max_duty),
        r <= max_duty,
{
    let reading = Fraction::whole(STARTUP_READING);
    clamp_duty(truncate_duty(duty_cycle_from_desired_gauge_reading(reading)), max_duty)
}

/// The duty that a command byte sets lies within the timer's range
/// `[0, max_duty]`.
pub proof fn lemma_command_duty_in_range(b: u8, max_duty: u16)
    ensures
        0 <= command_duty(b, max_duty) <= max_duty,
{
}

/// The quadratic form `a·n² + b·n·m + c·m²`, multiplied by `s²`, is the
/// same form at `n·s` and `m·s`.
proof fn lemma_quadratic_scaled(a: int, b: int, c: int, n: int, m: int, s: int)
    ensures
        (a * n * n + b * n * m + c * m * m) * (s * s) == a * (n * s) * (n * s) + b * (n * s) * (
        m * s) + c * (m * s) * (m * s),
{
    assert(a * n * n * (s * s) == a * (n * s) * (n * s)) by (nonlinear_arith);
    assert(b * n * m * (s * s) == b * (n * s) * (m * s)) by (nonlinear_arith);
    assert(c * m * m * (s * s) == c * (m * s) * (m * s)) by (nonlinear_arith);
    assert((a * n * n + b * n * m + c * m * m) * (s * s) == a * n * n * (s * s) + b * n * m * (s
        * s) + c * m * m * (s * s)) by (nonlinear_arith);
}

/// The calibration curve strictly increases over the dial: of two readings
/// in `[0, 300]`, the larger has the larger exact value.
pub proof fn lemma_curve_increasing(r1: Fraction, r2: Fraction)
    requires
        r1.wf(),
        r2.wf(),
        0 <= r1.num,
        r1.num * r2.den < r2.num * r1.den,
        r2.num <= 300 * r2.den,
    ensures
        duty_numerator(r1) * duty_denominator(r2) < duty_numerator(r2) * duty_denominator(r1),
{
    let x = r1.num as int;
    let y = r1.den as int;
    let u = r2.num as int;
    let v = r2.den as int;
    let delta = u * y - x * v;
    assert(u * y <= 300 * v * y) by (nonlinear_arith)
        requires u <= 300 * v, y > 0;
    assert(x * v < 300 * v * y) by (nonlinear_arith)
        requires x * v < u * y, u * y <= 300 * v * y;
    let slope = CURVE_A * (u * y + x * v) + CURVE_B * y * v;
    assert(y * v > 0) by (nonlinear_arith)
        requires y > 0, v > 0;
    assert(slope > 0) by (nonlinear_arith)
        requires slope == -36 * (u * y + x * v) + 52171 * y * v, u * y <= 300 * v * y,
            x * v < 300 * v * y, y * v > 0, x >= 0;
    assert(delta * slope > 0) by (nonlinear_arith)
        requires delta > 0, slope > 0;
    let c1 = CURVE_A * x * x + CURVE_B * x * y + CURVE_C * y * y;
    let c2 = CURVE_A * u * u + CURVE_B * u * v + CURVE_C * v * v;
    let p = u * y;
    let q = x * v;
    let w = y * v;
    lemma_quadratic_scaled(CURVE_A as int, CURVE_B as int, CURVE_C as int, u, v, y);
    lemma_quadratic_scaled(CURVE_A as int, CURVE_B as int, CURVE_C as int, x, y, v);
    assert(v * y == w) by (nonlinear_arith) requires w == y * v;
    assert(CURVE_A * p * p + CURVE_B * p * w - (CURVE_A * q * q + CURVE_B * q * w)
        == (p - q) * (CURVE_A * (p + q) + CURVE_B * w)) by (nonlinear_arith);
    assert(c2 * (y * y) == CURVE_A * p * p + CURVE_B * p * w + CURVE_C * w * w);
    assert(c1 * (v * v) == CURVE_A * q * q + CURVE_B * q * w + CURVE_C * w * w);
    assert(delta == p - q);
    assert(slope == CURVE_A * (p + q) + CURVE_B * w) by (nonlinear_arith)
        requires slope == CURVE_A * (u * y + x * v) + CURVE_B * y * v, p == u * y, q == x * v,
            w == y * v;
    assert(c2 * (y * y) - c1 * (v * v) == delta * slope);
    assert(duty_numerator(r1) * duty_denominator(r2) < duty_numerator(r2) * duty_denominator(r1))
        by (nonlinear_arith)
        requires c2 * (y * y) - c1 * (v * v) > 0,
            duty_numerator(r1) == DUTY_FACTOR * c1,
            duty_numerator(r2) == DUTY_FACTOR * c2,
            duty_denominator(r1) == CURVE_SCALE * y * y,
            duty_denominator(r2) == CURVE_SCALE * v * v;
}

} // verus!
