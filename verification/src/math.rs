//! Integer-only stigmergy, share and loss math.
//!
//! Ratios are basis points (1e-4), pheromone and deposits use a 1e6 fixed-point
//! scale, every ratio widens to 128 bits and multiplies before it divides, and
//! every division truncates toward zero.
use vstd::prelude::*;

verus! {

pub const BPS_DENOM: u128 = 10_000;
pub const BPS_DENOM_I: i128 = 10_000;

/// Fixed-point scale for pheromone and deposits.
pub const FP6: i128 = 1_000_000;

/// Working scale for the tanh evaluation, FP12.
const TANH_W: i128 = 1_000_000_000_000;

// ---------------------------------------------------------------------------
// Integer helpers of the specification
// ---------------------------------------------------------------------------

/// Division truncating toward zero, as Rust's signed `/` does, for a positive
/// divisor.
pub open spec fn div_trunc(a: int, b: int) -> int {
    if a >= 0 {
        a / b
    } else {
        -((-a) / b)
    }
}

/// Saturation of a mathematical integer into `i64`.
pub open spec fn clamp_i64(v: int) -> i64 {
    if v < i64::MIN {
        i64::MIN
    } else if v > i64::MAX {
        i64::MAX
    } else {
        v as i64
    }
}

pub open spec fn min_int(a: int, b: int) -> int {
    if a <= b {
        a
    } else {
        b
    }
}

pub open spec fn max_int(a: int, b: int) -> int {
    if a >= b {
        a
    } else {
        b
    }
}

pub(crate) fn clamp_to_i64(v: i128) -> (r: i64)
    ensures
        r == clamp_i64(v as int),
{
    if v < i64::MIN as i128 {
        i64::MIN
    } else if v > i64::MAX as i128 {
        i64::MAX
    } else {
        v as i64
    }
}

// ---------------------------------------------------------------------------
// tanh in fixed point
// ---------------------------------------------------------------------------

pub open spec fn tanh_scale() -> int {
    1_000_000_000_000
}

/// Number of halvings the range reduction applies to an FP12 argument.
pub open spec fn tanh_halvings(u: nat) -> nat
    decreases u,
{
    if u >= tanh_scale() / 4 {
        1 + tanh_halvings(u / 2)
    } else {
        0
    }
}

/// The FP12 argument once range reduction is done.
pub open spec fn tanh_reduced(u: nat) -> nat
    decreases u,
{
    if u >= tanh_scale() / 4 {
        tanh_reduced(u / 2)
    } else {
        u
    }
}

/// The odd Taylor series `u - u^3/3 + 2u^5/15 - 17u^7/315`, by Horner in `u^2`,
/// every step truncated toward zero.
pub open spec fn tanh_series(u: int) -> int {
    let w = tanh_scale();
    let u2 = u * u / w;
    let a0 = div_trunc(-17 * w, 315);
    let a1 = 2 * w / 15 + div_trunc(a0 * u2, w);
    let a2 = -(w / 3) + div_trunc(a1 * u2, w);
    let a3 = w + div_trunc(a2 * u2, w);
    div_trunc(u * a3, w)
}

/// One step of `tanh(2u) = 2 tanh(u) / (1 + tanh(u)^2)` in FP12.
pub open spec fn tanh_double(t: int) -> int {
    let w = tanh_scale();
    div_trunc(2 * t * w * w, w * w + t * t)
}

/// `k` double-angle steps.
pub open spec fn tanh_undo(t: int, k: nat) -> int
    decreases k,
{
    if k == 0 {
        t
    } else {
        tanh_undo(tanh_double(t), (k - 1) as nat)
    }
}

/// tanh of a clamped FP6 magnitude `ax`, in FP6, rounded half up and held
/// strictly under one.
pub open spec fn tanh_magnitude(ax: nat) -> int {
    let u0 = ax * 1_000_000;
    let t = tanh_undo(tanh_series(tanh_reduced(u0) as int), tanh_halvings(u0));
    let r = div_trunc(t + 500_000, 1_000_000);
    if r > 999_999 {
        999_999
    } else {
        r
    }
}

/// The published fixed-point tanh: clamp `|x|` to 8, reduce by halving, sum
/// the series, undo the reduction by double angles, round to FP6, cap at
/// `999_999`, and reapply the sign.
pub open spec fn spec_tanh_fp6(x: i64) -> i64 {
    if x == 0 {
        0
    } else {
        let ax = min_int(if x < 0 { -x } else { x as int }, 8_000_000) as nat;
        let r = tanh_magnitude(ax);
        if x < 0 {
            (-r) as i64
        } else {
            r as i64
        }
    }
}

pub open spec fn pow_two(n: nat) -> nat
    decreases n,
{
    if n == 0 {
        1
    } else {
        2 * pow_two((n - 1) as nat)
    }
}

proof fn lemma_tanh_halvings_bounded(u: nat, n: nat)
    requires
        u < 250_000_000_000 * pow_two(n),
    ensures
        tanh_halvings(u) <= n,
    decreases n,
{
    if u >= tanh_scale() / 4 {
        assert(n > 0);
        assert(pow_two(n) == 2 * pow_two((n - 1) as nat));
        lemma_tanh_halvings_bounded(u / 2, (n - 1) as nat);
    }
}

proof fn lemma_tanh_reduced_small(u: nat)
    ensures
        tanh_reduced(u) < tanh_scale() / 4,
        tanh_reduced(u) <= u,
    decreases u,
{
    if u >= tanh_scale() / 4 {
        lemma_tanh_reduced_small(u / 2);
    }
}

/// Bounds of the series on a reduced argument: `0 <= series(u) < W/4`.
proof fn lemma_tanh_series_bounds(u: int)
    requires
        0 <= u < 250_000_000_000,
    ensures
        0 <= tanh_series(u) < 250_000_000_000,
{
    let w = tanh_scale();
    let u2 = u * u / w;
    assert(0 <= u * u <= 62_500_000_000_000_000_000_000) by (nonlinear_arith)
        requires
            0 <= u < 250_000_000_000,
    ;
    assert(0 <= u2 <= 62_500_000_000);
    let a0 = div_trunc(-17 * w, 315);
    assert(a0 == -53_968_253_968);
    assert(-3_373_015_873_000_000_000_000 <= a0 * u2 <= 0) by (nonlinear_arith)
        requires
            a0 == -53_968_253_968,
            0 <= u2 <= 62_500_000_000,
    ;
    let a1 = 2 * w / 15 + div_trunc(a0 * u2, w);
    assert(129_000_000_000 <= a1 <= 133_333_333_333);
    assert(0 <= a1 * u2 <= 8_333_333_333_312_500_000_000) by (nonlinear_arith)
        requires
            129_000_000_000 <= a1 <= 133_333_333_333,
            0 <= u2 <= 62_500_000_000,
    ;
    let a2 = -(w / 3) + div_trunc(a1 * u2, w);
    assert(-333_333_333_333 <= a2 <= -325_000_000_000);
    assert(-20_833_333_333_312_500_000_000 <= a2 * u2 <= 0) by (nonlinear_arith)
        requires
            -333_333_333_333 <= a2 <= -325_000_000_000,
            0 <= u2 <= 62_500_000_000,
    ;
    let a3 = w + div_trunc(a2 * u2, w);
    assert(979_000_000_000 <= a3 <= 1_000_000_000_000);
    assert(0 <= u * a3 < 250_000_000_000 * 1_000_000_000_000) by (nonlinear_arith)
        requires
            979_000_000_000 <= a3 <= 1_000_000_000_000,
            0 <= u < 250_000_000_000,
    ;
}

proof fn lemma_tanh_double_bounds(t: int)
    requires
        0 <= t <= tanh_scale(),
    ensures
        0 <= tanh_double(t) <= tanh_scale(),
{
    let w = tanh_scale();
    assert(0 <= 2 * t * w * w <= w * (w * w + t * t)) by (nonlinear_arith)
        requires
            0 <= t <= w,
            w == 1_000_000_000_000,
    ;
    assert(w * w + t * t > 0) by (nonlinear_arith)
        requires
            w == 1_000_000_000_000,
    ;
    assert((2 * t * w * w) / (w * w + t * t) <= w) by (nonlinear_arith)
        requires
            0 <= 2 * t * w * w <= w * (w * w + t * t),
            w * w + t * t > 0,
    ;
    assert(0 <= (2 * t * w * w) / (w * w + t * t)) by (nonlinear_arith)
        requires
            0 <= 2 * t * w * w,
            w * w + t * t > 0,
    ;
}

proof fn lemma_tanh_undo_bounds(t: int, k: nat)
    requires
        0 <= t <= tanh_scale(),
    ensures
        0 <= tanh_undo(t, k) <= tanh_scale(),
    decreases k,
{
    if k > 0 {
        lemma_tanh_double_bounds(t);
        lemma_tanh_undo_bounds(tanh_double(t), (k - 1) as nat);
    }
}

/// `0 <= tanh_magnitude(ax) <= 999_999` on every clamped magnitude.
pub proof fn lemma_tanh_magnitude_bounds(ax: nat)
    requires
        ax <= 8_000_000,
    ensures
        0 <= tanh_magnitude(ax) <= 999_999,
{
    let u0 = ax * 1_000_000;
    lemma_tanh_reduced_small(u0);
    lemma_tanh_series_bounds(tanh_reduced(u0) as int);
    lemma_tanh_undo_bounds(tanh_series(tanh_reduced(u0) as int), tanh_halvings(u0));
}

/// tanh of an FP6 argument, returned in FP6.
///
/// Odd, bounded strictly inside `(-1, 1)`: `|tanh_fp6(x)| <= 999_999`, and
/// `|x| >= 8` saturates.
pub fn tanh_fp6(x_fp6: i64) -> (r: i64)
    ensures
        r == spec_tanh_fp6(x_fp6),
        -999_999 <= r <= 999_999,
        x_fp6 == 0 ==> r == 0,
        x_fp6 > 0 ==> r >= 0,
        x_fp6 < 0 ==> r <= 0,
{
    if x_fp6 == 0 {
        return 0;
    }
    let negative = x_fp6 < 0;

    // Clamp the magnitude, then promote FP6 -> FP12.
    let abs_x: i128 = if negative { -(x_fp6 as i128) } else { x_fp6 as i128 };
    let ax: i128 = if abs_x < 8 * 1_000_000 { abs_x } else { 8 * 1_000_000 };
    let mut u: i128 = ax * 1_000_000;
    let ghost u0: nat = u as nat;
    assert(ax as nat == min_int(if x_fp6 < 0 { -x_fp6 } else { x_fp6 as int }, 8_000_000) as nat);
    assert(u0 == (ax as nat) * 1_000_000);

    proof {
        reveal_with_fuel(pow_two, 7);
        assert(pow_two(6) == 64);
        lemma_tanh_halvings_bounded(u0, 6);
    }

    // Range reduction: halve until the series argument is small.
    let mut k: u32 = 0;
    while u >= TANH_W / 4
        invariant
            0 <= u <= u0,
            u0 <= 8_000_000_000_000,
            tanh_reduced(u as nat) == tanh_reduced(u0),
            k + tanh_halvings(u as nat) == tanh_halvings(u0),
            tanh_halvings(u0) <= 6,
        decreases u,
    {
        u = u / 2;
        k = k + 1;
    }
    proof {
        lemma_tanh_series_bounds(u as int);
    }

    // Odd series, evaluated by Horner in u^2.
    assert(0 <= u * u <= 62_500_000_000_000_000_000_000) by (nonlinear_arith)
        requires
            0 <= u < 250_000_000_000,
    ;
    let u2 = u * u / TANH_W;
    let mut acc = (-17 * TANH_W) / 315;
    assert(-3_373_015_873_000_000_000_000 <= acc * u2 <= 0) by (nonlinear_arith)
        requires
            acc == -53_968_253_968,
            0 <= u2 <= 62_500_000_000,
    ;
    acc = (2 * TANH_W) / 15 + acc * u2 / TANH_W;
    assert(0 <= acc * u2 <= 8_333_333_333_312_500_000_000) by (nonlinear_arith)
        requires
            129_000_000_000 <= acc <= 133_333_333_333,
            0 <= u2 <= 62_500_000_000,
    ;
    acc = -(TANH_W / 3) + acc * u2 / TANH_W;
    assert(-20_833_333_333_312_500_000_000 <= acc * u2 <= 0) by (nonlinear_arith)
        requires
            -333_333_333_333 <= acc <= -325_000_000_000,
            0 <= u2 <= 62_500_000_000,
    ;
    acc = TANH_W + acc * u2 / TANH_W;
    assert(0 <= u * acc < 250_000_000_000 * 1_000_000_000_000) by (nonlinear_arith)
        requires
            979_000_000_000 <= acc <= 1_000_000_000_000,
            0 <= u < 250_000_000_000,
    ;
    let mut t = u * acc / TANH_W;
    assert(t == tanh_series(u as int));

    // Undo the reduction by double angles.
    let mut i: u32 = 0;
    while i < k
        invariant
            0 <= t <= tanh_scale(),
            i <= k,
            tanh_undo(t as int, (k - i) as nat) == tanh_undo(
                tanh_series(tanh_reduced(u0) as int),
                tanh_halvings(u0),
            ),
        decreases k - i,
    {
        proof {
            lemma_tanh_double_bounds(t as int);
            let w = tanh_scale();
            assert(2 * t * w * w <= 2_000_000_000_000_000_000_000_000_000_000_000_000) by (
            nonlinear_arith)
                requires
                    0 <= t <= w,
                    w == 1_000_000_000_000,
            ;
            assert(t * t <= w * w) by (nonlinear_arith)
                requires
                    0 <= t <= w,
            ;
        }
        t = (2 * t * TANH_W * TANH_W) / (TANH_W * TANH_W + t * t);
        i = i + 1;
    }
    proof {
        lemma_tanh_undo_bounds(tanh_series(tanh_reduced(u0) as int), tanh_halvings(u0));
    }

    // FP12 -> FP6, rounding half up.
    let mut r = (t + 500_000) / 1_000_000;
    if r > 999_999 {
        r = 999_999;
    }
    assert(r == tanh_magnitude(ax as nat));
    if negative {
        -(r as i64)
    } else {
        r as i64
    }
}


/// tanh is odd: `tanh_fp6(-x) == -tanh_fp6(x)` wherever `-x` is an `i64`.
pub proof fn lemma_tanh_is_odd(x: i64)
    requires
        x > i64::MIN,
    ensures
        spec_tanh_fp6((-x) as i64) == -spec_tanh_fp6(x),
{
    if x != 0 {
        let ax = min_int(if x < 0 { -x } else { x as int }, 8_000_000) as nat;
        lemma_tanh_magnitude_bounds(ax);
    }
}

/// tanh depends on its argument only through the sign and the magnitude
/// clamped at 8.
pub proof fn lemma_tanh_saturates(x: i64, y: i64)
    requires
        x >= 8_000_000,
        y >= 8_000_000,
    ensures
        spec_tanh_fp6(x) == spec_tanh_fp6(y),
        spec_tanh_fp6(-x as i64) == spec_tanh_fp6(-y as i64),
{
    lemma_tanh_magnitude_bounds(8_000_000);
}

// ---------------------------------------------------------------------------
// tanh is monotone
// ---------------------------------------------------------------------------

/// The Horner coefficients of the series, as functions of `u2 = u^2 / W`.
spec fn series_a1(v: int) -> int {
    2 * tanh_scale() / 15 + div_trunc(div_trunc(-17 * tanh_scale(), 315) * v, tanh_scale())
}

spec fn series_a2(v: int) -> int {
    -(tanh_scale() / 3) + div_trunc(series_a1(v) * v, tanh_scale())
}

spec fn series_a3(v: int) -> int {
    tanh_scale() + div_trunc(series_a2(v) * v, tanh_scale())
}

proof fn lemma_series_unfolds(u: int)
    ensures
        tanh_series(u) == div_trunc(u * series_a3(u * u / tanh_scale()), tanh_scale()),
{
}

/// Adding at most one divisor's worth moves a floor quotient by at most one.
proof fn lemma_floor_step(x: int, d: int, w: int)
    requires
        0 <= x,
        0 <= d <= w,
        0 < w,
    ensures
        x / w <= (x + d) / w <= x / w + 1,
{
    vstd::arithmetic::div_mod::lemma_div_is_ordered(x, x + d, w);
    vstd::arithmetic::div_mod::lemma_div_is_ordered(x + d, x + w, w);
    vstd::arithmetic::div_mod::lemma_hoist_over_denominator(x, 1, w as nat);
}

/// Sizes and step bounds of the coefficients on the reduced range.
proof fn lemma_series_coefficients(v: int)
    requires
        0 <= v,
        v + 1 <= 62_500_000_000,
    ensures
        129_000_000_000 <= series_a1(v) <= 133_333_333_333,
        series_a1(v) - 1 <= series_a1(v + 1) <= series_a1(v),
        -333_333_333_333 <= series_a2(v) < 0,
        series_a2(v) <= series_a2(v + 1),
        -333_333_333_333 <= series_a2(v + 1) < 0,
        970_000_000_000 <= series_a3(v) <= 1_000_000_000_000,
        series_a3(v) - 1 <= series_a3(v + 1) <= 1_000_000_000_000,
{
    let w: int = 1_000_000_000_000;
    let c: int = 53_968_253_968;
    assert(div_trunc(-17 * tanh_scale(), 315) == -c);
    assert(0 <= c * v && c * (v + 1) == c * v + c && c * (v + 1) <= c * 62_500_000_000)
        by (nonlinear_arith)
        requires
            0 <= v,
            v + 1 <= 62_500_000_000,
            c > 0,
    ;
    let f0 = (c * v) / w;
    let f1 = (c * (v + 1)) / w;
    lemma_floor_step(c * v, c, w);
    vstd::arithmetic::div_mod::lemma_div_is_ordered(c * (v + 1), 3_373_015_873_000_000_000_000int, w);
    assert(f1 <= 3_400_000_000);
    assert(div_trunc(-c * v, w) == -f0);
    assert(div_trunc(-c * (v + 1), w) == -f1);
    let a1 = series_a1(v);
    let b1 = series_a1(v + 1);
    assert(a1 == 133_333_333_333 - f0);
    assert(b1 == 133_333_333_333 - f1);
    // a2 = -W/3 + (a1 * v) / W, with a1 * v growing in v.
    assert(0 <= a1 * v <= b1 * (v + 1) <= 133_333_333_333 * 62_500_000_000) by (nonlinear_arith)
        requires
            b1 >= a1 - 1,
            a1 >= v + 1,
            b1 <= 133_333_333_333,
            0 <= v,
            v + 1 <= 62_500_000_000,
    ;
    let g0 = (a1 * v) / w;
    let g1 = (b1 * (v + 1)) / w;
    vstd::arithmetic::div_mod::lemma_div_is_ordered(0, a1 * v, w);
    vstd::arithmetic::div_mod::lemma_div_is_ordered(a1 * v, b1 * (v + 1), w);
    vstd::arithmetic::div_mod::lemma_div_is_ordered(
        b1 * (v + 1),
        8_333_333_333_312_500_000_000int,
        w,
    );
    assert(g1 <= 9_000_000_000);
    assert(series_a2(v) == -333_333_333_333 + g0);
    assert(series_a2(v + 1) == -333_333_333_333 + g1);
    // a3 = W - (|a2| * v) / W, and |a2| shrinks as v grows.
    let n0 = -series_a2(v);
    let n1 = -series_a2(v + 1);
    assert(0 < n1 <= n0 <= 333_333_333_333);
    assert({
        &&& 0 <= n0 * v
        &&& n1 * (v + 1) <= n0 * v + n0
        &&& n0 * v <= 333_333_333_333 * 62_500_000_000
        &&& series_a2(v) * v == -(n0 * v)
        &&& series_a2(v + 1) * (v + 1) == -(n1 * (v + 1))
        &&& 0 <= n1 * (v + 1)
    }) by (nonlinear_arith)
        requires
            0 < n1 <= n0 <= 333_333_333_333,
            n0 == -series_a2(v),
            n1 == -series_a2(v + 1),
            0 <= v,
            v + 1 <= 62_500_000_000,
    ;
    let h0 = (n0 * v) / w;
    let h1 = (n1 * (v + 1)) / w;
    lemma_floor_step(n0 * v, n0, w);
    vstd::arithmetic::div_mod::lemma_div_is_ordered(n1 * (v + 1), n0 * v + n0, w);
    vstd::arithmetic::div_mod::lemma_div_is_ordered(n0 * v, 20_833_333_333_312_500_000_000int, w);
    assert(h0 <= 21_000_000_000);
    assert(div_trunc(-(n0 * v), w) == -h0);
    assert(div_trunc(-(n1 * (v + 1)), w) == -h1);
    assert(series_a3(v) == w - h0);
    assert(series_a3(v + 1) == w - h1);
}

/// The series is non-decreasing on the reduced range.
proof fn lemma_series_step(u: int)
    requires
        0 <= u,
        u + 1 < 250_000_000_000,
    ensures
        0 <= tanh_series(u) <= u,
        tanh_series(u) <= tanh_series(u + 1) <= u + 1,
{
    let w: int = 1_000_000_000_000;
    lemma_series_unfolds(u);
    lemma_series_unfolds(u + 1);
    assert({
        &&& 0 <= u * u
        &&& (u + 1) * (u + 1) == u * u + (2 * u + 1)
        &&& (u + 1) * (u + 1) <= 62_500_000_000_000_000_000_000 - 1
    }) by (nonlinear_arith)
        requires
            0 <= u,
            u + 1 < 250_000_000_000,
    ;
    let v0 = u * u / w;
    let v1 = (u + 1) * (u + 1) / w;
    lemma_floor_step(u * u, 2 * u + 1, w);
    vstd::arithmetic::div_mod::lemma_div_is_ordered(0, u * u, w);
    vstd::arithmetic::div_mod::lemma_div_is_ordered(
        (u + 1) * (u + 1),
        62_499_999_999_999_999_999_999int,
        w,
    );
    assert(0 <= v0 <= v1 <= v0 + 1);
    assert(v1 <= 62_499_999_999);
    lemma_series_coefficients(v0);
    let a = series_a3(v0);
    let b = series_a3(v1);
    if v1 == v0 {
        assert(b == a);
    }
    assert(b >= a - 1 && a >= 970_000_000_000 && b <= w && a <= w);
    assert(u * a <= u * w) by (nonlinear_arith)
        requires
            a <= w,
            0 <= u,
    ;
    vstd::arithmetic::div_mod::lemma_div_is_ordered(u * a, u * w, w);
    assert(u * w == w * u) by (nonlinear_arith);
    vstd::arithmetic::div_mod::lemma_div_multiples_vanish(u, w);
    assert(0 <= u * a <= (u + 1) * b <= (u + 1) * w) by (nonlinear_arith)
        requires
            b >= a - 1,
            a >= 970_000_000_000,
            b <= 1_000_000_000_000,
            w == 1_000_000_000_000,
            0 <= u,
            u + 1 < 250_000_000_000,
    ;
    vstd::arithmetic::div_mod::lemma_div_is_ordered(0, u * a, w);
    vstd::arithmetic::div_mod::lemma_div_is_ordered(u * a, (u + 1) * b, w);
    vstd::arithmetic::div_mod::lemma_div_is_ordered((u + 1) * b, (u + 1) * w, w);
    assert((u + 1) * w == w * (u + 1)) by (nonlinear_arith);
    vstd::arithmetic::div_mod::lemma_div_multiples_vanish(u + 1, w);
}

proof fn lemma_series_monotone(u: int, v: int)
    requires
        0 <= u <= v < 250_000_000_000,
    ensures
        0 <= tanh_series(u) <= tanh_series(v) <= v,
    decreases v - u,
{
    if u < v {
        lemma_series_monotone(u, v - 1);
        lemma_series_step(v - 1);
    } else {
        if u + 1 < 250_000_000_000 {
            lemma_series_step(u);
        } else {
            lemma_series_step(u - 1);
        }
    }
}

proof fn lemma_halvings_monotone(u: nat, v: nat)
    requires
        u <= v,
    ensures
        tanh_halvings(u) <= tanh_halvings(v),
    decreases v,
{
    if u >= tanh_scale() / 4 {
        lemma_halvings_monotone(u / 2, v / 2);
    }
}

/// Range reduction is monotone among arguments halved the same number of
/// times.
proof fn lemma_reduced_monotone(u: nat, v: nat)
    requires
        u <= v,
        tanh_halvings(u) == tanh_halvings(v),
    ensures
        tanh_reduced(u) <= tanh_reduced(v),
    decreases v,
{
    if u >= tanh_scale() / 4 {
        lemma_reduced_monotone(u / 2, v / 2);
    }
}

/// An argument is halved more than `j` times exactly when it reaches
/// `2^j * W/4`.
proof fn lemma_halvings_level(u: nat, j: nat)
    ensures
        tanh_halvings(u) >= j + 1 <==> u >= pow_two(j) * 250_000_000_000,
    decreases j,
{
    if j > 0 {
        assert(pow_two(j) == 2 * pow_two((j - 1) as nat));
        if u >= tanh_scale() / 4 {
            lemma_halvings_level(u / 2, (j - 1) as nat);
            assert(u / 2 >= pow_two((j - 1) as nat) * 250_000_000_000 <==> u >= pow_two(j)
                * 250_000_000_000) by (nonlinear_arith)
                requires
                    pow_two(j) == 2 * pow_two((j - 1) as nat),
            ;
        } else {
            assert(pow_two((j - 1) as nat) >= 1) by {
                lemma_pow_two_positive((j - 1) as nat);
            }
            assert(pow_two(j) * 250_000_000_000 >= 500_000_000_000) by (nonlinear_arith)
                requires
                    pow_two(j) == 2 * pow_two((j - 1) as nat),
                    pow_two((j - 1) as nat) >= 1,
            ;
        }
    }
}

proof fn lemma_pow_two_positive(n: nat)
    ensures
        pow_two(n) >= 1,
    decreases n,
{
    if n > 0 {
        lemma_pow_two_positive((n - 1) as nat);
    }
}

/// The double-angle step is non-decreasing on `[0, W]`.
proof fn lemma_tanh_double_monotone(t: int, s: int)
    requires
        0 <= t <= s <= tanh_scale(),
    ensures
        tanh_double(t) <= tanh_double(s),
{
    let w = tanh_scale();
    let a = 2 * t * w * w;
    let b = w * w + t * t;
    let c = 2 * s * w * w;
    let d = w * w + s * s;
    assert(0 <= a && b > 0 && 0 <= c && d > 0 && a * d <= c * b) by (nonlinear_arith)
        requires
            0 <= t <= s <= w,
            w == 1_000_000_000_000,
            a == 2 * t * w * w,
            b == w * w + t * t,
            c == 2 * s * w * w,
            d == w * w + s * s,
    ;
    let q = a / b;
    assert(q * d <= c) by (nonlinear_arith)
        requires
            q == a / b,
            0 <= a,
            b > 0,
            d > 0,
            a * d <= c * b,
    ;
    assert(q <= c / d) by (nonlinear_arith)
        requires
            q * d <= c,
            d > 0,
    ;
}

proof fn lemma_tanh_undo_monotone(t: int, s: int, k: nat)
    requires
        0 <= t <= s <= tanh_scale(),
    ensures
        tanh_undo(t, k) <= tanh_undo(s, k),
    decreases k,
{
    if k > 0 {
        lemma_tanh_double_monotone(t, s);
        lemma_tanh_double_bounds(t);
        lemma_tanh_double_bounds(s);
        lemma_tanh_undo_monotone(tanh_double(t), tanh_double(s), (k - 1) as nat);
    }
}

/// Among magnitudes halved the same number of times, tanh is monotone.
proof fn lemma_tanh_magnitude_monotone_in_segment(ax: nat, ay: nat)
    requires
        ax <= ay <= 8_000_000,
        tanh_halvings(ax * 1_000_000) == tanh_halvings(ay * 1_000_000),
    ensures
        tanh_magnitude(ax) <= tanh_magnitude(ay),
{
    let ux = ax * 1_000_000;
    let uy = ay * 1_000_000;
    lemma_reduced_monotone(ux, uy);
    lemma_tanh_reduced_small(ux);
    lemma_tanh_reduced_small(uy);
    lemma_series_monotone(tanh_reduced(ux) as int, tanh_reduced(uy) as int);
    let k = tanh_halvings(ux);
    lemma_tanh_undo_monotone(
        tanh_series(tanh_reduced(ux) as int),
        tanh_series(tanh_reduced(uy) as int),
        k,
    );
    lemma_tanh_undo_bounds(tanh_series(tanh_reduced(ux) as int), k);
}

/// Across the points where one more halving applies, tanh still does not
/// fall.
proof fn lemma_tanh_magnitude_at_the_seams()
    ensures
        tanh_magnitude(249_999) <= tanh_magnitude(250_000),
        tanh_magnitude(499_999) <= tanh_magnitude(500_000),
        tanh_magnitude(999_999) <= tanh_magnitude(1_000_000),
        tanh_magnitude(1_999_999) <= tanh_magnitude(2_000_000),
        tanh_magnitude(3_999_999) <= tanh_magnitude(4_000_000),
        tanh_magnitude(7_999_999) <= tanh_magnitude(8_000_000),
{
    lemma_tanh_magnitude_at_249999();
    lemma_tanh_magnitude_at_250000();
    lemma_tanh_magnitude_at_499999();
    lemma_tanh_magnitude_at_500000();
    lemma_tanh_magnitude_at_999999();
    lemma_tanh_magnitude_at_1000000();
    lemma_tanh_magnitude_at_1999999();
    lemma_tanh_magnitude_at_2000000();
    lemma_tanh_magnitude_at_3999999();
    lemma_tanh_magnitude_at_4000000();
    lemma_tanh_magnitude_at_7999999();
    lemma_tanh_magnitude_at_8000000();
}

/// `tanh_double(t) == q` from the division identity with remainder `r`.
proof fn lemma_tanh_double_value(t: int, q: int, r: int)
    requires
        0 <= t,
        0 <= r < 1_000_000_000_000_000_000_000_000 + t * t,
        2 * t * 1_000_000_000_000_000_000_000_000 == q * (1_000_000_000_000_000_000_000_000 + t
            * t) + r,
    ensures
        tanh_double(t) == q,
{
    let w = tanh_scale();
    let n = 2 * t * w * w;
    let d = w * w + t * t;
    assert(w * w == 1_000_000_000_000_000_000_000_000);
    assert(n == 2 * t * 1_000_000_000_000_000_000_000_000) by (nonlinear_arith)
        requires
            n == 2 * t * w * w,
            w * w == 1_000_000_000_000_000_000_000_000,
    ;
    assert(n >= 0) by (nonlinear_arith)
        requires
            n == 2 * t * 1_000_000_000_000_000_000_000_000,
            t >= 0,
    ;
    vstd::arithmetic::div_mod::lemma_fundamental_div_mod_converse(n, d, q, r);
}

/// One more FP6 unit of magnitude never lowers tanh.
proof fn lemma_tanh_magnitude_step(ax: nat)
    requires
        ax < 8_000_000,
    ensures
        tanh_magnitude(ax) <= tanh_magnitude(ax + 1),
{
    let u = ax * 1_000_000;
    let v = (ax + 1) * 1_000_000;
    lemma_halvings_monotone(u, v);
    let h = tanh_halvings(u);
    if h == tanh_halvings(v) {
        lemma_tanh_magnitude_monotone_in_segment(ax, ax + 1);
    } else {
        assert(pow_two(6) == 64) by {
            reveal_with_fuel(pow_two, 7);
        }
        lemma_tanh_halvings_bounded(v, 6);
        assert(h <= 5);
        lemma_halvings_level(u, h);
        lemma_halvings_level(v, h);
        let b = pow_two(h) * 250_000;
        assert(ax < b <= ax + 1);
        assert(ax + 1 == b);
        lemma_tanh_magnitude_at_the_seams();
        reveal_with_fuel(pow_two, 7);
        if h == 0 {
            assert(b == 250_000);
        } else if h == 1 {
            assert(b == 500_000);
        } else if h == 2 {
            assert(b == 1_000_000);
        } else if h == 3 {
            assert(b == 2_000_000);
        } else if h == 4 {
            assert(b == 4_000_000);
        } else {
            assert(b == 8_000_000);
        }
    }
}

proof fn lemma_tanh_magnitude_monotone(ax: nat, ay: nat)
    requires
        ax <= ay <= 8_000_000,
    ensures
        tanh_magnitude(ax) <= tanh_magnitude(ay),
    decreases ay - ax,
{
    if ax < ay {
        lemma_tanh_magnitude_monotone(ax, (ay - 1) as nat);
        lemma_tanh_magnitude_step((ay - 1) as nat);
    }
}

/// tanh in fixed point is monotone: a larger argument never gives a smaller
/// value.
pub proof fn lemma_tanh_is_monotone(x: i64, y: i64)
    requires
        x <= y,
    ensures
        spec_tanh_fp6(x) <= spec_tanh_fp6(y),
{
    let ax = min_int(if x < 0 { -x } else { x as int }, 8_000_000) as nat;
    let ay = min_int(if y < 0 { -y } else { y as int }, 8_000_000) as nat;
    lemma_tanh_magnitude_bounds(ax);
    lemma_tanh_magnitude_bounds(ay);
    if x > 0 {
        lemma_tanh_magnitude_monotone(ax, ay);
    } else if y < 0 {
        lemma_tanh_magnitude_monotone(ay, ax);
    }
}

proof fn lemma_div_trunc_monotone(a: int, b: int, d: int)
    requires
        a <= b,
        d > 0,
    ensures
        div_trunc(a, d) <= div_trunc(b, d),
{
    if a >= 0 {
        vstd::arithmetic::div_mod::lemma_div_is_ordered(a, b, d);
    } else if b < 0 {
        vstd::arithmetic::div_mod::lemma_div_is_ordered(-b, -a, d);
    } else {
        vstd::arithmetic::div_mod::lemma_div_is_ordered(0, -a, d);
        vstd::arithmetic::div_mod::lemma_div_is_ordered(0, b, d);
    }
}

/// The deposit curve is monotone: better risk-adjusted performance never
/// lays down a smaller deposit.
pub proof fn lemma_deposit_is_monotone(
    perf_a: i64,
    perf_b: i64,
    perf_norm_s_bps: u16,
    deposit_scale_q: u64,
)
    requires
        perf_a <= perf_b,
    ensures
        spec_deposit_fp6(perf_a, perf_norm_s_bps, deposit_scale_q) <= spec_deposit_fp6(
            perf_b,
            perf_norm_s_bps,
            deposit_scale_q,
        ),
{
    if perf_norm_s_bps != 0 {
        let s = perf_norm_s_bps as int;
        let q = deposit_scale_q as int;
        assert(perf_a * 1_000_000 <= perf_b * 1_000_000);
        lemma_div_trunc_monotone(perf_a * 1_000_000, perf_b * 1_000_000, s);
        let xa = clamp_i64(div_trunc(perf_a * 1_000_000, s));
        let xb = clamp_i64(div_trunc(perf_b * 1_000_000, s));
        assert(xa <= xb);
        lemma_tanh_is_monotone(xa, xb);
        let ta = spec_tanh_fp6(xa) as int;
        let tb = spec_tanh_fp6(xb) as int;
        assert(ta * q <= tb * q) by (nonlinear_arith)
            requires
                ta <= tb,
                q >= 0,
        ;
        lemma_div_trunc_monotone(ta * q, tb * q, 1_000_000);
    }
}

// The values at the seams, evaluated step by step.
proof fn lemma_tanh_magnitude_at_249999()
    ensures
        tanh_magnitude(249999) == 244918,
{
    assert(tanh_halvings(249999000000) == 0 && tanh_reduced(249999000000) == 249999000000);
    assert(series_a1(62499500001) == 129960344445);
    assert(series_a2(62499500001) == -325210876786);
    assert(series_a3(62499500001) == 979674482806);
    lemma_series_unfolds(249999000000);
    assert(tanh_series(249999000000) == 244917641027);
    assert(tanh_undo(244917641027, 0) == 244917641027);
}

proof fn lemma_tanh_magnitude_at_250000()
    ensures
        tanh_magnitude(250000) == 244919,
{
    assert(tanh_halvings(125000000000) == 0 && tanh_reduced(125000000000) == 125000000000);
    assert(tanh_halvings(250000000000) == 1 && tanh_reduced(250000000000) == 125000000000);
    assert(series_a1(15625000000) == 132490079365);
    assert(series_a2(15625000000) == -331263175843);
    assert(series_a3(15625000000) == 994824012878);
    lemma_series_unfolds(125000000000);
    assert(tanh_series(125000000000) == 124353001609);
    lemma_tanh_double_value(124353001609, 244918662093, 225597121124561440012067);
    assert(tanh_undo(244918662093, 0) == 244918662093);
    assert(tanh_undo(124353001609, 1) == 244918662093);
}

proof fn lemma_tanh_magnitude_at_499999()
    ensures
        tanh_magnitude(499999) == 462116,
{
    assert(tanh_halvings(249999500000) == 0 && tanh_reduced(249999500000) == 249999500000);
    assert(tanh_halvings(499999000000) == 1 && tanh_reduced(499999000000) == 249999500000);
    assert(series_a1(62499750000) == 129960330953);
    assert(series_a2(62499750000) == -325210845139);
    assert(series_a3(62499750000) == 979674403482);
    lemma_series_unfolds(249999500000);
    assert(tanh_series(249999500000) == 244918111033);
    lemma_tanh_double_value(244918111033, 462116234669, 467458133018638114351459);
    assert(tanh_undo(462116234669, 0) == 462116234669);
    assert(tanh_undo(244918111033, 1) == 462116234669);
}

proof fn lemma_tanh_magnitude_at_500000()
    ensures
        tanh_magnitude(500000) == 462117,
{
    assert(tanh_halvings(125000000000) == 0 && tanh_reduced(125000000000) == 125000000000);
    assert(tanh_halvings(250000000000) == 1 && tanh_reduced(250000000000) == 125000000000);
    assert(tanh_halvings(500000000000) == 2 && tanh_reduced(500000000000) == 125000000000);
    assert(series_a1(15625000000) == 132490079365);
    assert(series_a2(15625000000) == -331263175843);
    assert(series_a3(15625000000) == 994824012878);
    lemma_series_unfolds(125000000000);
    assert(tanh_series(125000000000) == 124353001609);
    lemma_tanh_double_value(124353001609, 244918662093, 225597121124561440012067);
    lemma_tanh_double_value(244918662093, 462117156740, 117175833576158921675740);
    assert(tanh_undo(462117156740, 0) == 462117156740);
    assert(tanh_undo(244918662093, 1) == 462117156740);
    assert(tanh_undo(124353001609, 2) == 462117156740);
}

proof fn lemma_tanh_magnitude_at_999999()
    ensures
        tanh_magnitude(999999) == 761594,
{
    assert(tanh_halvings(249999750000) == 0 && tanh_reduced(249999750000) == 249999750000);
    assert(tanh_halvings(499999500000) == 1 && tanh_reduced(499999500000) == 249999750000);
    assert(tanh_halvings(999999000000) == 2 && tanh_reduced(999999000000) == 249999750000);
    assert(series_a1(62499875000) == 129960324207);
    assert(series_a2(62499875000) == -325210829316);
    assert(series_a3(62499875000) == 979674363820);
    lemma_series_unfolds(249999750000);
    assert(tanh_series(249999750000) == 244918346036);
    lemma_tanh_double_value(244918346036, 462116627892, 384104491098786500747968);
    lemma_tanh_double_value(462116627892, 761593590575, 216797566789463077133200);
    assert(tanh_undo(761593590575, 0) == 761593590575);
    assert(tanh_undo(462116627892, 1) == 761593590575);
    assert(tanh_undo(244918346036, 2) == 761593590575);
}

proof fn lemma_tanh_magnitude_at_1000000()
    ensures
        tanh_magnitude(1000000) == 761594,
{
    assert(tanh_halvings(125000000000) == 0 && tanh_reduced(125000000000) == 125000000000);
    assert(tanh_halvings(250000000000) == 1 && tanh_reduced(250000000000) == 125000000000);
    assert(tanh_halvings(500000000000) == 2 && tanh_reduced(500000000000) == 125000000000);
    assert(tanh_halvings(1000000000000) == 3 && tanh_reduced(1000000000000) == 125000000000);
    assert(series_a1(15625000000) == 132490079365);
    assert(series_a2(15625000000) == -331263175843);
    assert(series_a3(15625000000) == 994824012878);
    lemma_series_unfolds(125000000000);
    assert(tanh_series(125000000000) == 124353001609);
    lemma_tanh_double_value(124353001609, 244918662093, 225597121124561440012067);
    lemma_tanh_double_value(244918662093, 462117156740, 117175833576158921675740);
    lemma_tanh_double_value(462117156740, 761594155400, 460646753551963350960000);
    assert(tanh_undo(761594155400, 0) == 761594155400);
    assert(tanh_undo(462117156740, 1) == 761594155400);
    assert(tanh_undo(244918662093, 2) == 761594155400);
    assert(tanh_undo(124353001609, 3) == 761594155400);
}

proof fn lemma_tanh_magnitude_at_1999999()
    ensures
        tanh_magnitude(1999999) == 964027,
{
    assert(tanh_halvings(249999875000) == 0 && tanh_reduced(249999875000) == 249999875000);
    assert(tanh_halvings(499999750000) == 1 && tanh_reduced(499999750000) == 249999875000);
    assert(tanh_halvings(999999500000) == 2 && tanh_reduced(999999500000) == 249999875000);
    assert(tanh_halvings(1999999000000) == 3 && tanh_reduced(1999999000000) == 249999875000);
    assert(series_a1(62499937500) == 129960320834);
    assert(series_a2(62499937500) == -325210821404);
    assert(series_a3(62499937500) == 979674343988);
    lemma_series_unfolds(249999875000);
    assert(tanh_series(249999875000) == 244918463537);
    lemma_tanh_double_value(244918463537, 462116824502, 992496583238624819658762);
    lemma_tanh_double_value(462116824502, 761593800560, 641904158324081397917760);
    lemma_tanh_double_value(761593800560, 964027460501, 1119429938879275330886400);
    assert(tanh_undo(964027460501, 0) == 964027460501);
    assert(tanh_undo(761593800560, 1) == 964027460501);
    assert(tanh_undo(462116824502, 2) == 964027460501);
    assert(tanh_undo(244918463537, 3) == 964027460501);
}

proof fn lemma_tanh_magnitude_at_2000000()
    ensures
        tanh_magnitude(2000000) == 964028,
{
    assert(tanh_halvings(125000000000) == 0 && tanh_reduced(125000000000) == 125000000000);
    assert(tanh_halvings(250000000000) == 1 && tanh_reduced(250000000000) == 125000000000);
    assert(tanh_halvings(500000000000) == 2 && tanh_reduced(500000000000) == 125000000000);
    assert(tanh_halvings(1000000000000) == 3 && tanh_reduced(1000000000000) == 125000000000);
    assert(tanh_halvings(2000000000000) == 4 && tanh_reduced(2000000000000) == 125000000000);
    assert(series_a1(15625000000) == 132490079365);
    assert(series_a2(15625000000) == -331263175843);
    assert(series_a3(15625000000) == 994824012878);
    lemma_series_unfolds(125000000000);
    assert(tanh_series(125000000000) == 124353001609);
    lemma_tanh_double_value(124353001609, 244918662093, 225597121124561440012067);
    lemma_tanh_double_value(244918662093, 462117156740, 117175833576158921675740);
    lemma_tanh_double_value(462117156740, 761594155400, 460646753551963350960000);
    lemma_tanh_double_value(761594155400, 964027579888, 1308403316927374305920000);
    assert(tanh_undo(964027579888, 0) == 964027579888);
    assert(tanh_undo(761594155400, 1) == 964027579888);
    assert(tanh_undo(462117156740, 2) == 964027579888);
    assert(tanh_undo(244918662093, 3) == 964027579888);
    assert(tanh_undo(124353001609, 4) == 964027579888);
}

proof fn lemma_tanh_magnitude_at_3999999()
    ensures
        tanh_magnitude(3999999) == 999329,
{
    assert(tanh_halvings(249999937500) == 0 && tanh_reduced(249999937500) == 249999937500);
    assert(tanh_halvings(499999875000) == 1 && tanh_reduced(499999875000) == 249999937500);
    assert(tanh_halvings(999999750000) == 2 && tanh_reduced(999999750000) == 249999937500);
    assert(tanh_halvings(1999999500000) == 3 && tanh_reduced(1999999500000) == 249999937500);
    assert(tanh_halvings(3999999000000) == 4 && tanh_reduced(3999999000000) == 249999937500);
    assert(series_a1(62499968750) == 129960319147);
    assert(series_a2(62499968750) == -325210817448);
    assert(series_a3(62499968750) == 979674334073);
    lemma_series_unfolds(249999937500);
    assert(tanh_series(249999937500) == 244918522288);
    lemma_tanh_double_value(244918522288, 462116922809, 50269202244978258882304);
    lemma_tanh_double_value(462116922809, 761593905555, 362097921445604311678045);
    lemma_tanh_double_value(761593905555, 964027495827, 1036969076074502700038325);
    lemma_tanh_double_value(964027495827, 999329296540, 1895998154488720532494340);
    assert(tanh_undo(999329296540, 0) == 999329296540);
    assert(tanh_undo(964027495827, 1) == 999329296540);
    assert(tanh_undo(761593905555, 2) == 999329296540);
    assert(tanh_undo(462116922809, 3) == 999329296540);
    assert(tanh_undo(244918522288, 4) == 999329296540);
}

proof fn lemma_tanh_magnitude_at_4000000()
    ensures
        tanh_magnitude(4000000) == 999329,
{
    assert(tanh_halvings(125000000000) == 0 && tanh_reduced(125000000000) == 125000000000);
    assert(tanh_halvings(250000000000) == 1 && tanh_reduced(250000000000) == 125000000000);
    assert(tanh_halvings(500000000000) == 2 && tanh_reduced(500000000000) == 125000000000);
    assert(tanh_halvings(1000000000000) == 3 && tanh_reduced(1000000000000) == 125000000000);
    assert(tanh_halvings(2000000000000) == 4 && tanh_reduced(2000000000000) == 125000000000);
    assert(tanh_halvings(4000000000000) == 5 && tanh_reduced(4000000000000) == 125000000000);
    assert(series_a1(15625000000) == 132490079365);
    assert(series_a2(15625000000) == -331263175843);
    assert(series_a3(15625000000) == 994824012878);
    lemma_series_unfolds(125000000000);
    assert(tanh_series(125000000000) == 124353001609);
    lemma_tanh_double_value(124353001609, 244918662093, 225597121124561440012067);
    lemma_tanh_double_value(244918662093, 462117156740, 117175833576158921675740);
    lemma_tanh_double_value(462117156740, 761594155400, 460646753551963350960000);
    lemma_tanh_double_value(761594155400, 964027579888, 1308403316927374305920000);
    lemma_tanh_double_value(964027579888, 999329299731, 1808813753301595003694336);
    assert(tanh_undo(999329299731, 0) == 999329299731);
    assert(tanh_undo(964027579888, 1) == 999329299731);
    assert(tanh_undo(761594155400, 2) == 999329299731);
    assert(tanh_undo(462117156740, 3) == 999329299731);
    assert(tanh_undo(244918662093, 4) == 999329299731);
    assert(tanh_undo(124353001609, 5) == 999329299731);
}

proof fn lemma_tanh_magnitude_at_7999999()
    ensures
        tanh_magnitude(7999999) == 999999,
{
    assert(tanh_halvings(249999968750) == 0 && tanh_reduced(249999968750) == 249999968750);
    assert(tanh_halvings(499999937500) == 1 && tanh_reduced(499999937500) == 249999968750);
    assert(tanh_halvings(999999875000) == 2 && tanh_reduced(999999875000) == 249999968750);
    assert(tanh_halvings(1999999750000) == 3 && tanh_reduced(1999999750000) == 249999968750);
    assert(tanh_halvings(3999999500000) == 4 && tanh_reduced(3999999500000) == 249999968750);
    assert(tanh_halvings(7999999000000) == 5 && tanh_reduced(7999999000000) == 249999968750);
    assert(series_a1(62499984375) == 129960318304);
    assert(series_a2(62499984375) == -325210815470);
    assert(series_a3(62499984375) == 979674329115);
    lemma_series_unfolds(249999968750);
    assert(tanh_series(249999968750) == 244918551663);
    lemma_tanh_double_value(244918551663, 462116971961, 278996027143614665489191);
    lemma_tanh_double_value(462116971961, 761593958051, 85684465127460648420429);
    lemma_tanh_double_value(761593958051, 964027513490, 186123501961563748572510);
    lemma_tanh_double_value(964027513490, 999329297211, 908122576390189162498900);
    lemma_tanh_double_value(999329297211, 999999774927, 1955897304781660750857033);
    assert(tanh_undo(999999774927, 0) == 999999774927);
    assert(tanh_undo(999329297211, 1) == 999999774927);
    assert(tanh_undo(964027513490, 2) == 999999774927);
    assert(tanh_undo(761593958051, 3) == 999999774927);
    assert(tanh_undo(462116971961, 4) == 999999774927);
    assert(tanh_undo(244918551663, 5) == 999999774927);
}

proof fn lemma_tanh_magnitude_at_8000000()
    ensures
        tanh_magnitude(8000000) == 999999,
{
    assert(tanh_halvings(125000000000) == 0 && tanh_reduced(125000000000) == 125000000000);
    assert(tanh_halvings(250000000000) == 1 && tanh_reduced(250000000000) == 125000000000);
    assert(tanh_halvings(500000000000) == 2 && tanh_reduced(500000000000) == 125000000000);
    assert(tanh_halvings(1000000000000) == 3 && tanh_reduced(1000000000000) == 125000000000);
    assert(tanh_halvings(2000000000000) == 4 && tanh_reduced(2000000000000) == 125000000000);
    assert(tanh_halvings(4000000000000) == 5 && tanh_reduced(4000000000000) == 125000000000);
    assert(tanh_halvings(8000000000000) == 6 && tanh_reduced(8000000000000) == 125000000000);
    assert(series_a1(15625000000) == 132490079365);
    assert(series_a2(15625000000) == -331263175843);
    assert(series_a3(15625000000) == 994824012878);
    lemma_series_unfolds(125000000000);
    assert(tanh_series(125000000000) == 124353001609);
    lemma_tanh_double_value(124353001609, 244918662093, 225597121124561440012067);
    lemma_tanh_double_value(244918662093, 462117156740, 117175833576158921675740);
    lemma_tanh_double_value(462117156740, 761594155400, 460646753551963350960000);
    lemma_tanh_double_value(761594155400, 964027579888, 1308403316927374305920000);
    lemma_tanh_double_value(964027579888, 999329299731, 1808813753301595003694336);
    lemma_tanh_double_value(999329299731, 999999774929, 1340048519437660684962631);
    assert(tanh_undo(999999774929, 0) == 999999774929);
    assert(tanh_undo(999329299731, 1) == 999999774929);
    assert(tanh_undo(964027579888, 2) == 999999774929);
    assert(tanh_undo(761594155400, 3) == 999999774929);
    assert(tanh_undo(462117156740, 4) == 999999774929);
    assert(tanh_undo(244918662093, 5) == 999999774929);
    assert(tanh_undo(124353001609, 6) == 999999774929);
}


// ---------------------------------------------------------------------------
// Realized performance measurement
// ---------------------------------------------------------------------------

/// `realized = (balance - bond) - principal`, the balance floored at the bond.
pub open spec fn spec_realized_epoch_pnl(vault_balance: u64, bond: u64, principal: u64) -> i64 {
    clamp_i64(max_int(vault_balance - bond, 0) - principal)
}

/// Realized PnL of a forager for one epoch, measured from its isolated
/// sub-account. The sub-account holds bond + principal, so the bond is removed
/// before the balance is compared against principal.
pub fn realized_epoch_pnl(vault_balance: u64, bond: u64, principal: u64) -> (r: i64)
    ensures
        r == spec_realized_epoch_pnl(vault_balance, bond, principal),
{
    let gross = vault_balance.saturating_sub(bond) as i128;
    let realized = gross - principal as i128;
    clamp_to_i64(realized)
}

/// Moving the sub-account balance and the recorded bond by the same amount
/// leaves the realized measurement unchanged: a pure bond top-up never reads
/// as performance, and a slash (which takes the same amount out of both)
/// leaves behind the realized figure it found.
pub proof fn lemma_bond_moves_are_not_performance(
    vault_balance: u64,
    bond: u64,
    principal: u64,
    delta: u64,
)
    requires
        vault_balance >= bond,
        vault_balance + delta <= u64::MAX,
    ensures
        spec_realized_epoch_pnl(
            (vault_balance + delta) as u64,
            (bond + delta) as u64,
            principal,
        ) == spec_realized_epoch_pnl(vault_balance, bond, principal),
{
}

/// Realized net return for the epoch in bps, signed; zero when no capital was
/// at work.
pub open spec fn spec_return_bps(realized_pnl_epoch: i64, principal: u64) -> i64 {
    if principal == 0 {
        0
    } else {
        clamp_i64(div_trunc(realized_pnl_epoch * 10_000, principal as int))
    }
}

pub fn return_bps(realized_pnl_epoch: i64, principal: u64) -> (r: i64)
    ensures
        r == spec_return_bps(realized_pnl_epoch, principal),
{
    if principal == 0 {
        return 0;
    }
    let r = (realized_pnl_epoch as i128) * BPS_DENOM_I / (principal as i128);
    clamp_to_i64(r)
}

/// Risk-adjusted realized performance: `perf = r - lambda * DD`.
pub open spec fn spec_risk_adjusted_perf_bps(
    r_bps: i64,
    drawdown_bps: u16,
    risk_aversion_bps: u16,
) -> i64 {
    clamp_i64(r_bps - (risk_aversion_bps * drawdown_bps) / 10_000)
}

pub fn risk_adjusted_perf_bps(r_bps: i64, drawdown_bps: u16, risk_aversion_bps: u16) -> (r: i64)
    ensures
        r == spec_risk_adjusted_perf_bps(r_bps, drawdown_bps, risk_aversion_bps),
        r <= r_bps,
{
    assert(0 <= (risk_aversion_bps as int) * (drawdown_bps as int) <= 65_535 * 65_535)
        by (nonlinear_arith);
    let penalty = (risk_aversion_bps as i128) * (drawdown_bps as i128) / BPS_DENOM_I;
    let perf = (r_bps as i128) - penalty;
    clamp_to_i64(perf)
}

// ---------------------------------------------------------------------------
// Pheromone: evaporate, deposit, update
// ---------------------------------------------------------------------------

/// `retained = tau * (BPS - rho) / BPS`, with `rho` saturating at the whole.
pub open spec fn spec_evaporate(pheromone: u64, rho_bps: u16) -> int {
    (pheromone * (10_000 - min_int(rho_bps as int, 10_000))) / 10_000
}

pub fn evaporate(pheromone: u64, rho_bps: u16) -> (r: u64)
    ensures
        r == spec_evaporate(pheromone, rho_bps),
        r <= pheromone,
{
    let retain = BPS_DENOM.saturating_sub(rho_bps as u128);
    assert(retain == 10_000 - min_int(rho_bps as int, 10_000));
    assert((pheromone as int) * retain <= (pheromone as int) * 10_000) by (nonlinear_arith)
        requires
            0 <= retain <= 10_000,
            pheromone >= 0,
    ;
    ((pheromone as u128) * retain / BPS_DENOM) as u64
}

/// The epoch deposit `D = Q * tanh(perf / s)` in FP6, signed.
pub open spec fn spec_deposit_fp6(perf_bps: i64, perf_norm_s_bps: u16, deposit_scale_q: u64) -> i64 {
    if perf_norm_s_bps == 0 {
        0
    } else {
        let x = clamp_i64(div_trunc(perf_bps * 1_000_000, perf_norm_s_bps as int));
        let t = spec_tanh_fp6(x);
        clamp_i64(div_trunc(t * deposit_scale_q, 1_000_000))
    }
}

/// Bounded to `(-Q, +Q)` so no single epoch can dominate a trail, and
/// sign-preserving so a loss erodes the trail.
pub fn deposit_fp6(perf_bps: i64, perf_norm_s_bps: u16, deposit_scale_q: u64) -> (r: i64)
    ensures
        r == spec_deposit_fp6(perf_bps, perf_norm_s_bps, deposit_scale_q),
        deposit_scale_q > 0 ==> -(deposit_scale_q as int) < r < deposit_scale_q,
        deposit_scale_q == 0 ==> r == 0,
        perf_bps == 0 ==> r == 0,
        perf_bps > 0 ==> r >= 0,
        perf_bps < 0 ==> r <= 0,
{
    if perf_norm_s_bps == 0 {
        return 0;
    }
    assert(-9_223_372_036_854_775_808_000_000 <= (perf_bps as int) * 1_000_000
        <= 9_223_372_036_854_775_807_000_000);
    let x = (perf_bps as i128) * FP6 / (perf_norm_s_bps as i128);
    let x_fp6 = clamp_to_i64(x);
    assert(perf_bps > 0 ==> x_fp6 >= 0);
    assert(perf_bps < 0 ==> x_fp6 <= 0);
    assert(perf_bps == 0 ==> x_fp6 == 0);
    let t = tanh_fp6(x_fp6) as i128;
    assert(-999_999 * (deposit_scale_q as int) <= t * deposit_scale_q
        <= 999_999 * (deposit_scale_q as int)) by (nonlinear_arith)
        requires
            -999_999 <= t <= 999_999,
            deposit_scale_q >= 0,
    ;
    assert(t >= 0 ==> t * deposit_scale_q >= 0) by (nonlinear_arith)
        requires
            deposit_scale_q >= 0,
    ;
    assert(t <= 0 ==> t * deposit_scale_q <= 0) by (nonlinear_arith)
        requires
            deposit_scale_q >= 0,
    ;
    let d = t * (deposit_scale_q as i128) / FP6;
    proof {
        let q = deposit_scale_q as int;
        if q > 0 {
            assert(999_999 * q / 1_000_000 < q) by (nonlinear_arith)
                requires
                    q > 0,
            ;
            assert((t * q) / 1_000_000 <= 999_999 * q / 1_000_000) by (nonlinear_arith)
                requires
                    t * q <= 999_999 * q,
            ;
            assert((-(t * q)) / 1_000_000 <= 999_999 * q / 1_000_000) by (nonlinear_arith)
                requires
                    -(t * q) <= 999_999 * q,
            ;
        } else {
            assert(t * q == 0);
        }
    }
    clamp_to_i64(d)
}

/// The deposit is odd in performance: a loss erodes exactly as much trail as
/// the same gain adds.
pub proof fn lemma_deposit_is_odd(perf_bps: i64, perf_norm_s_bps: u16, deposit_scale_q: u64)
    requires
        perf_bps > i64::MIN,
        deposit_scale_q <= i64::MAX,
    ensures
        spec_deposit_fp6(-perf_bps as i64, perf_norm_s_bps, deposit_scale_q) == -spec_deposit_fp6(
            perf_bps,
            perf_norm_s_bps,
            deposit_scale_q,
        ),
{
    if perf_norm_s_bps != 0 {
        let s = perf_norm_s_bps as int;
        let v = div_trunc(perf_bps * 1_000_000, s);
        let nv = div_trunc((-perf_bps as i64) * 1_000_000, s);
        assert(nv == -v);
        let x = clamp_i64(v);
        let nx = clamp_i64(nv);
        if v > i64::MAX {
            lemma_tanh_saturates(x, 9_000_000);
            lemma_tanh_is_odd(9_000_000);
            assert(nx == i64::MIN);
            lemma_tanh_magnitude_bounds(8_000_000);
            assert(spec_tanh_fp6(nx) == -spec_tanh_fp6(x));
        } else if v < i64::MIN {
            lemma_tanh_magnitude_bounds(8_000_000);
            assert(spec_tanh_fp6(nx) == -spec_tanh_fp6(x));
        } else if v == i64::MIN {
            lemma_tanh_magnitude_bounds(8_000_000);
            assert(spec_tanh_fp6(nx) == -spec_tanh_fp6(x));
        } else {
            assert(nx == -x);
            lemma_tanh_is_odd(x);
        }
        let t = spec_tanh_fp6(x);
        let nt = spec_tanh_fp6(nx);
        let q = deposit_scale_q as int;
        if t != 0 {
            lemma_tanh_magnitude_bounds(8_000_000);
        }
        assert(-999_999 <= t <= 999_999) by {
            if x != 0 {
                let ax = min_int(if x < 0 { -x } else { x as int }, 8_000_000) as nat;
                lemma_tanh_magnitude_bounds(ax);
            }
        }
        assert((nt * q) == -(t * q)) by (nonlinear_arith)
            requires
                nt == -t,
        ;
        assert(-999_999 * q <= t * q <= 999_999 * q) by (nonlinear_arith)
            requires
                -999_999 <= t <= 999_999,
                q >= 0,
        ;
        assert(999_999 * q / 1_000_000 <= q) by (nonlinear_arith)
            requires
                q >= 0,
        ;
        assert((t * q) / 1_000_000 <= 999_999 * q / 1_000_000) by (nonlinear_arith)
            requires
                t * q <= 999_999 * q,
        ;
        assert((-(t * q)) / 1_000_000 <= 999_999 * q / 1_000_000) by (nonlinear_arith)
            requires
                -(t * q) <= 999_999 * q,
        ;
    }
}

/// One epoch of `tau' = clamp( max(0, (1 - rho) * tau + D), 0, ceil )`.
pub open spec fn spec_update_pheromone(current: u64, deposit_fp6: i64, rho_bps: u16, ceil: u64) -> u64 {
    let next = spec_evaporate(current, rho_bps) + deposit_fp6;
    if next <= 0 {
        0
    } else {
        min_int(next, ceil as int) as u64
    }
}

pub fn update_pheromone(current: u64, deposit_fp6: i64, rho_bps: u16, ceil: u64) -> (r: u64)
    ensures
        r == spec_update_pheromone(current, deposit_fp6, rho_bps, ceil),
        r <= ceil,
{
    let retained = evaporate(current, rho_bps) as i128;
    let next = retained + deposit_fp6 as i128;
    if next <= 0 {
        return 0;
    }
    if (next as u128) < (ceil as u128) {
        next as u64
    } else {
        ceil
    }
}

// ---------------------------------------------------------------------------
// Pheromone -> weights (bounded water-filling)
// ---------------------------------------------------------------------------

/// The most foragers that can simultaneously sit at the concentration cap at
/// the smallest allowed cap of 500 bps.
pub const MAX_CAPPED_TRAILS: usize = 20;
pub const TOP_TRAILS_LEN: usize = MAX_CAPPED_TRAILS + 1;

/// `max(w_max, min(1/n + margin, 1))` for `n` active foragers, `w_max` alone
/// when there are none.
pub open spec fn spec_effective_max_weight_bps(
    w_max_bps: u16,
    active_count: u32,
    relax_margin_bps: u16,
) -> u16 {
    if active_count == 0 {
        w_max_bps
    } else {
        let relaxed = min_int(10_000int / (active_count as int) + relax_margin_bps, 10_000);
        max_int(w_max_bps as int, relaxed) as u16
    }
}

/// Effective concentration cap. It only ever raises `w_max`, relaxing it when
/// a small colony could not fill the pool under it.
pub fn effective_max_weight_bps(w_max_bps: u16, active_count: u32, relax_margin_bps: u16) -> (r: u16)
    ensures
        r == spec_effective_max_weight_bps(w_max_bps, active_count, relax_margin_bps),
        r >= w_max_bps,
{
    if active_count == 0 {
        return w_max_bps;
    }
    let even = BPS_DENOM / active_count as u128;
    let sum = even + relax_margin_bps as u128;
    let relaxed: u16 = if sum < BPS_DENOM { sum as u16 } else { BPS_DENOM as u16 };
    if w_max_bps < relaxed {
        relaxed
    } else {
        w_max_bps
    }
}


/// Saturating product of two `u128` values, as a mathematical integer.
pub open spec fn sat_mul_u128(a: int, b: int) -> int {
    if a * b > u128::MAX {
        u128::MAX as int
    } else {
        a * b
    }
}

/// Saturating difference of two unsigned values.
pub open spec fn sat_sub(a: int, b: int) -> int {
    if a >= b {
        a - b
    } else {
        0
    }
}

/// Saturating sum of two `u128` values.
pub open spec fn sat_add_u128(a: int, b: int) -> int {
    min_int(a + b, u128::MAX as int)
}

fn saturating_mul_u128(a: u128, b: u128) -> (r: u128)
    ensures
        r == sat_mul_u128(a as int, b as int),
{
    a.checked_mul(b).unwrap_or(u128::MAX)
}

/// The solved water-filling level.
///
/// `remaining_bps` is the share of the pool left for the uncapped foragers and
/// `rest_sum` their total pheromone; together they define every uncapped weight
/// as `remaining_bps * tau / rest_sum` without forming a quotient.
#[derive(Debug, Clone, Copy, PartialEq, Eq, Structural)]
pub struct CapLevel {
    pub capped_count: u16,
    pub remaining_bps: u16,
    pub rest_sum: u128,
}

/// The walk down the pheromone ranking: admit `top[m]` to the capped set while
/// `remaining * tau >= w_max * rest` holds, stopping at `max_m`, at an empty
/// rest, or at the first trail that fails the test. Returns the capped count
/// and the capped pheromone total.
pub open spec fn cap_walk(total: int, top: Seq<u64>, w: int, max_m: int, m: int, prefix: int) -> (
    int,
    int,
)
    decreases max_m - m,
{
    if m < max_m {
        let remaining = 10_000 - m * w;
        let rest = sat_sub(total, prefix);
        if rest == 0 {
            (m, prefix)
        } else if sat_mul_u128(remaining, top[m] as int) >= sat_mul_u128(w, rest) {
            cap_walk(total, top, w, max_m, m + 1, sat_add_u128(prefix, top[m] as int))
        } else {
            (m, prefix)
        }
    } else {
        (m, prefix)
    }
}

/// How far down the ranking the walk may go: the remaining share stays
/// strictly positive, and the walk never passes the tracked slots or the
/// active population.
pub open spec fn cap_walk_limit(top_len: int, active_count: u32, w: u16) -> int {
    min_int(min_int(9_999int / (w as int), top_len), active_count as int)
}

pub open spec fn spec_solve_cap_level(
    total_pheromone: u128,
    top: Seq<u64>,
    active_count: u32,
    eff_w_max_bps: u16,
) -> CapLevel {
    if total_pheromone == 0 || active_count == 0 || eff_w_max_bps == 0 {
        CapLevel { capped_count: 0, remaining_bps: 10_000, rest_sum: total_pheromone }
    } else {
        let w = eff_w_max_bps as int;
        let max_m = cap_walk_limit(top.len() as int, active_count, eff_w_max_bps);
        let walked = cap_walk(total_pheromone as int, top, w, max_m, 0, 0);
        CapLevel {
            capped_count: walked.0 as u16,
            remaining_bps: (10_000 - walked.0 * w) as u16,
            rest_sum: sat_sub(total_pheromone as int, walked.1) as u128,
        }
    }
}

proof fn lemma_cap_walk_range(total: int, top: Seq<u64>, w: int, max_m: int, m: int, prefix: int)
    requires
        0 <= m <= max_m,
    ensures
        m <= cap_walk(total, top, w, max_m, m, prefix).0 <= max_m,
    decreases max_m - m,
{
    if m < max_m {
        let remaining = 10_000 - m * w;
        let rest = sat_sub(total, prefix);
        if rest != 0 && sat_mul_u128(remaining, top[m] as int) >= sat_mul_u128(w, rest) {
            lemma_cap_walk_range(total, top, w, max_m, m + 1, sat_add_u128(prefix, top[m] as int));
        }
    }
}

/// Solve the bounded water-filling level from the largest pheromone values,
/// given in descending order, with the division-free test
/// `remaining_bps * tau >= w_max * rest_sum`.
pub fn solve_cap_level(
    total_pheromone: u128,
    top: &[u64],
    active_count: u32,
    eff_w_max_bps: u16,
) -> (level: CapLevel)
    ensures
        level == spec_solve_cap_level(total_pheromone, top@, active_count, eff_w_max_bps),
        level.remaining_bps >= 1,
        level.rest_sum <= total_pheromone,
{
    let w = eff_w_max_bps as u128;
    if total_pheromone == 0 || active_count == 0 || eff_w_max_bps == 0 {
        return CapLevel {
            capped_count: 0,
            remaining_bps: BPS_DENOM as u16,
            rest_sum: total_pheromone,
        };
    }
    // Keep the remaining share strictly positive.
    let by_share = ((BPS_DENOM - 1) / w) as usize;
    let by_slots = if by_share < top.len() { by_share } else { top.len() };
    let max_m = if by_slots < active_count as usize { by_slots } else { active_count as usize };
    let ghost max_m_spec = cap_walk_limit(top@.len() as int, active_count, eff_w_max_bps);
    assert(max_m == max_m_spec);
    assert(max_m * w <= 9_999) by (nonlinear_arith)
        requires
            max_m <= 9_999int / (w as int),
            w > 0,
    ;

    let mut m: usize = 0;
    let mut prefix: u128 = 0;
    while m < max_m
        invariant
            0 <= m <= max_m,
            max_m <= top@.len(),
            max_m * w <= 9_999,
            w > 0,
            w == eff_w_max_bps as int,
            max_m == cap_walk_limit(top@.len() as int, active_count, eff_w_max_bps),
            cap_walk(total_pheromone as int, top@, w as int, max_m as int, m as int, prefix as int)
                == cap_walk(total_pheromone as int, top@, w as int, max_m as int, 0, 0),
        ensures
            cap_walk(total_pheromone as int, top@, w as int, max_m as int, 0, 0) == (
                m as int,
                prefix as int,
            ),
            m <= max_m,
        decreases max_m - m,
    {
        assert((m as int) * (w as int) <= (max_m as int) * (w as int)) by (nonlinear_arith)
            requires
                m <= max_m,
                w > 0,
        ;
        let remaining = BPS_DENOM - (m as u128) * w;
        let rest = total_pheromone.saturating_sub(prefix);
        if rest == 0 {
            break;
        }
        if saturating_mul_u128(remaining, top[m] as u128) >= saturating_mul_u128(w, rest) {
            prefix = prefix.saturating_add(top[m] as u128);
            m += 1;
        } else {
            break;
        }
    }
    proof {
        lemma_cap_walk_range(total_pheromone as int, top@, w as int, max_m as int, 0, 0);
        assert((m as int) * (w as int) <= (max_m as int) * (w as int)) by (nonlinear_arith)
            requires
                m <= max_m,
                w > 0,
        ;
    }
    CapLevel {
        capped_count: m as u16,
        remaining_bps: (BPS_DENOM - (m as u128) * w) as u16,
        rest_sum: total_pheromone.saturating_sub(prefix),
    }
}

/// Whether a trail sits at the concentration cap under the solved level.
pub open spec fn spec_is_capped(pheromone: u64, level: CapLevel, eff_w_max_bps: u16) -> bool {
    pheromone != 0 && sat_mul_u128(level.remaining_bps as int, pheromone as int) >= sat_mul_u128(
        eff_w_max_bps as int,
        level.rest_sum as int,
    )
}

pub fn is_capped(pheromone: u64, level: &CapLevel, eff_w_max_bps: u16) -> (r: bool)
    ensures
        r == spec_is_capped(pheromone, *level, eff_w_max_bps),
{
    if pheromone == 0 {
        return false;
    }
    saturating_mul_u128(level.remaining_bps as u128, pheromone as u128) >= saturating_mul_u128(
        eff_w_max_bps as u128,
        level.rest_sum,
    )
}

/// The divisor form `K = rest_sum * BPS / remaining_bps`, kept only so the
/// shape of the solution stays visible; nothing allocates through it.
pub fn alloc_divisor_of(level: &CapLevel) -> (k: u128)
    requires
        level.remaining_bps != 0 ==> level.rest_sum * 10_000 <= u128::MAX,
    ensures
        k == (if level.remaining_bps == 0 {
            0
        } else {
            level.rest_sum * 10_000 / (level.remaining_bps as int)
        }),
{
    if level.remaining_bps == 0 {
        return 0;
    }
    level.rest_sum * BPS_DENOM / (level.remaining_bps as u128)
}

pub open spec fn spec_weight_bps_from_level(pheromone: u64, level: CapLevel, eff_w_max_bps: u16) -> u16 {
    if pheromone == 0 {
        0
    } else if spec_is_capped(pheromone, level, eff_w_max_bps) {
        eff_w_max_bps
    } else if level.rest_sum == 0 {
        0
    } else {
        ((level.remaining_bps * pheromone) / (level.rest_sum as int)) as u16
    }
}

/// A forager's weight in bps under the solved level; never above the cap.
pub fn weight_bps_from_level(pheromone: u64, level: &CapLevel, eff_w_max_bps: u16) -> (r: u16)
    ensures
        r == spec_weight_bps_from_level(pheromone, *level, eff_w_max_bps),
        r <= eff_w_max_bps,
{
    if pheromone == 0 {
        return 0;
    }
    if is_capped(pheromone, level, eff_w_max_bps) {
        return eff_w_max_bps;
    }
    if level.rest_sum == 0 {
        return 0;
    }
    let rem = level.remaining_bps as u128;
    let p = pheromone as u128;
    assert(rem * p <= 65_535 * 18_446_744_073_709_551_615) by (nonlinear_arith)
        requires
            rem <= 65_535,
            p <= 18_446_744_073_709_551_615,
    ;
    let q = rem * p / level.rest_sum;
    proof {
        let w = eff_w_max_bps as int;
        let rest = level.rest_sum as int;
        if w * rest <= u128::MAX {
            assert(rem * p < w * rest);
            assert((rem * p) / rest < w) by (nonlinear_arith)
                requires
                    rem * p < w * rest,
                    rest > 0,
            ;
        } else {
            assert(rest * 65_535 >= w * rest) by (nonlinear_arith)
                requires
                    w <= 65_535,
                    rest > 0,
            ;
            assert((rem * p) / rest == 0) by (nonlinear_arith)
                requires
                    rem * p <= 65_535 * 18_446_744_073_709_551_615,
                    rest * 65_535 > u128::MAX,
                    rest > 0,
            ;
        }
    }
    q as u16
}

pub open spec fn spec_allocation_target(
    pheromone: u64,
    level: CapLevel,
    pool: u64,
    eff_w_max_bps: u16,
) -> u64 {
    if pheromone == 0 || pool == 0 {
        0
    } else if spec_is_capped(pheromone, level, eff_w_max_bps) {
        ((pool * eff_w_max_bps) / 10_000) as u64
    } else if level.rest_sum == 0 {
        0
    } else {
        let num = sat_mul_u128(sat_mul_u128(pool as int, pheromone as int), level.remaining_bps as int);
        (num / (10_000 * level.rest_sum)) as u64
    }
}

/// Capital target for a forager: exactly `pool * w_max / BPS` when capped,
/// otherwise `pool * tau * remaining_bps / (BPS * rest_sum)` divided once.
pub fn allocation_target(pheromone: u64, level: &CapLevel, pool: u64, eff_w_max_bps: u16) -> (r: u64)
    requires
        !(pheromone == 0 || pool == 0 || spec_is_capped(pheromone, *level, eff_w_max_bps)
            || level.rest_sum == 0) ==> 10_000 * level.rest_sum <= u128::MAX,
    ensures
        r == spec_allocation_target(pheromone, *level, pool, eff_w_max_bps),
{
    if pheromone == 0 || pool == 0 {
        return 0;
    }
    if is_capped(pheromone, level, eff_w_max_bps) {
        assert((pool as int) * (eff_w_max_bps as int) <= 18_446_744_073_709_551_615 * 65_535)
            by (nonlinear_arith)
            requires
                pool <= 18_446_744_073_709_551_615,
                eff_w_max_bps <= 65_535,
        ;
        return ((pool as u128) * (eff_w_max_bps as u128) / BPS_DENOM) as u64;
    }
    if level.rest_sum == 0 {
        return 0;
    }
    let num = saturating_mul_u128(
        saturating_mul_u128(pool as u128, pheromone as u128),
        level.remaining_bps as u128,
    );
    (num / (BPS_DENOM * level.rest_sum)) as u64
}


/// No trail is ever targeted above the concentration cap: every target is at
/// most `pool * w / BPS`, and a capped trail receives exactly that.
pub proof fn lemma_no_target_exceeds_the_cap(pheromone: u64, level: CapLevel, pool: u64, w: u16)
    requires
        w <= 10_000,
    ensures
        spec_allocation_target(pheromone, level, pool, w) <= (pool * w) / 10_000,
        pheromone > 0 && spec_is_capped(pheromone, level, w) ==> spec_allocation_target(
            pheromone,
            level,
            pool,
            w,
        ) == (pool * w) / 10_000,
{
    let target = spec_allocation_target(pheromone, level, pool, w);
    assert((pool as int) * (w as int) <= 18_446_744_073_709_551_615 * 10_000) by (nonlinear_arith)
        requires
            pool <= 18_446_744_073_709_551_615,
            w <= 10_000,
    ;
    if pheromone == 0 || pool == 0 || spec_is_capped(pheromone, level, w) || level.rest_sum == 0 {
    } else {
        let p = pool as int;
        let t = pheromone as int;
        let rem = level.remaining_bps as int;
        let rest = level.rest_sum as int;
        let ww = w as int;
        // Not capped: the trail's share of what is left sits under the cap.
        assert(rem * t < ww * rest) by {
            if rem * t <= u128::MAX {
                assert(sat_mul_u128(rem, t) == rem * t);
                assert(sat_mul_u128(rem, t) < sat_mul_u128(ww, rest));
            } else {
                assert(sat_mul_u128(rem, t) == u128::MAX);
            }
        }
        let num = sat_mul_u128(sat_mul_u128(p, t), rem);
        assert(0 <= p * t) by (nonlinear_arith)
            requires
                p >= 0,
                t >= 0,
        ;
        assert(sat_mul_u128(p, t) <= p * t);
        assert(0 <= sat_mul_u128(p, t));
        assert(num <= sat_mul_u128(p, t) * rem) by (nonlinear_arith)
            requires
                num == sat_mul_u128(sat_mul_u128(p, t), rem),
                sat_mul_u128(p, t) >= 0,
                rem >= 0,
        ;
        assert(sat_mul_u128(p, t) * rem <= p * t * rem) by (nonlinear_arith)
            requires
                sat_mul_u128(p, t) <= p * t,
                rem >= 0,
        ;
        assert(p * t * rem <= p * (ww * rest)) by (nonlinear_arith)
            requires
                rem * t < ww * rest,
                p > 0,
        ;
        assert(num / (10_000 * rest) <= (p * ww) / 10_000) by (nonlinear_arith)
            requires
                0 <= num <= p * (ww * rest),
                rest > 0,
                p >= 0,
                ww >= 0,
        ;
        assert(num / (10_000 * rest) <= u64::MAX) by (nonlinear_arith)
            requires
                num / (10_000 * rest) <= (p * ww) / 10_000,
                p * ww <= 18_446_744_073_709_551_615 * 10_000,
        ;
    }
}

// ---------------------------------------------------------------------------
// The pool bound of the water-filling solution
// ---------------------------------------------------------------------------

pub open spec fn seq_sum(s: Seq<u64>) -> int
    decreases s.len(),
{
    if s.len() == 0 {
        0
    } else {
        seq_sum(s.drop_last()) + s.last()
    }
}

pub open spec fn sorted_desc(s: Seq<u64>) -> bool {
    forall|i: int, j: int| 0 <= i <= j < s.len() ==> s[i] >= s[j]
}

/// The capital the targets of every trail in `taus` add up to.
pub open spec fn sum_allocation_targets(taus: Seq<u64>, level: CapLevel, pool: u64, w: u16) -> int
    decreases taus.len(),
{
    if taus.len() == 0 {
        0
    } else {
        sum_allocation_targets(taus.drop_last(), level, pool, w) + spec_allocation_target(
            taus.last(),
            level,
            pool,
            w,
        )
    }
}

proof fn lemma_seq_sum_take_step(s: Seq<u64>, n: int)
    requires
        0 <= n < s.len(),
    ensures
        seq_sum(s.take(n + 1)) == seq_sum(s.take(n)) + s[n],
{
    assert(s.take(n + 1).drop_last() =~= s.take(n));
}

proof fn lemma_seq_sum_take_monotone(s: Seq<u64>, a: int, b: int)
    requires
        0 <= a <= b <= s.len(),
    ensures
        0 <= seq_sum(s.take(a)) <= seq_sum(s.take(b)),
        a < b ==> seq_sum(s.take(a)) + s[b - 1] <= seq_sum(s.take(b)),
    decreases b - a,
{
    if a == b {
        lemma_seq_sum_nonneg(s.take(a));
    } else {
        lemma_seq_sum_take_monotone(s, a, b - 1);
        lemma_seq_sum_take_step(s, b - 1);
    }
}

proof fn lemma_seq_sum_nonneg(s: Seq<u64>)
    ensures
        seq_sum(s) >= 0,
    decreases s.len(),
{
    if s.len() > 0 {
        lemma_seq_sum_nonneg(s.drop_last());
    }
}

proof fn lemma_seq_sum_take_all(s: Seq<u64>)
    ensures
        seq_sum(s.take(s.len() as int)) == seq_sum(s),
{
    assert(s.take(s.len() as int) =~= s);
}

proof fn lemma_sum_targets_take_step(taus: Seq<u64>, level: CapLevel, pool: u64, w: u16, n: int)
    requires
        0 <= n < taus.len(),
    ensures
        sum_allocation_targets(taus.take(n + 1), level, pool, w) == sum_allocation_targets(
            taus.take(n),
            level,
            pool,
            w,
        ) + spec_allocation_target(taus[n], level, pool, w),
{
    assert(taus.take(n + 1).drop_last() =~= taus.take(n));
}

/// What the walk establishes: its capped set is a prefix of the ranking, and
/// the last capped trail still passes the cap test against the final level.
proof fn lemma_cap_walk_capped(total: int, top: Seq<u64>, w: int, max_m: int, m: int, prefix: int)
    requires
        total == seq_sum(top),
        total <= u128::MAX,
        0 <= m <= max_m <= top.len(),
        w > 0,
        max_m * w <= 9_999,
        prefix == seq_sum(top.take(m)),
        m > 0 ==> top[m - 1] > 0 && (10_000 - m * w) * top[m - 1] >= w * (total - prefix),
    ensures
        ({
            let (mf, pf) = cap_walk(total, top, w, max_m, m, prefix);
            &&& m <= mf <= max_m
            &&& pf == seq_sum(top.take(mf))
            &&& mf > 0 ==> top[mf - 1] > 0 && (10_000 - mf * w) * top[mf - 1] >= w * (total - pf)
        }),
    decreases max_m - m,
{
    lemma_seq_sum_take_monotone(top, m, top.len() as int);
    lemma_seq_sum_take_all(top);
    if m < max_m {
        let remaining = 10_000 - m * w;
        let rest = sat_sub(total, prefix);
        assert(rest == total - prefix);
        let t = top[m] as int;
        assert(m * w <= max_m * w) by (nonlinear_arith)
            requires
                m <= max_m,
                w > 0,
        ;
        assert(0 < remaining <= 10_000);
        assert(remaining * t <= 10_000 * 18_446_744_073_709_551_615) by (nonlinear_arith)
            requires
                0 < remaining <= 10_000,
                0 <= t <= 18_446_744_073_709_551_615,
        ;
        if rest != 0 && sat_mul_u128(remaining, t) >= sat_mul_u128(w, rest) {
            assert(w * rest <= remaining * t);
            assert(w * rest > 0) by (nonlinear_arith)
                requires
                    w > 0,
                    rest > 0,
            ;
            assert(t > 0) by (nonlinear_arith)
                requires
                    w * rest <= remaining * t,
                    w * rest > 0,
                    remaining > 0,
                    t >= 0,
            ;
            lemma_seq_sum_take_step(top, m);
            lemma_seq_sum_take_monotone(top, m + 1, top.len() as int);
            assert(sat_add_u128(prefix, t) == prefix + t);
            assert((10_000 - (m + 1) * w) * t >= w * (total - (prefix + t))) by (nonlinear_arith)
                requires
                    (10_000 - m * w) * t >= w * (total - prefix),
            ;
            lemma_cap_walk_capped(total, top, w, max_m, m + 1, prefix + t);
        }
    }
}

#[verifier::spinoff_prover]
#[verifier::rlimit(40)]
/// Per-trail bounds of the solved targets. A trail the walk capped receives
/// `pool * w / BPS`; every other trail receives at most its share
/// `pool * remaining * tau / (BPS * rest)` of what the capped set left.
proof fn lemma_target_bounds(taus: Seq<u64>, pool: u64, w: u16, i: int)
    requires
        sorted_desc(taus),
        seq_sum(taus) <= u128::MAX,
        taus.len() <= u32::MAX,
        0 <= i < taus.len(),
    ensures
        ({
            let level = spec_solve_cap_level(seq_sum(taus) as u128, taus, taus.len() as u32, w);
            let m = level.capped_count as int;
            let rem = level.remaining_bps as int;
            let rest = level.rest_sum as int;
            let target = spec_allocation_target(taus[i], level, pool, w) as int;
            &&& 0 <= m <= taus.len()
            &&& 1 <= rem <= 10_000
            &&& m * w + rem == 10_000
            &&& rest == seq_sum(taus) - seq_sum(taus.take(m))
            &&& i < m ==> target * 10_000 <= pool * w
            &&& i >= m ==> target * 10_000 * rest <= pool * rem * taus[i]
            &&& i >= m && rest == 0 ==> target == 0
        }),
{
    let total = seq_sum(taus);
    let level = spec_solve_cap_level(total as u128, taus, taus.len() as u32, w);
    let t = taus[i] as int;
    let target = spec_allocation_target(taus[i], level, pool, w) as int;
    lemma_seq_sum_take_monotone(taus, 0, taus.len() as int);
    lemma_seq_sum_take_all(taus);
    assert(taus.take(0) =~= Seq::<u64>::empty());
    let m: int;
    if total == 0 || taus.len() == 0 || w == 0 {
        m = 0;
        assert(level.capped_count == 0);
    } else {
        let wi = w as int;
        let max_m = cap_walk_limit(taus.len() as int, taus.len() as u32, w);
        assert(max_m * wi <= 9_999) by (nonlinear_arith)
            requires
                max_m <= 9_999int / wi,
                wi > 0,
        ;
        lemma_cap_walk_capped(total, taus, wi, max_m, 0, 0);
        let (mf, pf) = cap_walk(total, taus, wi, max_m, 0, 0);
        m = mf;
        assert(mf * wi <= max_m * wi) by (nonlinear_arith)
            requires
                mf <= max_m,
                wi > 0,
        ;
        lemma_seq_sum_take_monotone(taus, mf, taus.len() as int);
    }
    let rem = level.remaining_bps as int;
    let rest = level.rest_sum as int;
    assert(m == level.capped_count);
    assert(rest == total - seq_sum(taus.take(m)));
    assert(rem * t <= 10_000 * 18_446_744_073_709_551_615) by (nonlinear_arith)
        requires
            0 < rem <= 10_000,
            0 <= t <= 18_446_744_073_709_551_615,
    ;
    if i < m {
        // The walk admitted taus[m - 1]; taus[i] is at least as large.
        let tl = taus[m - 1] as int;
        assert(tl <= t);
        assert(rem * tl <= rem * t) by (nonlinear_arith)
            requires
                tl <= t,
                rem > 0,
        ;
        assert(w * rest <= rem * t);
        assert(spec_is_capped(taus[i], level, w));
        assert(w <= 9_999) by (nonlinear_arith)
            requires
                m * w <= 9_999,
                m >= 1,
                w >= 0,
        ;
        if pool != 0 {
            assert(pool * w / 10_000 <= pool) by (nonlinear_arith)
                requires
                    w <= 9_999,
                    pool >= 0,
            ;
            assert((pool * w / 10_000) * 10_000 <= pool * w) by (nonlinear_arith)
                requires
                    pool * w >= 0,
            ;
        }
    } else {
        lemma_seq_sum_take_monotone(taus, m, i);
        lemma_seq_sum_take_monotone(taus, i + 1, taus.len() as int);
        lemma_seq_sum_take_step(taus, i);
        assert(t <= rest);
        if t != 0 && pool != 0 {
            if spec_is_capped(taus[i], level, w) {
                assert(w * rest <= rem * t);
                assert(rem * t <= rem * rest) by (nonlinear_arith)
                    requires
                        t <= rest,
                        rem > 0,
                ;
                assert(w <= rem) by (nonlinear_arith)
                    requires
                        w * rest <= rem * rest,
                        rest > 0,
                ;
                assert(pool * w / 10_000 <= pool) by (nonlinear_arith)
                    requires
                        w <= 10_000,
                        pool >= 0,
                ;
                assert((pool * w / 10_000) * 10_000 * rest <= pool * rem * t) by (nonlinear_arith)
                    requires
                        w * rest <= rem * t,
                        pool >= 0,
                        w >= 0,
                        rest >= 0,
                ;
            } else {
                let pt = sat_mul_u128(pool as int, t);
                let num = sat_mul_u128(pt, rem);
                assert(pt <= pool * t);
                assert(num <= pt * rem);
                assert(pt * rem <= pool * t * rem) by (nonlinear_arith)
                    requires
                        pt <= pool * t,
                        rem >= 0,
                ;
                let d = 10_000 * rest;
                assert(d > 0);
                assert(pool * t * rem <= pool * d) by (nonlinear_arith)
                    requires
                        t <= rest,
                        rem <= 10_000,
                        pool >= 0,
                        t >= 0,
                        rem >= 0,
                        d == 10_000 * rest,
                ;
                assert(num / d <= pool) by (nonlinear_arith)
                    requires
                        0 <= num <= pool * d,
                        d > 0,
                ;
                assert(num >= 0);
                assert((num / d) * d <= num) by (nonlinear_arith)
                    requires
                        num >= 0,
                        d > 0,
                ;
                assert(target == num / d);
                assert(target * 10_000 * rest <= pool * rem * t) by (nonlinear_arith)
                    requires
                        target * d <= num,
                        num <= pool * t * rem,
                        d == 10_000 * rest,
                ;
            }
        }
    }
    assert(0 <= m <= taus.len());
    assert(1 <= rem <= 10_000);
    assert(m * w + rem == 10_000);
    assert(i < m ==> target * 10_000 <= pool * w);
    assert(i >= m ==> target * 10_000 * rest <= pool * rem * taus[i]);
    assert(i >= m && rest == 0 ==> target == 0);
}

#[verifier::spinoff_prover]
#[verifier::rlimit(40)]
proof fn lemma_sum_targets_rest(
    taus: Seq<u64>,
    level: CapLevel,
    pool: u64,
    w: u16,
    m: int,
    n: int,
)
    requires
        0 <= m <= taus.len(),
        0 <= n <= taus.len(),
        level.rest_sum > 0,
        forall|i: int|
            0 <= i < m ==> (spec_allocation_target(#[trigger] taus[i], level, pool, w) as int) * 10_000
                <= pool * w,
        forall|i: int|
            m <= i < taus.len() ==> (spec_allocation_target(#[trigger] taus[i], level, pool, w)
                as int) * 10_000 * level.rest_sum <= pool * level.remaining_bps * taus[i],
    ensures
        sum_allocation_targets(taus.take(n), level, pool, w) * 10_000 * level.rest_sum <= pool * w
            * level.rest_sum * min_int(n, m) + pool * level.remaining_bps * (seq_sum(taus.take(n))
            - seq_sum(taus.take(min_int(n, m)))),
    decreases n,
{
    let rest = level.rest_sum as int;
    let rem = level.remaining_bps as int;
    if n == 0 {
        assert(taus.take(0) =~= Seq::<u64>::empty());
        assert(min_int(n, m) == 0);
        assert(sum_allocation_targets(taus.take(0), level, pool, w) == 0);
        assert(pool * w * level.rest_sum * 0 == 0);
        assert(pool * level.remaining_bps * (seq_sum(taus.take(0)) - seq_sum(taus.take(0))) == 0)
            by (nonlinear_arith);
        assert(0int * 10_000 * level.rest_sum == 0);
    } else {
        lemma_sum_targets_rest(taus, level, pool, w, m, n - 1);
        lemma_sum_targets_take_step(taus, level, pool, w, n - 1);
        lemma_seq_sum_take_step(taus, n - 1);
        let prev = sum_allocation_targets(taus.take(n - 1), level, pool, w);
        let tg = spec_allocation_target(taus[n - 1], level, pool, w) as int;
        let t = taus[n - 1] as int;
        let ss_prev = seq_sum(taus.take(n - 1));
        let a = pool * w * rest;
        let b = pool * rem;
        assert(sum_allocation_targets(taus.take(n), level, pool, w) == prev + tg);
        assert((prev + tg) * 10_000 * rest == prev * 10_000 * rest + tg * 10_000 * rest)
            by (nonlinear_arith);
        if n - 1 < m {
            assert(tg * 10_000 <= pool * w);
            assert(tg * 10_000 * rest <= pool * w * rest) by (nonlinear_arith)
                requires
                    tg * 10_000 <= pool * w,
                    rest > 0,
            ;
            assert(min_int(n, m) == n);
            assert(min_int(n - 1, m) == n - 1);
            assert(prev * 10_000 * rest <= a * (n - 1) + b * (ss_prev - ss_prev));
            assert(b * (ss_prev - ss_prev) == 0) by (nonlinear_arith);
            assert(b * (seq_sum(taus.take(n)) - seq_sum(taus.take(n))) == 0) by (nonlinear_arith);
            assert(a * n == a * (n - 1) + a) by (nonlinear_arith);
            assert((prev + tg) * 10_000 * rest <= a * n + b * (seq_sum(taus.take(n)) - seq_sum(
                taus.take(n),
            )));
            assert(a * n == pool * w * level.rest_sum * min_int(n, m));
        } else {
            assert(tg * 10_000 * rest <= pool * rem * t);
            assert(min_int(n, m) == m);
            assert(min_int(n - 1, m) == m);
            let base = seq_sum(taus.take(m));
            assert(prev * 10_000 * rest <= a * m + b * (ss_prev - base));
            assert(b * ((ss_prev + t) - base) == b * (ss_prev - base) + b * t) by (nonlinear_arith);
            assert(pool * rem * t == b * t) by (nonlinear_arith)
                requires
                    b == pool * rem,
            ;
            assert((prev + tg) * 10_000 * rest <= a * m + b * (seq_sum(taus.take(n)) - base));
            assert(a * m == pool * w * level.rest_sum * min_int(n, m));
        }
    }
}

proof fn lemma_sum_targets_no_rest(
    taus: Seq<u64>,
    level: CapLevel,
    pool: u64,
    w: u16,
    m: int,
    n: int,
)
    requires
        0 <= m <= taus.len(),
        0 <= n <= taus.len(),
        forall|i: int|
            0 <= i < m ==> (spec_allocation_target(#[trigger] taus[i], level, pool, w) as int) * 10_000
                <= pool * w,
        forall|i: int|
            m <= i < taus.len() ==> spec_allocation_target(#[trigger] taus[i], level, pool, w) == 0,
    ensures
        sum_allocation_targets(taus.take(n), level, pool, w) * 10_000 <= pool * w * min_int(n, m),
    decreases n,
{
    if n == 0 {
        assert(taus.take(0) =~= Seq::<u64>::empty());
    } else {
        lemma_sum_targets_no_rest(taus, level, pool, w, m, n - 1);
        lemma_sum_targets_take_step(taus, level, pool, w, n - 1);
        if n - 1 < m {
            assert(pool * w * n == pool * w * (n - 1) + pool * w) by (nonlinear_arith);
        }
    }
}

/// The targets of a colony never add up to more than the pool.
///
/// For every pheromone vector, taken in descending order with the level solved
/// over all of it, the per-forager targets sum to at most `pool`: the capped
/// trails take `w_max` each, the rest share what they leave, and truncation
/// only ever leaves dust behind in the vault.
pub proof fn lemma_allocation_never_exceeds_the_pool(taus: Seq<u64>, pool: u64, eff_w_max_bps: u16)
    requires
        sorted_desc(taus),
        seq_sum(taus) <= u128::MAX,
        taus.len() <= u32::MAX,
    ensures
        sum_allocation_targets(
            taus,
            spec_solve_cap_level(seq_sum(taus) as u128, taus, taus.len() as u32, eff_w_max_bps),
            pool,
            eff_w_max_bps,
        ) <= pool,
{
    let w = eff_w_max_bps;
    let level = spec_solve_cap_level(seq_sum(taus) as u128, taus, taus.len() as u32, w);
    let len = taus.len() as int;
    let m = level.capped_count as int;
    let rem = level.remaining_bps as int;
    let rest = level.rest_sum as int;
    if len == 0 {
        return;
    }
    lemma_target_bounds(taus, pool, w, 0);
    assert forall|i: int| 0 <= i < len implies {
        let target = spec_allocation_target(#[trigger] taus[i], level, pool, w) as int;
        &&& i < m ==> target * 10_000 <= pool * w
        &&& i >= m ==> target * 10_000 * rest <= pool * rem * taus[i]
        &&& i >= m && rest == 0 ==> target == 0
    } by {
        lemma_target_bounds(taus, pool, w, i);
    }
    assert(taus.take(len) =~= taus);
    lemma_seq_sum_take_all(taus);
    if rest > 0 {
        lemma_sum_targets_rest(taus, level, pool, w, m, len);
        let total_t = sum_allocation_targets(taus, level, pool, w);
        assert(min_int(len, m) == m);
        assert(seq_sum(taus) - seq_sum(taus.take(m)) == rest);
        assert(total_t * 10_000 * rest <= pool * w * rest * m + pool * rem * rest);
        assert(pool * w * rest * m + pool * rem * rest == pool * rest * 10_000) by (nonlinear_arith)
            requires
                m * w + rem == 10_000,
        ;
        assert(total_t <= pool) by (nonlinear_arith)
            requires
                total_t * 10_000 * rest <= pool * rest * 10_000,
                rest > 0,
        ;
    } else {
        lemma_sum_targets_no_rest(taus, level, pool, w, m, len);
        let total_t = sum_allocation_targets(taus, level, pool, w);
        assert(min_int(len, m) == m);
        assert(pool * w * m <= pool * 10_000) by (nonlinear_arith)
            requires
                m * w + rem == 10_000,
                rem >= 1,
                pool >= 0,
        ;
        assert(total_t <= pool);
    }
}


// ---------------------------------------------------------------------------
// The trail board: a descending top list of fixed size
// ---------------------------------------------------------------------------

/// The slot a value enters a descending list at: the first of the `occupied`
/// slots it exceeds, or the first free slot.
pub open spec fn top_insert_position(top: Seq<u64>, occupied: int, value: u64, i: int) -> int
    decreases occupied - i,
{
    if i >= occupied {
        occupied
    } else if value > top[i] {
        i
    } else {
        top_insert_position(top, occupied, value, i + 1)
    }
}

proof fn lemma_top_insert_position(top: Seq<u64>, occupied: int, value: u64, i: int)
    requires
        0 <= i <= occupied <= top.len(),
    ensures
        i <= top_insert_position(top, occupied, value, i) <= occupied,
        forall|j: int|
            i <= j < top_insert_position(top, occupied, value, i) ==> value <= top[j],
        top_insert_position(top, occupied, value, i) < occupied ==> value > top[top_insert_position(
            top,
            occupied,
            value,
            i,
        )],
    decreases occupied - i,
{
    if i < occupied && !(value > top[i]) {
        lemma_top_insert_position(top, occupied, value, i + 1);
    }
}

/// The list after inserting `value`, and its new occupied count.
pub open spec fn spec_top_insert(top: Seq<u64>, count: u8, value: u64) -> (Seq<u64>, u8) {
    let len = TOP_TRAILS_LEN as int;
    let occupied = min_int(count as int, len);
    if occupied == len && value <= top[len - 1] {
        (top, count)
    } else {
        let pos = top_insert_position(top, occupied, value, 0);
        (top.take(pos).push(value) + top.subrange(pos, len - 1), min_int(occupied + 1, len) as u8)
    }
}

/// Insert a value into a descending-ordered fixed-size top list and return
/// the number of occupied slots afterwards. Once the list is full, a value no
/// larger than the smallest tracked one is rejected; otherwise the smallest
/// falls off the end.
pub fn top_insert(top: &mut [u64; TOP_TRAILS_LEN], count: u8, value: u64) -> (r: u8)
    ensures
        (final(top)@, r) == spec_top_insert(old(top)@, count, value),
{
    let len = TOP_TRAILS_LEN;
    let occupied: usize = if (count as usize) < len { count as usize } else { len };
    let ghost old_top = top@;

    if occupied == len && value <= top[len - 1] {
        return count;
    }
    let mut pos = occupied;
    let mut i: usize = 0;
    while i < occupied
        invariant_except_break
            pos == occupied,
        invariant
            0 <= i <= occupied <= len,
            len == TOP_TRAILS_LEN,
            top@ == old_top,
            top_insert_position(old_top, occupied as int, value, i as int) == top_insert_position(
                old_top,
                occupied as int,
                value,
                0,
            ),
        ensures
            pos == top_insert_position(old_top, occupied as int, value, 0),
        decreases occupied - i,
    {
        if value > top[i] {
            pos = i;
            break;
        }
        i += 1;
    }
    proof {
        lemma_top_insert_position(old_top, occupied as int, value, 0);
    }
    if pos >= len {
        return count;
    }
    let mut i = len - 1;
    while i > pos
        invariant
            pos < len,
            len == TOP_TRAILS_LEN,
            pos <= i < len,
            top@.len() == len,
            forall|j: int| 0 <= j <= i ==> top@[j] == old_top[j],
            forall|j: int| i < j < len ==> top@[j] == old_top[j - 1],
        decreases i,
    {
        top[i] = top[i - 1];
        i -= 1;
    }
    top[pos] = value;
    assert(top@ =~= old_top.take(pos as int).push(value) + old_top.subrange(pos as int, len - 1));
    if occupied + 1 < len {
        (occupied + 1) as u8
    } else {
        len as u8
    }
}

/// Inserting into a descending list keeps the occupied prefix descending.
pub proof fn lemma_top_insert_keeps_descending_order(top: Seq<u64>, count: u8, value: u64)
    requires
        top.len() == TOP_TRAILS_LEN,
        sorted_desc(top.take(min_int(count as int, TOP_TRAILS_LEN as int))),
    ensures
        ({
            let (after, r) = spec_top_insert(top, count, value);
            sorted_desc(after.take(min_int(r as int, TOP_TRAILS_LEN as int)))
        }),
{
    let len = TOP_TRAILS_LEN as int;
    let occupied = min_int(count as int, len);
    let before = top;
    let (after, r) = spec_top_insert(top, count, value);
    if !(occupied == len && value <= before[len - 1]) {
        let pos = top_insert_position(before, occupied, value, 0);
        lemma_top_insert_position(before, occupied, value, 0);
        let n = min_int(r as int, len);
        let a = after.take(n);
        let b = before.take(occupied);
        assert forall|i: int, j: int| 0 <= i <= j < a.len() implies a[i] >= a[j] by {
            // Old entries keep their order on both sides of the new one; the
            // new one sits below every earlier entry and above every later one.
            if j < pos {
                assert(a[i] == b[i] && a[j] == b[j]);
            } else if j == pos {
                if i < pos {
                    assert(a[i] == before[i]);
                }
            } else {
                assert(a[j] == b[j - 1]);
                if i < pos {
                    assert(a[i] == b[i]);
                } else if i == pos {
                    assert(pos < occupied);
                    assert(value > b[pos]);
                } else {
                    assert(a[i] == b[i - 1]);
                }
            }
        }
    }
}

/// Inserting into a list at the slot `top_insert_position` picks, with no
/// capacity limit.
pub open spec fn sorted_insert(s: Seq<u64>, value: u64) -> Seq<u64> {
    let pos = top_insert_position(s, s.len() as int, value, 0);
    s.take(pos).push(value) + s.subrange(pos, s.len() as int)
}

/// Inserting into a list that holds at most `TOP_TRAILS_LEN` entries: the
/// smallest entry falls off once it is full.
pub open spec fn bounded_insert(s: Seq<u64>, value: u64) -> Seq<u64> {
    sorted_insert(s, value).take(min_int(s.len() + 1int, TOP_TRAILS_LEN as int))
}

proof fn lemma_sorted_insert_len(s: Seq<u64>, value: u64)
    ensures
        sorted_insert(s, value).len() == s.len() + 1,
{
    lemma_top_insert_position(s, s.len() as int, value, 0);
}

/// The slot is the unique one with nothing smaller than `value` before it and,
/// if it is occupied, a smaller entry in it.
proof fn lemma_insert_position_unique(s: Seq<u64>, value: u64, p: int)
    requires
        0 <= p <= s.len(),
        forall|j: int| 0 <= j < p ==> value <= s[j],
        p < s.len() ==> value > s[p],
    ensures
        top_insert_position(s, s.len() as int, value, 0) == p,
{
    let q = top_insert_position(s, s.len() as int, value, 0);
    lemma_top_insert_position(s, s.len() as int, value, 0);
    if q < p {
        assert(value <= s[q]);
    } else if p < q {
        assert(value <= s[p]);
    }
}

/// Only the first `occupied` entries decide the slot.
proof fn lemma_insert_position_reads_the_prefix(top: Seq<u64>, occupied: int, value: u64, i: int)
    requires
        0 <= i <= occupied <= top.len(),
    ensures
        top_insert_position(top, occupied, value, i) == top_insert_position(
            top.take(occupied),
            occupied,
            value,
            i,
        ),
    decreases occupied - i,
{
    if i < occupied {
        lemma_insert_position_reads_the_prefix(top, occupied, value, i + 1);
    }
}

/// Truncating before or after an insertion keeps the same first `k` entries.
proof fn lemma_insert_then_take(t: Seq<u64>, k: int, value: u64)
    requires
        0 <= k <= t.len(),
    ensures
        sorted_insert(t.take(k), value).take(k) == sorted_insert(t, value).take(k),
{
    let p = top_insert_position(t, t.len() as int, value, 0);
    lemma_top_insert_position(t, t.len() as int, value, 0);
    let tk = t.take(k);
    let pk = if p < k { p } else { k };
    assert forall|j: int| 0 <= j < pk implies value <= tk[j] by {}
    lemma_insert_position_unique(tk, value, pk);
    assert(sorted_insert(t.take(k), value).take(k) =~= sorted_insert(t, value).take(k));
}

/// Two insertions commute when the larger value goes in first.
proof fn lemma_insertions_commute_ordered(s: Seq<u64>, a: u64, b: u64)
    requires
        a > b,
    ensures
        sorted_insert(sorted_insert(s, a), b) == sorted_insert(sorted_insert(s, b), a),
{
    let n = s.len() as int;
    let pa = top_insert_position(s, n, a, 0);
    let pb = top_insert_position(s, n, b, 0);
    lemma_top_insert_position(s, n, a, 0);
    lemma_top_insert_position(s, n, b, 0);
    if pb < pa {
        assert(a <= s[pb]);
    }
    assert(pa <= pb);
    let s1 = sorted_insert(s, a);
    let s2 = sorted_insert(s, b);
    assert(s1.len() == n + 1);
    assert(s2.len() == n + 1);
    assert forall|j: int| 0 <= j < pb + 1 implies b <= s1[j] by {
        if j < pa {
            assert(s1[j] == s[j]);
        } else if j > pa {
            assert(s1[j] == s[j - 1]);
        }
    }
    if pb + 1 < n + 1 {
        assert(s1[pb + 1] == s[pb]);
    }
    lemma_insert_position_unique(s1, b, pb + 1);
    assert forall|j: int| 0 <= j < pa implies a <= s2[j] by {
        assert(s2[j] == s[j]);
    }
    if pa < pb {
        assert(s2[pa] == s[pa]);
    } else {
        assert(s2[pa] == b);
    }
    lemma_insert_position_unique(s2, a, pa);
    let r1 = sorted_insert(s1, b);
    let r2 = sorted_insert(s2, a);
    assert forall|k: int| 0 <= k < n + 2 implies r1[k] == r2[k] by {
        if k < pa {
            assert(r1[k] == s[k] && r2[k] == s[k]);
        } else if k == pa {
            assert(r1[k] == a && r2[k] == a);
        } else if k <= pb {
            assert(r1[k] == s1[k] && s1[k] == s[k - 1]);
            assert(r2[k] == s2[k - 1] && s2[k - 1] == s[k - 1]);
        } else if k == pb + 1 {
            assert(r1[k] == b);
            assert(r2[k] == s2[k - 1] && s2[k - 1] == b);
        } else {
            assert(r1[k] == s1[k - 1] && s1[k - 1] == s[k - 2]);
            assert(r2[k] == s2[k - 1] && s2[k - 1] == s[k - 2]);
        }
    }
    assert(r1 =~= r2);
}

/// Two insertions commute.
pub proof fn lemma_insertions_commute(s: Seq<u64>, a: u64, b: u64)
    ensures
        sorted_insert(sorted_insert(s, a), b) == sorted_insert(sorted_insert(s, b), a),
{
    if a > b {
        lemma_insertions_commute_ordered(s, a, b);
    } else if b > a {
        lemma_insertions_commute_ordered(s, b, a);
    }
}

/// Two insertions into a list of bounded capacity commute: what is kept is
/// the largest entries of everything inserted, whatever the order.
pub proof fn lemma_bounded_insertions_commute(s: Seq<u64>, a: u64, b: u64)
    requires
        s.len() <= TOP_TRAILS_LEN,
    ensures
        bounded_insert(bounded_insert(s, a), b) == bounded_insert(bounded_insert(s, b), a),
        bounded_insert(bounded_insert(s, a), b) == sorted_insert(sorted_insert(s, a), b).take(
            min_int(s.len() + 2int, TOP_TRAILS_LEN as int),
        ),
{
    let len = TOP_TRAILS_LEN as int;
    let n = s.len() as int;
    let k1 = min_int(n + 1, len);
    let k2 = min_int(n + 2, len);
    let ta = sorted_insert(s, a);
    let tb = sorted_insert(s, b);
    lemma_sorted_insert_len(s, a);
    lemma_sorted_insert_len(s, b);
    lemma_insertions_commute(s, a, b);
    if n + 1 <= len {
        assert(ta.take(k1) =~= ta);
        assert(tb.take(k1) =~= tb);
    } else {
        lemma_insert_then_take(ta, k1, b);
        lemma_insert_then_take(tb, k1, a);
    }
}

/// The board's tracked entries after an insertion are the bounded insertion
/// into the entries it tracked before, and it stays well formed.
pub proof fn lemma_top_insert_is_bounded_insert(top: Seq<u64>, count: u8, value: u64)
    requires
        top.len() == TOP_TRAILS_LEN,
        count <= TOP_TRAILS_LEN,
        sorted_desc(top.take(count as int)),
    ensures
        ({
            let (after, r) = spec_top_insert(top, count, value);
            &&& after.len() == TOP_TRAILS_LEN
            &&& r == min_int(count + 1, TOP_TRAILS_LEN as int)
            &&& sorted_desc(after.take(r as int))
            &&& after.take(r as int) == bounded_insert(top.take(count as int), value)
        }),
{
    let len = TOP_TRAILS_LEN as int;
    let c = count as int;
    let prefix = top.take(c);
    let (after, r) = spec_top_insert(top, count, value);
    lemma_top_insert_keeps_descending_order(top, count, value);
    lemma_insert_position_reads_the_prefix(top, c, value, 0);
    lemma_top_insert_position(top, c, value, 0);
    if c == len && value <= top[len - 1] {
        assert forall|j: int| 0 <= j < len implies value <= prefix[j] by {
            assert(prefix[j] >= prefix[len - 1]);
        }
        lemma_insert_position_unique(prefix, value, len);
        assert(bounded_insert(prefix, value) =~= top.take(c));
    } else {
        assert(after.take(r as int) =~= bounded_insert(prefix, value));
    }
}

/// An insertion neither loses nor invents entries.
proof fn lemma_sorted_insert_multiset(s: Seq<u64>, value: u64)
    ensures
        sorted_insert(s, value).to_multiset() =~= s.to_multiset().insert(value),
{
    broadcast use vstd::multiset::group_multiset_axioms;

    let n = s.len() as int;
    let p = top_insert_position(s, n, value, 0);
    lemma_top_insert_position(s, n, value, 0);
    let a = s.take(p);
    let b = s.subrange(p, n);
    assert(s =~= a + b);
    vstd::seq_lib::lemma_multiset_commutative(a.push(value), b);
    vstd::seq_lib::lemma_multiset_commutative(a, b);
    vstd::seq_lib::to_multiset_build(a, value);
}

/// The board keeps the largest trails: after an insertion its tracked
/// entries are drawn from the entries it tracked plus the new value, and
/// whatever it no longer tracks is no larger than anything it does.
pub proof fn lemma_top_insert_keeps_the_largest(top: Seq<u64>, count: u8, value: u64)
    requires
        top.len() == TOP_TRAILS_LEN,
        count <= TOP_TRAILS_LEN,
        sorted_desc(top.take(count as int)),
    ensures
        ({
            let (after, r) = spec_top_insert(top, count, value);
            let offered = top.take(count as int).push(value).to_multiset();
            let kept = after.take(r as int);
            &&& r == min_int(count + 1, TOP_TRAILS_LEN as int)
            &&& kept.to_multiset().subset_of(offered)
            &&& forall|x: u64|
                offered.count(x) > kept.to_multiset().count(x) ==> forall|j: int|
                    0 <= j < kept.len() ==> x <= #[trigger] kept[j]
        }),
{
    broadcast use vstd::multiset::group_multiset_axioms;

    let len = TOP_TRAILS_LEN as int;
    let c = count as int;
    let prefix = top.take(c);
    let (after, r) = spec_top_insert(top, count, value);
    lemma_top_insert_is_bounded_insert(top, count, value);
    let whole = sorted_insert(prefix, value);
    lemma_sorted_insert_len(prefix, value);
    lemma_sorted_insert_multiset(prefix, value);
    vstd::seq_lib::to_multiset_build(prefix, value);
    let offered = prefix.push(value).to_multiset();
    assert(offered =~= whole.to_multiset());
    let kept = after.take(r as int);
    assert(kept == whole.take(min_int(c + 1, len)));
    if c + 1 <= len {
        assert(kept =~= whole);
    } else {
        let dropped = whole[len];
        assert(whole =~= kept.push(dropped));
        vstd::seq_lib::to_multiset_build(kept, dropped);
        // The entry that falls off is the smallest one.
        let p = top_insert_position(prefix, c, value, 0);
        lemma_top_insert_position(prefix, c, value, 0);
        assert forall|j: int| 0 <= j < kept.len() implies dropped <= kept[j] by {
            if p == len {
                assert(dropped == value);
                assert(kept[j] == prefix[j]);
            } else {
                assert(dropped == prefix[len - 1]);
                if j < p {
                    assert(kept[j] == prefix[j]);
                } else if j == p {
                    assert(kept[j] == value);
                    assert(prefix[p] >= prefix[len - 1]);
                } else {
                    assert(kept[j] == prefix[j - 1]);
                }
            }
        }
        assert forall|x: u64| offered.count(x) > kept.to_multiset().count(x) implies forall|j: int|
            0 <= j < kept.len() ==> x <= #[trigger] kept[j] by {
            assert(x == dropped);
        }
    }
}

// ---------------------------------------------------------------------------
// Rebalancing controls
// ---------------------------------------------------------------------------

pub open spec fn spec_within_no_trade_band(current: u64, target: u64, pool: u64, band_bps: u16) -> bool {
    if band_bps == 0 || pool == 0 {
        false
    } else {
        let delta = if current >= target {
            current - target
        } else {
            target - current
        };
        delta < (pool * band_bps) / 10_000
    }
}

/// Whether a rebalance should be skipped because the target barely moved.
pub fn within_no_trade_band(current: u64, target: u64, pool: u64, band_bps: u16) -> (r: bool)
    ensures
        r == spec_within_no_trade_band(current, target, pool, band_bps),
{
    if band_bps == 0 || pool == 0 {
        return false;
    }
    let delta = (if current >= target {
        current - target
    } else {
        target - current
    }) as u128;
    assert((pool as int) * (band_bps as int) <= 18_446_744_073_709_551_615 * 65_535)
        by (nonlinear_arith)
        requires
            pool <= 18_446_744_073_709_551_615,
            band_bps <= 65_535,
    ;
    let band = (pool as u128) * (band_bps as u128) / BPS_DENOM;
    delta < band
}

pub open spec fn turnover_budget(pool: u64, turnover_cap_bps: u16) -> int {
    (pool * turnover_cap_bps) / 10_000
}

/// Clamp a rebalance move to the remaining per-epoch turnover budget.
pub fn apply_turnover_cap(desired: u64, moved_so_far: u64, pool: u64, turnover_cap_bps: u16) -> (r: u64)
    ensures
        r == (if moved_so_far >= turnover_budget(pool, turnover_cap_bps) {
            0
        } else {
            min_int(desired as int, turnover_budget(pool, turnover_cap_bps) - moved_so_far)
        }),
        r <= desired,
        moved_so_far + r <= max_int(moved_so_far as int, turnover_budget(pool, turnover_cap_bps)),
{
    assert((pool as int) * (turnover_cap_bps as int) <= 18_446_744_073_709_551_615 * 65_535)
        by (nonlinear_arith)
        requires
            pool <= 18_446_744_073_709_551_615,
            turnover_cap_bps <= 65_535,
    ;
    let budget = (pool as u128) * (turnover_cap_bps as u128) / BPS_DENOM;
    let used = moved_so_far as u128;
    if used >= budget {
        return 0;
    }
    if (desired as u128) < budget - used {
        desired
    } else {
        (budget - used) as u64
    }
}

// ---------------------------------------------------------------------------
// Shares (a virtual offset against the first-depositor attack)
// ---------------------------------------------------------------------------

pub const VIRTUAL_SHARES: u128 = 1_000_000;
pub const VIRTUAL_ASSETS: u128 = 1;

pub open spec fn spec_shares_for_deposit(assets: u64, total_shares: u128, nav: u64) -> int {
    (assets * (total_shares + 1_000_000)) / (nav + 1)
}

pub open spec fn spec_assets_for_shares(shares: u128, total_shares: u128, nav: u64) -> int {
    min_int((shares * (nav + 1)) / (total_shares + 1_000_000), u64::MAX as int)
}

/// Shares minted for a deposit, rounding down in the vault's favor. `nav` is
/// the accounting counter, never a live token balance.
pub fn shares_for_deposit(assets: u64, total_shares: u128, nav: u64) -> (r: u128)
    requires
        total_shares + VIRTUAL_SHARES <= u128::MAX,
        assets * (total_shares + VIRTUAL_SHARES) <= u128::MAX,
    ensures
        r == spec_shares_for_deposit(assets, total_shares, nav),
{
    (assets as u128) * (total_shares + VIRTUAL_SHARES) / (nav as u128 + VIRTUAL_ASSETS)
}

/// Assets returned for burning shares, rounding down in the vault's favor.
pub fn assets_for_shares(shares: u128, total_shares: u128, nav: u64) -> (r: u64)
    requires
        total_shares + VIRTUAL_SHARES <= u128::MAX,
        shares * (nav + VIRTUAL_ASSETS) <= u128::MAX,
    ensures
        r == spec_assets_for_shares(shares, total_shares, nav),
{
    let a = shares * (nav as u128 + VIRTUAL_ASSETS) / (total_shares + VIRTUAL_SHARES);
    if a < u64::MAX as u128 {
        a as u64
    } else {
        u64::MAX
    }
}

/// A deposit followed by the redemption of the shares it minted never returns
/// more than was deposited: rounding always favors the vault.
pub proof fn lemma_share_round_trip_never_favors_the_withdrawer(
    assets: u64,
    total_shares: u128,
    nav: u64,
)
    requires
        nav + assets <= u64::MAX,
        total_shares + VIRTUAL_SHARES <= u128::MAX,
        assets * (total_shares + VIRTUAL_SHARES) <= u128::MAX,
        total_shares + spec_shares_for_deposit(assets, total_shares, nav) + VIRTUAL_SHARES
            <= u128::MAX,
    ensures
        ({
            let minted = spec_shares_for_deposit(assets, total_shares, nav);
            minted >= 0 && spec_assets_for_shares(
                minted as u128,
                (total_shares + minted) as u128,
                (nav + assets) as u64,
            ) <= assets
        }),
{
    let a = assets as int;
    let t = total_shares as int + 1_000_000;
    let n = nav as int + 1;
    let s = (a * t) / n;
    assert(0 <= a * t) by (nonlinear_arith)
        requires
            a >= 0,
            t >= 0,
    ;
    assert(s * n <= a * t) by (nonlinear_arith)
        requires
            s == (a * t) / n,
            a * t >= 0,
            n > 0,
    ;
    assert(s >= 0);
    assert(s * (n + a) <= a * (t + s)) by (nonlinear_arith)
        requires
            s * n <= a * t,
    ;
    assert(0 <= s * (n + a)) by (nonlinear_arith)
        requires
            s >= 0,
            n + a >= 0,
    ;
    assert((s * (n + a)) / (t + s) <= a) by (nonlinear_arith)
        requires
            0 <= s * (n + a) <= a * (t + s),
            t + s > 0,
    ;
}

/// More net asset value behind the same shares never redeems for less.
pub proof fn lemma_redemption_value_is_monotone_in_nav(
    shares: u128,
    total_shares: u128,
    nav_low: u64,
    nav_high: u64,
)
    requires
        nav_low <= nav_high,
    ensures
        spec_assets_for_shares(shares, total_shares, nav_low) <= spec_assets_for_shares(
            shares,
            total_shares,
            nav_high,
        ),
{
    let d = total_shares as int + 1_000_000;
    assert(shares * (nav_low + 1) <= shares * (nav_high + 1)) by (nonlinear_arith)
        requires
            nav_low <= nav_high,
            shares >= 0,
    ;
    assert((shares * (nav_low + 1)) / d <= (shares * (nav_high + 1)) / d) by (nonlinear_arith)
        requires
            shares * (nav_low + 1) <= shares * (nav_high + 1),
            d > 0,
    ;
}

// ---------------------------------------------------------------------------
// Loss coverage and slashing
// ---------------------------------------------------------------------------

#[derive(Debug, Clone, Copy, PartialEq, Eq, Structural)]
pub struct LossOutcome {
    pub from_bond: u64,
    pub from_cache: u64,
    pub to_vault_loss: u64,
}

/// Absorb a realized loss in waterfall order: bond, then Risk Cache, then
/// depositor NAV. The three parts always add up to the loss, and neither
/// cushion gives more than it holds.
pub fn cover_loss(loss: u64, bond: u64, cache_balance: u64) -> (o: LossOutcome)
    ensures
        o.from_bond == min_int(loss as int, bond as int),
        o.from_cache == min_int(loss - o.from_bond, cache_balance as int),
        o.to_vault_loss == loss - o.from_bond - o.from_cache,
        o.from_bond + o.from_cache + o.to_vault_loss == loss,
        o.from_bond <= bond,
        o.from_cache <= cache_balance,
        o.from_cache > 0 ==> o.from_bond == bond,
        o.to_vault_loss > 0 ==> o.from_bond == bond && o.from_cache == cache_balance,
{
    let from_bond = if loss < bond { loss } else { bond };
    let rem = loss - from_bond;
    let from_cache = if rem < cache_balance { rem } else { cache_balance };
    let to_vault_loss = rem - from_cache;
    LossOutcome { from_bond, from_cache, to_vault_loss }
}

#[derive(Debug, Clone, Copy, PartialEq, Eq, Structural)]
pub struct SlashOutcome {
    pub slashed: u64,
    pub burn: u64,
    pub to_cache: u64,
}

pub open spec fn spec_slash_amount(bond: u64, slash_bps: u16) -> u64 {
    ((bond * slash_bps) / 10_000) as u64
}

pub open spec fn spec_slash_burn(bond: u64, slash_bps: u16, burn_share_bps: u16) -> int {
    (spec_slash_amount(bond, slash_bps) * burn_share_bps) / 10_000
}

/// Punitive slash: seize `slash_bps` of the bond, then split it between the
/// incinerator and the Risk Cache.
pub fn slash_split(bond: u64, slash_bps: u16, burn_share_bps: u16) -> (o: SlashOutcome)
    requires
        spec_slash_burn(bond, slash_bps, burn_share_bps) <= spec_slash_amount(bond, slash_bps),
    ensures
        o.slashed == spec_slash_amount(bond, slash_bps),
        o.burn == spec_slash_burn(bond, slash_bps, burn_share_bps),
        o.burn + o.to_cache == o.slashed,
        slash_bps <= 10_000 ==> o.slashed <= bond,
{
    assert((bond as int) * (slash_bps as int) <= 18_446_744_073_709_551_615 * 65_535)
        by (nonlinear_arith)
        requires
            bond <= 18_446_744_073_709_551_615,
            slash_bps <= 65_535,
    ;
    let slashed = ((bond as u128) * (slash_bps as u128) / BPS_DENOM) as u64;
    assert((slashed as int) * (burn_share_bps as int) <= 18_446_744_073_709_551_615 * 65_535)
        by (nonlinear_arith)
        requires
            slashed <= 18_446_744_073_709_551_615,
            burn_share_bps <= 65_535,
    ;
    let burn = ((slashed as u128) * (burn_share_bps as u128) / BPS_DENOM) as u64;
    proof {
        if slash_bps <= 10_000 {
            assert((bond as int) * (slash_bps as int) <= (bond as int) * 10_000) by (nonlinear_arith)
                requires
                    slash_bps <= 10_000,
                    bond >= 0,
            ;
        }
    }
    let to_cache = slashed - burn;
    SlashOutcome { slashed, burn, to_cache }
}

pub open spec fn spec_loss_slash_bps(drawdown_bps: u16, dd_slash_bps: u16) -> u16 {
    if drawdown_bps <= dd_slash_bps || dd_slash_bps == 0 {
        0
    } else {
        min_int(((drawdown_bps - dd_slash_bps) * 10_000) / (dd_slash_bps as int), 10_000) as u16
    }
}

/// Fraction of bond seized by a loss-threshold slash: zero at or under the
/// threshold, ramping with the excess drawdown up to the whole bond.
pub fn loss_slash_bps(drawdown_bps: u16, dd_slash_bps: u16) -> (r: u16)
    ensures
        r == spec_loss_slash_bps(drawdown_bps, dd_slash_bps),
        r <= 10_000,
        drawdown_bps <= dd_slash_bps ==> r == 0,
{
    if drawdown_bps <= dd_slash_bps || dd_slash_bps == 0 {
        return 0;
    }
    let excess = (drawdown_bps - dd_slash_bps) as u128;
    let ramp = excess * BPS_DENOM / (dd_slash_bps as u128);
    if ramp < BPS_DENOM {
        ramp as u16
    } else {
        BPS_DENOM as u16
    }
}

pub open spec fn spec_cache_accrual(profit: u64, cache_accrual_bps: u16) -> u64 {
    ((profit * cache_accrual_bps) / 10_000) as u64
}

/// Share of realized profit routed to the Risk Cache.
pub fn cache_accrual(profit: u64, cache_accrual_bps: u16) -> (r: u64)
    ensures
        r == spec_cache_accrual(profit, cache_accrual_bps),
        cache_accrual_bps <= 10_000 ==> r <= profit,
{
    assert((profit as int) * (cache_accrual_bps as int) <= 18_446_744_073_709_551_615 * 65_535)
        by (nonlinear_arith)
        requires
            profit <= 18_446_744_073_709_551_615,
            cache_accrual_bps <= 65_535,
    ;
    proof {
        if cache_accrual_bps <= 10_000 {
            assert((profit as int) * (cache_accrual_bps as int) <= (profit as int) * 10_000)
                by (nonlinear_arith)
                requires
                    cache_accrual_bps <= 10_000,
                    profit >= 0,
            ;
        }
    }
    ((profit as u128) * (cache_accrual_bps as u128) / BPS_DENOM) as u64
}

} // verus!
