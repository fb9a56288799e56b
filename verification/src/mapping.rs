//! The light-to-brightness response curve.
//!
//! A raw sensor reading is clamped into `[light_min, light_max]`, normalized
//! to a fraction of that range, shaped by the power-law curve `t^screen_power`,
//! and scaled into `[screen_min, screen_max]` with round-to-nearest. Fractions
//! are fixed-point integers scaled by [`SCALE`], so the whole curve is exact
//! integer arithmetic.

use vstd::prelude::*;

verus! {

use vstd::arithmetic::div_mod::lemma_div_denominator;
use vstd::arithmetic::div_mod::lemma_div_is_ordered;
use vstd::arithmetic::div_mod::lemma_div_of0;
use vstd::arithmetic::div_mod::lemma_div_multiples_vanish;
use vstd::arithmetic::div_mod::lemma_div_multiples_vanish_fancy;
use vstd::arithmetic::div_mod::lemma_div_pos_is_pos;
use vstd::arithmetic::mul::lemma_mul_basics;
use vstd::arithmetic::mul::lemma_mul_inequality;
use vstd::arithmetic::mul::lemma_mul_is_commutative;
use vstd::arithmetic::mul::lemma_mul_nonnegative;
use vstd::arithmetic::mul::lemma_mul_upper_bound;

/// Fixed-point unit: a fraction `f` in `[0, 1]` is held as the integer
/// `f * SCALE`.
pub const SCALE: u64 = 10_000;

/// Largest accepted `light_max`: keeps `(light_max - light_min) * SCALE`
/// inside `u64`. Far above any luma sum a real frame can produce.
pub const LIGHT_BOUND: u64 = 0x1_0000_0000_0000;

/// Largest accepted `screen_max`: keeps the final scaling product inside
/// `u64`. Far above any real backlight range.
pub const SCREEN_MAX_BOUND: u64 = 0xFFFF_FFFF;

/// Immutable curve configuration, validated once by [`MappingConfig::new`].
#[derive(Clone, Copy, Debug, PartialEq, Eq, Structural)]
pub struct MappingConfig {
    /// Raw reading mapped to the bottom of the screen range.
    pub light_min: u64,
    /// Raw reading mapped to the top of the screen range.
    pub light_max: u64,
    /// Bottom of the screen range, as a fraction of `screen_max` scaled by
    /// [`SCALE`].
    pub screen_min_fraction: u64,
    /// Curve exponent; `1` gives a linear map.
    pub screen_power: u32,
    /// Device-reported maximum brightness level.
    pub screen_max: u64,
}

/// Why a configuration was rejected.
#[derive(Clone, Copy, Debug, PartialEq, Eq, Structural)]
pub enum ConfigError {
    /// `light_min >= light_max`: the normalized domain would be empty.
    EmptyLightRange,
    /// `light_max` above [`LIGHT_BOUND`].
    LightMaxTooLarge,
    /// `screen_min_fraction` not below [`SCALE`], i.e. not in `[0, 1)`.
    FractionTooLarge,
    /// `screen_power == 0` would break monotonicity.
    PowerZero,
    /// `screen_max == 0` leaves no screen range.
    ScreenMaxZero,
    /// `screen_max` above [`SCREEN_MAX_BOUND`].
    ScreenMaxTooLarge,
}

impl MappingConfig {
    /// A validated configuration: nonempty light range within bounds,
    /// `screen_min_fraction` in `[0, 1)`, a positive curve exponent, and a
    /// positive bounded `screen_max`. Implies `0 <= screen_min < screen_max`.
    pub open spec fn wf(self) -> bool {
        &&& self.light_min < self.light_max
        &&& self.light_max <= LIGHT_BOUND
        &&& self.screen_min_fraction < SCALE
        &&& self.screen_power >= 1
        &&& 1 <= self.screen_max <= SCREEN_MAX_BOUND
    }

    /// The derived `screen_min = screen_min_fraction * screen_max`, scaled by
    /// [`SCALE`].
    pub open spec fn screen_min_ts(self) -> int {
        self.screen_min_fraction * self.screen_max
    }

    /// Validates and assembles a configuration; each rejection names the
    /// first violated requirement, in field order.
    pub fn new(
        light_min: u64,
        light_max: u64,
        screen_min_fraction: u64,
        screen_power: u32,
        screen_max: u64,
    ) -> (r: Result<MappingConfig, ConfigError>)
        ensures
            r is Ok <==> (light_min < light_max && light_max <= LIGHT_BOUND
                && screen_min_fraction < SCALE && screen_power >= 1
                && 1 <= screen_max <= SCREEN_MAX_BOUND),
            r matches Ok(c) ==> c == (MappingConfig {
                light_min,
                light_max,
                screen_min_fraction,
                screen_power,
                screen_max,
            }) && c.wf(),
            r == Err::<MappingConfig, ConfigError>(ConfigError::EmptyLightRange)
                <==> light_min >= light_max,
            r == Err::<MappingConfig, ConfigError>(ConfigError::LightMaxTooLarge)
                <==> (light_min < light_max && light_max > LIGHT_BOUND),
            r == Err::<MappingConfig, ConfigError>(ConfigError::FractionTooLarge)
                <==> (light_min < light_max && light_max <= LIGHT_BOUND
                    && screen_min_fraction >= SCALE),
            r == Err::<MappingConfig, ConfigError>(ConfigError::PowerZero)
                <==> (light_min < light_max && light_max <= LIGHT_BOUND
                    && screen_min_fraction < SCALE && screen_power == 0),
            r == Err::<MappingConfig, ConfigError>(ConfigError::ScreenMaxZero)
                <==> (light_min < light_max && light_max <= LIGHT_BOUND
                    && screen_min_fraction < SCALE && screen_power >= 1
                    && screen_max == 0),
            r == Err::<MappingConfig, ConfigError>(ConfigError::ScreenMaxTooLarge)
                <==> (light_min < light_max && light_max <= LIGHT_BOUND
                    && screen_min_fraction < SCALE && screen_power >= 1
                    && screen_max > SCREEN_MAX_BOUND),
    {
        if light_min >= light_max {
            Err(ConfigError::EmptyLightRange)
        } else if light_max > LIGHT_BOUND {
            Err(ConfigError::LightMaxTooLarge)
        } else if screen_min_fraction >= SCALE {
            Err(ConfigError::FractionTooLarge)
        } else if screen_power == 0 {
            Err(ConfigError::PowerZero)
        } else if screen_max == 0 {
            Err(ConfigError::ScreenMaxZero)
        } else if screen_max > SCREEN_MAX_BOUND {
            Err(ConfigError::ScreenMaxTooLarge)
        } else {
            Ok(MappingConfig { light_min, light_max, screen_min_fraction, screen_power, screen_max })
        }
    }
}

/// `raw` clamped into `[lo, hi]`.
pub open spec fn clamped(raw: int, lo: int, hi: int) -> int {
    if raw < lo {
        lo
    } else if raw > hi {
        hi
    } else {
        raw
    }
}

/// The normalized reading: the clamped raw value's position inside the light
/// range, as a fixed-point fraction in `[0, SCALE]`.
pub open spec fn normalized_fp(c: MappingConfig, raw: int) -> int {
    (clamped(raw, c.light_min as int, c.light_max as int) - c.light_min) * SCALE
        / (c.light_max - c.light_min)
}

/// Fixed-point power: `t^p` for a fraction `t` scaled by [`SCALE`], each
/// multiplication step flooring back to the scale.
pub open spec fn pow_fp(t: int, p: nat) -> int
    decreases p,
{
    if p == 0 {
        SCALE as int
    } else {
        pow_fp(t, (p - 1) as nat) * t / (SCALE as int)
    }
}

/// Round-to-nearest of a value scaled by [`SCALE`].
pub open spec fn round_ts(x_ts: int) -> int {
    (x_ts + SCALE / 2) / (SCALE as int)
}

/// The curved fraction scaled into the screen range, rounded to nearest:
/// `round(curved * (screen_max - screen_min) + screen_min)` computed over
/// integers scaled by `SCALE * SCALE`.
pub open spec fn rounded_level(c: MappingConfig, curved: int) -> int {
    (curved * (c.screen_max * SCALE - c.screen_min_ts()) + c.screen_min_ts() * SCALE
        + (SCALE * SCALE) / 2) / ((SCALE * SCALE) as int)
}

/// The whole curve: clamp, normalize, apply the power, scale into the screen
/// range.
pub open spec fn level_spec(c: MappingConfig, raw: int) -> int {
    rounded_level(c, pow_fp(normalized_fp(c, raw), c.screen_power as nat))
}

/// Normalizes a raw sensor reading: its clamped position inside the light
/// range, as a fixed-point fraction of [`SCALE`].
pub fn normalize(c: &MappingConfig, raw: u64) -> (t: u64)
    requires
        c.wf(),
    ensures
        t == normalized_fp(*c, raw as int),
        t <= SCALE,
{
    let lo = c.light_min;
    let hi = c.light_max;
    let cl: u64 = if raw < lo {
        lo
    } else if raw > hi {
        hi
    } else {
        raw
    };
    let diff: u64 = hi - lo;
    proof {
        lemma_mul_inequality((cl - lo) as int, diff as int, SCALE as int);
    }
    let num: u64 = (cl - lo) * SCALE;
    proof {
        lemma_div_is_ordered(num as int, (diff * SCALE) as int, diff as int);
        lemma_div_multiples_vanish(SCALE as int, diff as int);
        lemma_div_pos_is_pos(num as int, diff as int);
    }
    num / diff
}

/// Maps a raw sensor reading to the brightness level to write, per
/// [`level_spec`]. The result never exceeds `screen_max`.
pub fn map_level(c: &MappingConfig, raw: u64) -> (level: u64)
    requires
        c.wf(),
    ensures
        level == level_spec(*c, raw as int),
        level <= c.screen_max,
{
    let t: u64 = normalize(c, raw);

    let mut acc: u64 = SCALE;
    let mut i: u32 = 0;
    while i < c.screen_power
        invariant
            i <= c.screen_power,
            t <= SCALE,
            acc == pow_fp(t as int, i as nat),
            acc <= SCALE,
        decreases c.screen_power - i,
    {
        proof {
            lemma_mul_upper_bound(acc as int, SCALE as int, t as int, SCALE as int);
            lemma_div_is_ordered((acc * t) as int, (SCALE * SCALE) as int, SCALE as int);
            lemma_div_multiples_vanish(SCALE as int, SCALE as int);
            lemma_div_pos_is_pos((acc * t) as int, SCALE as int);
        }
        acc = (acc * t) / SCALE;
        i = i + 1;
    }
    proof {
        lemma_mul_upper_bound(
            c.screen_min_fraction as int,
            (SCALE - 1) as int,
            c.screen_max as int,
            SCREEN_MAX_BOUND as int,
        );
        lemma_mul_inequality(c.screen_max as int, SCREEN_MAX_BOUND as int, SCALE as int);
        lemma_mul_nonnegative(c.screen_min_fraction as int, c.screen_max as int);
        assert(c.screen_min_fraction * c.screen_max <= c.screen_max * SCALE) by (nonlinear_arith)
            requires
                c.screen_min_fraction <= SCALE,
                0 <= (c.screen_max as int),
        ;
    }
    let smin_ts: u64 = c.screen_min_fraction * c.screen_max;
    let span: u64 = c.screen_max * SCALE - smin_ts;
    proof {
        lemma_mul_nonnegative(acc as int, span as int);
        assert(acc * span + smin_ts * SCALE <= c.screen_max * (SCALE * SCALE)) by (nonlinear_arith)
            requires
                smin_ts == c.screen_min_fraction * c.screen_max,
                span == c.screen_max * SCALE - smin_ts,
                c.screen_min_fraction < SCALE,
                1 <= c.screen_max,
                0 <= acc <= SCALE,
        ;
        lemma_mul_inequality(c.screen_max as int, SCREEN_MAX_BOUND as int, (SCALE * SCALE) as int);
    }
    let num2: u64 = acc * span + smin_ts * SCALE + (SCALE * SCALE) / 2;
    proof {
        lemma_div_is_ordered(
            num2 as int,
            (c.screen_max * (SCALE * SCALE) + (SCALE * SCALE) / 2) as int,
            (SCALE * SCALE) as int,
        );
        lemma_div_multiples_vanish_fancy(
            c.screen_max as int,
            ((SCALE * SCALE) / 2) as int,
            (SCALE * SCALE) as int,
        );
        lemma_mul_is_commutative((SCALE * SCALE) as int, c.screen_max as int);
        lemma_div_pos_is_pos(num2 as int, (SCALE * SCALE) as int);
    }
    num2 / (SCALE * SCALE)
}

/// A fixed-point power of a fraction stays a fraction: `0 <= t <= SCALE`
/// gives `0 <= t^p <= SCALE`.
pub proof fn lemma_pow_fp_bounds(t: int, p: nat)
    requires
        0 <= t <= SCALE,
    ensures
        0 <= pow_fp(t, p) <= SCALE,
    decreases p,
{
    if p > 0 {
        lemma_pow_fp_bounds(t, (p - 1) as nat);
        let prev = pow_fp(t, (p - 1) as nat);
        lemma_mul_nonnegative(prev, t);
        lemma_mul_upper_bound(prev, SCALE as int, t, SCALE as int);
        lemma_div_pos_is_pos(prev * t, SCALE as int);
        lemma_div_is_ordered(prev * t, (SCALE * SCALE) as int, SCALE as int);
        lemma_div_multiples_vanish(SCALE as int, SCALE as int);
    }
}

/// The fixed-point power preserves order of its base.
pub proof fn lemma_pow_fp_monotone(t1: int, t2: int, p: nat)
    requires
        0 <= t1 <= t2 <= SCALE,
    ensures
        pow_fp(t1, p) <= pow_fp(t2, p),
    decreases p,
{
    if p > 0 {
        let q = (p - 1) as nat;
        lemma_pow_fp_monotone(t1, t2, q);
        lemma_pow_fp_bounds(t1, q);
        lemma_pow_fp_bounds(t2, q);
        lemma_mul_upper_bound(pow_fp(t1, q), pow_fp(t2, q), t1, t2);
        lemma_div_is_ordered(pow_fp(t1, q) * t1, pow_fp(t2, q) * t2, SCALE as int);
    }
}

/// Any positive fixed-point power of zero is zero.
pub proof fn lemma_pow_fp_zero(p: nat)
    requires
        p >= 1,
    ensures
        pow_fp(0, p) == 0,
{
    lemma_mul_basics(pow_fp(0, (p - 1) as nat));
    lemma_div_of0(SCALE as int);
}

/// Any fixed-point power of one (`SCALE`) is one.
pub proof fn lemma_pow_fp_full(p: nat)
    ensures
        pow_fp(SCALE as int, p) == SCALE,
    decreases p,
{
    if p > 0 {
        lemma_pow_fp_full((p - 1) as nat);
        lemma_div_multiples_vanish(SCALE as int, SCALE as int);
    }
}

/// The first fixed-point power is the base itself.
pub proof fn lemma_pow_fp_ident(t: int)
    requires
        0 <= t,
    ensures
        pow_fp(t, 1) == t,
{
    assert(pow_fp(t, 0) == SCALE);
    lemma_div_multiples_vanish(t, SCALE as int);
}

/// The normalized reading is a fraction: it lies in `[0, SCALE]`.
pub proof fn lemma_normalized_bounds(c: MappingConfig, raw: int)
    requires
        c.wf(),
    ensures
        0 <= normalized_fp(c, raw) <= SCALE,
{
    let lo = c.light_min as int;
    let hi = c.light_max as int;
    let cl = clamped(raw, lo, hi);
    let diff = hi - lo;
    lemma_mul_nonnegative(cl - lo, SCALE as int);
    lemma_div_pos_is_pos((cl - lo) * SCALE, diff);
    lemma_mul_inequality(cl - lo, diff, SCALE as int);
    lemma_div_is_ordered((cl - lo) * SCALE, diff * SCALE, diff);
    lemma_div_multiples_vanish(SCALE as int, diff);
}

/// Normalization preserves the order of raw readings.
pub proof fn lemma_normalized_monotone(c: MappingConfig, raw1: int, raw2: int)
    requires
        c.wf(),
        raw1 <= raw2,
    ensures
        normalized_fp(c, raw1) <= normalized_fp(c, raw2),
{
    let lo = c.light_min as int;
    let hi = c.light_max as int;
    let cl1 = clamped(raw1, lo, hi);
    let cl2 = clamped(raw2, lo, hi);
    lemma_mul_inequality(cl1 - lo, cl2 - lo, SCALE as int);
    lemma_div_is_ordered((cl1 - lo) * SCALE, (cl2 - lo) * SCALE, hi - lo);
}

/// Scaling into the screen range preserves the order of curved fractions.
pub proof fn lemma_rounded_level_monotone(c: MappingConfig, a: int, b: int)
    requires
        c.wf(),
        0 <= a <= b,
    ensures
        rounded_level(c, a) <= rounded_level(c, b),
{
    let smin_ts = c.screen_min_ts();
    let span = c.screen_max * SCALE - smin_ts;
    assert(0 <= span) by (nonlinear_arith)
        requires
            span == c.screen_max * SCALE - c.screen_min_fraction * c.screen_max,
            c.screen_min_fraction <= SCALE,
            0 <= (c.screen_max as int),
    ;
    lemma_mul_inequality(a, b, span);
    lemma_div_is_ordered(
        a * span + smin_ts * SCALE + (SCALE * SCALE) / 2,
        b * span + smin_ts * SCALE + (SCALE * SCALE) / 2,
        (SCALE * SCALE) as int,
    );
}

/// Law: with a positive curve exponent the map never darkens on a brighter
/// reading — `level_spec` is monotone in the raw reading.
pub proof fn lemma_level_monotonic(c: MappingConfig, raw1: int, raw2: int)
    requires
        c.wf(),
        raw1 <= raw2,
    ensures
        level_spec(c, raw1) <= level_spec(c, raw2),
{
    let p = c.screen_power as nat;
    lemma_normalized_monotone(c, raw1, raw2);
    lemma_normalized_bounds(c, raw1);
    lemma_normalized_bounds(c, raw2);
    lemma_pow_fp_monotone(normalized_fp(c, raw1), normalized_fp(c, raw2), p);
    lemma_pow_fp_bounds(normalized_fp(c, raw1), p);
    lemma_rounded_level_monotone(
        c,
        pow_fp(normalized_fp(c, raw1), p),
        pow_fp(normalized_fp(c, raw2), p),
    );
}

/// Law: readings at or below `light_min` saturate to the rounded screen
/// minimum, and readings at or beyond `light_max` saturate to `screen_max`.
pub proof fn lemma_level_clamps(c: MappingConfig, raw: int)
    requires
        c.wf(),
    ensures
        raw <= c.light_min ==> level_spec(c, raw) == round_ts(c.screen_min_ts()),
        raw >= c.light_max ==> level_spec(c, raw) == c.screen_max,
{
    let lo = c.light_min as int;
    let hi = c.light_max as int;
    let diff = hi - lo;
    let smin_ts = c.screen_min_ts();
    let span = c.screen_max * SCALE - smin_ts;
    let p = c.screen_power as nat;
    if raw <= lo {
        lemma_mul_basics(0);
        assert((clamped(raw, lo, hi) - lo) * SCALE == 0);
        lemma_div_of0(diff);
        assert(normalized_fp(c, raw) == 0);
        lemma_pow_fp_zero(p);
        lemma_mul_basics(span);
        assert(0 * span == 0) by {
            lemma_mul_basics(span);
            lemma_mul_is_commutative(0, span);
        }
        assert(smin_ts * SCALE + (SCALE * SCALE) / 2 == SCALE * (smin_ts + SCALE / 2))
            by (nonlinear_arith)
            requires
                SCALE == 10_000u64,
        ;
        lemma_div_denominator(SCALE * (smin_ts + SCALE / 2), SCALE as int, SCALE as int);
        lemma_div_multiples_vanish(smin_ts + SCALE / 2, SCALE as int);
        lemma_mul_nonnegative(c.screen_min_fraction as int, c.screen_max as int);
    }
    if raw >= hi {
        assert(clamped(raw, lo, hi) == hi);
        lemma_div_multiples_vanish(SCALE as int, diff);
        assert(normalized_fp(c, raw) == SCALE);
        lemma_pow_fp_full(p);
        assert(SCALE * span + smin_ts * SCALE == (SCALE * SCALE) * c.screen_max)
            by (nonlinear_arith)
            requires
                span == c.screen_max * SCALE - smin_ts,
                smin_ts == c.screen_min_fraction * c.screen_max,
        ;
        lemma_div_multiples_vanish_fancy(
            c.screen_max as int,
            ((SCALE * SCALE) / 2) as int,
            (SCALE * SCALE) as int,
        );
    }
}

/// Law: every mapped level lies between the rounded screen minimum and
/// `screen_max`, whatever the raw reading.
pub proof fn lemma_level_range(c: MappingConfig, raw: int)
    requires
        c.wf(),
    ensures
        round_ts(c.screen_min_ts()) <= level_spec(c, raw) <= c.screen_max,
{
    let lo = c.light_min as int;
    let hi = c.light_max as int;
    lemma_level_clamps(c, raw);
    lemma_level_clamps(c, lo);
    lemma_level_clamps(c, hi);
    lemma_level_monotonic(c, lo, hi);
    if raw <= lo {
        lemma_level_monotonic(c, raw, hi);
    } else if raw >= hi {
        lemma_level_monotonic(c, lo, raw);
    } else {
        lemma_level_monotonic(c, lo, raw);
        lemma_level_monotonic(c, raw, hi);
    }
}

/// Law: with curve exponent one the map is affine in the normalized reading —
/// the rounded screen scaling applied directly to the normalized fraction.
pub proof fn lemma_level_linear(c: MappingConfig, raw: int)
    requires
        c.wf(),
        c.screen_power == 1,
    ensures
        level_spec(c, raw) == rounded_level(c, normalized_fp(c, raw)),
{
    lemma_normalized_bounds(c, raw);
    lemma_pow_fp_ident(normalized_fp(c, raw));
}

} // verus!

