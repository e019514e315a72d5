use vstd::prelude::*;

verus! {

/// Scalar simulation quantities (positions, sizes, velocities, angles,
/// scroll offsets) are fixed-point numbers counted in thousandths of a
/// unit — milli-pixels, milli-degrees, milli-units per second — and every
/// stored scalar stays within `[-LIMIT, LIMIT]` (`LIMIT` is 2^53).
/// Integration saturates to this range, so the sum of any two stored
/// scalars fits an `i64` with room to spare.
pub const LIMIT: i64 = 0x20_0000_0000_0000;

pub open spec fn in_range(v: int) -> bool {
    -LIMIT <= v <= LIMIT
}

/// Saturate a value into the representable scalar range.
pub open spec fn clip(v: int) -> int {
    if v < -LIMIT {
        -LIMIT as int
    } else if v > LIMIT {
        LIMIT as int
    } else {
        v
    }
}

/// A per-second rate scaled by a duration in milliseconds, rounding the
/// magnitude down (toward zero).
pub open spec fn scaled_by_ms(rate: int, dt_ms: int) -> int {
    if rate >= 0 {
        rate * dt_ms / 1000
    } else {
        -((-rate) * dt_ms / 1000)
    }
}

/// One explicit-Euler integration step: `value` advanced by `rate` per
/// second over `dt_ms` milliseconds, saturated to the scalar range.
pub open spec fn advanced(value: int, rate: int, dt_ms: int) -> int {
    clip(value + scaled_by_ms(rate, dt_ms))
}

/// Scaling is odd in the rate: negating the rate negates the step.
pub proof fn lemma_scaled_by_ms_neg(rate: int, dt_ms: int)
    ensures
        scaled_by_ms(-rate, dt_ms) == -scaled_by_ms(rate, dt_ms),
{
    if rate == 0 {
        assert(-rate == 0);
        assert(scaled_by_ms(0, dt_ms) == 0 * dt_ms / 1000);
        assert(0 * dt_ms == 0) by (nonlinear_arith);
    } else if rate > 0 {
        assert(scaled_by_ms(-rate, dt_ms) == -((-(-rate)) * dt_ms / 1000));
        assert(-(-rate) == rate);
    } else {
        assert(scaled_by_ms(-rate, dt_ms) == (-rate) * dt_ms / 1000);
        assert(scaled_by_ms(rate, dt_ms) == -((-rate) * dt_ms / 1000));
    }
}

/// Saturate a wide intermediate result back into the scalar range.
pub fn clip_wide(v: i128) -> (r: i64)
    ensures
        r as int == clip(v as int),
{
    if v < -(LIMIT as i128) {
        -LIMIT
    } else if v > LIMIT as i128 {
        LIMIT
    } else {
        v as i64
    }
}

/// Executable integration step; the exact result is `advanced`.
pub fn advance(value: i64, rate: i64, dt_ms: u32) -> (r: i64)
    requires
        in_range(value as int),
        in_range(rate as int),
    ensures
        r as int == advanced(value as int, rate as int, dt_ms as int),
        in_range(r as int),
{
    let magnitude: u128 = if rate >= 0 {
        rate as u128
    } else {
        (-(rate as i128)) as u128
    };
    assert(magnitude * (dt_ms as u128) <= (LIMIT as u128) * 0xffff_ffffu128) by (nonlinear_arith)
        requires
            magnitude <= LIMIT as u128,
            dt_ms as u128 <= 0xffff_ffffu128,
    ;
    let step: u128 = magnitude * (dt_ms as u128) / 1000;
    let moved: i128 = if rate >= 0 {
        value as i128 + step as i128
    } else {
        value as i128 - step as i128
    };
    clip_wide(moved)
}

} // verus!
