use vstd::prelude::*;

verus! {

/// The flying banner circles the fixed centre `(700, 100)` with a
/// radius of `100` pixels; coordinates are in thousandths of a pixel.
pub const PATH_CENTER_X_MILLI: i64 = 700_000;

pub const PATH_CENTER_Y_MILLI: i64 = 100_000;

pub const PATH_RADIUS_MILLI: i64 = 100_000;

/// One thousand thousandths: the scale of every fractional quantity.
pub const UNIT_MILLI: i64 = 1000;

pub open spec fn spec_banner_path_x(sin_milli: i64) -> int {
    PATH_CENTER_X_MILLI + 100 * sin_milli
}

pub open spec fn spec_banner_path_y(cos_milli: i64) -> int {
    PATH_CENTER_Y_MILLI + 100 * cos_milli
}

/// The position of the flying banner for an elapsed time `t`, given the
/// sine and cosine of `t` in thousandths: `x = 700 + 100·sin t` and
/// `y = 100 + 100·cos t`, so the point never leaves the square of half
/// side `100` pixels around the centre `(700, 100)`.
pub fn banner_path(sin_milli: i64, cos_milli: i64) -> (p: (i64, i64))
    requires
        -UNIT_MILLI <= sin_milli <= UNIT_MILLI,
        -UNIT_MILLI <= cos_milli <= UNIT_MILLI,
    ensures
        p.0 == spec_banner_path_x(sin_milli),
        p.1 == spec_banner_path_y(cos_milli),
        PATH_CENTER_X_MILLI - PATH_RADIUS_MILLI <= p.0 <= PATH_CENTER_X_MILLI + PATH_RADIUS_MILLI,
        PATH_CENTER_Y_MILLI - PATH_RADIUS_MILLI <= p.1 <= PATH_CENTER_Y_MILLI + PATH_RADIUS_MILLI,
{
    (PATH_CENTER_X_MILLI + 100 * sin_milli, PATH_CENTER_Y_MILLI + 100 * cos_milli)
}

/// The path is an exact affine image of the unit circle: its offset
/// from the centre scales the input linearly, so equal inputs land on
/// equal points and opposite inputs land on mirrored points.
pub proof fn lemma_banner_path_centered(sin_milli: i64, cos_milli: i64)
    requires
        -UNIT_MILLI <= sin_milli <= UNIT_MILLI,
        -UNIT_MILLI <= cos_milli <= UNIT_MILLI,
    ensures
        spec_banner_path_x(sin_milli) - PATH_CENTER_X_MILLI == 100 * sin_milli,
        spec_banner_path_y(cos_milli) - PATH_CENTER_Y_MILLI == 100 * cos_milli,
        spec_banner_path_x(sin_milli) - PATH_CENTER_X_MILLI == -(
        spec_banner_path_x(-sin_milli as i64) - PATH_CENTER_X_MILLI),
{
}

} // verus!
