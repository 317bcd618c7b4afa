use vstd::prelude::*;
use crate::color::Color;

verus! {

/// The smoothed frames-per-second reading is bucketed into one of three
/// colour classes at two fixed thresholds, both held in thousandths of a
/// frame per second.
pub const GREEN_OVER_MILLIFPS: u64 = 59_500;

pub const YELLOW_OVER_MILLIFPS: u64 = 30_000;

#[derive(Clone, Copy, PartialEq, Eq, Structural, Debug)]
pub enum FpsBucket {
    Green,
    Yellow,
    Red,
}

/// The bucket of a smoothed frames-per-second value, given in
/// thousandths.  Both comparisons are strict, so exactly 59.5 is
/// yellow and exactly 30.0 is red.
pub open spec fn spec_fps_bucket(millifps: u64) -> FpsBucket {
    if millifps > GREEN_OVER_MILLIFPS {
        FpsBucket::Green
    } else if millifps > YELLOW_OVER_MILLIFPS {
        FpsBucket::Yellow
    } else {
        FpsBucket::Red
    }
}

/// Buckets a smoothed frames-per-second value, given in thousandths.
/// Both comparisons are strict, so exactly 59.5 is yellow and exactly
/// 30.0 is red.
pub fn fps_bucket(millifps: u64) -> (b: FpsBucket)
    ensures
        b == spec_fps_bucket(millifps),
        b == FpsBucket::Green <==> millifps > GREEN_OVER_MILLIFPS,
        b == FpsBucket::Yellow <==> GREEN_OVER_MILLIFPS >= millifps > YELLOW_OVER_MILLIFPS,
        b == FpsBucket::Red <==> millifps <= YELLOW_OVER_MILLIFPS,
{
    if millifps > GREEN_OVER_MILLIFPS {
        FpsBucket::Green
    } else if millifps > YELLOW_OVER_MILLIFPS {
        FpsBucket::Yellow
    } else {
        FpsBucket::Red
    }
}

pub open spec fn spec_bucket_color(b: FpsBucket) -> Color {
    match b {
        FpsBucket::Green => Color::green_spec(),
        FpsBucket::Yellow => Color::yellow_spec(),
        FpsBucket::Red => Color::red_spec(),
    }
}

/// The readout colour of each bucket.
pub fn bucket_color(b: FpsBucket) -> (c: Color)
    ensures
        c == spec_bucket_color(b),
{
    match b {
        FpsBucket::Green => Color::green(),
        FpsBucket::Yellow => Color::yellow(),
        FpsBucket::Red => Color::red(),
    }
}

} // verus!
