use vstd::prelude::*;

verus! {

/// Both horizontal axes of the chart run over `[-AXIS_EXTENT, AXIS_EXTENT]`.
pub const AXIS_EXTENT: i32 = 10;

/// The density axis runs over `[0, DENSITY_AXIS_TOP_TENTHS / 10]`.
pub const DENSITY_AXIS_TOP_TENTHS: i32 = 12;

/// The projection scales the chart by `PROJECTION_SCALE_TENTHS / 10`.
pub const PROJECTION_SCALE_TENTHS: i32 = 7;

/// At most this many light grid lines are drawn along each axis.
pub const MAX_LIGHT_LINES: usize = 3;

/// Opacity of the light grid lines, in hundredths.
pub const LIGHT_GRID_ALPHA_HUNDREDTHS: i32 = 15;

/// Grid samples are taken every `1 / STEPS_PER_UNIT` along an axis.
pub const STEPS_PER_UNIT: i32 = 5;

/// Samples on each side of the origin along one axis.
pub const GRID_HALF_STEPS: i32 = 50;

/// Number of samples along one axis.
pub const SAMPLES_PER_AXIS: usize = 101;

/// A sample colour's hue falls from this many degrees at density 0 to 0
/// degrees at density 1.
pub const HUE_SPAN_DEGREES: i32 = 240;

/// The sample positions along one axis, in steps of `1 / STEPS_PER_UNIT`:
/// `-GRID_HALF_STEPS, ..., GRID_HALF_STEPS`, which covers
/// `[-AXIS_EXTENT, AXIS_EXTENT]` end to end.
pub fn sample_steps() -> (r: Vec<i32>)
    ensures
        r.len() == SAMPLES_PER_AXIS,
        forall|k: int| 0 <= k < r.len() ==> r[k] == k - GRID_HALF_STEPS,
        r[0] == -AXIS_EXTENT * STEPS_PER_UNIT,
        r[r.len() - 1] == AXIS_EXTENT * STEPS_PER_UNIT,
{
    let mut r: Vec<i32> = Vec::new();
    let mut s: i32 = -GRID_HALF_STEPS;
    while s <= GRID_HALF_STEPS
        invariant
            -GRID_HALF_STEPS <= s <= GRID_HALF_STEPS + 1,
            r.len() == s + GRID_HALF_STEPS,
            forall|k: int| 0 <= k < r.len() ==> r[k] == k - GRID_HALF_STEPS,
        decreases GRID_HALF_STEPS + 1 - s,
    {
        r.push(s);
        s = s + 1;
    }
    r
}

} // verus!
