//! Points in normalized device coordinates: what is decided of them by
//! comparison alone.
use crate::binary32::Binary32;
use crate::renderer::Renderer;
use vstd::prelude::*;

verus! {

/// Whether a coordinate lies in [-1, 1], ends included. A NaN does not.
pub open spec fn in_ndc_range(v: Binary32) -> bool {
    Binary32::minus_one().le(v) && v.le(Binary32::one())
}

/// `val` held to [-1, 1]: -1 unless `val` is above it, and then `val` if
/// it is below 1, else 1. A NaN is held to -1.
pub open spec fn held_to_ndc(val: Binary32) -> Binary32 {
    if Binary32::minus_one().lt(val) {
        if val.lt(Binary32::one()) {
            val
        } else {
            Binary32::one()
        }
    } else {
        Binary32::minus_one()
    }
}

fn clamp_coordinate(val: Binary32) -> (r: Binary32)
    ensures
        r == held_to_ndc(val),
{
    if Binary32::new_minus_one().less_than(val) {
        if val.less_than(Binary32::new_one()) {
            val
        } else {
            Binary32::new_one()
        }
    } else {
        Binary32::new_minus_one()
    }
}

impl Renderer {
    /// The viewport pixel of a point: `scaled`, the point's coordinates
    /// scaled to the viewport, where both lie in [-1, 1], and none for a
    /// point outside.
    pub fn ndc_to_viewport(point: (Binary32, Binary32), scaled: (usize, usize)) -> (pixel: Option<
        (usize, usize),
    >)
        ensures
            pixel == if in_ndc_range(point.0) && in_ndc_range(point.1) {
                Some(scaled)
            } else {
                None
            },
    {
        let min_value = Binary32::new_minus_one();
        let max_value = Binary32::new_one();
        if min_value.less_equal(point.0) && point.0.less_equal(max_value) && min_value.less_equal(
            point.1,
        ) && point.1.less_equal(max_value) {
            Some(scaled)
        } else {
            None
        }
    }

    /// The point with each coordinate held to [-1, 1].
    pub fn clamp_ndc(val: (Binary32, Binary32)) -> (r: (Binary32, Binary32))
        ensures
            r.0 == held_to_ndc(val.0),
            r.1 == held_to_ndc(val.1),
            !val.0.is_nan() ==> in_ndc_range(r.0),
            !val.1.is_nan() ==> in_ndc_range(r.1),
    {
        (clamp_coordinate(val.0), clamp_coordinate(val.1))
    }

    /// The two points with the one of smaller abscissa first; as given,
    /// reversed, where the first's is not smaller.
    pub fn vector2_order(v1: (Binary32, Binary32), v2: (Binary32, Binary32)) -> (r: (
        (Binary32, Binary32),
        (Binary32, Binary32),
    ))
        ensures
            r == if v1.0.lt(v2.0) {
                (v1, v2)
            } else {
                (v2, v1)
            },
    {
        if v1.0.less_than(v2.0) {
            (v1, v2)
        } else {
            (v2, v1)
        }
    }
}

} // verus!
