//! The outcome of a coverage test: three weights and whether they place
//! the sample inside the triangle.
use crate::binary32::Binary32;
use vstd::prelude::*;

verus! {

#[derive(Clone, Copy, Debug)]
pub struct BarycentricTestResult {
    pub is_inside_triangle: bool,
    pub w1: Binary32,
    pub w2: Binary32,
    pub w3: Binary32,
}

impl BarycentricTestResult {
    /// Whether `w` lies in [0, 1], ends included. A NaN does not.
    pub open spec fn in_unit(w: Binary32) -> bool {
        Binary32::zero().le(w) && w.le(Binary32::one())
    }

    /// The invariant: a sample is inside exactly when each weight lies in
    /// [0, 1]; the triangle's edges count as inside.
    pub open spec fn wf(&self) -> bool {
        self.is_inside_triangle == (Self::in_unit(self.w1) && Self::in_unit(self.w2)
            && Self::in_unit(self.w3))
    }

    fn within_unit(value: Binary32) -> (b: bool)
        ensures
            b == Self::in_unit(value),
    {
        Binary32::new_zero().less_equal(value) && value.less_equal(Binary32::new_one())
    }

    /// Classifies a sample by its three weights, the first being that of
    /// the triangle's first vertex.
    pub fn from_weights(w1: Binary32, w2: Binary32, w3: Binary32) -> (r: BarycentricTestResult)
        ensures
            r.wf(),
            r.w1 == w1,
            r.w2 == w2,
            r.w3 == w3,
    {
        BarycentricTestResult {
            is_inside_triangle: Self::within_unit(w1) && Self::within_unit(w2) && Self::within_unit(w3),
            w1,
            w2,
            w3,
        }
    }

    /// Whether three depths are one number: the weights of a triangle
    /// whose vertices lie at one depth need no correction for
    /// perspective. Depths of which one is a NaN are not.
    pub fn same_depth(z0: Binary32, z1: Binary32, z2: Binary32) -> (same: bool)
        ensures
            same == (z0.eq(z1) && z1.eq(z2)),
    {
        z0.equal_to(z1) && z1.equal_to(z2)
    }

    /// The three weights in vertex order.
    pub fn weight(&self) -> (w: [Binary32; 3])
        ensures
            w@ == seq![self.w1, self.w2, self.w3],
    {
        let w = [self.w1, self.w2, self.w3];
        assert(w@ =~= seq![self.w1, self.w2, self.w3]);
        w
    }
}

} // verus!
