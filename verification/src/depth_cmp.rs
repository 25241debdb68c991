//! The eight depth comparisons.
use crate::binary32::Binary32;
use vstd::prelude::*;

verus! {

/// How a candidate depth is held against the stored one.
#[derive(Clone, Copy, Debug, PartialEq, Eq, Structural)]
pub enum EDepthCmpFunc {
    Never,
    Less,
    Equal,
    LessEqual,
    Greater,
    NotEqual,
    GreaterEqual,
    Always,
}

impl EDepthCmpFunc {
    /// Whether `candidate OP stored` holds, for the mode's operator.
    pub open spec fn passes(self, candidate: Binary32, stored: Binary32) -> bool {
        match self {
            EDepthCmpFunc::Never => false,
            EDepthCmpFunc::Less => candidate.lt(stored),
            EDepthCmpFunc::Equal => candidate.eq(stored),
            EDepthCmpFunc::LessEqual => candidate.le(stored),
            EDepthCmpFunc::Greater => stored.lt(candidate),
            EDepthCmpFunc::NotEqual => !candidate.eq(stored),
            EDepthCmpFunc::GreaterEqual => stored.le(candidate),
            EDepthCmpFunc::Always => true,
        }
    }

    /// Applies the mode's operator.
    pub fn test(&self, candidate: Binary32, stored: Binary32) -> (pass: bool)
        ensures
            pass == self.passes(candidate, stored),
    {
        match self {
            EDepthCmpFunc::Never => false,
            EDepthCmpFunc::Less => candidate.less_than(stored),
            EDepthCmpFunc::Equal => candidate.equal_to(stored),
            EDepthCmpFunc::LessEqual => candidate.less_equal(stored),
            EDepthCmpFunc::Greater => stored.less_than(candidate),
            EDepthCmpFunc::NotEqual => !candidate.equal_to(stored),
            EDepthCmpFunc::GreaterEqual => stored.less_equal(candidate),
            EDepthCmpFunc::Always => true,
        }
    }

    /// The mode's operator as a function of candidate and stored depth.
    pub fn get_func(&self) -> (f: impl Fn(Binary32, Binary32) -> bool)
        ensures
            forall|x: Binary32, y: Binary32| #[trigger] f.requires((x, y)),
            forall|x: Binary32, y: Binary32, pass: bool| #[trigger]
                f.ensures((x, y), pass) ==> pass == self.passes(x, y),
    {
        let mode = *self;
        move |x: Binary32, y: Binary32| -> (pass: bool)
            ensures
                pass == mode.passes(x, y),
            { mode.test(x, y) }
    }

    /// "Always" passes and "never" fails, whatever the two depths are.
    pub proof fn always_and_never(candidate: Binary32, stored: Binary32)
        ensures
            EDepthCmpFunc::Always.passes(candidate, stored),
            !EDepthCmpFunc::Never.passes(candidate, stored),
    {
    }
}

} // verus!
