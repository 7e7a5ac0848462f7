//! The visual state of one layer: offset, scale and rotation.

use vstd::prelude::*;
use crate::fixed::UNIT;

verus! {

/// The negation of `x`, held to what an `i64` can take.
pub open spec fn negated(x: i64) -> i64 {
    if x == i64::MIN {
        i64::MAX
    } else {
        (-x) as i64
    }
}

/// Negates a value; the one value without a negation gives the largest one.
pub fn negate(x: i64) -> (n: i64)
    ensures
        n == negated(x),
{
    if x == i64::MIN {
        i64::MAX
    } else {
        -x
    }
}

/// Offset, scale and rotation of a layer, each in millionths: offsets in
/// percent of the viewport, scale as a factor, rotation in degrees.
#[derive(Clone, Copy, Debug, PartialEq, Eq, Structural)]
pub struct Transform {
    pub x: i64,
    pub y: i64,
    pub scale: i64,
    pub rotation: i64,
}

impl Transform {
    /// The transform that leaves a layer where it is.
    pub open spec fn spec_identity() -> Transform {
        Transform { x: 0, y: 0, scale: UNIT, rotation: 0 }
    }

    /// The transform on the opposite side: offsets and rotation negated, scale kept.
    pub open spec fn mirror(self) -> Transform {
        Transform {
            x: negated(self.x),
            y: negated(self.y),
            scale: self.scale,
            rotation: negated(self.rotation),
        }
    }

    /// A transform from its four parts, in millionths.
    pub fn new(x: i64, y: i64, scale: i64, rotation: i64) -> (t: Transform)
        ensures
            t == (Transform { x, y, scale, rotation }),
    {
        Transform { x, y, scale, rotation }
    }

    /// The transform that leaves a layer where it is.
    pub fn identity() -> (t: Transform)
        ensures
            t == Transform::spec_identity(),
    {
        Transform { x: 0, y: 0, scale: UNIT, rotation: 0 }
    }

    /// An offset in whole percent of the viewport, at full scale.
    pub fn offset(x_percent: i32, y_percent: i32) -> (t: Transform)
        ensures
            t == (Transform {
                x: (x_percent * UNIT) as i64,
                y: (y_percent * UNIT) as i64,
                scale: UNIT,
                rotation: 0,
            }),
    {
        let x: i64 = (x_percent as i64) * UNIT;
        let y: i64 = (y_percent as i64) * UNIT;
        Transform { x, y, scale: UNIT, rotation: 0 }
    }

    /// The transform on the opposite side.
    pub fn mirrored(&self) -> (t: Transform)
        ensures
            t == self.mirror(),
    {
        Transform {
            x: negate(self.x),
            y: negate(self.y),
            scale: self.scale,
            rotation: negate(self.rotation),
        }
    }
}

/// Mirroring twice gives the transform back, unless a part is the one value
/// without a negation; the identity is its own mirror image.
pub proof fn lemma_mirror_involution(t: Transform)
    requires
        t.x != i64::MIN,
        t.y != i64::MIN,
        t.rotation != i64::MIN,
    ensures
        t.mirror().mirror() == t,
        Transform::spec_identity().mirror() == Transform::spec_identity(),
{
}

} // verus!
