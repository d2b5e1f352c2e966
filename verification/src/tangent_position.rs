//! A point on the tangent plane.

use crate::float::{eq_gives, Float};
use vstd::prelude::*;

verus! {

/// The two coordinates of a point on the tangent plane.
#[derive(Debug, Clone, Copy)]
pub struct TangentPosition<T: Float> {
    pub x: T,
    pub y: T,
}

impl<T: Float> TangentPosition<T> {
    /// `r` tells whether this point equals `other`: whether the `x` are
    /// equal and, where they are, whether the `y` are. Where the `x` differ
    /// the `y` are not compared.
    pub open spec fn same_through(self, other: Self, x_same: bool, r: bool) -> bool {
        &&& eq_gives(self.x, other.x, x_same)
        &&& if x_same {
            eq_gives(self.y, other.y, r)
        } else {
            !r
        }
    }

    /// `r` tells whether this point equals `other` in both coordinates.
    pub open spec fn same(self, other: Self, r: bool) -> bool {
        exists|x_same: bool| #[trigger] self.same_through(other, x_same, r)
    }
}

impl<T: Float> PartialEq for TangentPosition<T> {
    fn eq(&self, other: &Self) -> (r: bool)
        ensures
            self.same(*other, r),
    {
        let x_same = self.x == other.x;
        let r = if x_same {
            self.y == other.y
        } else {
            false
        };
        assert(self.same_through(*other, x_same, r));
        r
    }
}

impl<T: Float> vstd::std_specs::cmp::PartialEqSpecImpl for TangentPosition<T> {
    open spec fn obeys_eq_spec() -> bool {
        false
    }

    open spec fn eq_spec(&self, other: &Self) -> bool {
        self.same(*other, true)
    }
}

} // verus!
