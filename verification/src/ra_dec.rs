//! A position on the celestial sphere: right ascension and declination.

use crate::declination::Declination;
use crate::float::{mul_gives, sub_gives, Float};
use crate::right_ascension::RightAscension;
use crate::tolerance::close;
use core::ops::{Mul, Sub};
use vstd::prelude::*;

verus! {

/// A right ascension and a declination, each held by value.
#[derive(Clone, Copy)]
pub struct RaDec<T: Float> {
    pub ra: RightAscension<T>,
    pub dec: Declination<T>,
}

impl<T: Float> RaDec<T> {
    /// `r` is the difference of this position and `rhs`, coordinate by
    /// coordinate, neither of them reduced.
    pub open spec fn minus(self, rhs: Self, r: Self) -> bool {
        &&& sub_gives(self.ra.radians(), rhs.ra.radians(), r.ra.radians())
        &&& sub_gives(self.dec.radians(), rhs.dec.radians(), r.dec.radians())
    }

    /// `r` is this position times `rhs`: the right ascension reduced into
    /// one turn, the declination as it comes out.
    pub open spec fn times(self, rhs: T, r: Self) -> bool {
        &&& self.ra.times(rhs, r.ra)
        &&& mul_gives(self.dec.radians(), rhs, r.dec.radians())
    }

    /// `r` tells whether this position equals `other`: whether the right
    /// ascensions are close and, where they are, whether the declinations
    /// are. Where the right ascensions are not close the declinations are not
    /// compared.
    pub open spec fn same_through(self, other: Self, ra_close: bool, r: bool) -> bool {
        &&& close(self.ra.radians(), other.ra.radians(), ra_close)
        &&& if ra_close {
            close(self.dec.radians(), other.dec.radians(), r)
        } else {
            !r
        }
    }

    /// `r` tells whether this position equals `other` in both coordinates.
    pub open spec fn same(self, other: Self, r: bool) -> bool {
        exists|ra_close: bool| #[trigger] self.same_through(other, ra_close, r)
    }
}

impl<T: Float> Sub<RaDec<T>> for RaDec<T> {
    type Output = Self;

    fn sub(self, rhs: Self) -> (r: Self)
        ensures
            self.minus(rhs, r),
    {
        Self { ra: self.ra - rhs.ra, dec: self.dec - rhs.dec }
    }
}

impl<T: Float> vstd::std_specs::ops::SubSpecImpl<RaDec<T>> for RaDec<T> {
    open spec fn obeys_sub_spec() -> bool {
        false
    }

    open spec fn sub_req(self, rhs: Self) -> bool {
        true
    }

    open spec fn sub_spec(self, rhs: Self) -> Self {
        choose|r: Self| self.minus(rhs, r)
    }
}

impl<T: Float> Mul<T> for RaDec<T> {
    type Output = Self;

    fn mul(self, rhs: T) -> (r: Self)
        ensures
            self.times(rhs, r),
    {
        Self { ra: self.ra * rhs, dec: Declination::from_radians(self.dec.radians().mul(rhs)) }
    }
}

impl<T: Float> vstd::std_specs::ops::MulSpecImpl<T> for RaDec<T> {
    open spec fn obeys_mul_spec() -> bool {
        false
    }

    open spec fn mul_req(self, rhs: T) -> bool {
        true
    }

    open spec fn mul_spec(self, rhs: T) -> Self {
        choose|r: Self| self.times(rhs, r)
    }
}

impl<T: Float> PartialEq for RaDec<T> {
    fn eq(&self, other: &Self) -> (r: bool)
        ensures
            self.same(*other, r),
    {
        let ra_close = self.ra == other.ra;
        let r = if ra_close {
            self.dec == other.dec
        } else {
            false
        };
        assert(self.same_through(*other, ra_close, r));
        r
    }
}

impl<T: Float> vstd::std_specs::cmp::PartialEqSpecImpl for RaDec<T> {
    open spec fn obeys_eq_spec() -> bool {
        false
    }

    open spec fn eq_spec(&self, other: &Self) -> bool {
        self.same(*other, true)
    }
}

} // verus!
