//! Equality of angles up to a fixed resolution.

use crate::float::{eq_gives, from_f64_bits_gives, is_nan_gives, mul_gives, round_gives, Float, PRECISION_BITS};
use crate::ieee::{eq_symmetric, steps_equal_themselves, steps_fixed, steps_of_nan_equal_nothing};
use vstd::prelude::*;

verus! {

/// `steps` is the rounding of `scaled`, which is `radians` times `scale`, the
/// scalar of the comparison scale.
pub open spec fn steps_through<T: Float>(radians: T, scale: T, scaled: T, steps: T) -> bool {
    &&& from_f64_bits_gives(PRECISION_BITS, scale)
    &&& mul_gives(radians, scale, scaled)
    &&& round_gives(scaled, steps)
}

/// `steps` is the whole number of resolution steps nearest to `radians`.
pub open spec fn steps_of<T: Float>(radians: T, steps: T) -> bool {
    exists|scale: T, scaled: T| #[trigger] steps_through(radians, scale, scaled, steps)
}

/// `r` tells whether `a_steps` and `b_steps`, the steps of `a` and of `b`,
/// are equal.
pub open spec fn close_through<T: Float>(a: T, b: T, a_steps: T, b_steps: T, r: bool) -> bool {
    &&& steps_of(a, a_steps)
    &&& steps_of(b, b_steps)
    &&& eq_gives(a_steps, b_steps, r)
}

/// `r` tells whether the angles `a` and `b`, in radians, round to the same
/// number of resolution steps.
pub open spec fn close<T: Float>(a: T, b: T, r: bool) -> bool {
    exists|a_steps: T, b_steps: T| #[trigger] close_through(a, b, a_steps, b_steps, r)
}

/// Rounds `radians` to a whole number of resolution steps.
pub fn steps<T: Float>(radians: T) -> (r: T)
    ensures
        steps_of(radians, r),
{
    let scale = T::from_f64_bits(PRECISION_BITS);
    let scaled = radians.mul(scale);
    let r = scaled.round();
    assert(steps_through(radians, scale, scaled, r));
    r
}

/// Tells whether two angles in radians round to the same number of steps.
pub fn is_close<T: Float>(a: T, b: T) -> (r: bool)
    ensures
        close(a, b, r),
{
    let a_steps = steps(a);
    let b_steps = steps(b);
    let r = a_steps == b_steps;
    assert(close_through(a, b, a_steps, b_steps, r));
    r
}

/// Comparing two angles gives the same answer in either order.
pub proof fn lemma_close_symmetric<T: Float>(
    a: T,
    b: T,
    a_nan: bool,
    b_nan: bool,
    r: bool,
    s: bool,
)
    requires
        eq_symmetric::<T>(),
        steps_fixed::<T>(),
        steps_of_nan_equal_nothing::<T>(),
        is_nan_gives(a, a_nan),
        is_nan_gives(b, b_nan),
        close(a, b, r),
        close(b, a, s),
    ensures
        r == s,
{
    let (a1, b1) = choose|a1: T, b1: T| #[trigger] close_through(a, b, a1, b1, r);
    let (b2, a2) = choose|b2: T, a2: T| #[trigger] close_through(b, a, b2, a2, s);
    if !a_nan && !b_nan {
        assert(a1 == a2);
        assert(b1 == b2);
    }
}

/// An angle is close to itself exactly when it is no NaN.
pub proof fn lemma_close_reflexive<T: Float>(a: T, nan: bool, r: bool)
    requires
        steps_fixed::<T>(),
        steps_equal_themselves::<T>(),
        steps_of_nan_equal_nothing::<T>(),
        is_nan_gives(a, nan),
        close(a, a, r),
    ensures
        r == !nan,
{
    let (s1, s2) = choose|s1: T, s2: T| #[trigger] close_through(a, a, s1, s2, r);
    if !nan {
        assert(s1 == s2);
    }
}

} // verus!
