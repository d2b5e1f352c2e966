//! Facts of IEEE 754 arithmetic that the laws of this library take as given.
//!
//! Each is a statement about what a scalar's operations answer: an answer
//! stands on the left of the implication, and what follows of it on the
//! right. The library's functions need none of them; its laws name the ones
//! they rest on.

use crate::float::{
    eq_gives, from_f64_bits_gives, is_nan_gives, lt_gives, rem_euclid_gives, sub_gives, Float,
    FIFTEEN_BITS, PRECISION_BITS, SECONDS_BITS, SIXTY_BITS, TAU_BITS, ZERO_BITS,
};
use crate::tolerance::steps_of;
use vstd::prelude::*;

verus! {

/// Whether `bits` is the pattern of one of the library's constants.
pub open spec fn is_constant(bits: u64) -> bool {
    bits == ZERO_BITS || bits == FIFTEEN_BITS || bits == SIXTY_BITS || bits == SECONDS_BITS || bits
        == PRECISION_BITS || bits == TAU_BITS
}

/// Each of the library's constants converts to one scalar only.
pub open spec fn constants_fixed<T: Float>() -> bool {
    forall|bits: u64, a: T, b: T|
        #![trigger from_f64_bits_gives(bits, a), from_f64_bits_gives(bits, b)]
        is_constant(bits) && from_f64_bits_gives(bits, a) && from_f64_bits_gives(bits, b) ==> a
            == b
}

/// Equality answers the same for its operands in either order.
pub open spec fn eq_symmetric<T: Float>() -> bool {
    forall|a: T, b: T, r: bool, s: bool|
        #![trigger eq_gives(a, b, r), eq_gives(b, a, s)]
        eq_gives(a, b, r) && eq_gives(b, a, s) ==> r == s
}

/// An angle that is no NaN has one number of resolution steps only.
pub open spec fn steps_fixed<T: Float>() -> bool {
    forall|a: T, u: T, v: T|
        #![trigger steps_of(a, u), steps_of(a, v)]
        is_nan_gives(a, false) && steps_of(a, u) && steps_of(a, v) ==> u == v
}

/// The steps of an angle that is no NaN equal themselves.
pub open spec fn steps_equal_themselves<T: Float>() -> bool {
    forall|a: T, u: T, r: bool|
        #![trigger steps_of(a, u), eq_gives(u, u, r)]
        is_nan_gives(a, false) && steps_of(a, u) && eq_gives(u, u, r) ==> r
}

/// The steps of a NaN equal nothing, on either side of the comparison.
pub open spec fn steps_of_nan_equal_nothing<T: Float>() -> bool {
    &&& forall|a: T, u: T, x: T, r: bool|
        #![trigger steps_of(a, u), eq_gives(u, x, r)]
        is_nan_gives(a, true) && steps_of(a, u) && eq_gives(u, x, r) ==> !r
    &&& forall|a: T, u: T, x: T, r: bool|
        #![trigger steps_of(a, u), eq_gives(x, u, r)]
        is_nan_gives(a, true) && steps_of(a, u) && eq_gives(x, u, r) ==> !r
}

/// The Euclidean remainder leaves a value alone that is not below zero and
/// is below the modulus.
pub open spec fn rem_euclid_fixed<T: Float>() -> bool {
    forall|x: T, m: T, zero: T, r: T|
        #![trigger rem_euclid_gives(x, m, r), lt_gives(x, zero, false)]
        from_f64_bits_gives(ZERO_BITS, zero) && lt_gives(x, zero, false) && lt_gives(x, m, true)
            && rem_euclid_gives(x, m, r) ==> r == x
}

/// A value below another does not equal it.
pub open spec fn below_is_unequal<T: Float>() -> bool {
    forall|x: T, m: T, r: bool|
        #![trigger lt_gives(x, m, true), eq_gives(x, m, r)]
        lt_gives(x, m, true) && eq_gives(x, m, r) ==> !r
}

/// A Euclidean remainder by the full turn that is no NaN is not below zero,
/// and is below the turn or equal to it. It can equal the turn: a small value
/// below zero plus the turn may round to the turn.
pub open spec fn remainder_in_turn<T: Float>() -> bool {
    forall|x: T, zero: T, turn: T, r: T, negative: bool, below: bool, at_turn: bool|
        #![trigger
            rem_euclid_gives(x, turn, r),
            lt_gives(r, zero, negative),
            lt_gives(r, turn, below),
            eq_gives(r, turn, at_turn)
        ]
        from_f64_bits_gives(ZERO_BITS, zero) && from_f64_bits_gives(TAU_BITS, turn)
            && rem_euclid_gives(x, turn, r) && is_nan_gives(r, false) && lt_gives(r, zero, negative)
            && lt_gives(r, turn, below) && eq_gives(r, turn, at_turn) ==> !negative && (below
            || at_turn)
}

/// Zero is not below itself and is below the full turn.
pub open spec fn zero_in_turn<T: Float>() -> bool {
    forall|zero: T, turn: T, negative: bool, below: bool|
        #![trigger lt_gives(zero, zero, negative), lt_gives(zero, turn, below)]
        from_f64_bits_gives(ZERO_BITS, zero) && from_f64_bits_gives(TAU_BITS, turn) && lt_gives(
            zero,
            zero,
            negative,
        ) && lt_gives(zero, turn, below) ==> !negative && below
}

/// A value less a value above it is below zero.
pub open spec fn difference_below_zero<T: Float>() -> bool {
    forall|a: T, b: T, d: T, zero: T, negative: bool|
        #![trigger sub_gives(a, b, d), lt_gives(d, zero, negative)]
        from_f64_bits_gives(ZERO_BITS, zero) && lt_gives(a, b, true) && sub_gives(a, b, d)
            && lt_gives(d, zero, negative) ==> negative
}

} // verus!
