//! The scalar capability that every angle type is built on.

use vstd::prelude::*;

verus! {

/// Double-precision bit pattern of zero.
pub const ZERO_BITS: u64 = 0;

/// Double-precision bit pattern of fifteen, the degrees in one hour of time.
pub const FIFTEEN_BITS: u64 = 0x402E_0000_0000_0000;

/// Double-precision bit pattern of sixty, the minutes in one whole unit.
pub const SIXTY_BITS: u64 = 0x404E_0000_0000_0000;

/// Double-precision bit pattern of 3600, the seconds in one whole unit.
pub const SECONDS_BITS: u64 = 0x40AC_2000_0000_0000;

/// Double-precision bit pattern of 100000, the scale at which two angles are
/// compared.
pub const PRECISION_BITS: u64 = 0x40F8_6A00_0000_0000;

/// Double-precision bit pattern of a full turn in radians.
pub const TAU_BITS: u64 = 0x4019_21FB_5444_2D18;

/// A floating-point scalar.
///
/// Nothing is promised of an implementation but that its operations return.
/// What an operation returns is named by the relations below, so a contract
/// built on them holds of every implementation, whatever its rounding and
/// whatever NaN it produces.
///
/// A double-precision value crosses this interface as its IEEE 754 bit
/// pattern, a single-precision value likewise.
pub trait Float: Copy + PartialEq + PartialOrd {
    fn floor(self) -> Self;

    fn is_nan(self) -> bool;

    fn to_radians(self) -> Self;

    fn to_degrees(self) -> Self;

    fn sin(self) -> Self;

    fn cos(self) -> Self;

    fn round(self) -> Self;

    fn abs(self) -> Self;

    fn add(self, rhs: Self) -> Self;

    fn sub(self, rhs: Self) -> Self;

    fn mul(self, rhs: Self) -> Self;

    fn div(self, rhs: Self) -> Self;

    /// The least non-negative remainder of `self` divided by `rhs`.
    fn rem_euclid(self, rhs: Self) -> Self;

    /// `self` truncated to a 32-bit integer, where it fits one.
    fn to_i32(self) -> Option<i32>;

    /// `self` in decimal with `decimals` fractional digits, padded on the left
    /// with zeros to at least `width` characters.
    fn fixed(self, width: usize, decimals: usize) -> String;

    /// The scalar nearest to the double-precision value with pattern `bits`.
    fn from_f64_bits(bits: u64) -> Self;

    /// The pattern of `self` in double precision.
    fn to_f64_bits(self) -> u64;

    /// The pattern of `self` in single precision.
    fn to_f32_bits(self) -> u32;
}

/// `r` is what `floor` returns on `x`.
pub open spec fn floor_gives<T: Float>(x: T, r: T) -> bool {
    call_ensures(T::floor, (x,), r)
}

/// `r` is what `is_nan` returns on `x`.
pub open spec fn is_nan_gives<T: Float>(x: T, r: bool) -> bool {
    call_ensures(T::is_nan, (x,), r)
}

/// `r` is what `to_radians` returns on `x`.
pub open spec fn to_radians_gives<T: Float>(x: T, r: T) -> bool {
    call_ensures(T::to_radians, (x,), r)
}

/// `r` is what `to_degrees` returns on `x`.
pub open spec fn to_degrees_gives<T: Float>(x: T, r: T) -> bool {
    call_ensures(T::to_degrees, (x,), r)
}

/// `r` is what `sin` returns on `x`.
pub open spec fn sin_gives<T: Float>(x: T, r: T) -> bool {
    call_ensures(T::sin, (x,), r)
}

/// `r` is what `cos` returns on `x`.
pub open spec fn cos_gives<T: Float>(x: T, r: T) -> bool {
    call_ensures(T::cos, (x,), r)
}

/// `r` is what `round` returns on `x`.
pub open spec fn round_gives<T: Float>(x: T, r: T) -> bool {
    call_ensures(T::round, (x,), r)
}

/// `r` is what `abs` returns on `x`.
pub open spec fn abs_gives<T: Float>(x: T, r: T) -> bool {
    call_ensures(T::abs, (x,), r)
}

/// `r` is what the scalar's addition returns on `a` and `b`.
pub open spec fn add_gives<T: Float>(a: T, b: T, r: T) -> bool {
    call_ensures(T::add, (a, b), r)
}

/// `r` is what the scalar's subtraction returns on `a` and `b`.
pub open spec fn sub_gives<T: Float>(a: T, b: T, r: T) -> bool {
    call_ensures(T::sub, (a, b), r)
}

/// `r` is what the scalar's multiplication returns on `a` and `b`.
pub open spec fn mul_gives<T: Float>(a: T, b: T, r: T) -> bool {
    call_ensures(T::mul, (a, b), r)
}

/// `r` is what the scalar's division returns on `a` and `b`.
pub open spec fn div_gives<T: Float>(a: T, b: T, r: T) -> bool {
    call_ensures(T::div, (a, b), r)
}

/// `r` is what `rem_euclid` returns on `x` and the modulus `m`.
pub open spec fn rem_euclid_gives<T: Float>(x: T, m: T, r: T) -> bool {
    call_ensures(T::rem_euclid, (x, m), r)
}

/// `r` is what `to_i32` returns on `x`.
pub open spec fn to_i32_gives<T: Float>(x: T, r: Option<i32>) -> bool {
    call_ensures(T::to_i32, (x,), r)
}

/// `text` is what `fixed` returns on `x`, and `s` its characters.
pub open spec fn fixed_returns<T: Float>(
    x: T,
    width: usize,
    decimals: usize,
    text: String,
    s: Seq<char>,
) -> bool {
    call_ensures(T::fixed, (x, width, decimals), text) && text@ == s
}

/// `s` holds the characters that `fixed` returns on `x`.
pub open spec fn fixed_gives<T: Float>(x: T, width: usize, decimals: usize, s: Seq<char>) -> bool {
    exists|text: String| #[trigger] fixed_returns(x, width, decimals, text, s)
}

/// `r` is what `from_f64_bits` returns on `bits`.
pub open spec fn from_f64_bits_gives<T: Float>(bits: u64, r: T) -> bool {
    call_ensures(T::from_f64_bits, (bits,), r)
}

/// `r` is what `to_f64_bits` returns on `x`.
pub open spec fn to_f64_bits_gives<T: Float>(x: T, r: u64) -> bool {
    call_ensures(T::to_f64_bits, (x,), r)
}

/// `r` is what `to_f32_bits` returns on `x`.
pub open spec fn to_f32_bits_gives<T: Float>(x: T, r: u32) -> bool {
    call_ensures(T::to_f32_bits, (x,), r)
}

/// `r` is what `==` returns on `a` and `b`.
pub open spec fn eq_gives<T: Float>(a: T, b: T, r: bool) -> bool {
    call_ensures(T::eq, (&a, &b), r)
}

/// `r` is what `<` returns on `a` and `b`.
pub open spec fn lt_gives<T: Float>(a: T, b: T, r: bool) -> bool {
    call_ensures(T::lt, (&a, &b), r)
}

/// `r` is `f` carried into the scalar `T` through the double-precision
/// pattern `bits`.
pub open spec fn from_through<T: Float, U: Float>(f: U, bits: u64, r: T) -> bool {
    to_f64_bits_gives(f, bits) && from_f64_bits_gives(bits, r)
}

/// `r` is `f` carried into the scalar `T` by way of double precision.
pub open spec fn from_gives<T: Float, U: Float>(f: U, r: T) -> bool {
    exists|bits: u64| #[trigger] from_through(f, bits, r)
}

/// Converts a scalar of any precision into another, by way of double
/// precision.
pub fn from<T: Float, U: Float>(f: U) -> (r: T)
    ensures
        from_gives(f, r),
{
    let bits: u64 = f.to_f64_bits();
    let r = T::from_f64_bits(bits);
    assert(from_through(f, bits, r));
    r
}

} // verus!
