use astro_coords::float::{
    from, Float, FIFTEEN_BITS, PRECISION_BITS, SECONDS_BITS, SIXTY_BITS, TAU_BITS, ZERO_BITS,
};
use astro_coords::sexagesimal::{decimal_string, split, two_digit_string};
use astro_coords::tolerance::{is_close, steps};
use astro_coords::{Declination, RaDec, RightAscension, TangentPosition};
use num::traits::Euclid;
use num::ToPrimitive;

#[derive(Clone, Copy, Debug, PartialEq, PartialOrd)]
struct F64(f64);

impl Float for F64 {
    fn floor(self) -> Self {
        F64(self.0.floor())
    }
    fn is_nan(self) -> bool {
        self.0.is_nan()
    }
    fn to_radians(self) -> Self {
        F64(self.0.to_radians())
    }
    fn to_degrees(self) -> Self {
        F64(self.0.to_degrees())
    }
    fn sin(self) -> Self {
        F64(self.0.sin())
    }
    fn cos(self) -> Self {
        F64(self.0.cos())
    }
    fn round(self) -> Self {
        F64(self.0.round())
    }
    fn abs(self) -> Self {
        F64(self.0.abs())
    }
    fn add(self, rhs: Self) -> Self {
        F64(self.0 + rhs.0)
    }
    fn sub(self, rhs: Self) -> Self {
        F64(self.0 - rhs.0)
    }
    fn mul(self, rhs: Self) -> Self {
        F64(self.0 * rhs.0)
    }
    fn div(self, rhs: Self) -> Self {
        F64(self.0 / rhs.0)
    }
    fn rem_euclid(self, rhs: Self) -> Self {
        F64(Euclid::rem_euclid(&self.0, &rhs.0))
    }
    fn to_i32(self) -> Option<i32> {
        ToPrimitive::to_i32(&self.0)
    }
    fn fixed(self, width: usize, decimals: usize) -> String {
        format!("{:0w$.p$}", self.0, w = width, p = decimals)
    }
    fn from_f64_bits(bits: u64) -> Self {
        F64(f64::from_bits(bits))
    }
    fn to_f64_bits(self) -> u64 {
        self.0.to_bits()
    }
    fn to_f32_bits(self) -> u32 {
        (self.0 as f32).to_bits()
    }
}

#[derive(Clone, Copy, Debug, PartialEq, PartialOrd)]
struct F32(f32);

impl Float for F32 {
    fn floor(self) -> Self {
        F32(self.0.floor())
    }
    fn is_nan(self) -> bool {
        self.0.is_nan()
    }
    fn to_radians(self) -> Self {
        F32(self.0.to_radians())
    }
    fn to_degrees(self) -> Self {
        F32(self.0.to_degrees())
    }
    fn sin(self) -> Self {
        F32(self.0.sin())
    }
    fn cos(self) -> Self {
        F32(self.0.cos())
    }
    fn round(self) -> Self {
        F32(self.0.round())
    }
    fn abs(self) -> Self {
        F32(self.0.abs())
    }
    fn add(self, rhs: Self) -> Self {
        F32(self.0 + rhs.0)
    }
    fn sub(self, rhs: Self) -> Self {
        F32(self.0 - rhs.0)
    }
    fn mul(self, rhs: Self) -> Self {
        F32(self.0 * rhs.0)
    }
    fn div(self, rhs: Self) -> Self {
        F32(self.0 / rhs.0)
    }
    fn rem_euclid(self, rhs: Self) -> Self {
        F32(Euclid::rem_euclid(&self.0, &rhs.0))
    }
    fn to_i32(self) -> Option<i32> {
        ToPrimitive::to_i32(&self.0)
    }
    fn fixed(self, width: usize, decimals: usize) -> String {
        format!("{:0w$.p$}", self.0, w = width, p = decimals)
    }
    fn from_f64_bits(bits: u64) -> Self {
        F32(f64::from_bits(bits) as f32)
    }
    fn to_f64_bits(self) -> u64 {
        (self.0 as f64).to_bits()
    }
    fn to_f32_bits(self) -> u32 {
        self.0.to_bits()
    }
}

const TAU: f64 = std::f64::consts::TAU;

fn dec(degrees: f64) -> Declination<F64> {
    Declination::from_degrees(F64(degrees))
}

fn ra(degrees: f64) -> RightAscension<F64> {
    RightAscension::from_degrees(F64(degrees))
}

#[test]
fn constants_are_the_patterns_of_their_values() {
    assert_eq!(f64::from_bits(ZERO_BITS), 0.0);
    assert_eq!(f64::from_bits(FIFTEEN_BITS), 15.0);
    assert_eq!(f64::from_bits(SIXTY_BITS), 60.0);
    assert_eq!(f64::from_bits(SECONDS_BITS), 3600.0);
    assert_eq!(f64::from_bits(PRECISION_BITS), 100_000.0);
    assert_eq!(TAU_BITS, TAU.to_bits());
}

#[test]
fn from_carries_a_scalar_across_precisions() {
    let narrow: F32 = from(F64(0.1));
    assert_eq!(narrow.0, 0.1_f32);
    let wide: F64 = from(F32(0.5));
    assert_eq!(wide.0, 0.5);
    let same: F64 = from(F64(-2.75));
    assert_eq!(same.0, -2.75);
    let nan: F32 = from(F64(f64::NAN));
    assert!(nan.0.is_nan());
}

#[test]
fn decimal_string_writes_every_digit() {
    assert_eq!(decimal_string(0), "0");
    assert_eq!(decimal_string(7), "7");
    assert_eq!(decimal_string(10), "10");
    assert_eq!(decimal_string(1234567890), "1234567890");
    assert_eq!(decimal_string(u32::MAX), "4294967295");
}

#[test]
fn two_digit_string_pads_as_the_formatter_does() {
    let values = [0, 1, 9, 10, 59, 99, 100, 360, -1, -9, -10, -123, i32::MAX, i32::MIN];
    for n in values {
        assert_eq!(two_digit_string(n), format!("{:02}", n));
    }
}

#[test]
fn split_gives_whole_minutes_and_seconds() {
    let parts = split(F64(7.5));
    assert_eq!(parts.whole.0, 7.0);
    assert_eq!(parts.minutes.0, 30.0);
    assert_eq!(parts.seconds.0, 0.0);
    let parts = split(F64(7.125));
    assert_eq!(parts.whole.0, 7.0);
    assert_eq!(parts.minutes.0, 7.0);
    assert_eq!(parts.seconds.0, (0.125 - 7.0 / 60.0) * 3600.0);
}

#[test]
fn split_does_not_carry_below_zero() {
    let parts = split(F64(-1.25));
    assert_eq!(parts.whole.0, -2.0);
    assert_eq!(parts.minutes.0, 45.0);
    assert_eq!(parts.seconds.0, 0.0);
}

#[test]
fn steps_round_half_away_from_zero() {
    assert_eq!(steps(F64(0.000005)).0, (0.000005_f64 * 100_000.0).round());
    assert_eq!(steps(F64(1.0)).0, 100_000.0);
    assert_eq!(steps(F64(-0.000025)).0, -3.0);
    assert_eq!(steps(F64(0.000024)).0, 2.0);
}

#[test]
fn is_close_compares_the_steps() {
    assert!(is_close(F64(0.25), F64(0.250004)));
    assert!(!is_close(F64(0.25), F64(0.25001)));
    assert!(!is_close(F64(f64::NAN), F64(f64::NAN)));
}

#[test]
fn declination_round_trip_is_exact() {
    let values = [0.0, -0.0, 0.123456789012345, -1.5, 7.0, 1e-300, -1e300, f64::MAX];
    for r in values {
        assert_eq!(Declination::from_radians(F64(r)).radians().0.to_bits(), r.to_bits());
    }
}

#[test]
fn declination_stores_what_it_is_given() {
    assert_eq!(Declination::from_radians(F64(10.0)).radians().0, 10.0);
    assert_eq!(Declination::from_radians(F64(-10.0)).radians().0, -10.0);
}

#[test]
fn declination_converts_degrees() {
    assert_eq!(dec(180.0).radians().0, std::f64::consts::PI);
    assert_eq!(dec(-45.5).radians().0, (-45.5_f64).to_radians());
    assert_eq!(Declination::from_radians(F64(std::f64::consts::PI)).degrees().0, 180.0);
}

#[test]
fn declination_sin_and_cos() {
    let d = Declination::from_radians(F64(0.5));
    assert_eq!(d.sin().0, 0.5_f64.sin());
    assert_eq!(d.cos().0, 0.5_f64.cos());
}

#[test]
fn declination_is_nan_tells_a_nan() {
    assert!(Declination::from_radians(F64(f64::NAN)).is_nan());
    assert!(!Declination::from_radians(F64(1.0)).is_nan());
    assert!(!Declination::from_radians(F64(f64::INFINITY)).is_nan());
    assert!((Declination::from_radians(F64(0.0)) / F64(0.0)).is_nan());
}

#[test]
fn declination_subtracts_without_reducing() {
    let a = Declination::from_radians(F64(0.25));
    let b = Declination::from_radians(F64(0.75));
    assert_eq!((a - b).radians().0, -0.5);
    assert_eq!((b - a).radians().0, 0.5);
}

#[test]
fn declination_divides_by_a_scalar() {
    let a = Declination::from_radians(F64(0.75));
    assert_eq!((a / F64(3.0)).radians().0, 0.25);
    assert_eq!((a / F64(0.0)).radians().0, f64::INFINITY);
}

#[test]
fn declination_equals_itself_unless_nan() {
    let values = [0.0, 1.0, -1.0, 1e-9, 1e9, f64::INFINITY, f64::NEG_INFINITY];
    for r in values {
        let a = Declination::from_radians(F64(r));
        assert!(a == a);
    }
    let nan = Declination::from_radians(F64(f64::NAN));
    assert!(nan != nan);
}

#[test]
fn declination_equality_is_symmetric() {
    let values = [0.0, 0.000004, 0.000006, 0.1, 0.100004, 0.10003, -0.5, f64::NAN];
    for x in values {
        for y in values {
            let a = Declination::from_radians(F64(x));
            let b = Declination::from_radians(F64(y));
            assert_eq!(a == b, b == a);
        }
    }
}

#[test]
fn declination_within_one_step_is_equal() {
    let a = Declination::from_radians(F64(0.1));
    let b = Declination::from_radians(F64(0.100004));
    assert!(a == b);
}

#[test]
fn declination_two_steps_apart_is_unequal() {
    let a = Declination::from_radians(F64(0.1));
    let b = Declination::from_radians(F64(0.10003));
    assert!(a != b);
    let c = Declination::from_radians(F64(0.100021));
    assert!(a != c);
}

#[test]
fn declination_beyond_the_scalar_range_is_equal() {
    let a = Declination::from_radians(F64(1e304));
    let b = Declination::from_radians(F64(2e304));
    assert!(a == b);
}

#[test]
fn declination_across_a_half_step_is_unequal() {
    let a = Declination::from_radians(F64(0.000004));
    let b = Declination::from_radians(F64(0.000006));
    assert!(a != b);
}

#[test]
fn declination_displays_negative_half_degree() {
    assert_eq!(dec(-45.5).to_string(), "-45\u{b0} 30' 00.00\"");
}

#[test]
fn declination_displays_positive_with_leading_zeros() {
    assert_eq!(dec(7.125).to_string(), "+07\u{b0} 07' 30.00\"");
}

#[test]
fn declination_displays_zero_as_positive() {
    assert_eq!(dec(0.0).to_string(), "+00\u{b0} 00' 00.00\"");
}

#[test]
fn declination_displays_seconds_that_round_to_sixty() {
    let degrees = 1.0 + 59.9999 / 3600.0;
    assert_eq!(dec(degrees).to_string(), "+01\u{b0} 00' 60.00\"");
}

#[test]
fn declination_displays_a_nan_without_failing() {
    let text = Declination::from_radians(F64(f64::NAN)).to_string();
    assert!(text.starts_with('+'));
    assert!(text.contains("NaN"));
    assert!(text.ends_with('"'));
}

#[test]
fn declination_displays_degrees_beyond_an_integer() {
    let text = Declination::from_radians(F64(1e12)).to_string();
    let whole = (1e12_f64).to_degrees().floor();
    assert!(text.starts_with(&format!("+{:02.0}\u{b0} ", whole)));
}

#[test]
fn declination_in_single_precision() {
    let a = Declination::from_radians(F32(0.25));
    assert_eq!(a.radians().0.to_bits(), 0.25_f32.to_bits());
    let b = Declination::from_degrees(F32(-45.51));
    assert!(b.to_string().starts_with("-45\u{b0} 30' "));
    assert!(a == a);
    assert!(a != b);
}

#[test]
fn right_ascension_reduces_into_one_turn() {
    let values = [0.0, 1.0, 6.0, 7.0, -1.0, -7.0, 100.0, -100.0, TAU, -TAU, 1e10, -1e10];
    for r in values {
        let reduced = RightAscension::from_radians(F64(r)).radians().0;
        assert_eq!(reduced.to_bits(), r.rem_euclid(TAU).to_bits());
        assert!(reduced >= 0.0 && reduced < TAU);
    }
    let more = [-1e-20, 1e-20, -1e-15, 1e300, -1e300, f64::MAX, f64::MIN, -f64::MIN_POSITIVE];
    for r in more {
        let reduced = RightAscension::from_radians(F64(r)).radians().0;
        assert!(reduced >= 0.0 && reduced < TAU);
    }
}

#[test]
fn right_ascension_reduces_exact_values() {
    assert_eq!(RightAscension::from_radians(F64(1.0)).radians().0, 1.0);
    assert_eq!(RightAscension::from_radians(F64(TAU)).radians().0, 0.0);
    assert_eq!(RightAscension::from_radians(F64(TAU + 1.0)).radians().0, TAU + 1.0 - TAU);
    assert_eq!(RightAscension::from_radians(F64(-1.0)).radians().0, TAU - 1.0);
}

#[test]
fn right_ascension_of_a_canonical_value_is_unchanged() {
    let values = [0.0, 1e-300, 0.5, 1.0, 3.0, 6.0, 6.283185307179585];
    for r in values {
        let once = RightAscension::from_radians(F64(r));
        assert_eq!(once.radians().0.to_bits(), r.to_bits());
        let twice = RightAscension::from_radians(once.radians());
        assert_eq!(twice.radians().0.to_bits(), once.radians().0.to_bits());
    }
}

#[test]
fn right_ascension_converts_degrees() {
    assert_eq!(ra(180.0).radians().0, std::f64::consts::PI);
    assert_eq!(ra(540.0).radians().0, (540.0_f64).to_radians().rem_euclid(TAU));
    assert_eq!(ra(180.0).degrees().0, 180.0);
}

#[test]
fn right_ascension_sin_and_cos() {
    let a = RightAscension::from_radians(F64(0.5));
    assert_eq!(a.sin().0, 0.5_f64.sin());
    assert_eq!(a.cos().0, 0.5_f64.cos());
}

#[test]
fn right_ascension_is_nan_tells_a_nan() {
    assert!(RightAscension::from_radians(F64(f64::NAN)).is_nan());
    assert!(RightAscension::from_radians(F64(f64::INFINITY)).is_nan());
    assert!(!RightAscension::from_radians(F64(1.0)).is_nan());
}

#[test]
fn right_ascension_subtraction_goes_below_zero() {
    let a = RightAscension::from_radians(F64(0.25));
    let b = RightAscension::from_radians(F64(0.75));
    assert_eq!((a - b).radians().0, -0.5);
    assert!((ra(10.0) - ra(20.0)).radians().0 < 0.0);
}

#[test]
fn right_ascension_division_is_not_reduced() {
    let a = RightAscension::from_radians(F64(3.0));
    assert_eq!((a / F64(-2.0)).radians().0, -1.5);
    assert_eq!((a / F64(0.25)).radians().0, 12.0);
}

#[test]
fn right_ascension_multiplication_reduces() {
    let a = RightAscension::from_radians(F64(3.0));
    assert_eq!((a * F64(0.5)).radians().0, 1.5);
    assert_eq!((a * F64(3.0)).radians().0, 9.0_f64.rem_euclid(TAU));
    assert_eq!((a * F64(-1.0)).radians().0, TAU - 3.0);
}

#[test]
fn right_ascension_product_lies_in_one_turn() {
    let angles = [0.0, 1e-20, 1e-10, 0.1, 1.0, 3.0, 6.0];
    let factors = [0.0, 1.0, -1.0, 2.5, -2.5, 1000.0, -1000.0, 1e-3, -1e-10, -1e-300, 1e15];
    for x in angles {
        for k in factors {
            let r = (RightAscension::from_radians(F64(x)) * F64(k)).radians().0;
            assert!(r >= 0.0 && r < TAU);
        }
    }
}

#[test]
fn right_ascension_tiny_negative_product_reduces_to_zero() {
    let a = RightAscension::from_radians(F64(1e-10));
    assert_eq!((-1e-20_f64).rem_euclid(TAU), TAU);
    assert_eq!((a * F64(-1e-10)).radians().0, 0.0);
    let b = RightAscension::from_radians(F64(1e-20));
    assert_eq!((b * F64(-1.0)).radians().0, 0.0);
}

#[test]
fn right_ascension_of_a_tiny_negative_angle_is_zero() {
    let values = [-1e-20, -1e-300, -f64::MIN_POSITIVE, -4e-16];
    for r in values {
        assert_eq!(r.rem_euclid(TAU), TAU);
        let reduced = RightAscension::from_radians(F64(r)).radians().0;
        assert_eq!(reduced, 0.0);
        assert!(reduced >= 0.0 && reduced < TAU);
    }
    assert_eq!(RightAscension::from_degrees(F64(-1e-18)).radians().0, 0.0);
    let narrow = RightAscension::from_radians(F32(-1e-20)).radians().0;
    assert_eq!(narrow, 0.0);
}

#[test]
fn right_ascension_just_below_the_turn_is_kept() {
    let below = f64::from_bits(TAU.to_bits() - 1);
    assert_eq!(RightAscension::from_radians(F64(below)).radians().0, below);
    assert_eq!(RightAscension::from_radians(F64(-1e-15)).radians().0, TAU - 1e-15);
}

#[test]
fn right_ascension_from_degrees_lies_in_one_turn() {
    let values = [0.0, 360.0, -360.0, 359.9999, -0.0001, 720.5, -1e-18, 1e9, -1e9];
    for d in values {
        let r = ra(d).radians().0;
        assert!(r >= 0.0 && r < TAU);
        assert_eq!(r.to_bits(), RightAscension::from_radians(F64(d.to_radians())).radians().0.to_bits());
    }
}

#[test]
fn right_ascension_less_a_larger_one_is_below_zero() {
    let values = [0.0, 1e-300, 0.5, 1.0, 3.0, 6.0, 6.283185307179585];
    for x in values {
        for y in values {
            if x < y {
                let d = RightAscension::from_radians(F64(x)) - RightAscension::from_radians(F64(y));
                assert!(d.radians().0 < 0.0);
            }
        }
    }
}

#[test]
fn right_ascension_product_with_a_nan_is_a_nan() {
    let a = RightAscension::from_radians(F64(1.0));
    assert!((a * F64(f64::NAN)).is_nan());
    assert!((a * F64(f64::INFINITY)).is_nan());
}

#[test]
fn right_ascension_equals_itself_unless_nan() {
    let values = [0.0, 1.0, 3.0, 6.0];
    for r in values {
        let a = RightAscension::from_radians(F64(r));
        assert!(a == a);
    }
    let nan = RightAscension::from_radians(F64(f64::NAN));
    assert!(nan != nan);
}

#[test]
fn right_ascension_equality_is_symmetric() {
    let values = [0.0, 0.000004, 0.000006, 1.0, 1.000004, 6.28, f64::NAN];
    for x in values {
        for y in values {
            let a = RightAscension::from_radians(F64(x));
            let b = RightAscension::from_radians(F64(y));
            assert_eq!(a == b, b == a);
        }
    }
}

#[test]
fn right_ascension_is_unequal_across_the_wrap() {
    assert!(ra(359.9999) != ra(0.0001));
}

#[test]
fn right_ascension_displays_zero() {
    assert_eq!(ra(0.0).to_string(), "00h 00m 00.00s");
}

#[test]
fn right_ascension_displays_half_a_turn() {
    assert_eq!(ra(180.0).to_string(), "12h 00m 00.00s");
}

#[test]
fn right_ascension_displays_a_negative_angle_reduced() {
    let a = ra(-15.0);
    assert!((a.degrees().0 - 345.0).abs() < 1e-9);
    assert_eq!(a.to_string(), "23h 00m 00.00s");
}

#[test]
fn right_ascension_displays_hours_below_zero() {
    let a = RightAscension::from_radians(F64(0.0)) - ra(22.35);
    assert_eq!(a.to_string(), "-2h 30m 36.00s");
}

#[test]
fn right_ascension_in_single_precision() {
    let a = RightAscension::from_radians(F32(-1.0));
    assert_eq!(a.radians().0, (-1.0_f32).rem_euclid(std::f32::consts::TAU));
    assert!(a == a);
    assert_eq!(RightAscension::from_radians(F32(0.0)).to_string(), "00h 00m 00.00s");
}

#[test]
fn ra_dec_subtracts_both_coordinates() {
    let a = RaDec {
        ra: RightAscension::from_radians(F64(0.25)),
        dec: Declination::from_radians(F64(0.5)),
    };
    let b = RaDec {
        ra: RightAscension::from_radians(F64(0.75)),
        dec: Declination::from_radians(F64(-0.25)),
    };
    let d = a - b;
    assert_eq!(d.ra.radians().0, -0.5);
    assert_eq!(d.dec.radians().0, 0.75);
}

#[test]
fn ra_dec_multiplies_both_coordinates() {
    let a = RaDec {
        ra: RightAscension::from_radians(F64(3.0)),
        dec: Declination::from_radians(F64(0.5)),
    };
    let p = a * F64(3.0);
    assert_eq!(p.ra.radians().0, 9.0_f64.rem_euclid(TAU));
    assert_eq!(p.dec.radians().0, 1.5);
}

#[test]
fn ra_dec_compares_both_coordinates() {
    let a = RaDec {
        ra: RightAscension::from_radians(F64(1.0)),
        dec: Declination::from_radians(F64(0.5)),
    };
    let near = RaDec {
        ra: RightAscension::from_radians(F64(1.000001)),
        dec: Declination::from_radians(F64(0.500001)),
    };
    let other_ra = RaDec { ra: RightAscension::from_radians(F64(2.0)), dec: a.dec };
    let other_dec = RaDec { ra: a.ra, dec: Declination::from_radians(F64(0.6)) };
    assert!(a == a);
    assert!(a == near);
    assert!(a != other_ra);
    assert!(a != other_dec);
}

#[test]
fn tangent_position_compares_both_coordinates() {
    let a = TangentPosition { x: F64(1.0), y: F64(-2.0) };
    let b = TangentPosition { x: F64(1.0), y: F64(-2.0) };
    let c = TangentPosition { x: F64(1.0), y: F64(2.0) };
    let d = TangentPosition { x: F64(1.5), y: F64(-2.0) };
    let nan = TangentPosition { x: F64(f64::NAN), y: F64(0.0) };
    assert!(a == b);
    assert!(a != c);
    assert!(a != d);
    assert!(nan != nan);
    let copy = a;
    assert_eq!(copy.x.0, 1.0);
    assert_eq!(copy.y.0, -2.0);
    assert_eq!(format!("{:?}", a), "TangentPosition { x: F64(1.0), y: F64(-2.0) }");
}
