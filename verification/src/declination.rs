//! Declination: a signed angle that does not wrap.

use crate::float::{
    abs_gives, cos_gives, div_gives, from_f64_bits_gives, is_nan_gives, lt_gives, sin_gives,
    sub_gives, to_degrees_gives, to_radians_gives, Float, ZERO_BITS,
};
use crate::ieee::{eq_symmetric, steps_equal_themselves, steps_fixed, steps_of_nan_equal_nothing};
use crate::sexagesimal::{
    seconds_string, seconds_text, split, splits, whole_string, whole_text, Sexagesimal,
};
use crate::tolerance::{close, is_close, lemma_close_reflexive, lemma_close_symmetric};
use core::ops::{Div, Sub};
use vstd::prelude::*;

verus! {

/// Declination
///
/// Holds the angle it was given, in radians, with no range imposed.
#[derive(Clone, Copy)]
pub struct Declination<T: Float> {
    radians: T,
}

/// The intermediate values of a declination's text: the angle in degrees, the
/// scalar zero, whether the degrees are below it, their magnitude and its
/// parts.
pub struct DeclinationTrace<T> {
    pub degrees: T,
    pub zero: T,
    pub negative: bool,
    pub size: T,
    pub parts: Sexagesimal<T>,
}

/// The text of a declination from the texts of its parts.
pub open spec fn declination_layout(
    negative: bool,
    whole: Seq<char>,
    minutes: Seq<char>,
    seconds: Seq<char>,
) -> Seq<char> {
    seq![if negative { '-' } else { '+' }] + whole + seq!['\u{b0}', ' '] + minutes + seq!['\'', ' ']
        + seconds + seq!['"']
}

impl<T: Float> Declination<T> {
    /// The angle in radians.
    pub closed spec fn spec_radians(self) -> T {
        self.radians
    }

    /// The declination of `radians`.
    pub closed spec fn spec_from_radians(radians: T) -> Self {
        Declination { radians }
    }

    /// `s` is the text of this declination, reached through `trace` and the
    /// texts of the three parts.
    pub open spec fn text_through(
        self,
        trace: DeclinationTrace<T>,
        whole: Seq<char>,
        minutes: Seq<char>,
        seconds: Seq<char>,
        s: Seq<char>,
    ) -> bool {
        &&& to_degrees_gives(self.radians(), trace.degrees)
        &&& from_f64_bits_gives(ZERO_BITS, trace.zero)
        &&& lt_gives(trace.degrees, trace.zero, trace.negative)
        &&& abs_gives(trace.degrees, trace.size)
        &&& splits(trace.size, trace.parts)
        &&& whole_text(trace.parts.whole, whole)
        &&& whole_text(trace.parts.minutes, minutes)
        &&& seconds_text(trace.parts.seconds, seconds)
        &&& s == declination_layout(trace.negative, whole, minutes, seconds)
    }

    /// `s` is the text of this declination: the sign, `-` where the degrees
    /// are below zero and `+` elsewhere, then the degrees, minutes of arc and
    /// seconds of arc of the magnitude.
    pub open spec fn text(self, s: Seq<char>) -> bool {
        exists|
            trace: DeclinationTrace<T>,
            whole: Seq<char>,
            minutes: Seq<char>,
            seconds: Seq<char>,
        | #[trigger]
            self.text_through(trace, whole, minutes, seconds, s)
    }

    /// The declination of an angle in radians, kept as it is given.
    #[verifier::when_used_as_spec(spec_from_radians)]
    pub fn from_radians(radians: T) -> (r: Self)
        ensures
            r == Self::from_radians(radians),
            r.radians() == radians,
    {
        Self { radians }
    }

    /// The declination of an angle in degrees.
    pub fn from_degrees(degrees: T) -> (r: Self)
        ensures
            to_radians_gives(degrees, r.radians()),
    {
        Self { radians: degrees.to_radians() }
    }

    /// The angle in radians, as it is held.
    #[verifier::when_used_as_spec(spec_radians)]
    pub fn radians(self) -> (r: T)
        ensures
            r == self.radians(),
    {
        self.radians
    }

    /// The angle in degrees.
    pub fn degrees(self) -> (r: T)
        ensures
            to_degrees_gives(self.radians(), r),
    {
        self.radians.to_degrees()
    }

    /// The sine of the angle.
    pub fn sin(&self) -> (r: T)
        ensures
            sin_gives(self.radians(), r),
    {
        self.radians.sin()
    }

    /// The cosine of the angle.
    pub fn cos(&self) -> (r: T)
        ensures
            cos_gives(self.radians(), r),
    {
        self.radians.cos()
    }

    /// Whether the angle is a NaN.
    pub fn is_nan(&self) -> (r: bool)
        ensures
            is_nan_gives(self.radians(), r),
    {
        self.radians.is_nan()
    }

    /// Renders the angle as `+DD° MM' SS.SS"`, with `-` for an angle below
    /// zero.
    pub fn to_string(&self) -> (r: String)
        ensures
            self.text(r@),
    {
        proof {
            reveal_strlit("-");
            reveal_strlit("+");
            reveal_strlit("\u{b0} ");
            reveal_strlit("' ");
            reveal_strlit("\"");
        }
        let degrees = self.degrees();
        let zero = T::from_f64_bits(ZERO_BITS);
        let negative = degrees < zero;
        let size = degrees.abs();
        let parts = split(size);
        let whole = whole_string(parts.whole);
        let minutes = whole_string(parts.minutes);
        let seconds = seconds_string(parts.seconds);
        let mut r = String::from_str(if negative { "-" } else { "+" });
        r.append(whole.as_str());
        r.append("\u{b0} ");
        r.append(minutes.as_str());
        r.append("' ");
        r.append(seconds.as_str());
        r.append("\"");
        proof {
            let trace = DeclinationTrace { degrees, zero, negative, size, parts };
            assert(r@ =~= declination_layout(negative, whole@, minutes@, seconds@));
            assert(self.text_through(trace, whole@, minutes@, seconds@, r@));
        }
        r
    }

    /// A declination is what its radians are.
    pub proof fn lemma_from_radians(radians: T)
        ensures
            Self::from_radians(radians).radians() == radians,
    {
    }

    /// Two declinations of the same radians are the same declination.
    pub proof fn lemma_same_radians(a: Self, b: Self)
        requires
            a.radians() == b.radians(),
        ensures
            a == b,
    {
    }

    /// `a == b` and `b == a` give the same answer.
    pub proof fn lemma_eq_symmetric(a: Self, b: Self, a_nan: bool, b_nan: bool, r: bool, s: bool)
        requires
            eq_symmetric::<T>(),
            steps_fixed::<T>(),
            steps_of_nan_equal_nothing::<T>(),
            is_nan_gives(a.radians(), a_nan),
            is_nan_gives(b.radians(), b_nan),
            close(a.radians(), b.radians(), r),
            close(b.radians(), a.radians(), s),
        ensures
            r == s,
    {
        lemma_close_symmetric(a.radians(), b.radians(), a_nan, b_nan, r, s);
    }

    /// A declination equals itself exactly when it is no NaN.
    pub proof fn lemma_eq_reflexive(a: Self, nan: bool, r: bool)
        requires
            steps_fixed::<T>(),
            steps_equal_themselves::<T>(),
            steps_of_nan_equal_nothing::<T>(),
            is_nan_gives(a.radians(), nan),
            close(a.radians(), a.radians(), r),
        ensures
            r == !nan,
    {
        lemma_close_reflexive(a.radians(), nan, r);
    }
}

impl<T: Float> Sub for Declination<T> {
    type Output = Self;

    /// The difference of the two angles, as it comes out.
    fn sub(self, rhs: Self) -> (r: Self)
        ensures
            sub_gives(self.radians(), rhs.radians(), r.radians()),
    {
        Self { radians: self.radians.sub(rhs.radians) }
    }
}

impl<T: Float> vstd::std_specs::ops::SubSpecImpl for Declination<T> {
    open spec fn obeys_sub_spec() -> bool {
        false
    }

    open spec fn sub_req(self, rhs: Self) -> bool {
        true
    }

    open spec fn sub_spec(self, rhs: Self) -> Self {
        choose|r: Self| sub_gives(self.radians(), rhs.radians(), r.radians())
    }
}

impl<T: Float> Div<T> for Declination<T> {
    type Output = Self;

    /// The angle divided by `rhs`. A zero `rhs` gives what the scalar's
    /// division gives.
    fn div(self, rhs: T) -> (r: Self)
        ensures
            div_gives(self.radians(), rhs, r.radians()),
    {
        Self { radians: self.radians.div(rhs) }
    }
}

impl<T: Float> vstd::std_specs::ops::DivSpecImpl<T> for Declination<T> {
    open spec fn obeys_div_spec() -> bool {
        false
    }

    open spec fn div_req(self, rhs: T) -> bool {
        true
    }

    open spec fn div_spec(self, rhs: T) -> Self {
        choose|r: Self| div_gives(self.radians(), rhs, r.radians())
    }
}

impl<T: Float> PartialEq for Declination<T> {
    /// Whether the two angles round to the same number of resolution steps.
    fn eq(&self, other: &Self) -> (r: bool)
        ensures
            close(self.radians(), other.radians(), r),
    {
        is_close(self.radians, other.radians)
    }
}

impl<T: Float> vstd::std_specs::cmp::PartialEqSpecImpl for Declination<T> {
    open spec fn obeys_eq_spec() -> bool {
        false
    }

    open spec fn eq_spec(&self, other: &Self) -> bool {
        close(self.radians(), other.radians(), true)
    }
}

} // verus!
