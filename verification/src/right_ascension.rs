//! Right ascension: an angle that wraps at the full turn.

use crate::float::{
    cos_gives, div_gives, eq_gives, from_f64_bits_gives, is_nan_gives, lt_gives, mul_gives,
    rem_euclid_gives, sin_gives, sub_gives, to_degrees_gives, to_radians_gives, Float,
    FIFTEEN_BITS, TAU_BITS, ZERO_BITS,
};
use crate::ieee::{
    below_is_unequal, constants_fixed, difference_below_zero, eq_symmetric, rem_euclid_fixed,
    remainder_in_turn, steps_equal_themselves, steps_fixed, steps_of_nan_equal_nothing,
    zero_in_turn,
};
use crate::sexagesimal::{
    seconds_string, seconds_text, split, splits, whole_string, whole_text, Sexagesimal,
};
use crate::tolerance::{close, is_close, lemma_close_reflexive, lemma_close_symmetric};
use core::ops::{Div, Mul, Sub};
use vstd::prelude::*;

verus! {

/// The intermediate values of a reduction: the scalars of the full turn and
/// of zero, the Euclidean remainder by the turn, and whether that remainder
/// equals the turn.
pub struct ReductionTrace<T> {
    pub turn: T,
    pub zero: T,
    pub remainder: T,
    pub at_turn: bool,
}

/// `r` is `radians` reduced into one turn, reached through `trace`: the
/// Euclidean remainder by the full turn, or zero where the remainder has
/// rounded to the turn itself.
pub open spec fn reduces_through<T: Float>(radians: T, trace: ReductionTrace<T>, r: T) -> bool {
    &&& from_f64_bits_gives(TAU_BITS, trace.turn)
    &&& from_f64_bits_gives(ZERO_BITS, trace.zero)
    &&& rem_euclid_gives(radians, trace.turn, trace.remainder)
    &&& eq_gives(trace.remainder, trace.turn, trace.at_turn)
    &&& r == if trace.at_turn {
        trace.zero
    } else {
        trace.remainder
    }
}

/// `r` is `radians` reduced into one turn: its Euclidean remainder by the
/// full turn, with zero in place of a remainder that equals the turn.
pub open spec fn reduces<T: Float>(radians: T, r: T) -> bool {
    exists|trace: ReductionTrace<T>| #[trigger] reduces_through(radians, trace, r)
}

/// `radians` is not below `zero` and is below `turn`, the scalars of zero and
/// of the full turn.
pub open spec fn in_turn_through<T: Float>(radians: T, zero: T, turn: T) -> bool {
    &&& from_f64_bits_gives(ZERO_BITS, zero)
    &&& from_f64_bits_gives(TAU_BITS, turn)
    &&& lt_gives(radians, zero, false)
    &&& lt_gives(radians, turn, true)
}

/// `radians` is canonical: not below zero, and below the full turn.
pub open spec fn in_turn<T: Float>(radians: T) -> bool {
    exists|zero: T, turn: T| #[trigger] in_turn_through(radians, zero, turn)
}

/// Reduces `radians` into one turn. A remainder that has rounded to the turn
/// itself, as that of a small angle below zero does, becomes zero: the same
/// angle, inside the range.
pub fn reduce<T: Float>(radians: T) -> (r: T)
    ensures
        reduces(radians, r),
{
    let turn = T::from_f64_bits(TAU_BITS);
    let zero = T::from_f64_bits(ZERO_BITS);
    let remainder = radians.rem_euclid(turn);
    let at_turn = remainder == turn;
    let r = if at_turn {
        zero
    } else {
        remainder
    };
    assert(reduces_through(radians, ReductionTrace { turn, zero, remainder, at_turn }, r));
    r
}

/// Reducing leaves a canonical value as it is.
pub proof fn lemma_reduce_fixed<T: Float>(radians: T, r: T)
    requires
        constants_fixed::<T>(),
        rem_euclid_fixed::<T>(),
        below_is_unequal::<T>(),
        in_turn(radians),
        reduces(radians, r),
    ensures
        r == radians,
{
    let (zero, turn) = choose|zero: T, turn: T| #[trigger] in_turn_through(radians, zero, turn);
    let trace = choose|trace: ReductionTrace<T>| #[trigger] reduces_through(radians, trace, r);
    assert(turn == trace.turn);
    assert(trace.remainder == radians);
    assert(!trace.at_turn);
}

/// A reduced value that is no NaN is canonical: it is not below zero, and it
/// is below the full turn. `negative` and `below` are what the scalar answers
/// to the two comparisons.
pub proof fn lemma_reduced_in_turn<T: Float>(
    radians: T,
    r: T,
    zero: T,
    turn: T,
    negative: bool,
    below: bool,
)
    requires
        constants_fixed::<T>(),
        remainder_in_turn::<T>(),
        zero_in_turn::<T>(),
        reduces(radians, r),
        is_nan_gives(r, false),
        from_f64_bits_gives(ZERO_BITS, zero),
        from_f64_bits_gives(TAU_BITS, turn),
        lt_gives(r, zero, negative),
        lt_gives(r, turn, below),
    ensures
        !negative,
        below,
{
    let trace = choose|trace: ReductionTrace<T>| #[trigger] reduces_through(radians, trace, r);
    assert(turn == trace.turn);
    assert(zero == trace.zero);
    if trace.at_turn {
        assert(r == zero);
    } else {
        assert(r == trace.remainder);
        assert(eq_gives(r, turn, false));
    }
}

/// Right Ascension
///
/// Holds an angle in radians. Construction and multiplication reduce it into
/// one turn, zero included and the full turn not; subtraction and division
/// leave their result as it comes out.
#[derive(Clone, Copy)]
pub struct RightAscension<T: Float> {
    radians: T,
}

/// The intermediate values of a right ascension's text: the angle in
/// degrees, the scalar fifteen, the angle in hours and its parts.
pub struct RightAscensionTrace<T> {
    pub degrees: T,
    pub fifteen: T,
    pub hours: T,
    pub parts: Sexagesimal<T>,
}

/// The text of a right ascension from the texts of its parts.
pub open spec fn right_ascension_layout(
    whole: Seq<char>,
    minutes: Seq<char>,
    seconds: Seq<char>,
) -> Seq<char> {
    whole + seq!['h', ' '] + minutes + seq!['m', ' '] + seconds + seq!['s']
}

impl<T: Float> RightAscension<T> {
    /// The angle in radians.
    pub closed spec fn spec_radians(self) -> T {
        self.radians
    }

    /// This right ascension is `degrees` converted to radians and reduced
    /// into one turn.
    pub open spec fn from_degrees_through(self, degrees: T, radians: T) -> bool {
        to_radians_gives(degrees, radians) && reduces(radians, self.radians())
    }

    /// This right ascension is what `from_degrees` makes of `degrees`.
    pub open spec fn is_from_degrees(self, degrees: T) -> bool {
        exists|radians: T| #[trigger] self.from_degrees_through(degrees, radians)
    }

    /// `r` is this right ascension times `rhs`: the product `scaled`, reduced
    /// into one turn.
    pub open spec fn times_through(self, rhs: T, scaled: T, r: Self) -> bool {
        mul_gives(self.radians(), rhs, scaled) && reduces(scaled, r.radians())
    }

    /// `r` is this right ascension times `rhs`, reduced into one turn.
    pub open spec fn times(self, rhs: T, r: Self) -> bool {
        exists|scaled: T| #[trigger] self.times_through(rhs, scaled, r)
    }

    /// `s` is the text of this right ascension, reached through `trace` and
    /// the texts of the three parts.
    pub open spec fn text_through(
        self,
        trace: RightAscensionTrace<T>,
        whole: Seq<char>,
        minutes: Seq<char>,
        seconds: Seq<char>,
        s: Seq<char>,
    ) -> bool {
        &&& to_degrees_gives(self.radians(), trace.degrees)
        &&& from_f64_bits_gives(FIFTEEN_BITS, trace.fifteen)
        &&& div_gives(trace.degrees, trace.fifteen, trace.hours)
        &&& splits(trace.hours, trace.parts)
        &&& whole_text(trace.parts.whole, whole)
        &&& whole_text(trace.parts.minutes, minutes)
        &&& seconds_text(trace.parts.seconds, seconds)
        &&& s == right_ascension_layout(whole, minutes, seconds)
    }

    /// `s` is the text of this right ascension: the hours, minutes and
    /// seconds of time of the angle, a fifteenth of its degrees.
    pub open spec fn text(self, s: Seq<char>) -> bool {
        exists|
            trace: RightAscensionTrace<T>,
            whole: Seq<char>,
            minutes: Seq<char>,
            seconds: Seq<char>,
        | #[trigger]
            self.text_through(trace, whole, minutes, seconds, s)
    }

    /// The right ascension of an angle in radians, reduced into one turn.
    pub fn from_radians(radians: T) -> (r: Self)
        ensures
            reduces(radians, r.radians()),
    {
        Self { radians: reduce(radians) }
    }

    /// The right ascension of an angle in degrees, reduced into one turn.
    pub fn from_degrees(deg: T) -> (r: Self)
        ensures
            r.is_from_degrees(deg),
    {
        let radians = deg.to_radians();
        let r = Self::from_radians(radians);
        assert(r.from_degrees_through(deg, radians));
        r
    }

    /// The angle in radians, as it is held.
    #[verifier::when_used_as_spec(spec_radians)]
    pub fn radians(self) -> (r: T)
        ensures
            r == self.radians(),
    {
        self.radians
    }

    /// The angle in degrees.
    pub fn degrees(self) -> (r: T)
        ensures
            to_degrees_gives(self.radians(), r),
    {
        self.radians.to_degrees()
    }

    /// The sine of the angle.
    pub fn sin(&self) -> (r: T)
        ensures
            sin_gives(self.radians(), r),
    {
        self.radians.sin()
    }

    /// The cosine of the angle.
    pub fn cos(&self) -> (r: T)
        ensures
            cos_gives(self.radians(), r),
    {
        self.radians.cos()
    }

    /// Whether the angle is a NaN.
    pub fn is_nan(&self) -> (r: bool)
        ensures
            is_nan_gives(self.radians(), r),
    {
        self.radians.is_nan()
    }

    /// Renders the angle as `HHh MMm SS.SSs`.
    pub fn to_string(&self) -> (r: String)
        ensures
            self.text(r@),
    {
        proof {
            reveal_strlit("h ");
            reveal_strlit("m ");
            reveal_strlit("s");
        }
        let degrees = self.degrees();
        let fifteen = T::from_f64_bits(FIFTEEN_BITS);
        let hours = degrees.div(fifteen);
        let parts = split(hours);
        let whole = whole_string(parts.whole);
        let minutes = whole_string(parts.minutes);
        let seconds = seconds_string(parts.seconds);
        let mut r = String::from_str(whole.as_str());
        r.append("h ");
        r.append(minutes.as_str());
        r.append("m ");
        r.append(seconds.as_str());
        r.append("s");
        proof {
            let trace = RightAscensionTrace { degrees, fifteen, hours, parts };
            assert(r@ =~= right_ascension_layout(whole@, minutes@, seconds@));
            assert(self.text_through(trace, whole@, minutes@, seconds@, r@));
        }
        r
    }

    /// Two right ascensions of the same radians are the same right
    /// ascension.
    pub proof fn lemma_same_radians(a: Self, b: Self)
        requires
            a.radians() == b.radians(),
        ensures
            a == b,
    {
    }

    /// Building a right ascension again from the radians of a canonical one
    /// gives that one back.
    pub proof fn lemma_from_radians_idempotent(a: Self, b: Self)
        requires
            constants_fixed::<T>(),
            rem_euclid_fixed::<T>(),
            below_is_unequal::<T>(),
            in_turn(a.radians()),
            reduces(a.radians(), b.radians()),
        ensures
            b == a,
    {
        lemma_reduce_fixed(a.radians(), b.radians());
    }

    /// A right ascension built from radians that is no NaN is canonical.
    pub proof fn lemma_from_radians_in_turn(
        radians: T,
        r: Self,
        zero: T,
        turn: T,
        negative: bool,
        below: bool,
    )
        requires
            constants_fixed::<T>(),
            remainder_in_turn::<T>(),
            zero_in_turn::<T>(),
            reduces(radians, r.radians()),
            is_nan_gives(r.radians(), false),
            from_f64_bits_gives(ZERO_BITS, zero),
            from_f64_bits_gives(TAU_BITS, turn),
            lt_gives(r.radians(), zero, negative),
            lt_gives(r.radians(), turn, below),
        ensures
            !negative,
            below,
    {
        lemma_reduced_in_turn(radians, r.radians(), zero, turn, negative, below);
    }

    /// A right ascension built from degrees that is no NaN is canonical.
    pub proof fn lemma_from_degrees_in_turn(
        degrees: T,
        r: Self,
        zero: T,
        turn: T,
        negative: bool,
        below: bool,
    )
        requires
            constants_fixed::<T>(),
            remainder_in_turn::<T>(),
            zero_in_turn::<T>(),
            r.is_from_degrees(degrees),
            is_nan_gives(r.radians(), false),
            from_f64_bits_gives(ZERO_BITS, zero),
            from_f64_bits_gives(TAU_BITS, turn),
            lt_gives(r.radians(), zero, negative),
            lt_gives(r.radians(), turn, below),
        ensures
            !negative,
            below,
    {
        let radians = choose|radians: T| #[trigger] r.from_degrees_through(degrees, radians);
        lemma_reduced_in_turn(radians, r.radians(), zero, turn, negative, below);
    }

    /// A product that is no NaN is canonical.
    pub proof fn lemma_times_in_turn(
        a: Self,
        rhs: T,
        r: Self,
        zero: T,
        turn: T,
        negative: bool,
        below: bool,
    )
        requires
            constants_fixed::<T>(),
            remainder_in_turn::<T>(),
            zero_in_turn::<T>(),
            a.times(rhs, r),
            is_nan_gives(r.radians(), false),
            from_f64_bits_gives(ZERO_BITS, zero),
            from_f64_bits_gives(TAU_BITS, turn),
            lt_gives(r.radians(), zero, negative),
            lt_gives(r.radians(), turn, below),
        ensures
            !negative,
            below,
    {
        let scaled = choose|scaled: T| #[trigger] a.times_through(rhs, scaled, r);
        lemma_reduced_in_turn(scaled, r.radians(), zero, turn, negative, below);
    }

    /// A right ascension less a larger one is below zero: subtraction does
    /// not reduce its result.
    pub proof fn lemma_sub_below_zero(a: Self, b: Self, d: Self, zero: T, negative: bool)
        requires
            difference_below_zero::<T>(),
            lt_gives(a.radians(), b.radians(), true),
            sub_gives(a.radians(), b.radians(), d.radians()),
            from_f64_bits_gives(ZERO_BITS, zero),
            lt_gives(d.radians(), zero, negative),
        ensures
            negative,
    {
    }

    /// `a == b` and `b == a` give the same answer.
    pub proof fn lemma_eq_symmetric(a: Self, b: Self, a_nan: bool, b_nan: bool, r: bool, s: bool)
        requires
            eq_symmetric::<T>(),
            steps_fixed::<T>(),
            steps_of_nan_equal_nothing::<T>(),
            is_nan_gives(a.radians(), a_nan),
            is_nan_gives(b.radians(), b_nan),
            close(a.radians(), b.radians(), r),
            close(b.radians(), a.radians(), s),
        ensures
            r == s,
    {
        lemma_close_symmetric(a.radians(), b.radians(), a_nan, b_nan, r, s);
    }

    /// A right ascension equals itself exactly when it is no NaN.
    pub proof fn lemma_eq_reflexive(a: Self, nan: bool, r: bool)
        requires
            steps_fixed::<T>(),
            steps_equal_themselves::<T>(),
            steps_of_nan_equal_nothing::<T>(),
            is_nan_gives(a.radians(), nan),
            close(a.radians(), a.radians(), r),
        ensures
            r == !nan,
    {
        lemma_close_reflexive(a.radians(), nan, r);
    }
}

impl<T: Float> Sub for RightAscension<T> {
    type Output = Self;

    /// The difference of the two angles, as it comes out: it is not reduced,
    /// and is below zero where `rhs` is the larger.
    fn sub(self, rhs: Self) -> (r: Self)
        ensures
            sub_gives(self.radians(), rhs.radians(), r.radians()),
    {
        Self { radians: self.radians.sub(rhs.radians) }
    }
}

impl<T: Float> vstd::std_specs::ops::SubSpecImpl for RightAscension<T> {
    open spec fn obeys_sub_spec() -> bool {
        false
    }

    open spec fn sub_req(self, rhs: Self) -> bool {
        true
    }

    open spec fn sub_spec(self, rhs: Self) -> Self {
        choose|r: Self| sub_gives(self.radians(), rhs.radians(), r.radians())
    }
}

impl<T: Float> Div<T> for RightAscension<T> {
    type Output = Self;

    /// The angle divided by `rhs`, not reduced.
    fn div(self, rhs: T) -> (r: Self)
        ensures
            div_gives(self.radians(), rhs, r.radians()),
    {
        Self { radians: self.radians.div(rhs) }
    }
}

impl<T: Float> vstd::std_specs::ops::DivSpecImpl<T> for RightAscension<T> {
    open spec fn obeys_div_spec() -> bool {
        false
    }

    open spec fn div_req(self, rhs: T) -> bool {
        true
    }

    open spec fn div_spec(self, rhs: T) -> Self {
        choose|r: Self| div_gives(self.radians(), rhs, r.radians())
    }
}

impl<T: Float> Mul<T> for RightAscension<T> {
    type Output = RightAscension<T>;

    /// The angle times `rhs`, reduced into one turn.
    fn mul(self, rhs: T) -> (r: RightAscension<T>)
        ensures
            self.times(rhs, r),
    {
        let scaled = self.radians.mul(rhs);
        let r = RightAscension::from_radians(scaled);
        assert(self.times_through(rhs, scaled, r));
        r
    }
}

impl<T: Float> vstd::std_specs::ops::MulSpecImpl<T> for RightAscension<T> {
    open spec fn obeys_mul_spec() -> bool {
        false
    }

    open spec fn mul_req(self, rhs: T) -> bool {
        true
    }

    open spec fn mul_spec(self, rhs: T) -> RightAscension<T> {
        choose|r: RightAscension<T>| self.times(rhs, r)
    }
}

impl<T: Float> PartialEq for RightAscension<T> {
    /// Whether the two angles round to the same number of resolution steps.
    /// Angles on the two sides of the wrap are far apart by this measure.
    fn eq(&self, other: &RightAscension<T>) -> (r: bool)
        ensures
            close(self.radians(), other.radians(), r),
    {
        is_close(self.radians, other.radians)
    }
}

impl<T: Float> vstd::std_specs::cmp::PartialEqSpecImpl for RightAscension<T> {
    open spec fn obeys_eq_spec() -> bool {
        false
    }

    open spec fn eq_spec(&self, other: &RightAscension<T>) -> bool {
        close(self.radians(), other.radians(), true)
    }
}

} // verus!
