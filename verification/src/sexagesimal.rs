//! Base-sixty decomposition of an angle and the text of its parts.

use crate::float::{
    div_gives, fixed_gives, fixed_returns, floor_gives, from_f64_bits_gives, mul_gives, sub_gives,
    to_i32_gives, Float, SECONDS_BITS, SIXTY_BITS,
};
use vstd::prelude::*;

verus! {

/// The character of one decimal digit.
pub open spec fn digit_char(d: int) -> char {
    if d == 0 {
        '0'
    } else if d == 1 {
        '1'
    } else if d == 2 {
        '2'
    } else if d == 3 {
        '3'
    } else if d == 4 {
        '4'
    } else if d == 5 {
        '5'
    } else if d == 6 {
        '6'
    } else if d == 7 {
        '7'
    } else if d == 8 {
        '8'
    } else {
        '9'
    }
}

/// The decimal digits of `n`, most significant first, without leading zeros.
pub open spec fn decimal(n: nat) -> Seq<char>
    decreases n,
{
    if n < 10 {
        seq![digit_char(n as int)]
    } else {
        decimal(n / 10).push(digit_char((n % 10) as int))
    }
}

/// `n` in decimal, at least two characters wide: a value from zero to nine
/// gets a leading zero, a negative value its sign.
pub open spec fn two_digits(n: int) -> Seq<char> {
    if n < 0 {
        seq!['-'] + decimal((-n) as nat)
    } else if n < 10 {
        seq!['0'] + decimal(n as nat)
    } else {
        decimal(n as nat)
    }
}

/// The three parts of a value in base sixty.
pub struct Sexagesimal<T> {
    /// The whole units: the floor of the value.
    pub whole: T,
    /// The whole minutes of what is left.
    pub minutes: T,
    /// The seconds of what is left after the minutes, with their fraction.
    pub seconds: T,
}

/// `minutes` is the floor of `scaled`, which is `rest` times `sixty`.
pub open spec fn minutes_through<T: Float>(rest: T, sixty: T, scaled: T, minutes: T) -> bool {
    &&& from_f64_bits_gives(SIXTY_BITS, sixty)
    &&& mul_gives(rest, sixty, scaled)
    &&& floor_gives(scaled, minutes)
}

/// `minutes` is the whole minutes in `rest`, a fraction of one unit.
pub open spec fn minutes_of<T: Float>(rest: T, minutes: T) -> bool {
    exists|sixty: T, scaled: T| #[trigger] minutes_through(rest, sixty, scaled, minutes)
}

/// `seconds` is `left` times `unit`, the seconds in one whole, where `left`
/// is `rest` less `part`, and `part` is `minutes` divided by `sixty`.
pub open spec fn seconds_through<T: Float>(
    rest: T,
    minutes: T,
    sixty: T,
    part: T,
    left: T,
    unit: T,
    seconds: T,
) -> bool {
    &&& from_f64_bits_gives(SIXTY_BITS, sixty)
    &&& div_gives(minutes, sixty, part)
    &&& sub_gives(rest, part, left)
    &&& from_f64_bits_gives(SECONDS_BITS, unit)
    &&& mul_gives(left, unit, seconds)
}

/// `seconds` is the seconds in `rest` beyond its whole `minutes`.
pub open spec fn seconds_of<T: Float>(rest: T, minutes: T, seconds: T) -> bool {
    exists|sixty: T, part: T, left: T, unit: T| #[trigger]
        seconds_through(rest, minutes, sixty, part, left, unit, seconds)
}

/// `parts` are the parts of `value`, and `rest` is `value` less its whole
/// units.
pub open spec fn splits_through<T: Float>(value: T, rest: T, parts: Sexagesimal<T>) -> bool {
    &&& floor_gives(value, parts.whole)
    &&& sub_gives(value, parts.whole, rest)
    &&& minutes_of(rest, parts.minutes)
    &&& seconds_of(rest, parts.minutes, parts.seconds)
}

/// `parts` are the whole units, minutes and seconds of `value`.
pub open spec fn splits<T: Float>(value: T, parts: Sexagesimal<T>) -> bool {
    exists|rest: T| #[trigger] splits_through(value, rest, parts)
}

/// `s` is the text of a whole part that converts to the integer `n`, or to
/// none.
pub open spec fn whole_text_through<T: Float>(part: T, n: Option<i32>, s: Seq<char>) -> bool {
    &&& to_i32_gives(part, n)
    &&& match n {
        Some(n) => s == two_digits(n as int),
        None => fixed_gives(part, 2, 0, s),
    }
}

/// `s` is the text of a whole part: an integer of at least two digits where
/// the part fits one, else what the scalar renders without decimals.
pub open spec fn whole_text<T: Float>(part: T, s: Seq<char>) -> bool {
    exists|n: Option<i32>| #[trigger] whole_text_through(part, n, s)
}

/// `s` is the text of the seconds: two decimals, at least five characters.
pub open spec fn seconds_text<T: Float>(part: T, s: Seq<char>) -> bool {
    fixed_gives(part, 5, 2, s)
}

fn digit_str(d: u32) -> (r: &'static str)
    requires
        d < 10,
    ensures
        r@ == seq![digit_char(d as int)],
{
    proof {
        reveal_strlit("0");
        reveal_strlit("1");
        reveal_strlit("2");
        reveal_strlit("3");
        reveal_strlit("4");
        reveal_strlit("5");
        reveal_strlit("6");
        reveal_strlit("7");
        reveal_strlit("8");
        reveal_strlit("9");
    }
    let r = if d == 0 {
        "0"
    } else if d == 1 {
        "1"
    } else if d == 2 {
        "2"
    } else if d == 3 {
        "3"
    } else if d == 4 {
        "4"
    } else if d == 5 {
        "5"
    } else if d == 6 {
        "6"
    } else if d == 7 {
        "7"
    } else if d == 8 {
        "8"
    } else {
        "9"
    };
    assert(r@ =~= seq![digit_char(d as int)]);
    r
}

/// Writes `n` in decimal, without leading zeros.
pub fn decimal_string(n: u32) -> (r: String)
    ensures
        r@ == decimal(n as nat),
    decreases n,
{
    if n < 10 {
        String::from_str(digit_str(n))
    } else {
        let mut r = decimal_string(n / 10);
        r.append(digit_str(n % 10));
        assert(r@ =~= decimal(n as nat));
        r
    }
}

/// Writes `n` in decimal, at least two characters wide.
pub fn two_digit_string(n: i32) -> (r: String)
    ensures
        r@ == two_digits(n as int),
{
    proof {
        reveal_strlit("-");
        reveal_strlit("0");
    }
    if n < 0 {
        let magnitude: u32 = (-(n as i64)) as u32;
        let mut r = String::from_str("-");
        r.append(decimal_string(magnitude).as_str());
        assert(r@ =~= two_digits(n as int));
        r
    } else if n < 10 {
        let mut r = String::from_str("0");
        r.append(decimal_string(n as u32).as_str());
        assert(r@ =~= two_digits(n as int));
        r
    } else {
        decimal_string(n as u32)
    }
}

/// Splits `value` into whole units, minutes and seconds. Nothing is carried:
/// seconds that round to sixty stay sixty.
pub fn split<T: Float>(value: T) -> (r: Sexagesimal<T>)
    ensures
        splits(value, r),
{
    let sixty = T::from_f64_bits(SIXTY_BITS);
    let unit = T::from_f64_bits(SECONDS_BITS);
    let whole = value.floor();
    let rest = value.sub(whole);
    let scaled = rest.mul(sixty);
    let minutes = scaled.floor();
    let part = minutes.div(sixty);
    let left = rest.sub(part);
    let seconds = left.mul(unit);
    let r = Sexagesimal { whole, minutes, seconds };
    assert(minutes_through(rest, sixty, scaled, minutes));
    assert(seconds_through(rest, minutes, sixty, part, left, unit, seconds));
    assert(splits_through(value, rest, r));
    r
}

/// Writes a whole part.
pub fn whole_string<T: Float>(part: T) -> (r: String)
    ensures
        whole_text(part, r@),
{
    let n = part.to_i32();
    let r = match n {
        Some(n) => two_digit_string(n),
        None => {
            let text = part.fixed(2, 0);
            assert(fixed_returns(part, 2, 0, text, text@));
            text
        },
    };
    assert(whole_text_through(part, n, r@));
    r
}

/// Writes the seconds.
pub fn seconds_string<T: Float>(part: T) -> (r: String)
    ensures
        seconds_text(part, r@),
{
    let r = part.fixed(5, 2);
    assert(fixed_returns(part, 5, 2, r, r@));
    r
}

} // verus!
