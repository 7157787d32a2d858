//! Prices as exact counts of millionths of the quoted unit.
//!
//! A price arrives as a decimal string. It is kept as a signed integer with six
//! fractional digits, so that two spellings of one number are one key and no
//! rounding ever takes part in a comparison.

use vstd::prelude::*;
use vstd::std_specs::iter::IteratorSpec;

verus! {

/// The number of millionths in one unit.
pub const SCALE: i64 = 1_000_000;

/// The largest whole part whose millionths can still fit a price.
pub const WHOLE_LIMIT: i64 = 9_223_372_036_854;

/// The largest fraction, in millionths, that fits beside `WHOLE_LIMIT`.
pub const FRACTION_LIMIT: i64 = 775_807;

/// Whether `c` is one of the ASCII digits.
pub open spec fn is_digit(c: char) -> bool {
    '0' <= c && c <= '9'
}

/// The number that an ASCII digit stands for.
pub open spec fn digit_value(c: char) -> int {
    c as int - '0' as int
}

/// The number that a string of digits denotes, read as an integer in base ten.
pub open spec fn digits_value(digits: Seq<char>) -> int
    decreases digits.len(),
{
    if digits.len() == 0 {
        0
    } else {
        10 * digits_value(digits.drop_last()) + digit_value(digits.last())
    }
}

/// Where the first decimal point of `s` stands; the length of `s` if it has none.
pub open spec fn point_index(s: Seq<char>) -> int
    decreases s.len(),
{
    if s.len() == 0 || s[0] == '.' {
        0
    } else {
        1 + point_index(s.drop_first())
    }
}

/// The digits before the decimal point.
pub open spec fn integer_digits(s: Seq<char>) -> Seq<char> {
    s.take(point_index(s))
}

/// The digits after the decimal point; none if there is no point.
pub open spec fn fraction_digits(s: Seq<char>) -> Seq<char> {
    if point_index(s) < s.len() {
        s.skip(point_index(s) + 1)
    } else {
        Seq::<char>::empty()
    }
}

/// A decimal string: digits, with at most one decimal point among them.
pub open spec fn well_formed(s: Seq<char>) -> bool {
    forall|i: int| 0 <= i < s.len() && i != point_index(s) ==> is_digit(#[trigger] s[i])
}

/// No precision is lost at six fractional digits: every later digit is a zero.
pub open spec fn precise(s: Seq<char>) -> bool {
    forall|i: int| 6 <= i < fraction_digits(s).len() ==> #[trigger] fraction_digits(s)[i] == '0'
}

/// The first six digits of a fraction, with zeros where it is shorter.
pub open spec fn six_digits(fraction: Seq<char>) -> Seq<char> {
    Seq::new(
        6,
        |i: int|
            if i < fraction.len() {
                fraction[i]
            } else {
                '0'
            },
    )
}

/// The count of millionths that a decimal string denotes, its fraction cut at six digits.
pub open spec fn millionths(s: Seq<char>) -> int {
    digits_value(integer_digits(s)) * 1_000_000 + digits_value(six_digits(fraction_digits(s)))
}

/// Why a string is no price.
pub enum PriceFault {
    /// A character that is no digit, or a second decimal point.
    Malformed,
    /// A digit other than zero after the sixth fractional place.
    TooManyDigits,
    /// More millionths than a price can hold.
    TooLarge,
}

/// The fault of a string, by rank: shape first, then precision, then size.
pub open spec fn price_fault(s: Seq<char>) -> Option<PriceFault> {
    if !well_formed(s) {
        Some(PriceFault::Malformed)
    } else if !precise(s) {
        Some(PriceFault::TooManyDigits)
    } else if millionths(s) > i64::MAX {
        Some(PriceFault::TooLarge)
    } else {
        None
    }
}

/// The text of the error for a fault of the string `s`.
pub open spec fn fault_text(fault: PriceFault, s: Seq<char>) -> Seq<char> {
    match fault {
        PriceFault::Malformed => "unable to parse as price "@ + s,
        PriceFault::TooManyDigits => "unable to parse as price (too many digits) "@ + s,
        PriceFault::TooLarge => "unable to parse as price (too large) "@ + s,
    }
}

/// A price with six fractional digits, as a count of millionths.
///
/// Prices are ordered as their counts are.
#[derive(Clone, Copy, Debug, PartialEq, Eq, Structural, Ord, Hash)]
pub struct Price(pub i64);

/// `10^n` for the digit counts that occur in a fraction.
pub open spec fn ten_to(n: int) -> int {
    if n <= 0 {
        1
    } else if n == 1 {
        10
    } else if n == 2 {
        100
    } else if n == 3 {
        1_000
    } else if n == 4 {
        10_000
    } else if n == 5 {
        100_000
    } else {
        1_000_000
    }
}

/// The first point of `s` stands at `p` when `p` holds a point and nothing before it does.
pub proof fn lemma_point_index(s: Seq<char>, p: int)
    requires
        0 <= p <= s.len(),
        forall|i: int| 0 <= i < p ==> s[i] != '.',
        p < s.len() ==> s[p] == '.',
    ensures
        point_index(s) == p,
    decreases s.len(),
{
    if p > 0 {
        let rest = s.drop_first();
        assert forall|i: int| 0 <= i < p - 1 implies rest[i] != '.' by {
            assert(rest[i] == s[i + 1]);
        }
        lemma_point_index(rest, p - 1);
    }
}

/// Reading one more digit multiplies by ten and adds the digit.
pub proof fn lemma_digits_value_extend(s: Seq<char>, from: int, to: int)
    requires
        0 <= from <= to < s.len(),
    ensures
        digits_value(s.subrange(from, to + 1)) == 10 * digits_value(s.subrange(from, to))
            + digit_value(s[to]),
{
    assert(s.subrange(from, to + 1).drop_last() =~= s.subrange(from, to));
}

impl Price {
    /// What `parse_str` returns for the characters `s`.
    pub open spec fn spec_parse_str(s: Seq<char>) -> Result<Price, Seq<char>> {
        match price_fault(s) {
            Some(fault) => Err(fault_text(fault, s)),
            None => Ok(Price(millionths(s) as i64)),
        }
    }

    /// Reads a price from a decimal string.
    ///
    /// The string is made of ASCII digits with at most one decimal point. The whole
    /// part counts millions of millionths; the fraction is padded with zeros to six
    /// digits, and digits after the sixth must be zeros. A string of another shape,
    /// one that would lose precision, and one too large for the count are each
    /// refused with a text that ends with the string.
    pub fn parse_str(str: &str) -> (res: Result<Price, String>)
        ensures
            match res {
                Ok(price) => Price::spec_parse_str(str@) == Ok::<Price, Seq<char>>(price),
                Err(text) => Price::spec_parse_str(str@) == Err::<Price, Seq<char>>(text@),
            },
    {
        let ghost s = str@;
        let mut pre_dot: i64 = 0;
        let mut seen_dot = false;
        let mut post_dot: i64 = 0;
        let mut post_dot_cnt: u8 = 0;
        let mut imprecise = false;
        let mut too_large = false;
        let ghost mut at: int = 0;
        let ghost mut point: int = 0;
        let ghost mut excess: int = 0;
        let mut chars = str.chars();
        loop
            invariant_except_break
                chars.remaining() == s.skip(at),
            invariant
                s == str@,
                0 <= at <= s.len(),
                chars.obeys_prophetic_iter_laws(),
                chars.decrease() is Some,
                !seen_dot ==> forall|i: int| 0 <= i < at ==> is_digit(#[trigger] s[i]),
                !seen_dot ==> post_dot_cnt == 0 && post_dot == 0 && !imprecise,
                seen_dot ==> 0 <= point < at && s[point] == '.',
                seen_dot ==> forall|i: int| 0 <= i < at && i != point ==> is_digit(#[trigger] s[i]),
                !too_large ==> 0 <= pre_dot <= WHOLE_LIMIT && pre_dot == digits_value(
                    s.take(if seen_dot { point } else { at }),
                ),
                too_large ==> digits_value(s.take(if seen_dot { point } else { at }))
                    > WHOLE_LIMIT,
                seen_dot ==> post_dot_cnt <= 6 && (post_dot_cnt < 6 ==> post_dot_cnt == at - point
                    - 1) && post_dot_cnt <= at - point - 1,
                seen_dot ==> post_dot == digits_value(
                    s.subrange(point + 1, point + 1 + post_dot_cnt),
                ),
                0 <= post_dot < ten_to(post_dot_cnt as int),
                seen_dot && !imprecise ==> forall|i: int|
                    point + 6 < i < at ==> #[trigger] s[i] == '0',
                imprecise ==> point + 6 < excess < at && s[excess] != '0',
            ensures
                at == s.len(),
            decreases chars.decrease()->0,
        {
            let next = chars.next();
            match next {
                None => {
                    break ;
                },
                Some(c) => {
                    assert(c == s[at]);
                    assert(s.skip(at).drop_first() =~= s.skip(at + 1));
                    if c == '.' {
                        if seen_dot {
                            proof {
                                Self::lemma_two_points_malformed(s, point, at);
                            }
                            return Err(String::from_str("unable to parse as price ").concat(str));
                        }
                        seen_dot = true;
                        proof {
                            point = at;
                            assert(s.subrange(point + 1, point + 1) =~= Seq::<char>::empty());
                        }
                    } else if c < '0' || c > '9' {
                        proof {
                            Self::lemma_stray_character_malformed(s, at);
                        }
                        return Err(String::from_str("unable to parse as price ").concat(str));
                    } else {
                        let digit: i64 = (c as u32 - '0' as u32) as i64;
                        assert(digit == digit_value(c));
                        if seen_dot {
                            if post_dot_cnt < 6 {
                                proof {
                                    lemma_digits_value_extend(
                                        s,
                                        point + 1,
                                        point + 1 + post_dot_cnt,
                                    );
                                }
                                post_dot = 10 * post_dot + digit;
                                post_dot_cnt = post_dot_cnt + 1;
                            } else if digit != 0 {
                                imprecise = true;
                                proof {
                                    excess = at;
                                }
                            }
                        } else {
                            proof {
                                assert(s.take(at + 1).drop_last() =~= s.take(at));
                            }
                            if !too_large {
                                if pre_dot > (WHOLE_LIMIT - digit) / 10 {
                                    too_large = true;
                                } else {
                                    pre_dot = 10 * pre_dot + digit;
                                }
                            }
                        }
                    }
                    proof {
                        at = at + 1;
                    }
                },
            }
        }
        proof {
            let whole = if seen_dot { point } else { at };
            lemma_point_index(s, whole);
            assert(well_formed(s));
            assert(s.take(whole) == integer_digits(s));
            if imprecise {
                assert(fraction_digits(s)[excess - point - 1] == s[excess]);
                assert(!precise(s));
            } else {
                assert forall|i: int| 6 <= i < fraction_digits(s).len() implies #[trigger] fraction_digits(
                    s,
                )[i] == '0' by {
                    assert(fraction_digits(s)[i] == s[point + 1 + i]);
                }
                assert(precise(s));
            }
        }
        if imprecise {
            return Err(
                String::from_str("unable to parse as price (too many digits) ").concat(str),
            );
        }
        let ghost six = six_digits(fraction_digits(s));
        proof {
            assert(six.take(post_dot_cnt as int) =~= if seen_dot {
                s.subrange(point + 1, point + 1 + post_dot_cnt)
            } else {
                Seq::<char>::empty()
            });
        }
        while post_dot_cnt < 6
            invariant
                post_dot_cnt <= 6,
                six.len() == 6,
                six == six_digits(fraction_digits(s)),
                post_dot == digits_value(six.take(post_dot_cnt as int)),
                0 <= post_dot < ten_to(post_dot_cnt as int),
                forall|i: int| post_dot_cnt <= i < 6 ==> six[i] == '0',
            decreases 6 - post_dot_cnt,
        {
            proof {
                assert(six.take(post_dot_cnt + 1).drop_last() =~= six.take(post_dot_cnt as int));
            }
            post_dot = post_dot * 10;
            post_dot_cnt = post_dot_cnt + 1;
        }
        proof {
            assert(six.take(6) =~= six);
        }
        if too_large || (pre_dot == WHOLE_LIMIT && post_dot > FRACTION_LIMIT) {
            return Err(String::from_str("unable to parse as price (too large) ").concat(str));
        }
        Ok(Price(pre_dot * SCALE + post_dot))
    }

    /// A second decimal point makes a string malformed.
    proof fn lemma_two_points_malformed(s: Seq<char>, first: int, second: int)
        requires
            0 <= first < second < s.len(),
            s[first] == '.',
            s[second] == '.',
        ensures
            !well_formed(s),
    {
        if point_index(s) == first {
            assert(!is_digit(s[second]));
        } else {
            assert(!is_digit(s[first]));
        }
    }

    /// A character that is neither a digit nor a point makes a string malformed.
    proof fn lemma_stray_character_malformed(s: Seq<char>, at: int)
        requires
            0 <= at < s.len(),
            !is_digit(s[at]),
            s[at] != '.',
        ensures
            !well_formed(s),
    {
        lemma_point_holds_point(s);
    }
}

/// Where `point_index` points inside the string, a decimal point stands.
pub proof fn lemma_point_holds_point(s: Seq<char>)
    ensures
        0 <= point_index(s) <= s.len(),
        point_index(s) < s.len() ==> s[point_index(s)] == '.',
        forall|i: int| 0 <= i < point_index(s) ==> s[i] != '.',
    decreases s.len(),
{
    if s.len() > 0 && s[0] != '.' {
        let rest = s.drop_first();
        lemma_point_holds_point(rest);
        assert forall|i: int| 0 <= i < point_index(s) implies s[i] != '.' by {
            if i > 0 {
                assert(rest[i - 1] == s[i]);
            }
        }
    }
}

} // verus!
