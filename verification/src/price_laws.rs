//! What holds of every decimal string and the price read from it.

use vstd::prelude::*;
use crate::price::{
    digits_value, fraction_digits, integer_digits, is_digit, lemma_point_holds_point, millionths,
    point_index, precise, price_fault, six_digits, well_formed, Price,
};

verus! {

/// A run of `n` zeros.
pub open spec fn zeros(n: int) -> Seq<char> {
    Seq::new(
        if n >= 0 {
            n as nat
        } else {
            0
        },
        |i: int| '0',
    )
}

/// Ten to the power `n`.
pub open spec fn power_of_ten(n: nat) -> int
    decreases n,
{
    if n == 0 {
        1
    } else {
        10 * power_of_ten((n - 1) as nat)
    }
}

/// The number that `s` denotes, times `10^places`: its digits read as one integer,
/// the fraction filled with zeros to `places` digits.
pub open spec fn scaled_value(s: Seq<char>, places: nat) -> int
    recommends
        fraction_digits(s).len() <= places,
{
    digits_value(
        integer_digits(s) + fraction_digits(s) + zeros(places - fraction_digits(s).len()),
    )
}

proof fn lemma_power_positive(n: nat)
    ensures
        power_of_ten(n) > 0,
    decreases n,
{
    if n > 0 {
        lemma_power_positive((n - 1) as nat);
    }
}

/// Zeros behind a digit string multiply its value by a power of ten.
proof fn lemma_trailing_zeros(digits: Seq<char>, n: nat)
    ensures
        digits_value(digits + zeros(n as int)) == digits_value(digits) * power_of_ten(n),
    decreases n,
{
    if n == 0 {
        assert(digits + zeros(0) =~= digits);
    } else {
        let whole = digits + zeros(n as int);
        assert(whole.drop_last() =~= digits + zeros(n - 1));
        assert(whole.last() == '0');
        lemma_trailing_zeros(digits, (n - 1) as nat);
        assert(digits_value(digits) * (10 * power_of_ten((n - 1) as nat)) == 10 * (digits_value(
            digits,
        ) * power_of_ten((n - 1) as nat))) by (nonlinear_arith);
    }
}

/// Digits behind a digit string: its value shifted by their count, plus theirs.
proof fn lemma_digits_behind(front: Seq<char>, back: Seq<char>)
    ensures
        digits_value(front + back) == digits_value(front) * power_of_ten(back.len())
            + digits_value(back),
    decreases back.len(),
{
    if back.len() == 0 {
        assert(front + back =~= front);
    } else {
        let rest = back.drop_last();
        assert((front + back).drop_last() =~= front + rest);
        assert((front + back).last() == back.last());
        lemma_digits_behind(front, rest);
        let v = digits_value(front);
        let p = power_of_ten(rest.len());
        assert(power_of_ten(back.len()) == 10 * p);
        assert(v * (10 * p) == 10 * (v * p)) by (nonlinear_arith);
    }
}

/// The millionths of a string are its whole digits followed by the six of its fraction.
proof fn lemma_millionths_as_digits(s: Seq<char>)
    ensures
        millionths(s) == digits_value(integer_digits(s) + six_digits(fraction_digits(s))),
{
    lemma_digits_behind(integer_digits(s), six_digits(fraction_digits(s)));
    assert(power_of_ten(6) == 1_000_000) by {
        reveal_with_fuel(power_of_ten, 7);
    }
}

/// A precise string's scaled value and its millionths differ by a power of ten.
proof fn lemma_scaled_and_millionths(s: Seq<char>, places: nat)
    requires
        precise(s),
        fraction_digits(s).len() <= places,
    ensures
        places >= 6 ==> scaled_value(s, places) == millionths(s) * power_of_ten(
            (places - 6) as nat,
        ),
        places < 6 ==> millionths(s) == scaled_value(s, places) * power_of_ten(
            (6 - places) as nat,
        ),
{
    let whole = integer_digits(s);
    let fraction = fraction_digits(s);
    let six = six_digits(fraction);
    let filled = whole + fraction + zeros(places - fraction.len());
    lemma_millionths_as_digits(s);
    if places >= 6 {
        assert(filled =~= (whole + six) + zeros(places - 6));
        lemma_trailing_zeros(whole + six, (places - 6) as nat);
    } else {
        assert(whole + six =~= filled + zeros(6 - places));
        lemma_trailing_zeros(filled, (6 - places) as nat);
    }
}

/// Two spellings of one number are one price.
///
/// Let `s1` and `s2` be decimal strings that lose nothing at six fractional
/// digits. If they denote the same number, that is, if their digits agree once
/// both fractions are filled to a common length, then they are read as the
/// same count of millionths, and either both are prices or neither is.
pub proof fn law_same_number_same_price(s1: Seq<char>, s2: Seq<char>, places: nat)
    requires
        well_formed(s1),
        well_formed(s2),
        precise(s1),
        precise(s2),
        fraction_digits(s1).len() <= places,
        fraction_digits(s2).len() <= places,
        scaled_value(s1, places) == scaled_value(s2, places),
    ensures
        millionths(s1) == millionths(s2),
        price_fault(s1) == price_fault(s2),
        Price::spec_parse_str(s1) is Ok ==> Price::spec_parse_str(s1) == Price::spec_parse_str(s2),
{
    lemma_scaled_and_millionths(s1, places);
    lemma_scaled_and_millionths(s2, places);
    if places >= 6 {
        let p = power_of_ten((places - 6) as nat);
        lemma_power_positive((places - 6) as nat);
        let m1 = millionths(s1);
        let m2 = millionths(s2);
        assert(m1 == m2) by (nonlinear_arith)
            requires
                m1 * p == m2 * p,
                p > 0,
        ;
    }
}

/// A digit other than zero behind the sixth fractional place makes a string no price.
pub proof fn law_excess_digit_refused(s: Seq<char>, i: int)
    requires
        point_index(s) + 6 < i < s.len(),
        is_digit(s[i]),
        s[i] != '0',
    ensures
        Price::spec_parse_str(s) is Err,
        price_fault(s) is Some,
{
    lemma_point_holds_point(s);
    assert(fraction_digits(s)[i - point_index(s) - 1] == s[i]);
}

} // verus!
