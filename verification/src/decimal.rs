//! The decimal arithmetic of the `rust_decimal` crate, as this library uses it.
//!
//! Nothing in this file is proved: each function hands its arguments to
//! `rust_decimal` and its contract records what that crate is relied on for.
//! An [`Amount`] goes in and comes out as its mantissa and scale.

use crate::amount::{pow10, Amount, MAX_SCALE, MANTISSA_LIMIT};
use rust_decimal::Decimal;
use std::str::FromStr;
use vstd::prelude::*;

verus! {

/// The mantissa and scale of the decimal that `Decimal::from_str` reads from
/// `text`, or `None` where it reports an error.
pub uninterp spec fn parsed_decimal(text: Seq<char>) -> Option<(int, int)>;

/// The mantissa and scale of what `Decimal::checked_add` returns for the
/// decimals `am / 10^asc` and `bm / 10^bsc`.
pub uninterp spec fn decimal_sum(am: int, asc: int, bm: int, bsc: int) -> Option<(int, int)>;

/// The mantissa and scale of what `Decimal::checked_sub` returns for the
/// decimals `am / 10^asc` and `bm / 10^bsc`.
pub uninterp spec fn decimal_difference(am: int, asc: int, bm: int, bsc: int) -> Option<
    (int, int),
>;

/// The mantissa and scale that `Decimal::rescale` leaves in the decimal
/// `m / 10^sc` when asked for `scale` fractional digits.
pub uninterp spec fn rescaled_decimal(m: int, sc: int, scale: int) -> (int, int);

/// The mantissa and scale of an amount, if there is one.
pub open spec fn parts(a: Option<Amount>) -> Option<(int, int)> {
    match a {
        Some(a) => Some((a.mantissa as int, a.scale as int)),
        None => None,
    }
}

/// `m` divided by `10^digits` and rounded to the nearest whole number, a tie
/// going away from zero.
pub open spec fn rounded(m: int, digits: nat) -> int {
    if m >= 0 {
        (2 * m + pow10(digits)) / (2 * pow10(digits))
    } else {
        -((2 * (-m) + pow10(digits)) / (2 * pow10(digits)))
    }
}

/// `Decimal::from_str` on `text`.
///
/// Trusted: the result is a function of the text alone, and a decimal that
/// was read has a mantissa within 96 bits and a scale of at most 28, as the
/// crate documents for every `Decimal`.
#[verifier::external_body]
pub(crate) fn decimal_from_str(text: &str) -> (r: Option<Amount>)
    ensures
        parts(r) == parsed_decimal(text@),
        r matches Some(a) ==> a.wf(),
{
    match Decimal::from_str(text) {
        Ok(d) => Some(Amount { mantissa: d.mantissa(), scale: d.scale() }),
        Err(_) => None,
    }
}

/// `Decimal::checked_add` on `a` and `b`.
///
/// Trusted: the result is a function of the two decimals alone, and a sum
/// that is returned is a `Decimal` within the documented limits. Nothing is
/// claimed of its value: the crate may round a sum that needs more than 96
/// bits.
#[verifier::external_body]
pub(crate) fn decimal_checked_add(a: Amount, b: Amount) -> (r: Option<Amount>)
    requires
        a.wf(),
        b.wf(),
    ensures
        parts(r) == decimal_sum(a.mantissa as int, a.scale as int, b.mantissa as int, b.scale as int),
        r matches Some(s) ==> s.wf(),
{
    let x = Decimal::from_i128_with_scale(a.mantissa, a.scale);
    let y = Decimal::from_i128_with_scale(b.mantissa, b.scale);
    match x.checked_add(y) {
        Some(d) => Some(Amount { mantissa: d.mantissa(), scale: d.scale() }),
        None => None,
    }
}

/// `Decimal::checked_sub` on `a` and `b`.
///
/// Trusted: as for [`decimal_checked_add`].
#[verifier::external_body]
pub(crate) fn decimal_checked_sub(a: Amount, b: Amount) -> (r: Option<Amount>)
    requires
        a.wf(),
        b.wf(),
    ensures
        parts(r) == decimal_difference(
            a.mantissa as int,
            a.scale as int,
            b.mantissa as int,
            b.scale as int,
        ),
        r matches Some(s) ==> s.wf(),
{
    let x = Decimal::from_i128_with_scale(a.mantissa, a.scale);
    let y = Decimal::from_i128_with_scale(b.mantissa, b.scale);
    match x.checked_sub(y) {
        Some(d) => Some(Amount { mantissa: d.mantissa(), scale: d.scale() }),
        None => None,
    }
}

/// `<` on the decimals `a` and `b`.
///
/// Trusted: `Decimal` is ordered by the number it stands for, whatever the
/// scales of the two.
#[verifier::external_body]
pub(crate) fn decimal_lt(a: Amount, b: Amount) -> (r: bool)
    requires
        a.wf(),
        b.wf(),
    ensures
        r == (a@ < b@),
{
    let x = Decimal::from_i128_with_scale(a.mantissa, a.scale);
    let y = Decimal::from_i128_with_scale(b.mantissa, b.scale);
    x < y
}

/// `Decimal::rescale` on `a`, for a scale of at most 28.
///
/// Trusted: the result is a function of the decimal and the scale alone.
/// Asked for more digits than `a` has, the crate keeps the number and adds as
/// many digits as the mantissa has room for, all of them where that fits in
/// 96 bits. Asked for fewer, it rounds to exactly that many, a tie going away
/// from zero.
#[verifier::external_body]
pub(crate) fn decimal_rescale(a: Amount, scale: u32) -> (r: Amount)
    requires
        a.wf(),
        scale <= MAX_SCALE,
    ensures
        (r.mantissa as int, r.scale as int) == rescaled_decimal(
            a.mantissa as int,
            a.scale as int,
            scale as int,
        ),
        r.wf(),
        a.scale <= scale ==> a.scale <= r.scale <= scale && r@ == a@,
        a.scale <= scale && -MANTISSA_LIMIT < a.aligned(scale) < MANTISSA_LIMIT ==> r.scale
            == scale,
        a.scale > scale ==> r.scale == scale && r.mantissa == rounded(
            a.mantissa as int,
            (a.scale - scale) as nat,
        ),
{
    let mut d = Decimal::from_i128_with_scale(a.mantissa, a.scale);
    d.rescale(scale);
    Amount { mantissa: d.mantissa(), scale: d.scale() }
}

} // verus!
