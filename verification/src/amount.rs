//! Exact decimal amounts as a mantissa and a scale.
//!
//! An [`Amount`] stands for the number `mantissa / 10^scale`; its view is that
//! number in units of `10^-28`, the smallest step of any amount, so that
//! contracts can add and compare amounts as integers. Sums and differences
//! are computed by the decimal arithmetic of [`crate::decimal`], which may
//! round; [`Amount::checked_add`] and [`Amount::checked_sub`] hand on only
//! what [`confirms_sum`] finds to be exact.

use crate::decimal::{
    decimal_checked_add, decimal_checked_sub, decimal_difference, decimal_sum, parsed_decimal,
};
use vstd::arithmetic::mul::lemma_mul_is_associative;
use vstd::arithmetic::power::{lemma_pow0, lemma_pow1, lemma_pow_adds, lemma_pow_positive, pow};
use vstd::prelude::*;

verus! {

/// The largest scale an amount can have.
pub const MAX_SCALE: u32 = 28;

/// Two to the power 96; a mantissa lies strictly between this and its negation.
pub const MANTISSA_LIMIT: i128 = 79_228_162_514_264_337_593_543_950_336;

/// Ten to the power `e`.
pub open spec fn pow10(e: nat) -> int {
    pow(10, e)
}

/// A decimal number `mantissa / 10^scale`.
#[derive(Clone, Copy, Debug)]
pub struct Amount {
    pub mantissa: i128,
    pub scale: u32,
}

impl View for Amount {
    type V = int;

    /// The number in units of `10^-28`, of which every amount is a whole
    /// number.
    open spec fn view(&self) -> int {
        self.mantissa * pow10((MAX_SCALE - self.scale) as nat)
    }
}

impl Amount {
    /// The mantissa fits in 96 bits and the scale is at most [`MAX_SCALE`].
    pub open spec fn wf(self) -> bool {
        &&& -MANTISSA_LIMIT < self.mantissa < MANTISSA_LIMIT
        &&& self.scale <= MAX_SCALE
    }

    /// The mantissa this amount has when written with `scale` fractional digits.
    pub open spec fn aligned(self, scale: u32) -> int
        recommends
            self.scale <= scale,
    {
        self.mantissa * pow10((scale - self.scale) as nat)
    }
}

/// The amount with the given mantissa and scale, where they are those of an
/// amount.
pub open spec fn amount_of(p: Option<(int, int)>) -> Option<Amount> {
    match p {
        Some((m, sc)) => if -MANTISSA_LIMIT < m < MANTISSA_LIMIT && 0 <= sc <= MAX_SCALE {
            Some(Amount { mantissa: m as i128, scale: sc as u32 })
        } else {
            None
        },
        None => None,
    }
}

/// The largest of three scales.
pub open spec fn widest(a: u32, b: u32, c: u32) -> u32 {
    if a >= b && a >= c {
        a
    } else if b >= c {
        b
    } else {
        c
    }
}

/// `s` is `a + b`, and 128 bits suffice to see it: written with as many
/// fractional digits as the longest of the three has, the mantissas of `a`
/// and `b` add up to that of `s`, and none of the three leaves 128 bits.
pub open spec fn adds_up(a: Amount, b: Amount, s: Amount) -> bool {
    let top = widest(a.scale, b.scale, s.scale);
    &&& i128::MIN <= a.aligned(top) <= i128::MAX
    &&& i128::MIN <= b.aligned(top) <= i128::MAX
    &&& i128::MIN <= s.aligned(top) <= i128::MAX
    &&& a.aligned(top) + b.aligned(top) == s.aligned(top)
}

impl Amount {
    /// The amount that `text` is read as, if it is a decimal.
    pub open spec fn parsed(text: Seq<char>) -> Option<Amount> {
        amount_of(parsed_decimal(text))
    }

    /// The sum that [`Amount::checked_add`] returns: the one the decimal
    /// arithmetic gives, where that is exactly `self + rhs`.
    pub open spec fn plus(self, rhs: Amount) -> Option<Amount> {
        match amount_of(
            decimal_sum(
                self.mantissa as int,
                self.scale as int,
                rhs.mantissa as int,
                rhs.scale as int,
            ),
        ) {
            Some(s) => if adds_up(self, rhs, s) {
                Some(s)
            } else {
                None
            },
            None => None,
        }
    }

    /// The difference that [`Amount::checked_sub`] returns: the one the
    /// decimal arithmetic gives, where that is exactly `self - rhs`.
    pub open spec fn minus(self, rhs: Amount) -> Option<Amount> {
        match amount_of(
            decimal_difference(
                self.mantissa as int,
                self.scale as int,
                rhs.mantissa as int,
                rhs.scale as int,
            ),
        ) {
            Some(d) => if adds_up(d, rhs, self) {
                Some(d)
            } else {
                None
            },
            None => None,
        }
    }

    /// Zero, written `0.0`.
    pub fn zero() -> (r: Amount)
        ensures
            r == (Amount { mantissa: 0, scale: 1 }),
            r.wf(),
            r@ == 0,
    {
        Amount { mantissa: 0, scale: 1 }
    }

    /// The amount `mantissa / 10^scale`, where the mantissa fits in 96 bits
    /// and the scale is at most 28.
    pub fn from_parts(mantissa: i128, scale: u32) -> (r: Option<Amount>)
        ensures
            r == amount_of(Some((mantissa as int, scale as int))),
            r matches Some(a) ==> a.wf() && a.mantissa == mantissa && a.scale == scale,
    {
        if -MANTISSA_LIMIT < mantissa && mantissa < MANTISSA_LIMIT && scale <= MAX_SCALE {
            Some(Amount { mantissa, scale })
        } else {
            None
        }
    }

    /// `self + rhs`, exactly, or `None` where the decimal arithmetic reports
    /// an overflow or returns a sum that is not seen to be exact.
    pub fn checked_add(self, rhs: Amount) -> (r: Option<Amount>)
        requires
            self.wf(),
            rhs.wf(),
        ensures
            r == self.plus(rhs),
            r matches Some(s) ==> s.wf() && s@ == self@ + rhs@,
    {
        match decimal_checked_add(self, rhs) {
            Some(s) => if confirms_sum(self, rhs, s) {
                Some(s)
            } else {
                None
            },
            None => None,
        }
    }

    /// `self - rhs`, exactly, or `None` where the decimal arithmetic reports
    /// an overflow or returns a difference that is not seen to be exact.
    pub fn checked_sub(self, rhs: Amount) -> (r: Option<Amount>)
        requires
            self.wf(),
            rhs.wf(),
        ensures
            r == self.minus(rhs),
            r matches Some(d) ==> d.wf() && d@ == self@ - rhs@,
    {
        match decimal_checked_sub(self, rhs) {
            Some(d) => if confirms_sum(d, rhs, self) {
                Some(d)
            } else {
                None
            },
            None => None,
        }
    }
}

/// `m * 10^digits`, or `None` where that does not fit in 128 bits.
pub fn scaled_up(m: i128, digits: u32) -> (r: Option<i128>)
    ensures
        r == (if i128::MIN <= m * pow10(digits as nat) <= i128::MAX {
            Some((m * pow10(digits as nat)) as i128)
        } else {
            None
        }),
{
    let mut v: i128 = m;
    let mut i: u32 = 0;
    proof {
        lemma_pow10_step(0);
    }
    while i < digits
        invariant
            i <= digits,
            v == m * pow10(i as nat),
        decreases digits - i,
    {
        proof {
            lemma_pow10_step(i as nat);
            lemma_mul_is_associative(m as int, pow10(i as nat), 10);
        }
        match v.checked_mul(10) {
            Some(w) => {
                v = w;
            },
            None => {
                proof {
                    let p = pow10((i + 1) as nat);
                    assert(v * 10 == m * p);
                    lemma_pow_positive(10, (i + 1) as nat);
                    assert(m <= 0 ==> m * p <= 0) by (nonlinear_arith)
                        requires
                            p > 0,
                    ;
                    assert(m >= 0 ==> m * p >= 0) by (nonlinear_arith)
                        requires
                            p > 0,
                    ;
                    lemma_scaling_grows(m as int, (i + 1) as nat, digits as nat);
                }
                return None;
            },
        }
        i = i + 1;
    }
    Some(v)
}

/// Whether `s` is seen to be `a + b`.
pub fn confirms_sum(a: Amount, b: Amount, s: Amount) -> (r: bool)
    requires
        a.wf(),
        b.wf(),
        s.wf(),
    ensures
        r == adds_up(a, b, s),
        r ==> s@ == a@ + b@,
{
    let top: u32 = if a.scale >= b.scale && a.scale >= s.scale {
        a.scale
    } else if b.scale >= s.scale {
        b.scale
    } else {
        s.scale
    };
    let x = scaled_up(a.mantissa, top - a.scale);
    let y = scaled_up(b.mantissa, top - b.scale);
    let z = scaled_up(s.mantissa, top - s.scale);
    match (x, y, z) {
        (Some(x), Some(y), Some(z)) => {
            let r = match x.checked_add(y) {
                Some(sum) => sum == z,
                None => false,
            };
            proof {
                if r {
                    lemma_adds_up(a, b, s);
                }
            }
            r
        },
        _ => false,
    }
}

/// Three amounts that add up, add up as numbers.
pub proof fn lemma_adds_up(a: Amount, b: Amount, s: Amount)
    requires
        a.wf(),
        b.wf(),
        s.wf(),
        adds_up(a, b, s),
    ensures
        s@ == a@ + b@,
{
    let top = widest(a.scale, b.scale, s.scale);
    lemma_aligned_value(a, top);
    lemma_aligned_value(b, top);
    lemma_aligned_value(s, top);
    let unit = pow10((MAX_SCALE - top) as nat);
    let x = a.aligned(top);
    let y = b.aligned(top);
    assert((x + y) * unit == x * unit + y * unit) by (nonlinear_arith);
}

/// A sum that [`Amount::plus`] gives is well formed and exact.
pub proof fn lemma_plus_exact(a: Amount, b: Amount)
    requires
        a.wf(),
        b.wf(),
    ensures
        a.plus(b) matches Some(s) ==> s.wf() && s@ == a@ + b@,
{
    if let Some(s) = a.plus(b) {
        lemma_adds_up(a, b, s);
    }
}

/// A difference that [`Amount::minus`] gives is well formed and exact.
pub proof fn lemma_minus_exact(a: Amount, b: Amount)
    requires
        a.wf(),
        b.wf(),
    ensures
        a.minus(b) matches Some(d) ==> d.wf() && d@ == a@ - b@,
{
    if let Some(d) = a.minus(b) {
        lemma_adds_up(d, b, a);
    }
}

/// An amount has the sign of its mantissa.
pub proof fn lemma_sign(a: Amount)
    requires
        a.scale <= MAX_SCALE,
    ensures
        a.mantissa >= 0 <==> a@ >= 0,
        a.mantissa == 0 <==> a@ == 0,
{
    let unit = pow10((MAX_SCALE - a.scale) as nat);
    lemma_pow_positive(10, (MAX_SCALE - a.scale) as nat);
    let m = a.mantissa as int;
    assert(m >= 0 ==> m * unit >= 0) by (nonlinear_arith)
        requires
            unit > 0,
    ;
    assert(m < 0 ==> m * unit < 0) by (nonlinear_arith)
        requires
            unit > 0,
    ;
    assert(m > 0 ==> m * unit > 0) by (nonlinear_arith)
        requires
            unit > 0,
    ;
}

/// An amount is its mantissa at any longer scale, times the units of that
/// scale.
pub proof fn lemma_aligned_value(a: Amount, top: u32)
    requires
        a.scale <= top <= MAX_SCALE,
    ensures
        a@ == a.aligned(top) * pow10((MAX_SCALE - top) as nat),
{
    let up = (top - a.scale) as nat;
    let rest = (MAX_SCALE - top) as nat;
    lemma_pow_adds(10, up, rest);
    lemma_mul_is_associative(a.mantissa as int, pow10(up), pow10(rest));
}

/// `pow10` is positive and grows by a factor of ten with each step.
pub proof fn lemma_pow10_step(e: nat)
    ensures
        pow10(0) == 1,
        pow10(e) >= 1,
        pow10(e + 1) == pow10(e) * 10,
{
    lemma_pow0(10);
    lemma_pow_positive(10, e);
    lemma_pow_adds(10, e, 1);
    lemma_pow1(10);
}

/// Scaling by more digits never brings a number closer to zero.
pub proof fn lemma_scaling_grows(m: int, e1: nat, e2: nat)
    requires
        e1 <= e2,
    ensures
        m >= 0 ==> m * pow10(e2) >= m * pow10(e1),
        m <= 0 ==> m * pow10(e2) <= m * pow10(e1),
{
    let d = (e2 - e1) as nat;
    lemma_pow_adds(10, e1, d);
    lemma_pow_positive(10, d);
    lemma_pow_positive(10, e1);
    let p = pow10(e1);
    let q = pow10(d);
    assert(pow10(e2) == p * q);
    assert(m * (p * q) == (m * p) * q) by {
        lemma_mul_is_associative(m, p, q);
    }
    if m >= 0 {
        assert(m * p >= 0) by (nonlinear_arith)
            requires
                m >= 0,
                p > 0,
        ;
        assert((m * p) * q >= m * p) by (nonlinear_arith)
            requires
                m * p >= 0,
                q >= 1,
        ;
    }
    if m <= 0 {
        assert(m * p <= 0) by (nonlinear_arith)
            requires
                m <= 0,
                p > 0,
        ;
        assert((m * p) * q <= m * p) by (nonlinear_arith)
            requires
                m * p <= 0,
                q >= 1,
        ;
    }
}

} // verus!
