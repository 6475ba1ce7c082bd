//! Money as a whole number of cents.
//!
//! A price never passes through a fraction: what is shown is written from the
//! cents digit by digit.

use vstd::prelude::*;
use vstd::string::*;
use crate::text::{
    decimal,
    magnitude,
    push_decimal,
    push_signed_decimal,
    push_two_digits,
    signed_decimal,
    two_digits,
};

verus! {

/// An amount of money, in cents. It may be negative.
#[derive(Clone, Copy, Debug, PartialEq, Eq, PartialOrd, Ord, Structural)]
pub struct Price {
    cents: i64,
}

impl View for Price {
    type V = int;

    /// The amount in cents.
    closed spec fn view(&self) -> int {
        self.cents as int
    }
}

/// The size of `n` without its sign.
pub open spec fn abs(n: int) -> int {
    if n < 0 {
        -n
    } else {
        n
    }
}

/// `n` divided by `d`, rounded towards zero. Meaningful for `d != 0`.
pub open spec fn quotient_towards_zero(n: int, d: int) -> int {
    if (n < 0) == (d < 0) {
        abs(n) / abs(d)
    } else {
        -(abs(n) / abs(d))
    }
}

/// The whole dollars of `cents`, rounded towards zero.
pub open spec fn dollars_of(cents: int) -> int {
    quotient_towards_zero(cents, 100)
}

/// The cents of `cents` beyond its whole dollars, as a count without sign.
pub open spec fn cents_beyond_dollars(cents: int) -> int {
    abs(cents) % 100
}

/// The amount as dollars, a point and two digits of cents: `12.34`. An amount
/// below zero shows its sign with the dollars, so that one between minus one
/// dollar and zero shows none.
pub open spec fn decimal_text(cents: int) -> Seq<char> {
    signed_decimal(dollars_of(cents)) + seq!['.'] + two_digits(cents_beyond_dollars(cents) as nat)
}

/// The amount with a dollar sign before it: `$12.34`.
pub open spec fn usd_text(cents: int) -> Seq<char> {
    seq!['$'] + decimal_text(cents)
}

/// The amount as it is shown to a visitor: the dollar sign, behind a minus
/// sign where the amount is below zero, and then the amount without sign:
/// `$12.34`, `-$12.34`.
pub open spec fn display_text(cents: int) -> Seq<char> {
    if cents < 0 {
        seq!['-'] + usd_text(abs(cents))
    } else {
        usd_text(cents)
    }
}

/// The amount to two places, exact: the sign, the dollars of the amount
/// without sign, a point and two digits of cents.
pub open spec fn exact_text(cents: int) -> Seq<char> {
    (if cents < 0 {
        seq!['-']
    } else {
        Seq::<char>::empty()
    }) + decimal((abs(cents) / 100) as nat) + seq!['.'] + two_digits(
        cents_beyond_dollars(cents) as nat,
    )
}

/// The amount as a log shows it: `1234 cents ($12.34)`.
pub open spec fn debug_text(cents: int) -> Seq<char> {
    signed_decimal(cents) + " cents ($"@ + exact_text(cents) + ")"@
}

impl Price {
    /// The price of `cents` cents.
    pub fn from_cents(cents: i64) -> (price: Price)
        ensures
            price@ == cents,
    {
        Price { cents }
    }

    /// The amount in cents.
    pub fn as_cents(self) -> (cents: i64)
        ensures
            cents == self@,
    {
        self.cents
    }

    /// The whole dollars of the amount, rounded towards zero.
    pub fn dollars_part(self) -> (dollars: i64)
        ensures
            dollars == dollars_of(self@),
    {
        let whole = (magnitude(self.cents) / 100) as i64;
        if self.cents < 0 {
            -whole
        } else {
            whole
        }
    }

    /// The cents beyond the whole dollars, without sign: `0 ..= 99`.
    pub fn cents_part(self) -> (cents: u8)
        ensures
            cents == cents_beyond_dollars(self@),
            cents < 100,
    {
        (magnitude(self.cents) % 100) as u8
    }

    /// The amount as dollars, a point and two digits of cents: see
    /// [`decimal_text`].
    pub fn to_decimal_string(self) -> (text: String)
        ensures
            text@ == decimal_text(self@),
    {
        let mut text = String::new();
        push_signed_decimal(&mut text, self.dollars_part());
        proof {
            reveal_strlit(".");
        }
        text.append(".");
        push_two_digits(&mut text, self.cents_part() as u64);
        text
    }

    /// The amount with a dollar sign before it: see [`usd_text`].
    pub fn to_usd_string(self) -> (text: String)
        ensures
            text@ == usd_text(self@),
    {
        proof {
            reveal_strlit("$");
        }
        let mut text = String::from_str("$");
        let amount = self.to_decimal_string();
        text.append(amount.as_str());
        text
    }

    /// The amount as it is shown to a visitor: see [`display_text`].
    pub fn to_display_string(self) -> (text: String)
        ensures
            text@ == display_text(self@),
    {
        if self.cents < 0 {
            proof {
                reveal_strlit("-$");
                reveal_strlit(".");
            }
            let size = magnitude(self.cents);
            let mut text = String::from_str("-$");
            push_decimal(&mut text, size / 100);
            text.append(".");
            push_two_digits(&mut text, size % 100);
            text
        } else {
            self.to_usd_string()
        }
    }

    /// The amount as a log shows it: see [`debug_text`]. The figure in
    /// brackets is exact at every size.
    pub fn debug_string(self) -> (text: String)
        ensures
            text@ == debug_text(self@),
    {
        proof {
            reveal_strlit("-");
            reveal_strlit(".");
        }
        let size = magnitude(self.cents);
        let mut text = String::new();
        push_signed_decimal(&mut text, self.cents);
        text.append(" cents ($");
        if self.cents < 0 {
            text.append("-");
        }
        push_decimal(&mut text, size / 100);
        text.append(".");
        push_two_digits(&mut text, size % 100);
        text.append(")");
        text
    }

    /// The amount without its sign. The lowest amount that fits has no
    /// counterpart above zero and is left out.
    pub fn abs(self) -> (price: Price)
        requires
            self@ > i64::MIN,
        ensures
            price@ == abs(self@),
    {
        if self.cents < 0 {
            Price { cents: -self.cents }
        } else {
            self
        }
    }
}

impl Default for Price {
    /// No money at all.
    fn default() -> (price: Price)
        ensures
            price@ == 0,
    {
        Price { cents: 0 }
    }
}

impl From<i64> for Price {
    /// The price of `cents` cents.
    fn from(cents: i64) -> (price: Price)
        ensures
            price@ == cents,
    {
        Price { cents }
    }
}

impl vstd::std_specs::convert::FromSpecImpl<i64> for Price {
    open spec fn obeys_from_spec() -> bool {
        true
    }

    closed spec fn from_spec(cents: i64) -> Price {
        Price { cents }
    }
}

impl From<u32> for Price {
    /// The price of `cents` cents.
    fn from(cents: u32) -> (price: Price)
        ensures
            price@ == cents,
    {
        Price { cents: cents as i64 }
    }
}

impl vstd::std_specs::convert::FromSpecImpl<u32> for Price {
    open spec fn obeys_from_spec() -> bool {
        true
    }

    closed spec fn from_spec(cents: u32) -> Price {
        Price { cents: cents as i64 }
    }
}

impl core::ops::Add<Price> for Price {
    type Output = Price;

    /// The sum of two amounts. It must fit.
    fn add(self, rhs: Price) -> (sum: Price)
        ensures
            sum@ == self@ + rhs@,
    {
        Price { cents: self.cents + rhs.cents }
    }
}

impl vstd::std_specs::ops::AddSpecImpl<Price> for Price {
    open spec fn obeys_add_spec() -> bool {
        true
    }

    open spec fn add_req(self, rhs: Price) -> bool {
        i64::MIN <= self@ + rhs@ <= i64::MAX
    }

    closed spec fn add_spec(self, rhs: Price) -> Price {
        Price { cents: (self.cents + rhs.cents) as i64 }
    }
}

impl core::ops::Sub<Price> for Price {
    type Output = Price;

    /// The difference of two amounts. It must fit.
    fn sub(self, rhs: Price) -> (difference: Price)
        ensures
            difference@ == self@ - rhs@,
    {
        Price { cents: self.cents - rhs.cents }
    }
}

impl vstd::std_specs::ops::SubSpecImpl<Price> for Price {
    open spec fn obeys_sub_spec() -> bool {
        true
    }

    open spec fn sub_req(self, rhs: Price) -> bool {
        i64::MIN <= self@ - rhs@ <= i64::MAX
    }

    closed spec fn sub_spec(self, rhs: Price) -> Price {
        Price { cents: (self.cents - rhs.cents) as i64 }
    }
}

impl core::ops::Mul<i64> for Price {
    type Output = Price;

    /// The amount taken `rhs` times. It must fit.
    fn mul(self, rhs: i64) -> (product: Price)
        ensures
            product@ == self@ * rhs,
    {
        Price { cents: self.cents * rhs }
    }
}

impl vstd::std_specs::ops::MulSpecImpl<i64> for Price {
    open spec fn obeys_mul_spec() -> bool {
        true
    }

    open spec fn mul_req(self, rhs: i64) -> bool {
        i64::MIN <= self@ * rhs <= i64::MAX
    }

    closed spec fn mul_spec(self, rhs: i64) -> Price {
        Price { cents: (self.cents * rhs) as i64 }
    }
}

impl core::ops::Mul<Price> for i64 {
    type Output = Price;

    /// The amount `rhs` taken `self` times. It must fit.
    fn mul(self, rhs: Price) -> (product: Price)
        ensures
            product@ == self * rhs@,
    {
        Price { cents: self * rhs.cents }
    }
}

impl vstd::std_specs::ops::MulSpecImpl<Price> for i64 {
    open spec fn obeys_mul_spec() -> bool {
        true
    }

    open spec fn mul_req(self, rhs: Price) -> bool {
        i64::MIN <= self * rhs@ <= i64::MAX
    }

    closed spec fn mul_spec(self, rhs: Price) -> Price {
        Price { cents: (self * rhs.cents) as i64 }
    }
}

/// Dividing by a negative number is dividing by its size and turning the
/// sign.
proof fn lemma_div_by_negative(n: int, d: int)
    requires
        n >= 0,
        d > 0,
    ensures
        n / (-d) == -(n / d),
{
    let q = n / d;
    let r = n % d;
    assert(n == d * q + r && 0 <= r < d) by (nonlinear_arith)
        requires
            q == n / d,
            r == n % d,
            d > 0,
    ;
    assert(n / (-d) == -q) by (nonlinear_arith)
        requires
            n == d * q + r,
            0 <= r < d,
            d > 0,
    ;
}

/// A quotient of sizes is no larger than the size divided, and at most half
/// of it where the divisor is two or more.
proof fn lemma_quotient_bounds(n: int, d: int)
    requires
        n >= 0,
        d > 0,
    ensures
        0 <= n / d <= n,
        d >= 2 ==> 2 * (n / d) <= n,
{
    let q = n / d;
    let r = n % d;
    assert(n == d * q + r && 0 <= r < d) by (nonlinear_arith)
        requires
            q == n / d,
            r == n % d,
            d > 0,
    ;
    assert(0 <= q <= n && (d >= 2 ==> 2 * q <= n)) by (nonlinear_arith)
        requires
            n == d * q + r,
            0 <= r < d,
            d > 0,
            n >= 0,
    ;
}

impl core::ops::Div<i64> for Price {
    type Output = Price;

    /// The amount in `rhs` equal parts, rounded towards zero. There is no
    /// division by zero, and the result must fit.
    fn div(self, rhs: i64) -> (part: Price)
        ensures
            part@ == quotient_towards_zero(self@, rhs as int),
    {
        proof {
            let n = self.cents as int;
            let d = rhs as int;
            lemma_quotient_bounds(abs(n), abs(d));
            if d < 0 {
                lemma_div_by_negative(abs(n), abs(d));
            }
        }
        let cents = self.cents / rhs;
        Price { cents }
    }
}

impl vstd::std_specs::ops::DivSpecImpl<i64> for Price {
    open spec fn obeys_div_spec() -> bool {
        true
    }

    open spec fn div_req(self, rhs: i64) -> bool {
        rhs != 0 && !(self@ == i64::MIN && rhs == -1)
    }

    closed spec fn div_spec(self, rhs: i64) -> Price {
        Price { cents: quotient_towards_zero(self.cents as int, rhs as int) as i64 }
    }
}

} // verus!
