//! Amounts of ether counted in Gwei.

use std::ops::{Add, Div, Sub};
use std::str::FromStr;

use num_bigint::BigUint;
use vstd::prelude::*;
use vstd::std_specs::ops::{AddSpec, DivSpec, SubSpec};

use crate::decimal::{
    decimal_digits, digits_value, is_digit, law_decimal_digits_parse_as_u64, parse_u64,
    parsed_u64, push_char, push_decimal_digits,
};

verus! {

pub const GWEI_PER_ETH: u64 = 1_000_000_000u64;

/// A number of Gwei. Can handle at most 1.84e19 Gwei, or 9.22e18 when it has
/// to be converted to `i64`; that is about 9_000_000_000 ETH, more than the
/// entire supply.
#[derive(Clone, Copy, Debug, PartialEq, Eq, Structural)]
pub struct GweiAmount(pub u64);

impl GweiAmount {
    pub fn new(gwei: u64) -> (r: GweiAmount)
        ensures
            r.0 == gwei,
    {
        GweiAmount(gwei)
    }

    /// The amount of Gwei in `eth` whole ether.
    pub fn from_eth(eth: u64) -> (r: GweiAmount)
        requires
            eth * GWEI_PER_ETH <= u64::MAX,
        ensures
            r.0 == eth * GWEI_PER_ETH,
    {
        GweiAmount(eth * GWEI_PER_ETH)
    }

    /// The amount as an `i64`, which it must fit.
    pub fn to_i64(self) -> (r: i64)
        requires
            self.0 <= i64::MAX,
        ensures
            r == self.0,
    {
        self.0 as i64
    }

    /// The amount held by a nonnegative `i64`.
    pub fn from_i64(num: i64) -> (r: GweiAmount)
        requires
            num >= 0,
        ensures
            r.0 == num,
    {
        GweiAmount(num as u64)
    }

    /// Reads a decimal number of Gwei: `None` unless the text is an optional
    /// `+` followed by digits only, for a number that fits in a `u64`.
    pub fn parse(amount: &str) -> (r: Option<GweiAmount>)
        ensures
            match parsed_u64(amount@) {
                Some(gwei) => r == Some(GweiAmount(gwei)),
                None => r is None,
            },
    {
        match parse_u64(amount) {
            Some(gwei) => Some(GweiAmount(gwei)),
            None => None,
        }
    }

    /// The amount written as a decimal number of Gwei that fits in a `u64`.
    pub fn from_string(amount: &str) -> (r: GweiAmount)
        requires
            parsed_u64(amount@) is Some,
        ensures
            Some(r.0) == parsed_u64(amount@),
    {
        match GweiAmount::parse(amount) {
            Some(gwei) => gwei,
            None => {
                proof {
                    assert(false);
                }
                GweiAmount(0)
            },
        }
    }
}

impl Add<GweiAmount> for GweiAmount {
    type Output = GweiAmount;

    fn add(self, rhs: GweiAmount) -> GweiAmount {
        let GweiAmount(lhs) = self;
        GweiAmount(lhs + rhs.0)
    }
}

impl vstd::std_specs::ops::AddSpecImpl<GweiAmount> for GweiAmount {
    open spec fn obeys_add_spec() -> bool {
        true
    }

    open spec fn add_req(self, rhs: GweiAmount) -> bool {
        self.0 + rhs.0 <= u64::MAX
    }

    open spec fn add_spec(self, rhs: GweiAmount) -> GweiAmount {
        GweiAmount((self.0 + rhs.0) as u64)
    }
}

impl Sub<GweiAmount> for GweiAmount {
    type Output = GweiAmount;

    fn sub(self, rhs: GweiAmount) -> GweiAmount {
        let GweiAmount(lhs) = self;
        GweiAmount(lhs - rhs.0)
    }
}

impl vstd::std_specs::ops::SubSpecImpl<GweiAmount> for GweiAmount {
    open spec fn obeys_sub_spec() -> bool {
        true
    }

    open spec fn sub_req(self, rhs: GweiAmount) -> bool {
        rhs.0 <= self.0
    }

    open spec fn sub_spec(self, rhs: GweiAmount) -> GweiAmount {
        GweiAmount((self.0 - rhs.0) as u64)
    }
}

impl Div<GweiAmount> for GweiAmount {
    type Output = GweiAmount;

    // Consider forbidding integer division and forcing use of float variants.
    fn div(self, rhs: GweiAmount) -> (r: GweiAmount)
        ensures
            r.0 * rhs.0 <= self.0,
            self.0 < (r.0 + 1) * rhs.0,
    {
        let GweiAmount(lhs) = self;
        proof {
            lemma_floor_div(lhs as nat, rhs.0 as nat);
        }
        GweiAmount(lhs / rhs.0)
    }
}

impl vstd::std_specs::ops::DivSpecImpl<GweiAmount> for GweiAmount {
    open spec fn obeys_div_spec() -> bool {
        true
    }

    open spec fn div_req(self, rhs: GweiAmount) -> bool {
        rhs.0 != 0
    }

    open spec fn div_spec(self, rhs: GweiAmount) -> GweiAmount {
        GweiAmount(self.0 / rhs.0)
    }
}

/// The quotient `x / d` is how many times `d` fits in `x`, rounded down.
pub proof fn lemma_floor_div(x: nat, d: nat)
    requires
        d > 0,
    ensures
        (x / d) * d <= x,
        x < (x / d + 1) * d,
{
    vstd::arithmetic::div_mod::lemma_fundamental_div_mod(x as int, d as int);
    vstd::arithmetic::div_mod::lemma_mod_bound(x as int, d as int);
    vstd::arithmetic::mul::lemma_mul_is_commutative(d as int, (x / d) as int);
    vstd::arithmetic::mul::lemma_mul_is_distributive_add_other_way(d as int, (x / d) as int, 1);
}

/// Dividing one amount by another counts how many times the divisor fits in
/// the dividend, rounded down.
pub proof fn law_div_counts_whole_times(a: GweiAmount, b: GweiAmount)
    requires
        b.0 != 0,
    ensures
        a.div_req(b),
        a.div_spec(b).0 * b.0 <= a.0,
        a.0 < (a.div_spec(b).0 + 1) * b.0,
{
    lemma_floor_div(a.0 as nat, b.0 as nat);
}

/// Adding an amount and subtracting it again gives the amount back.
pub proof fn law_add_then_sub(a: GweiAmount, b: GweiAmount)
    requires
        a.add_req(b),
    ensures
        a.add_spec(b).sub_req(b),
        a.add_spec(b).sub_spec(b) == a,
{
}

/// An amount that fits in an `i64` survives the trip through `i64`.
pub proof fn law_i64_round_trip(a: GweiAmount)
    requires
        a.0 <= i64::MAX,
    ensures
        (a.0 as i64) >= 0,
        GweiAmount((a.0 as i64) as u64) == a,
{
}

/// An amount of wei written in decimal, as block explorers report it.
#[derive(Clone, Debug, PartialEq, Eq)]
pub struct WeiAmount(pub String);

/// The text left once a leading `+` is dropped, when num-bigint drops it: only
/// one `+`, and not when a second one follows.
pub open spec fn without_plus_sign(s: Seq<char>) -> Seq<char> {
    if s.len() > 0 && s[0] == '+' && !(s.len() > 1 && s[1] == '+') {
        s.drop_first()
    } else {
        s
    }
}

/// The value that num-bigint's `BigUint::from_str` reads from decimal text: an
/// optional `+`, then digits and `_` separators, led by a digit; the
/// separators are ignored.
pub open spec fn big_decimal(s: Seq<char>) -> Option<nat> {
    let t = without_plus_sign(s);
    if t.len() > 0 && t[0] != '_' && forall|i: int|
        0 <= i < t.len() ==> is_digit(#[trigger] t[i]) || t[i] == '_' {
        Some(digits_value(t.filter(|c: char| c != '_')))
    } else {
        None
    }
}

/// The whole number of Gwei in `wei`, when the text is a decimal number of wei.
pub open spec fn gwei_in_wei_text(wei: Seq<char>) -> Option<nat> {
    match big_decimal(wei) {
        Some(v) => Some(v / (GWEI_PER_ETH as nat)),
        None => None,
    }
}

/// Calls num-bigint's `BigUint::from_str` on `decimal`, divides the number by
/// `divisor` with `BigUint`'s division, and converts the quotient with
/// `u64::try_from`. Claimed, after num-bigint's source: the text is read as
/// `big_decimal` says, the outer `None` comes exactly when it is not a number,
/// and the inner one exactly when the quotient is larger than a `u64`.
#[verifier::external_body]
fn big_decimal_quotient(decimal: &str, divisor: u64) -> (r: Option<Option<u64>>)
    requires
        divisor > 0,
    ensures
        match big_decimal(decimal@) {
            None => r is None,
            Some(v) => r == Some(
                if v / (divisor as nat) <= u64::MAX {
                    Some((v / (divisor as nat)) as u64)
                } else {
                    None::<u64>
                },
            ),
        },
{
    match BigUint::from_str(decimal) {
        Err(_) => None,
        Ok(value) => Some(u64::try_from(value / BigUint::from(divisor)).ok()),
    }
}

/// A number below `k * d` has a quotient by `d` below `k`.
proof fn lemma_quotient_below(x: nat, d: nat, k: nat)
    requires
        d > 0,
        x < k * d,
    ensures
        x / d < k,
{
    lemma_floor_div(x, d);
    if x / d >= k {
        vstd::arithmetic::mul::lemma_mul_inequality(k as int, (x / d) as int, d as int);
    }
}

/// The Gwei found in wei text are its value in wei divided by a billion,
/// rounded down: a billion times them is at most the value, and a billion
/// times one more is above it.
pub proof fn law_wei_to_gwei_rounds_down(wei: Seq<char>)
    requires
        big_decimal(wei) is Some,
    ensures
        gwei_in_wei_text(wei) is Some,
        gwei_in_wei_text(wei).unwrap() * GWEI_PER_ETH <= big_decimal(wei).unwrap(),
        big_decimal(wei).unwrap() < (gwei_in_wei_text(wei).unwrap() + 1) * GWEI_PER_ETH,
{
    lemma_floor_div(big_decimal(wei).unwrap(), GWEI_PER_ETH as nat);
}

impl GweiAmount {
    /// The whole number of Gwei in an amount of wei, rounded down: `None`
    /// unless the text is a decimal number whose Gwei fit in a `u64`.
    pub fn try_from_wei(amount: &WeiAmount) -> (r: Option<GweiAmount>)
        ensures
            r matches Some(g) ==> (big_decimal(amount.0@) matches Some(v) && g.0
                * GWEI_PER_ETH <= v && v < (g.0 + 1) * GWEI_PER_ETH),
            (big_decimal(amount.0@) matches Some(v) && v < (u64::MAX + 1) * GWEI_PER_ETH)
                ==> r is Some,
            match gwei_in_wei_text(amount.0@) {
                Some(gwei) => if gwei <= u64::MAX {
                    r == Some(GweiAmount(gwei as u64))
                } else {
                    r is None
                },
                None => r is None,
            },
    {
        proof {
            if let Some(v) = big_decimal(amount.0@) {
                lemma_floor_div(v, GWEI_PER_ETH as nat);
                if v < (u64::MAX + 1) * GWEI_PER_ETH {
                    lemma_quotient_below(v, GWEI_PER_ETH as nat, (u64::MAX + 1) as nat);
                }
            }
        }
        match big_decimal_quotient(amount.0.as_str(), GWEI_PER_ETH) {
            Some(Some(gwei)) => Some(GweiAmount(gwei)),
            _ => None,
        }
    }

    /// The whole number of Gwei in an amount of wei, rounded down; the text
    /// must be a decimal number whose Gwei fit in a `u64`.
    pub fn from_wei(amount: WeiAmount) -> (r: GweiAmount)
        requires
            gwei_in_wei_text(amount.0@) is Some,
            gwei_in_wei_text(amount.0@).unwrap() <= u64::MAX,
        ensures
            r.0 == gwei_in_wei_text(amount.0@).unwrap(),
            r.0 * GWEI_PER_ETH <= big_decimal(amount.0@).unwrap(),
            big_decimal(amount.0@).unwrap() < (r.0 + 1) * GWEI_PER_ETH,
    {
        match GweiAmount::try_from_wei(&amount) {
            Some(gwei) => gwei,
            None => {
                proof {
                    assert(false);
                }
                GweiAmount(0)
            },
        }
    }
}


/// The unit written after an amount.
pub open spec fn gwei_unit_text() -> Seq<char> {
    seq![' ', 'g', 'w', 'e', 'i']
}

/// How an amount of `n` Gwei is written: its decimal digits and the unit.
pub open spec fn gwei_text(n: nat) -> Seq<char> {
    decimal_digits(n) + gwei_unit_text()
}

impl GweiAmount {
    /// The amount as its `Display` writes it: decimal Gwei followed by ` gwei`.
    pub fn to_string(&self) -> (r: String)
        ensures
            r@ == gwei_text(self.0 as nat),
            r@.len() >= 6,
            r@.subrange(r@.len() - 5, r@.len() as int) == seq![' ', 'g', 'w', 'e', 'i'],
            parsed_u64(r@.subrange(0, r@.len() - 5)) == Some(self.0),
    {
        let mut text = String::new();
        push_decimal_digits(&mut text, self.0);
        push_char(&mut text, ' ');
        push_char(&mut text, 'g');
        push_char(&mut text, 'w');
        push_char(&mut text, 'e');
        push_char(&mut text, 'i');
        assert(text@ =~= gwei_text(self.0 as nat));
        proof {
            law_gwei_text_is_digits_then_unit(self.0);
        }
        text
    }
}

/// An amount's text is its decimal digits, which read back as the amount,
/// followed by exactly the five characters ` gwei`.
pub proof fn law_gwei_text_is_digits_then_unit(n: u64)
    ensures
        gwei_text(n as nat).len() >= 6,
        gwei_text(n as nat).subrange(
            gwei_text(n as nat).len() - 5,
            gwei_text(n as nat).len() as int,
        ) == seq![' ', 'g', 'w', 'e', 'i'],
        parsed_u64(gwei_text(n as nat).subrange(0, gwei_text(n as nat).len() - 5)) == Some(n),
{
    let t = gwei_text(n as nat);
    let d = decimal_digits(n as nat);
    crate::decimal::lemma_decimal_digits(n as nat);
    assert(t.subrange(t.len() - 5, t.len() as int) =~= seq![' ', 'g', 'w', 'e', 'i']);
    assert(t.subrange(0, t.len() - 5) =~= d);
    law_decimal_digits_parse_as_u64(n);
}

/// An amount's text, without its unit, reads back as the amount.
pub proof fn law_text_round_trip(a: GweiAmount)
    ensures
        gwei_text(a.0 as nat).subrange(0, gwei_text(a.0 as nat).len() - 5) == decimal_digits(
            a.0 as nat,
        ),
        parsed_u64(decimal_digits(a.0 as nat)) == Some(a.0),
{
    assert(gwei_text(a.0 as nat).subrange(0, gwei_text(a.0 as nat).len() - 5) =~= decimal_digits(
        a.0 as nat,
    ));
    law_decimal_digits_parse_as_u64(a.0);
}

/// A nonnegative `i64` survives the trip through an amount.
pub proof fn law_i64_amount_round_trip(n: i64)
    requires
        n >= 0,
    ensures
        GweiAmount(n as u64).0 <= i64::MAX,
        GweiAmount(n as u64).0 as i64 == n,
{
}

} // verus!
