//! Quotes fetched for a fund.

use vstd::prelude::*;

verus! {

/// A decimal reading of the data source. `order_key` orders readings as their values are
/// ordered (equal keys for equal values, the key of `-x` is the negation of the key of `x`,
/// zero for zero); `fixed2` and `fixed4` are the value written with two and four decimals.
#[derive(Debug, Clone)]
pub struct Number {
    pub order_key: i64,
    pub fixed2: String,
    pub fixed4: String,
}

impl Number {
    /// A field-for-field copy of the reading.
    pub fn copy(&self) -> (res: Number)
        ensures
            res == *self,
    {
        Number { order_key: self.order_key, fixed2: self.fixed2.clone(), fixed4: self.fixed4.clone() }
    }
}

/// A copy of an optional reading.
pub fn copy_number(n: &Option<Number>) -> (res: Option<Number>)
    ensures
        res == *n,
{
    match n {
        Some(v) => Some(v.copy()),
        None => None,
    }
}

/// A quote of a fund, as stored after a fetch. `estimated_deviation` is the deviation of the
/// estimated from the unit net asset value, in percent.
#[derive(Debug, Clone)]
pub struct FundQuote {
    pub id: i64,
    pub fund_id: i64,
    pub unit_nav: Option<Number>,
    pub estimated_nav: Option<Number>,
    pub change_rate: Option<Number>,
    pub estimated_deviation: Option<Number>,
    pub fetched_at: i128,
    pub source: String,
    pub created_at: i128,
}

impl FundQuote {
    /// The deviation is known exactly when both values are and the unit value is not zero.
    pub open spec fn wf(&self) -> bool {
        self.estimated_deviation is Some <==> (self.unit_nav is Some && self.estimated_nav is Some
            && self.unit_nav.unwrap().order_key != 0)
    }
}

/// A quote to store after a fetch: the latest unit net value and its date, the confirmed
/// change rate, the estimate (value, rate, time), the change rate shown, when and from where.
#[derive(Debug, Clone)]
pub struct NewFundQuote {
    pub fund_id: i64,
    pub unit_nav: Option<Number>,
    pub nav_date: Option<i128>,
    pub confirmed_change_rate: Option<Number>,
    pub estimated_nav: Option<Number>,
    pub estimated_change_rate: Option<Number>,
    pub estimated_at: Option<i128>,
    pub change_rate: Option<Number>,
    pub fetched_at: i128,
    pub source: String,
}

} // verus!
