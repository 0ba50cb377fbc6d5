//! Trading: assets, positions, market data, portfolios and allocation.
use vstd::prelude::*;
use crate::asset::AssetClass;
use crate::decimal::{
    Decimal, decimal_mul, decimal_sub, mul_opt, holds, checked_mul, checked_sub, checked_add,
    sum_terms, lemma_sum_none,
};
use crate::symbol_map::{TextMap, Entries, lookup};
use crate::trading::data::Timestamp;

pub mod data;
pub mod pricing;
pub mod portfolio;
pub mod leveraged;
pub mod strategy;
pub mod allocator;

verus! {

/// The rate of a currency: its entry in `fx`, or one where it has none.
pub open spec fn rate_of(fx: Entries<Decimal>, ccy: Seq<char>) -> Decimal {
    match lookup(fx, ccy) {
        Some(r) => r,
        None => Decimal::of(1, 0),
    }
}

/// `fx.get(ccy).copied().unwrap_or(Decimal::ONE)`.
pub fn rate_for(fx: &TextMap<Decimal>, ccy: &str) -> (r: Decimal)
    ensures
        r == rate_of(fx@, ccy@),
{
    match fx.get(ccy) {
        Some(r) => *r,
        None => Decimal::one(),
    }
}

/// Each cash balance converted at its currency's rate.
pub open spec fn cash_terms(cash: Entries<Decimal>, fx: Entries<Decimal>) -> spec_fn(int) -> Option<
    Decimal,
> {
    |i: int| decimal_mul(cash[i].1, rate_of(fx, cash[i].0))
}

/// The cash balances converted at the rates in `fx` and summed.
pub open spec fn cash_value(cash: Entries<Decimal>, fx: Entries<Decimal>) -> Option<Decimal> {
    sum_terms(cash_terms(cash, fx), cash.len())
}

/// The cash converted and summed, or `None` where the arithmetic overflows.
pub fn cash_total(cash: &TextMap<Decimal>, fx: &TextMap<Decimal>) -> (r: Option<Decimal>)
    ensures
        r == cash_value(cash@, fx@),
{
    let n = cash.len();
    let mut acc = Decimal::zero();
    let mut i: usize = 0;
    while i < n
        invariant
            n == cash@.len(),
            i <= n,
            sum_terms(cash_terms(cash@, fx@), i as nat) == Some(acc),
        decreases n - i,
    {
        let rate = rate_for(fx, cash.key_at(i).as_str());
        let term = checked_mul(*cash.value_at(i), rate);
        assert(term == cash_terms(cash@, fx@)(i as int));
        match term {
            None => {
                proof {
                    lemma_sum_none(cash_terms(cash@, fx@), (i + 1) as nat, n as nat);
                }
                return None;
            },
            Some(t) => match checked_add(acc, t) {
                None => {
                    proof {
                        lemma_sum_none(cash_terms(cash@, fx@), (i + 1) as nat, n as nat);
                    }
                    return None;
                },
                Some(s) => {
                    acc = s;
                },
            },
        }
        i = i + 1;
    }
    Some(acc)
}

/// A tradable instrument.
#[derive(Clone, Debug)]
pub struct Asset {
    pub symbol: String,
    pub asset_class: AssetClass,
    pub base_currency: String,
    pub quote_currency: String,
}

/// Instruments that can be priced.
pub trait Priceable {
    fn symbol(&self) -> &str;

    fn asset_class(&self) -> &AssetClass;

    fn pip_size(&self) -> Decimal;

    fn contract_size(&self) -> Decimal;
}

/// An unleveraged holding of an asset.
#[derive(Clone, Debug)]
pub struct Position {
    pub asset: Asset,
    pub quantity: Decimal,
    pub avg_entry_price: Decimal,
    pub current_price: Decimal,
    pub opened_at: Timestamp,
}

impl Position {
    /// Quantity times current price.
    pub open spec fn market_value_spec(self) -> Option<Decimal> {
        decimal_mul(self.quantity, self.current_price)
    }

    /// Quantity times the move from the average entry price.
    pub open spec fn unrealized_pnl_spec(self) -> Option<Decimal> {
        mul_opt(Some(self.quantity), decimal_sub(self.current_price, self.avg_entry_price))
    }

    /// The market value, or `None` where the product overflows.
    pub fn checked_market_value(&self) -> (r: Option<Decimal>)
        ensures
            r == self.market_value_spec(),
    {
        checked_mul(self.quantity, self.current_price)
    }

    pub fn market_value(&self) -> (r: Decimal)
        requires
            self.market_value_spec() is Some,
        ensures
            Some(r) == self.market_value_spec(),
    {
        self.checked_market_value().unwrap()
    }

    /// The unrealized profit, or `None` where the arithmetic overflows.
    /// At the entry price the profit is zero.
    pub fn checked_unrealized_pnl(&self) -> (r: Option<Decimal>)
        ensures
            r == self.unrealized_pnl_spec(),
            self.current_price == self.avg_entry_price ==> holds(r, 0, 0),
    {
        let diff = checked_sub(self.current_price, self.avg_entry_price)?;
        checked_mul(self.quantity, diff)
    }

    pub fn unrealized_pnl(&self) -> (r: Decimal)
        requires
            self.unrealized_pnl_spec() is Some,
        ensures
            Some(r) == self.unrealized_pnl_spec(),
    {
        self.checked_unrealized_pnl().unwrap()
    }
}

} // verus!
