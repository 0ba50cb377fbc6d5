//! A snapshot of market data: prices, volatilities, correlations, rates
//! and liquidity, with the lookups that strategies make on it.
use vstd::prelude::*;
use vstd::string::*;
use crate::decimal::{
    Decimal, decimal_mul, decimal_div, value_le, value_eq, checked_mul, checked_div, le,
};
use crate::symbol_map::{TextMap, PairMap, Entries, lookup, lookup_pair, insert_entry};
use crate::text::{text_lt, str_lt, str_eq, lemma_text_lt_total};
use crate::trading::{rate_of, rate_for};
use crate::trading::data::{Timestamp, now_utc};

verus! {

/// The state of the markets, as the feeds last reported it.
#[derive(Clone, Debug)]
pub struct MarketSnapshot {
    pub timestamp: Timestamp,
    pub prices: TextMap<Decimal>,
    pub spreads: TextMap<Decimal>,
    /// Annualised historical volatility per symbol (0.25 = 25%).
    pub volatility: TextMap<Decimal>,
    /// Average true range per symbol, in price units.
    pub atr: TextMap<Decimal>,
    /// Pairwise correlations, keyed by the two symbols in sorted order.
    pub correlations: PairMap<Decimal>,
    /// Units of the base currency per unit of each foreign currency.
    pub fx_rates: TextMap<Decimal>,
    /// The reporting currency.
    pub base_currency: String,
    /// Average daily volume per symbol, in native units.
    pub avg_daily_volume: TextMap<Decimal>,
    /// Momentum score per symbol.
    pub momentum: TextMap<Decimal>,
    /// Fundamental score per symbol (equities).
    pub fundamental_scores: TextMap<Decimal>,
    pub regime: MarketRegime,
}

#[derive(Clone, Copy, Debug, PartialEq, Eq, Structural)]
pub enum MarketRegime {
    /// Low volatility, trending; equities and crypto bid.
    RiskOn,
    /// Flight to safety; carry unwinds.
    RiskOff,
    /// Elevated volatility; gross leverage to be reduced.
    HighVol,
    /// Strong directional momentum across classes.
    Trending,
    /// Mean-reverting, weak momentum signal.
    Ranging,
}

/// The key under which the correlation of `a` and `b` is stored: the two
/// symbols in sorted order.
pub open spec fn correlation_key(a: Seq<char>, b: Seq<char>) -> (Seq<char>, Seq<char>) {
    if text_lt(a, b) {
        (a, b)
    } else {
        (b, a)
    }
}

impl MarketSnapshot {
    /// The amount in the base currency: unchanged in the base currency,
    /// otherwise times the currency's rate (one where it has none).
    pub open spec fn to_base_spec(self, amount: Decimal, currency: Seq<char>) -> Option<Decimal> {
        if currency == self.base_currency@ {
            Some(amount)
        } else {
            decimal_mul(amount, rate_of(self.fx_rates@, currency))
        }
    }

    /// The correlation of two symbols, whichever order they are given in.
    pub open spec fn correlation_spec(self, a: Seq<char>, b: Seq<char>) -> Option<Decimal> {
        let key = correlation_key(a, b);
        lookup_pair(self.correlations@, key.0, key.1)
    }

    /// The volume on record for a symbol, zero where there is none.
    pub open spec fn adv_of(self, symbol: Seq<char>) -> Decimal {
        match lookup(self.avg_daily_volume@, symbol) {
            Some(v) => v,
            None => Decimal::of(0, 0),
        }
    }

    /// Whether a notional amount at `price` stays within `max_adv_pct` of the
    /// average daily volume; false where there is no volume on record.
    pub open spec fn is_liquid_spec(self, symbol: Seq<char>, notional: Decimal, price: Decimal, max_adv_pct: Decimal) -> Option<bool> {
        let adv = self.adv_of(symbol);
        if adv.mant() == 0 {
            Some(false)
        } else {
            match (decimal_div(notional, price), decimal_mul(adv, max_adv_pct)) {
                (Some(qty), Some(cap)) => Some(value_le(qty, cap)),
                _ => None,
            }
        }
    }

    /// The price of a symbol, `None` where it has none.
    pub fn price(&self, symbol: &str) -> (r: Option<Decimal>)
        ensures
            r == lookup(self.prices@, symbol@),
    {
        match self.prices.get(symbol) {
            Some(p) => Some(*p),
            None => None,
        }
    }

    /// The amount in the base currency: unchanged in the base currency,
    /// one for one in a currency without a rate, otherwise times the rate.
    pub fn checked_to_base(&self, amount: Decimal, currency: &str) -> (r: Option<Decimal>)
        ensures
            r == self.to_base_spec(amount, currency@),
            currency@ == self.base_currency@ ==> r == Some(amount),
            lookup(self.fx_rates@, currency@) is None ==> (r matches Some(x) && value_eq(x, amount)),
    {
        if str_eq(currency, self.base_currency.as_str()) {
            assert(value_eq(amount, amount));
            return Some(amount);
        }
        let rate = rate_for(&self.fx_rates, currency);
        let r = checked_mul(amount, rate);
        // the mantissa's bounds, for the one-for-one case
        let _ = amount.mantissa();
        proof {
            if lookup(self.fx_rates@, currency@) is None {
                Decimal::lemma_of(1, 0);
                assert(rate.mant() == 1 && rate.scal() == 0);
                if amount.mant() == 0 {
                    assert(r.unwrap().mant() == 0);
                } else {
                    assert(amount.mant() * rate.mant() == amount.mant());
                    assert(r.unwrap().mant() == amount.mant() && r.unwrap().scal() == amount.scal());
                }
            }
        }
        r
    }

    /// Converts an amount in `currency` to the base currency.
    pub fn to_base(&self, amount: Decimal, currency: &str) -> (r: Decimal)
        requires
            self.to_base_spec(amount, currency@) is Some,
        ensures
            Some(r) == self.to_base_spec(amount, currency@),
            currency@ == self.base_currency@ ==> r == amount,
            lookup(self.fx_rates@, currency@) is None ==> value_eq(r, amount),
    {
        self.checked_to_base(amount, currency).unwrap()
    }

    /// The correlation of `a` and `b`, looked up under the sorted pair.
    pub fn correlation(&self, a: &str, b: &str) -> (r: Option<Decimal>)
        ensures
            r == self.correlation_spec(a@, b@),
    {
        let found = if str_lt(a, b) {
            self.correlations.get(a, b)
        } else {
            self.correlations.get(b, a)
        };
        match found {
            Some(c) => Some(*c),
            None => None,
        }
    }

    pub fn checked_is_liquid(&self, symbol: &str, notional: Decimal, price: Decimal, max_adv_pct: Decimal) -> (r: Option<bool>)
        ensures
            r == self.is_liquid_spec(symbol@, notional, price, max_adv_pct),
            self.adv_of(symbol@).mant() == 0 ==> r == Some(false),
    {
        let adv = match self.avg_daily_volume.get(symbol) {
            Some(v) => *v,
            None => Decimal::zero(),
        };
        if adv.is_zero() {
            return Some(false);
        }
        let qty = checked_div(notional, price)?;
        let cap = checked_mul(adv, max_adv_pct)?;
        Some(le(qty, cap))
    }

    /// Whether a position of `notional` at `price` stays within
    /// `max_adv_pct` of the average daily volume.
    pub fn is_liquid(&self, symbol: &str, notional: Decimal, price: Decimal, max_adv_pct: Decimal) -> (r: bool)
        requires
            self.is_liquid_spec(symbol@, notional, price, max_adv_pct) is Some,
        ensures
            Some(r) == self.is_liquid_spec(symbol@, notional, price, max_adv_pct),
    {
        self.checked_is_liquid(symbol, notional, price, max_adv_pct).unwrap()
    }

    /// A price update from a feed: the price is stored and the snapshot
    /// stamped with the time of the update; nothing else changes.
    pub fn record_price(&mut self, symbol: String, price: Decimal, now: Timestamp)
        ensures
            final(self).prices@ == insert_entry(old(self).prices@, symbol@, price),
            *final(self) == (MarketSnapshot { prices: final(self).prices, timestamp: now, ..*old(self) }),
    {
        self.prices.insert(symbol, price);
        self.timestamp = now;
    }

    /// A price update from a feed, stamped with the current time, which is
    /// returned; where the clock cannot be read (it reads before the Unix
    /// epoch) the price is stored and the stamp kept.  Nothing else changes.
    pub fn update_price(&mut self, symbol: String, price: Decimal) -> (now: Option<Timestamp>)
        ensures
            final(self).prices@ == insert_entry(old(self).prices@, symbol@, price),
            now matches Some(t) ==> *final(self) == (MarketSnapshot {
                prices: final(self).prices,
                timestamp: t,
                ..*old(self)
            }),
            now is None ==> *final(self) == (MarketSnapshot { prices: final(self).prices, ..*old(self) }),
    {
        let now = now_utc();
        match now {
            Some(t) => self.record_price(symbol, price, t),
            None => self.prices.insert(symbol, price),
        }
        now
    }

    /// A volatility update from a feed; nothing else changes.
    pub fn update_volatility(&mut self, symbol: String, vol: Decimal)
        ensures
            final(self).volatility@ == insert_entry(old(self).volatility@, symbol@, vol),
            *final(self) == (MarketSnapshot { volatility: final(self).volatility, ..*old(self) }),
    {
        self.volatility.insert(symbol, vol);
    }

    /// An exchange-rate update from a feed; nothing else changes.
    pub fn update_fx_rate(&mut self, currency: String, rate: Decimal)
        ensures
            final(self).fx_rates@ == insert_entry(old(self).fx_rates@, currency@, rate),
            *final(self) == (MarketSnapshot { fx_rates: final(self).fx_rates, ..*old(self) }),
    {
        self.fx_rates.insert(currency, rate);
    }
}

/// The correlation of two symbols does not depend on the order in which
/// they are asked for.
pub proof fn lemma_correlation_symmetric(snapshot: MarketSnapshot, a: Seq<char>, b: Seq<char>)
    ensures
        snapshot.correlation_spec(a, b) == snapshot.correlation_spec(b, a),
{
    lemma_text_lt_total(a, b);
    assert(correlation_key(a, b) == correlation_key(b, a));
}

} // verus!
