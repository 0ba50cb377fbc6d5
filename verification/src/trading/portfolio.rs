//! An unleveraged portfolio: cash per currency and positions per symbol.
use vstd::prelude::*;
use vstd::string::*;
use crate::decimal::{
    Decimal, decimal_mul, add_opt, mul_opt, div_opt, sum_terms, lemma_sum_none, lemma_sum_agree, value_eq, checked_add,
    checked_mul, checked_div,
};
use crate::symbol_map::{TextMap, Entries, has_key, distinct_keys, insert_entry};
use crate::trading::{Position, rate_of, rate_for, cash_value, cash_total};

verus! {

pub struct Portfolio {
    pub cash: TextMap<Decimal>,
    pub positions: TextMap<Position>,
    pub base_currency: String,
}

/// Each position's market value converted at its base currency's rate.
pub open spec fn position_value_terms(ps: Entries<Position>, fx: Entries<Decimal>) -> spec_fn(int) -> Option<Decimal> {
    |i: int| mul_opt(ps[i].1.market_value_spec(), Some(rate_of(fx, ps[i].1.asset.base_currency@)))
}

/// The weights of the first `n` positions: converted value over `total`.
pub open spec fn weights_prefix(ps: Entries<Position>, fx: Entries<Decimal>, total: Decimal, n: nat) -> Option<Entries<Decimal>>
    decreases n,
{
    if n == 0 {
        Some(Seq::empty())
    } else {
        match weights_prefix(ps, fx, total, (n - 1) as nat) {
            None => None,
            Some(prev) => match div_opt(position_value_terms(ps, fx)(n - 1), Some(total)) {
                None => None,
                Some(w) => Some(prev.push((ps[n - 1].0, w))),
            },
        }
    }
}

proof fn lemma_weights_none(ps: Entries<Position>, fx: Entries<Decimal>, total: Decimal, i: nat, n: nat)
    requires
        i <= n,
        weights_prefix(ps, fx, total, i) is None,
    ensures
        weights_prefix(ps, fx, total, n) is None,
    decreases n - i,
{
    if i < n {
        lemma_weights_none(ps, fx, total, i, (n - 1) as nat);
    }
}

proof fn lemma_weights_keys(ps: Entries<Position>, fx: Entries<Decimal>, total: Decimal, n: nat)
    requires
        n <= ps.len(),
        weights_prefix(ps, fx, total, n) is Some,
    ensures
        weights_prefix(ps, fx, total, n).unwrap().len() == n,
        forall|k: int|
            0 <= k < n ==> #[trigger] weights_prefix(ps, fx, total, n).unwrap()[k].0 == ps[k].0,
    decreases n,
{
    if n > 0 {
        lemma_weights_keys(ps, fx, total, (n - 1) as nat);
    }
}

impl Portfolio {
    /// Cash and positions converted at `fx` and summed.
    pub open spec fn total_equity_spec(self, fx: Entries<Decimal>) -> Option<Decimal> {
        add_opt(
            cash_value(self.cash@, fx),
            sum_terms(position_value_terms(self.positions@, fx), self.positions@.len()),
        )
    }

    /// Each position's converted value over the total equity, per symbol.
    pub open spec fn weights_spec(self, fx: Entries<Decimal>) -> Option<Entries<Decimal>> {
        match self.total_equity_spec(fx) {
            None => None,
            Some(total) => weights_prefix(self.positions@, fx, total, self.positions@.len()),
        }
    }

    /// A portfolio holding `initial_cash` in its base currency and nothing else.
    pub fn new(base_currency: &str, initial_cash: Decimal) -> (r: Self)
        ensures
            r.cash@ == seq![(base_currency@, initial_cash)],
            r.positions@.len() == 0,
            r.base_currency@ == base_currency@,
    {
        let mut cash = TextMap::new();
        cash.insert(String::from_str(base_currency), initial_cash);
        assert(cash@ =~= seq![(base_currency@, initial_cash)]);
        Portfolio { cash, positions: TextMap::new(), base_currency: String::from_str(base_currency) }
    }

    fn position_total(&self, fx: &TextMap<Decimal>) -> (r: Option<Decimal>)
        ensures
            r == sum_terms(position_value_terms(self.positions@, fx@), self.positions@.len()),
    {
        let n = self.positions.len();
        let mut acc = Decimal::zero();
        let mut i: usize = 0;
        while i < n
            invariant
                n == self.positions@.len(),
                i <= n,
                sum_terms(position_value_terms(self.positions@, fx@), i as nat) == Some(acc),
            decreases n - i,
        {
            let p = self.positions.value_at(i);
            let rate = rate_for(fx, p.asset.base_currency.as_str());
            let term = match p.checked_market_value() {
                Some(v) => checked_mul(v, rate),
                None => None,
            };
            assert(term == position_value_terms(self.positions@, fx@)(i as int));
            match term {
                None => {
                    proof {
                        lemma_sum_none(
                            position_value_terms(self.positions@, fx@),
                            (i + 1) as nat,
                            n as nat,
                        );
                    }
                    return None;
                },
                Some(t) => match checked_add(acc, t) {
                    None => {
                        proof {
                            lemma_sum_none(
                                position_value_terms(self.positions@, fx@),
                                (i + 1) as nat,
                                n as nat,
                            );
                        }
                        return None;
                    },
                    Some(s) => {
                        acc = s;
                    },
                },
            }
            i = i + 1;
        }
        Some(acc)
    }

    /// The total equity; without positions it is the converted cash.
    pub fn checked_total_equity(&self, fx: &TextMap<Decimal>) -> (r: Option<Decimal>)
        ensures
            r == self.total_equity_spec(fx@),
            self.positions@.len() == 0 && cash_value(self.cash@, fx@) is Some ==> (r matches Some(
                e,
            ) && value_eq(e, cash_value(self.cash@, fx@).unwrap())),
    {
        let cash = cash_total(&self.cash, fx)?;
        let positions = self.position_total(fx)?;
        let r = checked_add(cash, positions);
        proof {
            if self.positions@.len() == 0 {
                Decimal::lemma_of(0, 0);
                assert(positions.mant() == 0 && positions.scal() == 0);
                let e = r.unwrap();
                if cash.mant() == 0 {
                    assert(e.mant() == 0);
                    assert(e.mant() * crate::decimal::pow10(cash.scal()) == 0);
                    assert(cash.mant() * crate::decimal::pow10(e.scal()) == 0);
                }
            }
        }
        r
    }

    /// Cash and positions, each converted at `fx` (one where a currency has
    /// no rate), summed.
    pub fn total_equity(&self, fx: &TextMap<Decimal>) -> (r: Decimal)
        requires
            self.total_equity_spec(fx@) is Some,
        ensures
            Some(r) == self.total_equity_spec(fx@),
    {
        self.checked_total_equity(fx).unwrap()
    }

    pub fn checked_weights(&self, fx: &TextMap<Decimal>) -> (r: Option<TextMap<Decimal>>)
        ensures
            match r {
                Some(m) => self.weights_spec(fx@) == Some(m@),
                None => self.weights_spec(fx@) is None,
            },
    {
        let total = self.checked_total_equity(fx)?;
        self.positions.keys_are_distinct();
        let n = self.positions.len();
        let mut w: TextMap<Decimal> = TextMap::new();
        let mut i: usize = 0;
        while i < n
            invariant
                n == self.positions@.len(),
                distinct_keys(self.positions@),
                self.total_equity_spec(fx@) == Some(total),
                i <= n,
                weights_prefix(self.positions@, fx@, total, i as nat) == Some(w@),
            decreases n - i,
        {
            let sym = self.positions.key_at(i);
            let p = self.positions.value_at(i);
            let rate = rate_for(fx, p.asset.base_currency.as_str());
            let term = match p.checked_market_value() {
                Some(v) => checked_mul(v, rate),
                None => None,
            };
            assert(term == position_value_terms(self.positions@, fx@)(i as int));
            let weight = match term {
                Some(t) => checked_div(t, total),
                None => None,
            };
            match weight {
                None => {
                    proof {
                        lemma_weights_none(self.positions@, fx@, total, (i + 1) as nat, n as nat);
                    }
                    return None;
                },
                Some(x) => {
                    proof {
                        lemma_weights_keys(self.positions@, fx@, total, i as nat);
                        assert(!has_key(w@, sym@)) by {
                            if has_key(w@, sym@) {
                                let k = choose|k: int| 0 <= k < w@.len() && w@[k].0 == sym@;
                                assert(w@[k].0 == self.positions@[k].0);
                            }
                        }
                    }
                    let ghost before = w@;
                    w.insert(sym.clone(), x);
                    assert(w@ == before.push((self.positions@[i as int].0, x)));
                },
            }
            i = i + 1;
        }
        Some(w)
    }

    /// Each position's share of the total equity, per symbol.
    pub fn weights(&self, fx: &TextMap<Decimal>) -> (r: TextMap<Decimal>)
        requires
            self.weights_spec(fx@) is Some,
        ensures
            self.weights_spec(fx@) == Some(r@),
    {
        self.checked_weights(fx).unwrap()
    }
}

/// The weight of the `k`-th position: its market value (quantity times
/// current price) converted at its base currency's rate, over the total.
pub open spec fn converted_weight(p: Position, fx: Entries<Decimal>, total: Decimal) -> Option<Decimal> {
    div_opt(
        mul_opt(decimal_mul(p.quantity, p.current_price), Some(rate_of(fx, p.asset.base_currency@))),
        Some(total),
    )
}

proof fn lemma_weights_prefix_values(ps: Entries<Position>, fx: Entries<Decimal>, total: Decimal, n: nat)
    requires
        n <= ps.len(),
    ensures
        weights_prefix(ps, fx, total, n) matches Some(w) ==> {
            &&& w.len() == n
            &&& forall|k: int|
                0 <= k < n ==> (#[trigger] w[k]).0 == ps[k].0 && Some(w[k].1) == converted_weight(
                    ps[k].1,
                    fx,
                    total,
                )
        },
        weights_prefix(ps, fx, total, n) is Some <==> forall|k: int|
            0 <= k < n ==> (#[trigger] converted_weight(ps[k].1, fx, total)) is Some,
    decreases n,
{
    if n > 0 {
        lemma_weights_prefix_values(ps, fx, total, (n - 1) as nat);
        if weights_prefix(ps, fx, total, n) is None {
            if weights_prefix(ps, fx, total, (n - 1) as nat) is Some {
                assert(converted_weight(ps[n - 1].1, fx, total) is None);
            }
        }
    }
}

/// Each position's weight is its market value, converted at the rate of
/// its base currency, over the portfolio's total equity, which is the
/// converted cash plus the sum of those same converted values; one weight
/// per position in position order; the weights exist exactly where the
/// total does and every such converted value over it does.
pub proof fn lemma_weights_are_converted_values_over_total(p: Portfolio, fx: Entries<Decimal>)
    ensures
        p.total_equity_spec(fx) == add_opt(
            cash_value(p.cash@, fx),
            sum_terms(
                |k: int|
                    mul_opt(
                        decimal_mul(p.positions@[k].1.quantity, p.positions@[k].1.current_price),
                        Some(rate_of(fx, p.positions@[k].1.asset.base_currency@)),
                    ),
                p.positions@.len(),
            ),
        ),
        p.weights_spec(fx) is Some <==> (p.total_equity_spec(fx) matches Some(t) && forall|k: int|
            0 <= k < p.positions@.len() ==> (#[trigger] converted_weight(p.positions@[k].1, fx, t))
                is Some),
        p.weights_spec(fx) matches Some(w) ==> {
            &&& p.total_equity_spec(fx) is Some
            &&& w.len() == p.positions@.len()
            &&& forall|k: int|
                0 <= k < w.len() ==> (#[trigger] w[k]).0 == p.positions@[k].0 && Some(w[k].1)
                    == converted_weight(p.positions@[k].1, fx, p.total_equity_spec(fx).unwrap())
        },
{
    let ps = p.positions@;
    let f = |k: int|
        mul_opt(
            decimal_mul(ps[k].1.quantity, ps[k].1.current_price),
            Some(rate_of(fx, ps[k].1.asset.base_currency@)),
        );
    assert forall|k: int| 0 <= k < ps.len() implies #[trigger] position_value_terms(ps, fx)(k) == f(k) by {}
    lemma_sum_agree(position_value_terms(ps, fx), f, ps.len());
    if let Some(total) = p.total_equity_spec(fx) {
        lemma_weights_prefix_values(ps, fx, total, ps.len());
    }
}

} // verus!
