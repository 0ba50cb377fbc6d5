//! Leveraged positions, leverage policies, leveraged portfolios and the
//! margin engine that scans them.
use vstd::prelude::*;
use vstd::string::*;
use crate::asset::AssetClass;
use crate::decimal::{
    Decimal, abs_of, lemma_sum_agree, decimal_add, decimal_sub, decimal_mul, decimal_div, decimal_text_fixed4, add_opt,
    sub_opt, mul_opt, div_opt, max_spec, sum_terms, lemma_sum_none, holds, value_lt, value_le,
    value_eq, checked_add, checked_sub, checked_mul, checked_div, lt, le, max, to_text_fixed4,
};
use crate::symbol_map::{TextMap, Entries, lookup, insert_entry};
use crate::trading::{Asset, rate_of, rate_for, cash_value, cash_total};

verus! {

#[derive(Clone, Copy, Debug, PartialEq, Eq, Structural)]
pub enum Direction {
    Long,
    Short,
}

/// A position opened with borrowed funds.
#[derive(Clone, Debug)]
pub struct LeveragedPosition {
    pub asset: Asset,
    pub direction: Direction,
    pub margin_posted: Decimal,
    pub leverage_ratio: Decimal,
    pub notional_value: Decimal,
    pub entry_price: Decimal,
    pub current_price: Decimal,
    pub liquidation_price: Decimal,
    pub maintenance_margin_rate: Decimal,
}

/// The liquidation level of a position: the entry price times
/// `1 - leverage + mmr` for a long, `1 + leverage - mmr` for a short.
pub open spec fn liquidation_price_spec(dir: Direction, entry: Decimal, leverage_ratio: Decimal, mmr: Decimal) -> Option<Decimal> {
    match dir {
        Direction::Long => mul_opt(
            Some(entry),
            add_opt(decimal_sub(Decimal::of(1, 0), leverage_ratio), Some(mmr)),
        ),
        Direction::Short => mul_opt(
            Some(entry),
            sub_opt(decimal_add(Decimal::of(1, 0), leverage_ratio), Some(mmr)),
        ),
    }
}

/// The liquidation level, or `None` where the arithmetic overflows.
fn compute_liquidation_price(dir: &Direction, entry: Decimal, leverage_ratio: Decimal, mmr: Decimal) -> (r: Option<Decimal>)
    ensures
        r == liquidation_price_spec(*dir, entry, leverage_ratio, mmr),
{
    let one = Decimal::one();
    match dir {
        Direction::Long => {
            let a = checked_sub(one, leverage_ratio)?;
            let b = checked_add(a, mmr)?;
            checked_mul(entry, b)
        },
        Direction::Short => {
            let a = checked_add(one, leverage_ratio)?;
            let b = checked_sub(a, mmr)?;
            checked_mul(entry, b)
        },
    }
}

/// The maintenance margin rate of an asset class: 25% for equities, 2% for
/// forex, 5% for crypto.
pub open spec fn maintenance_margin_rate_for(class: AssetClass) -> Decimal {
    match class {
        AssetClass::Equity => Decimal::of(25, 2),
        AssetClass::Forex => Decimal::of(2, 2),
        AssetClass::Crypto => Decimal::of(5, 2),
    }
}

fn asset_maintenance_margin_rate(class: &AssetClass) -> (r: Decimal)
    ensures
        r == maintenance_margin_rate_for(*class),
{
    match class {
        AssetClass::Equity => Decimal::new(25, 2),
        AssetClass::Forex => Decimal::new(2, 2),
        AssetClass::Crypto => Decimal::new(5, 2),
    }
}

impl LeveragedPosition {
    /// The arithmetic that opening a position does succeeds.
    pub open spec fn can_open(asset: Asset, direction: Direction, margin_posted: Decimal, leverage_ratio: Decimal, entry_price: Decimal) -> bool {
        &&& decimal_div(margin_posted, leverage_ratio) is Some
        &&& liquidation_price_spec(
            direction,
            entry_price,
            leverage_ratio,
            maintenance_margin_rate_for(asset.asset_class),
        ) is Some
    }

    /// `self` is the position opened with these arguments: the notional is
    /// the margin over the leverage ratio, the price starts at the entry
    /// price, and the liquidation level and margin rate follow the class.
    pub open spec fn opened_with(self, asset: Asset, direction: Direction, margin_posted: Decimal, leverage_ratio: Decimal, entry_price: Decimal) -> bool {
        &&& self.asset == asset
        &&& self.direction == direction
        &&& self.margin_posted == margin_posted
        &&& self.leverage_ratio == leverage_ratio
        &&& Some(self.notional_value) == decimal_div(margin_posted, leverage_ratio)
        &&& self.entry_price == entry_price
        &&& self.current_price == entry_price
        &&& self.maintenance_margin_rate == maintenance_margin_rate_for(asset.asset_class)
        &&& Some(self.liquidation_price) == liquidation_price_spec(
            direction,
            entry_price,
            leverage_ratio,
            maintenance_margin_rate_for(asset.asset_class),
        )
    }

    /// Opens a position, or gives `None` where its arithmetic fails.
    pub fn checked_new(asset: Asset, direction: Direction, margin_posted: Decimal, leverage_ratio: Decimal, entry_price: Decimal) -> (r: Option<Self>)
        ensures
            r is Some <==> LeveragedPosition::can_open(
                asset,
                direction,
                margin_posted,
                leverage_ratio,
                entry_price,
            ),
            r matches Some(p) ==> p.opened_with(
                asset,
                direction,
                margin_posted,
                leverage_ratio,
                entry_price,
            ),
    {
        let notional = checked_div(margin_posted, leverage_ratio)?;
        let mmr = asset_maintenance_margin_rate(&asset.asset_class);
        let liq_price = compute_liquidation_price(&direction, entry_price, leverage_ratio, mmr)?;
        Some(
            LeveragedPosition {
                asset,
                direction,
                margin_posted,
                leverage_ratio,
                notional_value: notional,
                entry_price,
                current_price: entry_price,
                liquidation_price: liq_price,
                maintenance_margin_rate: mmr,
            },
        )
    }

    pub fn new(asset: Asset, direction: Direction, margin_posted: Decimal, leverage_ratio: Decimal, entry_price: Decimal) -> (r: Self)
        requires
            LeveragedPosition::can_open(
                asset,
                direction,
                margin_posted,
                leverage_ratio,
                entry_price,
            ),
        ensures
            r.opened_with(asset, direction, margin_posted, leverage_ratio, entry_price),
    {
        LeveragedPosition::checked_new(
            asset,
            direction,
            margin_posted,
            leverage_ratio,
            entry_price,
        ).unwrap()
    }

    /// Notional over entry price.
    pub open spec fn quantity_spec(self) -> Option<Decimal> {
        decimal_div(self.notional_value, self.entry_price)
    }

    /// Quantity times the price move in the position's direction.
    pub open spec fn pnl_spec(self) -> Option<Decimal> {
        match self.direction {
            Direction::Long => mul_opt(
                self.quantity_spec(),
                decimal_sub(self.current_price, self.entry_price),
            ),
            Direction::Short => mul_opt(
                self.quantity_spec(),
                decimal_sub(self.entry_price, self.current_price),
            ),
        }
    }

    /// Margin posted plus unrealized profit.
    pub open spec fn equity_spec(self) -> Option<Decimal> {
        add_opt(Some(self.margin_posted), self.pnl_spec())
    }

    /// Equity over notional.
    pub open spec fn margin_ratio_spec(self) -> Option<Decimal> {
        div_opt(self.equity_spec(), Some(self.notional_value))
    }

    /// The margin ratio is below the maintenance rate.
    pub open spec fn margin_call_spec(self) -> Option<bool> {
        match self.margin_ratio_spec() {
            Some(m) => Some(value_lt(m, self.maintenance_margin_rate)),
            None => None,
        }
    }

    /// Notional over equity, the equity floored at 0.001.
    pub open spec fn effective_leverage_spec(self) -> Option<Decimal> {
        match self.equity_spec() {
            Some(e) => decimal_div(self.notional_value, max_spec(e, Decimal::of(1, 3))),
            None => None,
        }
    }

    pub fn checked_quantity(&self) -> (r: Option<Decimal>)
        ensures
            r == self.quantity_spec(),
    {
        checked_div(self.notional_value, self.entry_price)
    }

    pub fn quantity(&self) -> (r: Decimal)
        requires
            self.quantity_spec() is Some,
        ensures
            Some(r) == self.quantity_spec(),
    {
        self.checked_quantity().unwrap()
    }

    /// The unrealized profit; at the entry price it is zero.
    pub fn checked_unrealized_pnl(&self) -> (r: Option<Decimal>)
        ensures
            r == self.pnl_spec(),
            self.current_price == self.entry_price && self.quantity_spec() is Some ==> holds(
                r,
                0,
                0,
            ),
    {
        let qty = self.checked_quantity()?;
        match self.direction {
            Direction::Long => {
                let d = checked_sub(self.current_price, self.entry_price)?;
                checked_mul(qty, d)
            },
            Direction::Short => {
                let d = checked_sub(self.entry_price, self.current_price)?;
                checked_mul(qty, d)
            },
        }
    }

    pub fn unrealized_pnl(&self) -> (r: Decimal)
        requires
            self.pnl_spec() is Some,
        ensures
            Some(r) == self.pnl_spec(),
    {
        self.checked_unrealized_pnl().unwrap()
    }

    /// The current equity; at the entry price it equals the margin posted.
    pub fn checked_current_equity(&self) -> (r: Option<Decimal>)
        ensures
            r == self.equity_spec(),
            self.current_price == self.entry_price && self.quantity_spec() is Some ==> (r matches Some(
                e,
            ) && value_eq(e, self.margin_posted)),
    {
        let pnl = self.checked_unrealized_pnl()?;
        let r = checked_add(self.margin_posted, pnl);
        proof {
            if self.current_price == self.entry_price && self.quantity_spec() is Some {
                let e = r.unwrap();
                if self.margin_posted.mant() == 0 {
                    assert(e.mant() == 0);
                    assert(e.mant() * crate::decimal::pow10(self.margin_posted.scal()) == 0);
                    assert(self.margin_posted.mant() * crate::decimal::pow10(e.scal()) == 0);
                }
            }
        }
        r
    }

    pub fn current_equity(&self) -> (r: Decimal)
        requires
            self.equity_spec() is Some,
        ensures
            Some(r) == self.equity_spec(),
    {
        self.checked_current_equity().unwrap()
    }

    pub fn checked_margin_ratio(&self) -> (r: Option<Decimal>)
        ensures
            r == self.margin_ratio_spec(),
    {
        let equity = self.checked_current_equity()?;
        checked_div(equity, self.notional_value)
    }

    pub fn margin_ratio(&self) -> (r: Decimal)
        requires
            self.margin_ratio_spec() is Some,
        ensures
            Some(r) == self.margin_ratio_spec(),
    {
        self.checked_margin_ratio().unwrap()
    }

    pub fn checked_is_margin_call(&self) -> (r: Option<bool>)
        ensures
            r == self.margin_call_spec(),
    {
        let ratio = self.checked_margin_ratio()?;
        Some(lt(ratio, self.maintenance_margin_rate))
    }

    pub fn is_margin_call(&self) -> (r: bool)
        requires
            self.margin_call_spec() is Some,
        ensures
            Some(r) == self.margin_call_spec(),
    {
        self.checked_is_margin_call().unwrap()
    }

    pub fn checked_effective_leverage(&self) -> (r: Option<Decimal>)
        ensures
            r == self.effective_leverage_spec(),
    {
        let equity = self.checked_current_equity()?;
        let floor = Decimal::new(1, 3);
        checked_div(self.notional_value, max(equity, floor))
    }

    /// The leverage the position carries at its current price.
    pub fn effective_leverage(&self) -> (r: Decimal)
        requires
            self.effective_leverage_spec() is Some,
        ensures
            Some(r) == self.effective_leverage_spec(),
    {
        self.checked_effective_leverage().unwrap()
    }
}

/// Effective leverage is the notional over the position's current equity,
/// the margin posted plus the unrealized profit at the current price,
/// floored at 0.001; the margin ratio is that same equity over the notional.
pub proof fn lemma_effective_leverage_over_current_equity(p: LeveragedPosition)
    ensures
        p.effective_leverage_spec() == match add_opt(Some(p.margin_posted), p.pnl_spec()) {
            Some(e) => decimal_div(p.notional_value, max_spec(e, Decimal::of(1, 3))),
            None => None,
        },
        p.margin_ratio_spec() == match add_opt(Some(p.margin_posted), p.pnl_spec()) {
            Some(e) => decimal_div(e, p.notional_value),
            None => None,
        },
{
}

/// Two positions of the same notional whose current equity (margin posted
/// plus unrealized profit) is the same carry the same effective leverage,
/// however much margin each posted.
pub proof fn lemma_effective_leverage_follows_equity(p: LeveragedPosition, q: LeveragedPosition)
    requires
        p.notional_value == q.notional_value,
        add_opt(Some(p.margin_posted), p.pnl_spec()) == add_opt(Some(q.margin_posted), q.pnl_spec()),
    ensures
        p.effective_leverage_spec() == q.effective_leverage_spec(),
{
}

/// Limits that a venue puts on leverage.
#[derive(Clone, Debug)]
pub struct LeveragePolicy {
    pub max_leverage: Decimal,
    pub leverage_ratio: Decimal,
    pub maintenance_margin_rate: Decimal,
    pub lot_size: Decimal,
}

impl LeveragePolicy {
    /// Equities: 4x, a quarter of the notional as margin, 25% maintenance, lots of one.
    pub fn for_equity() -> (r: Self)
        ensures
            r.max_leverage == Decimal::of(4, 0),
            r.leverage_ratio == Decimal::of(25, 2),
            r.maintenance_margin_rate == Decimal::of(25, 2),
            r.lot_size == Decimal::of(1, 0),
    {
        LeveragePolicy {
            max_leverage: Decimal::new(4, 0),
            leverage_ratio: Decimal::new(25, 2),
            maintenance_margin_rate: Decimal::new(25, 2),
            lot_size: Decimal::new(1, 0),
        }
    }

    /// Forex at `max_lev`, or `None` where `1 / max_lev` fails.
    pub fn checked_for_forex(max_lev: Decimal) -> (r: Option<Self>)
        ensures
            r is Some <==> decimal_div(Decimal::of(1, 0), max_lev) is Some,
            r matches Some(p) ==> p.max_leverage == max_lev && Some(p.leverage_ratio)
                == decimal_div(Decimal::of(1, 0), max_lev) && p.maintenance_margin_rate
                == Decimal::of(2, 2) && p.lot_size == Decimal::of(100_000, 0),
    {
        let ratio = checked_div(Decimal::one(), max_lev)?;
        Some(
            LeveragePolicy {
                max_leverage: max_lev,
                leverage_ratio: ratio,
                maintenance_margin_rate: Decimal::new(2, 2),
                lot_size: Decimal::new(100_000, 0),
            },
        )
    }

    /// Forex: leverage up to `max_lev`, margin ratio `1 / max_lev`, 2%
    /// maintenance, standard lots of 100 000.
    pub fn for_forex(max_lev: Decimal) -> (r: Self)
        requires
            decimal_div(Decimal::of(1, 0), max_lev) is Some,
        ensures
            r.max_leverage == max_lev,
            Some(r.leverage_ratio) == decimal_div(Decimal::of(1, 0), max_lev),
            r.maintenance_margin_rate == Decimal::of(2, 2),
            r.lot_size == Decimal::of(100_000, 0),
    {
        LeveragePolicy::checked_for_forex(max_lev).unwrap()
    }

    /// Crypto at `max_lev`, or `None` where `1 / max_lev` fails.
    pub fn checked_for_crypto(max_lev: Decimal, lot_size: Decimal) -> (r: Option<Self>)
        ensures
            r is Some <==> decimal_div(Decimal::of(1, 0), max_lev) is Some,
            r matches Some(p) ==> p.max_leverage == max_lev && Some(p.leverage_ratio)
                == decimal_div(Decimal::of(1, 0), max_lev) && p.maintenance_margin_rate
                == Decimal::of(5, 2) && p.lot_size == lot_size,
    {
        let ratio = checked_div(Decimal::one(), max_lev)?;
        Some(
            LeveragePolicy {
                max_leverage: max_lev,
                leverage_ratio: ratio,
                maintenance_margin_rate: Decimal::new(5, 2),
                lot_size,
            },
        )
    }

    /// Crypto: leverage up to `max_lev`, margin ratio `1 / max_lev`, 5%
    /// maintenance, the given lot size.
    pub fn for_crypto(max_lev: Decimal, lot_size: Decimal) -> (r: Self)
        requires
            decimal_div(Decimal::of(1, 0), max_lev) is Some,
        ensures
            r.max_leverage == max_lev,
            Some(r.leverage_ratio) == decimal_div(Decimal::of(1, 0), max_lev),
            r.maintenance_margin_rate == Decimal::of(5, 2),
            r.lot_size == lot_size,
    {
        LeveragePolicy::checked_for_crypto(max_lev, lot_size).unwrap()
    }

    pub fn checked_max_position_notional(&self, available_margin: Decimal) -> (r: Option<Decimal>)
        ensures
            r == decimal_div(available_margin, self.leverage_ratio),
    {
        checked_div(available_margin, self.leverage_ratio)
    }

    /// The largest notional that `available_margin` supports.
    pub fn max_position_notional(&self, available_margin: Decimal) -> (r: Decimal)
        requires
            decimal_div(available_margin, self.leverage_ratio) is Some,
        ensures
            Some(r) == decimal_div(available_margin, self.leverage_ratio),
    {
        self.checked_max_position_notional(available_margin).unwrap()
    }
}

/// Cash and leveraged positions, reported in a base currency.
pub struct LeveragedPortfolio {
    pub cash: TextMap<Decimal>,
    pub positions: TextMap<LeveragedPosition>,
    pub base_currency: String,
    pub target_gross_leverage: Decimal,
    pub max_gross_leverage: Decimal,
}

/// Each position's equity converted at its base currency's rate.
pub open spec fn equity_terms(ps: Entries<LeveragedPosition>, fx: Entries<Decimal>) -> spec_fn(int) -> Option<Decimal> {
    |i: int| mul_opt(ps[i].1.equity_spec(), Some(rate_of(fx, ps[i].1.asset.base_currency@)))
}

/// The magnitude of a result, where there is one.
pub open spec fn abs_opt(r: Option<Decimal>) -> Option<Decimal> {
    match r {
        Some(x) => Some(abs_of(x)),
        None => None,
    }
}

/// The absolute value of each position's notional converted at its base
/// currency's rate.
pub open spec fn notional_terms(ps: Entries<LeveragedPosition>, fx: Entries<Decimal>) -> spec_fn(int) -> Option<Decimal> {
    |i: int| abs_opt(decimal_mul(ps[i].1.notional_value, rate_of(fx, ps[i].1.asset.base_currency@)))
}

/// Each position's notional converted, counted negative for shorts.
pub open spec fn signed_notional_terms(ps: Entries<LeveragedPosition>, fx: Entries<Decimal>) -> spec_fn(int) -> Option<Decimal> {
    |i: int|
        match ps[i].1.direction {
            Direction::Long => decimal_mul(
                ps[i].1.notional_value,
                rate_of(fx, ps[i].1.asset.base_currency@),
            ),
            Direction::Short => decimal_mul(
                ps[i].1.notional_value.negated(),
                rate_of(fx, ps[i].1.asset.base_currency@),
            ),
        }
}

/// Notional per asset class over the first `n` positions, in order of first appearance.
pub open spec fn class_totals(ps: Entries<LeveragedPosition>, fx: Entries<Decimal>, n: nat) -> Option<Entries<Decimal>>
    decreases n,
{
    if n == 0 {
        Some(Seq::empty())
    } else {
        match class_totals(ps, fx, (n - 1) as nat) {
            None => None,
            Some(m) => {
                let p = ps[n - 1].1;
                let key = p.asset.asset_class.name();
                let cur = match lookup(m, key) {
                    Some(v) => v,
                    None => Decimal::of(0, 0),
                };
                match decimal_mul(p.notional_value, rate_of(fx, p.asset.base_currency@)) {
                    None => None,
                    Some(x) => match decimal_add(cur, x) {
                        None => None,
                        Some(t) => Some(insert_entry(m, key, t)),
                    },
                }
            },
        }
    }
}

/// The first `n` values of `m` each divided by `d`.
pub open spec fn divided(m: Entries<Decimal>, d: Decimal, n: nat) -> Option<Entries<Decimal>>
    decreases n,
{
    if n == 0 {
        Some(Seq::empty())
    } else {
        match divided(m, d, (n - 1) as nat) {
            None => None,
            Some(prev) => match decimal_div(m[n - 1].1, d) {
                None => None,
                Some(q) => Some(prev.push((m[n - 1].0, q))),
            },
        }
    }
}

proof fn lemma_divided_none(m: Entries<Decimal>, d: Decimal, i: nat, n: nat)
    requires
        i <= n,
        divided(m, d, i) is None,
    ensures
        divided(m, d, n) is None,
    decreases n - i,
{
    if i < n {
        lemma_divided_none(m, d, i, (n - 1) as nat);
    }
}

proof fn lemma_class_totals_none(ps: Entries<LeveragedPosition>, fx: Entries<Decimal>, i: nat, n: nat)
    requires
        i <= n,
        class_totals(ps, fx, i) is None,
    ensures
        class_totals(ps, fx, n) is None,
    decreases n - i,
{
    if i < n {
        lemma_class_totals_none(ps, fx, i, (n - 1) as nat);
    }
}

/// Net leverage is gross leverage when every position is long and every
/// converted notional is non-negative: no short offsets a long.
pub proof fn lemma_all_long_net_is_gross(p: LeveragedPortfolio, fx: Entries<Decimal>)
    requires
        forall|i: int| 0 <= i < p.positions@.len() ==> {
            let q = #[trigger] p.positions@[i].1;
            &&& q.direction == Direction::Long
            &&& (decimal_mul(q.notional_value, rate_of(fx, q.asset.base_currency@)) matches Some(x)
                ==> x.mant() >= 0)
        },
    ensures
        p.net_leverage_spec(fx) == p.gross_leverage_spec(fx),
{
    let ps = p.positions@;
    assert forall|i: int| 0 <= i < ps.len() implies #[trigger] signed_notional_terms(ps, fx)(i)
        == notional_terms(ps, fx)(i) by {
        let q = ps[i].1;
        assert(q.direction == Direction::Long);
        let m = decimal_mul(q.notional_value, rate_of(fx, q.asset.base_currency@));
        if m is Some {
            assert(m.unwrap().mant() >= 0);
            assert(abs_of(m.unwrap()) == m.unwrap());
        }
    }
    lemma_sum_agree(signed_notional_terms(ps, fx), notional_terms(ps, fx), ps.len());
}

/// With a positive NAV, net leverage is the sum over the positions of the
/// notional converted at the base currency's rate, a short's notional taken
/// with its sign reversed, over NAV.
pub proof fn lemma_net_leverage_reverses_shorts(p: LeveragedPortfolio, fx: Entries<Decimal>)
    requires
        p.nav_spec(fx) matches Some(nav) && !value_le(nav, Decimal::of(0, 0)),
    ensures
        p.net_leverage_spec(fx) == div_opt(
            sum_terms(
                |i: int|
                    {
                        let q = p.positions@[i].1;
                        let n = if q.direction == Direction::Short {
                            q.notional_value.negated()
                        } else {
                            q.notional_value
                        };
                        decimal_mul(n, rate_of(fx, q.asset.base_currency@))
                    },
                p.positions@.len(),
            ),
            p.nav_spec(fx),
        ),
{
    let ps = p.positions@;
    let f = |i: int|
        {
            let q = ps[i].1;
            let n = if q.direction == Direction::Short {
                q.notional_value.negated()
            } else {
                q.notional_value
            };
            decimal_mul(n, rate_of(fx, q.asset.base_currency@))
        };
    assert forall|i: int| 0 <= i < ps.len() implies #[trigger] signed_notional_terms(ps, fx)(i)
        == f(i) by {}
    lemma_sum_agree(signed_notional_terms(ps, fx), f, ps.len());
}

/// Net leverage counts a short as a long of the opposite notional: two
/// books of the same NAV whose positions match one for one, where the
/// second holds a long of the negated notional wherever the first holds a
/// short, have the same net leverage.
pub proof fn lemma_short_counts_as_negated_long(
    p: LeveragedPortfolio,
    q: LeveragedPortfolio,
    fx: Entries<Decimal>,
)
    requires
        p.nav_spec(fx) == q.nav_spec(fx),
        p.positions@.len() == q.positions@.len(),
        forall|i: int| 0 <= i < p.positions@.len() ==> {
            let a = #[trigger] p.positions@[i].1;
            let b = q.positions@[i].1;
            &&& b.asset.base_currency@ == a.asset.base_currency@
            &&& b.direction == Direction::Long
            &&& a.direction == Direction::Long ==> b.notional_value == a.notional_value
            &&& a.direction == Direction::Short ==> b.notional_value == a.notional_value.negated()
        },
    ensures
        p.net_leverage_spec(fx) == q.net_leverage_spec(fx),
{
    let ps = p.positions@;
    let qs = q.positions@;
    assert forall|i: int| 0 <= i < ps.len() implies #[trigger] signed_notional_terms(ps, fx)(i)
        == signed_notional_terms(qs, fx)(i) by {
        let a = ps[i].1;
        let b = qs[i].1;
        assert(b.asset.base_currency@ == a.asset.base_currency@);
    }
    lemma_sum_agree(signed_notional_terms(ps, fx), signed_notional_terms(qs, fx), ps.len());
}

impl LeveragedPortfolio {
    /// Cash plus position equity, all converted at the rates in `fx`.
    pub open spec fn nav_spec(self, fx: Entries<Decimal>) -> Option<Decimal> {
        add_opt(
            cash_value(self.cash@, fx),
            sum_terms(equity_terms(self.positions@, fx), self.positions@.len()),
        )
    }

    /// The sum of the absolute converted notionals over NAV; zero where NAV is not positive.
    pub open spec fn gross_leverage_spec(self, fx: Entries<Decimal>) -> Option<Decimal> {
        match self.nav_spec(fx) {
            None => None,
            Some(nav) => if value_le(nav, Decimal::of(0, 0)) {
                Some(Decimal::of(0, 0))
            } else {
                div_opt(
                    sum_terms(notional_terms(self.positions@, fx), self.positions@.len()),
                    Some(nav),
                )
            },
        }
    }

    /// Longs minus shorts over NAV; zero where NAV is not positive.
    pub open spec fn net_leverage_spec(self, fx: Entries<Decimal>) -> Option<Decimal> {
        match self.nav_spec(fx) {
            None => None,
            Some(nav) => if value_le(nav, Decimal::of(0, 0)) {
                Some(Decimal::of(0, 0))
            } else {
                div_opt(
                    sum_terms(signed_notional_terms(self.positions@, fx), self.positions@.len()),
                    Some(nav),
                )
            },
        }
    }

    /// Converted notional per asset class, each over NAV.
    pub open spec fn leverage_by_class_spec(self, fx: Entries<Decimal>) -> Option<Entries<Decimal>> {
        match self.nav_spec(fx) {
            None => None,
            Some(nav) => match class_totals(self.positions@, fx, self.positions@.len()) {
                None => None,
                Some(m) => divided(m, nav, m.len()),
            },
        }
    }

    fn position_equity_total(&self, fx: &TextMap<Decimal>) -> (r: Option<Decimal>)
        ensures
            r == sum_terms(equity_terms(self.positions@, fx@), self.positions@.len()),
    {
        let n = self.positions.len();
        let mut acc = Decimal::zero();
        let mut i: usize = 0;
        while i < n
            invariant
                n == self.positions@.len(),
                i <= n,
                sum_terms(equity_terms(self.positions@, fx@), i as nat) == Some(acc),
            decreases n - i,
        {
            let p = self.positions.value_at(i);
            let rate = rate_for(fx, p.asset.base_currency.as_str());
            let term = match p.checked_current_equity() {
                Some(e) => checked_mul(e, rate),
                None => None,
            };
            assert(term == equity_terms(self.positions@, fx@)(i as int));
            match term {
                None => {
                    proof {
                        lemma_sum_none(equity_terms(self.positions@, fx@), (i + 1) as nat, n as nat);
                    }
                    return None;
                },
                Some(t) => match checked_add(acc, t) {
                    None => {
                        proof {
                            lemma_sum_none(
                                equity_terms(self.positions@, fx@),
                                (i + 1) as nat,
                                n as nat,
                            );
                        }
                        return None;
                    },
                    Some(s) => {
                        acc = s;
                    },
                },
            }
            i = i + 1;
        }
        Some(acc)
    }

    fn notional_total(&self, fx: &TextMap<Decimal>, signed: bool) -> (r: Option<Decimal>)
        ensures
            !signed ==> (r matches Some(t) ==> t.mant() >= 0),
            !signed ==> r == sum_terms(notional_terms(self.positions@, fx@), self.positions@.len()),
            signed ==> r == sum_terms(
                signed_notional_terms(self.positions@, fx@),
                self.positions@.len(),
            ),
    {
        let ghost terms = if signed {
            signed_notional_terms(self.positions@, fx@)
        } else {
            notional_terms(self.positions@, fx@)
        };
        let n = self.positions.len();
        let mut acc = Decimal::zero();
        let mut i: usize = 0;
        while i < n
            invariant
                n == self.positions@.len(),
                i <= n,
                terms == (if signed {
                    signed_notional_terms(self.positions@, fx@)
                } else {
                    notional_terms(self.positions@, fx@)
                }),
                sum_terms(terms, i as nat) == Some(acc),
                !signed ==> acc.mant() >= 0,
            decreases n - i,
        {
            let p = self.positions.value_at(i);
            let rate = rate_for(fx, p.asset.base_currency.as_str());
            let notional = if signed && p.direction == Direction::Short {
                p.notional_value.neg()
            } else {
                p.notional_value
            };
            let product = checked_mul(notional, rate);
            let term = if signed {
                product
            } else {
                match product {
                    Some(x) => Some(x.abs()),
                    None => None,
                }
            };
            assert(term == terms(i as int));
            match term {
                None => {
                    proof {
                        lemma_sum_none(terms, (i + 1) as nat, n as nat);
                    }
                    return None;
                },
                Some(t) => match checked_add(acc, t) {
                    None => {
                        proof {
                            lemma_sum_none(terms, (i + 1) as nat, n as nat);
                        }
                        return None;
                    },
                    Some(s) => {
                        acc = s;
                    },
                },
            }
            i = i + 1;
        }
        Some(acc)
    }

    pub fn checked_nav(&self, fx: &TextMap<Decimal>) -> (r: Option<Decimal>)
        ensures
            r == self.nav_spec(fx@),
    {
        let cash = cash_total(&self.cash, fx)?;
        let equity = self.position_equity_total(fx)?;
        checked_add(cash, equity)
    }

    /// Net asset value: cash and position equity converted at `fx` (a
    /// currency without a rate counts at one) and summed.
    pub fn nav(&self, fx: &TextMap<Decimal>) -> (r: Decimal)
        requires
            self.nav_spec(fx@) is Some,
        ensures
            Some(r) == self.nav_spec(fx@),
    {
        self.checked_nav(fx).unwrap()
    }

    pub fn checked_gross_leverage(&self, fx: &TextMap<Decimal>) -> (r: Option<Decimal>)
        ensures
            r == self.gross_leverage_spec(fx@),
            self.nav_spec(fx@) matches Some(nav) && value_le(nav, Decimal::of(0, 0)) ==> holds(
                r,
                0,
                0,
            ),
            r matches Some(g) ==> g.mant() >= 0,
    {
        let nav = self.checked_nav(fx)?;
        let zero = Decimal::zero();
        if le(nav, zero) {
            return Some(zero);
        }
        let total = self.notional_total(fx, false)?;
        checked_div(total, nav)
    }

    /// Gross leverage: the sum of the absolute converted notionals over
    /// NAV, zero where NAV is not positive; never negative.
    pub fn gross_leverage(&self, fx: &TextMap<Decimal>) -> (r: Decimal)
        requires
            self.gross_leverage_spec(fx@) is Some,
        ensures
            Some(r) == self.gross_leverage_spec(fx@),
            r.mant() >= 0,
    {
        self.checked_gross_leverage(fx).unwrap()
    }

    pub fn checked_net_leverage(&self, fx: &TextMap<Decimal>) -> (r: Option<Decimal>)
        ensures
            r == self.net_leverage_spec(fx@),
            self.nav_spec(fx@) matches Some(nav) && value_le(nav, Decimal::of(0, 0)) ==> holds(
                r,
                0,
                0,
            ),
    {
        let nav = self.checked_nav(fx)?;
        let zero = Decimal::zero();
        if le(nav, zero) {
            return Some(zero);
        }
        let total = self.notional_total(fx, true)?;
        checked_div(total, nav)
    }

    /// Net leverage: longs minus shorts over NAV, zero where NAV is not positive.
    pub fn net_leverage(&self, fx: &TextMap<Decimal>) -> (r: Decimal)
        requires
            self.net_leverage_spec(fx@) is Some,
        ensures
            Some(r) == self.net_leverage_spec(fx@),
    {
        self.checked_net_leverage(fx).unwrap()
    }

    fn class_notionals(&self, fx: &TextMap<Decimal>) -> (r: Option<TextMap<Decimal>>)
        ensures
            match r {
                Some(m) => class_totals(self.positions@, fx@, self.positions@.len()) == Some(
                    m@,
                ),
                None => class_totals(self.positions@, fx@, self.positions@.len()) is None,
            },
    {
        let n = self.positions.len();
        let mut by_class: TextMap<Decimal> = TextMap::new();
        let mut i: usize = 0;
        while i < n
            invariant
                n == self.positions@.len(),
                i <= n,
                class_totals(self.positions@, fx@, i as nat) == Some(by_class@),
            decreases n - i,
        {
            let p = self.positions.value_at(i);
            let key = p.asset.asset_class.to_string();
            let rate = rate_for(fx, p.asset.base_currency.as_str());
            let cur = match by_class.get(key.as_str()) {
                Some(v) => *v,
                None => Decimal::zero(),
            };
            let step = match checked_mul(p.notional_value, rate) {
                Some(x) => checked_add(cur, x),
                None => None,
            };
            match step {
                None => {
                    proof {
                        lemma_class_totals_none(self.positions@, fx@, (i + 1) as nat, n as nat);
                    }
                    return None;
                },
                Some(t) => {
                    by_class.insert(key, t);
                },
            }
            i = i + 1;
        }
        Some(by_class)
    }

    pub fn checked_leverage_by_class(&self, fx: &TextMap<Decimal>) -> (r: Option<TextMap<Decimal>>)
        ensures
            match r {
                Some(m) => self.leverage_by_class_spec(fx@) == Some(m@),
                None => self.leverage_by_class_spec(fx@) is None,
            },
    {
        let nav = self.checked_nav(fx)?;
        let mut by_class = self.class_notionals(fx)?;
        let ghost totals = by_class@;
        let n = by_class.len();
        let mut i: usize = 0;
        while i < n
            invariant
                n == totals.len(),
                self.nav_spec(fx@) == Some(nav),
                class_totals(self.positions@, fx@, self.positions@.len()) == Some(totals),
                by_class@.len() == n,
                i <= n,
                divided(totals, nav, i as nat) == Some(by_class@.subrange(0, i as int)),
                by_class@.subrange(i as int, n as int) == totals.subrange(i as int, n as int),
            decreases n - i,
        {
            let v = *by_class.value_at(i);
            assert(v == totals[i as int].1) by {
                assert(by_class@.subrange(i as int, n as int)[0] == by_class@[i as int]);
                assert(totals.subrange(i as int, n as int)[0] == totals[i as int]);
            }
            match checked_div(v, nav) {
                None => {
                    proof {
                        lemma_divided_none(totals, nav, (i + 1) as nat, n as nat);
                    }
                    return None;
                },
                Some(q) => {
                    let ghost before = by_class@;
                    by_class.set_value(i, q);
                    proof {
                        assert(before[i as int].0 == totals[i as int].0) by {
                            assert(before.subrange(i as int, n as int)[0] == before[i as int]);
                            assert(totals.subrange(i as int, n as int)[0] == totals[i as int]);
                        }
                        assert(by_class@.subrange(0, i + 1) =~= before.subrange(0, i as int).push(
                            (totals[i as int].0, q),
                        ));
                        assert(by_class@.subrange(i + 1, n as int) =~= before.subrange(
                            i + 1,
                            n as int,
                        ));
                        assert(before.subrange(i + 1, n as int) =~= before.subrange(
                            i as int,
                            n as int,
                        ).subrange(1, n - i));
                        assert(totals.subrange(i + 1, n as int) =~= totals.subrange(
                            i as int,
                            n as int,
                        ).subrange(1, n - i));
                    }
                },
            }
            i = i + 1;
        }
        assert(by_class@.subrange(0, n as int) =~= by_class@);
        Some(by_class)
    }

    /// Leverage per asset class: converted notionals grouped by the class
    /// name, each over NAV.
    pub fn leverage_by_class(&self, fx: &TextMap<Decimal>) -> (r: TextMap<Decimal>)
        requires
            self.leverage_by_class_spec(fx@) is Some,
        ensures
            self.leverage_by_class_spec(fx@) == Some(r@),
    {
        self.checked_leverage_by_class(fx).unwrap()
    }
}

/// What the margin engine reports.
#[derive(Debug)]
pub enum MarginEvent {
    MarginCall { symbol: String, deficit: Decimal },
    Liquidation { symbol: String, reason: String },
    PortfolioLeverageBreached { current: Decimal, max: Decimal },
}

/// A margin event with its texts as character sequences.
pub enum MarginEventView {
    MarginCall { symbol: Seq<char>, deficit: Decimal },
    Liquidation { symbol: Seq<char>, reason: Seq<char> },
    PortfolioLeverageBreached { current: Decimal, max: Decimal },
}

impl View for MarginEvent {
    type V = MarginEventView;

    open spec fn view(&self) -> MarginEventView {
        match self {
            MarginEvent::MarginCall { symbol, deficit } => MarginEventView::MarginCall {
                symbol: symbol@,
                deficit: *deficit,
            },
            MarginEvent::Liquidation { symbol, reason } => MarginEventView::Liquidation {
                symbol: symbol@,
                reason: reason@,
            },
            MarginEvent::PortfolioLeverageBreached { current, max } =>
                MarginEventView::PortfolioLeverageBreached { current: *current, max: *max },
        }
    }
}

/// The text of a liquidation: `Price <p> hit liquidation level <l>`, each
/// price printed with four decimals.
pub open spec fn liquidation_reason(p: LeveragedPosition) -> Seq<char> {
    "Price "@ + decimal_text_fixed4(p.current_price) + " hit liquidation level "@
        + decimal_text_fixed4(p.liquidation_price)
}

/// What one position contributes to a scan: a liquidation where a long is
/// at or below its liquidation level, otherwise a margin call with the
/// shortfall against the maintenance requirement, otherwise nothing;
/// `None` where the arithmetic fails.
pub open spec fn position_event(symbol: Seq<char>, p: LeveragedPosition) -> Option<Option<MarginEventView>> {
    if value_le(p.current_price, p.liquidation_price) && p.direction == Direction::Long {
        Some(Some(MarginEventView::Liquidation { symbol, reason: liquidation_reason(p) }))
    } else {
        match p.margin_call_spec() {
            None => None,
            Some(false) => Some(None),
            Some(true) => match sub_opt(
                decimal_mul(p.notional_value, p.maintenance_margin_rate),
                p.equity_spec(),
            ) {
                Some(deficit) => Some(Some(MarginEventView::MarginCall { symbol, deficit })),
                None => None,
            },
        }
    }
}

/// The events of the first `n` positions, in order.
pub open spec fn position_events(ps: Entries<LeveragedPosition>, n: nat) -> Option<Seq<MarginEventView>>
    decreases n,
{
    if n == 0 {
        Some(Seq::empty())
    } else {
        match position_events(ps, (n - 1) as nat) {
            None => None,
            Some(evs) => match position_event(ps[n - 1].0, ps[n - 1].1) {
                None => None,
                Some(None) => Some(evs),
                Some(Some(e)) => Some(evs.push(e)),
            },
        }
    }
}

proof fn lemma_events_none(ps: Entries<LeveragedPosition>, i: nat, n: nat)
    requires
        i <= n,
        position_events(ps, i) is None,
    ensures
        position_events(ps, n) is None,
    decreases n - i,
{
    if i < n {
        lemma_events_none(ps, i, (n - 1) as nat);
    }
}

/// The shortfall of a position against its maintenance requirement:
/// notional times the maintenance rate, less the current equity (margin
/// posted plus unrealized profit).
pub open spec fn maintenance_shortfall(p: LeveragedPosition) -> Option<Decimal> {
    sub_opt(
        decimal_mul(p.notional_value, p.maintenance_margin_rate),
        add_opt(Some(p.margin_posted), p.pnl_spec()),
    )
}

proof fn lemma_events_margin_calls(ps: Entries<LeveragedPosition>, n: nat)
    requires
        n <= ps.len(),
    ensures
        position_events(ps, n) matches Some(evs) ==> forall|k: int|
            0 <= k < evs.len() ==> ((#[trigger] evs[k]) matches MarginEventView::MarginCall {
                symbol,
                deficit,
            } ==> exists|i: int|
                0 <= i < n && (#[trigger] ps[i]).0 == symbol && maintenance_shortfall(ps[i].1)
                    == Some(deficit) && ps[i].1.margin_call_spec() == Some(true)),
    decreases n,
{
    if n > 0 {
        lemma_events_margin_calls(ps, (n - 1) as nat);
        if let Some(evs) = position_events(ps, n) {
            let prev = position_events(ps, (n - 1) as nat).unwrap();
            assert forall|k: int| 0 <= k < evs.len() && (#[trigger] evs[k]) is MarginCall implies exists|i: int|
                0 <= i < n && (#[trigger] ps[i]).0 == evs[k]->MarginCall_symbol && maintenance_shortfall(ps[i].1)
                    == Some(evs[k]->MarginCall_deficit) && ps[i].1.margin_call_spec() == Some(true) by {
                if k < prev.len() {
                    assert(evs[k] == prev[k]);
                    let i = choose|i: int|
                        0 <= i < n - 1 && (#[trigger] ps[i]).0 == prev[k]->MarginCall_symbol
                            && maintenance_shortfall(ps[i].1) == Some(prev[k]->MarginCall_deficit)
                            && ps[i].1.margin_call_spec() == Some(true);
                    assert(0 <= i < n);
                } else {
                    assert(ps[n - 1].0 == evs[k]->MarginCall_symbol);
                }
            }
        }
    }
}

/// Every margin call of a scan names a position that is in margin call,
/// and its deficit is that position's maintenance requirement (notional
/// times the maintenance rate) less its current equity (margin posted
/// plus unrealized profit): the deficit moves one for one with the
/// position's profit.
pub proof fn lemma_scan_margin_call_deficit(portfolio: LeveragedPortfolio, fx: Entries<Decimal>)
    ensures
        MarginEngine::scan_spec(portfolio, fx) matches Some(evs) ==> forall|k: int|
            0 <= k < evs.len() ==> ((#[trigger] evs[k]) matches MarginEventView::MarginCall {
                symbol,
                deficit,
            } ==> exists|i: int|
                0 <= i < portfolio.positions@.len() && (#[trigger] portfolio.positions@[i]).0 == symbol
                    && maintenance_shortfall(portfolio.positions@[i].1) == Some(deficit)
                    && portfolio.positions@[i].1.margin_call_spec() == Some(true)),
{
    let ps = portfolio.positions@;
    lemma_events_margin_calls(ps, ps.len());
    if let Some(evs) = MarginEngine::scan_spec(portfolio, fx) {
        let pe = position_events(ps, ps.len()).unwrap();
        assert forall|k: int| 0 <= k < evs.len() && (#[trigger] evs[k]) is MarginCall implies exists|i: int|
            0 <= i < ps.len() && (#[trigger] ps[i]).0 == evs[k]->MarginCall_symbol && maintenance_shortfall(ps[i].1)
                == Some(evs[k]->MarginCall_deficit) && ps[i].1.margin_call_spec() == Some(true) by {
            if k < pe.len() {
                assert(evs[k] == pe[k]);
            }
        }
    }
}

proof fn lemma_events_cover(ps: Entries<LeveragedPosition>, n: nat)
    requires
        n <= ps.len(),
    ensures
        position_events(ps, n) matches Some(evs) ==> forall|i: int|
            0 <= i < n ==> (position_event(#[trigger] ps[i].0, ps[i].1) matches Some(Some(e))
                ==> exists|k: int| 0 <= k < evs.len() && evs[k] == e),
    decreases n,
{
    if n > 0 {
        lemma_events_cover(ps, (n - 1) as nat);
        if let Some(evs) = position_events(ps, n) {
            let prev = position_events(ps, (n - 1) as nat).unwrap();
            assert forall|i: int| 0 <= i < n && (position_event(#[trigger] ps[i].0, ps[i].1) matches Some(
                Some(e),
            )) implies exists|k: int| 0 <= k < evs.len() && evs[k] == position_event(ps[i].0, ps[i].1)->0->0 by {
                let e = position_event(ps[i].0, ps[i].1)->0->0;
                if i < n - 1 {
                    let k = choose|k: int| 0 <= k < prev.len() && prev[k] == e;
                    assert(evs[k] == prev[k]);
                } else {
                    assert(evs[prev.len() as int] == e);
                }
            }
        }
    }
}

/// No position escapes a scan: a long at or below its liquidation level
/// is reported liquidated, and any other position in margin call is
/// reported with a margin call for its maintenance shortfall (notional
/// times the maintenance rate, less margin posted plus unrealized profit).
pub proof fn lemma_scan_reports_every_call(portfolio: LeveragedPortfolio, fx: Entries<Decimal>)
    ensures
        MarginEngine::scan_spec(portfolio, fx) matches Some(evs) ==> forall|i: int|
            0 <= i < portfolio.positions@.len() ==> {
                let sym = (#[trigger] portfolio.positions@[i]).0;
                let p = portfolio.positions@[i].1;
                &&& (value_le(p.current_price, p.liquidation_price) && p.direction == Direction::Long)
                    ==> exists|k: int|
                    0 <= k < evs.len() && evs[k] == MarginEventView::Liquidation {
                        symbol: sym,
                        reason: liquidation_reason(p),
                    }
                &&& (!(value_le(p.current_price, p.liquidation_price) && p.direction == Direction::Long)
                    && p.margin_call_spec() == Some(true)) ==> (maintenance_shortfall(p) matches Some(d)
                    && exists|k: int|
                    0 <= k < evs.len() && evs[k] == MarginEventView::MarginCall { symbol: sym, deficit: d })
            },
{
    let ps = portfolio.positions@;
    lemma_events_cover(ps, ps.len());
    if let Some(evs) = MarginEngine::scan_spec(portfolio, fx) {
        let pe = position_events(ps, ps.len()).unwrap();
        assert forall|i: int| 0 <= i < ps.len() && (position_event(#[trigger] ps[i].0, ps[i].1) matches Some(
            Some(e),
        )) implies exists|k: int| 0 <= k < evs.len() && evs[k] == position_event(ps[i].0, ps[i].1)->0->0 by {
            let e = position_event(ps[i].0, ps[i].1)->0->0;
            let k = choose|k: int| 0 <= k < pe.len() && pe[k] == e;
            assert(evs[k] == pe[k]);
        }
        assert forall|i: int| 0 <= i < ps.len() implies ({
            let sym = (#[trigger] ps[i]).0;
            let p = ps[i].1;
            &&& (value_le(p.current_price, p.liquidation_price) && p.direction == Direction::Long)
                ==> exists|k: int|
                0 <= k < evs.len() && evs[k] == MarginEventView::Liquidation {
                    symbol: sym,
                    reason: liquidation_reason(p),
                }
            &&& (!(value_le(p.current_price, p.liquidation_price) && p.direction == Direction::Long)
                && p.margin_call_spec() == Some(true)) ==> (maintenance_shortfall(p) matches Some(d)
                && exists|k: int|
                0 <= k < evs.len() && evs[k] == MarginEventView::MarginCall { symbol: sym, deficit: d })
        }) by {
            let sym = ps[i].0;
            let p = ps[i].1;
            if position_events(ps, ps.len()) is Some {
                lemma_events_some_each(ps, ps.len(), i);
            }
            let ev = position_event(sym, p);
            assert(ev is Some);
        }
    }
}

proof fn lemma_events_some_each(ps: Entries<LeveragedPosition>, n: nat, i: int)
    requires
        n <= ps.len(),
        0 <= i < n,
        position_events(ps, n) is Some,
    ensures
        position_event(ps[i].0, ps[i].1) is Some,
    decreases n,
{
    if i < n - 1 {
        lemma_events_some_each(ps, (n - 1) as nat, i);
    }
}

/// Watches positions and portfolio leverage.
pub struct MarginEngine {
    pub margin_call_buffer: Decimal,
}

impl MarginEngine {
    /// The events of a scan: one per position that is liquidated or called,
    /// in position order, then a breach where gross leverage exceeds the
    /// portfolio's maximum.
    pub open spec fn scan_spec(portfolio: LeveragedPortfolio, fx: Entries<Decimal>) -> Option<Seq<MarginEventView>> {
        match position_events(portfolio.positions@, portfolio.positions@.len()) {
            None => None,
            Some(evs) => match portfolio.gross_leverage_spec(fx) {
                None => None,
                Some(g) => if value_lt(portfolio.max_gross_leverage, g) {
                    Some(
                        evs.push(
                            MarginEventView::PortfolioLeverageBreached {
                                current: g,
                                max: portfolio.max_gross_leverage,
                            },
                        ),
                    )
                } else {
                    Some(evs)
                },
            },
        }
    }

    fn position_event(&self, symbol: &String, p: &LeveragedPosition) -> (r: Option<
        Option<MarginEvent>,
    >)
        ensures
            match r {
                None => position_event(symbol@, *p) is None,
                Some(None) => position_event(symbol@, *p) == Some(None::<MarginEventView>),
                Some(Some(e)) => position_event(symbol@, *p) == Some(Some(e@)),
            },
    {
        if le(p.current_price, p.liquidation_price) && p.direction == Direction::Long {
            let mut reason = String::from_str("Price ");
            let cur = to_text_fixed4(p.current_price);
            reason.append(cur.as_str());
            reason.append(" hit liquidation level ");
            let liq = to_text_fixed4(p.liquidation_price);
            reason.append(liq.as_str());
            let ev = MarginEvent::Liquidation { symbol: symbol.clone(), reason };
            return Some(Some(ev));
        }
        let call = p.checked_is_margin_call()?;
        if call {
            let required = checked_mul(p.notional_value, p.maintenance_margin_rate);
            let equity = p.checked_current_equity();
            let deficit = match (required, equity) {
                (Some(a), Some(b)) => checked_sub(a, b),
                _ => None,
            };
            match deficit {
                Some(d) => Some(Some(MarginEvent::MarginCall { symbol: symbol.clone(), deficit: d })),
                None => None,
            }
        } else {
            Some(None)
        }
    }

    pub fn checked_scan(&self, portfolio: &LeveragedPortfolio, fx: &TextMap<Decimal>) -> (r: Option<Vec<MarginEvent>>)
        ensures
            match r {
                Some(evs) => MarginEngine::scan_spec(*portfolio, fx@) == Some(
                    evs@.map_values(|e: MarginEvent| e@),
                ),
                None => MarginEngine::scan_spec(*portfolio, fx@) is None,
            },
    {
        let mut events: Vec<MarginEvent> = Vec::new();
        let n = portfolio.positions.len();
        let mut i: usize = 0;
        while i < n
            invariant
                n == portfolio.positions@.len(),
                i <= n,
                position_events(portfolio.positions@, i as nat) == Some(
                    events@.map_values(|e: MarginEvent| e@),
                ),
            decreases n - i,
        {
            let sym = portfolio.positions.key_at(i);
            let p = portfolio.positions.value_at(i);
            match self.position_event(sym, p) {
                None => {
                    proof {
                        lemma_events_none(portfolio.positions@, (i + 1) as nat, n as nat);
                    }
                    return None;
                },
                Some(None) => {},
                Some(Some(e)) => {
                    let ghost before = events@;
                    events.push(e);
                    assert(events@.map_values(|e: MarginEvent| e@) =~= before.map_values(
                        |e: MarginEvent| e@,
                    ).push(e@));
                },
            }
            i = i + 1;
        }
        let gross = portfolio.checked_gross_leverage(fx)?;
        if lt(portfolio.max_gross_leverage, gross) {
            let ghost before = events@;
            events.push(
                MarginEvent::PortfolioLeverageBreached {
                    current: gross,
                    max: portfolio.max_gross_leverage,
                },
            );
            assert(events@.map_values(|e: MarginEvent| e@) =~= before.map_values(
                |e: MarginEvent| e@,
            ).push(
                MarginEventView::PortfolioLeverageBreached {
                    current: gross,
                    max: portfolio.max_gross_leverage,
                },
            ));
        }
        Some(events)
    }

    /// Scans a portfolio for liquidations, margin calls and a gross leverage breach.
    pub fn scan(&self, portfolio: &LeveragedPortfolio, fx: &TextMap<Decimal>) -> (r: Vec<MarginEvent>)
        requires
            MarginEngine::scan_spec(*portfolio, fx@) is Some,
        ensures
            MarginEngine::scan_spec(*portfolio, fx@) == Some(r@.map_values(|e: MarginEvent| e@)),
    {
        self.checked_scan(portfolio, fx).unwrap()
    }
}

} // verus!
