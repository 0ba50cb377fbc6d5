use mdws::asset::AssetClass;
use mdws::decimal::{eq, Decimal};
use mdws::symbol_map::{PairMap, TextMap};
use mdws::trading::allocator::{EqualWeightStrategy, RiskParityStrategy};
use mdws::trading::data::{OptionContract, OptionType, Timestamp, Greeks};
use mdws::trading::leveraged::{
    Direction, LeveragePolicy, LeveragedPortfolio, LeveragedPosition, MarginEngine, MarginEvent,
};
use mdws::trading::portfolio::Portfolio;
use mdws::trading::pricing::{MarketRegime, MarketSnapshot};
use mdws::trading::strategy::AllocationStrategy;
use mdws::trading::{Asset, Position};

fn d(num: i64, scale: u32) -> Decimal {
    Decimal::new(num, scale)
}

fn asset(symbol: &str, class: AssetClass, base: &str) -> Asset {
    Asset {
        symbol: symbol.to_string(),
        asset_class: class,
        base_currency: base.to_string(),
        quote_currency: "USD".to_string(),
    }
}

fn at(secs: i64) -> Timestamp {
    Timestamp { secs, nanos: 0 }
}

fn snapshot() -> MarketSnapshot {
    MarketSnapshot {
        timestamp: at(0),
        prices: TextMap::new(),
        spreads: TextMap::new(),
        volatility: TextMap::new(),
        atr: TextMap::new(),
        correlations: PairMap::new(),
        fx_rates: TextMap::new(),
        base_currency: "USD".to_string(),
        avg_daily_volume: TextMap::new(),
        momentum: TextMap::new(),
        fundamental_scores: TextMap::new(),
        regime: MarketRegime::RiskOn,
    }
}

fn position(symbol: &str, qty: i64, entry: i64, current: i64) -> Position {
    Position {
        asset: asset(symbol, AssetClass::Equity, "USD"),
        quantity: d(qty, 0),
        avg_entry_price: d(entry, 0),
        current_price: d(current, 0),
        opened_at: at(0),
    }
}

#[test]
fn position_value_and_pnl() {
    let p = position("AAPL", 10, 100, 110);
    assert_eq!(p.market_value().to_string(), "1100");
    assert_eq!(p.unrealized_pnl().to_string(), "100");
    let short = position("AAPL", -10, 100, 110);
    assert_eq!(short.unrealized_pnl().to_string(), "-100");
}

#[test]
fn position_at_entry_price_has_no_pnl() {
    let p = position("MSFT", 7, 250, 250);
    assert!(p.unrealized_pnl().is_zero());
}

#[test]
fn fresh_portfolio_is_worth_its_cash() {
    let p = Portfolio::new("USD", d(100_000, 0));
    let fx = TextMap::new();
    assert!(eq(p.total_equity(&fx), d(100_000, 0)));
    assert_eq!(p.weights(&fx).len(), 0);
}

#[test]
fn portfolio_converts_and_weighs_positions() {
    let mut p = Portfolio::new("USD", d(500, 0));
    p.cash.insert("EUR".to_string(), d(100, 0));
    p.positions.insert("AAPL".to_string(), position("AAPL", 5, 90, 100));
    let mut fx = TextMap::new();
    fx.insert("EUR".to_string(), d(15, 1));
    // 500 + 100 * 1.5 + 5 * 100 = 1150
    let total = p.total_equity(&fx);
    assert!(eq(total, d(1150, 0)));
    let w = p.weights(&fx);
    assert_eq!(w.len(), 1);
    // 500 / 1150
    assert!(w.get("AAPL").unwrap().to_string().starts_with("0.434782608695652173913043478"));
}

#[test]
fn snapshot_lookups() {
    let mut s = snapshot();
    s.prices.insert("AAPL".to_string(), d(190, 0));
    s.fx_rates.insert("EUR".to_string(), d(11, 1));
    s.correlations.insert("AAPL".to_string(), "MSFT".to_string(), d(8, 1));
    s.avg_daily_volume.insert("AAPL".to_string(), d(1_000_000, 0));
    assert!(eq(s.price("AAPL").unwrap(), d(190, 0)));
    assert!(s.price("TSLA").is_none());
    assert!(eq(s.to_base(d(100, 0), "EUR"), d(110, 0)));
    assert!(eq(s.to_base(d(100, 0), "GBP"), d(100, 0)));
    assert!(eq(s.correlation("AAPL", "MSFT").unwrap(), d(8, 1)));
    assert!(eq(s.correlation("MSFT", "AAPL").unwrap(), d(8, 1)));
    assert!(s.correlation("AAPL", "AAPL").is_none());
    // 190 000 notional at 190 is 1 000 shares, 0.1% of the daily volume.
    assert!(s.is_liquid("AAPL", d(190_000, 0), d(190, 0), d(1, 2)));
    assert!(!s.is_liquid("AAPL", d(19_000_000, 0), d(190, 0), d(1, 2)));
    assert!(!s.is_liquid("TSLA", d(1, 0), d(190, 0), d(1, 2)));
}

#[test]
fn snapshot_feed_updates() {
    let mut s = snapshot();
    s.record_price("BTCUSD".to_string(), d(65_000, 0), at(1_700_000_000));
    assert_eq!(s.timestamp, at(1_700_000_000));
    assert!(eq(s.price("BTCUSD").unwrap(), d(65_000, 0)));
    s.update_price("BTCUSD".to_string(), d(66_000, 0));
    assert!(eq(s.price("BTCUSD").unwrap(), d(66_000, 0)));
    s.update_volatility("BTCUSD".to_string(), d(6, 1));
    s.update_fx_rate("EUR".to_string(), d(108, 2));
    assert!(eq(*s.volatility.get("BTCUSD").unwrap(), d(6, 1)));
    assert!(eq(s.to_base(d(1, 0), "EUR"), d(108, 2)));
    let copy = s.clone();
    assert!(eq(copy.price("BTCUSD").unwrap(), d(66_000, 0)));
}

#[test]
fn option_time_to_expiry() {
    let o = OptionContract {
        underlying: "EURUSD".to_string(),
        asset_class: AssetClass::Forex,
        option_type: OptionType::Call,
        strike: d(11, 1),
        expiry: at(31_557_600),
        spot: d(108, 2),
        vol: d(1, 1),
        risk_free_rate: d(5, 2),
        foreign_rate: d(3, 2),
        dividend_yield: Decimal::zero(),
    };
    assert!(eq(o.time_to_expiry_at(at(0)), Decimal::one()));
    assert!(eq(o.time_to_expiry_at(at(15_778_800)), d(5, 1)));
    assert!(o.time_to_expiry_at(at(40_000_000)).is_zero());
    // expired long ago by the clock
    assert!(o.time_to_expiry().unwrap().is_zero());
    let g = Greeks::default();
    assert!(g.delta.is_zero() && g.gamma.is_zero() && g.vega.is_zero());
}

fn btc_long() -> LeveragedPosition {
    LeveragedPosition::new(
        asset("BTCUSD", AssetClass::Crypto, "USD"),
        Direction::Long,
        d(1000, 0),
        d(1, 1),
        d(100, 0),
    )
}

#[test]
fn leveraged_position_opening() {
    let p = btc_long();
    assert!(eq(p.notional_value, d(10_000, 0)));
    assert!(eq(p.current_price, d(100, 0)));
    // 100 * (1 - 0.1 + 0.05)
    assert!(eq(p.liquidation_price, d(95, 0)));
    assert!(eq(p.maintenance_margin_rate, d(5, 2)));
    assert!(eq(p.quantity(), d(100, 0)));
    assert!(p.unrealized_pnl().is_zero());
    assert!(eq(p.current_equity(), d(1000, 0)));
    assert!(eq(p.margin_ratio(), d(1, 1)));
    assert!(eq(p.effective_leverage(), d(10, 0)));
    assert!(!p.is_margin_call());
    assert!(LeveragedPosition::checked_new(
        asset("X", AssetClass::Equity, "USD"),
        Direction::Short,
        d(1, 0),
        Decimal::zero(),
        d(1, 0)
    )
    .is_none());
}

#[test]
fn leveraged_short_profits_when_price_falls() {
    let mut p = LeveragedPosition::new(
        asset("EURUSD", AssetClass::Forex, "USD"),
        Direction::Short,
        d(1000, 0),
        d(2, 2),
        d(100, 0),
    );
    // 100 * (1 + 0.02 - 0.02)
    assert!(eq(p.liquidation_price, d(100, 0)));
    p.current_price = d(99, 0);
    // notional 50 000, 500 units, 1 gained per unit
    assert!(eq(p.unrealized_pnl(), d(500, 0)));
}

#[test]
fn leverage_policies() {
    let e = LeveragePolicy::for_equity();
    assert!(eq(e.max_leverage, d(4, 0)) && eq(e.leverage_ratio, d(25, 2)));
    let f = LeveragePolicy::for_forex(d(50, 0));
    assert!(eq(f.leverage_ratio, d(2, 2)) && eq(f.lot_size, d(100_000, 0)));
    let c = LeveragePolicy::for_crypto(d(4, 0), d(1, 3));
    assert!(eq(c.leverage_ratio, d(25, 2)) && eq(c.maintenance_margin_rate, d(5, 2)));
    assert!(eq(e.max_position_notional(d(1000, 0)), d(4000, 0)));
    assert!(LeveragePolicy::checked_for_forex(Decimal::zero()).is_none());
}

fn leveraged_book() -> LeveragedPortfolio {
    let mut positions = TextMap::new();
    positions.insert("BTCUSD".to_string(), btc_long());
    let mut cash = TextMap::new();
    cash.insert("USD".to_string(), d(9000, 0));
    LeveragedPortfolio {
        cash,
        positions,
        base_currency: "USD".to_string(),
        target_gross_leverage: d(2, 0),
        max_gross_leverage: d(3, 0),
    }
}

#[test]
fn leveraged_portfolio_measures() {
    let book = leveraged_book();
    let fx = TextMap::new();
    // 9000 cash + 1000 equity
    assert!(eq(book.nav(&fx), d(10_000, 0)));
    assert!(eq(book.gross_leverage(&fx), d(1, 0)));
    assert!(eq(book.net_leverage(&fx), d(1, 0)));
    let by_class = book.leverage_by_class(&fx);
    assert_eq!(by_class.len(), 1);
    assert!(eq(*by_class.get("crypto").unwrap(), d(1, 0)));
}

#[test]
fn margin_engine_reports_liquidations_and_breaches() {
    let engine = MarginEngine { margin_call_buffer: d(1, 1) };
    let fx = TextMap::new();
    let quiet = leveraged_book();
    assert!(engine.scan(&quiet, &fx).is_empty());

    let mut stressed = leveraged_book();
    let mut p = btc_long();
    p.current_price = d(94, 0);
    stressed.positions.insert("BTCUSD".to_string(), p);
    stressed.max_gross_leverage = d(5, 1);
    let events = engine.scan(&stressed, &fx);
    assert_eq!(events.len(), 2);
    match &events[0] {
        MarginEvent::Liquidation { symbol, reason } => {
            assert_eq!(symbol, "BTCUSD");
            assert_eq!(reason, "Price 94.0000 hit liquidation level 95.0000");
        }
        other => panic!("unexpected event {:?}", other),
    }
    assert!(matches!(events[1], MarginEvent::PortfolioLeverageBreached { .. }));
}

#[test]
fn equal_weight_splits_each_class() {
    let s = EqualWeightStrategy { equity_alloc: d(6, 1), forex_alloc: d(1, 1), crypto_alloc: d(3, 1) };
    let assets = vec![
        asset("AAPL", AssetClass::Equity, "USD"),
        asset("MSFT", AssetClass::Equity, "USD"),
        asset("BTCUSD", AssetClass::Crypto, "USD"),
    ];
    let w = s.compute_weights(&assets, &snapshot());
    assert_eq!(s.name(), "equal_weight");
    assert_eq!(w.len(), 3);
    assert!(eq(*w.get("AAPL").unwrap(), d(3, 1)));
    assert!(eq(*w.get("MSFT").unwrap(), d(3, 1)));
    assert!(eq(*w.get("BTCUSD").unwrap(), d(3, 1)));
}

#[test]
fn risk_parity_weights_by_inverse_volatility() {
    let s = RiskParityStrategy { target_volatility: d(1, 1) };
    let mut snap = snapshot();
    snap.volatility.insert("AAPL".to_string(), d(2, 1));
    snap.volatility.insert("BTCUSD".to_string(), d(8, 1));
    snap.volatility.insert("ZERO".to_string(), Decimal::zero());
    let assets = vec![
        asset("AAPL", AssetClass::Equity, "USD"),
        asset("BTCUSD", AssetClass::Crypto, "USD"),
        asset("ZERO", AssetClass::Equity, "USD"),
        asset("NOVOL", AssetClass::Equity, "USD"),
    ];
    let w = s.compute_weights(&assets, &snap);
    assert_eq!(s.name(), "risk_parity");
    // inverse vols 5 and 1.25 over 6.25
    assert_eq!(w.len(), 2);
    assert!(eq(*w.get("AAPL").unwrap(), d(8, 1)));
    assert!(eq(*w.get("BTCUSD").unwrap(), d(2, 1)));
    assert!(s.compute_weights(&[], &snap).len() == 0);
}

#[test]
fn gross_leverage_counts_magnitudes() {
    let mut book = leveraged_book();
    let mut p = btc_long();
    // a notional recorded as negative still counts by its size
    p.notional_value = d(-10_000, 0);
    book.positions.insert("BTCUSD".to_string(), p);
    let fx = TextMap::new();
    let nav = book.nav(&fx);
    let gross = book.gross_leverage(&fx);
    assert!(!gross.to_string().starts_with('-'));
    assert!(eq(gross, mdws::decimal::checked_div(d(10_000, 0), nav).unwrap()));
    assert!(book.net_leverage(&fx).to_string().starts_with('-'));
}

#[test]
fn all_long_book_has_equal_net_and_gross() {
    let book = leveraged_book();
    let fx = TextMap::new();
    assert!(eq(book.net_leverage(&fx), book.gross_leverage(&fx)));
}

#[test]
fn conversion_without_a_rate_is_one_for_one() {
    let s = snapshot();
    assert!(eq(s.to_base(d(1234, 2), "CHF"), d(1234, 2)));
    assert!(eq(s.to_base(d(5, 0), "USD"), d(5, 0)));
}

#[test]
fn price_updates_stamp_the_snapshot() {
    let mut s = snapshot();
    let now = s.update_price("ETHUSD".to_string(), d(3000, 0)).unwrap();
    assert_eq!(s.timestamp, now);
    assert!(now.secs > 1_600_000_000);
    assert_eq!(s.base_currency, "USD");
}
