//! Market data records: time stamps, option contracts, greeks and bars.
use vstd::prelude::*;
use crate::asset::AssetClass;
use crate::decimal::{Decimal, decimal_mul, decimal_sub, decimal_div, mul_opt, holds, checked_mul, checked_sub, checked_div};

verus! {

/// A UTC instant: whole seconds since the Unix epoch and the nanoseconds past them.
#[derive(Clone, Copy, Debug, PartialEq, Eq, Structural)]
pub struct Timestamp {
    pub secs: i64,
    pub nanos: u32,
}

impl Timestamp {
    /// Nanoseconds since the epoch.
    pub open spec fn total_nanos(self) -> int {
        self.secs * 1_000_000_000 + self.nanos
    }
}

/// Whole seconds from `from` until `to`, truncated toward zero, as
/// `(to - from).num_seconds()` counts them.
pub open spec fn whole_seconds_between(from: Timestamp, to: Timestamp) -> int {
    let d = to.total_nanos() - from.total_nanos();
    if d >= 0 {
        d / 1_000_000_000
    } else {
        -((-d) / 1_000_000_000)
    }
}

/// The system clock's reading, as std holds it.
#[verifier::external_type_specification]
#[verifier::external_body]
pub struct ExSystemTime(std::time::SystemTime);

/// `std::time::SystemTime::now`: the system clock's reading.  Nothing is
/// claimed of it: it is whatever the machine's clock says.
#[verifier::external_body]
fn system_now() -> (r: std::time::SystemTime) {
    std::time::SystemTime::now()
}

/// `SystemTime::duration_since(UNIX_EPOCH)`: the time since the Unix epoch
/// as whole seconds and the nanoseconds past them, or `None` where the
/// reading is before the epoch (the call's error).
///
/// Claims: the nanoseconds are below one second, as `Duration` keeps them.
#[verifier::external_body]
fn since_epoch(t: std::time::SystemTime) -> (r: Option<(u64, u32)>)
    ensures
        r matches Some((_, n)) ==> n < 1_000_000_000,
{
    match t.duration_since(std::time::UNIX_EPOCH) {
        Ok(d) => Some((d.as_secs(), d.subsec_nanos())),
        Err(_) => None,
    }
}

/// The current UTC time, or `None` where the system clock reads before
/// the Unix epoch or further from it than a `Timestamp` holds; the clock
/// is read without a panic.
pub fn now_utc() -> (r: Option<Timestamp>)
    ensures
        r matches Some(t) ==> t.secs >= 0 && t.nanos < 1_000_000_000,
{
    match since_epoch(system_now()) {
        Some((secs, nanos)) => {
            if secs <= 9_223_372_036_854_775_807u64 {
                Some(Timestamp { secs: secs as i64, nanos })
            } else {
                None
            }
        },
        None => None,
    }
}

#[derive(Clone, Copy, Debug, PartialEq, Eq, Structural)]
pub enum OptionType {
    Call,
    Put,
}

/// A European option on an underlying.
#[derive(Clone, Debug)]
pub struct OptionContract {
    pub underlying: String,
    pub asset_class: AssetClass,
    pub option_type: OptionType,
    /// Strike price.
    pub strike: Decimal,
    pub expiry: Timestamp,
    /// Current price of the underlying.
    pub spot: Decimal,
    /// Implied volatility, annualized.
    pub vol: Decimal,
    /// Domestic rate.
    pub risk_free_rate: Decimal,
    pub foreign_rate: Decimal,
    /// Continuous dividend yield (equity).
    pub dividend_yield: Decimal,
}

/// Seconds in a year of 365.25 days.
pub open spec fn seconds_per_year() -> int {
    31_557_600
}

impl OptionContract {
    /// Seconds left until expiry at `now`, never negative.
    pub open spec fn seconds_left(self, now: Timestamp) -> int {
        let s = whole_seconds_between(now, self.expiry);
        if s > 0 {
            s
        } else {
            0
        }
    }

    /// Years left until expiry at `now`: the seconds left over a year of 365.25 days.
    pub open spec fn time_to_expiry_spec(self, now: Timestamp) -> Option<Decimal> {
        decimal_div(Decimal::of(self.seconds_left(now), 0), Decimal::of(seconds_per_year(), 0))
    }

    /// Years left until expiry as seen at `now`; never negative, and zero
    /// once the option has expired.
    pub fn time_to_expiry_at(&self, now: Timestamp) -> (r: Decimal)
        ensures
            Some(r) == self.time_to_expiry_spec(now),
            r.mant() >= 0,
            self.seconds_left(now) == 0 ==> r.mant() == 0 && r.scal() == 0,
    {
        let d: i128 = (self.expiry.secs as i128 - now.secs as i128) * 1_000_000_000i128 + (
        self.expiry.nanos as i128 - now.nanos as i128);
        let whole: i128 = if d >= 0 {
            d / 1_000_000_000i128
        } else {
            -((-d) / 1_000_000_000i128)
        };
        let secs: i128 = if whole > 0 {
            whole
        } else {
            0
        };
        assert(secs == self.seconds_left(now));
        assert(secs < 20_000_000_000_000_000_000i128);
        let num = Decimal::from_i128_with_scale(secs, 0);
        let year = Decimal::from_i64(31_557_600);
        checked_div(num, year).unwrap()
    }

    /// Years left until expiry, now: the current time is read and the
    /// division of `time_to_expiry_at` applied to it; `None` where the
    /// clock cannot be read (it reads before the Unix epoch).
    pub fn time_to_expiry(&self) -> (r: Option<Decimal>)
        ensures
            r matches Some(x) ==> x.mant() >= 0 && exists|now: Timestamp|
                Some(x) == self.time_to_expiry_spec(now),
    {
        match now_utc() {
            Some(now) => Some(self.time_to_expiry_at(now)),
            None => None,
        }
    }
}

/// Sensitivities of an option's price.
#[derive(Clone, Debug)]
pub struct Greeks {
    /// Change of price with the spot.
    pub delta: Decimal,
    /// Change of delta with the spot.
    pub gamma: Decimal,
    /// Change of price with a 1% move in implied volatility.
    pub vega: Decimal,
    /// Value lost per calendar day.
    pub theta: Decimal,
    /// Change of price with a 1% move in the risk-free rate.
    pub rho: Decimal,
}

impl Default for Greeks {
    fn default() -> (r: Greeks)
        ensures
            r.delta == Decimal::of(0, 0),
            r.gamma == Decimal::of(0, 0),
            r.vega == Decimal::of(0, 0),
            r.theta == Decimal::of(0, 0),
            r.rho == Decimal::of(0, 0),
    {
        Greeks {
            delta: Decimal::zero(),
            gamma: Decimal::zero(),
            vega: Decimal::zero(),
            theta: Decimal::zero(),
            rho: Decimal::zero(),
        }
    }
}

/// One price bar.
#[derive(Clone, Debug, PartialEq)]
pub struct Ohlcv {
    pub timestamp: Timestamp,
    pub open: Decimal,
    pub high: Decimal,
    pub low: Decimal,
    pub close: Decimal,
    pub volume: Decimal,
}

} // verus!
