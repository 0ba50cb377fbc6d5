//! Allocation strategies: from assets and a market snapshot to target weights.
use vstd::prelude::*;
use crate::decimal::Decimal;
use crate::symbol_map::TextMap;
use crate::trading::Asset;
use crate::trading::pricing::MarketSnapshot;

verus! {

/// A rule that assigns each asset a target weight.  Strategies are pure:
/// no input or output, no side effects.  Weights summing to one describe a
/// fully invested portfolio, less than one a cash buffer.
pub trait AllocationStrategy: Send + Sync {
    fn name(&self) -> &str;

    /// The arithmetic of `compute_weights` succeeds on these inputs.
    spec fn weights_defined(&self, assets: Seq<Asset>, snapshot: MarketSnapshot) -> bool;

    /// Target weight per symbol.
    fn compute_weights(&self, assets: &[Asset], snapshot: &MarketSnapshot) -> TextMap<Decimal>
        requires
            self.weights_defined(assets@, *snapshot),
    ;

    /// Target weight per symbol, `None` where the arithmetic fails.
    fn checked_compute_weights(&self, assets: &[Asset], snapshot: &MarketSnapshot) -> (r: Option<
        TextMap<Decimal>,
    >)
        ensures
            r is Some <==> self.weights_defined(assets@, *snapshot),
    ;
}

} // verus!
