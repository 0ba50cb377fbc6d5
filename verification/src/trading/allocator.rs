//! Two allocation strategies: equal weight within each asset class, and
//! risk parity by inverse volatility.
use vstd::prelude::*;
use crate::asset::AssetClass;
use crate::decimal::{
    Decimal, decimal_div, sum_terms, lemma_sum_none, checked_add, checked_div,
};
use crate::symbol_map::{TextMap, Entries, lookup, insert_entry, distinct_keys, lemma_insert_lookup};
use crate::trading::Asset;
use crate::trading::pricing::MarketSnapshot;
use crate::trading::strategy::AllocationStrategy;

verus! {

/// Splits a fixed allocation per asset class evenly among that class's assets.
pub struct EqualWeightStrategy {
    pub equity_alloc: Decimal,
    pub forex_alloc: Decimal,
    pub crypto_alloc: Decimal,
}

/// How many of the first `n` assets belong to class `c`.
pub open spec fn class_count(assets: Seq<Asset>, c: AssetClass, n: nat) -> nat
    decreases n,
{
    if n == 0 {
        0
    } else if assets[n - 1].asset_class == c {
        class_count(assets, c, (n - 1) as nat) + 1
    } else {
        class_count(assets, c, (n - 1) as nat)
    }
}

/// `m` with weight `w` stored under each of the first `n` assets of class `c`.
pub open spec fn insert_class(m: Entries<Decimal>, assets: Seq<Asset>, c: AssetClass, w: Decimal, n: nat) -> Entries<Decimal>
    decreases n,
{
    if n == 0 {
        m
    } else {
        let prev = insert_class(m, assets, c, w, (n - 1) as nat);
        if assets[n - 1].asset_class == c {
            insert_entry(prev, assets[n - 1].symbol@, w)
        } else {
            prev
        }
    }
}

/// A class's allocation over its number of assets; where the class has no
/// assets nothing is divided.
pub open spec fn class_weight(alloc: Decimal, count: nat) -> Option<Decimal> {
    if count == 0 {
        Some(alloc)
    } else {
        decimal_div(alloc, Decimal::of(count as int, 0))
    }
}

proof fn lemma_class_count_bound(assets: Seq<Asset>, c: AssetClass, n: nat)
    ensures
        class_count(assets, c, n) <= n,
    decreases n,
{
    if n > 0 {
        lemma_class_count_bound(assets, c, (n - 1) as nat);
    }
}

impl EqualWeightStrategy {
    /// Equities first, then crypto, then forex, each asset of a class
    /// getting the class allocation over the class's asset count.
    pub open spec fn weights_spec(self, assets: Seq<Asset>) -> Option<Entries<Decimal>> {
        let n = assets.len();
        match (
            class_weight(self.equity_alloc, class_count(assets, AssetClass::Equity, n)),
            class_weight(self.crypto_alloc, class_count(assets, AssetClass::Crypto, n)),
            class_weight(self.forex_alloc, class_count(assets, AssetClass::Forex, n)),
        ) {
            (Some(we), Some(wc), Some(wf)) => {
                let m1 = insert_class(Seq::empty(), assets, AssetClass::Equity, we, n);
                let m2 = insert_class(m1, assets, AssetClass::Crypto, wc, n);
                Some(insert_class(m2, assets, AssetClass::Forex, wf, n))
            },
            _ => None,
        }
    }

    fn count(assets: &[Asset], c: AssetClass) -> (r: usize)
        ensures
            r == class_count(assets@, c, assets@.len()),
    {
        let n = assets.len();
        let mut k: usize = 0;
        let mut i: usize = 0;
        while i < n
            invariant
                n == assets@.len(),
                i <= n,
                k == class_count(assets@, c, i as nat),
                k <= i,
            decreases n - i,
        {
            if assets[i].asset_class == c {
                k = k + 1;
            }
            i = i + 1;
        }
        k
    }

    fn weight_of(alloc: Decimal, count: usize) -> (r: Option<Decimal>)
        ensures
            r == class_weight(alloc, count as nat),
    {
        if count == 0 {
            Some(alloc)
        } else {
            checked_div(alloc, Decimal::from_usize(count))
        }
    }

    fn insert_all(w: &mut TextMap<Decimal>, assets: &[Asset], c: AssetClass, weight: Decimal)
        ensures
            final(w)@ == insert_class(old(w)@, assets@, c, weight, assets@.len()),
    {
        let ghost start = w@;
        let n = assets.len();
        let mut i: usize = 0;
        while i < n
            invariant
                n == assets@.len(),
                i <= n,
                w@ == insert_class(start, assets@, c, weight, i as nat),
            decreases n - i,
        {
            if assets[i].asset_class == c {
                w.insert(assets[i].symbol.clone(), weight);
            }
            i = i + 1;
        }
    }
}

/// The allocation of a class.
pub open spec fn class_alloc(s: EqualWeightStrategy, c: AssetClass) -> Decimal {
    match c {
        AssetClass::Equity => s.equity_alloc,
        AssetClass::Crypto => s.crypto_alloc,
        AssetClass::Forex => s.forex_alloc,
    }
}

proof fn lemma_class_count_positive(assets: Seq<Asset>, c: AssetClass, n: nat, i: int)
    requires
        0 <= i < n <= assets.len(),
        assets[i].asset_class == c,
    ensures
        class_count(assets, c, n) >= 1,
    decreases n,
{
    if i < n - 1 {
        lemma_class_count_positive(assets, c, (n - 1) as nat, i);
    }
}

/// Storing a class's weight: every symbol of an asset of the class holds
/// the weight afterwards, every other symbol keeps its value.
proof fn lemma_insert_class(m: Entries<Decimal>, assets: Seq<Asset>, c: AssetClass, w: Decimal, n: nat, k: Seq<char>)
    requires
        distinct_keys(m),
        n <= assets.len(),
    ensures
        distinct_keys(insert_class(m, assets, c, w, n)),
        (exists|j: int| 0 <= j < n && (#[trigger] assets[j]).asset_class == c && assets[j].symbol@ == k)
            ==> lookup(insert_class(m, assets, c, w, n), k) == Some(w),
        (forall|j: int| 0 <= j < n ==> !((#[trigger] assets[j]).asset_class == c && assets[j].symbol@ == k))
            ==> lookup(insert_class(m, assets, c, w, n), k) == lookup(m, k),
    decreases n,
{
    if n > 0 {
        lemma_insert_class(m, assets, c, w, (n - 1) as nat, k);
        let prev = insert_class(m, assets, c, w, (n - 1) as nat);
        let a = assets[n - 1];
        if a.asset_class == c {
            lemma_insert_lookup(prev, a.symbol@, w, k);
        }
        if exists|j: int| 0 <= j < n && (#[trigger] assets[j]).asset_class == c && assets[j].symbol@ == k {
            let j = choose|j: int| 0 <= j < n && (#[trigger] assets[j]).asset_class == c && assets[j].symbol@ == k;
            if j < n - 1 {
                assert(exists|j2: int| 0 <= j2 < n - 1 && (#[trigger] assets[j2]).asset_class == c
                    && assets[j2].symbol@ == k);
            }
        }
    }
}

/// Equal weight: an asset whose symbol no asset of another class shares
/// gets its class's allocation divided by the number of assets of its
/// class, whatever the other classes hold.
pub proof fn lemma_equal_weight_splits_class_allocation(s: EqualWeightStrategy, assets: Seq<Asset>, i: int)
    requires
        0 <= i < assets.len(),
        forall|j: int|
            0 <= j < assets.len() && (#[trigger] assets[j]).symbol@ == assets[i].symbol@
                ==> assets[j].asset_class == assets[i].asset_class,
    ensures
        s.weights_spec(assets) matches Some(w) ==> {
            let c = assets[i].asset_class;
            let n = class_count(assets, c, assets.len());
            &&& n >= 1
            &&& lookup(w, assets[i].symbol@) matches Some(x)
            &&& Some(x) == decimal_div(class_alloc(s, c), Decimal::of(n as int, 0))
        },
{
    let n = assets.len();
    let c = assets[i].asset_class;
    let k = assets[i].symbol@;
    lemma_class_count_positive(assets, c, n, i);
    if let Some(w) = s.weights_spec(assets) {
        let we = class_weight(s.equity_alloc, class_count(assets, AssetClass::Equity, n)).unwrap();
        let wc = class_weight(s.crypto_alloc, class_count(assets, AssetClass::Crypto, n)).unwrap();
        let wf = class_weight(s.forex_alloc, class_count(assets, AssetClass::Forex, n)).unwrap();
        let m0 = Seq::<(Seq<char>, Decimal)>::empty();
        let m1 = insert_class(m0, assets, AssetClass::Equity, we, n);
        let m2 = insert_class(m1, assets, AssetClass::Crypto, wc, n);
        let m3 = insert_class(m2, assets, AssetClass::Forex, wf, n);
        assert(w == m3);
        lemma_insert_class(m0, assets, AssetClass::Equity, we, n, k);
        lemma_insert_class(m1, assets, AssetClass::Crypto, wc, n, k);
        lemma_insert_class(m2, assets, AssetClass::Forex, wf, n, k);
        assert(assets[i].asset_class == c && assets[i].symbol@ == k);
        assert forall|j: int| 0 <= j < n && (#[trigger] assets[j]).asset_class != c implies assets[j].symbol@ != k by {
        }
    }
}

/// Equal weight succeeds exactly when each class that has assets can
/// divide its allocation by its number of assets, and it gives no weight to
/// a symbol that none of the assets carries.
pub proof fn lemma_equal_weight_defined(s: EqualWeightStrategy, assets: Seq<Asset>, k: Seq<char>)
    ensures
        s.weights_spec(assets) is Some <==> forall|c: AssetClass|
            class_count(assets, c, assets.len()) >= 1 ==> (#[trigger] decimal_div(
                class_alloc(s, c),
                Decimal::of(class_count(assets, c, assets.len()) as int, 0),
            )) is Some,
        (forall|j: int| 0 <= j < assets.len() ==> (#[trigger] assets[j]).symbol@ != k) ==> (
        s.weights_spec(assets) matches Some(w) ==> lookup(w, k) is None),
{
    let n = assets.len();
    let ne = class_count(assets, AssetClass::Equity, n);
    let nc = class_count(assets, AssetClass::Crypto, n);
    let nf = class_count(assets, AssetClass::Forex, n);
    assert(class_alloc(s, AssetClass::Equity) == s.equity_alloc);
    assert(class_alloc(s, AssetClass::Crypto) == s.crypto_alloc);
    assert(class_alloc(s, AssetClass::Forex) == s.forex_alloc);
    if s.weights_spec(assets) is Some {
        assert forall|c: AssetClass| class_count(assets, c, n) >= 1 implies (#[trigger] decimal_div(
            class_alloc(s, c),
            Decimal::of(class_count(assets, c, n) as int, 0),
        )) is Some by {
            match c {
                AssetClass::Equity => {},
                AssetClass::Crypto => {},
                AssetClass::Forex => {},
            }
        }
    } else {
        if ne >= 1 && class_weight(s.equity_alloc, ne) is None {
            assert(decimal_div(class_alloc(s, AssetClass::Equity), Decimal::of(ne as int, 0)) is None);
        }
        if nc >= 1 && class_weight(s.crypto_alloc, nc) is None {
            assert(decimal_div(class_alloc(s, AssetClass::Crypto), Decimal::of(nc as int, 0)) is None);
        }
        if nf >= 1 && class_weight(s.forex_alloc, nf) is None {
            assert(decimal_div(class_alloc(s, AssetClass::Forex), Decimal::of(nf as int, 0)) is None);
        }
    }
    if forall|j: int| 0 <= j < n ==> (#[trigger] assets[j]).symbol@ != k {
        if let Some(w) = s.weights_spec(assets) {
            let we = class_weight(s.equity_alloc, ne).unwrap();
            let wc = class_weight(s.crypto_alloc, nc).unwrap();
            let wf = class_weight(s.forex_alloc, nf).unwrap();
            let m0 = Seq::<(Seq<char>, Decimal)>::empty();
            let m1 = insert_class(m0, assets, AssetClass::Equity, we, n);
            let m2 = insert_class(m1, assets, AssetClass::Crypto, wc, n);
            lemma_insert_class(m0, assets, AssetClass::Equity, we, n, k);
            lemma_insert_class(m1, assets, AssetClass::Crypto, wc, n, k);
            lemma_insert_class(m2, assets, AssetClass::Forex, wf, n, k);
            assert(lookup(m0, k) is None);
        }
    }
}

impl AllocationStrategy for EqualWeightStrategy {
    fn name(&self) -> (r: &str)
        ensures
            r@ == "equal_weight"@,
    {
        "equal_weight"
    }

    open spec fn weights_defined(&self, assets: Seq<Asset>, snapshot: MarketSnapshot) -> bool {
        self.weights_spec(assets) is Some
    }

    fn compute_weights(&self, assets: &[Asset], snapshot: &MarketSnapshot) -> (r: TextMap<Decimal>)
        ensures
            self.weights_spec(assets@) == Some(r@),
    {
        self.checked_compute_weights(assets, snapshot).unwrap()
    }

    fn checked_compute_weights(&self, assets: &[Asset], _snapshot: &MarketSnapshot) -> (r: Option<
        TextMap<Decimal>,
    >)
        ensures
            match r {
                Some(m) => self.weights_spec(assets@) == Some(m@),
                None => self.weights_spec(assets@) is None,
            },
    {
        let n_equity = EqualWeightStrategy::count(assets, AssetClass::Equity);
        let n_crypto = EqualWeightStrategy::count(assets, AssetClass::Crypto);
        let n_forex = EqualWeightStrategy::count(assets, AssetClass::Forex);
        let we = EqualWeightStrategy::weight_of(self.equity_alloc, n_equity)?;
        let wc = EqualWeightStrategy::weight_of(self.crypto_alloc, n_crypto)?;
        let wf = EqualWeightStrategy::weight_of(self.forex_alloc, n_forex)?;
        let mut w: TextMap<Decimal> = TextMap::new();
        EqualWeightStrategy::insert_all(&mut w, assets, AssetClass::Equity, we);
        EqualWeightStrategy::insert_all(&mut w, assets, AssetClass::Crypto, wc);
        EqualWeightStrategy::insert_all(&mut w, assets, AssetClass::Forex, wf);
        Some(w)
    }
}

/// Weights each asset by the inverse of its volatility.
pub struct RiskParityStrategy {
    pub target_volatility: Decimal,
}

/// The inverse volatilities of the first `n` assets, skipping those without
/// a volatility or with a zero one.
pub open spec fn inverse_vols(assets: Seq<Asset>, vols: Entries<Decimal>, n: nat) -> Option<Seq<(Seq<char>, Decimal)>>
    decreases n,
{
    if n == 0 {
        Some(Seq::empty())
    } else {
        match inverse_vols(assets, vols, (n - 1) as nat) {
            None => None,
            Some(prev) => match lookup(vols, assets[n - 1].symbol@) {
                None => Some(prev),
                Some(v) => if v.mant() == 0 {
                    Some(prev)
                } else {
                    match decimal_div(Decimal::of(1, 0), v) {
                        None => None,
                        Some(iv) => Some(prev.push((assets[n - 1].symbol@, iv))),
                    }
                },
            },
        }
    }
}

proof fn lemma_inverse_vols_none(assets: Seq<Asset>, vols: Entries<Decimal>, i: nat, n: nat)
    requires
        i <= n,
        inverse_vols(assets, vols, i) is None,
    ensures
        inverse_vols(assets, vols, n) is None,
    decreases n - i,
{
    if i < n {
        lemma_inverse_vols_none(assets, vols, i, (n - 1) as nat);
    }
}

pub open spec fn inverse_vol_terms(ivs: Seq<(Seq<char>, Decimal)>) -> spec_fn(int) -> Option<Decimal> {
    |i: int| Some(ivs[i].1)
}

/// The first `n` inverse volatilities, each over `total`, stored per symbol.
pub open spec fn normalized(ivs: Seq<(Seq<char>, Decimal)>, total: Decimal, n: nat) -> Option<Entries<Decimal>>
    decreases n,
{
    if n == 0 {
        Some(Seq::empty())
    } else {
        match normalized(ivs, total, (n - 1) as nat) {
            None => None,
            Some(m) => match decimal_div(ivs[n - 1].1, total) {
                None => None,
                Some(w) => Some(insert_entry(m, ivs[n - 1].0, w)),
            },
        }
    }
}

proof fn lemma_normalized_none(ivs: Seq<(Seq<char>, Decimal)>, total: Decimal, i: nat, n: nat)
    requires
        i <= n,
        normalized(ivs, total, i) is None,
    ensures
        normalized(ivs, total, n) is None,
    decreases n - i,
{
    if i < n {
        lemma_normalized_none(ivs, total, i, (n - 1) as nat);
    }
}

impl RiskParityStrategy {
    /// Each asset with a non-zero volatility gets its inverse volatility
    /// over the sum of all of them; no weights where that sum is zero.
    pub open spec fn weights_spec(self, assets: Seq<Asset>, snapshot: MarketSnapshot) -> Option<Entries<Decimal>> {
        match inverse_vols(assets, snapshot.volatility@, assets.len()) {
            None => None,
            Some(ivs) => match sum_terms(inverse_vol_terms(ivs), ivs.len()) {
                None => None,
                Some(total) => if total.mant() == 0 {
                    Some(Seq::empty())
                } else {
                    normalized(ivs, total, ivs.len())
                },
            },
        }
    }
}

impl AllocationStrategy for RiskParityStrategy {
    fn name(&self) -> (r: &str)
        ensures
            r@ == "risk_parity"@,
    {
        "risk_parity"
    }

    open spec fn weights_defined(&self, assets: Seq<Asset>, snapshot: MarketSnapshot) -> bool {
        self.weights_spec(assets, snapshot) is Some
    }

    fn compute_weights(&self, assets: &[Asset], snapshot: &MarketSnapshot) -> (r: TextMap<Decimal>)
        ensures
            self.weights_spec(assets@, *snapshot) == Some(r@),
    {
        self.checked_compute_weights(assets, snapshot).unwrap()
    }

    fn checked_compute_weights(&self, assets: &[Asset], snapshot: &MarketSnapshot) -> (r: Option<
        TextMap<Decimal>,
    >)
        ensures
            match r {
                Some(m) => self.weights_spec(assets@, *snapshot) == Some(m@),
                None => self.weights_spec(assets@, *snapshot) is None,
            },
    {
        let n = assets.len();
        let mut syms: Vec<String> = Vec::new();
        let mut invs: Vec<Decimal> = Vec::new();
        let mut i: usize = 0;
        while i < n
            invariant
                n == assets@.len(),
                i <= n,
                syms@.len() == invs@.len(),
                inverse_vols(assets@, snapshot.volatility@, i as nat) == Some(
                    Seq::new(syms@.len(), |k: int| (syms@[k]@, invs@[k])),
                ),
            decreases n - i,
        {
            match snapshot.volatility.get(assets[i].symbol.as_str()) {
                None => {},
                Some(vol) => {
                    if !vol.is_zero() {
                        match checked_div(Decimal::one(), *vol) {
                            None => {
                                proof {
                                    lemma_inverse_vols_none(
                                        assets@,
                                        snapshot.volatility@,
                                        (i + 1) as nat,
                                        n as nat,
                                    );
                                }
                                return None;
                            },
                            Some(iv) => {
                                let ghost before = Seq::new(
                                    syms@.len(),
                                    |k: int| (syms@[k]@, invs@[k]),
                                );
                                syms.push(assets[i].symbol.clone());
                                invs.push(iv);
                                assert(Seq::new(syms@.len(), |k: int| (syms@[k]@, invs@[k]))
                                    =~= before.push((assets@[i as int].symbol@, iv)));
                            },
                        }
                    }
                },
            }
            i = i + 1;
        }
        let ghost ivs = Seq::new(syms@.len(), |k: int| (syms@[k]@, invs@[k]));
        let m = invs.len();
        let mut total = Decimal::zero();
        let mut j: usize = 0;
        while j < m
            invariant
                m == invs@.len(),
                m == ivs.len(),
                ivs == Seq::new(syms@.len(), |k: int| (syms@[k]@, invs@[k])),
                syms@.len() == invs@.len(),
                j <= m,
                inverse_vols(assets@, snapshot.volatility@, assets@.len()) == Some(ivs),
                sum_terms(inverse_vol_terms(ivs), j as nat) == Some(total),
            decreases m - j,
        {
            match checked_add(total, invs[j]) {
                None => {
                    proof {
                        lemma_sum_none(inverse_vol_terms(ivs), (j + 1) as nat, m as nat);
                    }
                    return None;
                },
                Some(s) => {
                    total = s;
                },
            }
            j = j + 1;
        }
        let mut w: TextMap<Decimal> = TextMap::new();
        if total.is_zero() {
            return Some(w);
        }
        let mut k: usize = 0;
        while k < m
            invariant
                m == invs@.len(),
                m == ivs.len(),
                ivs == Seq::new(syms@.len(), |k: int| (syms@[k]@, invs@[k])),
                syms@.len() == invs@.len(),
                k <= m,
                inverse_vols(assets@, snapshot.volatility@, assets@.len()) == Some(ivs),
                sum_terms(inverse_vol_terms(ivs), ivs.len()) == Some(total),
                total.mant() != 0,
                normalized(ivs, total, k as nat) == Some(w@),
            decreases m - k,
        {
            match checked_div(invs[k], total) {
                None => {
                    proof {
                        lemma_normalized_none(ivs, total, (k + 1) as nat, m as nat);
                    }
                    return None;
                },
                Some(x) => {
                    w.insert(syms[k].clone(), x);
                },
            }
            k = k + 1;
        }
        Some(w)
    }
}

} // verus!
