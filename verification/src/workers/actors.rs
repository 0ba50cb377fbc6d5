//! The per-class connection actors: their commands, the tickers each
//! connection keeps subscribed (restored after a reconnect), and the
//! Tiingo requests that commands become.
use vstd::prelude::*;
use vstd::string::*;
use crate::text::str_eq;
use crate::workers::assetclass::AssetClass;
use crate::workers::message::{SubscribeData, SubscribeDataView, SubscribeRequest, MsgError, MsgErrorView, texts_opt};
use crate::text::texts;
use crate::workers::ws::refers_to;

verus! {

/// What a feed connection is asked to do.
pub enum WsCommand {
    Subscribe(SubscribeData),
    Unsubscribe(SubscribeData),
}

pub enum WsCommandView {
    Subscribe(SubscribeDataView),
    Unsubscribe(SubscribeDataView),
}

impl View for WsCommand {
    type V = WsCommandView;

    open spec fn view(&self) -> WsCommandView {
        match self {
            WsCommand::Subscribe(d) => WsCommandView::Subscribe(d@),
            WsCommand::Unsubscribe(d) => WsCommandView::Unsubscribe(d@),
        }
    }
}

/// The command senders of the connections that are up, one per class.
pub struct WsChannels<T> {
    pub forex_tx: Option<T>,
    pub crypto_tx: Option<T>,
    pub equity_tx: Option<T>,
}

impl<T> WsChannels<T> {
    pub open spec fn channel_for(self, asset: AssetClass) -> Option<T> {
        match asset {
            AssetClass::Forex => self.forex_tx,
            AssetClass::Crypto => self.crypto_tx,
            AssetClass::Equity => self.equity_tx,
        }
    }

    /// The sender of a class's connection, if it is up.
    pub fn get_channel(&self, asset: AssetClass) -> (r: Option<&T>)
        ensures
            refers_to(r, self.channel_for(asset)),
    {
        match asset {
            AssetClass::Forex => self.forex_tx.as_ref(),
            AssetClass::Crypto => self.crypto_tx.as_ref(),
            AssetClass::Equity => self.equity_tx.as_ref(),
        }
    }
}

/// The Tiingo request of a command: `subscribe` or `unsubscribe`, the API
/// key, and the command's data.
pub fn subscribe_request(cmd: &WsCommand, api_key: &str) -> (r: SubscribeRequest)
    ensures
        match cmd@ {
            WsCommandView::Subscribe(d) => r.event_name@ == "subscribe"@ && r.event_data@ == d,
            WsCommandView::Unsubscribe(d) => r.event_name@ == "unsubscribe"@ && r.event_data@ == d,
        },
        r.authorization@ == api_key@,
{
    let (name, data) = match cmd {
        WsCommand::Subscribe(d) => ("subscribe", d),
        WsCommand::Unsubscribe(d) => ("unsubscribe", d),
    };
    SubscribeRequest {
        event_name: String::from_str(name),
        authorization: String::from_str(api_key),
        event_data: data.copy(),
    }
}

pub open spec fn distinct_texts(s: Seq<Seq<char>>) -> bool {
    forall|i: int, j: int| 0 <= i < j < s.len() ==> s[i] != s[j]
}

/// `s` with `t` added at the end unless already there.
pub open spec fn with_text(s: Seq<Seq<char>>, t: Seq<char>) -> Seq<Seq<char>> {
    if s.contains(t) {
        s
    } else {
        s.push(t)
    }
}

/// `s` without `t`, the rest in order.
pub open spec fn without_text(s: Seq<Seq<char>>, t: Seq<char>) -> Seq<Seq<char>>
    decreases s.len(),
{
    if s.len() == 0 {
        s
    } else {
        let p = without_text(s.drop_last(), t);
        if s.last() == t {
            p
        } else {
            p.push(s.last())
        }
    }
}

/// `s` with the first `n` of `ts` added in turn.
pub open spec fn add_all(s: Seq<Seq<char>>, ts: Seq<Seq<char>>, n: nat) -> Seq<Seq<char>>
    decreases n,
{
    if n == 0 {
        s
    } else {
        with_text(add_all(s, ts, (n - 1) as nat), ts[n - 1])
    }
}

/// `s` with the first `n` of `ts` removed in turn.
pub open spec fn remove_all(s: Seq<Seq<char>>, ts: Seq<Seq<char>>, n: nat) -> Seq<Seq<char>>
    decreases n,
{
    if n == 0 {
        s
    } else {
        without_text(remove_all(s, ts, (n - 1) as nat), ts[n - 1])
    }
}

/// The tickers after a command: a subscription adds its tickers, an
/// unsubscription removes them, a command without tickers changes nothing.
pub open spec fn apply_command(s: Seq<Seq<char>>, cmd: WsCommandView) -> Seq<Seq<char>> {
    match cmd {
        WsCommandView::Subscribe(d) => match d.tickers {
            Some(ts) => add_all(s, ts, ts.len()),
            None => s,
        },
        WsCommandView::Unsubscribe(d) => match d.tickers {
            Some(ts) => remove_all(s, ts, ts.len()),
            None => s,
        },
    }
}

pub proof fn lemma_push_contains(p: Seq<Seq<char>>, e: Seq<char>)
    ensures
        forall|x: Seq<char>| #[trigger] p.push(e).contains(x) <==> (p.contains(x) || x == e),
{
    assert forall|x: Seq<char>| #[trigger] p.push(e).contains(x) <==> (p.contains(x) || x == e) by {
        if p.contains(x) {
            let k = choose|k: int| 0 <= k < p.len() && #[trigger] p[k] == x;
            assert(p.push(e)[k] == x);
        }
        if x == e {
            assert(p.push(e)[p.len() as int] == e);
        }
        if p.push(e).contains(x) && x != e {
            let k = choose|k: int| 0 <= k < p.len() + 1 && #[trigger] p.push(e)[k] == x;
            assert(p[k] == x);
        }
    }
}

proof fn lemma_push_distinct(p: Seq<Seq<char>>, e: Seq<char>)
    requires
        distinct_texts(p),
        !p.contains(e),
    ensures
        distinct_texts(p.push(e)),
{
    assert forall|i: int, j: int| 0 <= i < j < p.push(e).len() implies p.push(e)[i] != p.push(
        e,
    )[j] by {
        if j == p.len() {
            assert(p[i] == p.push(e)[i]);
        }
    }
}

pub proof fn lemma_without_text(s: Seq<Seq<char>>, t: Seq<char>)
    ensures
        forall|x: Seq<char>| #[trigger]
            without_text(s, t).contains(x) <==> (s.contains(x) && x != t),
        distinct_texts(s) ==> distinct_texts(without_text(s, t)),
    decreases s.len(),
{
    if s.len() > 0 {
        let d = s.drop_last();
        lemma_without_text(d, t);
        let p = without_text(d, t);
        assert(s =~= d.push(s.last()));
        lemma_push_contains(d, s.last());
        lemma_push_contains(p, s.last());
        if distinct_texts(s) {
            assert(distinct_texts(d));
            if s.last() != t {
                assert(!d.contains(s.last())) by {
                    if d.contains(s.last()) {
                        let k = choose|k: int| 0 <= k < d.len() && #[trigger] d[k] == s.last();
                        assert(s[k] == s[s.len() - 1]);
                    }
                }
                lemma_push_distinct(p, s.last());
            }
        }
    } else {
        assert forall|x: Seq<char>| #[trigger]
            without_text(s, t).contains(x) <==> (s.contains(x) && x != t) by {
            if s.contains(x) {
                let k = choose|k: int| 0 <= k < s.len() && #[trigger] s[k] == x;
            }
        }
    }
}

pub proof fn lemma_add_all(s: Seq<Seq<char>>, ts: Seq<Seq<char>>, n: nat)
    requires
        n <= ts.len(),
    ensures
        forall|x: Seq<char>| #[trigger]
            add_all(s, ts, n).contains(x) <==> (s.contains(x) || ts.take(n as int).contains(x)),
        distinct_texts(s) ==> distinct_texts(add_all(s, ts, n)),
    decreases n,
{
    if n > 0 {
        lemma_add_all(s, ts, (n - 1) as nat);
        let p = add_all(s, ts, (n - 1) as nat);
        let t = ts[n - 1];
        assert(ts.take(n as int) =~= ts.take(n - 1).push(t));
        lemma_push_contains(ts.take(n - 1), t);
        lemma_push_contains(p, t);
        if distinct_texts(s) && !p.contains(t) {
            lemma_push_distinct(p, t);
        }
    } else {
        assert forall|x: Seq<char>| #[trigger]
            add_all(s, ts, n).contains(x) <==> (s.contains(x) || ts.take(n as int).contains(x)) by {
            if ts.take(0).contains(x) {
                let k = choose|k: int| 0 <= k < 0 && #[trigger] ts.take(0)[k] == x;
            }
        }
    }
}

pub proof fn lemma_remove_all(s: Seq<Seq<char>>, ts: Seq<Seq<char>>, n: nat)
    requires
        n <= ts.len(),
    ensures
        forall|x: Seq<char>| #[trigger]
            remove_all(s, ts, n).contains(x) <==> (s.contains(x) && !ts.take(n as int).contains(
                x,
            )),
        distinct_texts(s) ==> distinct_texts(remove_all(s, ts, n)),
    decreases n,
{
    if n > 0 {
        lemma_remove_all(s, ts, (n - 1) as nat);
        let p = remove_all(s, ts, (n - 1) as nat);
        let t = ts[n - 1];
        lemma_without_text(p, t);
        assert(ts.take(n as int) =~= ts.take(n - 1).push(t));
        lemma_push_contains(ts.take(n - 1), t);
    } else {
        assert forall|x: Seq<char>| #[trigger]
            remove_all(s, ts, n).contains(x) <==> (s.contains(x) && !ts.take(n as int).contains(
                x,
            )) by {
            if ts.take(0).contains(x) {
                let k = choose|k: int| 0 <= k < 0 && #[trigger] ts.take(0)[k] == x;
            }
        }
    }
}

/// The tickers a connection is subscribed to, each once, in the order in
/// which they were first subscribed.
pub struct ActiveTickers {
    tickers: Vec<String>,
}

impl View for ActiveTickers {
    type V = Seq<Seq<char>>;

    closed spec fn view(&self) -> Seq<Seq<char>> {
        texts(self.tickers)
    }
}

impl ActiveTickers {
    #[verifier::type_invariant]
    spec fn no_duplicates(self) -> bool {
        distinct_texts(self@)
    }

    pub fn new() -> (r: ActiveTickers)
        ensures
            r@ == Seq::<Seq<char>>::empty(),
    {
        let r = ActiveTickers { tickers: Vec::new() };
        assert(r@ =~= Seq::<Seq<char>>::empty());
        r
    }

    pub fn len(&self) -> (r: usize)
        ensures
            r == self@.len(),
    {
        self.tickers.len()
    }

    pub fn is_empty(&self) -> (r: bool)
        ensures
            r == (self@.len() == 0),
    {
        self.tickers.len() == 0
    }

    /// No ticker is held twice.
    pub fn has_no_duplicates(&self)
        ensures
            distinct_texts(self@),
    {
        proof {
            use_type_invariant(self);
        }
    }

    pub fn contains(&self, t: &str) -> (r: bool)
        ensures
            r == self@.contains(t@),
    {
        let n = self.tickers.len();
        let mut i: usize = 0;
        while i < n
            invariant
                n == self@.len(),
                i <= n,
                forall|k: int| 0 <= k < i ==> self@[k] != t@,
            decreases n - i,
        {
            if str_eq(self.tickers[i].as_str(), t) {
                assert(self@[i as int] == t@);
                return true;
            }
            i = i + 1;
        }
        false
    }

    fn add(&mut self, t: &String)
        ensures
            final(self)@ == with_text(old(self)@, t@),
    {
        proof {
            use_type_invariant(&*self);
        }
        if !self.contains(t.as_str()) {
            let ghost before = self@;
            let mut v: Vec<String> = Vec::new();
            std::mem::swap(&mut v, &mut self.tickers);
            assert(texts(v) == before);
            v.push(t.clone());
            assert(texts(v) =~= before.push(t@));
            proof {
                lemma_push_distinct(before, t@);
            }
            self.tickers = v;
        }
    }

    fn remove(&mut self, t: &str)
        ensures
            final(self)@ == without_text(old(self)@, t@),
    {
        proof {
            use_type_invariant(&*self);
            lemma_without_text(self@, t@);
        }
        let ghost before = self@;
        let mut v: Vec<String> = Vec::new();
        std::mem::swap(&mut v, &mut self.tickers);
        let mut kept: Vec<String> = Vec::new();
        let n = v.len();
        let mut i: usize = 0;
        assert(before.take(0) =~= Seq::<Seq<char>>::empty());
        while i < n
            invariant
                n == v@.len(),
                texts(v) == before,
                i <= n,
                texts(kept) == without_text(before.take(i as int), t@),
            decreases n - i,
        {
            let ghost k0 = kept;
            assert(before.take(i + 1).drop_last() =~= before.take(i as int));
            if !str_eq(v[i].as_str(), t) {
                kept.push(v[i].clone());
                assert(texts(kept) =~= texts(k0).push(before[i as int]));
            }
            i = i + 1;
        }
        assert(before.take(n as int) =~= before);
        self.tickers = kept;
    }

    /// Applies a command: a subscription adds its tickers (each once), an
    /// unsubscription removes them.
    pub fn apply(&mut self, cmd: &WsCommand)
        ensures
            final(self)@ == apply_command(old(self)@, cmd@),
            match cmd@ {
                WsCommandView::Subscribe(d) => d.tickers matches Some(ts) ==> forall|x: Seq<char>|
                    #[trigger] final(self)@.contains(x) <==> (old(self)@.contains(x) || ts.contains(
                        x,
                    )),
                WsCommandView::Unsubscribe(d) => d.tickers matches Some(ts) ==> forall|
                    x: Seq<char>,
                | #[trigger] final(self)@.contains(x) <==> (old(self)@.contains(x) && !ts.contains(
                    x,
                )),
            },
    {
        let ghost start = self@;
        match cmd {
            WsCommand::Subscribe(d) => {
                if let Some(ts) = &d.tickers {
                    let n = ts.len();
                    let mut i: usize = 0;
                    while i < n
                        invariant
                            n == ts@.len(),
                            i <= n,
                            self@ == add_all(start, texts(*ts), i as nat),
                        decreases n - i,
                    {
                        self.add(&ts[i]);
                        i = i + 1;
                    }
                    proof {
                        lemma_add_all(start, texts(*ts), n as nat);
                        assert(texts(*ts).take(n as int) =~= texts(*ts));
                    }
                }
            },
            WsCommand::Unsubscribe(d) => {
                if let Some(ts) = &d.tickers {
                    let n = ts.len();
                    let mut i: usize = 0;
                    while i < n
                        invariant
                            n == ts@.len(),
                            i <= n,
                            self@ == remove_all(start, texts(*ts), i as nat),
                        decreases n - i,
                    {
                        self.remove(ts[i].as_str());
                        i = i + 1;
                    }
                    proof {
                        lemma_remove_all(start, texts(*ts), n as nat);
                        assert(texts(*ts).take(n as int) =~= texts(*ts));
                    }
                }
            },
        }
    }

    /// After a reconnect: a subscription to every active ticker at the
    /// default threshold, or nothing where no ticker is active.
    pub fn resubscribe_command(&self) -> (r: Option<WsCommand>)
        ensures
            self@.len() == 0 ==> r is None,
            self@.len() > 0 ==> (r matches Some(WsCommand::Subscribe(d)) && d@
                == SubscribeDataView {
                subscription_id: None,
                threshold_level: Some("5"@),
                tickers: Some(self@),
            }),
    {
        if self.tickers.len() == 0 {
            return None;
        }
        let copy = crate::workers::message::copy_texts(&self.tickers);
        Some(
            WsCommand::Subscribe(
                SubscribeData {
                    tickers: Some(copy),
                    subscription_id: None,
                    threshold_level: Some(String::from_str("5")),
                },
            ),
        )
    }
}

/// Why a connection's read loop ends: a read failure with its text, or
/// `Stream ended` where the stream closed.  Either way the connection is
/// made again and the active tickers subscribed anew.
pub fn read_loop_error(failure: Option<String>) -> (r: MsgError)
    ensures
        r@ == MsgErrorView::ReadError(
            match failure {
                Some(e) => e@,
                None => "Stream ended"@,
            },
        ),
{
    match failure {
        Some(e) => MsgError::ReadError(e),
        None => MsgError::ReadError(String::from_str("Stream ended")),
    }
}

} // verus!
