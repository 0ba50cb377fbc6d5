//! Commands for the feed connections and the requests they become, per
//! asset class (Tiingo for crypto and forex, Alpaca for equities), and the
//! choice of which incoming messages are published.
use vstd::prelude::*;
use vstd::string::*;
use crate::asset::AssetClass;
use crate::text::{to_uppercase, uppercase_text, str_eq, texts};
use crate::workers::message::{
    SubscribeData, SubscribeDataView, SubscribeRequest, AlpacaSubscribeRequest, texts_opt,
};

verus! {

/// What a feed connection is asked to do.
pub enum WsCommand {
    Subscribe(SubscribeData),
    Unsubscribe(SubscribeData),
}

/// The command senders of the connections that are up, one per class.
pub struct WsChannels<T> {
    pub forex_tx: Option<T>,
    pub crypto_tx: Option<T>,
    pub equity_tx: Option<T>,
}

/// `r` refers to the content of `o`.
pub open spec fn refers_to<T>(r: Option<&T>, o: Option<T>) -> bool {
    match (r, o) {
        (Some(x), Some(y)) => *x == y,
        (None, None) => true,
        _ => false,
    }
}

impl<T> WsChannels<T> {
    pub open spec fn channel_for(self, asset: AssetClass) -> Option<T> {
        match asset {
            AssetClass::Forex => self.forex_tx,
            AssetClass::Crypto => self.crypto_tx,
            AssetClass::Equity => self.equity_tx,
        }
    }

    /// The sender of a class's connection, if it is up.
    pub fn get_channel(&self, asset: AssetClass) -> (r: Option<&T>)
        ensures
            refers_to(r, self.channel_for(asset)),
    {
        match asset {
            AssetClass::Forex => self.forex_tx.as_ref(),
            AssetClass::Crypto => self.crypto_tx.as_ref(),
            AssetClass::Equity => self.equity_tx.as_ref(),
        }
    }
}

/// A request for one of the two providers.
pub enum OutgoingRequest {
    Tiingo(SubscribeRequest),
    Alpaca(AlpacaSubscribeRequest),
}

/// Each ticker in upper case.
pub fn uppercase_all(v: &Vec<String>) -> (r: Vec<String>)
    ensures
        texts(r) == texts(*v).map_values(|t: Seq<char>| uppercase_text(t)),
{
    let mut out: Vec<String> = Vec::new();
    let mut i: usize = 0;
    while i < v.len()
        invariant
            i <= v@.len(),
            out@.len() == i,
            texts(out) == texts(*v).map_values(|t: Seq<char>| uppercase_text(t)).take(i as int),
        decreases v@.len() - i,
    {
        let ghost before = out;
        let u = to_uppercase(v[i].as_str());
        out.push(u);
        assert(out@ == before@.push(u));
        assert(texts(out) =~= texts(*v).map_values(|t: Seq<char>| uppercase_text(t)).take(
            i + 1,
        ));
        i = i + 1;
    }
    assert(texts(*v).map_values(|t: Seq<char>| uppercase_text(t)).take(v@.len() as int) =~= texts(
        *v,
    ).map_values(|t: Seq<char>| uppercase_text(t)));
    out
}

pub open spec fn uppercase_opt(v: Option<Seq<Seq<char>>>) -> Option<Seq<Seq<char>>> {
    match v {
        Some(t) => Some(t.map_values(|x: Seq<char>| uppercase_text(x))),
        None => None,
    }
}

/// The request text of a command: `subscribe` or `unsubscribe`.
pub open spec fn command_action(cmd: WsCommand) -> Seq<char> {
    match cmd {
        WsCommand::Subscribe(_) => "subscribe"@,
        WsCommand::Unsubscribe(_) => "unsubscribe"@,
    }
}

pub open spec fn command_data(cmd: WsCommand) -> SubscribeDataView {
    match cmd {
        WsCommand::Subscribe(d) => d@,
        WsCommand::Unsubscribe(d) => d@,
    }
}

/// The request a command becomes: for equities an Alpaca request on the
/// trade, quote and bar channels with the tickers in upper case; otherwise
/// a Tiingo request carrying the API key and the command's data.
pub open spec fn command_request_matches(r: OutgoingRequest, cmd: WsCommand, api_key: Seq<char>, asset_class: AssetClass) -> bool {
    if asset_class == AssetClass::Equity {
        r matches OutgoingRequest::Alpaca(req) && req.action@ == command_action(cmd) && texts_opt(
            req.trades,
        ) == uppercase_opt(command_data(cmd).tickers) && texts_opt(req.quotes) == uppercase_opt(
            command_data(cmd).tickers,
        ) && texts_opt(req.bars) == uppercase_opt(command_data(cmd).tickers)
    } else {
        r matches OutgoingRequest::Tiingo(req) && req.event_name@ == command_action(cmd)
            && req.authorization@ == api_key && req.event_data@ == command_data(cmd)
    }
}

fn uppercase_opt_exec(v: &Option<Vec<String>>) -> (r: Option<Vec<String>>)
    ensures
        texts_opt(r) == uppercase_opt(texts_opt(*v)),
{
    match v {
        Some(t) => Some(uppercase_all(t)),
        None => None,
    }
}

/// The request to send on a class's connection for a command.
pub fn command_request(cmd: &WsCommand, api_key: &str, asset_class: AssetClass) -> (r: OutgoingRequest)
    ensures
        command_request_matches(r, *cmd, api_key@, asset_class),
{
    let (action, data) = match cmd {
        WsCommand::Subscribe(d) => ("subscribe", d),
        WsCommand::Unsubscribe(d) => ("unsubscribe", d),
    };
    if asset_class == AssetClass::Equity {
        OutgoingRequest::Alpaca(
            AlpacaSubscribeRequest {
                action: String::from_str(action),
                trades: uppercase_opt_exec(&data.tickers),
                quotes: uppercase_opt_exec(&data.tickers),
                bars: uppercase_opt_exec(&data.tickers),
            },
        )
    } else {
        OutgoingRequest::Tiingo(
            SubscribeRequest {
                event_name: String::from_str(action),
                authorization: String::from_str(api_key),
                event_data: data.copy(),
            },
        )
    }
}

/// A Tiingo message is published when it carries data (type `A`).
pub fn is_data_message(message_type: &str) -> (r: bool)
    ensures
        r == (message_type@ == "A"@),
{
    str_eq(message_type, "A")
}

/// The kinds of Alpaca messages, by their `T` tag.
#[derive(Clone, Copy, Debug, PartialEq, Eq, Structural)]
pub enum AlpacaKind {
    Success,
    Error,
    Subscription,
    Trade,
    Quote,
    Bar,
    DailyBar,
    UpdatedBar,
    Correction,
    Cancel,
    Luld,
    Status,
    Imbalance,
    Heartbeat,
}

/// Trades, quotes and bars are published; the rest is only logged.
pub fn alpaca_publishes(kind: AlpacaKind) -> (r: bool)
    ensures
        r == (kind == AlpacaKind::Trade || kind == AlpacaKind::Quote || kind == AlpacaKind::Bar),
{
    match kind {
        AlpacaKind::Trade | AlpacaKind::Quote | AlpacaKind::Bar => true,
        _ => false,
    }
}

/// A message as it is published on the market data stream: type `A`,
/// the service that sent it, and the message itself as data.
pub struct PublishedMessage<M> {
    pub message_type: String,
    pub service: Option<String>,
    pub data: M,
}

/// The data of the messages that are published, in the order received.
pub open spec fn published_data<M>(messages: Seq<(AlpacaKind, M)>) -> Seq<M>
    decreases messages.len(),
{
    if messages.len() == 0 {
        Seq::empty()
    } else {
        let rest = published_data(messages.drop_first());
        let k = messages[0].0;
        if k == AlpacaKind::Trade || k == AlpacaKind::Quote || k == AlpacaKind::Bar {
            seq![messages[0].1] + rest
        } else {
            rest
        }
    }
}

/// The Alpaca messages of one frame (each with its kind) as they are
/// published: trades, quotes and bars, in the order received, each as a
/// data message (`A`) of service `alpaca-iex`; the rest is not published.
pub fn alpaca_normalized<M>(messages: Vec<(AlpacaKind, M)>) -> (r: Vec<PublishedMessage<M>>)
    ensures
        r@.map_values(|p: PublishedMessage<M>| p.data) == published_data(messages@),
        forall|i: int|
            0 <= i < r@.len() ==> (#[trigger] r@[i]).message_type@ == "A"@ && (r@[i].service matches Some(
                s,
            ) && s@ == "alpaca-iex"@),
{
    let ghost all = messages@;
    let mut rest = messages;
    let mut out: Vec<PublishedMessage<M>> = Vec::new();
    while rest.len() > 0
        invariant
            out@.map_values(|p: PublishedMessage<M>| p.data) + published_data(rest@)
                == published_data(all),
            forall|i: int|
                0 <= i < out@.len() ==> (#[trigger] out@[i]).message_type@ == "A"@ && (
                out@[i].service matches Some(s) && s@ == "alpaca-iex"@),
        decreases rest@.len(),
    {
        let ghost before = rest@;
        let ghost out0 = out@;
        let (kind, data) = rest.remove(0);
        assert(rest@ == before.drop_first());
        if alpaca_publishes(kind) {
            out.push(
                PublishedMessage {
                    message_type: String::from_str("A"),
                    service: Some(String::from_str("alpaca-iex")),
                    data,
                },
            );
            assert(out@.map_values(|p: PublishedMessage<M>| p.data) =~= out0.map_values(
                |p: PublishedMessage<M>| p.data,
            ).push(data));
            assert(published_data(before) == seq![data] + published_data(rest@));
            assert(out0.map_values(|p: PublishedMessage<M>| p.data).push(data) + published_data(rest@)
                =~= out0.map_values(|p: PublishedMessage<M>| p.data) + (seq![data] + published_data(rest@)));
        } else {
            assert(published_data(before) == published_data(rest@));
        }
    }
    assert(published_data(rest@) =~= Seq::<M>::empty());
    assert(out@.map_values(|p: PublishedMessage<M>| p.data) + Seq::<M>::empty() =~= out@.map_values(
        |p: PublishedMessage<M>| p.data,
    ));
    out
}

} // verus!
