//! Subscription events from the message stream, and how each becomes a
//! command for the connection of its asset class.
use vstd::prelude::*;
use vstd::string::*;
use crate::text::{lowercase_text, to_lowercase, str_eq};
use crate::workers::assetclass::AssetClass;
use crate::workers::actors::{WsChannels, WsCommand, WsCommandView};
use crate::workers::message::{SubscribeData, SubscribeDataView, copy_texts};
use crate::text::texts;

verus! {

/// A subscription event as the stream carries it (`type` and `payload`).
pub struct StreamSubEvent {
    pub event_type: String,
    pub payload: SubscribePayload,
}

/// The payload of a subscription event (`assetClass` and `tickers`).
pub struct SubscribePayload {
    pub asset_class: String,
    pub tickers: Vec<String>,
}

/// Why an event was not turned into a command.
#[derive(Debug)]
pub enum RouteError {
    /// The asset class is none of forex, crypto, equity.
    UnknownAssetClass(String),
    /// The class's connection is not up.
    NoChannel(AssetClass),
    /// The event type is neither `subscribe` nor `unsubscribe`.
    UnknownEventType(String),
}

/// The class a lowercased name denotes.
pub open spec fn class_from_lower(lower: Seq<char>) -> Option<AssetClass> {
    if lower == "forex"@ {
        Some(AssetClass::Forex)
    } else if lower == "crypto"@ {
        Some(AssetClass::Crypto)
    } else if lower == "equity"@ {
        Some(AssetClass::Equity)
    } else {
        None
    }
}

/// The class named by `s` in any letter case: `forex`, `crypto` or `equity`.
pub fn parse_asset_class(s: &str) -> (r: Option<AssetClass>)
    ensures
        r == class_from_lower(lowercase_text(s@)),
{
    let lower = to_lowercase(s);
    if str_eq(lower.as_str(), "forex") {
        Some(AssetClass::Forex)
    } else if str_eq(lower.as_str(), "crypto") {
        Some(AssetClass::Crypto)
    } else if str_eq(lower.as_str(), "equity") {
        Some(AssetClass::Equity)
    } else {
        None
    }
}

/// The data of the command an event becomes: its tickers at threshold `5`,
/// with no subscription id.
pub open spec fn event_data(tickers: Seq<Seq<char>>) -> SubscribeDataView {
    SubscribeDataView {
        subscription_id: None,
        threshold_level: Some("5"@),
        tickers: Some(tickers),
    }
}

/// What an event gives: an unknown class is refused first, then a class
/// whose connection is down, then an unknown event type; otherwise the
/// class's sender and a subscribe or unsubscribe command.
pub open spec fn route_matches<T>(
    r: Result<(&T, WsCommand), RouteError>,
    event: StreamSubEvent,
    channels: WsChannels<T>,
) -> bool {
    match class_from_lower(lowercase_text(event.payload.asset_class@)) {
        None => r matches Err(RouteError::UnknownAssetClass(s)) && s@
            == event.payload.asset_class@,
        Some(asset) => match channels.channel_for(asset) {
            None => r matches Err(RouteError::NoChannel(a)) && a == asset,
            Some(tx) => {
                let data = event_data(texts(event.payload.tickers));
                if event.event_type@ == "subscribe"@ {
                    r matches Ok((t, cmd)) && *t == tx && cmd@ == WsCommandView::Subscribe(data)
                } else if event.event_type@ == "unsubscribe"@ {
                    r matches Ok((t, cmd)) && *t == tx && cmd@ == WsCommandView::Unsubscribe(data)
                } else {
                    r matches Err(RouteError::UnknownEventType(s)) && s@ == event.event_type@
                }
            },
        },
    }
}

/// Turns a subscription event into the command to send and the sender of
/// the connection that takes it.
pub fn route_event<'a, T>(event: &StreamSubEvent, channels: &'a WsChannels<T>) -> (r: Result<
    (&'a T, WsCommand),
    RouteError,
>)
    ensures
        route_matches(r, *event, *channels),
{
    let asset = match parse_asset_class(event.payload.asset_class.as_str()) {
        Some(a) => a,
        None => {
            return Err(RouteError::UnknownAssetClass(event.payload.asset_class.clone()));
        },
    };
    let tx = match channels.get_channel(asset) {
        Some(t) => t,
        None => {
            return Err(RouteError::NoChannel(asset));
        },
    };
    let data = SubscribeData {
        subscription_id: None,
        threshold_level: Some(String::from_str("5")),
        tickers: Some(copy_texts(&event.payload.tickers)),
    };
    if str_eq(event.event_type.as_str(), "subscribe") {
        Ok((tx, WsCommand::Subscribe(data)))
    } else if str_eq(event.event_type.as_str(), "unsubscribe") {
        Ok((tx, WsCommand::Unsubscribe(data)))
    } else {
        Err(RouteError::UnknownEventType(event.event_type.clone()))
    }
}

} // verus!
