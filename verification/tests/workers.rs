use mdws::workers::ws::alpaca_normalized;
use mdws::symbol_map::TextMap;
use mdws::workers::actors::{read_loop_error, ActiveTickers, WsChannels, WsCommand};
use mdws::workers::assetclass::AssetClass;
use mdws::workers::client::{alpaca_auth_request, connection_url, needs_auth, ClientError};
use mdws::workers::config::{Config, ConfigError};
use mdws::workers::handlers::{parse_asset_class, route_event, RouteError, StreamSubEvent, SubscribePayload};
use mdws::workers::message::{frame_text, MsgError, SubscribeData, WsFrame};
use mdws::workers::streams::{
    after_failed_attempt, feed_stream_retention, subscribe_stream_retention, ProducerRetry,
    MAX_PRODUCER_ATTEMPTS,
};
use mdws::workers::ws::{alpaca_publishes, command_request, is_data_message, AlpacaKind, OutgoingRequest};

fn env(pairs: &[(&str, &str)]) -> TextMap<String> {
    let mut m = TextMap::new();
    for (k, v) in pairs {
        m.insert(k.to_string(), v.to_string());
    }
    m
}

fn full_env() -> Vec<(&'static str, &'static str)> {
    vec![
        ("TIINGO_WS_URL", "wss://api.tiingo.com"),
        ("TIINGO_API_KEY", "SECRET-REDACTED"),
        ("RABBITMQ_ADVERTISED_HOST", "localhost"),
        ("RABBITMQ_STREAM_PORT", "5552"),
        ("RABBITMQ_DEFAULT_USER", "guest"),
        ("RABBITMQ_DEFAULT_PASS", "guest"),
        ("MDWS_FEED_STREAM", "mdws-feed"),
        ("MDWS_SUBSCRIBE_STREAM", "mdws-sub"),
        ("EQUITY_TICKERS", "AAPL, MSFT"),
        ("FOREX_TICKERS", "eurusd,,usdjpy"),
        ("CRYPTO_TICKERS", " btcusd "),
    ]
}

#[test]
fn config_reads_every_variable() {
    let cfg = Config::load_env(&env(&full_env())).ok().unwrap();
    assert_eq!(cfg.data_url, "wss://api.tiingo.com");
    assert_eq!(cfg.stream_port, 5552);
    assert_eq!(cfg.feed_stream, "mdws-feed");
    assert_eq!(cfg.equity_tickers, vec!["AAPL", "MSFT"]);
    assert_eq!(cfg.forex_tickers, vec!["eurusd", "usdjpy"]);
    assert_eq!(cfg.crypto_tickers, vec!["btcusd"]);
}

#[test]
fn config_reports_the_first_missing_variable() {
    let vars: Vec<_> = full_env().into_iter().filter(|(k, _)| *k != "MDWS_FEED_STREAM" && *k != "CRYPTO_TICKERS").collect();
    match Config::load_env(&env(&vars)) {
        Err(e) => {
            assert!(matches!(&e, ConfigError::NotFound(k) if k == "MDWS_FEED_STREAM"));
            assert_eq!(e.message(), "MDWS_FEED_STREAM must be set");
        }
        Ok(_) => panic!("missing variable accepted"),
    }
}

#[test]
fn config_refuses_a_bad_port() {
    let mut vars = full_env();
    vars[3] = ("RABBITMQ_STREAM_PORT", "99999");
    match Config::load_env(&env(&vars)) {
        Err(e) => assert_eq!(
            e.message(),
            "Invalid RABBITMQ_STREAM_PORT: number too large to fit in target type"
        ),
        Ok(_) => panic!("bad port accepted"),
    }
}

#[test]
fn connection_endpoints_and_auth() {
    let cfg = Config::load_env(&env(&full_env())).ok().unwrap();
    assert_eq!(connection_url(&cfg, "wss://alpaca", AssetClass::Forex), "wss://api.tiingo.com/fx");
    assert_eq!(connection_url(&cfg, "wss://alpaca", AssetClass::Crypto), "wss://api.tiingo.com/crypto");
    assert_eq!(connection_url(&cfg, "wss://alpaca", AssetClass::Equity), "wss://alpaca");
    assert!(needs_auth(AssetClass::Equity));
    assert!(!needs_auth(AssetClass::Forex));
    let auth = alpaca_auth_request("k", "s");
    assert_eq!((auth.action.as_str(), auth.key.as_str(), auth.secret.as_str()), ("auth", "k", "s"));
    assert_eq!(AssetClass::Equity.to_string(), "iex");
}

#[test]
fn error_texts() {
    assert_eq!(ClientError::InternalServerError.message(), "Internal server error occurred");
    assert_eq!(ClientError::ConnectionFailed("refused".to_string()).message(), "Connection failed: refused");
    assert_eq!(ClientError::InvalidResponse("x".to_string()).message(), "Invalid response: x");
    assert_eq!(MsgError::ReadError("eof".to_string()).message(), "Error reading message: eof");
    assert_eq!(MsgError::SendError("eof".to_string()).message(), "Error sending message: eof");
    assert_eq!(ConfigError::ParseError("PORT".to_string()).message(), "Invalid PORT");
}

#[test]
fn frames_become_text() {
    match frame_text(WsFrame::Text("{\"a\":1}".to_string())) {
        Ok(t) => assert_eq!(t, "{\"a\":1}"),
        Err(_) => panic!("text frame refused"),
    }
    match frame_text(WsFrame::Binary(b"{}".to_vec())) {
        Ok(t) => assert_eq!(t, "{}"),
        Err(_) => panic!("binary frame refused"),
    }
    match frame_text(WsFrame::Binary(vec![0xff, 0xfe])) {
        Err(e) => assert!(e.message().starts_with("Error parsing message: Binary to UTF-8 error: invalid utf-8")),
        Ok(_) => panic!("invalid bytes accepted"),
    }
    match frame_text(WsFrame::Other) {
        Err(e) => assert_eq!(e.message(), "Error parsing message: Expected text or binary message"),
        Ok(_) => panic!("other frame accepted"),
    }
}

fn data(tickers: &[&str]) -> SubscribeData {
    SubscribeData {
        subscription_id: None,
        threshold_level: Some("5".to_string()),
        tickers: Some(tickers.iter().map(|t| t.to_string()).collect()),
    }
}

#[test]
fn equity_commands_become_uppercase_alpaca_requests() {
    let cmd = mdws::workers::ws::WsCommand::Unsubscribe(data(&["aapl", "msft"]));
    match command_request(&cmd, "key", mdws::asset::AssetClass::Equity) {
        OutgoingRequest::Alpaca(req) => {
            assert_eq!(req.action, "unsubscribe");
            let up = Some(vec!["AAPL".to_string(), "MSFT".to_string()]);
            assert_eq!(req.trades, up);
            assert_eq!(req.quotes, up);
            assert_eq!(req.bars, up);
        }
        OutgoingRequest::Tiingo(_) => panic!("equities go to Alpaca"),
    }
    let cmd = mdws::workers::ws::WsCommand::Subscribe(data(&["eurusd"]));
    match command_request(&cmd, "key", mdws::asset::AssetClass::Forex) {
        OutgoingRequest::Tiingo(req) => {
            assert_eq!(req.event_name, "subscribe");
            assert_eq!(req.authorization, "key");
            assert_eq!(req.event_data.tickers, Some(vec!["eurusd".to_string()]));
            assert_eq!(req.event_data.threshold_level, Some("5".to_string()));
        }
        OutgoingRequest::Alpaca(_) => panic!("forex goes to Tiingo"),
    }
}

#[test]
fn only_data_messages_are_published() {
    assert!(is_data_message("A"));
    assert!(!is_data_message("H"));
    assert!(alpaca_publishes(AlpacaKind::Trade));
    assert!(alpaca_publishes(AlpacaKind::Bar));
    assert!(!alpaca_publishes(AlpacaKind::Heartbeat));
    assert!(!alpaca_publishes(AlpacaKind::DailyBar));
}

#[test]
fn active_tickers_follow_commands() {
    let mut active = ActiveTickers::new();
    assert!(active.resubscribe_command().is_none());
    active.apply(&WsCommand::Subscribe(data(&["BTCUSD", "ETHUSD", "BTCUSD"])));
    assert_eq!(active.len(), 2);
    active.apply(&WsCommand::Subscribe(data(&["SOLUSD", "ETHUSD"])));
    assert_eq!(active.len(), 3);
    active.apply(&WsCommand::Unsubscribe(data(&["ETHUSD", "DOGEUSD"])));
    assert!(active.contains("BTCUSD") && active.contains("SOLUSD") && !active.contains("ETHUSD"));
    match active.resubscribe_command() {
        Some(WsCommand::Subscribe(d)) => {
            assert_eq!(d.tickers, Some(vec!["BTCUSD".to_string(), "SOLUSD".to_string()]));
            assert_eq!(d.threshold_level, Some("5".to_string()));
            assert_eq!(d.subscription_id, None);
        }
        _ => panic!("expected a resubscription"),
    }
    active.apply(&WsCommand::Unsubscribe(data(&["BTCUSD", "SOLUSD"])));
    assert!(active.is_empty());
}

#[test]
fn subscribe_then_unsubscribe_restores_tickers() {
    let mut active = ActiveTickers::new();
    active.apply(&WsCommand::Subscribe(data(&["AAPL"])));
    active.apply(&WsCommand::Subscribe(data(&["MSFT", "NFLX"])));
    active.apply(&WsCommand::Unsubscribe(data(&["MSFT", "NFLX"])));
    assert_eq!(active.len(), 1);
    assert!(active.contains("AAPL"));
}

#[test]
fn read_loop_errors() {
    assert_eq!(read_loop_error(None).message(), "Error reading message: Stream ended");
    assert_eq!(read_loop_error(Some("reset".to_string())).message(), "Error reading message: reset");
}

fn event(kind: &str, class: &str, tickers: &[&str]) -> StreamSubEvent {
    StreamSubEvent {
        event_type: kind.to_string(),
        payload: SubscribePayload {
            asset_class: class.to_string(),
            tickers: tickers.iter().map(|t| t.to_string()).collect(),
        },
    }
}

#[test]
fn subscription_events_are_routed_by_class() {
    assert_eq!(parse_asset_class("FOREX"), Some(AssetClass::Forex));
    assert_eq!(parse_asset_class("Crypto"), Some(AssetClass::Crypto));
    assert_eq!(parse_asset_class("crypto_data"), None);

    let channels = WsChannels { forex_tx: Some(1u8), crypto_tx: Some(2u8), equity_tx: None };
    assert_eq!(channels.get_channel(AssetClass::Crypto), Some(&2u8));
    match route_event(&event("subscribe", "Crypto", &["BTCUSD"]), &channels) {
        Ok((tx, WsCommand::Subscribe(d))) => {
            assert_eq!(*tx, 2);
            assert_eq!(d.tickers, Some(vec!["BTCUSD".to_string()]));
            assert_eq!(d.threshold_level, Some("5".to_string()));
        }
        _ => panic!("expected a crypto subscription"),
    }
    match route_event(&event("unsubscribe", "forex", &["EURUSD"]), &channels) {
        Ok((tx, WsCommand::Unsubscribe(_))) => assert_eq!(*tx, 1),
        _ => panic!("expected a forex unsubscription"),
    }
    assert!(matches!(
        route_event(&event("subscribe", "bonds", &[]), &channels),
        Err(RouteError::UnknownAssetClass(c)) if c == "bonds"
    ));
    assert!(matches!(
        route_event(&event("subscribe", "equity", &["AAPL"]), &channels),
        Err(RouteError::NoChannel(AssetClass::Equity))
    ));
    assert!(matches!(
        route_event(&event("pause", "forex", &["EURUSD"]), &channels),
        Err(RouteError::UnknownEventType(t)) if t == "pause"
    ));
}

#[test]
fn stream_retention_and_producer_retries() {
    let feed = feed_stream_retention();
    assert_eq!((feed.max_length_gb, feed.max_age_secs), (5, 604_800));
    let sub = subscribe_stream_retention();
    assert_eq!((sub.max_length_gb, sub.max_age_secs), (2, 259_200));
    let mut attempt = 1;
    let mut tries = 1;
    while let ProducerRetry::Retry { next_attempt, delay_secs } = after_failed_attempt(attempt) {
        assert_eq!(delay_secs, 5);
        assert_eq!(next_attempt, attempt + 1);
        attempt = next_attempt;
        tries += 1;
    }
    assert_eq!(tries, MAX_PRODUCER_ATTEMPTS);
}

#[test]
fn alpaca_frames_publish_trades_quotes_and_bars_in_order() {
    let out = alpaca_normalized(vec![
        (AlpacaKind::Success, 0),
        (AlpacaKind::Trade, 1),
        (AlpacaKind::Heartbeat, 2),
        (AlpacaKind::Bar, 3),
        (AlpacaKind::Quote, 4),
    ]);
    let data: Vec<i32> = out.iter().map(|m| m.data).collect();
    assert_eq!(data, vec![1, 3, 4]);
    for m in &out {
        assert_eq!(m.message_type, "A");
        assert_eq!(m.service, Some("alpaca-iex".to_string()));
    }
    assert!(alpaca_normalized(Vec::<(AlpacaKind, i32)>::new()).is_empty());
}
