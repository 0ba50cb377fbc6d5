use mdws::analytics::api::{answer_columns, cell_text, AnswerCell};
use mdws::analytics::api::{
    aggregated_columns, analysis_query, completion_report, empty_response, failure_report,
    float_columns, job_result_key, job_status_key, processing_report, stream_url, submit_job,
};
use mdws::analytics::config::AppConfig;
use mdws::analytics::screens::{
    centered_percentages, crypto_update_label, dashboard_tab_index, equity_update_label,
    manage_list_title, manage_tab_index, screen_index, table_columns,
};
use mdws::analytics::tui::{Key, StatusColor, TuiApp};
use mdws::analytics::types::{
    ActiveScreen, AnalyzeRequest, ApiError, AppMessage, AssetClass, ConfirmationPayload,
    JobEvent, ManageAction, WsResponse,
};
use mdws::symbol_map::TextMap;

fn tickers(ts: &[&str]) -> Vec<String> {
    ts.iter().map(|t| t.to_string()).collect()
}

#[test]
fn analytics_asset_class_text() {
    for c in [AssetClass::Crypto, AssetClass::Forex, AssetClass::Equity] {
        assert_eq!(AssetClass::from_str(&c.to_string()), Ok(c));
    }
    assert_eq!(AssetClass::from_str("FOREX"), Ok(AssetClass::Forex));
    assert_eq!(
        AssetClass::from_str("crypto_data"),
        Err("Unknown AssetClass: crypto_data".to_string())
    );
}

#[test]
fn api_error_texts_and_responses() {
    let e = ApiError::Redis("refused".to_string());
    assert_eq!(e.message(), "Redis error: refused");
    assert_eq!(e.into_response(), (500, "Redis error: refused".to_string()));
    let j = ApiError::Json("eof".to_string());
    assert_eq!(j.message(), "JSON error: eof");
    assert_eq!(j.into_response(), (500, "JSON serialization/deserialization error: eof".to_string()));
    let b: ApiError = ApiError::from("no tickers".to_string());
    assert_eq!(b.message(), "Bad request: no tickers");
    assert_eq!(b.into_response().0, 400);
    assert_eq!(ApiError::Snowflake("x".to_string()).message(), "Snowflake error: x");
}

#[test]
fn job_keys_and_stream_address() {
    assert_eq!(job_status_key("42"), "job_status:42");
    assert_eq!(job_result_key("42"), "job_result:42");
    assert_eq!(stream_url(7_123_456_789), "/analyze/7123456789/stream");
    match submit_job() {
        Ok(t) => assert_eq!(t.stream_url, format!("/analyze/{}/stream", t.job_id)),
        Err(e) => assert!(e.message().starts_with("Snowflake error: ")),
    }
}

#[test]
fn job_reports() {
    let (status, ev) = processing_report();
    assert_eq!(status, "Processing");
    assert_eq!(ev.name(), "processing");
    let (status, ev) = completion_report(serde_json::Value::Null);
    assert_eq!(status, "Completed");
    assert_eq!(ev.name(), "completed");
    let (status, ev) = failure_report(&ApiError::Influx("timeout".to_string()));
    assert_eq!(status, "Failed: InfluxDB error: timeout");
    match ev {
        JobEvent::Failed { error } => assert_eq!(error, "Analysis failed: InfluxDB error: timeout"),
        _ => panic!("expected a failure"),
    }
}

#[test]
fn analysis_queries() {
    let req = AnalyzeRequest { asset_class: AssetClass::Crypto, tickers: tickers(&["BTCUSD", "ETHUSD"]) };
    assert_eq!(
        analysis_query(&req).unwrap(),
        "SELECT * FROM crypto WHERE ticker = 'BTCUSD' OR ticker = 'ETHUSD'"
    );
    let one = AnalyzeRequest { asset_class: AssetClass::Forex, tickers: tickers(&["EURUSD"]) };
    assert_eq!(analysis_query(&one).unwrap(), "SELECT * FROM forex WHERE ticker = 'EURUSD'");
    let none = AnalyzeRequest { asset_class: AssetClass::Forex, tickers: vec![] };
    assert!(analysis_query(&none).is_none());
    assert_eq!(float_columns(AssetClass::Crypto), vec!["last_price", "last_size"]);
    assert_eq!(float_columns(AssetClass::Forex), vec!["bid_price", "ask_price", "mid_price"]);
    assert_eq!(aggregated_columns(AssetClass::Crypto), ("last_price", "avg_price"));
    assert_eq!(aggregated_columns(AssetClass::Forex), ("mid_price", "avg_mid"));
    let empty = empty_response(AssetClass::Equity);
    assert_eq!((empty.job_id.as_str(), empty.asset_class.as_str(), empty.data.len()), ("", "equity", 0));
}

#[test]
fn app_config_reads_environment() {
    let mut vars = TextMap::new();
    for (k, v) in [
        ("INFLUXDB_URL", "http://influx:8086"),
        ("INFLUXDB_TOKEN", "SECRET-REDACTED"),
        ("REDIS_ADDRS", "redis://redis:6379"),
        ("INFLUXDB_BUCKET", "mdws"),
        ("MDANALYTICS_URL", "0.0.0.0:8000"),
    ] {
        vars.insert(k.to_string(), v.to_string());
    }
    let cfg = AppConfig::load(&vars);
    assert_eq!(cfg.log, "debug,mdanalytics=debug,tower_http=debug,axum::rejection=info");
    assert_eq!(cfg.db_bucket, "mdws");
    assert_eq!(cfg.app_url, "0.0.0.0:8000");
    vars.insert("RUST_LOG".to_string(), "info".to_string());
    assert_eq!(AppConfig::load(&vars).log, "info");
}

#[test]
fn tui_starts_on_the_forex_dashboard() {
    let app: TuiApp<u32> = TuiApp::new();
    assert!(app.running);
    assert_eq!(app.selected_tab, AssetClass::Forex);
    assert_eq!(app.active_screen, ActiveScreen::Dashboard);
    assert_eq!(app.manage_selected_asset_class, AssetClass::Crypto);
    assert_eq!(app.ws_status_message, "Ready");
    assert_eq!(app.ws_status_color, StatusColor::Gray);
    assert_eq!(app.tickers.crypto, tickers(&["BTCUSD", "DOGEUSD", "SOLUSD", "ETHUSD"]));
    assert_eq!(app.tickers.forex, tickers(&["USDZAR", "EURZAR", "USDJPY"]));
    assert_eq!(app.tickers.equity, tickers(&["GOOGL", "AAPL", "MSFT", "NFLX"]));
    assert_eq!(ActiveScreen::default(), ActiveScreen::Dashboard);
}

#[test]
fn tabs_cycle_and_go_back() {
    let mut app: TuiApp<u32> = TuiApp::new();
    app.next_tab();
    assert_eq!(app.selected_tab, AssetClass::Crypto);
    app.next_tab();
    assert_eq!(app.selected_tab, AssetClass::Equity);
    app.next_tab();
    assert_eq!(app.selected_tab, AssetClass::Forex);
    app.next_tab();
    app.prev_tab();
    assert_eq!(app.selected_tab, AssetClass::Forex);
    app.prev_tab();
    assert_eq!(app.selected_tab, AssetClass::Equity);
    app.next_screen();
    assert_eq!(app.active_screen, ActiveScreen::Manage);
    app.prev_screen();
    assert_eq!(app.active_screen, ActiveScreen::Dashboard);
}

#[test]
fn market_updates_are_kept_per_class_and_ticker() {
    let mut app: TuiApp<u32> = TuiApp::new();
    app.update_market_data("crypto", "BTCUSD".to_string(), 1);
    app.update_market_data("crypto", "BTCUSD".to_string(), 2);
    app.update_market_data("forex", "EURUSD".to_string(), 3);
    app.update_market_data("Crypto", "ETHUSD".to_string(), 4);
    assert_eq!(app.crypto.len(), 1);
    assert_eq!(app.crypto.get("BTCUSD"), Some(&2));
    assert_eq!(app.forex.get("EURUSD"), Some(&3));
    assert_eq!(app.equity.len(), 0);
}

#[test]
fn manage_selection_stays_on_the_list() {
    let mut app: TuiApp<u32> = TuiApp::new();
    app.select_prev_manage_ticker();
    assert_eq!(app.manage_selected_ticker_index, 0);
    for _ in 0..10 {
        app.select_next_manage_ticker();
    }
    assert_eq!(app.manage_selected_ticker_index, 3);
    app.select_prev_manage_ticker();
    assert_eq!(app.manage_selected_ticker_index, 2);
    app.manage_selected_ticker_index = usize::MAX;
    app.select_next_manage_ticker();
    assert_eq!(app.manage_selected_ticker_index, 3);
}

#[test]
fn confirming_a_subscription_sends_a_request() {
    let mut app: TuiApp<u32> = TuiApp::new();
    app.select_next_manage_ticker();
    app.trigger_subscribe_popup();
    assert!(app.show_popup);
    assert_eq!(app.popup_text(), "Confirm subscription to DOGEUSD?");
    let req = app.confirm_manage_action().unwrap();
    assert_eq!(req.request_type, "subscribe");
    assert_eq!(req.asset_class, AssetClass::Crypto);
    assert_eq!(req.tickers, tickers(&["DOGEUSD"]));
    assert!(!app.show_popup);
    assert_eq!(app.popup_action, None);
    assert_eq!(
        app.pending_manage_action,
        Some((ManageAction::Subscribe, AssetClass::Crypto, "DOGEUSD".to_string()))
    );
    assert!(app.confirm_manage_action().is_none());
}

#[test]
fn confirming_past_the_list_names_an_unknown_ticker() {
    let mut app: TuiApp<u32> = TuiApp::new();
    app.manage_selected_ticker_index = 9;
    app.trigger_unsubscribe_popup();
    assert_eq!(app.popup_text(), "Confirm unsubscription from Unknown?");
    let req = app.confirm_manage_action().unwrap();
    assert_eq!(req.request_type, "unsubscribe");
    assert_eq!(req.tickers, tickers(&["UNKNOWN_TICKER"]));
}

#[test]
fn cancelling_closes_the_popup() {
    let mut app: TuiApp<u32> = TuiApp::new();
    assert_eq!(app.popup_text(), "Confirm action?");
    app.trigger_subscribe_popup();
    app.cancel_manage_action();
    assert!(!app.show_popup);
    assert!(app.confirm_manage_action().is_none());
    assert_eq!(app.pending_manage_action, None);
}

fn confirmation(asset: &str, status: &str, symbols: &[&str]) -> WsResponse {
    WsResponse {
        message_type: "unsubscribe".to_string(),
        payload: ConfirmationPayload {
            asset: asset.to_string(),
            status: status.to_string(),
            symbol: tickers(symbols),
        },
    }
}

#[test]
fn confirmations_settle_the_pending_action() {
    let mut app: TuiApp<u32> = TuiApp::new();
    app.handle_confirmation(&confirmation("crypto", "subscribed", &["BTCUSD", "ETHUSD"]));
    assert_eq!(app.ws_status_message, "WS Confirmation: No pending action for 'BTCUSD, ETHUSD'");
    assert_eq!(app.ws_status_color, StatusColor::Yellow);

    app.update_market_data("crypto", "BTCUSD".to_string(), 1);
    app.trigger_unsubscribe_popup();
    app.confirm_manage_action();
    app.handle_confirmation(&confirmation("Crypto", "unsubscribed", &["BTCUSD"]));
    assert_eq!(app.ws_status_message, "Successfully unsubscribed from BTCUSD");
    assert_eq!(app.ws_status_color, StatusColor::Green);
    assert_eq!(app.crypto.len(), 0);
    assert_eq!(app.pending_manage_action, None);

    app.trigger_subscribe_popup();
    app.confirm_manage_action();
    app.handle_confirmation(&confirmation("crypto", "subscribed", &["BTCUSD"]));
    assert_eq!(app.ws_status_message, "Successfully subscribed to BTCUSD");

    app.trigger_subscribe_popup();
    app.confirm_manage_action();
    app.handle_confirmation(&confirmation("bonds", "subscribed", &["X"]));
    assert_eq!(app.ws_status_message, "WS Confirmation: Unknown asset class: bonds");
    assert_eq!(app.ws_status_color, StatusColor::Red);

    app.trigger_subscribe_popup();
    app.confirm_manage_action();
    app.handle_confirmation(&confirmation("forex", "subscribed", &[]));
    assert_eq!(app.ws_status_message, "WS Confirmation: Missing ticker symbol");

    app.trigger_subscribe_popup();
    app.confirm_manage_action();
    app.handle_confirmation(&confirmation("forex", "queued", &["EURUSD"]));
    assert_eq!(app.ws_status_message, "Unhandled status: queued for EURUSD");
    assert_eq!(app.ws_status_color, StatusColor::Yellow);

    app.clear_status();
    assert_eq!(app.ws_status_message, "Ready");
    assert_eq!(app.ws_status_color, StatusColor::Gray);
}

#[test]
fn main_loop_messages() {
    let mut app: TuiApp<u32> = TuiApp::new();
    app.handle_message(AppMessage::MarketData(("equity".to_string(), "AAPL".to_string(), 5)));
    assert_eq!(app.equity.get("AAPL"), Some(&5));
    app.set_ws_status("hello".to_string(), StatusColor::Red);
    app.handle_message(AppMessage::ClearStatus);
    assert_eq!(app.ws_status_message, "Ready");
    app.handle_message(AppMessage::WsConfirmation(confirmation("forex", "subscribed", &["A"])));
    assert_eq!(app.ws_status_message, "WS Confirmation: No pending action for 'A'");
}

#[test]
fn keys_drive_the_client() {
    let mut app: TuiApp<u32> = TuiApp::new();
    assert!(app.handle_key(Key::Right).is_none());
    assert_eq!(app.selected_tab, AssetClass::Crypto);
    app.handle_key(Key::Char('h'));
    assert_eq!(app.selected_tab, AssetClass::Forex);
    app.handle_key(Key::Tab);
    assert_eq!(app.active_screen, ActiveScreen::Manage);
    app.handle_key(Key::Down);
    assert_eq!(app.manage_selected_ticker_index, 1);
    app.handle_key(Key::Char('l'));
    assert_eq!(app.manage_selected_asset_class, AssetClass::Forex);
    assert_eq!(app.manage_selected_ticker_index, 0);
    app.handle_key(Key::Left);
    app.handle_key(Key::Left);
    assert_eq!(app.manage_selected_asset_class, AssetClass::Equity);
    app.handle_key(Key::Char('s'));
    assert!(app.show_popup);
    assert!(app.handle_key(Key::Down).is_none());
    assert_eq!(app.manage_selected_ticker_index, 0);
    let req = app.handle_key(Key::Enter).unwrap();
    assert_eq!((req.request_type.as_str(), req.asset_class), ("subscribe", AssetClass::Equity));
    assert_eq!(req.tickers, tickers(&["GOOGL"]));
    app.handle_key(Key::Char('u'));
    app.handle_key(Key::Esc);
    assert!(!app.show_popup);
    app.handle_key(Key::BackTab);
    assert_eq!(app.active_screen, ActiveScreen::Dashboard);
    app.handle_key(Key::Char('q'));
    assert!(!app.running);
}

#[test]
fn screen_layout_helpers() {
    assert_eq!(dashboard_tab_index(AssetClass::Crypto), 1);
    assert_eq!(manage_tab_index(AssetClass::Crypto), 0);
    assert_eq!(screen_index(ActiveScreen::Manage), 1);
    assert_eq!(manage_list_title(AssetClass::Forex), "Available forex Tickers");
    assert_eq!(centered_percentages(60), (20, 60, 20));
    assert_eq!(centered_percentages(25), (37, 25, 37));
    for c in [AssetClass::Crypto, AssetClass::Forex, AssetClass::Equity] {
        let total: u32 = table_columns(c).iter().map(|(_, w)| *w as u32).sum();
        assert_eq!(total, 100);
    }
    assert_eq!(table_columns(AssetClass::Equity)[3], ("Vol/Size", 25));
    assert_eq!(crypto_update_label("T"), "Trade");
    assert_eq!(crypto_update_label("Q"), "Quote");
    assert_eq!(equity_update_label("B"), "Bar");
    assert_eq!(equity_update_label("X"), "X");
    let mut app: TuiApp<u32> = TuiApp::new();
    assert_eq!(app.manage_list_selection(), Some(0));
    app.tickers.crypto.clear();
    assert_eq!(app.manage_list_selection(), None);
}

#[test]
fn query_answers_are_read_column_by_column() {
    let names = tickers(&["time", "ticker", "mid_price"]);
    let rows = vec![
        vec![Some("t1".to_string()), Some("EURUSD".to_string()), Some("1.08".to_string())],
        vec![Some("t2".to_string()), None],
    ];
    let cols = answer_columns(&names, &rows);
    assert_eq!(cols.len(), 3);
    assert_eq!(cols[0], ("time".to_string(), vec![Some("t1".to_string()), Some("t2".to_string())]));
    assert_eq!(cols[1].1, vec![Some("EURUSD".to_string()), None]);
    assert_eq!(cols[2].1, vec![Some("1.08".to_string()), None]);
}

#[test]
fn answer_cells_become_text() {
    assert_eq!(cell_text(AnswerCell::Null), None);
    assert_eq!(cell_text(AnswerCell::Text("EURUSD".to_string())), Some("EURUSD".to_string()));
    assert_eq!(cell_text(AnswerCell::Other("1.08".to_string())), Some("1.08".to_string()));
}
