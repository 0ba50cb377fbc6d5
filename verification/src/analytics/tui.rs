//! The terminal client's state: the latest update per ticker and class,
//! the tabs and screens, the manage screen's selection and confirmation,
//! the pending subscription and the status line; and what each key press
//! and each server confirmation does to it.
use vstd::prelude::*;
use vstd::string::*;
use crate::text::{lowercase_text, str_eq, join, join_texts, texts, concat};
use crate::symbol_map::{TextMap, Entries, insert_entry, remove_entry};

use crate::analytics::types::{
    AssetClass, ActiveScreen, ManageAction, SubscriptionRequest, WsResponse, AppMessage
};

verus! {

/// The colours of the status line.
#[derive(Clone, Copy, Debug, PartialEq, Eq, Structural)]
pub enum StatusColor {
    Gray,
    Green,
    Yellow,
    Red,
}

/// The keys the client reacts to (presses only).
#[derive(Clone, Copy, Debug, PartialEq, Eq, Structural)]
pub enum Key {
    Char(char),
    Tab,
    BackTab,
    Enter,
    Esc,
    Up,
    Down,
    Left,
    Right,
    Other,
}

/// The dashboard tabs in turn: forex, crypto, equity.
pub open spec fn next_tab_of(c: AssetClass) -> AssetClass {
    match c {
        AssetClass::Forex => AssetClass::Crypto,
        AssetClass::Crypto => AssetClass::Equity,
        AssetClass::Equity => AssetClass::Forex,
    }
}

pub open spec fn prev_tab_of(c: AssetClass) -> AssetClass {
    match c {
        AssetClass::Crypto => AssetClass::Forex,
        AssetClass::Forex => AssetClass::Equity,
        AssetClass::Equity => AssetClass::Crypto,
    }
}

/// The manage screen's classes in turn: crypto, forex, equity.
pub open spec fn next_manage_class_of(c: AssetClass) -> AssetClass {
    match c {
        AssetClass::Crypto => AssetClass::Forex,
        AssetClass::Forex => AssetClass::Equity,
        AssetClass::Equity => AssetClass::Crypto,
    }
}

pub open spec fn prev_manage_class_of(c: AssetClass) -> AssetClass {
    match c {
        AssetClass::Crypto => AssetClass::Equity,
        AssetClass::Equity => AssetClass::Forex,
        AssetClass::Forex => AssetClass::Crypto,
    }
}

pub open spec fn other_screen(s: ActiveScreen) -> ActiveScreen {
    match s {
        ActiveScreen::Dashboard => ActiveScreen::Manage,
        ActiveScreen::Manage => ActiveScreen::Dashboard,
    }
}

/// Moving to the next tab and back, or back and on, returns to the tab.
pub proof fn lemma_tabs_cycle(c: AssetClass)
    ensures
        prev_tab_of(next_tab_of(c)) == c,
        next_tab_of(prev_tab_of(c)) == c,
        next_tab_of(next_tab_of(next_tab_of(c))) == c,
        prev_manage_class_of(next_manage_class_of(c)) == c,
        next_manage_class_of(prev_manage_class_of(c)) == c,
        next_manage_class_of(next_manage_class_of(next_manage_class_of(c))) == c,
{
}

/// Switching screens twice returns to the screen.
pub proof fn lemma_screens_toggle(s: ActiveScreen)
    ensures
        other_screen(other_screen(s)) == s,
        other_screen(s) != s,
{
}

/// The tickers the manage screen offers, per class.
pub struct TickerLists {
    pub crypto: Vec<String>,
    pub forex: Vec<String>,
    pub equity: Vec<String>,
}

pub struct TickerListsView {
    pub crypto: Seq<Seq<char>>,
    pub forex: Seq<Seq<char>>,
    pub equity: Seq<Seq<char>>,
}

impl TickerListsView {
    pub open spec fn of(self, c: AssetClass) -> Seq<Seq<char>> {
        match c {
            AssetClass::Crypto => self.crypto,
            AssetClass::Forex => self.forex,
            AssetClass::Equity => self.equity,
        }
    }
}

impl View for TickerLists {
    type V = TickerListsView;

    open spec fn view(&self) -> TickerListsView {
        TickerListsView {
            crypto: texts(self.crypto),
            forex: texts(self.forex),
            equity: texts(self.equity),
        }
    }
}

/// The tickers offered at start.
pub open spec fn default_tickers() -> TickerListsView {
    TickerListsView {
        crypto: seq!["BTCUSD"@, "DOGEUSD"@, "SOLUSD"@, "ETHUSD"@],
        forex: seq!["USDZAR"@, "EURZAR"@, "USDJPY"@],
        equity: seq!["GOOGL"@, "AAPL"@, "MSFT"@, "NFLX"@],
    }
}

impl TickerLists {
    pub fn defaults() -> (r: TickerLists)
        ensures
            r@ == default_tickers(),
    {
        let r = TickerLists {
            crypto: vec![
                String::from_str("BTCUSD"),
                String::from_str("DOGEUSD"),
                String::from_str("SOLUSD"),
                String::from_str("ETHUSD"),
            ],
            forex: vec![
                String::from_str("USDZAR"),
                String::from_str("EURZAR"),
                String::from_str("USDJPY"),
            ],
            equity: vec![
                String::from_str("GOOGL"),
                String::from_str("AAPL"),
                String::from_str("MSFT"),
                String::from_str("NFLX"),
            ],
        };
        assert(r@.crypto =~= default_tickers().crypto);
        assert(r@.forex =~= default_tickers().forex);
        assert(r@.equity =~= default_tickers().equity);
        r
    }

    /// The tickers of a class.
    pub fn for_class(&self, c: AssetClass) -> (r: &Vec<String>)
        ensures
            texts(*r) == self@.of(c),
    {
        match c {
            AssetClass::Crypto => &self.crypto,
            AssetClass::Forex => &self.forex,
            AssetClass::Equity => &self.equity,
        }
    }
}

/// The client's state with every text as its characters.
pub struct TuiView<U> {
    pub forex: Entries<U>,
    pub crypto: Entries<U>,
    pub equity: Entries<U>,
    pub tickers: TickerListsView,
    pub selected_tab: AssetClass,
    pub running: bool,
    pub active_screen: ActiveScreen,
    pub manage_selected_asset_class: AssetClass,
    pub manage_selected_ticker_index: usize,
    pub show_popup: bool,
    pub popup_action: Option<ManageAction>,
    pub ws_status_message: Seq<char>,
    pub ws_status_color: StatusColor,
    pub pending_manage_action: Option<(ManageAction, AssetClass, Seq<char>)>,
}

/// The terminal client's state; `U` is the client's market update.
pub struct TuiApp<U> {
    pub forex: TextMap<U>,
    pub crypto: TextMap<U>,
    pub equity: TextMap<U>,
    pub tickers: TickerLists,
    pub selected_tab: AssetClass,
    pub running: bool,
    pub active_screen: ActiveScreen,
    pub manage_selected_asset_class: AssetClass,
    pub manage_selected_ticker_index: usize,
    pub show_popup: bool,
    pub popup_action: Option<ManageAction>,
    pub ws_status_message: String,
    pub ws_status_color: StatusColor,
    pub pending_manage_action: Option<(ManageAction, AssetClass, String)>,
}

pub open spec fn pending_view(p: Option<(ManageAction, AssetClass, String)>) -> Option<
    (ManageAction, AssetClass, Seq<char>),
> {
    match p {
        Some((a, c, t)) => Some((a, c, t@)),
        None => None,
    }
}

impl<U> View for TuiApp<U> {
    type V = TuiView<U>;

    open spec fn view(&self) -> TuiView<U> {
        TuiView {
            forex: self.forex@,
            crypto: self.crypto@,
            equity: self.equity@,
            tickers: self.tickers@,
            selected_tab: self.selected_tab,
            running: self.running,
            active_screen: self.active_screen,
            manage_selected_asset_class: self.manage_selected_asset_class,
            manage_selected_ticker_index: self.manage_selected_ticker_index,
            show_popup: self.show_popup,
            popup_action: self.popup_action,
            ws_status_message: self.ws_status_message@,
            ws_status_color: self.ws_status_color,
            pending_manage_action: pending_view(self.pending_manage_action),
        }
    }
}

/// The map of market updates that an update's class text selects: exactly
/// `forex`, `crypto` or `equity`; any other text selects none.
pub open spec fn update_class(asset_class: Seq<char>) -> Option<AssetClass> {
    if asset_class == "forex"@ {
        Some(AssetClass::Forex)
    } else if asset_class == "crypto"@ {
        Some(AssetClass::Crypto)
    } else if asset_class == "equity"@ {
        Some(AssetClass::Equity)
    } else {
        None
    }
}

/// The subscription request as texts.
pub struct SubscriptionRequestView {
    pub request_type: Seq<char>,
    pub asset_class: AssetClass,
    pub tickers: Seq<Seq<char>>,
}

impl View for SubscriptionRequest {
    type V = SubscriptionRequestView;

    open spec fn view(&self) -> SubscriptionRequestView {
        SubscriptionRequestView {
            request_type: self.request_type@,
            asset_class: self.asset_class,
            tickers: texts(self.tickers),
        }
    }
}

pub open spec fn action_name(a: ManageAction) -> Seq<char> {
    match a {
        ManageAction::Subscribe => "subscribe"@,
        ManageAction::Unsubscribe => "unsubscribe"@,
    }
}

impl<U> TuiView<U> {
    pub open spec fn map_of(self, c: AssetClass) -> Entries<U> {
        match c {
            AssetClass::Forex => self.forex,
            AssetClass::Crypto => self.crypto,
            AssetClass::Equity => self.equity,
        }
    }

    /// The state with the map of class `c` replaced.
    pub open spec fn with_map(self, c: AssetClass, m: Entries<U>) -> TuiView<U> {
        match c {
            AssetClass::Forex => TuiView { forex: m, ..self },
            AssetClass::Crypto => TuiView { crypto: m, ..self },
            AssetClass::Equity => TuiView { equity: m, ..self },
        }
    }

    pub open spec fn after_next_tab(self) -> TuiView<U> {
        TuiView { selected_tab: next_tab_of(self.selected_tab), ..self }
    }

    pub open spec fn after_prev_tab(self) -> TuiView<U> {
        TuiView { selected_tab: prev_tab_of(self.selected_tab), ..self }
    }

    pub open spec fn after_switch_screen(self) -> TuiView<U> {
        TuiView { active_screen: other_screen(self.active_screen), ..self }
    }

    /// The tickers of the class selected on the manage screen.
    pub open spec fn manage_tickers(self) -> Seq<Seq<char>> {
        self.tickers.of(self.manage_selected_asset_class)
    }

    /// Down on the manage screen: one further, stopping at the last ticker.
    pub open spec fn after_select_next(self) -> TuiView<U> {
        let n = self.manage_tickers().len();
        if n == 0 {
            self
        } else {
            let i = self.manage_selected_ticker_index;
            let next: usize = if i + 1 < n - 1 {
                (i + 1) as usize
            } else {
                (n - 1) as usize
            };
            TuiView { manage_selected_ticker_index: next, ..self }
        }
    }

    /// Up on the manage screen: one back, stopping at the first ticker.
    pub open spec fn after_select_prev(self) -> TuiView<U> {
        if self.manage_tickers().len() == 0 {
            self
        } else {
            let i = self.manage_selected_ticker_index;
            let prev: usize = if i == 0 {
                0
            } else {
                (i - 1) as usize
            };
            TuiView { manage_selected_ticker_index: prev, ..self }
        }
    }

    /// Another class on the manage screen, with the first ticker selected.
    pub open spec fn with_manage_class(self, c: AssetClass) -> TuiView<U> {
        TuiView { manage_selected_asset_class: c, manage_selected_ticker_index: 0, ..self }
    }

    pub open spec fn with_popup(self, a: ManageAction) -> TuiView<U> {
        TuiView { show_popup: true, popup_action: Some(a), ..self }
    }

    pub open spec fn after_cancel(self) -> TuiView<U> {
        TuiView { show_popup: false, popup_action: None, ..self }
    }

    /// The ticker a confirmation is for: the selected one, or
    /// `UNKNOWN_TICKER` where the selection is past the list.
    pub open spec fn confirm_ticker(self) -> Seq<char> {
        let ts = self.manage_tickers();
        if self.manage_selected_ticker_index < ts.len() {
            ts[self.manage_selected_ticker_index as int]
        } else {
            "UNKNOWN_TICKER"@
        }
    }

    /// Enter on the popup: the asked action becomes the pending one and the
    /// popup closes.
    pub open spec fn after_confirm(self) -> TuiView<U> {
        match self.popup_action {
            Some(a) => TuiView {
                pending_manage_action: Some(
                    (a, self.manage_selected_asset_class, self.confirm_ticker()),
                ),
                show_popup: false,
                popup_action: None,
                ..self
            },
            None => self.after_cancel(),
        }
    }

    /// The request that Enter on the popup sends, if an action was asked.
    pub open spec fn confirm_request(self) -> Option<SubscriptionRequestView> {
        match self.popup_action {
            Some(a) => Some(
                SubscriptionRequestView {
                    request_type: action_name(a),
                    asset_class: self.manage_selected_asset_class,
                    tickers: seq![self.confirm_ticker()],
                },
            ),
            None => None,
        }
    }

    pub open spec fn with_status(self, message: Seq<char>, color: StatusColor) -> TuiView<U> {
        TuiView { ws_status_message: message, ws_status_color: color, ..self }
    }

    /// What a key press does.
    pub open spec fn after_key(self, key: Key) -> TuiView<U> {
        if key == Key::Char('q') {
            TuiView { running: false, ..self }
        } else if key == Key::Tab || key == Key::BackTab {
            self.after_switch_screen()
        } else if self.show_popup {
            if key == Key::Enter {
                self.after_confirm()
            } else if key == Key::Esc {
                self.after_cancel()
            } else {
                self
            }
        } else if self.active_screen == ActiveScreen::Manage {
            if key == Key::Up {
                self.after_select_prev()
            } else if key == Key::Down {
                self.after_select_next()
            } else if key == Key::Right || key == Key::Char('l') {
                self.with_manage_class(next_manage_class_of(self.manage_selected_asset_class))
            } else if key == Key::Left || key == Key::Char('h') {
                self.with_manage_class(prev_manage_class_of(self.manage_selected_asset_class))
            } else if key == Key::Char('s') {
                self.with_popup(ManageAction::Subscribe)
            } else if key == Key::Char('u') {
                self.with_popup(ManageAction::Unsubscribe)
            } else {
                self
            }
        } else {
            if key == Key::Right || key == Key::Char('l') {
                self.after_next_tab()
            } else if key == Key::Left || key == Key::Char('h') {
                self.after_prev_tab()
            } else {
                self
            }
        }
    }

    /// The request a key press sends: only Enter on an open popup with an
    /// action sends one.
    pub open spec fn key_request(self, key: Key) -> Option<SubscriptionRequestView> {
        if key != Key::Char('q') && key != Key::Tab && key != Key::BackTab && self.show_popup
            && key == Key::Enter {
            self.confirm_request()
        } else {
            None
        }
    }
}

/// The manage screen's selection stays on the list: Down on a list with
/// tickers always lands on one of them, and Up keeps a selection that was
/// on the list there.
pub proof fn lemma_selection_in_list<U>(v: TuiView<U>)
    requires
        v.manage_tickers().len() <= usize::MAX,
    ensures
        v.manage_tickers().len() > 0 ==> v.after_select_next().manage_selected_ticker_index
            < v.manage_tickers().len(),
        v.manage_selected_ticker_index < v.manage_tickers().len()
            ==> v.after_select_prev().manage_selected_ticker_index < v.manage_tickers().len(),
        v.manage_selected_ticker_index < v.manage_tickers().len()
            ==> v.after_select_next().manage_selected_ticker_index
            >= v.manage_selected_ticker_index,
{
}

/// A server confirmation as texts.
pub struct ConfirmationView {
    pub asset: Seq<char>,
    pub status: Seq<char>,
    pub symbol: Seq<Seq<char>>,
}

pub open spec fn confirmation_view(resp: WsResponse) -> ConfirmationView {
    ConfirmationView {
        asset: resp.payload.asset@,
        status: resp.payload.status@,
        symbol: texts(resp.payload.symbol),
    }
}

/// The status line after a confirmation, given whether an action was
/// pending.
pub open spec fn confirmation_status(pending: bool, c: ConfirmationView) -> (Seq<char>, StatusColor) {
    if !pending {
        (
            "WS Confirmation: No pending action for '"@ + join_texts(c.symbol, ", "@) + "'"@,
            StatusColor::Yellow,
        )
    } else if AssetClass::from_lowercase(lowercase_text(c.asset)) is None {
        ("WS Confirmation: Unknown asset class: "@ + c.asset, StatusColor::Red)
    } else if c.symbol.len() == 0 {
        ("WS Confirmation: Missing ticker symbol"@, StatusColor::Red)
    } else if c.status == "subscribed"@ {
        ("Successfully subscribed to "@ + c.symbol[0], StatusColor::Green)
    } else if c.status == "unsubscribed"@ {
        ("Successfully unsubscribed from "@ + c.symbol[0], StatusColor::Green)
    } else {
        ("Unhandled status: "@ + c.status + " for "@ + c.symbol[0], StatusColor::Yellow)
    }
}

/// The update a confirmation of an unsubscription drops: its class and
/// ticker.
pub open spec fn confirmation_removal(pending: bool, c: ConfirmationView) -> Option<(AssetClass, Seq<char>)> {
    match AssetClass::from_lowercase(lowercase_text(c.asset)) {
        Some(ac) => if pending && c.symbol.len() > 0 && c.status == "unsubscribed"@ {
            Some((ac, c.symbol[0]))
        } else {
            None
        },
        None => None,
    }
}

impl<U> TuiView<U> {
    /// A confirmation from the server: the pending action is settled, an
    /// unsubscribed ticker's update is dropped and the status line says
    /// how it went.
    pub open spec fn after_confirmation(self, c: ConfirmationView) -> TuiView<U> {
        let pending = self.pending_manage_action is Some;
        let (message, color) = confirmation_status(pending, c);
        let settled = TuiView { pending_manage_action: None, ..self };
        let dropped = match confirmation_removal(pending, c) {
            Some((ac, t)) => settled.with_map(ac, remove_entry(settled.map_of(ac), t)),
            None => settled,
        };
        dropped.with_status(message, color)
    }
}

/// The state at start.
pub open spec fn initial_view<U>() -> TuiView<U> {
    TuiView {
        forex: Seq::empty(),
        crypto: Seq::empty(),
        equity: Seq::empty(),
        tickers: default_tickers(),
        selected_tab: AssetClass::Forex,
        running: true,
        active_screen: ActiveScreen::Dashboard,
        manage_selected_asset_class: AssetClass::Crypto,
        manage_selected_ticker_index: 0,
        show_popup: false,
        popup_action: None,
        ws_status_message: "Ready"@,
        ws_status_color: StatusColor::Gray,
        pending_manage_action: None,
    }
}

impl<U> Default for TuiApp<U> {
    fn default() -> (r: TuiApp<U>)
        ensures
            r@ == initial_view::<U>(),
    {
        TuiApp::new()
    }
}

impl<U> TuiApp<U> {
    /// The state at start: no updates, the default tickers, the forex tab
    /// of the dashboard, crypto on the manage screen, status `Ready`.
    pub fn new() -> (r: TuiApp<U>)
        ensures
            r@ == initial_view::<U>(),
    {
        TuiApp {
            forex: TextMap::new(),
            crypto: TextMap::new(),
            equity: TextMap::new(),
            tickers: TickerLists::defaults(),
            selected_tab: AssetClass::Forex,
            running: true,
            active_screen: ActiveScreen::Dashboard,
            manage_selected_asset_class: AssetClass::Crypto,
            manage_selected_ticker_index: 0,
            show_popup: false,
            popup_action: None,
            ws_status_message: String::from_str("Ready"),
            ws_status_color: StatusColor::Gray,
            pending_manage_action: None,
        }
    }

    pub fn next_tab(&mut self)
        ensures
            final(self)@ == old(self)@.after_next_tab(),
    {
        self.selected_tab = match self.selected_tab {
            AssetClass::Forex => AssetClass::Crypto,
            AssetClass::Crypto => AssetClass::Equity,
            AssetClass::Equity => AssetClass::Forex,
        };
    }

    pub fn prev_tab(&mut self)
        ensures
            final(self)@ == old(self)@.after_prev_tab(),
    {
        self.selected_tab = match self.selected_tab {
            AssetClass::Crypto => AssetClass::Forex,
            AssetClass::Forex => AssetClass::Equity,
            AssetClass::Equity => AssetClass::Crypto,
        };
    }

    pub fn next_screen(&mut self)
        ensures
            final(self)@ == old(self)@.after_switch_screen(),
    {
        self.active_screen = match self.active_screen {
            ActiveScreen::Dashboard => ActiveScreen::Manage,
            ActiveScreen::Manage => ActiveScreen::Dashboard,
        };
    }

    /// With two screens, going back is the same switch as going on.
    pub fn prev_screen(&mut self)
        ensures
            final(self)@ == old(self)@.after_switch_screen(),
    {
        self.active_screen = match self.active_screen {
            ActiveScreen::Dashboard => ActiveScreen::Manage,
            ActiveScreen::Manage => ActiveScreen::Dashboard,
        };
    }

    /// Keeps `data` as the latest update of `ticker` in the map that
    /// `asset_class` selects; an unknown class changes nothing.
    pub fn update_market_data(&mut self, asset_class: &str, ticker: String, data: U)
        ensures
            match update_class(asset_class@) {
                Some(c) => final(self)@ == old(self)@.with_map(
                    c,
                    insert_entry(old(self)@.map_of(c), ticker@, data),
                ),
                None => final(self)@ == old(self)@,
            },
    {
        if str_eq(asset_class, "forex") {
            self.forex.insert(ticker, data);
        } else if str_eq(asset_class, "crypto") {
            self.crypto.insert(ticker, data);
        } else if str_eq(asset_class, "equity") {
            self.equity.insert(ticker, data);
        }
    }

    pub fn select_next_manage_ticker(&mut self)
        ensures
            final(self)@ == old(self)@.after_select_next(),
    {
        let n = self.tickers.for_class(self.manage_selected_asset_class).len();
        if n > 0 {
            let i = self.manage_selected_ticker_index;
            let next = if i < usize::MAX { i + 1 } else { i };
            self.manage_selected_ticker_index = if next < n - 1 { next } else { n - 1 };
        }
    }

    pub fn select_prev_manage_ticker(&mut self)
        ensures
            final(self)@ == old(self)@.after_select_prev(),
    {
        let n = self.tickers.for_class(self.manage_selected_asset_class).len();
        if n > 0 {
            let i = self.manage_selected_ticker_index;
            self.manage_selected_ticker_index = if i > 0 { i - 1 } else { 0 };
        }
    }

    pub fn trigger_subscribe_popup(&mut self)
        ensures
            final(self)@ == old(self)@.with_popup(ManageAction::Subscribe),
    {
        self.show_popup = true;
        self.popup_action = Some(ManageAction::Subscribe);
    }

    pub fn trigger_unsubscribe_popup(&mut self)
        ensures
            final(self)@ == old(self)@.with_popup(ManageAction::Unsubscribe),
    {
        self.show_popup = true;
        self.popup_action = Some(ManageAction::Unsubscribe);
    }

    /// Confirms the asked action: it becomes pending, the popup closes, and
    /// the request to send for it is returned.
    pub fn confirm_manage_action(&mut self) -> (r: Option<SubscriptionRequest>)
        ensures
            final(self)@ == old(self)@.after_confirm(),
            match (r, old(self)@.confirm_request()) {
                (Some(req), Some(v)) => req@ == v,
                (None, None) => true,
                _ => false,
            },
    {
        let request = match self.popup_action {
            Some(action) => {
                let asset_class = self.manage_selected_asset_class;
                let list = self.tickers.for_class(asset_class);
                let ticker = if self.manage_selected_ticker_index < list.len() {
                    list[self.manage_selected_ticker_index].clone()
                } else {
                    String::from_str("UNKNOWN_TICKER")
                };
                let request_type = match action {
                    ManageAction::Subscribe => String::from_str("subscribe"),
                    ManageAction::Unsubscribe => String::from_str("unsubscribe"),
                };
                let req = SubscriptionRequest {
                    request_type,
                    asset_class,
                    tickers: vec![ticker.clone()],
                };
                assert(texts(req.tickers) =~= seq![ticker@]);
                self.pending_manage_action = Some((action, asset_class, ticker));
                Some(req)
            },
            None => None,
        };
        self.show_popup = false;
        self.popup_action = None;
        request
    }

    pub fn cancel_manage_action(&mut self)
        ensures
            final(self)@ == old(self)@.after_cancel(),
    {
        self.show_popup = false;
        self.popup_action = None;
    }

    /// Shows a status message; the caller clears it after its display time.
    pub fn set_ws_status(&mut self, message: String, color: StatusColor)
        ensures
            final(self)@ == old(self)@.with_status(message@, color),
    {
        self.ws_status_message = message;
        self.ws_status_color = color;
    }

    /// The end of a status message's display time: back to `Ready`.
    pub fn clear_status(&mut self)
        ensures
            final(self)@ == old(self)@.with_status("Ready"@, StatusColor::Gray),
    {
        self.ws_status_message = String::from_str("Ready");
        self.ws_status_color = StatusColor::Gray;
    }

    /// Reacts to a server confirmation: settles the pending action, drops
    /// the update of an unsubscribed ticker and sets the status line, which
    /// the caller clears after its display time.
    pub fn handle_confirmation(&mut self, resp: &WsResponse)
        ensures
            final(self)@ == old(self)@.after_confirmation(confirmation_view(*resp)),
    {
        let ghost c = confirmation_view(*resp);
        let pending = self.pending_manage_action.is_some();
        self.pending_manage_action = None;
        let (message, color) = if !pending {
            let joined = join(&resp.payload.symbol, ", ");
            let mut m = concat("WS Confirmation: No pending action for '", joined.as_str());
            m.append("'");
            (m, StatusColor::Yellow)
        } else {
            match AssetClass::from_str(resp.payload.asset.as_str()) {
                Err(_) => (
                    concat("WS Confirmation: Unknown asset class: ", resp.payload.asset.as_str()),
                    StatusColor::Red,
                ),
                Ok(ac) => {
                    if resp.payload.symbol.len() == 0 {
                        (String::from_str("WS Confirmation: Missing ticker symbol"), StatusColor::Red)
                    } else {
                        let ticker = resp.payload.symbol[0].as_str();
                        assert(ticker@ == c.symbol[0]);
                        if str_eq(resp.payload.status.as_str(), "subscribed") {
                            proof {
                                reveal_strlit("subscribed");
                                reveal_strlit("unsubscribed");
                                assert("subscribed"@[0] != "unsubscribed"@[0]);
                            }
                            (concat("Successfully subscribed to ", ticker), StatusColor::Green)
                        } else if str_eq(resp.payload.status.as_str(), "unsubscribed") {
                            match ac {
                                AssetClass::Crypto => {
                                    self.crypto.remove(ticker);
                                },
                                AssetClass::Forex => {
                                    self.forex.remove(ticker);
                                },
                                AssetClass::Equity => {
                                    self.equity.remove(ticker);
                                },
                            }
                            (concat("Successfully unsubscribed from ", ticker), StatusColor::Green)
                        } else {
                            let mut m = concat("Unhandled status: ", resp.payload.status.as_str());
                            m.append(" for ");
                            m.append(ticker);
                            (m, StatusColor::Yellow)
                        }
                    }
                },
            }
        };
        self.set_ws_status(message, color);
    }

    /// Reacts to a message of the main loop: a market update is kept under
    /// its class text and ticker, a confirmation is handled, and the end of
    /// a status message's display time clears the status line.
    pub fn handle_message(&mut self, msg: AppMessage<(String, String, U)>)
        ensures
            match msg {
                AppMessage::MarketData((asset_class, ticker, data)) => match update_class(
                    asset_class@,
                ) {
                    Some(c) => final(self)@ == old(self)@.with_map(
                        c,
                        insert_entry(old(self)@.map_of(c), ticker@, data),
                    ),
                    None => final(self)@ == old(self)@,
                },
                AppMessage::WsConfirmation(resp) => final(self)@ == old(self)@.after_confirmation(
                    confirmation_view(resp),
                ),
                AppMessage::ClearStatus => final(self)@ == old(self)@.with_status(
                    "Ready"@,
                    StatusColor::Gray,
                ),
            },
    {
        match msg {
            AppMessage::MarketData((asset_class, ticker, data)) => {
                self.update_market_data(asset_class.as_str(), ticker, data);
            },
            AppMessage::WsConfirmation(resp) => self.handle_confirmation(&resp),
            AppMessage::ClearStatus => self.clear_status(),
        }
    }

    /// Reacts to a key press; returns the subscription request to send, if
    /// the press confirmed one.
    pub fn handle_key(&mut self, key: Key) -> (r: Option<SubscriptionRequest>)
        ensures
            final(self)@ == old(self)@.after_key(key),
            match (r, old(self)@.key_request(key)) {
                (Some(req), Some(v)) => req@ == v,
                (None, None) => true,
                _ => false,
            },
    {
        match key {
            Key::Char('q') => {
                self.running = false;
                None
            },
            Key::Tab => {
                self.next_screen();
                None
            },
            Key::BackTab => {
                self.prev_screen();
                None
            },
            _ => {
                if self.show_popup {
                    match key {
                        Key::Enter => self.confirm_manage_action(),
                        Key::Esc => {
                            self.cancel_manage_action();
                            None
                        },
                        _ => None,
                    }
                } else if self.active_screen == ActiveScreen::Manage {
                    match key {
                        Key::Up => self.select_prev_manage_ticker(),
                        Key::Down => self.select_next_manage_ticker(),
                        Key::Right | Key::Char('l') => {
                            self.manage_selected_asset_class = match self.manage_selected_asset_class {
                                AssetClass::Crypto => AssetClass::Forex,
                                AssetClass::Forex => AssetClass::Equity,
                                AssetClass::Equity => AssetClass::Crypto,
                            };
                            self.manage_selected_ticker_index = 0;
                        },
                        Key::Left | Key::Char('h') => {
                            self.manage_selected_asset_class = match self.manage_selected_asset_class {
                                AssetClass::Crypto => AssetClass::Equity,
                                AssetClass::Equity => AssetClass::Forex,
                                AssetClass::Forex => AssetClass::Crypto,
                            };
                            self.manage_selected_ticker_index = 0;
                        },
                        Key::Char('s') => self.trigger_subscribe_popup(),
                        Key::Char('u') => self.trigger_unsubscribe_popup(),
                        _ => {},
                    }
                    None
                } else {
                    match key {
                        Key::Right | Key::Char('l') => self.next_tab(),
                        Key::Left | Key::Char('h') => self.prev_tab(),
                        _ => {},
                    }
                    None
                }
            },
        }
    }
}

} // verus!
