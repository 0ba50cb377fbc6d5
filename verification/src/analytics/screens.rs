//! What the terminal client's screens show: tab and list selections,
//! titles, the confirmation popup's question, the popup's placement and
//! the market tables' columns and labels.
use vstd::prelude::*;
use vstd::string::*;
use crate::text::{str_eq, concat};
use crate::analytics::types::{AssetClass, ActiveScreen, ManageAction};
use crate::analytics::tui::TuiApp;

verus! {

/// The dashboard's tab of a class: forex, crypto, equity.
pub open spec fn dashboard_tab_spec(c: AssetClass) -> usize {
    match c {
        AssetClass::Forex => 0,
        AssetClass::Crypto => 1,
        AssetClass::Equity => 2,
    }
}

pub fn dashboard_tab_index(c: AssetClass) -> (r: usize)
    ensures
        r == dashboard_tab_spec(c),
{
    match c {
        AssetClass::Forex => 0,
        AssetClass::Crypto => 1,
        AssetClass::Equity => 2,
    }
}

/// The manage screen's tab of a class: crypto, forex, equity.
pub open spec fn manage_tab_spec(c: AssetClass) -> usize {
    match c {
        AssetClass::Crypto => 0,
        AssetClass::Forex => 1,
        AssetClass::Equity => 2,
    }
}

pub fn manage_tab_index(c: AssetClass) -> (r: usize)
    ensures
        r == manage_tab_spec(c),
{
    match c {
        AssetClass::Crypto => 0,
        AssetClass::Forex => 1,
        AssetClass::Equity => 2,
    }
}

/// The sidebar's entry of a screen: dashboard, manage.
pub fn screen_index(s: ActiveScreen) -> (r: usize)
    ensures
        r == (match s {
            ActiveScreen::Dashboard => 0usize,
            ActiveScreen::Manage => 1usize,
        }),
{
    match s {
        ActiveScreen::Dashboard => 0,
        ActiveScreen::Manage => 1,
    }
}

/// The title of the manage screen's list: `Available <class> Tickers`.
pub fn manage_list_title(c: AssetClass) -> (r: String)
    ensures
        r@ == "Available "@ + c.name() + " Tickers"@,
{
    let name = c.to_string();
    let mut t = concat("Available ", name.as_str());
    t.append(" Tickers");
    t
}

/// The question of the confirmation popup.
pub open spec fn popup_text_spec(action: Option<ManageAction>, ticker: Option<Seq<char>>) -> Seq<char> {
    let t = match ticker {
        Some(x) => x,
        None => "Unknown"@,
    };
    match action {
        Some(ManageAction::Subscribe) => "Confirm subscription to "@ + t + "?"@,
        Some(ManageAction::Unsubscribe) => "Confirm unsubscription from "@ + t + "?"@,
        None => "Confirm action?"@,
    }
}

impl<U> TuiApp<U> {
    /// The selected ticker of the manage screen, if the selection is in
    /// the list.
    pub open spec fn selected_ticker_spec(&self) -> Option<Seq<char>> {
        let ts = self@.manage_tickers();
        if self.manage_selected_ticker_index < ts.len() {
            Some(ts[self.manage_selected_ticker_index as int])
        } else {
            None
        }
    }

    /// The list's highlighted row: the selection, unless the list is empty.
    pub fn manage_list_selection(&self) -> (r: Option<usize>)
        ensures
            r == (if self@.manage_tickers().len() == 0 {
                None::<usize>
            } else {
                Some(self.manage_selected_ticker_index)
            }),
    {
        let list = self.tickers.for_class(self.manage_selected_asset_class);
        if list.len() == 0 {
            None
        } else {
            Some(self.manage_selected_ticker_index)
        }
    }

    /// The question the confirmation popup asks about the selected ticker
    /// (`Unknown` where the selection is past the list).
    pub fn popup_text(&self) -> (r: String)
        ensures
            r@ == popup_text_spec(self.popup_action, self.selected_ticker_spec()),
    {
        let list = self.tickers.for_class(self.manage_selected_asset_class);
        let ticker: &str = if self.manage_selected_ticker_index < list.len() {
            list[self.manage_selected_ticker_index].as_str()
        } else {
            "Unknown"
        };
        match self.popup_action {
            Some(ManageAction::Subscribe) => {
                let mut t = concat("Confirm subscription to ", ticker);
                t.append("?");
                t
            },
            Some(ManageAction::Unsubscribe) => {
                let mut t = concat("Confirm unsubscription from ", ticker);
                t.append("?");
                t
            },
            None => String::from_str("Confirm action?"),
        }
    }
}

/// The popup's rows or columns, in percent: a centred band of `percent`
/// with equal margins of half the rest (rounded down).
pub fn centered_percentages(percent: u16) -> (r: (u16, u16, u16))
    requires
        percent <= 100,
    ensures
        r.0 == (100 - percent) / 2,
        r.1 == percent,
        r.2 == (100 - percent) / 2,
        r.0 + r.1 + r.2 <= 100,
        100 - (r.0 + r.1 + r.2) <= 1,
{
    let margin = (100 - percent) / 2;
    (margin, percent, margin)
}

/// The columns of a class's market table: header and width in percent.
pub open spec fn table_columns_spec(c: AssetClass) -> Seq<(Seq<char>, u16)> {
    match c {
        AssetClass::Forex => seq![
            ("Ticker"@, 20u16),
            ("Bid Price"@, 20u16),
            ("Mid Price"@, 20u16),
            ("Ask Price"@, 20u16),
            ("Time"@, 20u16),
        ],
        AssetClass::Crypto => seq![
            ("Ticker"@, 15u16),
            ("Type"@, 15u16),
            ("Price"@, 15u16),
            ("Size"@, 15u16),
            ("Exchange"@, 20u16),
            ("Time"@, 20u16),
        ],
        AssetClass::Equity => seq![
            ("Ticker"@, 15u16),
            ("Type"@, 15u16),
            ("Price"@, 20u16),
            ("Vol/Size"@, 25u16),
            ("Time"@, 25u16),
        ],
    }
}

pub open spec fn width_sum(cols: Seq<(Seq<char>, u16)>) -> int
    decreases cols.len(),
{
    if cols.len() == 0 {
        0
    } else {
        width_sum(cols.drop_last()) + cols.last().1
    }
}

/// The columns of a class's market table.
pub fn table_columns(c: AssetClass) -> (r: Vec<(&'static str, u16)>)
    ensures
        r@.len() == table_columns_spec(c).len(),
        forall|i: int|
            0 <= i < r@.len() ==> (#[trigger] r@[i]).0@ == table_columns_spec(c)[i].0 && r@[i].1
                == table_columns_spec(c)[i].1,
{
    let r = match c {
        AssetClass::Forex => vec![
            ("Ticker", 20u16),
            ("Bid Price", 20u16),
            ("Mid Price", 20u16),
            ("Ask Price", 20u16),
            ("Time", 20u16),
        ],
        AssetClass::Crypto => vec![
            ("Ticker", 15u16),
            ("Type", 15u16),
            ("Price", 15u16),
            ("Size", 15u16),
            ("Exchange", 20u16),
            ("Time", 20u16),
        ],
        AssetClass::Equity => vec![
            ("Ticker", 15u16),
            ("Type", 15u16),
            ("Price", 20u16),
            ("Vol/Size", 25u16),
            ("Time", 25u16),
        ],
    };
    r
}

/// Every market table's columns fill the whole width.
pub proof fn lemma_table_columns_fill(c: AssetClass)
    ensures
        width_sum(table_columns_spec(c)) == 100,
{
    reveal_with_fuel(width_sum, 7);
}

/// The kind of a crypto update: `Trade` for type `T`, `Quote` otherwise.
pub fn crypto_update_label(update_type: &str) -> (r: &'static str)
    ensures
        r@ == (if update_type@ == "T"@ {
            "Trade"@
        } else {
            "Quote"@
        }),
{
    if str_eq(update_type, "T") {
        "Trade"
    } else {
        "Quote"
    }
}

/// The kind of an equity update: `Trade`, `Quote` or `Bar` for `T`, `Q`,
/// `B`; any other type as it is.
pub fn equity_update_label(update_type: &str) -> (r: String)
    ensures
        r@ == (if update_type@ == "T"@ {
            "Trade"@
        } else if update_type@ == "Q"@ {
            "Quote"@
        } else if update_type@ == "B"@ {
            "Bar"@
        } else {
            update_type@
        }),
{
    if str_eq(update_type, "T") {
        String::from_str("Trade")
    } else if str_eq(update_type, "Q") {
        String::from_str("Quote")
    } else if str_eq(update_type, "B") {
        String::from_str("Bar")
    } else {
        String::from_str(update_type)
    }
}

} // verus!
