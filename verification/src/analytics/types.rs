//! The analytics service's types: asset classes as requests name them,
//! analysis requests and responses, job events and API errors, and the
//! subscription messages of the terminal client.
use vstd::prelude::*;
use vstd::string::*;
use crate::text::{lowercase_text, to_lowercase, str_eq, ascii_lower, is_ascii_text, concat};

verus! {

/// A JSON value, carried through as the outside crate holds it.
#[verifier::external_type_specification]
#[verifier::external_body]
pub struct ExJsonValue(serde_json::Value);

/// The asset classes that analyses and subscriptions name.
#[derive(Clone, Copy, Debug, PartialEq, Eq, Structural, Hash)]
pub enum AssetClass {
    Crypto,
    Forex,
    Equity,
}

impl AssetClass {
    /// The class in lowercase, as `Display` prints it.
    pub open spec fn name(self) -> Seq<char> {
        match self {
            AssetClass::Crypto => "crypto"@,
            AssetClass::Forex => "forex"@,
            AssetClass::Equity => "equity"@,
        }
    }

    /// The class as text.
    pub fn to_string(&self) -> (r: String)
        ensures
            r@ == self.name(),
    {
        match self {
            AssetClass::Crypto => String::from_str("crypto"),
            AssetClass::Forex => String::from_str("forex"),
            AssetClass::Equity => String::from_str("equity"),
        }
    }

    /// The class a lowercased name denotes.
    pub open spec fn from_lowercase(lower: Seq<char>) -> Option<AssetClass> {
        if lower == "crypto"@ {
            Some(AssetClass::Crypto)
        } else if lower == "forex"@ {
            Some(AssetClass::Forex)
        } else if lower == "equity"@ {
            Some(AssetClass::Equity)
        } else {
            None
        }
    }

    /// `FromStr`: the class named in any letter case; anything else is
    /// refused with `Unknown AssetClass: ` and the text.
    pub fn from_str(s: &str) -> (r: Result<AssetClass, String>)
        ensures
            AssetClass::from_lowercase(lowercase_text(s@)) matches Some(c) ==> r == Ok::<
                AssetClass,
                String,
            >(c),
            AssetClass::from_lowercase(lowercase_text(s@)) is None ==> (r matches Err(e) && e@
                == "Unknown AssetClass: "@ + s@),
            forall|c: AssetClass| s@ == c.name() ==> r == Ok::<AssetClass, String>(c),
    {
        let lower = to_lowercase(s);
        proof {
            assert forall|c: AssetClass| s@ == c.name() implies AssetClass::from_lowercase(
                lowercase_text(s@),
            ) == Some(c) by {
                lemma_class_name_round_trip(c);
            }
        }
        if str_eq(lower.as_str(), "crypto") {
            Ok(AssetClass::Crypto)
        } else if str_eq(lower.as_str(), "forex") {
            Ok(AssetClass::Forex)
        } else if str_eq(lower.as_str(), "equity") {
            Ok(AssetClass::Equity)
        } else {
            Err(concat("Unknown AssetClass: ", s))
        }
    }
}

/// Reading back the name a class prints gives the class again.
pub proof fn lemma_class_name_round_trip(c: AssetClass)
    ensures
        is_ascii_text(c.name()),
        c.name().map_values(|ch: char| ascii_lower(ch)) == c.name(),
        AssetClass::from_lowercase(c.name()) == Some(c),
{
    reveal_strlit("crypto");
    reveal_strlit("forex");
    reveal_strlit("equity");
    assert(c.name().map_values(|ch: char| ascii_lower(ch)) =~= c.name());
    match c {
        AssetClass::Crypto => {},
        AssetClass::Forex => {
            assert("forex"@[0] != "crypto"@[0]);
        },
        AssetClass::Equity => {
            assert("equity"@[0] != "crypto"@[0]);
            assert("equity"@[0] != "forex"@[0]);
        },
    }
}

/// What happens to an analysis job, as its event stream reports it.
pub enum JobEvent {
    Processing,
    Completed { result: serde_json::Value },
    Failed { error: String },
}

impl JobEvent {
    pub open spec fn name_spec(&self) -> Seq<char> {
        match self {
            JobEvent::Processing => "processing"@,
            JobEvent::Completed { .. } => "completed"@,
            JobEvent::Failed { .. } => "failed"@,
        }
    }

    /// The name under which the event is streamed, which is also the
    /// `status` it reports.
    pub fn name(&self) -> (r: &'static str)
        ensures
            r@ == self.name_spec(),
    {
        match self {
            JobEvent::Processing => "processing",
            JobEvent::Completed { .. } => "completed",
            JobEvent::Failed { .. } => "failed",
        }
    }
}

/// The errors of the analysis API, each with the text of its cause.
#[derive(Debug)]
pub enum ApiError {
    Influx(String),
    Polars(String),
    Json(String),
    Snowflake(String),
    Redis(String),
    BadRequest(String),
}

pub enum ApiErrorView {
    Influx(Seq<char>),
    Polars(Seq<char>),
    Json(Seq<char>),
    Snowflake(Seq<char>),
    Redis(Seq<char>),
    BadRequest(Seq<char>),
}

impl View for ApiError {
    type V = ApiErrorView;

    open spec fn view(&self) -> ApiErrorView {
        match self {
            ApiError::Influx(s) => ApiErrorView::Influx(s@),
            ApiError::Polars(s) => ApiErrorView::Polars(s@),
            ApiError::Json(s) => ApiErrorView::Json(s@),
            ApiError::Snowflake(s) => ApiErrorView::Snowflake(s@),
            ApiError::Redis(s) => ApiErrorView::Redis(s@),
            ApiError::BadRequest(s) => ApiErrorView::BadRequest(s@),
        }
    }
}

impl ApiErrorView {
    /// The error as `Display` prints it.
    pub open spec fn message(self) -> Seq<char> {
        match self {
            ApiErrorView::Influx(s) => "InfluxDB error: "@ + s,
            ApiErrorView::Polars(s) => "Polars error: "@ + s,
            ApiErrorView::Json(s) => "JSON error: "@ + s,
            ApiErrorView::Snowflake(s) => "Snowflake error: "@ + s,
            ApiErrorView::Redis(s) => "Redis error: "@ + s,
            ApiErrorView::BadRequest(s) => "Bad request: "@ + s,
        }
    }

    /// The HTTP status of the response: 400 for a bad request, 500 otherwise.
    pub open spec fn status(self) -> u16 {
        match self {
            ApiErrorView::BadRequest(_) => 400,
            _ => 500,
        }
    }

    /// The body of the response.
    pub open spec fn response_text(self) -> Seq<char> {
        match self {
            ApiErrorView::Json(s) => "JSON serialization/deserialization error: "@ + s,
            _ => self.message(),
        }
    }
}

impl ApiError {
    /// The error as text.
    pub fn message(&self) -> (r: String)
        ensures
            r@ == self@.message(),
    {
        match self {
            ApiError::Influx(s) => concat("InfluxDB error: ", s.as_str()),
            ApiError::Polars(s) => concat("Polars error: ", s.as_str()),
            ApiError::Json(s) => concat("JSON error: ", s.as_str()),
            ApiError::Snowflake(s) => concat("Snowflake error: ", s.as_str()),
            ApiError::Redis(s) => concat("Redis error: ", s.as_str()),
            ApiError::BadRequest(s) => concat("Bad request: ", s.as_str()),
        }
    }

    /// The HTTP response of the error: its status code and body.
    pub fn into_response(&self) -> (r: (u16, String))
        ensures
            r.0 == self@.status(),
            r.1@ == self@.response_text(),
    {
        match self {
            ApiError::Json(s) => (500, concat("JSON serialization/deserialization error: ", s.as_str())),
            ApiError::BadRequest(_) => (400, self.message()),
            _ => (500, self.message()),
        }
    }
}

impl From<String> for ApiError {
    fn from(err: String) -> (r: ApiError) {
        ApiError::BadRequest(err)
    }
}

impl vstd::std_specs::convert::FromSpecImpl<String> for ApiError {
    open spec fn obeys_from_spec() -> bool {
        true
    }

    open spec fn from_spec(err: String) -> ApiError {
        ApiError::BadRequest(err)
    }
}

/// A request for an analysis of some tickers of a class.
pub struct AnalyzeRequest {
    pub asset_class: AssetClass,
    pub tickers: Vec<String>,
}

/// The result of an analysis: the job, the class and one record per ticker.
pub struct AnalyzeResponse {
    pub job_id: String,
    pub asset_class: String,
    pub data: Vec<serde_json::Value>,
}

/// The two screens of the terminal client.
#[derive(Clone, Copy, Debug, PartialEq, Eq, Structural)]
pub enum ActiveScreen {
    Dashboard,
    Manage,
}

impl Default for ActiveScreen {
    fn default() -> (r: ActiveScreen)
        ensures
            r == ActiveScreen::Dashboard,
    {
        ActiveScreen::Dashboard
    }
}

/// What the manage screen's confirmation asks for.
#[derive(Clone, Copy, Debug, PartialEq, Eq, Structural)]
pub enum ManageAction {
    Subscribe,
    Unsubscribe,
}

/// The subscription request the terminal client sends: `type` and a
/// payload with the class and the tickers.
pub struct SubscriptionRequest {
    pub request_type: String,
    pub asset_class: AssetClass,
    pub tickers: Vec<String>,
}

/// The payload of a confirmation from the server.
pub struct ConfirmationPayload {
    pub asset: String,
    pub status: String,
    pub symbol: Vec<String>,
}

/// A confirmation from the server (`type` and payload).
pub struct WsResponse {
    pub message_type: String,
    pub payload: ConfirmationPayload,
}

/// What reaches the terminal client's main loop: a market update (of the
/// client's own update type), a confirmation, or the end of a status
/// message's display time.
pub enum AppMessage<U> {
    MarketData(U),
    WsConfirmation(WsResponse),
    ClearStatus,
}

} // verus!
