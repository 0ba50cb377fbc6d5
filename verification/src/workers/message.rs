//! Messages exchanged with the feed providers, and the errors of reading them.
use vstd::prelude::*;
use vstd::string::*;
use vstd::utf8::{valid_utf8, decode_utf8};
use crate::text::texts;

verus! {

/// A subscribe or unsubscribe request to the Tiingo feeds.
#[derive(Debug, Clone)]
pub struct SubscribeRequest {
    pub event_name: String,
    pub authorization: String,
    pub event_data: SubscribeData,
}

/// The `eventData` of a request.
#[derive(Debug, Clone)]
pub struct SubscribeData {
    /// Set to modify an existing subscription.
    pub subscription_id: Option<String>,
    /// Threshold level, as text (e.g. "5").
    pub threshold_level: Option<String>,
    pub tickers: Option<Vec<String>>,
}

pub struct SubscribeDataView {
    pub subscription_id: Option<Seq<char>>,
    pub threshold_level: Option<Seq<char>>,
    pub tickers: Option<Seq<Seq<char>>>,
}

pub open spec fn text_opt(s: Option<String>) -> Option<Seq<char>> {
    match s {
        Some(t) => Some(t@),
        None => None,
    }
}


pub open spec fn texts_opt(v: Option<Vec<String>>) -> Option<Seq<Seq<char>>> {
    match v {
        Some(t) => Some(texts(t)),
        None => None,
    }
}

impl View for SubscribeData {
    type V = SubscribeDataView;

    open spec fn view(&self) -> SubscribeDataView {
        SubscribeDataView {
            subscription_id: text_opt(self.subscription_id),
            threshold_level: text_opt(self.threshold_level),
            tickers: texts_opt(self.tickers),
        }
    }
}

/// A copy of a list of texts.
pub fn copy_texts(v: &Vec<String>) -> (r: Vec<String>)
    ensures
        texts(r) == texts(*v),
{
    let mut out: Vec<String> = Vec::new();
    let mut i: usize = 0;
    while i < v.len()
        invariant
            i <= v@.len(),
            out@.len() == i,
            texts(out) == texts(*v).take(i as int),
        decreases v@.len() - i,
    {
        let ghost before = out;
        let c = v[i].clone();
        assert(c@ == v@[i as int]@);
        out.push(c);
        assert(out@ == before@.push(c));
        assert forall|k: int| 0 <= k < i + 1 implies texts(out)[k] == texts(*v).take(i + 1)[k] by {
            if k < i {
                assert(out@[k] == before@[k]);
                assert(texts(before)[k] == texts(*v).take(i as int)[k]);
            }
        }
        assert(texts(out) =~= texts(*v).take(i + 1));
        i = i + 1;
    }
    assert(texts(*v).take(v@.len() as int) =~= texts(*v));
    out
}

fn copy_text_opt(s: &Option<String>) -> (r: Option<String>)
    ensures
        text_opt(r) == text_opt(*s),
{
    match s {
        Some(t) => Some(t.clone()),
        None => None,
    }
}

pub fn copy_texts_opt(v: &Option<Vec<String>>) -> (r: Option<Vec<String>>)
    ensures
        texts_opt(r) == texts_opt(*v),
{
    match v {
        Some(t) => Some(copy_texts(t)),
        None => None,
    }
}

impl SubscribeData {
    /// A copy of the data.
    pub fn copy(&self) -> (r: SubscribeData)
        ensures
            r@ == self@,
    {
        SubscribeData {
            subscription_id: copy_text_opt(&self.subscription_id),
            threshold_level: copy_text_opt(&self.threshold_level),
            tickers: copy_texts_opt(&self.tickers),
        }
    }
}

/// The `response` part of a feed message.
#[derive(Debug, Clone)]
pub struct ResponseDetails {
    pub code: i32,
    pub message: String,
}

/// An Alpaca success or error notice.
#[derive(Debug, Clone)]
pub struct AlpacaControl {
    pub msg: String,
    pub code: Option<i32>,
}

/// The channels an Alpaca connection is subscribed to.
#[derive(Debug, Clone)]
pub struct AlpacaSubscriptionStatus {
    pub trades: Vec<String>,
    pub quotes: Vec<String>,
    pub bars: Vec<String>,
}

/// The authentication message of an Alpaca connection.
#[derive(Debug, Clone)]
pub struct AlpacaAuthRequest {
    pub action: String,
    pub key: String,
    pub secret: String,
}

/// An Alpaca subscribe or unsubscribe request.
#[derive(Debug, Clone)]
pub struct AlpacaSubscribeRequest {
    pub action: String,
    pub trades: Option<Vec<String>>,
    pub quotes: Option<Vec<String>>,
    pub bars: Option<Vec<String>>,
}

/// Failures of reading, sending or parsing feed messages.
pub enum MsgError {
    ReadError(String),
    SendError(String),
    ParseError(String),
}

pub enum MsgErrorView {
    ReadError(Seq<char>),
    SendError(Seq<char>),
    ParseError(Seq<char>),
}

impl View for MsgError {
    type V = MsgErrorView;

    open spec fn view(&self) -> MsgErrorView {
        match self {
            MsgError::ReadError(s) => MsgErrorView::ReadError(s@),
            MsgError::SendError(s) => MsgErrorView::SendError(s@),
            MsgError::ParseError(s) => MsgErrorView::ParseError(s@),
        }
    }
}

impl MsgError {
    /// The text its `Display` prints.
    pub open spec fn message_spec(self) -> Seq<char> {
        match self {
            MsgError::ReadError(e) => "Error reading message: "@ + e@,
            MsgError::SendError(e) => "Error sending message: "@ + e@,
            MsgError::ParseError(e) => "Error parsing message: "@ + e@,
        }
    }

    pub fn message(&self) -> (r: String)
        ensures
            r@ == self.message_spec(),
    {
        let (prefix, e) = match self {
            MsgError::ReadError(e) => ("Error reading message: ", e),
            MsgError::SendError(e) => ("Error sending message: ", e),
            MsgError::ParseError(e) => ("Error parsing message: ", e),
        };
        let mut s = String::from_str(prefix);
        s.append(e.as_str());
        s
    }
}

/// A frame received on a feed connection, by kind.
pub enum WsFrame {
    Text(String),
    Binary(Vec<u8>),
    /// Ping, pong, close and raw frames.
    Other,
}

/// The text of the error that `String::from_utf8` reports for bytes that are not UTF-8.
pub uninterp spec fn utf8_error_text(bytes: Seq<u8>) -> Seq<char>;

/// `String::from_utf8`, the error turned into its text.
///
/// Claims: the bytes are accepted exactly when they are valid UTF-8, and
/// then decode to the characters they encode; the error text is the named one.
#[verifier::external_body]
pub fn text_from_utf8(bytes: Vec<u8>) -> (r: Result<String, String>)
    ensures
        r is Ok <==> valid_utf8(bytes@),
        r matches Ok(s) ==> s@ == decode_utf8(bytes@),
        r matches Err(e) ==> e@ == utf8_error_text(bytes@),
{
    match String::from_utf8(bytes) {
        Ok(s) => Ok(s),
        Err(e) => Err(e.to_string()),
    }
}

/// The JSON text that a frame carries: a text frame as it is, a binary
/// frame decoded from UTF-8; anything else is refused.
pub open spec fn frame_text_spec(frame: WsFrame) -> Result<Seq<char>, MsgErrorView> {
    match frame {
        WsFrame::Text(t) => Ok(t@),
        WsFrame::Binary(b) => if valid_utf8(b@) {
            Ok(decode_utf8(b@))
        } else {
            Err(MsgErrorView::ParseError("Binary to UTF-8 error: "@ + utf8_error_text(b@)))
        },
        WsFrame::Other => Err(MsgErrorView::ParseError("Expected text or binary message"@)),
    }
}

/// The text of a frame, ready to be parsed as JSON.
pub fn frame_text(frame: WsFrame) -> (r: Result<String, MsgError>)
    ensures
        match r {
            Ok(t) => frame_text_spec(frame) == Ok::<Seq<char>, MsgErrorView>(t@),
            Err(e) => frame_text_spec(frame) == Err::<Seq<char>, MsgErrorView>(e@),
        },
{
    match frame {
        WsFrame::Text(t) => Ok(t),
        WsFrame::Binary(b) => match text_from_utf8(b) {
            Ok(s) => Ok(s),
            Err(e) => {
                let mut msg = String::from_str("Binary to UTF-8 error: ");
                msg.append(e.as_str());
                Err(MsgError::ParseError(msg))
            },
        },
        WsFrame::Other => Err(
            MsgError::ParseError(String::from_str("Expected text or binary message")),
        ),
    }
}

} // verus!
