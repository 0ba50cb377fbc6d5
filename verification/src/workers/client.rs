//! What a feed connection needs: the endpoint to dial, the authentication
//! it sends, and the errors of connecting.
use vstd::prelude::*;
use vstd::string::*;
use crate::workers::assetclass::AssetClass;
use crate::workers::config::Config;
use crate::workers::message::AlpacaAuthRequest;

verus! {

pub enum ClientError {
    InternalServerError,
    ConnectionFailed(String),
    InvalidResponse(String),
}

impl ClientError {
    /// The text its `Display` prints.
    pub open spec fn message_spec(self) -> Seq<char> {
        match self {
            ClientError::InternalServerError => "Internal server error occurred"@,
            ClientError::ConnectionFailed(m) => "Connection failed: "@ + m@,
            ClientError::InvalidResponse(m) => "Invalid response: "@ + m@,
        }
    }

    pub fn message(&self) -> (r: String)
        ensures
            r@ == self.message_spec(),
    {
        match self {
            ClientError::InternalServerError => String::from_str("Internal server error occurred"),
            ClientError::ConnectionFailed(m) => {
                let mut s = String::from_str("Connection failed: ");
                s.append(m.as_str());
                s
            },
            ClientError::InvalidResponse(m) => {
                let mut s = String::from_str("Invalid response: ");
                s.append(m.as_str());
                s
            },
        }
    }
}

/// The endpoint of a class: `<data_url>/<class>` for crypto and forex, the
/// Alpaca endpoint for equities.
pub open spec fn connection_url_spec(data_url: Seq<char>, alpaca_url: Seq<char>, ac: AssetClass) -> Seq<char> {
    match ac {
        AssetClass::Crypto | AssetClass::Forex => data_url + "/"@ + ac.endpoint(),
        AssetClass::Equity => alpaca_url,
    }
}

/// The endpoint to dial for a class.
pub fn connection_url(cfg: &Config, alpaca_url: &str, ac: AssetClass) -> (r: String)
    ensures
        r@ == connection_url_spec(cfg.data_url@, alpaca_url@, ac),
{
    match ac {
        AssetClass::Crypto | AssetClass::Forex => {
            let mut url = cfg.data_url.clone();
            url.append("/");
            let name = ac.to_string();
            url.append(name.as_str());
            url
        },
        AssetClass::Equity => String::from_str(alpaca_url),
    }
}

/// Only the equity (Alpaca) connection authenticates after connecting.
pub fn needs_auth(ac: AssetClass) -> (r: bool)
    ensures
        r == (ac == AssetClass::Equity),
{
    ac == AssetClass::Equity
}

/// The message that authenticates an Alpaca connection.
pub fn alpaca_auth_request(key: &str, secret: &str) -> (r: AlpacaAuthRequest)
    ensures
        r.action@ == "auth"@,
        r.key@ == key@,
        r.secret@ == secret@,
{
    AlpacaAuthRequest {
        action: String::from_str("auth"),
        key: String::from_str(key),
        secret: String::from_str(secret),
    }
}

} // verus!
