//! Worker configuration, read from environment values.
use vstd::prelude::*;
use vstd::string::*;
use crate::symbol_map::{TextMap, Entries, lookup};
use crate::text::{parse_u16, parse_u16_spec, parse_comma_list, comma_list, IntErrorKind};

verus! {

/// Where the feeds and the streams are, and which tickers to follow.
#[derive(Clone)]
pub struct Config {
    pub data_url: String,
    pub data_api_key: String,
    pub stream_host: String,
    pub stream_port: u16,
    pub stream_username: String,
    pub stream_password: String,
    pub feed_stream: String,
    pub subscribe_stream: String,
    pub forex_tickers: Vec<String>,
    pub equity_tickers: Vec<String>,
    pub crypto_tickers: Vec<String>,
}

/// Why the configuration could not be read.
pub enum ConfigError {
    /// A variable is not set.
    NotFound(String),
    /// A variable does not hold a valid value.
    ParseError(String),
}

pub enum ConfigErrorView {
    NotFound(Seq<char>),
    ParseError(Seq<char>),
}

impl View for ConfigError {
    type V = ConfigErrorView;

    open spec fn view(&self) -> ConfigErrorView {
        match self {
            ConfigError::NotFound(s) => ConfigErrorView::NotFound(s@),
            ConfigError::ParseError(s) => ConfigErrorView::ParseError(s@),
        }
    }
}

impl ConfigError {
    /// The text its `Display` prints: `<name> must be set` or `Invalid <what>`.
    pub open spec fn message_spec(self) -> Seq<char> {
        match self {
            ConfigError::NotFound(f) => f@ + " must be set"@,
            ConfigError::ParseError(f) => "Invalid "@ + f@,
        }
    }

    pub fn message(&self) -> (r: String)
        ensures
            r@ == self.message_spec(),
    {
        match self {
            ConfigError::NotFound(f) => {
                let mut s = f.clone();
                s.append(" must be set");
                s
            },
            ConfigError::ParseError(f) => {
                let mut s = String::from_str("Invalid ");
                s.append(f.as_str());
                s
            },
        }
    }
}

/// The value of an environment variable, if set.
pub open spec fn env_value(vars: Entries<String>, key: Seq<char>) -> Option<Seq<char>> {
    match lookup(vars, key) {
        Some(v) => Some(v@),
        None => None,
    }
}

pub open spec fn unset(vars: Entries<String>, key: Seq<char>) -> bool {
    env_value(vars, key) is None
}

/// The first problem met when reading the configuration, in the order in
/// which the variables are read; `None` where there is none.
pub open spec fn config_error(vars: Entries<String>) -> Option<ConfigErrorView> {
    if unset(vars, "TIINGO_WS_URL"@) {
        Some(ConfigErrorView::NotFound("TIINGO_WS_URL"@))
    } else if unset(vars, "TIINGO_API_KEY"@) {
        Some(ConfigErrorView::NotFound("TIINGO_API_KEY"@))
    } else if unset(vars, "RABBITMQ_ADVERTISED_HOST"@) {
        Some(ConfigErrorView::NotFound("RABBITMQ_ADVERTISED_HOST"@))
    } else if unset(vars, "RABBITMQ_STREAM_PORT"@) {
        Some(ConfigErrorView::NotFound("RABBITMQ_STREAM_PORT"@))
    } else if parse_u16_spec(env_value(vars, "RABBITMQ_STREAM_PORT"@).unwrap()) is Err {
        Some(
            ConfigErrorView::ParseError(
                "RABBITMQ_STREAM_PORT: "@ + parse_u16_spec(
                    env_value(vars, "RABBITMQ_STREAM_PORT"@).unwrap(),
                )->Err_0.message_spec(),
            ),
        )
    } else if unset(vars, "RABBITMQ_DEFAULT_USER"@) {
        Some(ConfigErrorView::NotFound("RABBITMQ_DEFAULT_USER"@))
    } else if unset(vars, "RABBITMQ_DEFAULT_PASS"@) {
        Some(ConfigErrorView::NotFound("RABBITMQ_DEFAULT_PASS"@))
    } else if unset(vars, "MDWS_FEED_STREAM"@) {
        Some(ConfigErrorView::NotFound("MDWS_FEED_STREAM"@))
    } else if unset(vars, "MDWS_SUBSCRIBE_STREAM"@) {
        Some(ConfigErrorView::NotFound("MDWS_SUBSCRIBE_STREAM"@))
    } else if unset(vars, "EQUITY_TICKERS"@) {
        Some(ConfigErrorView::NotFound("EQUITY_TICKERS"@))
    } else if unset(vars, "FOREX_TICKERS"@) {
        Some(ConfigErrorView::NotFound("FOREX_TICKERS"@))
    } else if unset(vars, "CRYPTO_TICKERS"@) {
        Some(ConfigErrorView::NotFound("CRYPTO_TICKERS"@))
    } else {
        None
    }
}

/// `cfg` holds the values of the variables: texts as they are, the port
/// parsed, the ticker lists split at commas with items trimmed and empty
/// items dropped.
pub open spec fn config_matches(cfg: Config, vars: Entries<String>) -> bool {
    &&& Some(cfg.data_url@) == env_value(vars, "TIINGO_WS_URL"@)
    &&& Some(cfg.data_api_key@) == env_value(vars, "TIINGO_API_KEY"@)
    &&& Some(cfg.stream_host@) == env_value(vars, "RABBITMQ_ADVERTISED_HOST"@)
    &&& parse_u16_spec(env_value(vars, "RABBITMQ_STREAM_PORT"@).unwrap()) == Ok::<
        int,
        IntErrorKind,
    >(cfg.stream_port as int)
    &&& Some(cfg.stream_username@) == env_value(vars, "RABBITMQ_DEFAULT_USER"@)
    &&& Some(cfg.stream_password@) == env_value(vars, "RABBITMQ_DEFAULT_PASS"@)
    &&& Some(cfg.feed_stream@) == env_value(vars, "MDWS_FEED_STREAM"@)
    &&& Some(cfg.subscribe_stream@) == env_value(vars, "MDWS_SUBSCRIBE_STREAM"@)
    &&& cfg.equity_tickers@.map_values(|t: String| t@) == comma_list(
        env_value(vars, "EQUITY_TICKERS"@).unwrap(),
    )
    &&& cfg.forex_tickers@.map_values(|t: String| t@) == comma_list(
        env_value(vars, "FOREX_TICKERS"@).unwrap(),
    )
    &&& cfg.crypto_tickers@.map_values(|t: String| t@) == comma_list(
        env_value(vars, "CRYPTO_TICKERS"@).unwrap(),
    )
}

fn get_env(vars: &TextMap<String>, key: &str) -> (r: Result<String, ConfigError>)
    ensures
        match r {
            Ok(v) => env_value(vars@, key@) == Some(v@),
            Err(e) => env_value(vars@, key@) is None && e@ == ConfigErrorView::NotFound(key@),
        },
{
    match vars.get(key) {
        Some(v) => Ok(v.clone()),
        None => Err(ConfigError::NotFound(String::from_str(key))),
    }
}

impl Config {
    /// Reads the configuration from the environment's values (`vars` maps
    /// each set variable to its value): the first variable that is unset,
    /// or a port that is not a number, is reported.
    pub fn load_env(vars: &TextMap<String>) -> (r: Result<Self, ConfigError>)
        ensures
            r is Ok <==> config_error(vars@) is None,
            r matches Err(e) ==> Some(e@) == config_error(vars@),
            r matches Ok(cfg) ==> config_matches(cfg, vars@),
    {
        let data_url = get_env(vars, "TIINGO_WS_URL")?;
        let data_api_key = get_env(vars, "TIINGO_API_KEY")?;
        let stream_host = get_env(vars, "RABBITMQ_ADVERTISED_HOST")?;
        let port_text = get_env(vars, "RABBITMQ_STREAM_PORT")?;
        let stream_port = match parse_u16(port_text.as_str()) {
            Ok(p) => p,
            Err(e) => {
                let mut msg = String::from_str("RABBITMQ_STREAM_PORT: ");
                let m = e.message();
                msg.append(m.as_str());
                return Err(ConfigError::ParseError(msg));
            },
        };
        let stream_username = get_env(vars, "RABBITMQ_DEFAULT_USER")?;
        let stream_password = get_env(vars, "RABBITMQ_DEFAULT_PASS")?;
        let feed_stream = get_env(vars, "MDWS_FEED_STREAM")?;
        let subscribe_stream = get_env(vars, "MDWS_SUBSCRIBE_STREAM")?;
        let equity = get_env(vars, "EQUITY_TICKERS")?;
        let forex = get_env(vars, "FOREX_TICKERS")?;
        let crypto = get_env(vars, "CRYPTO_TICKERS")?;
        Ok(
            Config {
                data_url,
                data_api_key,
                stream_host,
                stream_port,
                stream_username,
                stream_password,
                feed_stream,
                subscribe_stream,
                equity_tickers: parse_comma_list(equity.as_str()),
                forex_tickers: parse_comma_list(forex.as_str()),
                crypto_tickers: parse_comma_list(crypto.as_str()),
            },
        )
    }
}

} // verus!
