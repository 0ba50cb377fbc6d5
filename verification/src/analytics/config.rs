//! The analytics service's configuration, read from environment values.
use vstd::prelude::*;
use vstd::string::*;
use crate::symbol_map::{TextMap, has_key};
use crate::workers::config::env_value;

verus! {

/// Where the service logs, stores and listens.
pub struct AppConfig {
    pub log: String,
    pub db_url: String,
    pub db_token: String,
    pub redis_url: String,
    pub db_bucket: String,
    pub app_url: String,
}

/// The log filter used where `RUST_LOG` is not set.
pub open spec fn default_log_filter() -> Seq<char> {
    "debug,mdanalytics=debug,tower_http=debug,axum::rejection=info"@
}

/// The variables the service cannot start without.
pub open spec fn required_set(vars: Seq<(Seq<char>, String)>) -> bool {
    &&& has_key(vars, "INFLUXDB_URL"@)
    &&& has_key(vars, "INFLUXDB_TOKEN"@)
    &&& has_key(vars, "REDIS_ADDRS"@)
    &&& has_key(vars, "INFLUXDB_BUCKET"@)
    &&& has_key(vars, "MDANALYTICS_URL"@)
}

fn required(vars: &TextMap<String>, key: &str) -> (r: String)
    requires
        has_key(vars@, key@),
    ensures
        env_value(vars@, key@) == Some(r@),
{
    match vars.get(key) {
        Some(v) => v.clone(),
        None => String::new(),
    }
}

impl AppConfig {
    /// Reads the configuration from the environment's values (`vars` maps
    /// each set variable to its value); the log filter has a default.
    pub fn load(vars: &TextMap<String>) -> (r: AppConfig)
        requires
            required_set(vars@),
        ensures
            r.log@ == (match env_value(vars@, "RUST_LOG"@) {
                Some(v) => v,
                None => default_log_filter(),
            }),
            Some(r.db_url@) == env_value(vars@, "INFLUXDB_URL"@),
            Some(r.db_token@) == env_value(vars@, "INFLUXDB_TOKEN"@),
            Some(r.redis_url@) == env_value(vars@, "REDIS_ADDRS"@),
            Some(r.db_bucket@) == env_value(vars@, "INFLUXDB_BUCKET"@),
            Some(r.app_url@) == env_value(vars@, "MDANALYTICS_URL"@),
    {
        let log = match vars.get("RUST_LOG") {
            Some(v) => v.clone(),
            None => String::from_str("debug,mdanalytics=debug,tower_http=debug,axum::rejection=info"),
        };
        AppConfig {
            log,
            db_url: required(vars, "INFLUXDB_URL"),
            db_token: required(vars, "INFLUXDB_TOKEN"),
            redis_url: required(vars, "REDIS_ADDRS"),
            db_bucket: required(vars, "INFLUXDB_BUCKET"),
            app_url: required(vars, "MDANALYTICS_URL"),
        }
    }
}

} // verus!
