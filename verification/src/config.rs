//! Server settings and their defaults.
use vstd::prelude::*;
use crate::numbers::{parse_u16, parse_u64, parse_unsigned};

verus! {

broadcast use vstd::string::group_string_axioms;

/// Server settings.
pub struct Config {
    pub mongo_uri: String,
    pub mongo_db_name: String,
    pub jwt_secret: String,
    pub port: u16,
    pub notification_scan_interval_secs: u64,
    pub documents_dir: String,
    pub ai_service_url: String,
}

/// The text setting, or the default when it is not set.
pub open spec fn text_or(v: Option<String>, default: Seq<char>) -> Seq<char> {
    match v {
        Some(s) => s@,
        None => default,
    }
}

/// The number a setting holds, or the default when it is not set or not a
/// number that fits.
pub open spec fn number_or(v: Option<String>, max: int, default: int) -> int {
    match v {
        Some(s) => match parse_unsigned(s@, max) {
            Some(n) => n,
            None => default,
        },
        None => default,
    }
}

/// The text setting, or the default.
fn text_setting(v: Option<String>, default: &str) -> (r: String)
    ensures
        r@ == text_or(v, default@),
{
    match v {
        Some(s) => s,
        None => default.to_string(),
    }
}

impl Config {
    /// Settings from their raw values (each `None` when unset): MongoDB at
    /// `mongodb://localhost:27017`, database `aditya_crm`, port 8080, a
    /// reminder scan every 3600 s, documents under `./data/documents`, the
    /// AI service at `http://localhost:8000`, unless set otherwise; a port
    /// or interval that does not parse falls back to its default. The JWT
    /// secret has no default.
    pub fn from_settings(
        mongo_uri: Option<String>,
        mongo_db_name: Option<String>,
        jwt_secret: String,
        port: Option<String>,
        notification_scan_interval_secs: Option<String>,
        documents_dir: Option<String>,
        ai_service_url: Option<String>,
    ) -> (c: Config)
        ensures
            c.mongo_uri@ == text_or(mongo_uri, "mongodb://localhost:27017"@),
            c.mongo_db_name@ == text_or(mongo_db_name, "aditya_crm"@),
            c.jwt_secret == jwt_secret,
            c.port == number_or(port, u16::MAX as int, 8080),
            c.notification_scan_interval_secs == number_or(notification_scan_interval_secs, u64::MAX as int, 3600),
            c.documents_dir@ == text_or(documents_dir, "./data/documents"@),
            c.ai_service_url@ == text_or(ai_service_url, "http://localhost:8000"@),
    {
        let port_value: u16 = match &port {
            Some(p) => match parse_u16(p.as_str()) {
                Some(n) => n,
                None => 8080,
            },
            None => 8080,
        };
        let interval: u64 = match &notification_scan_interval_secs {
            Some(p) => match parse_u64(p.as_str()) {
                Some(n) => n,
                None => 3600,
            },
            None => 3600,
        };
        Config {
            mongo_uri: text_setting(mongo_uri, "mongodb://localhost:27017"),
            mongo_db_name: text_setting(mongo_db_name, "aditya_crm"),
            jwt_secret,
            port: port_value,
            notification_scan_interval_secs: interval,
            documents_dir: text_setting(documents_dir, "./data/documents"),
            ai_service_url: text_setting(ai_service_url, "http://localhost:8000"),
        }
    }
}

} // verus!
