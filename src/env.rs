//! Settings of the service, each taken from its raw configured value or a
//! fixed default.

use vstd::prelude::*;

verus! {

/// Names of the variables the settings are read from.
pub const ASSET_PATH_VAR: &'static str = "SERVER_ASSET_PATH";
pub const DEBUG_MODE_VAR: &'static str = "SERVER_DEBUG_MODE";
pub const LISTEN_ADDR_VAR: &'static str = "SERVER_LISTEN_ADDR";
pub const LISTEN_PORT_VAR: &'static str = "SERVER_LISTEN_PORT";
pub const METRIC_LISTEN_PORT_VAR: &'static str = "SERVER_METRIC_LISTEN_PORT";
pub const METRIC_NAMESPACE_VAR: &'static str = "SERVER_METRIC_NAMESPACE";
pub const METRIC_SUBSYSTEM_VAR: &'static str = "SERVER_METRIC_SUBSYSTEM";

/// The lower-case form of a text, as Unicode case mapping gives it.
pub uninterp spec fn lower_of(s: Seq<char>) -> Seq<char>;

/// Relies on str::to_lowercase: the lower-case form depends on the text alone.
#[verifier::external_body]
fn to_lowercase(s: &str) -> (r: String)
    ensures
        r@ == lower_of(s@),
{
    s.to_lowercase()
}

/// The spellings that switch debug mode on, once lower-cased.
pub open spec fn is_truthy_spec(s: Seq<char>) -> bool {
    s == "1"@ || s == "ok"@ || s == "okay"@ || s == "on"@ || s == "true"@ || s == "yep"@ || s == "yes"@
}

pub open spec fn or_default(raw: Option<String>, default: Seq<char>) -> Seq<char> {
    match raw {
        Some(s) => s@,
        None => default,
    }
}

fn same_text(a: &String, b: &str) -> (r: bool)
    ensures
        r == (a@ == b@),
{
    let t = String::from_str(b);
    *a == t
}

fn value_or(raw: Option<String>, default: &str) -> (r: String)
    ensures
        r@ == or_default(raw, default@),
{
    match raw {
        Some(s) => s,
        None => String::from_str(default),
    }
}

/// Whether an already lower-cased value is one of the spellings of "on".
pub fn is_truthy(lowered: &String) -> (r: bool)
    ensures
        r == is_truthy_spec(lowered@),
{
    same_text(lowered, "1") || same_text(lowered, "ok") || same_text(lowered, "okay") || same_text(lowered, "on")
        || same_text(lowered, "true") || same_text(lowered, "yep") || same_text(lowered, "yes")
}

/// The settings of the service.
pub struct Env {}

impl Env {
    /// Debug mode, from the raw value of its variable: on when the value, lower-cased,
    /// is one of the spellings of "on"; off when the variable is unset.
    pub fn is_debug_mode(raw: Option<String>) -> (r: bool)
        ensures
            raw is None ==> !r,
            raw matches Some(s) ==> r == is_truthy_spec(lower_of(s@)),
    {
        match raw {
            Some(s) => is_truthy(&to_lowercase(s.as_str())),
            None => false,
        }
    }

    /// The asset root, `assets` by default.
    pub fn parse_asset_path(raw: Option<String>) -> (r: String)
        ensures
            r@ == or_default(raw, "assets"@),
    {
        value_or(raw, "assets")
    }

    /// The metric namespace, `default_backend` by default.
    pub fn parse_metric_namespace(raw: Option<String>) -> (r: String)
        ensures
            r@ == or_default(raw, "default_backend"@),
    {
        value_or(raw, "default_backend")
    }

    /// The metric subsystem, `http` by default.
    pub fn parse_metric_subsystem(raw: Option<String>) -> (r: String)
        ensures
            r@ == or_default(raw, "http"@),
    {
        value_or(raw, "http")
    }

    /// The `address:port` the metrics endpoint listens on; by default
    /// `127.0.0.1` and port `9402`.
    pub fn parse_metric_address(addr: Option<String>, port: Option<String>) -> (r: String)
        ensures
            r@ == or_default(addr, "127.0.0.1"@) + ":"@ + or_default(port, "9402"@),
    {
        let mut r = value_or(addr, "127.0.0.1");
        r.append(":");
        let p = value_or(port, "9402");
        r.append(p.as_str());
        r
    }

    /// The `address:port` the error pages are served on; by default
    /// `127.0.0.1` and port `3000`.
    pub fn parse_service_address(addr: Option<String>, port: Option<String>) -> (r: String)
        ensures
            r@ == or_default(addr, "127.0.0.1"@) + ":"@ + or_default(port, "3000"@),
    {
        let mut r = value_or(addr, "127.0.0.1");
        r.append(":");
        let p = value_or(port, "3000");
        r.append(p.as_str());
        r
    }
}

} // verus!
