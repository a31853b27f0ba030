//! Server configuration: the listening port and the cache lifetime, resolved
//! from optional override texts with fixed defaults.

use vstd::prelude::*;
use crate::decimal::{decimal_text, parsed_u64, push_decimal};

verus! {

/// Port used when no valid override is given.
pub const DEFAULT_PORT: u16 = 17820;

/// Cache lifetime in seconds used when no valid override is given.
pub const DEFAULT_MAX_AGE: u64 = 3600;

/// The text of an optional override, as a sequence of characters.
pub open spec fn override_text(v: Option<&str>) -> Option<Seq<char>> {
    match v {
        Some(s) => Some(s@),
        None => None,
    }
}

/// The port chosen from an override: a numeral from 1 to 65535 is taken as
/// it is; anything else (absent, not a numeral, zero, too large) gives
/// the default.
pub open spec fn port_from(v: Option<Seq<char>>) -> u16 {
    if v is Some && parsed_u64(v->0) is Some && 1 <= parsed_u64(v->0)->0
        && parsed_u64(v->0)->0 <= u16::MAX {
        parsed_u64(v->0)->0 as u16
    } else {
        DEFAULT_PORT
    }
}

/// The cache lifetime chosen from an override: any `u64` numeral, else the
/// default.
pub open spec fn max_age_from(v: Option<Seq<char>>) -> u64 {
    if v is Some && parsed_u64(v->0) is Some {
        parsed_u64(v->0)->0
    } else {
        DEFAULT_MAX_AGE
    }
}

/// The `Cache-Control` text for a lifetime of `n` seconds.
pub open spec fn cache_control_of(n: nat) -> Seq<char> {
    "public, max-age="@ + decimal_text(n)
}

/// Resolves the listening port from the text of its override, if any.
pub fn resolve_port(v: Option<&str>) -> (r: u16)
    ensures
        r == port_from(override_text(v)),
        r >= 1,
{
    match v {
        Some(s) => match crate::decimal::parse_u64(s) {
            Some(n) => {
                if 1 <= n && n <= 65535 {
                    n as u16
                } else {
                    DEFAULT_PORT
                }
            },
            None => DEFAULT_PORT,
        },
        None => DEFAULT_PORT,
    }
}

/// Resolves the cache lifetime in seconds from the text of its override, if
/// any.
pub fn resolve_max_age(v: Option<&str>) -> (r: u64)
    ensures
        r == max_age_from(override_text(v)),
{
    match v {
        Some(s) => match crate::decimal::parse_u64(s) {
            Some(n) => n,
            None => DEFAULT_MAX_AGE,
        },
        None => DEFAULT_MAX_AGE,
    }
}

/// The `Cache-Control` text `public, max-age=<n>`.
pub fn cache_control_text(max_age: u64) -> (r: String)
    ensures
        r@ == cache_control_of(max_age as nat),
{
    let mut out = String::from_str("public, max-age=");
    push_decimal(&mut out, max_age);
    out
}

/// The configuration of one startup attempt, fixed once computed.
#[derive(Clone, Copy, Debug, PartialEq, Eq)]
pub struct ServerConfig {
    pub port: u16,
    pub cache_max_age: u64,
}

impl ServerConfig {
    /// Builds the configuration from the texts of the port override and the
    /// cache lifetime override, each absent when not set.
    pub fn from_overrides(port_var: Option<&str>, max_age_var: Option<&str>) -> (r: ServerConfig)
        ensures
            r.port == port_from(override_text(port_var)),
            r.cache_max_age == max_age_from(override_text(max_age_var)),
    {
        ServerConfig { port: resolve_port(port_var), cache_max_age: resolve_max_age(max_age_var) }
    }

    /// The `Cache-Control` text of this configuration.
    pub fn cache_control_text(&self) -> (r: String)
        ensures
            r@ == cache_control_of(self.cache_max_age as nat),
    {
        cache_control_text(self.cache_max_age)
    }
}

} // verus!
