//! The proxy configuration: listen address, listen port, upstream base URL.
//!
//! A `Config` is built once at process start and never mutated afterwards.
//! Each option may be omitted, in which case a fixed default applies.

use vstd::prelude::*;

verus! {

/// The three fixed parameters of the proxy. Immutable once constructed.
#[derive(Clone)]
pub struct Config {
    /// Address the inbound server binds to.
    pub address: String,
    /// Port the inbound server listens on.
    pub port: u16,
    /// Base URL of the upstream target; the inbound path-and-query is
    /// appended to it verbatim.
    pub to: String,
}

/// The default listen address.
pub open spec fn default_address() -> Seq<char> {
    "127.0.0.1"@
}

/// The default listen port.
pub open spec fn default_port() -> u16 {
    4242u16
}

/// The default upstream base URL.
pub open spec fn default_to() -> Seq<char> {
    "http://localhost:8000"@
}

impl Config {
    /// Builds the configuration from optional external inputs, applying the
    /// fixed default for every option that was omitted. No semantic
    /// validation is performed beyond what `u16` constrains.
    pub fn from_options(address: Option<String>, port: Option<u16>, to: Option<String>) -> (c:
        Config)
        ensures
            c.address@ == (match address {
                Some(a) => a@,
                None => default_address(),
            }),
            c.port == (match port {
                Some(p) => p,
                None => default_port(),
            }),
            c.to@ == (match to {
                Some(t) => t@,
                None => default_to(),
            }),
    {
        let address = match address {
            Some(a) => a,
            None => "127.0.0.1".to_owned(),
        };
        let port = match port {
            Some(p) => p,
            None => 4242,
        };
        let to = match to {
            Some(t) => t,
            None => "http://localhost:8000".to_owned(),
        };
        Config { address, port, to }
    }
}

} // verus!
