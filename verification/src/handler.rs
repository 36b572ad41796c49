//! The proxy handler's decision logic: building the upstream request from
//! the inbound one, and mapping the upstream outcome — a response or a
//! dispatch failure — to the outbound response.
//!
//! The handler preserves data exactly on success: the upstream URL is the
//! configured base followed verbatim by the inbound path-and-query, the
//! outbound status and headers are those of the upstream response unchanged.
//! On failure it substitutes the fixed gateway error: status 502 with the
//! literal body `Bad Gateway`.

use crate::config::Config;
use crate::headers::{forward_request_headers, forwarded_models, models, Header};
use vstd::prelude::*;
use vstd::string::StrSliceExecFns;
use vstd::string::StringExecFns;
use vstd::string::StringSliceAdditionalSpecFns;

verus! {

/// The path-and-query of the inbound request, as the view of an optional
/// string: an absent one contributes nothing to the upstream URL.
pub open spec fn path_view(path_and_query: Option<&str>) -> Seq<char> {
    match path_and_query {
        Some(p) => p@,
        None => Seq::empty(),
    }
}

/// The upstream URL: the configured base followed by the raw inbound
/// path-and-query, by plain concatenation — no normalization, no
/// re-encoding, no slash reconciliation.
pub fn upstream_url(to: &str, path_and_query: Option<&str>) -> (url: String)
    ensures
        url@ == to@ + path_view(path_and_query),
{
    let mut url = to.to_owned();
    match path_and_query {
        Some(p) => {
            url.append(p);
        },
        None => {
            proof {
                assert(to@ + Seq::<char>::empty() =~= to@);
            }
        },
    }
    url
}

/// The request the proxy sends upstream, derived from the inbound request.
pub struct UpstreamRequest {
    /// The inbound method, unchanged.
    pub method: String,
    /// The upstream base URL with the inbound path-and-query appended.
    pub url: String,
    /// The inbound headers, minus the transport-managed ones.
    pub headers: Vec<Header>,
}

/// Derives the upstream request from one inbound request: the method passes
/// through unchanged, the URL is the configured base with the raw
/// path-and-query appended, and every inbound header except the
/// transport-managed ones is copied unchanged and in order. The body is not
/// part of this value: it is streamed through chunk by chunk as it arrives.
pub fn build_upstream_request(
    config: &Config,
    method: String,
    path_and_query: Option<&str>,
    headers: &Vec<Header>,
) -> (r: UpstreamRequest)
    ensures
        r.method@ == method@,
        r.url@ == config.to@ + path_view(path_and_query),
        models(r.headers@) == forwarded_models(headers@),
{
    let url = upstream_url(config.to.as_str(), path_and_query);
    let forwarded = forward_request_headers(headers);
    UpstreamRequest { method, url, headers: forwarded }
}

/// The response the upstream target produced: its status, its headers, and
/// (held apart, streamed) its body.
pub struct UpstreamResponse {
    pub status: u16,
    pub headers: Vec<Header>,
}

/// Why no upstream response was obtained.
pub enum UpstreamDispatchError {
    /// The upstream connection was refused.
    ConnectRefused,
    /// The upstream host could not be resolved.
    DnsFailure,
    /// The request could not be written to the upstream connection.
    WriteFailed,
    /// The connection was made but no response ever arrived.
    NoResponse,
}

/// Where the outbound body comes from.
pub enum BodySource {
    /// The upstream body, streamed through chunk by chunk, never buffered
    /// whole.
    UpstreamPassThrough,
    /// A fixed literal body.
    Fixed(Vec<u8>),
}

/// The response the proxy returns to the caller.
pub struct OutboundResponse {
    pub status: u16,
    pub headers: Vec<Header>,
    pub body: BodySource,
}

/// The fixed body of the substituted gateway error.
pub open spec fn bad_gateway_body() -> Seq<u8> {
    "Bad Gateway".spec_bytes()
}

/// The gateway-error status code.
pub open spec fn bad_gateway_status() -> u16 {
    502u16
}

/// The round-trip invariant: the outbound response carries the upstream
/// status unchanged, the upstream headers unchanged in content and order,
/// and the upstream body streamed through.
pub open spec fn round_trip_preserved(u: UpstreamResponse, r: OutboundResponse) -> bool {
    &&& r.status == u.status
    &&& models(r.headers@) == models(u.headers@)
    &&& r.body is UpstreamPassThrough
}

/// The fixed substitute response: status 502, no headers of its own, and
/// the literal body `Bad Gateway`.
pub open spec fn is_gateway_error(r: OutboundResponse) -> bool {
    &&& r.status == bad_gateway_status()
    &&& r.headers@.len() == 0
    &&& (r.body matches BodySource::Fixed(b) && b@ == bad_gateway_body())
}

/// Maps the upstream outcome to the outbound response. A response passes
/// through verbatim — status and headers unchanged, body streamed; any
/// dispatch failure becomes the fixed gateway error, whatever its cause.
pub fn handle_outcome(outcome: Result<UpstreamResponse, UpstreamDispatchError>) -> (r:
    OutboundResponse)
    ensures
        (outcome matches Ok(u) ==> round_trip_preserved(u, r)),
        (outcome matches Err(_) ==> is_gateway_error(r)),
{
    match outcome {
        Ok(u) => OutboundResponse {
            status: u.status,
            headers: u.headers,
            body: BodySource::UpstreamPassThrough,
        },
        Err(_) => OutboundResponse {
            status: 502,
            headers: Vec::new(),
            body: BodySource::Fixed("Bad Gateway".as_bytes_vec()),
        },
    }
}

} // verus!
