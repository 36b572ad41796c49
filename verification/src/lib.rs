//! A transparent HTTP reverse proxy, modelled and verified.
//!
//! The crate holds the decision logic of the proxy: building the upstream
//! URL, selecting which request headers are forwarded, mapping the upstream
//! outcome (a response or a dispatch failure) to the outbound response, the
//! per-request lifecycle, and the configuration defaults. The network shell
//! around it (socket, HTTP client, async runtime) hands this library plain
//! values and obeys its results.

pub mod config;
pub mod handler;
pub mod headers;
pub mod lifecycle;
pub mod relay;

pub use config::Config;
pub use handler::{BodySource, OutboundResponse, UpstreamDispatchError, UpstreamRequest,
    UpstreamResponse};
pub use headers::Header;
pub use lifecycle::HandlerPhase;
pub use relay::BodyRelay;
