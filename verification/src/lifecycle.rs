//! The lifecycle of one proxied request, phase by phase.
//!
//! A request moves from `Idle` through building and streaming the upstream
//! request to awaiting the upstream response; from there it either streams
//! the response back or substitutes the gateway error. `Done` is terminal,
//! and no transition ever returns to an earlier phase: there are no retries.

use vstd::prelude::*;

verus! {

/// The phase one request handling is in.
#[derive(Clone, Copy, Debug, PartialEq, Eq, Structural)]
pub enum HandlerPhase {
    /// Nothing has happened yet.
    Idle,
    /// The upstream URL and headers are being derived.
    BuildingUpstreamRequest,
    /// The inbound body is being streamed upstream.
    StreamingRequestBody,
    /// Waiting for the upstream status and headers.
    AwaitingUpstreamResponse,
    /// The upstream body is being streamed back to the caller.
    StreamingResponseBody,
    /// No upstream response was obtained.
    Failed,
    /// The fixed gateway error is being sent to the caller.
    EmittingGatewayError,
    /// The request is finished.
    Done,
}

/// A measure on phases that every transition strictly increases: the
/// lifecycle never revisits a phase, so there are no retries.
pub open spec fn phase_rank(p: HandlerPhase) -> int {
    match p {
        HandlerPhase::Idle => 0,
        HandlerPhase::BuildingUpstreamRequest => 1,
        HandlerPhase::StreamingRequestBody => 2,
        HandlerPhase::AwaitingUpstreamResponse => 3,
        HandlerPhase::StreamingResponseBody => 4,
        HandlerPhase::Failed => 4,
        HandlerPhase::EmittingGatewayError => 5,
        HandlerPhase::Done => 6,
    }
}

/// The one allowed transition out of a phase. The only branch is at
/// `AwaitingUpstreamResponse`, where `upstream_ok` says whether a response
/// was obtained; everywhere else `upstream_ok` is ignored.
pub open spec fn next_phase(p: HandlerPhase, upstream_ok: bool) -> HandlerPhase {
    match p {
        HandlerPhase::Idle => HandlerPhase::BuildingUpstreamRequest,
        HandlerPhase::BuildingUpstreamRequest => HandlerPhase::StreamingRequestBody,
        HandlerPhase::StreamingRequestBody => HandlerPhase::AwaitingUpstreamResponse,
        HandlerPhase::AwaitingUpstreamResponse => if upstream_ok {
            HandlerPhase::StreamingResponseBody
        } else {
            HandlerPhase::Failed
        },
        HandlerPhase::StreamingResponseBody => HandlerPhase::Done,
        HandlerPhase::Failed => HandlerPhase::EmittingGatewayError,
        HandlerPhase::EmittingGatewayError => HandlerPhase::Done,
        HandlerPhase::Done => HandlerPhase::Done,
    }
}

/// Advances the lifecycle by one step. `Done` is terminal and cannot be
/// advanced; every step strictly increases the phase rank, so no sequence
/// of steps ever returns to an earlier phase.
pub fn advance(p: HandlerPhase, upstream_ok: bool) -> (q: HandlerPhase)
    requires
        !(p is Done),
    ensures
        q == next_phase(p, upstream_ok),
        phase_rank(q) > phase_rank(p),
{
    match p {
        HandlerPhase::Idle => HandlerPhase::BuildingUpstreamRequest,
        HandlerPhase::BuildingUpstreamRequest => HandlerPhase::StreamingRequestBody,
        HandlerPhase::StreamingRequestBody => HandlerPhase::AwaitingUpstreamResponse,
        HandlerPhase::AwaitingUpstreamResponse => if upstream_ok {
            HandlerPhase::StreamingResponseBody
        } else {
            HandlerPhase::Failed
        },
        HandlerPhase::StreamingResponseBody => HandlerPhase::Done,
        HandlerPhase::Failed => HandlerPhase::EmittingGatewayError,
        HandlerPhase::EmittingGatewayError => HandlerPhase::Done,
        HandlerPhase::Done => HandlerPhase::Done,
    }
}

} // verus!
