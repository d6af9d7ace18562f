//! Dispatch over the versioned guest handler interfaces.
//!
//! The guest exposes exactly one of three wire-compatible handler
//! interfaces that differ only in binding namespace. The version is
//! resolved by the router before execution begins; dispatch here is a
//! closed tagged-variant match with no fallback and no negotiation.

use vstd::prelude::*;

verus! {

/// The handler interface version one component was routed with.
#[derive(Clone, Copy, Debug, PartialEq, Eq, Structural)]
pub enum HandlerVersion {
    /// The current stable incoming-handler interface.
    Latest,
    /// The release-candidate interface frozen on 2023-11-10.
    V2023_11_10,
    /// The release-candidate interface frozen on 2023-10-18.
    V2023_10_18,
}

/// The guest entrypoint an invocation calls, one per interface namespace.
#[derive(Clone, Copy, Debug, PartialEq, Eq, Structural)]
pub enum Entrypoint {
    IncomingHandlerLatest,
    IncomingHandler2023_11_10,
    IncomingHandler2023_10_18,
}

pub open spec fn spec_entrypoint_for(v: HandlerVersion) -> Entrypoint {
    match v {
        HandlerVersion::Latest => Entrypoint::IncomingHandlerLatest,
        HandlerVersion::V2023_11_10 => Entrypoint::IncomingHandler2023_11_10,
        HandlerVersion::V2023_10_18 => Entrypoint::IncomingHandler2023_10_18,
    }
}

/// Resolves the entrypoint for the version a request was tagged with: each
/// version loads exactly its own namespace's entrypoint.
pub fn select_entrypoint(v: &HandlerVersion) -> (e: Entrypoint)
    ensures
        e == spec_entrypoint_for(*v),
{
    match v {
        HandlerVersion::Latest => Entrypoint::IncomingHandlerLatest,
        HandlerVersion::V2023_11_10 => Entrypoint::IncomingHandler2023_11_10,
        HandlerVersion::V2023_10_18 => Entrypoint::IncomingHandler2023_10_18,
    }
}

/// Law: distinct versions never share an entrypoint, so a request tagged
/// for one interface cannot invoke another interface's handler.
pub proof fn lemma_dispatch_isolated(a: HandlerVersion, b: HandlerVersion)
    ensures
        a != b ==> spec_entrypoint_for(a) != spec_entrypoint_for(b),
{
}

} // verus!
