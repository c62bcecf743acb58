//! A stateless responder for authenticated webhook commands: it proves a
//! request's authenticity, classifies its payload, runs a full-text query
//! against an index built once at startup, and renders a bounded reply.
//!
//! The pipeline is linear. [`auth`] gates everything: no body is decoded
//! before its signature is verified. [`payload`] tells a liveness probe
//! from a command invocation. [`index`] holds the read-only full-text
//! store and executes queries; [`builder`] fills it from the upstream
//! dataset. [`reply`] renders result sets and the two reply envelopes, and
//! [`handler`] composes the whole.

use vstd::prelude::*;

pub mod auth;
pub mod builder;
pub mod handler;
pub mod hexcode;
pub mod index;
pub mod payload;
pub mod reply;

verus! {

/// Why a single request was rejected: the security boundary errors
/// (`MissingHeader`, `MalformedSignature`, `VerificationFailed`), the
/// payload decoding errors (`InvalidEncoding`, `MalformedPayload`), and
/// the non-fatal query error (`QuerySyntaxError`).
#[derive(Clone, Copy, Debug, PartialEq, Eq, Structural)]
pub enum RequestError {
    MissingHeader,
    MalformedSignature,
    VerificationFailed,
    InvalidEncoding,
    MalformedPayload,
    QuerySyntaxError,
}

/// The one startup failure: the index could not be built. A process either
/// has a complete index or does not serve requests at all.
#[derive(Clone, Copy, Debug, PartialEq, Eq, Structural)]
pub struct IndexBuildFailure;

} // verus!
