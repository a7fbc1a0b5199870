//! An authentication and session-lifecycle service core, verified with
//! Verus: credential validation, signed-token issue and verification,
//! token revocation, and a two-factor challenge-response workflow.
//!
//! The stores, the token service and the workflows that sequence them
//! live here, each behind a contract over a mathematical view of its
//! state. Transport, asynchrony and durable backends stay outside;
//! handlers pass plain values in — including the current time, so the
//! workflows never read a clock — and plain values out.

use vstd::prelude::*;

pub mod app_state;
pub mod domain;
pub mod routes;
pub mod services;

verus! {

/// Body of every error reply the service sends: a single human-readable line.
pub struct ErrorResponse {
    pub error: String,
}

} // verus!
