//! An OAuth2 authorization-code bridge: a short-lived session state machine
//! that turns a user's join of a one-time verification channel into a
//! single-use authorization code, redeemable exactly once for an identity
//! assertion.
//!
//! The verified core covers the session store, the verification
//! orchestrator, the code issuer and the token exchanger. Channel creation,
//! membership enumeration and HTTP transport are external collaborators:
//! callers observe them and hand the observed plain values in.

pub mod api;
pub mod authorize;
pub mod compare;
pub mod config;
pub mod errors;
pub mod exchange;
pub mod guarantees;
pub mod issuer;
pub mod orchestrator;
pub mod queries;
pub mod random;
pub mod session;
pub mod store;
pub mod text;
