//! Lifecycle and reconciliation engine for versioned, hash-chained policy
//! sessions held by a remote attestation-backed session store.
//!
//! The library holds the decision logic: a strict template renderer, the
//! per-session reconciliation state machine, and the lifecycle coordinator
//! with its version-drift rules.  The remote store itself is driven by the
//! surrounding program, which performs each requested call and feeds the
//! outcome back into the machines defined here.

pub mod errors;
pub mod lifecycle;
pub mod numeral;
pub mod platform;
pub mod session;
pub mod state;
pub mod template;
