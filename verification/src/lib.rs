//! Agent-orchestration core of a cross-chain message-relay bridge.
//!
//! The library holds the verified decision logic of the agent: the shared
//! [`agent::AgentCore`] state, the supervisor's bookkeeping over its set of
//! in-flight replica tasks, and the transaction-dispatch protocol that maps
//! every outcome of a bounded confirmation wait to a receipt or a typed
//! error. The asynchronous plumbing that drives these decisions (spawning
//! tasks, racing futures, sleeping on timers, emitting log lines) lives
//! outside the library and feeds it plain values.

pub mod agent;
pub mod dispatch;
pub mod error;
pub mod events;
pub mod hexstr;
pub mod supervisor;

use vstd::prelude::*;

verus! {

/// Ceiling, in seconds, on the wait for on-chain confirmation of a
/// dispatched transaction.
pub const CONFIRMATION_CEILING_SECS: u64 = 900;

} // verus!
