//! The error taxonomy of the agent core. Every failure kind that carries a
//! transaction hash keeps it, so an operator can inspect chain-explorer
//! state after the fact.

use vstd::prelude::*;

use crate::hexstr::hex_render;
use crate::hexstr::render_hex;

verus! {

/// The hash identifying a submitted transaction, as the chain returned it.
#[derive(Debug, Clone, PartialEq, Eq)]
pub struct TxHash {
    pub bytes: Vec<u8>,
}

/// A failure of the agent core.
#[derive(Debug, PartialEq, Eq)]
pub enum AgentError {
    /// Talking to the chain failed while submitting a transaction; nothing
    /// was dispatched, so there is no hash to report.
    ChainCommunication { detail: String },
    /// The bounded wait for confirmation elapsed; the transaction's true
    /// fate is unknown to the caller.
    ProviderTimeout { tx_hash: TxHash },
    /// The chain reports the transaction will never be included; terminal
    /// and unambiguous.
    DroppedTransaction { tx_hash: TxHash },
    /// A single replica's task ended in an error, attributed to the replica
    /// by name; non-fatal to the process.
    ReplicaFailed { replica: String, detail: String },
    /// The supervisor's active task set is empty: the agent is no longer
    /// doing useful work, whether the tasks succeeded or failed.
    AllReplicasShutDown,
}

/// The rendering of an error, one line per failure kind, with the
/// transaction hash where one exists.
pub open spec fn describe_spec(e: AgentError) -> Seq<char> {
    match e {
        AgentError::ChainCommunication { detail } => "chain communication failed: "@ + detail@,
        AgentError::ProviderTimeout { tx_hash } => "waiting for dispatched transaction confirmation timed out; transaction hash: "@
            + hex_render(tx_hash.bytes@),
        AgentError::DroppedTransaction { tx_hash } => "transaction was dropped before inclusion; transaction hash: "@
            + hex_render(tx_hash.bytes@),
        AgentError::ReplicaFailed { replica, detail } => "replica named "@ + replica@
            + " failed: "@ + detail@,
        AgentError::AllReplicasShutDown => "All replicas have shut down"@,
    }
}

impl AgentError {
    /// Render the error as one line; each kind that holds a transaction
    /// hash embeds it in hexadecimal.
    pub fn describe(&self) -> (r: String)
        ensures
            r@ == describe_spec(*self),
    {
        match self {
            AgentError::ChainCommunication { detail } => String::from_str(
                "chain communication failed: ",
            ).concat(detail.as_str()),
            AgentError::ProviderTimeout { tx_hash } => {
                let digits = render_hex(&tx_hash.bytes);
                String::from_str(
                    "waiting for dispatched transaction confirmation timed out; transaction hash: ",
                ).concat(digits.as_str())
            },
            AgentError::DroppedTransaction { tx_hash } => {
                let digits = render_hex(&tx_hash.bytes);
                String::from_str("transaction was dropped before inclusion; transaction hash: ")
                    .concat(digits.as_str())
            },
            AgentError::ReplicaFailed { replica, detail } => String::from_str("replica named ")
                .concat(replica.as_str()).concat(" failed: ").concat(detail.as_str()),
            AgentError::AllReplicasShutDown => String::from_str("All replicas have shut down"),
        }
    }
}

/// Attribute a replica task's error to the replica by name, keeping the
/// underlying detail, so the supervisor's diagnostics stay
/// replica-attributable.
pub fn replica_failure(replica: &String, detail: String) -> (e: AgentError)
    ensures
        e == (AgentError::ReplicaFailed { replica: *replica, detail }),
{
    AgentError::ReplicaFailed { replica: replica.clone(), detail }
}

} // verus!
