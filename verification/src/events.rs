//! Structured log events. Every phase of the dispatch protocol and every
//! replica-task failure observed by the supervisor produces one of these
//! values; the host process emits them through its logging backend. They are
//! part of the operational contract, not incidental output.

use vstd::prelude::*;

verus! {

/// One structured log line.
#[derive(Debug, Clone, PartialEq, Eq)]
pub enum LogEvent {
    /// A transaction is about to be submitted: destination and payload,
    /// recorded before the send so intent is visible even if the send fails.
    Dispatching { to: String, data: String },
    /// The chain accepted the transaction as pending: the same destination
    /// and payload as the matching `Dispatching` line, plus the hash.
    Dispatched { to: String, data: String, tx_hash: String },
    /// The transaction was confirmed; final success line for its hash.
    TxConfirmed { tx_hash: String },
    /// A replica's task ended in an error; the replica stays down.
    ReplicaFailed { replica: String, error: String },
}

/// Whether a log line is the success line of a confirmed transaction.
pub open spec fn is_confirmed_line(e: LogEvent) -> bool {
    match e {
        LogEvent::TxConfirmed { .. } => true,
        _ => false,
    }
}

/// How many success lines a log holds.
pub open spec fn count_confirmed(log: Seq<LogEvent>) -> int
    decreases log.len(),
{
    if log.len() == 0 {
        0
    } else {
        count_confirmed(log.drop_last()) + if is_confirmed_line(log.last()) {
            1int
        } else {
            0int
        }
    }
}

/// Appending one line changes the success-line count by one exactly when
/// the new line is a success line.
pub proof fn lemma_count_confirmed_push(log: Seq<LogEvent>, e: LogEvent)
    ensures
        count_confirmed(log.push(e)) == count_confirmed(log) + if is_confirmed_line(e) {
            1int
        } else {
            0int
        },
{
    assert(log.push(e).drop_last() =~= log);
    assert(log.push(e).last() == e);
}

} // verus!
