//! The transaction-dispatch protocol: render and log the intent, submit,
//! log the pending hash, wait for confirmation no longer than the ceiling,
//! and map every outcome to a receipt or a typed error that keeps the hash.
//!
//! The protocol is a typestate machine. [`begin_dispatch`] records the
//! intent before anything is sent; [`DispatchIntent::submitted`] or
//! [`DispatchIntent::submit_failed`] consume it with the chain's answer to
//! the send; [`SubmittedDispatch::resolve`] consumes the pending dispatch
//! with the outcome of the bounded confirmation wait. The host process
//! performs the send and the wait and feeds their results in as plain
//! values; the decisions and the log lines are all made here.

use vstd::prelude::*;

use crate::error::AgentError;
use crate::error::TxHash;
use crate::events::LogEvent;
use crate::events::count_confirmed;
use crate::events::lemma_count_confirmed_push;
use crate::hexstr::hex_render;
use crate::hexstr::render_hex;

verus! {

/// Proof that a transaction was included on chain: at least its hash and a
/// block reference.
#[derive(Debug, Clone, PartialEq, Eq)]
pub struct TransactionReceipt {
    pub transaction_hash: TxHash,
    pub block_number: u64,
}

/// What the bounded confirmation wait came back with.
#[derive(Debug)]
pub enum WaitStatus {
    /// The chain confirmed the transaction before the ceiling.
    Confirmed(TransactionReceipt),
    /// The wait resolved before the ceiling, but the chain reports the
    /// transaction is no longer pending and was never included.
    Dropped,
    /// Nothing resolved by the ceiling; the transaction may still be mined
    /// later, but the protocol gives up watching.
    Unresolved,
}

/// The payload bytes of a transaction; a transaction without data carries
/// the empty payload.
pub open spec fn payload_bytes(data: Option<Vec<u8>>) -> Seq<u8> {
    match data {
        Some(v) => v@,
        None => Seq::<u8>::empty(),
    }
}

/// The zero address, the default routing target of a transaction that
/// names no destination.
pub open spec fn zero_address() -> Seq<u8> {
    Seq::new(20, |i: int| 0u8)
}

/// The destination as it appears in log lines: the named target, or the
/// rendered zero address when the transaction names none.
pub open spec fn dest_rendered(to: Option<String>) -> Seq<char> {
    match to {
        Some(s) => s@,
        None => hex_render(zero_address()),
    }
}

/// A dispatch whose intent is logged but whose transaction is not yet
/// submitted.
#[derive(Debug)]
pub struct DispatchIntent {
    /// The destination, rendered once so later log lines correlate.
    pub to_rendered: String,
    /// The payload, rendered once as hexadecimal.
    pub payload_hex: String,
    /// The log so far: exactly the pre-submit intent line.
    pub log: Vec<LogEvent>,
}

/// A dispatch whose transaction the chain holds as pending, identified by
/// its hash.
#[derive(Debug)]
pub struct SubmittedDispatch {
    pub to_rendered: String,
    pub payload_hex: String,
    /// The pending transaction's hash, kept by every failure kind from here
    /// on.
    pub tx_hash: TxHash,
    /// The hash rendered as hexadecimal, as it appears in log lines.
    pub hash_hex: String,
    /// The log so far: the intent line, then the pending-hash line.
    pub log: Vec<LogEvent>,
}

/// A finished dispatch: its outcome and the full log it produced.
#[derive(Debug)]
pub struct CompletedDispatch {
    pub outcome: Result<TransactionReceipt, AgentError>,
    pub log: Vec<LogEvent>,
}

/// Start a dispatch: render the destination and payload and record the
/// intent line. This happens before anything is sent, so the record exists
/// even if submission later fails.
pub fn begin_dispatch(to: Option<String>, data: Option<Vec<u8>>) -> (d: DispatchIntent)
    ensures
        d.to_rendered@ == dest_rendered(to),
        d.payload_hex@ == hex_render(payload_bytes(data)),
        d.log@.len() == 1,
        d.log@[0] == (LogEvent::Dispatching { to: d.to_rendered, data: d.payload_hex }),
        count_confirmed(d.log@) == 0,
{
    let to_rendered = match to {
        Some(t) => t,
        None => {
            let mut zeros: Vec<u8> = Vec::new();
            let mut i: usize = 0;
            while i < 20
                invariant
                    0 <= i <= 20,
                    zeros@.len() == i,
                    forall|j: int| 0 <= j < i ==> zeros@[j] == 0u8,
                decreases 20 - i,
            {
                zeros.push(0u8);
                i = i + 1;
            }
            proof {
                assert(zeros@ =~= zero_address());
            }
            render_hex(&zeros)
        },
    };
    let payload: Vec<u8> = match data {
        Some(v) => v,
        None => Vec::new(),
    };
    let payload_hex = render_hex(&payload);
    let mut log: Vec<LogEvent> = Vec::new();
    let event = LogEvent::Dispatching { to: to_rendered.clone(), data: payload_hex.clone() };
    proof {
        lemma_count_confirmed_push(log@, event);
    }
    log.push(event);
    DispatchIntent { to_rendered, payload_hex, log }
}

impl DispatchIntent {
    /// The chain accepted the transaction as pending under `tx_hash`: log
    /// the hash beside the same destination and payload as the intent line.
    pub fn submitted(self, tx_hash: TxHash) -> (s: SubmittedDispatch)
        ensures
            s.to_rendered == self.to_rendered,
            s.payload_hex == self.payload_hex,
            s.tx_hash == tx_hash,
            s.hash_hex@ == hex_render(tx_hash.bytes@),
            s.log@ == self.log@.push(
                LogEvent::Dispatched {
                    to: self.to_rendered,
                    data: self.payload_hex,
                    tx_hash: s.hash_hex,
                },
            ),
            count_confirmed(s.log@) == count_confirmed(self.log@),
    {
        let DispatchIntent { to_rendered, payload_hex, mut log } = self;
        let hash_hex = render_hex(&tx_hash.bytes);
        let event = LogEvent::Dispatched {
            to: to_rendered.clone(),
            data: payload_hex.clone(),
            tx_hash: hash_hex.clone(),
        };
        proof {
            lemma_count_confirmed_push(log@, event);
        }
        log.push(event);
        SubmittedDispatch { to_rendered, payload_hex, tx_hash, hash_hex, log }
    }

    /// Submission itself failed: the failure propagates at once as a
    /// chain-communication error, with no retry and no hash to report; the
    /// intent line already stands.
    pub fn submit_failed(self, detail: String) -> (c: CompletedDispatch)
        ensures
            c.outcome == Err::<TransactionReceipt, AgentError>(
                AgentError::ChainCommunication { detail },
            ),
            c.log@ == self.log@,
    {
        let DispatchIntent { to_rendered: _, payload_hex: _, log } = self;
        CompletedDispatch { outcome: Err(AgentError::ChainCommunication { detail }), log }
    }
}

impl SubmittedDispatch {
    /// Resolve the bounded confirmation wait. A receipt yields success and
    /// exactly one success line carrying the receipt's hash; a wait the
    /// chain resolved without a receipt is the dropped-transaction error; a
    /// wait the ceiling cut off is the provider-timeout error. Both errors
    /// keep the pending transaction's hash, and the host may only report an
    /// unresolved wait once the ceiling has elapsed.
    pub fn resolve(self, elapsed_secs: u64, wait: WaitStatus) -> (c: CompletedDispatch)
        requires
            wait matches WaitStatus::Unresolved ==> elapsed_secs
                >= crate::CONFIRMATION_CEILING_SECS,
        ensures
            match wait {
                WaitStatus::Confirmed(receipt) => {
                    &&& c.outcome == Ok::<TransactionReceipt, AgentError>(receipt)
                    &&& c.log@ == self.log@.push(c.log@.last())
                    &&& c.log@.last() matches LogEvent::TxConfirmed { tx_hash } && tx_hash@
                        == hex_render(receipt.transaction_hash.bytes@)
                    &&& count_confirmed(c.log@) == count_confirmed(self.log@) + 1
                },
                WaitStatus::Dropped => {
                    &&& c.outcome == Err::<TransactionReceipt, AgentError>(
                        AgentError::DroppedTransaction { tx_hash: self.tx_hash },
                    )
                    &&& c.log@ == self.log@
                },
                WaitStatus::Unresolved => {
                    &&& c.outcome == Err::<TransactionReceipt, AgentError>(
                        AgentError::ProviderTimeout { tx_hash: self.tx_hash },
                    )
                    &&& c.log@ == self.log@
                },
            },
    {
        let SubmittedDispatch { to_rendered: _, payload_hex: _, tx_hash, hash_hex: _, mut log } =
            self;
        match wait {
            WaitStatus::Confirmed(receipt) => {
                let confirmed_hex = render_hex(&receipt.transaction_hash.bytes);
                let event = LogEvent::TxConfirmed { tx_hash: confirmed_hex };
                proof {
                    lemma_count_confirmed_push(log@, event);
                }
                log.push(event);
                CompletedDispatch { outcome: Ok(receipt), log }
            },
            WaitStatus::Dropped => CompletedDispatch {
                outcome: Err(AgentError::DroppedTransaction { tx_hash }),
                log,
            },
            WaitStatus::Unresolved => CompletedDispatch {
                outcome: Err(AgentError::ProviderTimeout { tx_hash }),
                log,
            },
        }
    }
}

} // verus!
