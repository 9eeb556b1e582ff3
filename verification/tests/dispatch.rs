use optics_base::dispatch::begin_dispatch;
use optics_base::dispatch::TransactionReceipt;
use optics_base::dispatch::WaitStatus;
use optics_base::error::AgentError;
use optics_base::error::TxHash;
use optics_base::events::LogEvent;
use optics_base::CONFIRMATION_CEILING_SECS;

fn sample_hash() -> TxHash {
    TxHash { bytes: vec![0xab; 32] }
}

fn sample_hash_hex() -> String {
    format!("0x{}", "ab".repeat(32))
}

#[test]
fn ceiling_is_fifteen_minutes() {
    assert_eq!(CONFIRMATION_CEILING_SECS, 900);
}

#[test]
fn payload_rendered_as_hex() {
    let d = begin_dispatch(Some("relay-target".to_string()), Some(vec![0x00, 0xff, 0x10]));
    assert_eq!(d.payload_hex, "0x00ff10".to_string());
    assert_eq!(d.to_rendered, "relay-target".to_string());
    assert_eq!(
        d.log,
        vec![LogEvent::Dispatching {
            to: "relay-target".to_string(),
            data: "0x00ff10".to_string(),
        }]
    );
}

#[test]
fn missing_destination_and_payload_take_defaults() {
    let d = begin_dispatch(None, None);
    assert_eq!(d.payload_hex, "0x".to_string());
    assert_eq!(d.to_rendered, format!("0x{}", "00".repeat(20)));
}

#[test]
fn confirmed_dispatch_yields_receipt_and_one_success_line() {
    // A wait that resolves with a receipt before the ceiling yields that
    // receipt, and the log holds exactly one success line with its hash.
    let d = begin_dispatch(Some("dest".to_string()), Some(vec![0xde, 0xad, 0xbe, 0xef]));
    let s = d.submitted(sample_hash());
    assert_eq!(s.hash_hex, sample_hash_hex());
    assert_eq!(
        s.log[1],
        LogEvent::Dispatched {
            to: "dest".to_string(),
            data: "0xdeadbeef".to_string(),
            tx_hash: sample_hash_hex(),
        }
    );
    let receipt = TransactionReceipt { transaction_hash: sample_hash(), block_number: 42 };
    let c = s.resolve(5, WaitStatus::Confirmed(receipt.clone()));
    assert_eq!(c.outcome, Ok(receipt));
    assert_eq!(c.log.len(), 3);
    assert_eq!(c.log[2], LogEvent::TxConfirmed { tx_hash: sample_hash_hex() });
    let success_lines = c
        .log
        .iter()
        .filter(|e| matches!(e, LogEvent::TxConfirmed { .. }))
        .count();
    assert_eq!(success_lines, 1);
}

#[test]
fn timed_out_wait_fails_with_timeout_error_carrying_hash() {
    // A wait the ceiling cut off fails with the provider-timeout error, and
    // the error's rendering carries the correct transaction hash.
    let d = begin_dispatch(Some("dest".to_string()), Some(vec![0x01]));
    let s = d.submitted(sample_hash());
    let c = s.resolve(CONFIRMATION_CEILING_SECS, WaitStatus::Unresolved);
    let err = c.outcome.unwrap_err();
    assert_eq!(err, AgentError::ProviderTimeout { tx_hash: sample_hash() });
    assert_eq!(
        err.describe(),
        format!(
            "waiting for dispatched transaction confirmation timed out; transaction hash: {}",
            sample_hash_hex()
        )
    );
    // No success line was logged.
    assert_eq!(c.log.len(), 2);
}

#[test]
fn dropped_wait_fails_with_dropped_error_carrying_hash() {
    // A wait that resolves to "no receipt" before the ceiling fails with
    // the dropped-transaction error: a different kind from the timeout,
    // both carrying the same transaction hash.
    let d = begin_dispatch(Some("dest".to_string()), Some(vec![0x01]));
    let s = d.submitted(sample_hash());
    let c = s.resolve(10, WaitStatus::Dropped);
    let err = c.outcome.unwrap_err();
    assert_eq!(err, AgentError::DroppedTransaction { tx_hash: sample_hash() });
    assert_ne!(err, AgentError::ProviderTimeout { tx_hash: sample_hash() });
    assert_eq!(
        err.describe(),
        format!(
            "transaction was dropped before inclusion; transaction hash: {}",
            sample_hash_hex()
        )
    );
    assert_eq!(c.log.len(), 2);
}

#[test]
fn failed_submission_is_chain_communication_error() {
    // When the send itself fails there is no hash; the intent line is still
    // the operator's pre-failure evidence.
    let d = begin_dispatch(Some("dest".to_string()), Some(vec![0x01, 0x02]));
    let intent_line = d.log[0].clone();
    let c = d.submit_failed("connection refused".to_string());
    let err = c.outcome.unwrap_err();
    assert_eq!(
        err,
        AgentError::ChainCommunication { detail: "connection refused".to_string() }
    );
    assert_eq!(
        err.describe(),
        "chain communication failed: connection refused".to_string()
    );
    assert_eq!(c.log.len(), 1);
    assert_eq!(c.log[0], intent_line);
}

#[test]
fn replica_failure_keeps_underlying_detail() {
    let err = optics_base::error::replica_failure(
        &"beta".to_string(),
        "dispatch timed out".to_string(),
    );
    assert_eq!(
        err.describe(),
        "replica named beta failed: dispatch timed out".to_string()
    );
}
