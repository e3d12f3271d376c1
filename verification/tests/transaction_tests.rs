//! The retry engine of the storage transaction, driven round by round.

use blob_storage::blob::Blob;
use blob_storage::error::Error;
use blob_storage::timestamp::DateTime;
use blob_storage::transaction::{RoundStatus, StorageTransaction, TransactionState, MAX_ATTEMPTS};

fn blob(path: &str) -> Blob {
    Blob {
        path: path.to_string(),
        mime: "text/plain".to_string(),
        date_updated: DateTime { year: 1970, month: 1, day: 1, hour: 0, minute: 0, second: 0 },
        content: b"Hello world!".to_vec(),
        compression: None,
    }
}

#[test]
fn test_new_transaction_is_open() {
    let txn = StorageTransaction::new();
    assert_eq!(txn.state(), TransactionState::Open);
    assert_eq!(txn.uploaded_files_total(), 0);
    assert!(txn.pending().is_empty());
}

#[test]
fn test_complete_without_batches() {
    let mut txn = StorageTransaction::new();
    assert_eq!(txn.complete(), Ok(()));
    assert_eq!(txn.state(), TransactionState::Complete);
}

#[test]
fn test_empty_batch_stores_at_once() {
    let mut txn = StorageTransaction::new();
    txn.begin_batch(Vec::new());
    assert_eq!(txn.record_round(&Vec::new()), Ok(RoundStatus::BatchStored));
    assert_eq!(txn.uploaded_files_total(), 0);
    assert_eq!(txn.complete(), Ok(()));
}

#[test]
fn test_single_round_success() {
    let mut txn = StorageTransaction::new();
    txn.begin_batch(vec![blob("a"), blob("b"), blob("c")]);
    assert_eq!(txn.pending().len(), 3);
    let status = txn.record_round(&vec![true, true, true]);
    assert_eq!(status, Ok(RoundStatus::BatchStored));
    assert_eq!(txn.uploaded_files_total(), 3);
    assert!(txn.pending().is_empty());
    assert_eq!(txn.complete(), Ok(()));
    assert_eq!(txn.state(), TransactionState::Complete);
}

#[test]
fn test_retry_convergence() {
    // Every item fails on its first attempt and succeeds on its second:
    // the batch is stored in exactly two rounds and every item is counted
    // as a success exactly once.
    let n = 4;
    let batch: Vec<Blob> = (0..n).map(|i| blob(&format!("blob-{}", i))).collect();
    let mut txn = StorageTransaction::new();
    txn.begin_batch(batch);

    let first = txn.record_round(&vec![false; n]);
    assert_eq!(first, Ok(RoundStatus::RetryNeeded));
    assert_eq!(txn.pending().len(), n);
    assert_eq!(txn.uploaded_files_total(), 0);

    let second = txn.record_round(&vec![true; n]);
    assert_eq!(second, Ok(RoundStatus::BatchStored));
    assert!(txn.pending().is_empty());
    assert_eq!(txn.uploaded_files_total(), n as u64);
    assert_eq!(txn.rounds(), 2);

    assert_eq!(txn.complete(), Ok(()));
    assert_eq!(txn.state(), TransactionState::Complete);
}

#[test]
fn test_retry_keeps_failed_blobs_intact() {
    // A failed write retains the blob's full data for the next attempt.
    let mut txn = StorageTransaction::new();
    txn.begin_batch(vec![blob("keep/me")]);
    assert_eq!(txn.record_round(&vec![false]), Ok(RoundStatus::RetryNeeded));
    let kept = &txn.pending()[0];
    assert_eq!(kept.path, "keep/me");
    assert_eq!(kept.content, b"Hello world!".to_vec());
    assert_eq!(kept.mime, "text/plain");
}

#[test]
fn test_retry_exhaustion() {
    // One item fails on all rounds while the rest succeed: the retry
    // budget runs out, the transaction aborts and cannot reach Complete,
    // the persistently failing item is reported, and the others stay
    // counted as stored.
    let mut txn = StorageTransaction::new();
    txn.begin_batch(vec![blob("ok-1"), blob("always-fails"), blob("ok-2")]);

    assert_eq!(
        txn.record_round(&vec![true, false, true]),
        Ok(RoundStatus::RetryNeeded)
    );
    assert_eq!(txn.uploaded_files_total(), 2);
    assert_eq!(txn.pending().len(), 1);

    assert_eq!(txn.record_round(&vec![false]), Ok(RoundStatus::RetryNeeded));

    // Third and last attempt of the budget.
    assert_eq!(MAX_ATTEMPTS, 3);
    assert_eq!(
        txn.record_round(&vec![false]),
        Err(Error::RetryBudgetExhausted)
    );
    assert_eq!(txn.state(), TransactionState::Aborted);

    // The failing subset is reported; the successful writes remain.
    assert_eq!(txn.pending().len(), 1);
    assert_eq!(txn.pending()[0].path, "always-fails");
    assert_eq!(txn.uploaded_files_total(), 2);

    // The transaction can no longer complete.
    assert_eq!(txn.complete(), Err(Error::RetryBudgetExhausted));
    assert_eq!(txn.state(), TransactionState::Aborted);
}

#[test]
fn test_partial_failure_keeps_order_of_failures() {
    let mut txn = StorageTransaction::new();
    txn.begin_batch(vec![blob("a"), blob("b"), blob("c"), blob("d")]);
    assert_eq!(
        txn.record_round(&vec![true, false, true, false]),
        Ok(RoundStatus::RetryNeeded)
    );
    let still: Vec<&str> = txn.pending().iter().map(|b| b.path.as_str()).collect();
    assert_eq!(still, vec!["b", "d"]);
    assert_eq!(txn.uploaded_files_total(), 2);
}
