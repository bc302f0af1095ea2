use tx_reconcile::codec::{encode_op, encode_tx};
use tx_reconcile::records::{ExecutedTx, InsertTx, ReadTx, StoredExecutedTransaction};
use tx_reconcile::store::{ExecutedTxStore, SubmissionStore};
use tx_reconcile::tx::{Operation, Transaction};
use tx_reconcile::Fault;

fn payload(amount: &str) -> Vec<u8> {
    encode_tx(&Transaction::Transfer {
        from: vec![0x11; 20],
        to: vec![0x22; 20],
        token: 0,
        amount: amount.as_bytes().to_vec(),
        fee: b"0".to_vec(),
    })
}

fn submission(hash: u8, amount: &str) -> InsertTx {
    InsertTx {
        hash: vec![hash],
        primary_account_address: vec![0x11; 20],
        nonce: 1,
        tx: payload(amount),
    }
}

#[test]
fn insert_then_lookup_round_trips() {
    let mut store = SubmissionStore::new();
    assert_eq!(store.insert(submission(0xaa, "10.0"), 77), Ok(()));
    let got = store.lookup(&vec![0xaa]).unwrap();
    assert_eq!(
        got,
        &ReadTx {
            hash: vec![0xaa],
            primary_account_address: vec![0x11; 20],
            nonce: 1,
            tx: payload("10.0"),
            created_at: 77,
        }
    );
    assert!(store.lookup(&vec![0xbb]).is_none());
}

#[test]
fn inserting_twice_is_a_no_op() {
    let mut store = SubmissionStore::new();
    assert_eq!(store.insert(submission(0xaa, "10.0"), 77), Ok(()));
    assert_eq!(store.insert(submission(0xaa, "10.0"), 99), Ok(()));
    assert_eq!(store.len(), 1);
    // The first write is kept untouched, timestamp included.
    assert_eq!(store.lookup(&vec![0xaa]).unwrap().created_at, 77);
}

#[test]
fn same_hash_different_payload_is_a_conflict() {
    let mut store = SubmissionStore::new();
    assert_eq!(store.insert(submission(0xaa, "10.0"), 77), Ok(()));
    assert_eq!(
        store.insert(submission(0xaa, "20.0"), 78),
        Err(Fault::ConflictingSubmission)
    );
    assert_eq!(store.len(), 1);
    assert_eq!(store.lookup(&vec![0xaa]).unwrap().tx, payload("10.0"));
}

fn success_outcome(amount: &str) -> ExecutedTx {
    let op = Operation::Transfer {
        from: vec![0x11; 20],
        to: vec![0x22; 20],
        token: 0,
        amount: amount.as_bytes().to_vec(),
        fee: b"0".to_vec(),
    };
    let tx = op.try_get_tx().unwrap();
    ExecutedTx {
        tx,
        success: true,
        op: Some(op),
        fail_reason: None,
        block_index: Some(4),
    }
}

fn failure_outcome(amount: &str, reason: &str) -> ExecutedTx {
    ExecutedTx {
        tx: Transaction::Transfer {
            from: vec![0x11; 20],
            to: vec![0x22; 20],
            token: 0,
            amount: amount.as_bytes().to_vec(),
            fee: b"0".to_vec(),
        },
        success: false,
        op: None,
        fail_reason: Some(reason.to_string()),
        block_index: None,
    }
}

#[test]
fn record_then_by_hash_finds_the_whole_record() {
    let mut store = ExecutedTxStore::new();
    store.record(&success_outcome("3.5"), vec![0xbb], 7);
    let rec = store.by_hash(&vec![0xbb]).unwrap();
    assert_eq!(
        rec,
        &StoredExecutedTransaction {
            id: 1,
            block_number: 7,
            tx_hash: vec![0xbb],
            operation: Some(encode_op(&Operation::Transfer {
                from: vec![0x11; 20],
                to: vec![0x22; 20],
                token: 0,
                amount: b"3.5".to_vec(),
                fee: b"0".to_vec(),
            })),
            success: true,
            fail_reason: None,
            block_index: Some(4),
        }
    );
    assert!(store.by_hash(&vec![0xcc]).is_none());
}

#[test]
fn a_reader_never_sees_operation_without_block_index() {
    let mut store = ExecutedTxStore::new();
    store.record(&success_outcome("1"), vec![0x01], 7);
    store.record(&failure_outcome("2", "InsufficientBalance"), vec![0x02], 7);
    let ok = store.by_hash(&vec![0x01]).unwrap();
    assert!(ok.operation.is_some() && ok.block_index.is_some());
    let failed = store.by_hash(&vec![0x02]).unwrap();
    assert!(failed.operation.is_none() && failed.block_index.is_none());
    assert_eq!(
        failed.fail_reason,
        Some("InsufficientBalance".to_string())
    );
}

#[test]
fn by_block_returns_the_block_records_in_stored_order() {
    let mut store = ExecutedTxStore::new();
    store.record(&success_outcome("1"), vec![0x01], 7);
    store.record(&failure_outcome("2", "NonceMismatch"), vec![0x02], 8);
    store.record(&success_outcome("3"), vec![0x03], 7);
    let block7 = store.by_block(7);
    assert_eq!(block7.len(), 2);
    assert_eq!(block7[0].tx_hash, vec![0x01]);
    assert_eq!(block7[1].tx_hash, vec![0x03]);
    assert_eq!(block7[0].id, 1);
    assert_eq!(block7[1].id, 3);
    assert!(store.by_block(9).is_empty());
}
