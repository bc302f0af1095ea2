use tx_reconcile::codec::{encode_op, encode_tx};
use tx_reconcile::records::{ExecutedTx, InsertTx, ReadTx, StoredExecutedTransaction};
use tx_reconcile::store::{ExecutedTxStore, SubmissionStore};
use tx_reconcile::tx::{Operation, Transaction};
use tx_reconcile::views::{
    contract_sentinel, project_by_hash, project_history_item, project_priority_receipt,
    project_block_history, project_receipt, ProverRun,
};
use tx_reconcile::Fault;

fn deposit_outcome(amount: &str) -> ExecutedTx {
    ExecutedTx {
        tx: Transaction::Transfer {
            from: vec![0x11; 20],
            to: vec![0x22; 20],
            token: 3,
            amount: amount.as_bytes().to_vec(),
            fee: b"0".to_vec(),
        },
        success: true,
        op: Some(Operation::Deposit {
            from: vec![0x11; 20],
            to: vec![0x22; 20],
            token: 3,
            amount: amount.as_bytes().to_vec(),
        }),
        fail_reason: None,
        block_index: Some(0),
    }
}

#[test]
fn scenario_c_deposit_view_uses_the_sentinel_and_no_fee() {
    for amount in ["0.0001", "1", "123456789.5"] {
        let view = project_by_hash(&deposit_outcome(amount), 11);
        assert_eq!(view.tx_type, "Deposit");
        assert_eq!(view.from, contract_sentinel());
        assert_eq!(view.fee, None);
        assert_eq!(view.to, vec![0x22; 20]);
        assert_eq!(view.amount, amount.as_bytes().to_vec());
        assert_eq!(view.block_number, 11);
    }
}

#[test]
fn transfer_view_keeps_both_parties_and_the_fee() {
    let op = Operation::Transfer {
        from: vec![1; 20],
        to: vec![2; 20],
        token: 5,
        amount: b"3.5".to_vec(),
        fee: b"0.1".to_vec(),
    };
    let e = ExecutedTx {
        tx: op.try_get_tx().unwrap(),
        success: true,
        op: Some(op),
        fail_reason: None,
        block_index: Some(1),
    };
    let view = project_by_hash(&e, 4);
    assert_eq!(view.tx_type, "Transfer");
    assert_eq!(view.from, vec![1; 20]);
    assert_eq!(view.to, vec![2; 20]);
    assert_eq!(view.token, 5);
    assert_eq!(view.fee, Some(b"0.1".to_vec()));
}

#[test]
fn withdraw_view_sends_to_the_sentinel() {
    let op = Operation::Withdraw {
        from: vec![1; 20],
        to: vec![2; 20],
        token: 5,
        amount: b"3.5".to_vec(),
        fee: b"0.1".to_vec(),
    };
    let e = ExecutedTx {
        tx: op.try_get_tx().unwrap(),
        success: true,
        op: Some(op),
        fail_reason: None,
        block_index: Some(1),
    };
    let view = project_by_hash(&e, 4);
    assert_eq!(view.tx_type, "Withdraw");
    assert_eq!(view.from, vec![1; 20]);
    assert_eq!(view.to, contract_sentinel());
    assert_eq!(view.fee, Some(b"0.1".to_vec()));
}

#[test]
fn failed_transaction_is_classified_by_its_submitted_body() {
    let e = ExecutedTx {
        tx: Transaction::Withdraw {
            from: vec![7; 20],
            to: vec![8; 20],
            token: 1,
            amount: b"2".to_vec(),
            fee: b"0".to_vec(),
        },
        success: false,
        op: None,
        fail_reason: Some("InsufficientBalance".to_string()),
        block_index: None,
    };
    let view = project_by_hash(&e, 9);
    assert_eq!(view.tx_type, "Withdraw");
    assert_eq!(view.to, contract_sentinel());
}

#[test]
fn history_item_packages_the_reconciled_result() {
    let op = Operation::Transfer {
        from: vec![1; 20],
        to: vec![2; 20],
        token: 0,
        amount: b"3.5".to_vec(),
        fee: b"0".to_vec(),
    };
    let record = StoredExecutedTransaction {
        id: 1,
        block_number: 7,
        tx_hash: vec![0xbb],
        operation: Some(encode_op(&op)),
        success: true,
        fail_reason: None,
        block_index: Some(2),
    };
    let item = project_history_item(record, None, true, false).unwrap();
    assert_eq!(item.hash, Some(vec![0xbb]));
    assert_eq!(item.pq_id, None);
    assert_eq!(item.tx, encode_tx(&op.try_get_tx().unwrap()));
    assert_eq!(item.success, Some(true));
    assert_eq!(item.fail_reason, None);
    assert!(item.commited);
    assert!(!item.verified);
}

#[test]
fn history_item_surfaces_reconciliation_faults() {
    let record = StoredExecutedTransaction {
        id: 1,
        block_number: 7,
        tx_hash: vec![0xbb],
        operation: None,
        success: false,
        fail_reason: Some("x".to_string()),
        block_index: None,
    };
    assert_eq!(
        project_history_item(record, None, true, true),
        Err(Fault::LostTransaction)
    );
}

#[test]
fn receipt_carries_status_and_prover_run_through() {
    let payload = encode_tx(&Transaction::Transfer {
        from: vec![1; 20],
        to: vec![2; 20],
        token: 0,
        amount: b"10.0".to_vec(),
        fee: b"0".to_vec(),
    });
    let stored = ReadTx {
        hash: vec![0xaa],
        primary_account_address: vec![1; 20],
        nonce: 5,
        tx: payload,
        created_at: 0,
    };
    let record = StoredExecutedTransaction {
        id: 1,
        block_number: 3,
        tx_hash: vec![0xaa],
        operation: None,
        success: false,
        fail_reason: Some("InsufficientBalance".to_string()),
        block_index: None,
    };
    let run = ProverRun { id: 12, block_number: 3 };
    let receipt = project_receipt(record, Some(stored), true, Some(run)).unwrap();
    assert_eq!(receipt.tx_hash, vec![0xaa]);
    assert_eq!(receipt.block_number, 3);
    assert_eq!(receipt.success, false);
    assert!(receipt.verified);
    assert_eq!(receipt.fail_reason, Some("InsufficientBalance".to_string()));
    assert_eq!(receipt.prover_run, Some(run));
}

#[test]
fn priority_receipt_is_a_pure_passthrough() {
    let run = ProverRun { id: 1, block_number: 2 };
    let r = project_priority_receipt(true, false, Some(run));
    assert!(r.committed);
    assert!(!r.verified);
    assert_eq!(r.prover_run, Some(run));
    let none = project_priority_receipt(false, true, None);
    assert!(!none.committed);
    assert!(none.verified);
    assert_eq!(none.prover_run, None);
}

fn ok_op() -> Operation {
    Operation::Transfer {
        from: vec![1; 20],
        to: vec![2; 20],
        token: 0,
        amount: b"3.5".to_vec(),
        fee: b"0".to_vec(),
    }
}

fn failed_tx() -> Transaction {
    Transaction::Transfer {
        from: vec![3; 20],
        to: vec![4; 20],
        token: 0,
        amount: b"10.0".to_vec(),
        fee: b"0".to_vec(),
    }
}

#[test]
fn block_history_reconciles_every_record_of_the_block() {
    let mut subs = SubmissionStore::new();
    subs.insert(
        InsertTx {
            hash: vec![0xaa],
            primary_account_address: vec![3; 20],
            nonce: 5,
            tx: encode_tx(&failed_tx()),
        },
        0,
    )
    .unwrap();

    let mut exec = ExecutedTxStore::new();
    exec.record(
        &ExecutedTx {
            tx: ok_op().try_get_tx().unwrap(),
            success: true,
            op: Some(ok_op()),
            fail_reason: None,
            block_index: Some(0),
        },
        vec![0xbb],
        7,
    );
    exec.record(
        &ExecutedTx {
            tx: failed_tx(),
            success: false,
            op: None,
            fail_reason: Some("InsufficientBalance".to_string()),
            block_index: None,
        },
        vec![0xaa],
        7,
    );
    exec.record(
        &ExecutedTx {
            tx: failed_tx(),
            success: false,
            op: None,
            fail_reason: Some("OtherBlock".to_string()),
            block_index: None,
        },
        vec![0xac],
        8,
    );

    let rows = project_block_history(&exec, &subs, 7, true, false).unwrap();
    assert_eq!(rows.len(), 2);
    assert_eq!(rows[0].hash, Some(vec![0xbb]));
    assert_eq!(rows[0].success, Some(true));
    assert_eq!(rows[0].fail_reason, None);
    assert_eq!(rows[1].hash, Some(vec![0xaa]));
    assert_eq!(rows[1].success, Some(false));
    assert_eq!(
        rows[1].fail_reason,
        Some("InsufficientBalance".to_string())
    );
    assert_eq!(rows[1].tx, encode_tx(&failed_tx()));

    // A failed record whose submission was lost aborts the query.
    let mut empty_subs = SubmissionStore::new();
    empty_subs
        .insert(
            InsertTx {
                hash: vec![0x99],
                primary_account_address: vec![1; 20],
                nonce: 0,
                tx: encode_tx(&failed_tx()),
            },
            0,
        )
        .unwrap();
    let r = project_block_history(&exec, &empty_subs, 7, true, false);
    assert_eq!(r, Err(Fault::LostTransaction));
}
