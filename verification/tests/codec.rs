use tx_reconcile::codec::{decode_op, decode_tx, encode_op, encode_tx};
use tx_reconcile::tx::{Operation, Transaction};
use tx_reconcile::Fault;

#[test]
fn transfer_tx_round_trips() {
    let tx = Transaction::Transfer {
        from: vec![1, 2, 3],
        to: vec![4, 5, 6],
        token: 42,
        amount: b"10.0".to_vec(),
        fee: b"0.1".to_vec(),
    };
    let bytes = encode_tx(&tx);
    assert_eq!(decode_tx(&bytes), Ok(tx));
}

#[test]
fn withdraw_tx_round_trips() {
    let tx = Transaction::Withdraw {
        from: vec![7; 20],
        to: vec![],
        token: 0,
        amount: b"99999999999999999999.000001".to_vec(),
        fee: b"3".to_vec(),
    };
    let bytes = encode_tx(&tx);
    assert_eq!(decode_tx(&bytes), Ok(tx));
}

#[test]
fn transfer_op_round_trips() {
    let op = Operation::Transfer {
        from: vec![1; 20],
        to: vec![2; 20],
        token: 7,
        amount: b"3.5".to_vec(),
        fee: b"0".to_vec(),
    };
    let bytes = encode_op(&op);
    assert_eq!(decode_op(&bytes), Ok(op));
}

#[test]
fn withdraw_op_round_trips() {
    let op = Operation::Withdraw {
        from: vec![9; 20],
        to: vec![8; 20],
        token: 1,
        amount: b"0.25".to_vec(),
        fee: b"0.01".to_vec(),
    };
    let bytes = encode_op(&op);
    assert_eq!(decode_op(&bytes), Ok(op));
}

#[test]
fn deposit_op_round_trips() {
    let op = Operation::Deposit {
        from: vec![3; 20],
        to: vec![4; 20],
        token: 2,
        amount: b"1000000".to_vec(),
    };
    let bytes = encode_op(&op);
    assert_eq!(decode_op(&bytes), Ok(op));
}

#[test]
fn empty_bytes_do_not_decode() {
    assert_eq!(decode_tx(&vec![]), Err(Fault::CorruptData));
    assert_eq!(decode_op(&vec![]), Err(Fault::CorruptData));
}

#[test]
fn unknown_tag_does_not_decode() {
    assert_eq!(decode_tx(&vec![9, 0, 0]), Err(Fault::CorruptData));
    assert_eq!(decode_op(&vec![9, 0, 0]), Err(Fault::CorruptData));
}

#[test]
fn deposit_tag_is_no_transaction() {
    let op = Operation::Deposit {
        from: vec![3],
        to: vec![4],
        token: 2,
        amount: b"1".to_vec(),
    };
    let bytes = encode_op(&op);
    assert_eq!(decode_tx(&bytes), Err(Fault::CorruptData));
}

#[test]
fn truncated_encoding_does_not_decode() {
    let tx = Transaction::Transfer {
        from: vec![1, 2, 3],
        to: vec![4, 5, 6],
        token: 42,
        amount: b"10.0".to_vec(),
        fee: b"0.1".to_vec(),
    };
    let mut bytes = encode_tx(&tx);
    bytes.pop();
    assert_eq!(decode_tx(&bytes), Err(Fault::CorruptData));
}

#[test]
fn trailing_bytes_do_not_decode() {
    let tx = Transaction::Transfer {
        from: vec![1],
        to: vec![2],
        token: 1,
        amount: b"5".to_vec(),
        fee: b"0".to_vec(),
    };
    let mut bytes = encode_tx(&tx);
    bytes.push(0);
    assert_eq!(decode_tx(&bytes), Err(Fault::CorruptData));
}

#[test]
fn distinct_values_encode_distinctly() {
    let a = encode_tx(&Transaction::Transfer {
        from: vec![1],
        to: vec![2],
        token: 1,
        amount: b"5".to_vec(),
        fee: b"0".to_vec(),
    });
    let b = encode_tx(&Transaction::Withdraw {
        from: vec![1],
        to: vec![2],
        token: 1,
        amount: b"5".to_vec(),
        fee: b"0".to_vec(),
    });
    assert_ne!(a, b);
}

#[test]
fn encoding_layout_is_pinned() {
    let tx = Transaction::Transfer {
        from: vec![1],
        to: vec![2],
        token: 1,
        amount: b"5".to_vec(),
        fee: b"0".to_vec(),
    };
    let expected: Vec<u8> = vec![
        1, // transfer tag
        1, 0, 0, 0, 0, 0, 0, 0, 1, // from
        1, 0, 0, 0, 0, 0, 0, 0, 2, // to
        1, 0, 0, 0, // token
        1, 0, 0, 0, 0, 0, 0, 0, 53, // amount "5"
        1, 0, 0, 0, 0, 0, 0, 0, 48, // fee "0"
    ];
    assert_eq!(encode_tx(&tx), expected);
}
