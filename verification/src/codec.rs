//! Byte codec for transactions and operations.
//!
//! The stores keep payloads and operations as opaque byte strings; this module
//! is the codec that turns them back into structured values. The layout is a
//! one-byte kind tag followed by the fields, each byte-string field prefixed
//! by its length as eight little-endian bytes and the token as four.
//!
//! Decoding is total and exact: it succeeds precisely on the byte strings
//! that `spec_encode_tx` / `spec_encode_op` produce, and then returns the one
//! value that was encoded. Malformed bytes are a permanent fault, never
//! retried.
use vstd::prelude::*;
use vstd::arithmetic::power::{pow, lemma_pow_increases};
use crate::tx::{Operation, OperationV, Transaction, TransactionV};
use crate::Fault;

verus! {

pub const TAG_TRANSFER: u8 = 1;

pub const TAG_WITHDRAW: u8 = 2;

pub const TAG_DEPOSIT: u8 = 3;

/// The `k` little-endian base-256 digits of `n`.
pub open spec fn spec_le(n: nat, k: nat) -> Seq<u8>
    decreases k,
{
    if k == 0 {
        Seq::empty()
    } else {
        seq![(n % 256) as u8] + spec_le(n / 256, (k - 1) as nat)
    }
}

/// The value of a little-endian byte string.
pub open spec fn spec_val(s: Seq<u8>) -> nat
    decreases s.len(),
{
    if s.len() == 0 {
        0
    } else {
        s[0] as nat + 256 * spec_val(s.drop_first())
    }
}

/// A length-prefixed byte-string field.
pub open spec fn spec_lp(v: Seq<u8>) -> Seq<u8> {
    spec_le(v.len(), 8) + v
}

/// Encoding of a transaction.
pub open spec fn spec_encode_tx(t: TransactionV) -> Seq<u8> {
    match t {
        TransactionV::Transfer { from, to, token, amount, fee } => seq![TAG_TRANSFER] + spec_lp(
            from,
        ) + spec_lp(to) + spec_le(token as nat, 4) + spec_lp(amount) + spec_lp(fee),
        TransactionV::Withdraw { from, to, token, amount, fee } => seq![TAG_WITHDRAW] + spec_lp(
            from,
        ) + spec_lp(to) + spec_le(token as nat, 4) + spec_lp(amount) + spec_lp(fee),
    }
}

/// Encoding of an operation.
pub open spec fn spec_encode_op(o: OperationV) -> Seq<u8> {
    match o {
        OperationV::Transfer { from, to, token, amount, fee } => seq![TAG_TRANSFER] + spec_lp(from)
            + spec_lp(to) + spec_le(token as nat, 4) + spec_lp(amount) + spec_lp(fee),
        OperationV::Withdraw { from, to, token, amount, fee } => seq![TAG_WITHDRAW] + spec_lp(from)
            + spec_lp(to) + spec_le(token as nat, 4) + spec_lp(amount) + spec_lp(fee),
        OperationV::Deposit { from, to, token, amount } => seq![TAG_DEPOSIT] + spec_lp(from)
            + spec_lp(to) + spec_le(token as nat, 4) + spec_lp(amount),
    }
}

/// Takes one length-prefixed field off the front: the field and the rest.
pub open spec fn spec_take_lp(s: Seq<u8>) -> Option<(Seq<u8>, Seq<u8>)> {
    if s.len() < 8 {
        None
    } else {
        let n = spec_val(s.subrange(0, 8));
        if s.len() - 8 < n {
            None
        } else {
            Some((s.subrange(8, 8 + n as int), s.subrange(8 + n as int, s.len() as int)))
        }
    }
}

/// Takes a four-byte token id off the front.
pub open spec fn spec_take_u32(s: Seq<u8>) -> Option<(u32, Seq<u8>)> {
    if s.len() < 4 {
        None
    } else {
        Some((spec_val(s.subrange(0, 4)) as u32, s.subrange(4, s.len() as int)))
    }
}

/// Parses the five-field body shared by transfers and withdrawals; the body
/// must end exactly where the fee does.
pub open spec fn spec_take_body5(s: Seq<u8>) -> Option<(Seq<u8>, Seq<u8>, u32, Seq<u8>, Seq<u8>)> {
    match spec_take_lp(s) {
        None => None,
        Some((from, s1)) => match spec_take_lp(s1) {
            None => None,
            Some((to, s2)) => match spec_take_u32(s2) {
                None => None,
                Some((token, s3)) => match spec_take_lp(s3) {
                    None => None,
                    Some((amount, s4)) => match spec_take_lp(s4) {
                        None => None,
                        Some((fee, s5)) => if s5.len() == 0 {
                            Some((from, to, token, amount, fee))
                        } else {
                            None
                        },
                    },
                },
            },
        },
    }
}

/// Parses the four-field body of a deposit.
pub open spec fn spec_take_body4(s: Seq<u8>) -> Option<(Seq<u8>, Seq<u8>, u32, Seq<u8>)> {
    match spec_take_lp(s) {
        None => None,
        Some((from, s1)) => match spec_take_lp(s1) {
            None => None,
            Some((to, s2)) => match spec_take_u32(s2) {
                None => None,
                Some((token, s3)) => match spec_take_lp(s3) {
                    None => None,
                    Some((amount, s4)) => if s4.len() == 0 {
                        Some((from, to, token, amount))
                    } else {
                        None
                    },
                },
            },
        },
    }
}

/// Decoding of a transaction: the exact inverse of `spec_encode_tx`.
pub open spec fn spec_decode_tx(s: Seq<u8>) -> Option<TransactionV> {
    if s.len() == 0 {
        None
    } else if s[0] == TAG_TRANSFER || s[0] == TAG_WITHDRAW {
        match spec_take_body5(s.drop_first()) {
            None => None,
            Some((from, to, token, amount, fee)) => if s[0] == TAG_TRANSFER {
                Some(TransactionV::Transfer { from, to, token, amount, fee })
            } else {
                Some(TransactionV::Withdraw { from, to, token, amount, fee })
            },
        }
    } else {
        None
    }
}

/// Decoding of an operation: the exact inverse of `spec_encode_op`.
pub open spec fn spec_decode_op(s: Seq<u8>) -> Option<OperationV> {
    if s.len() == 0 {
        None
    } else if s[0] == TAG_TRANSFER || s[0] == TAG_WITHDRAW {
        match spec_take_body5(s.drop_first()) {
            None => None,
            Some((from, to, token, amount, fee)) => if s[0] == TAG_TRANSFER {
                Some(OperationV::Transfer { from, to, token, amount, fee })
            } else {
                Some(OperationV::Withdraw { from, to, token, amount, fee })
            },
        }
    } else if s[0] == TAG_DEPOSIT {
        match spec_take_body4(s.drop_first()) {
            None => None,
            Some((from, to, token, amount)) => Some(
                OperationV::Deposit { from, to, token, amount },
            ),
        }
    } else {
        None
    }
}

proof fn lemma_pow256()
    ensures
        pow(256, 4) == 0x1_0000_0000,
        pow(256, 7) == 0x100_0000_0000_0000,
        pow(256, 8) == 0x1_0000_0000_0000_0000,
{
    reveal_with_fuel(pow, 9);
    assert(pow(256, 0) == 1);
    assert(pow(256, 1) == 256);
    assert(pow(256, 2) == 0x1_0000);
    assert(pow(256, 3) == 0x100_0000);
    assert(pow(256, 4) == 0x1_0000_0000);
    assert(pow(256, 5) == 0x100_0000_0000);
    assert(pow(256, 6) == 0x1_0000_0000_0000);
    assert(pow(256, 7) == 0x100_0000_0000_0000);
    assert(pow(256, 8) == 0x1_0000_0000_0000_0000);
}

proof fn lemma_le_len(n: nat, k: nat)
    ensures
        spec_le(n, k).len() == k,
    decreases k,
{
    if k > 0 {
        lemma_le_len(n / 256, (k - 1) as nat);
    }
}

proof fn lemma_le_val(n: nat, k: nat)
    requires
        n < pow(256, k),
    ensures
        spec_val(spec_le(n, k)) == n,
    decreases k,
{
    reveal(pow);
    if k == 0 {
        assert(pow(256, 0) == 1);
    } else {
        let rest = spec_le(n / 256, (k - 1) as nat);
        assert(pow(256, k) == 256 * pow(256, (k - 1) as nat));
        if n / 256 >= pow(256, (k - 1) as nat) {
            assert(n >= 256 * (n / 256)) by {
                vstd::arithmetic::div_mod::lemma_fundamental_div_mod(n as int, 256);
            }
            assert(false);
        }
        lemma_le_val(n / 256, (k - 1) as nat);
        let s = spec_le(n, k);
        assert(s == seq![(n % 256) as u8] + rest);
        assert(s.drop_first() =~= rest);
        assert(s[0] == (n % 256) as u8);
        assert(n == 256 * (n / 256) + n % 256) by {
            vstd::arithmetic::div_mod::lemma_fundamental_div_mod(n as int, 256);
        }
    }
}

proof fn lemma_val_bound(s: Seq<u8>)
    ensures
        spec_val(s) < pow(256, s.len()),
    decreases s.len(),
{
    reveal(pow);
    if s.len() == 0 {
        assert(pow(256, 0) == 1);
    } else {
        lemma_val_bound(s.drop_first());
        assert(pow(256, s.len()) == 256 * pow(256, (s.len() - 1) as nat));
    }
}

/// Appends the `k` little-endian base-256 digits of `n`.
fn push_le(out: &mut Vec<u8>, n: u64, k: usize)
    ensures
        final(out)@ == old(out)@ + spec_le(n as nat, k as nat),
{
    let mut m: u64 = n;
    let mut j: usize = 0;
    while j < k
        invariant
            j <= k,
            out@ + spec_le(m as nat, (k - j) as nat) == old(out)@ + spec_le(n as nat, k as nat),
        decreases k - j,
    {
        let ghost m0 = m as nat;
        let ghost prefix = out@;
        let b: u8 = (m % 256) as u8;
        out.push(b);
        m = m / 256;
        j = j + 1;
        proof {
            assert(spec_le(m0, (k - j + 1) as nat) == seq![(m0 % 256) as u8] + spec_le(
                m0 / 256,
                (k - j) as nat,
            ));
            assert(out@ + spec_le(m as nat, (k - j) as nat) =~= prefix + spec_le(
                m0,
                (k - j + 1) as nat,
            ));
        }
    }
    proof {
        assert(out@ + spec_le(m as nat, 0) =~= out@);
    }
}

/// Reads the value of `k` little-endian bytes at `pos`; `k` is at most eight,
/// so the value fits a `u64`.
fn read_le(v: &Vec<u8>, pos: usize, k: usize) -> (r: u64)
    requires
        k <= 8,
        pos + k <= v@.len(),
    ensures
        r as nat == spec_val(v@.subrange(pos as int, pos + k)),
{
    let mut acc: u64 = 0;
    let mut i: usize = k;
    while i > 0
        invariant
            i <= k <= 8,
            pos + k <= v@.len(),
            v.len() == v@.len(),
            acc as nat == spec_val(v@.subrange((pos + i) as int, pos + k)),
        decreases i,
    {
        proof {
            lemma_val_bound(v@.subrange((pos + i) as int, pos + k));
            lemma_pow256();
            lemma_pow_increases(256, (k - i) as nat, 7);
        }
        i = i - 1;
        let b: u8 = v[pos + i];
        acc = acc * 256 + (b as u64);
        proof {
            let s = v@.subrange((pos + i) as int, pos + k);
            assert(s.drop_first() =~= v@.subrange((pos + i + 1) as int, pos + k));
            assert(s[0] == v@[(pos + i) as int]);
        }
    }
    proof {
        assert(v@.subrange((pos + 0) as int, pos + k) == v@.subrange(pos as int, pos + k));
    }
    acc
}

/// Copies `n` bytes starting at `start`.
fn copy_range(v: &Vec<u8>, start: usize, n: usize) -> (r: Vec<u8>)
    requires
        start + n <= v@.len(),
    ensures
        r@ == v@.subrange(start as int, start + n),
{
    let mut r: Vec<u8> = Vec::new();
    let mut i: usize = 0;
    while i < n
        invariant
            i <= n,
            start + n <= v@.len(),
            v.len() == v@.len(),
            r@ == v@.subrange(start as int, start + i),
        decreases n - i,
    {
        r.push(v[start + i]);
        i = i + 1;
        proof {
            assert(r@ =~= v@.subrange(start as int, start + i));
        }
    }
    r
}

/// Appends a field as its eight-byte length followed by its bytes.
fn push_lp(out: &mut Vec<u8>, v: &Vec<u8>)
    ensures
        final(out)@ == old(out)@ + spec_lp(v@),
{
    push_le(out, v.len() as u64, 8);
    let ghost mid = out@;
    let mut i: usize = 0;
    while i < v.len()
        invariant
            i <= v@.len(),
            out@ == mid + v@.subrange(0, i as int),
            mid == old(out)@ + spec_le(v@.len(), 8),
        decreases v@.len() - i,
    {
        out.push(v[i]);
        i = i + 1;
        proof {
            assert(out@ =~= mid + v@.subrange(0, i as int));
        }
    }
    proof {
        assert(v@.subrange(0, v@.len() as int) =~= v@);
        assert(mid + v@ =~= old(out)@ + spec_lp(v@));
    }
}

/// Encodes a transaction; `decode_tx` is its exact inverse.
pub fn encode_tx(t: &Transaction) -> (r: Vec<u8>)
    ensures
        r@ == spec_encode_tx(t@),
{
    let mut out: Vec<u8> = Vec::new();
    match t {
        Transaction::Transfer { from, to, token, amount, fee } => {
            out.push(TAG_TRANSFER);
            push_lp(&mut out, from);
            push_lp(&mut out, to);
            push_le(&mut out, *token as u64, 4);
            push_lp(&mut out, amount);
            push_lp(&mut out, fee);
        },
        Transaction::Withdraw { from, to, token, amount, fee } => {
            out.push(TAG_WITHDRAW);
            push_lp(&mut out, from);
            push_lp(&mut out, to);
            push_le(&mut out, *token as u64, 4);
            push_lp(&mut out, amount);
            push_lp(&mut out, fee);
        },
    }
    proof {
        assert(out@ =~= spec_encode_tx(t@));
    }
    out
}

/// Encodes an operation; `decode_op` is its exact inverse.
pub fn encode_op(o: &Operation) -> (r: Vec<u8>)
    ensures
        r@ == spec_encode_op(o@),
{
    let mut out: Vec<u8> = Vec::new();
    match o {
        Operation::Transfer { from, to, token, amount, fee } => {
            out.push(TAG_TRANSFER);
            push_lp(&mut out, from);
            push_lp(&mut out, to);
            push_le(&mut out, *token as u64, 4);
            push_lp(&mut out, amount);
            push_lp(&mut out, fee);
        },
        Operation::Withdraw { from, to, token, amount, fee } => {
            out.push(TAG_WITHDRAW);
            push_lp(&mut out, from);
            push_lp(&mut out, to);
            push_le(&mut out, *token as u64, 4);
            push_lp(&mut out, amount);
            push_lp(&mut out, fee);
        },
        Operation::Deposit { from, to, token, amount } => {
            out.push(TAG_DEPOSIT);
            push_lp(&mut out, from);
            push_lp(&mut out, to);
            push_le(&mut out, *token as u64, 4);
            push_lp(&mut out, amount);
        },
    }
    proof {
        assert(out@ =~= spec_encode_op(o@));
    }
    out
}

/// Reads one length-prefixed field at `pos`: the field and the position after
/// it.
fn read_lp(v: &Vec<u8>, pos: usize) -> (r: Option<(Vec<u8>, usize)>)
    requires
        pos <= v@.len(),
    ensures
        match r {
            Some(p) => {
                &&& spec_take_lp(v@.skip(pos as int)) == Some((p.0@, v@.skip(p.1 as int)))
                &&& pos <= p.1 <= v@.len()
            },
            None => spec_take_lp(v@.skip(pos as int)) is None,
        },
{
    let remaining = v.len() - pos;
    if remaining < 8 {
        return None;
    }
    let n = read_le(v, pos, 8);
    proof {
        assert(v@.skip(pos as int).subrange(0, 8) =~= v@.subrange(pos as int, pos + 8));
    }
    if n > (remaining - 8) as u64 {
        return None;
    }
    let nn = n as usize;
    let field = copy_range(v, pos + 8, nn);
    let newpos = pos + 8 + nn;
    proof {
        let s = v@.skip(pos as int);
        assert(s.subrange(8, 8 + nn) =~= v@.subrange((pos + 8) as int, (pos + 8 + nn) as int));
        assert(s.subrange(8 + nn, s.len() as int) =~= v@.skip(newpos as int));
    }
    Some((field, newpos))
}

/// Reads the four-byte token id at `pos`.
fn read_u32(v: &Vec<u8>, pos: usize) -> (r: Option<(u32, usize)>)
    requires
        pos <= v@.len(),
    ensures
        match r {
            Some(p) => {
                &&& spec_take_u32(v@.skip(pos as int)) == Some((p.0, v@.skip(p.1 as int)))
                &&& pos <= p.1 <= v@.len()
            },
            None => spec_take_u32(v@.skip(pos as int)) is None,
        },
{
    if v.len() - pos < 4 {
        return None;
    }
    let n = read_le(v, pos, 4);
    proof {
        lemma_val_bound(v@.subrange(pos as int, pos + 4));
        lemma_pow256();
        assert(v@.skip(pos as int).subrange(0, 4) =~= v@.subrange(pos as int, pos + 4));
        assert(v@.skip(pos as int).subrange(4, v@.skip(pos as int).len() as int) =~= v@.skip(
            (pos + 4) as int,
        ));
    }
    Some((n as u32, pos + 4))
}

/// Parses the five-field body starting at `pos`; it must end at the buffer's
/// end.
fn read_body5(v: &Vec<u8>, pos: usize) -> (r: Option<(Vec<u8>, Vec<u8>, u32, Vec<u8>, Vec<u8>)>)
    requires
        pos <= v@.len(),
    ensures
        match r {
            Some(b) => spec_take_body5(v@.skip(pos as int)) == Some((b.0@, b.1@, b.2, b.3@, b.4@)),
            None => spec_take_body5(v@.skip(pos as int)) is None,
        },
{
    let (from, p1) = match read_lp(v, pos) {
        None => {
            return None;
        },
        Some(x) => x,
    };
    let (to, p2) = match read_lp(v, p1) {
        None => {
            return None;
        },
        Some(x) => x,
    };
    let (token, p3) = match read_u32(v, p2) {
        None => {
            return None;
        },
        Some(x) => x,
    };
    let (amount, p4) = match read_lp(v, p3) {
        None => {
            return None;
        },
        Some(x) => x,
    };
    let (fee, p5) = match read_lp(v, p4) {
        None => {
            return None;
        },
        Some(x) => x,
    };
    if p5 != v.len() {
        return None;
    }
    Some((from, to, token, amount, fee))
}

/// Parses the four-field body of a deposit starting at `pos`.
fn read_body4(v: &Vec<u8>, pos: usize) -> (r: Option<(Vec<u8>, Vec<u8>, u32, Vec<u8>)>)
    requires
        pos <= v@.len(),
    ensures
        match r {
            Some(b) => spec_take_body4(v@.skip(pos as int)) == Some((b.0@, b.1@, b.2, b.3@)),
            None => spec_take_body4(v@.skip(pos as int)) is None,
        },
{
    let (from, p1) = match read_lp(v, pos) {
        None => {
            return None;
        },
        Some(x) => x,
    };
    let (to, p2) = match read_lp(v, p1) {
        None => {
            return None;
        },
        Some(x) => x,
    };
    let (token, p3) = match read_u32(v, p2) {
        None => {
            return None;
        },
        Some(x) => x,
    };
    let (amount, p4) = match read_lp(v, p3) {
        None => {
            return None;
        },
        Some(x) => x,
    };
    if p4 != v.len() {
        return None;
    }
    Some((from, to, token, amount))
}

/// Decodes a stored transaction payload. Fails with `CorruptData` exactly on
/// the byte strings that no transaction encodes to.
pub fn decode_tx(bytes: &Vec<u8>) -> (r: Result<Transaction, Fault>)
    ensures
        match r {
            Ok(t) => spec_decode_tx(bytes@) == Some(t@),
            Err(f) => spec_decode_tx(bytes@) is None && f == Fault::CorruptData,
        },
{
    if bytes.len() == 0 {
        return Err(Fault::CorruptData);
    }
    let tag = bytes[0];
    if tag != TAG_TRANSFER && tag != TAG_WITHDRAW {
        return Err(Fault::CorruptData);
    }
    proof {
        assert(bytes@.skip(1) =~= bytes@.drop_first());
    }
    match read_body5(bytes, 1) {
        None => Err(Fault::CorruptData),
        Some((from, to, token, amount, fee)) => {
            if tag == TAG_TRANSFER {
                Ok(Transaction::Transfer { from, to, token, amount, fee })
            } else {
                Ok(Transaction::Withdraw { from, to, token, amount, fee })
            }
        },
    }
}

/// Decodes a stored operation. Fails with `CorruptData` exactly on the byte
/// strings that no operation encodes to.
pub fn decode_op(bytes: &Vec<u8>) -> (r: Result<Operation, Fault>)
    ensures
        match r {
            Ok(o) => spec_decode_op(bytes@) == Some(o@),
            Err(f) => spec_decode_op(bytes@) is None && f == Fault::CorruptData,
        },
{
    if bytes.len() == 0 {
        return Err(Fault::CorruptData);
    }
    let tag = bytes[0];
    proof {
        assert(bytes@.skip(1) =~= bytes@.drop_first());
    }
    if tag == TAG_TRANSFER || tag == TAG_WITHDRAW {
        match read_body5(bytes, 1) {
            None => Err(Fault::CorruptData),
            Some((from, to, token, amount, fee)) => {
                if tag == TAG_TRANSFER {
                    Ok(Operation::Transfer { from, to, token, amount, fee })
                } else {
                    Ok(Operation::Withdraw { from, to, token, amount, fee })
                }
            },
        }
    } else if tag == TAG_DEPOSIT {
        match read_body4(bytes, 1) {
            None => Err(Fault::CorruptData),
            Some((from, to, token, amount)) => Ok(Operation::Deposit { from, to, token, amount }),
        }
    } else {
        Err(Fault::CorruptData)
    }
}

proof fn lemma_take_lp_concat(v: Seq<u8>, rest: Seq<u8>)
    requires
        v.len() < pow(256, 8),
    ensures
        spec_take_lp(spec_lp(v) + rest) == Some((v, rest)),
{
    let s = spec_lp(v) + rest;
    lemma_le_len(v.len(), 8);
    assert(s.subrange(0, 8) =~= spec_le(v.len(), 8));
    lemma_le_val(v.len(), 8);
    assert(s.subrange(8, 8 + v.len() as int) =~= v);
    assert(s.subrange(8 + v.len() as int, s.len() as int) =~= rest);
}

proof fn lemma_take_u32_concat(token: u32, rest: Seq<u8>)
    ensures
        spec_take_u32(spec_le(token as nat, 4) + rest) == Some((token, rest)),
{
    let s = spec_le(token as nat, 4) + rest;
    lemma_le_len(token as nat, 4);
    lemma_pow256();
    lemma_le_val(token as nat, 4);
    assert(s.subrange(0, 4) =~= spec_le(token as nat, 4));
    assert(s.subrange(4, s.len() as int) =~= rest);
}

proof fn lemma_take_body5(from: Seq<u8>, to: Seq<u8>, token: u32, amount: Seq<u8>, fee: Seq<u8>)
    requires
        from.len() < pow(256, 8),
        to.len() < pow(256, 8),
        amount.len() < pow(256, 8),
        fee.len() < pow(256, 8),
    ensures
        spec_take_body5(
            spec_lp(from) + spec_lp(to) + spec_le(token as nat, 4) + spec_lp(amount) + spec_lp(fee),
        ) == Some((from, to, token, amount, fee)),
{
    let s = spec_lp(from) + spec_lp(to) + spec_le(token as nat, 4) + spec_lp(amount) + spec_lp(fee);
    let r1 = spec_lp(to) + spec_le(token as nat, 4) + spec_lp(amount) + spec_lp(fee);
    assert(s =~= spec_lp(from) + r1);
    lemma_take_lp_concat(from, r1);
    let r2 = spec_le(token as nat, 4) + spec_lp(amount) + spec_lp(fee);
    assert(r1 =~= spec_lp(to) + r2);
    lemma_take_lp_concat(to, r2);
    let r3 = spec_lp(amount) + spec_lp(fee);
    assert(r2 =~= spec_le(token as nat, 4) + r3);
    lemma_take_u32_concat(token, r3);
    let r4 = spec_lp(fee);
    assert(r3 =~= spec_lp(amount) + r4);
    lemma_take_lp_concat(amount, r4);
    assert(r4 =~= spec_lp(fee) + Seq::<u8>::empty());
    lemma_take_lp_concat(fee, Seq::<u8>::empty());
}

proof fn lemma_take_body4(from: Seq<u8>, to: Seq<u8>, token: u32, amount: Seq<u8>)
    requires
        from.len() < pow(256, 8),
        to.len() < pow(256, 8),
        amount.len() < pow(256, 8),
    ensures
        spec_take_body4(spec_lp(from) + spec_lp(to) + spec_le(token as nat, 4) + spec_lp(amount))
            == Some((from, to, token, amount)),
{
    let s = spec_lp(from) + spec_lp(to) + spec_le(token as nat, 4) + spec_lp(amount);
    let r1 = spec_lp(to) + spec_le(token as nat, 4) + spec_lp(amount);
    assert(s =~= spec_lp(from) + r1);
    lemma_take_lp_concat(from, r1);
    let r2 = spec_le(token as nat, 4) + spec_lp(amount);
    assert(r1 =~= spec_lp(to) + r2);
    lemma_take_lp_concat(to, r2);
    let r3 = spec_lp(amount);
    assert(r2 =~= spec_le(token as nat, 4) + r3);
    lemma_take_u32_concat(token, r3);
    assert(r3 =~= spec_lp(amount) + Seq::<u8>::empty());
    lemma_take_lp_concat(amount, Seq::<u8>::empty());
}

/// A ghost byte string no longer than the largest vector fits one
/// length-prefixed field.
pub open spec fn field_fits(s: Seq<u8>) -> bool {
    s.len() < pow(256, 8)
}

/// Codec round-trip law for transactions at the level of the mathematical
/// values: decoding an encoding yields the value encoded, for every
/// transaction whose fields a machine can hold.
pub proof fn lemma_tx_round_trip(t: TransactionV)
    requires
        match t {
            TransactionV::Transfer { from, to, amount, fee, .. } => field_fits(from) && field_fits(
                to,
            ) && field_fits(amount) && field_fits(fee),
            TransactionV::Withdraw { from, to, amount, fee, .. } => field_fits(from) && field_fits(
                to,
            ) && field_fits(amount) && field_fits(fee),
        },
    ensures
        spec_decode_tx(spec_encode_tx(t)) == Some(t),
{
    match t {
        TransactionV::Transfer { from, to, token, amount, fee } => {
            let body = spec_lp(from) + spec_lp(to) + spec_le(token as nat, 4) + spec_lp(amount)
                + spec_lp(fee);
            let s = spec_encode_tx(t);
            assert(s == seq![TAG_TRANSFER] + body);
            assert(s[0] == TAG_TRANSFER);
            assert(s.drop_first() =~= body);
            lemma_take_body5(from, to, token, amount, fee);
        },
        TransactionV::Withdraw { from, to, token, amount, fee } => {
            let body = spec_lp(from) + spec_lp(to) + spec_le(token as nat, 4) + spec_lp(amount)
                + spec_lp(fee);
            let s = spec_encode_tx(t);
            assert(s == seq![TAG_WITHDRAW] + body);
            assert(s[0] == TAG_WITHDRAW);
            assert(s.drop_first() =~= body);
            lemma_take_body5(from, to, token, amount, fee);
        },
    }
}

/// Codec round-trip law for operations.
pub proof fn lemma_op_round_trip(o: OperationV)
    requires
        match o {
            OperationV::Transfer { from, to, amount, fee, .. } => field_fits(from) && field_fits(to)
                && field_fits(amount) && field_fits(fee),
            OperationV::Withdraw { from, to, amount, fee, .. } => field_fits(from) && field_fits(to)
                && field_fits(amount) && field_fits(fee),
            OperationV::Deposit { from, to, amount, .. } => field_fits(from) && field_fits(to)
                && field_fits(amount),
        },
    ensures
        spec_decode_op(spec_encode_op(o)) == Some(o),
{
    match o {
        OperationV::Transfer { from, to, token, amount, fee } => {
            let body = spec_lp(from) + spec_lp(to) + spec_le(token as nat, 4) + spec_lp(amount)
                + spec_lp(fee);
            let s = spec_encode_op(o);
            assert(s == seq![TAG_TRANSFER] + body);
            assert(s[0] == TAG_TRANSFER);
            assert(s.drop_first() =~= body);
            lemma_take_body5(from, to, token, amount, fee);
        },
        OperationV::Withdraw { from, to, token, amount, fee } => {
            let body = spec_lp(from) + spec_lp(to) + spec_le(token as nat, 4) + spec_lp(amount)
                + spec_lp(fee);
            let s = spec_encode_op(o);
            assert(s == seq![TAG_WITHDRAW] + body);
            assert(s[0] == TAG_WITHDRAW);
            assert(s.drop_first() =~= body);
            lemma_take_body5(from, to, token, amount, fee);
        },
        OperationV::Deposit { from, to, token, amount } => {
            let body = spec_lp(from) + spec_lp(to) + spec_le(token as nat, 4) + spec_lp(amount);
            let s = spec_encode_op(o);
            assert(s == seq![TAG_DEPOSIT] + body);
            assert(s[0] == TAG_DEPOSIT);
            assert(s.drop_first() =~= body);
            lemma_take_body4(from, to, token, amount);
        },
    }
}

/// The fields of any transaction held in memory fit the encoding.
pub proof fn lemma_tx_fields_fit(t: &Transaction)
    ensures
        match t@ {
            TransactionV::Transfer { from, to, amount, fee, .. } => field_fits(from) && field_fits(
                to,
            ) && field_fits(amount) && field_fits(fee),
            TransactionV::Withdraw { from, to, amount, fee, .. } => field_fits(from) && field_fits(
                to,
            ) && field_fits(amount) && field_fits(fee),
        },
{
    lemma_pow256();
    match t {
        Transaction::Transfer { from, to, amount, fee, .. } => {
            assert(from.len() == from@.len());
            assert(to.len() == to@.len());
            assert(amount.len() == amount@.len());
            assert(fee.len() == fee@.len());
        },
        Transaction::Withdraw { from, to, amount, fee, .. } => {
            assert(from.len() == from@.len());
            assert(to.len() == to@.len());
            assert(amount.len() == amount@.len());
            assert(fee.len() == fee@.len());
        },
    }
}

/// The fields of any operation held in memory fit the encoding.
pub proof fn lemma_op_fields_fit(o: &Operation)
    ensures
        match o@ {
            OperationV::Transfer { from, to, amount, fee, .. } => field_fits(from) && field_fits(to)
                && field_fits(amount) && field_fits(fee),
            OperationV::Withdraw { from, to, amount, fee, .. } => field_fits(from) && field_fits(to)
                && field_fits(amount) && field_fits(fee),
            OperationV::Deposit { from, to, amount, .. } => field_fits(from) && field_fits(to)
                && field_fits(amount),
        },
{
    lemma_pow256();
    match o {
        Operation::Transfer { from, to, amount, fee, .. } => {
            assert(from.len() == from@.len());
            assert(to.len() == to@.len());
            assert(amount.len() == amount@.len());
            assert(fee.len() == fee@.len());
        },
        Operation::Withdraw { from, to, amount, fee, .. } => {
            assert(from.len() == from@.len());
            assert(to.len() == to@.len());
            assert(amount.len() == amount@.len());
            assert(fee.len() == fee@.len());
        },
        Operation::Deposit { from, to, amount, .. } => {
            assert(from.len() == from@.len());
            assert(to.len() == to@.len());
            assert(amount.len() == amount@.len());
        },
    }
}

} // verus!
