use cape_ledger::block::CapeBlock;
use cape_ledger::commit::finalize;
use cape_ledger::nullifier_set::CapeNullifierSet;
use cape_ledger::transition::{
    AapTransactionKind, AssetCode, AuditError, AuditMemoSource, CapeTransaction,
    CapeTransactionKind, CapeTransition, Erc20Code, EthereumAddr, NoteKind, Nullifier,
    RecordCommitment, RecordOpening, TransactionNote,
};
use cape_ledger::validator::CapeTruster;

fn nul(b: u8) -> Nullifier {
    Nullifier([b; 32])
}

fn rc(b: u8) -> RecordCommitment {
    RecordCommitment([b; 32])
}

fn opening(amount: u64) -> RecordOpening {
    RecordOpening {
        amount,
        asset_code: AssetCode([7; 32]),
        owner: [8; 32],
        freeze_flag: false,
        blind: [9; 32],
    }
}

fn note(kind: NoteKind, nulls: Vec<Nullifier>, outs: Vec<RecordCommitment>) -> TransactionNote {
    TransactionNote { kind, nullifiers: nulls, output_commitments: outs, body: vec![0xAB, 0xCD] }
}

fn txn(kind: NoteKind, n_out: u8) -> CapeTransition {
    let outs = (0..n_out).map(rc).collect();
    CapeTransition::aap(note(kind, vec![nul(1), nul(2)], outs), vec![])
}

fn wrap(amount: u64) -> CapeTransition {
    CapeTransition::Wrap {
        erc20_code: Erc20Code(EthereumAddr([1; 20])),
        src_addr: EthereumAddr([2; 20]),
        ro: opening(amount),
        rc: rc(3),
    }
}

fn burn() -> CapeTransition {
    CapeTransition::Transaction(CapeTransaction::Burn {
        xfr: note(NoteKind::Transfer, vec![nul(5)], vec![rc(6), rc(7)]),
        ro: opening(11),
    })
}

#[test]
fn get_after_insert() {
    let mut s = CapeNullifierSet::new();
    s.insert(nul(1), true);
    s.insert(nul(2), false);
    assert_eq!(s.get(nul(1)), Some(true));
    assert_eq!(s.get(nul(2)), Some(false));
    s.insert(nul(1), false);
    assert_eq!(s.get(nul(1)), Some(false));
}

#[test]
fn never_inserted_is_unknown() {
    let mut s = CapeNullifierSet::new();
    assert_eq!(s.get(nul(4)), None);
    s.insert(nul(1), true);
    assert_eq!(s.get(nul(4)), None);
}

#[test]
fn multi_insert_marks_all_spent() {
    let mut s = CapeNullifierSet::new();
    s.insert(nul(2), false);
    let r = s.multi_insert(&[(nul(1), ()), (nul(2), ()), (nul(3), ())]);
    assert_eq!(r, Ok(()));
    assert_eq!(s.get(nul(1)), Some(true));
    assert_eq!(s.get(nul(2)), Some(true));
    assert_eq!(s.get(nul(3)), Some(true));
    assert_eq!(s.get(nul(4)), None);
}

#[test]
fn multi_insert_empty_list() {
    let mut s = CapeNullifierSet::new();
    assert_eq!(s.multi_insert(&[]), Ok(()));
    assert_eq!(s.get(nul(1)), None);
}

#[test]
fn kind_table() {
    assert_eq!(txn(NoteKind::Transfer, 1).kind(), CapeTransactionKind::send());
    assert_eq!(txn(NoteKind::Mint, 1).kind(), CapeTransactionKind::mint());
    assert_eq!(txn(NoteKind::Freeze, 1).kind(), CapeTransactionKind::freeze());
    assert_eq!(burn().kind(), CapeTransactionKind::Burn);
    assert_eq!(wrap(1).kind(), CapeTransactionKind::Wrap);
    assert_eq!(
        CapeTransactionKind::unfreeze(),
        CapeTransactionKind::AAP(AapTransactionKind::Unfreeze)
    );
    assert_eq!(
        CapeTransactionKind::receive(),
        CapeTransactionKind::AAP(AapTransactionKind::Receive)
    );
    assert_eq!(
        CapeTransactionKind::unknown(),
        CapeTransactionKind::AAP(AapTransactionKind::Unknown)
    );
}

#[test]
fn commit_is_deterministic() {
    let a = txn(NoteKind::Mint, 2);
    let b = txn(NoteKind::Mint, 2);
    assert_eq!(a.commit(), b.commit());
    assert_eq!(a.hash(), a.commit());
    assert_eq!(a.commit().bytes.len(), 32);
    assert_ne!(a.commit(), txn(NoteKind::Transfer, 2).commit());
    assert_ne!(wrap(1).commit(), wrap(2).commit());
}

#[test]
fn block_commit_depends_on_order() {
    let b1 = CapeBlock::new(vec![txn(NoteKind::Transfer, 2), wrap(1)]);
    let b2 = CapeBlock::new(vec![wrap(1), txn(NoteKind::Transfer, 2)]);
    let b3 = CapeBlock::new(vec![txn(NoteKind::Transfer, 2), wrap(1)]);
    assert_ne!(b1.commit(), b2.commit());
    assert_eq!(b1.commit(), b3.commit());
    assert_eq!(b1.commit().bytes.len(), 32);
}

#[test]
fn keccak_of_empty_input() {
    let c = finalize(&vec![]);
    let expected: Vec<u8> = vec![
        0xc5, 0xd2, 0x46, 0x01, 0x86, 0xf7, 0x23, 0x3c, 0x92, 0x7e, 0x7d, 0xb2, 0xdc, 0xc7, 0x03,
        0xc0, 0xe5, 0x00, 0xb6, 0x53, 0xca, 0x82, 0x27, 0x3b, 0x7b, 0xfa, 0xd8, 0x04, 0x5d, 0x85,
        0xa4, 0x70,
    ];
    assert_eq!(c.bytes, expected);
}

#[test]
fn wrap_encoding_bytes() {
    let mut expected: Vec<u8> = vec![1, 0, 0, 0];
    expected.extend_from_slice(&[1; 20]);
    expected.extend_from_slice(&[2; 20]);
    expected.extend_from_slice(&[0x05, 0x01, 0, 0, 0, 0, 0, 0]);
    expected.extend_from_slice(&[7; 32]);
    expected.extend_from_slice(&[8; 32]);
    expected.push(0);
    expected.extend_from_slice(&[9; 32]);
    expected.extend_from_slice(&[3; 32]);
    assert_eq!(wrap(261).encode(), expected);
}

#[test]
fn transaction_encoding_bytes() {
    let t = CapeTransition::aap(note(NoteKind::Mint, vec![nul(1)], vec![rc(2), rc(3)]), vec![]);
    let mut expected: Vec<u8> = vec![0, 0, 0, 0, 0, 0, 0, 0, 1, 0, 0, 0];
    expected.extend_from_slice(&[1, 0, 0, 0, 0, 0, 0, 0]);
    expected.extend_from_slice(&[1; 32]);
    expected.extend_from_slice(&[2, 0, 0, 0, 0, 0, 0, 0]);
    expected.extend_from_slice(&[2; 32]);
    expected.extend_from_slice(&[3; 32]);
    expected.extend_from_slice(&[2, 0, 0, 0, 0, 0, 0, 0, 0xAB, 0xCD]);
    assert_eq!(t.encode(), expected);
}

#[test]
fn wrap_is_public() {
    let w = wrap(10);
    assert!(w.proven_nullifiers().is_empty());
    assert_eq!(w.output_openings(), Some(vec![opening(10)]));
    assert_eq!(w.open_audit_memo(), Err(AuditError::NoAuditMemos));
    assert_eq!(w.output_commitments(), vec![rc(3)]);
    assert_eq!(w.output_len(), 1);
}

#[test]
fn transaction_accessors() {
    let t = txn(NoteKind::Transfer, 3);
    assert_eq!(t.proven_nullifiers(), vec![(nul(1), ()), (nul(2), ())]);
    assert_eq!(t.output_commitments(), vec![rc(0), rc(1), rc(2)]);
    assert_eq!(t.output_len(), 3);
    assert_eq!(t.output_openings(), None);
    let n = note(NoteKind::Transfer, vec![nul(1), nul(2)], vec![rc(0), rc(1), rc(2)]);
    assert_eq!(t.open_audit_memo(), Ok(AuditMemoSource::Note(n)));
}

#[test]
fn burn_accessors() {
    let b = burn();
    assert_eq!(b.proven_nullifiers(), vec![(nul(5), ())]);
    assert_eq!(b.output_commitments(), vec![rc(6), rc(7)]);
    assert_eq!(b.output_openings(), None);
    let x = note(NoteKind::Transfer, vec![nul(5)], vec![rc(6), rc(7)]);
    assert_eq!(b.open_audit_memo(), Ok(AuditMemoSource::Transfer(x)));
}

#[test]
fn set_proofs_changes_nothing() {
    let mut t = txn(NoteKind::Mint, 1);
    let before = t.commit();
    t.set_proofs(vec![(), ()]);
    assert_eq!(t.commit(), before);
}

#[test]
fn block_txns_and_append() {
    let mut b = CapeBlock::new(vec![wrap(1)]);
    assert_eq!(b.add_transaction(burn()), Ok(()));
    let txns = b.txns();
    assert_eq!(txns.len(), 2);
    assert_eq!(txns[0], wrap(1));
    assert_eq!(txns[1], burn());
}

#[test]
fn validator_round_trip_example() {
    let mut v = CapeTruster::new(0, 0);
    let block = CapeBlock::new(vec![txn(NoteKind::Transfer, 2), wrap(1)]);
    assert_eq!(v.validate_and_apply(block), Ok(vec![0, 1, 2]));
    assert_eq!(v.now(), 1);
    assert_eq!(v, CapeTruster::new(1, 3));
}

#[test]
fn validator_continues_counter() {
    let mut v = CapeTruster::new(7, 100);
    let block = CapeBlock::new(vec![burn(), txn(NoteKind::Mint, 0), wrap(5), txn(NoteKind::Mint, 1)]);
    assert_eq!(v.validate_and_apply(block), Ok(vec![100, 101, 102, 103]));
    assert_eq!(v, CapeTruster::new(8, 104));
}

#[test]
fn empty_block_advances_time_only() {
    let mut v = CapeTruster::new(4, 9);
    assert_eq!(v.validate_and_apply(CapeBlock::new(vec![])), Ok(vec![]));
    assert_eq!(v, CapeTruster::new(5, 9));
}

#[test]
fn commit_equals_now() {
    let mut v = CapeTruster::new(3, 0);
    assert_eq!(v.commit(), v.now());
    v.validate_and_apply(CapeBlock::new(vec![wrap(1)])).unwrap();
    assert_eq!(v.commit(), 4);
    assert_eq!(v.commit(), v.now());
}
