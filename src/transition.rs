//! Everything that can change the ledger: confidential transactions and
//! public wrap (deposit) events, with their kind, outputs and commitment.
use vstd::prelude::*;
use vstd::string::StringSliceAdditionalSpecFns;
use crate::commit::{finalize, keccak256_of, Commitment};
use crate::encoding::{le_bytes, length_prefixed, put_bool, put_bytes, put_raw, put_u32, put_u64};

verus! {

/// A spend tag: marks a record output as consumed.
#[derive(Clone, Copy, Debug, PartialEq, Eq, Hash)]
pub struct Nullifier(pub [u8; 32]);

/// A hiding, binding commitment to an output record.
#[derive(Clone, Copy, Debug, PartialEq, Eq, Hash)]
pub struct RecordCommitment(pub [u8; 32]);

/// The code of an asset type inside the confidential pool.
#[derive(Clone, Copy, Debug, PartialEq, Eq, Hash)]
pub struct AssetCode(pub [u8; 32]);

/// An address on the external chain.
#[derive(Clone, Copy, Debug, PartialEq, Eq, Hash)]
pub struct EthereumAddr(pub [u8; 20]);

/// The token contract of a foreign asset, by its address.
#[derive(Clone, Copy, Debug, PartialEq, Eq, Hash)]
pub struct Erc20Code(pub EthereumAddr);

/// The revealed contents of an output record.
#[derive(Clone, Copy, Debug, PartialEq, Eq, Hash)]
pub struct RecordOpening {
    pub amount: u64,
    pub asset_code: AssetCode,
    pub owner: [u8; 32],
    pub freeze_flag: bool,
    pub blind: [u8; 32],
}

/// The kind of a confidential note.
#[derive(Clone, Copy, Debug, PartialEq, Eq, Structural, Hash)]
pub enum NoteKind {
    Transfer,
    Mint,
    Freeze,
}

/// A confidential transaction note: the spend tags it consumes, the
/// commitments of the records it creates, and the rest of its content
/// (proof, audit memo, fee) in canonical encoded form.
#[derive(Clone, Debug, PartialEq, Eq, Hash)]
pub struct TransactionNote {
    pub kind: NoteKind,
    pub nullifiers: Vec<Nullifier>,
    pub output_commitments: Vec<RecordCommitment>,
    pub body: Vec<u8>,
}

/// A confidential transaction as submitted to the ledger.
#[derive(Clone, Debug, PartialEq, Eq, Hash)]
pub enum CapeTransaction {
    AAP(TransactionNote),
    /// A transfer whose designated output leaves the pool in the clear.
    Burn { xfr: TransactionNote, ro: RecordOpening },
}

/// An object that changes the ledger.
#[derive(Clone, Debug, PartialEq, Eq, Hash)]
pub enum CapeTransition {
    Transaction(CapeTransaction),
    /// A deposit of a foreign asset; public by construction. `rc` is the
    /// commitment of `ro` as the note library computed it when the event was
    /// observed.
    Wrap { erc20_code: Erc20Code, src_addr: EthereumAddr, ro: RecordOpening, rc: RecordCommitment },
}

/// Kinds of confidential notes as the wallet framework names them.
#[derive(Clone, Copy, Debug, PartialEq, Eq, Structural, Hash)]
pub enum AapTransactionKind {
    Send,
    Receive,
    Mint,
    Freeze,
    Unfreeze,
    Unknown,
}

/// The kind of a transition.
#[derive(Clone, Copy, Debug, PartialEq, Eq, Structural, Hash)]
pub enum CapeTransactionKind {
    AAP(AapTransactionKind),
    Burn,
    Wrap,
}

/// Why an audit memo cannot be opened.
#[derive(Clone, Copy, Debug, PartialEq, Eq, Structural, Hash)]
pub enum AuditError {
    NoAuditMemos,
}

/// The note whose audit memo the decryption routine opens.
#[derive(Clone, Debug, PartialEq, Eq, Hash)]
pub enum AuditMemoSource {
    /// A full confidential note.
    Note(TransactionNote),
    /// The transfer part of a burn.
    Transfer(TransactionNote),
}

// ----- mathematical model -----

pub struct NoteView {
    pub kind: NoteKind,
    pub nullifiers: Seq<Nullifier>,
    pub outputs: Seq<RecordCommitment>,
    pub body: Seq<u8>,
}

pub enum TransactionView {
    Aap(NoteView),
    Burn { xfr: NoteView, ro: RecordOpening },
}

pub enum TransitionView {
    Transaction(TransactionView),
    Wrap { erc20_code: Erc20Code, src_addr: EthereumAddr, ro: RecordOpening, rc: RecordCommitment },
}

pub enum AuditSourceView {
    Note(NoteView),
    Transfer(NoteView),
}

impl View for TransactionNote {
    type V = NoteView;

    open spec fn view(&self) -> NoteView {
        NoteView {
            kind: self.kind,
            nullifiers: self.nullifiers@,
            outputs: self.output_commitments@,
            body: self.body@,
        }
    }
}

impl View for CapeTransaction {
    type V = TransactionView;

    open spec fn view(&self) -> TransactionView {
        match self {
            CapeTransaction::AAP(n) => TransactionView::Aap(n@),
            CapeTransaction::Burn { xfr, ro } => TransactionView::Burn { xfr: xfr@, ro: *ro },
        }
    }
}

impl View for CapeTransition {
    type V = TransitionView;

    open spec fn view(&self) -> TransitionView {
        match self {
            CapeTransition::Transaction(t) => TransitionView::Transaction(t@),
            CapeTransition::Wrap { erc20_code, src_addr, ro, rc } => TransitionView::Wrap {
                erc20_code: *erc20_code,
                src_addr: *src_addr,
                ro: *ro,
                rc: *rc,
            },
        }
    }
}

impl View for AuditMemoSource {
    type V = AuditSourceView;

    open spec fn view(&self) -> AuditSourceView {
        match self {
            AuditMemoSource::Note(n) => AuditSourceView::Note(n@),
            AuditMemoSource::Transfer(n) => AuditSourceView::Transfer(n@),
        }
    }
}

/// The kind of a transition: transfer notes send, mint notes mint, freeze
/// notes freeze (unfreezing uses the same note kind), burns burn, wraps wrap.
pub open spec fn kind_of(t: TransitionView) -> CapeTransactionKind {
    match t {
        TransitionView::Transaction(TransactionView::Aap(n)) => match n.kind {
            NoteKind::Transfer => CapeTransactionKind::AAP(AapTransactionKind::Send),
            NoteKind::Mint => CapeTransactionKind::AAP(AapTransactionKind::Mint),
            NoteKind::Freeze => CapeTransactionKind::AAP(AapTransactionKind::Freeze),
        },
        TransitionView::Transaction(TransactionView::Burn { .. }) => CapeTransactionKind::Burn,
        TransitionView::Wrap { .. } => CapeTransactionKind::Wrap,
    }
}

/// The spend tags a transition consumes: those of its note; none for a wrap.
pub open spec fn nullifiers_of(t: TransitionView) -> Seq<Nullifier> {
    match t {
        TransitionView::Transaction(TransactionView::Aap(n)) => n.nullifiers,
        TransitionView::Transaction(TransactionView::Burn { xfr, .. }) => xfr.nullifiers,
        TransitionView::Wrap { .. } => Seq::empty(),
    }
}

/// The commitments of the records a transition creates: those of its note;
/// for a wrap, the one commitment of its revealed record.
pub open spec fn outputs_of(t: TransitionView) -> Seq<RecordCommitment> {
    match t {
        TransitionView::Transaction(TransactionView::Aap(n)) => n.outputs,
        TransitionView::Transaction(TransactionView::Burn { xfr, .. }) => xfr.outputs,
        TransitionView::Wrap { rc, .. } => seq![rc],
    }
}

/// The revealed output records: only a wrap has them.
pub open spec fn openings_of(t: TransitionView) -> Option<Seq<RecordOpening>> {
    match t {
        TransitionView::Wrap { ro, .. } => Some(seq![ro]),
        _ => None,
    }
}

/// Where an audit memo is found, or why there is none.
pub open spec fn audit_source_of(t: TransitionView) -> Result<AuditSourceView, AuditError> {
    match t {
        TransitionView::Transaction(TransactionView::Aap(n)) => Ok(AuditSourceView::Note(n)),
        TransitionView::Transaction(TransactionView::Burn { xfr, .. }) => Ok(
            AuditSourceView::Transfer(xfr),
        ),
        TransitionView::Wrap { .. } => Err(AuditError::NoAuditMemos),
    }
}

// ----- canonical encoding and commitment -----

pub open spec fn concat_nullifiers(s: Seq<Nullifier>) -> Seq<u8>
    decreases s.len(),
{
    if s.len() == 0 {
        Seq::empty()
    } else {
        concat_nullifiers(s.drop_last()) + s.last().0@
    }
}

pub open spec fn concat_commitments(s: Seq<RecordCommitment>) -> Seq<u8>
    decreases s.len(),
{
    if s.len() == 0 {
        Seq::empty()
    } else {
        concat_commitments(s.drop_last()) + s.last().0@
    }
}

pub open spec fn note_kind_index(k: NoteKind) -> nat {
    match k {
        NoteKind::Transfer => 0,
        NoteKind::Mint => 1,
        NoteKind::Freeze => 2,
    }
}

/// A sequence of spend tags: its length, then each 32-byte tag.
pub open spec fn encode_nullifiers(s: Seq<Nullifier>) -> Seq<u8> {
    le_bytes(s.len(), 8) + concat_nullifiers(s)
}

/// A sequence of record commitments: its length, then each 32-byte commitment.
pub open spec fn encode_commitments(s: Seq<RecordCommitment>) -> Seq<u8> {
    le_bytes(s.len(), 8) + concat_commitments(s)
}

pub open spec fn encode_note(n: NoteView) -> Seq<u8> {
    le_bytes(note_kind_index(n.kind), 4) + encode_nullifiers(n.nullifiers) + encode_commitments(
        n.outputs,
    ) + length_prefixed(n.body)
}

pub open spec fn encode_opening(ro: RecordOpening) -> Seq<u8> {
    le_bytes(ro.amount as nat, 8) + ro.asset_code.0@ + ro.owner@ + seq![
        if ro.freeze_flag {
            1u8
        } else {
            0u8
        },
    ] + ro.blind@
}

pub open spec fn encode_transaction(t: TransactionView) -> Seq<u8> {
    match t {
        TransactionView::Aap(n) => le_bytes(0, 4) + encode_note(n),
        TransactionView::Burn { xfr, ro } => le_bytes(1, 4) + encode_note(xfr) + encode_opening(ro),
    }
}

/// The canonical encoding of a transition: variant indices as u32, lengths
/// as u64, integers little-endian, fixed-size arrays as their bytes.
pub open spec fn encode_transition(t: TransitionView) -> Seq<u8> {
    match t {
        TransitionView::Transaction(tx) => le_bytes(0, 4) + encode_transaction(tx),
        TransitionView::Wrap { erc20_code, src_addr, ro, rc } => le_bytes(1, 4) + erc20_code.0.0@
            + src_addr.0@ + encode_opening(ro) + rc.0@,
    }
}

/// What is hashed to commit to a transition: the domain tag, then the
/// length-prefixed canonical encoding.
pub open spec fn transition_preimage(t: TransitionView) -> Seq<u8> {
    "CapeTransition".spec_bytes() + length_prefixed(encode_transition(t))
}

pub open spec fn transition_commitment(t: TransitionView) -> Seq<u8> {
    keccak256_of(transition_preimage(t))
}

fn put_nullifiers(out: &mut Vec<u8>, s: &Vec<Nullifier>)
    ensures
        final(out)@ == old(out)@ + encode_nullifiers(s@),
{
    put_u64(out, s.len() as u64);
    let ghost start = out@;
    let mut i: usize = 0;
    while i < s.len()
        invariant
            i <= s@.len(),
            out@ == start + concat_nullifiers(s@.subrange(0, i as int)),
        decreases s@.len() - i,
    {
        put_raw(out, s[i].0.as_slice());
        i = i + 1;
        proof {
            assert(s@.subrange(0, i as int).drop_last() == s@.subrange(0, i - 1));
        }
    }
    assert(s@.subrange(0, s@.len() as int) == s@);
}

fn put_commitments(out: &mut Vec<u8>, s: &Vec<RecordCommitment>)
    ensures
        final(out)@ == old(out)@ + encode_commitments(s@),
{
    put_u64(out, s.len() as u64);
    let ghost start = out@;
    let mut i: usize = 0;
    while i < s.len()
        invariant
            i <= s@.len(),
            out@ == start + concat_commitments(s@.subrange(0, i as int)),
        decreases s@.len() - i,
    {
        put_raw(out, s[i].0.as_slice());
        i = i + 1;
        proof {
            assert(s@.subrange(0, i as int).drop_last() == s@.subrange(0, i - 1));
        }
    }
    assert(s@.subrange(0, s@.len() as int) == s@);
}

fn put_note(out: &mut Vec<u8>, n: &TransactionNote)
    ensures
        final(out)@ == old(out)@ + encode_note(n@),
{
    let ghost start = out@;
    let idx: u32 = match n.kind {
        NoteKind::Transfer => 0,
        NoteKind::Mint => 1,
        NoteKind::Freeze => 2,
    };
    put_u32(out, idx);
    put_nullifiers(out, &n.nullifiers);
    put_commitments(out, &n.output_commitments);
    put_bytes(out, &n.body);
    assert(out@ == start + encode_note(n@));
}

fn put_opening(out: &mut Vec<u8>, ro: &RecordOpening)
    ensures
        final(out)@ == old(out)@ + encode_opening(*ro),
{
    let ghost start = out@;
    put_u64(out, ro.amount);
    put_raw(out, ro.asset_code.0.as_slice());
    put_raw(out, ro.owner.as_slice());
    put_bool(out, ro.freeze_flag);
    put_raw(out, ro.blind.as_slice());
    assert(out@ == start + encode_opening(*ro));
}

impl CapeTransition {
    /// The canonical encoding of this transition.
    pub fn encode(&self) -> (r: Vec<u8>)
        ensures
            r@ == encode_transition(self@),
    {
        let mut out: Vec<u8> = Vec::new();
        match self {
            CapeTransition::Transaction(tx) => {
                put_u32(&mut out, 0);
                match tx {
                    CapeTransaction::AAP(n) => {
                        put_u32(&mut out, 0);
                        put_note(&mut out, n);
                    },
                    CapeTransaction::Burn { xfr, ro } => {
                        put_u32(&mut out, 1);
                        put_note(&mut out, xfr);
                        put_opening(&mut out, ro);
                    },
                }
            },
            CapeTransition::Wrap { erc20_code, src_addr, ro, rc } => {
                put_u32(&mut out, 1);
                put_raw(&mut out, erc20_code.0.0.as_slice());
                put_raw(&mut out, src_addr.0.as_slice());
                put_opening(&mut out, ro);
                put_raw(&mut out, rc.0.as_slice());
            },
        }
        assert(out@ == encode_transition(self@));
        out
    }

    /// The commitment of this transition: the hash of its domain-tagged
    /// canonical encoding.
    pub fn commit(&self) -> (c: Commitment)
        ensures
            c.bytes@ == transition_commitment(self@),
            c.bytes@.len() == 32,
    {
        let mut pre: Vec<u8> = Vec::new();
        put_raw(&mut pre, "CapeTransition".as_bytes());
        let enc = self.encode();
        put_bytes(&mut pre, &enc);
        finalize(&pre)
    }

    /// The content hash of this transition, which is its commitment.
    pub fn hash(&self) -> (c: Commitment)
        ensures
            c.bytes@ == transition_commitment(self@),
            c.bytes@.len() == 32,
    {
        self.commit()
    }
}

// ----- kinds -----

impl CapeTransactionKind {
    pub fn send() -> (k: Self)
        ensures
            k == CapeTransactionKind::AAP(AapTransactionKind::Send),
    {
        CapeTransactionKind::AAP(AapTransactionKind::Send)
    }

    pub fn receive() -> (k: Self)
        ensures
            k == CapeTransactionKind::AAP(AapTransactionKind::Receive),
    {
        CapeTransactionKind::AAP(AapTransactionKind::Receive)
    }

    pub fn mint() -> (k: Self)
        ensures
            k == CapeTransactionKind::AAP(AapTransactionKind::Mint),
    {
        CapeTransactionKind::AAP(AapTransactionKind::Mint)
    }

    pub fn freeze() -> (k: Self)
        ensures
            k == CapeTransactionKind::AAP(AapTransactionKind::Freeze),
    {
        CapeTransactionKind::AAP(AapTransactionKind::Freeze)
    }

    pub fn unfreeze() -> (k: Self)
        ensures
            k == CapeTransactionKind::AAP(AapTransactionKind::Unfreeze),
    {
        CapeTransactionKind::AAP(AapTransactionKind::Unfreeze)
    }

    pub fn unknown() -> (k: Self)
        ensures
            k == CapeTransactionKind::AAP(AapTransactionKind::Unknown),
    {
        CapeTransactionKind::AAP(AapTransactionKind::Unknown)
    }
}

// ----- copies -----

fn copy_nullifiers(s: &Vec<Nullifier>) -> (r: Vec<Nullifier>)
    ensures
        r@ == s@,
{
    let mut r: Vec<Nullifier> = Vec::new();
    let mut i: usize = 0;
    while i < s.len()
        invariant
            i <= s@.len(),
            r@ == s@.subrange(0, i as int),
        decreases s@.len() - i,
    {
        r.push(s[i]);
        i = i + 1;
    }
    assert(r@ == s@);
    r
}

fn copy_commitments(s: &Vec<RecordCommitment>) -> (r: Vec<RecordCommitment>)
    ensures
        r@ == s@,
{
    let mut r: Vec<RecordCommitment> = Vec::new();
    let mut i: usize = 0;
    while i < s.len()
        invariant
            i <= s@.len(),
            r@ == s@.subrange(0, i as int),
        decreases s@.len() - i,
    {
        r.push(s[i]);
        i = i + 1;
    }
    assert(r@ == s@);
    r
}

fn copy_bytes(s: &Vec<u8>) -> (r: Vec<u8>)
    ensures
        r@ == s@,
{
    let mut r: Vec<u8> = Vec::new();
    put_raw(&mut r, s.as_slice());
    assert(r@ == s@);
    r
}

impl TransactionNote {
    /// A copy with the same content.
    pub fn duplicate(&self) -> (r: Self)
        ensures
            r@ == self@,
    {
        TransactionNote {
            kind: self.kind,
            nullifiers: copy_nullifiers(&self.nullifiers),
            output_commitments: copy_commitments(&self.output_commitments),
            body: copy_bytes(&self.body),
        }
    }
}

impl CapeTransition {
    /// A copy with the same content.
    pub fn duplicate(&self) -> (r: Self)
        ensures
            r@ == self@,
    {
        match self {
            CapeTransition::Transaction(CapeTransaction::AAP(n)) => CapeTransition::Transaction(
                CapeTransaction::AAP(n.duplicate()),
            ),
            CapeTransition::Transaction(CapeTransaction::Burn { xfr, ro }) => {
                CapeTransition::Transaction(CapeTransaction::Burn { xfr: xfr.duplicate(), ro: *ro })
            },
            CapeTransition::Wrap { erc20_code, src_addr, ro, rc } => CapeTransition::Wrap {
                erc20_code: *erc20_code,
                src_addr: *src_addr,
                ro: *ro,
                rc: *rc,
            },
        }
    }

    // ----- accessors -----

    /// A transition made of a confidential note. The note carries its own
    /// proofs, so the proof list is not kept.
    pub fn aap(note: TransactionNote, _proofs: Vec<()>) -> (t: Self)
        ensures
            t@ == TransitionView::Transaction(TransactionView::Aap(note@)),
    {
        CapeTransition::Transaction(CapeTransaction::AAP(note))
    }

    /// Proofs live inside the note: nothing is changed.
    pub fn set_proofs(&mut self, _proofs: Vec<()>)
        ensures
            *final(self) == *old(self),
    {
    }

    /// The kind of this transition.
    pub fn kind(&self) -> (k: CapeTransactionKind)
        ensures
            k == kind_of(self@),
    {
        match self {
            CapeTransition::Transaction(CapeTransaction::AAP(n)) => match n.kind {
                NoteKind::Transfer => CapeTransactionKind::send(),
                NoteKind::Mint => CapeTransactionKind::mint(),
                NoteKind::Freeze => CapeTransactionKind::freeze(),
            },
            CapeTransition::Transaction(CapeTransaction::Burn { .. }) => CapeTransactionKind::Burn,
            CapeTransition::Wrap { .. } => CapeTransactionKind::Wrap,
        }
    }

    /// The spend tags this transition consumes, each with the trivial proof.
    pub fn proven_nullifiers(&self) -> (r: Vec<(Nullifier, ())>)
        ensures
            r@.len() == nullifiers_of(self@).len(),
            forall|i: int| 0 <= i < r@.len() ==> #[trigger] r@[i].0 == nullifiers_of(self@)[i],
    {
        let empty: Vec<Nullifier> = Vec::new();
        let ns: &Vec<Nullifier> = match self {
            CapeTransition::Transaction(CapeTransaction::AAP(n)) => &n.nullifiers,
            CapeTransition::Transaction(CapeTransaction::Burn { xfr, .. }) => &xfr.nullifiers,
            CapeTransition::Wrap { .. } => &empty,
        };
        let mut r: Vec<(Nullifier, ())> = Vec::new();
        let mut i: usize = 0;
        while i < ns.len()
            invariant
                ns@ == nullifiers_of(self@),
                i <= ns@.len(),
                r@.len() == i,
                forall|j: int| 0 <= j < i ==> #[trigger] r@[j].0 == ns@[j],
            decreases ns@.len() - i,
        {
            r.push((ns[i], ()));
            i = i + 1;
        }
        r
    }

    /// The commitments of the records this transition creates.
    pub fn output_commitments(&self) -> (r: Vec<RecordCommitment>)
        ensures
            r@ == outputs_of(self@),
    {
        match self {
            CapeTransition::Transaction(CapeTransaction::AAP(n)) => copy_commitments(
                &n.output_commitments,
            ),
            CapeTransition::Transaction(CapeTransaction::Burn { xfr, .. }) => copy_commitments(
                &xfr.output_commitments,
            ),
            CapeTransition::Wrap { rc, .. } => {
                let r = vec![*rc];
                assert(r@ == seq![*rc]);
                r
            },
        }
    }

    /// The number of records this transition creates.
    pub fn output_len(&self) -> (n: usize)
        ensures
            n == outputs_of(self@).len(),
    {
        match self {
            CapeTransition::Transaction(CapeTransaction::AAP(n)) => n.output_commitments.len(),
            CapeTransition::Transaction(CapeTransaction::Burn { xfr, .. }) => {
                xfr.output_commitments.len()
            },
            CapeTransition::Wrap { .. } => 1,
        }
    }

    /// The revealed output records: the one record of a wrap; none for a
    /// confidential transaction, whose outputs are hidden.
    pub fn output_openings(&self) -> (r: Option<Vec<RecordOpening>>)
        ensures
            r matches Some(v) ==> openings_of(self@) == Some(v@),
            r is None ==> openings_of(self@) is None,
    {
        match self {
            CapeTransition::Wrap { ro, .. } => {
                let v = vec![*ro];
                assert(v@ == seq![*ro]);
                Some(v)
            },
            _ => None,
        }
    }

    /// The note whose audit memo is to be opened: the note of a confidential
    /// transaction, or the transfer inside a burn. A wrap has no audit memo.
    pub fn open_audit_memo(&self) -> (r: Result<AuditMemoSource, AuditError>)
        ensures
            match r {
                Ok(s) => audit_source_of(self@) == Ok::<AuditSourceView, AuditError>(s@),
                Err(e) => audit_source_of(self@) == Err::<AuditSourceView, AuditError>(e),
            },
    {
        match self {
            CapeTransition::Transaction(CapeTransaction::AAP(n)) => Ok(
                AuditMemoSource::Note(n.duplicate()),
            ),
            CapeTransition::Transaction(CapeTransaction::Burn { xfr, .. }) => Ok(
                AuditMemoSource::Transfer(xfr.duplicate()),
            ),
            CapeTransition::Wrap { .. } => Err(AuditError::NoAuditMemos),
        }
    }
}

/// Equal transition content gives an equal commitment.
pub proof fn law_commit_deterministic(t1: TransitionView, t2: TransitionView)
    requires
        t1 == t2,
    ensures
        transition_commitment(t1) == transition_commitment(t2),
        transition_preimage(t1) == transition_preimage(t2),
{
}

/// A wrap consumes no spend tag, reveals exactly its own record, and has no
/// audit memo.
pub proof fn law_wrap_is_public(t: TransitionView)
    requires
        t is Wrap,
    ensures
        nullifiers_of(t).len() == 0,
        openings_of(t) == Some(seq![t->Wrap_ro]),
        audit_source_of(t) == Err::<AuditSourceView, AuditError>(AuditError::NoAuditMemos),
        outputs_of(t).len() == 1,
{
}

/// Every transition has exactly one kind, given by its variant and note kind.
pub proof fn law_kind_table(t: TransitionView)
    ensures
        t matches TransitionView::Transaction(TransactionView::Aap(n)) ==> kind_of(t)
            == CapeTransactionKind::AAP(
            match n.kind {
                NoteKind::Transfer => AapTransactionKind::Send,
                NoteKind::Mint => AapTransactionKind::Mint,
                NoteKind::Freeze => AapTransactionKind::Freeze,
            },
        ),
        t matches TransitionView::Transaction(TransactionView::Burn { .. }) ==> kind_of(t)
            == CapeTransactionKind::Burn,
        t is Wrap ==> kind_of(t) == CapeTransactionKind::Wrap,
{
}

} // verus!
