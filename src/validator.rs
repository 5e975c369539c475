//! The trust-based validator: assigns record identifiers and advances
//! logical time, without re-checking any proof.
use vstd::prelude::*;
use crate::block::CapeBlock;
use crate::transition::{outputs_of, TransitionView};

verus! {

/// Block application failed. Trusting validation never fails; the kind
/// exists for validators that check proofs.
#[derive(Clone, Copy, Debug, PartialEq, Eq, Structural, Hash)]
pub enum ValidationError {
    Failed,
}

/// The number of records the transitions create, together.
pub open spec fn total_outputs(s: Seq<TransitionView>) -> nat
    decreases s.len(),
{
    if s.len() == 0 {
        0
    } else {
        total_outputs(s.drop_last()) + outputs_of(s.last()).len()
    }
}

/// The identifiers `start, start + 1, ..., start + n - 1`.
pub open spec fn sequential_ids(start: nat, n: nat) -> Seq<u64> {
    Seq::new(n, |i: int| (start + i) as u64)
}

proof fn lemma_total_prefix(s: Seq<TransitionView>, i: int)
    requires
        0 <= i <= s.len(),
    ensures
        total_outputs(s.subrange(0, i)) <= total_outputs(s),
    decreases s.len() - i,
{
    if i < s.len() {
        lemma_total_prefix(s, i + 1);
        assert(s.subrange(0, i + 1).drop_last() == s.subrange(0, i));
    } else {
        assert(s.subrange(0, i) == s);
    }
}

/// Validator state: logical time (the number of blocks applied) and the next
/// unused record identifier.
#[derive(Clone, Debug, PartialEq, Eq, Structural)]
pub struct CapeTruster {
    now: u64,
    num_records: u64,
}

impl CapeTruster {
    pub closed spec fn spec_now(&self) -> u64 {
        self.now
    }

    pub closed spec fn spec_num_records(&self) -> u64 {
        self.num_records
    }

    pub fn new(now: u64, num_records: u64) -> (t: Self)
        ensures
            t.spec_now() == now,
            t.spec_num_records() == num_records,
    {
        CapeTruster { now, num_records }
    }

    /// The next unused record identifier.
    pub fn num_records(&self) -> (r: u64)
        ensures
            r == self.spec_num_records(),
    {
        self.num_records
    }

    /// The current logical time.
    pub fn now(&self) -> (r: u64)
        ensures
            r == self.spec_now(),
    {
        self.now
    }

    /// The state commitment: the logical time, which names the ledger state
    /// to ask the source of truth for.
    pub fn commit(&self) -> (r: u64)
        ensures
            r == self.spec_now(),
    {
        self.now
    }

    /// Applies a block: gives each output of each transition, in order, the
    /// next record identifier, and advances time by one. Returns the
    /// identifiers given.
    pub fn validate_and_apply(&mut self, block: CapeBlock) -> (r: Result<Vec<u64>, ValidationError>)
        requires
            old(self).spec_now() < u64::MAX,
            old(self).spec_num_records() + total_outputs(block@) <= u64::MAX,
        ensures
            r matches Ok(ids) && ids@ == sequential_ids(
                old(self).spec_num_records() as nat,
                total_outputs(block@),
            ),
            final(self).spec_now() == old(self).spec_now() + 1,
            final(self).spec_num_records() == old(self).spec_num_records() + total_outputs(block@),
    {
        let ghost start = self.num_records as nat;
        let ghost s = block@;
        let mut uids: Vec<u64> = Vec::new();
        let mut uid: u64 = self.num_records;
        let mut i: usize = 0;
        while i < block.0.len()
            invariant
                s == block@,
                i <= s.len(),
                start + total_outputs(s) <= u64::MAX,
                uid == start + total_outputs(s.subrange(0, i as int)),
                uids@ == sequential_ids(start, total_outputs(s.subrange(0, i as int))),
            decreases s.len() - i,
        {
            let n = block.0[i].output_len();
            proof {
                assert(s.subrange(0, i + 1).drop_last() == s.subrange(0, i as int));
                assert(s[i as int] == block.0@[i as int]@);
                lemma_total_prefix(s, i + 1);
            }
            let ghost before = uids@;
            let mut j: usize = 0;
            while j < n
                invariant
                    j <= n,
                    start + total_outputs(s.subrange(0, i as int)) + n <= u64::MAX,
                    uid == start + total_outputs(s.subrange(0, i as int)) + j,
                    uids@ == sequential_ids(start, total_outputs(s.subrange(0, i as int)) + j as nat),
                decreases n - j,
            {
                uids.push(uid);
                uid = uid + 1;
                j = j + 1;
                assert(uids@ =~= sequential_ids(start, total_outputs(s.subrange(0, i as int)) + j as nat));
            }
            i = i + 1;
        }
        assert(s.subrange(0, s.len() as int) == s);
        self.num_records = uid;
        self.now = self.now + 1;
        Ok(uids)
    }
}

/// Associates a ledger with the validator it uses.
pub trait Ledger {
    type Validator;
}

/// The ledger binding: carries no state.
#[derive(Clone, Copy, Debug, Default)]
pub struct CapeLedger;

impl Ledger for CapeLedger {
    type Validator = CapeTruster;
}

/// An empty block creates no record: the counter stays and no identifier is
/// given out (time still advances by one, by `validate_and_apply`).
pub proof fn law_empty_block(s: Seq<TransitionView>, counter: nat)
    requires
        s.len() == 0,
    ensures
        total_outputs(s) == 0,
        sequential_ids(counter, total_outputs(s)) == Seq::<u64>::empty(),
{
    assert(sequential_ids(counter, 0) =~= Seq::<u64>::empty());
}

/// Identifiers for a block are those for its first transitions followed by
/// those for the last one: each transition's outputs get a contiguous run,
/// in block order.
pub proof fn law_ids_follow_block_order(s: Seq<TransitionView>, counter: nat)
    requires
        s.len() > 0,
    ensures
        sequential_ids(counter, total_outputs(s)) == sequential_ids(
            counter,
            total_outputs(s.drop_last()),
        ) + sequential_ids(
            counter + total_outputs(s.drop_last()),
            outputs_of(s.last()).len(),
        ),
{
    let a = total_outputs(s.drop_last());
    assert(sequential_ids(counter, total_outputs(s)) =~= sequential_ids(counter, a)
        + sequential_ids(counter + a, outputs_of(s.last()).len()));
}

} // verus!
