//! An ordered sequence of transitions with an aggregate commitment.
use vstd::prelude::*;
use vstd::string::StringSliceAdditionalSpecFns;
use crate::commit::{finalize, keccak256_of, Commitment};
use crate::encoding::{le_bytes, put_raw, put_u64};
use crate::transition::{transition_commitment, CapeTransition, TransitionView};
use crate::validator::ValidationError;

verus! {

/// The byte strings one after another.
pub open spec fn concat_all(s: Seq<Seq<u8>>) -> Seq<u8>
    decreases s.len(),
{
    if s.len() == 0 {
        Seq::empty()
    } else {
        concat_all(s.drop_last()) + s.last()
    }
}

/// The per-transition commitments of a block, in order.
pub open spec fn transition_commitments(s: Seq<TransitionView>) -> Seq<Seq<u8>> {
    s.map_values(|t: TransitionView| transition_commitment(t))
}

/// What is hashed to commit to a block: the domain tag, the field name, the
/// number of transitions, then each transition's commitment in order.
pub open spec fn block_preimage(cs: Seq<Seq<u8>>) -> Seq<u8> {
    "CapeBlock".spec_bytes() + "txns".spec_bytes() + le_bytes(cs.len(), 8) + concat_all(cs)
}

pub open spec fn block_commitment(s: Seq<TransitionView>) -> Seq<u8> {
    keccak256_of(block_preimage(transition_commitments(s)))
}

/// The views of a list of transitions.
pub open spec fn views_of(v: Seq<CapeTransition>) -> Seq<TransitionView> {
    v.map_values(|t: CapeTransition| t@)
}

/// A block: transitions in the order in which they are applied.
#[derive(Clone, Debug)]
pub struct CapeBlock(pub Vec<CapeTransition>);

impl View for CapeBlock {
    type V = Seq<TransitionView>;

    open spec fn view(&self) -> Seq<TransitionView> {
        views_of(self.0@)
    }
}

impl CapeBlock {
    pub fn new(txns: Vec<CapeTransition>) -> (b: Self)
        ensures
            b@ == views_of(txns@),
    {
        CapeBlock(txns)
    }

    /// A copy of the transitions.
    pub fn txns(&self) -> (r: Vec<CapeTransition>)
        ensures
            views_of(r@) == self@,
    {
        let mut r: Vec<CapeTransition> = Vec::new();
        let mut i: usize = 0;
        while i < self.0.len()
            invariant
                i <= self.0@.len(),
                r@.len() == i,
                forall|k: int| 0 <= k < i ==> #[trigger] r@[k]@ == self.0@[k]@,
            decreases self.0@.len() - i,
        {
            r.push(self.0[i].duplicate());
            i = i + 1;
        }
        assert(views_of(r@) =~= self@);
        r
    }

    /// Appends a transition. Content is not checked here, so this always
    /// succeeds.
    pub fn add_transaction(&mut self, txn: CapeTransition) -> (r: Result<(), ValidationError>)
        ensures
            r is Ok,
            final(self)@ == old(self)@.push(txn@),
    {
        self.0.push(txn);
        assert(final(self)@ == old(self)@.push(txn@));
        Ok(())
    }

    /// The commitment of this block, over its transitions' commitments in order.
    pub fn commit(&self) -> (c: Commitment)
        ensures
            c.bytes@ == block_commitment(self@),
            c.bytes@.len() == 32,
    {
        let mut pre: Vec<u8> = Vec::new();
        put_raw(&mut pre, "CapeBlock".as_bytes());
        put_raw(&mut pre, "txns".as_bytes());
        put_u64(&mut pre, self.0.len() as u64);
        let ghost head = pre@;
        let mut i: usize = 0;
        while i < self.0.len()
            invariant
                i <= self.0@.len(),
                pre@ == head + concat_all(transition_commitments(self@).subrange(0, i as int)),
            decreases self.0@.len() - i,
        {
            let c = self.0[i].commit();
            put_raw(&mut pre, c.bytes.as_slice());
            i = i + 1;
            proof {
                let cs = transition_commitments(self@);
                assert(cs.subrange(0, i as int).drop_last() == cs.subrange(0, i - 1));
            }
        }
        proof {
            let cs = transition_commitments(self@);
            assert(cs.subrange(0, cs.len() as int) == cs);
        }
        finalize(&pre)
    }
}

proof fn lemma_concat_len(cs: Seq<Seq<u8>>)
    requires
        forall|i: int| 0 <= i < cs.len() ==> (#[trigger] cs[i]).len() == 32,
    ensures
        concat_all(cs).len() == 32 * cs.len(),
    decreases cs.len(),
{
    if cs.len() > 0 {
        lemma_concat_len(cs.drop_last());
    }
}

proof fn lemma_concat_injective(c1: Seq<Seq<u8>>, c2: Seq<Seq<u8>>)
    requires
        c1.len() == c2.len(),
        forall|i: int| 0 <= i < c1.len() ==> (#[trigger] c1[i]).len() == 32,
        forall|i: int| 0 <= i < c2.len() ==> (#[trigger] c2[i]).len() == 32,
        concat_all(c1) == concat_all(c2),
    ensures
        c1 == c2,
    decreases c1.len(),
{
    if c1.len() > 0 {
        let (front1, front2) = (c1.drop_last(), c2.drop_last());
        lemma_concat_len(front1);
        lemma_concat_len(front2);
        let n = concat_all(front1).len() as int;
        assert(concat_all(c1).subrange(0, n) == concat_all(front1));
        assert(concat_all(c2).subrange(0, n) == concat_all(front2));
        assert(concat_all(c1).subrange(n, n + 32) == c1.last());
        assert(concat_all(c2).subrange(n, n + 32) == c2.last());
        lemma_concat_injective(front1, front2);
        assert(c1 =~= c2) by {
            assert forall|i: int| 0 <= i < c1.len() implies c1[i] == c2[i] by {
                if i < c1.len() - 1 {
                    assert(front1[i] == front2[i]);
                }
            }
        }
    } else {
        assert(c1 =~= c2);
    }
}

proof fn lemma_preimage_injective(c1: Seq<Seq<u8>>, c2: Seq<Seq<u8>>)
    requires
        c1.len() == c2.len(),
        forall|i: int| 0 <= i < c1.len() ==> (#[trigger] c1[i]).len() == 32,
        forall|i: int| 0 <= i < c2.len() ==> (#[trigger] c2[i]).len() == 32,
        c1 != c2,
    ensures
        block_preimage(c1) != block_preimage(c2),
{
    if block_preimage(c1) == block_preimage(c2) {
        let h = "CapeBlock".spec_bytes() + "txns".spec_bytes() + le_bytes(c1.len(), 8);
        assert(block_preimage(c1) == h + concat_all(c1));
        assert(block_preimage(c2) == h + concat_all(c2));
        assert(block_preimage(c1).subrange(h.len() as int, block_preimage(c1).len() as int)
            == concat_all(c1));
        assert(block_preimage(c2).subrange(h.len() as int, block_preimage(c2).len() as int)
            == concat_all(c2));
        lemma_concat_injective(c1, c2);
    }
}

/// Order matters to a block's commitment: two blocks with as many
/// transitions, whose transition commitments (32 bytes each, as `commit`
/// gives them) differ in order or content, hash different preimages, so
/// their commitments differ unless Keccak-256 collides.
pub proof fn law_block_order_matters(s1: Seq<TransitionView>, s2: Seq<TransitionView>)
    requires
        s1.len() == s2.len(),
        forall|i: int| 0 <= i < s1.len() ==> (#[trigger] transition_commitment(s1[i])).len() == 32,
        forall|i: int| 0 <= i < s2.len() ==> (#[trigger] transition_commitment(s2[i])).len() == 32,
        transition_commitments(s1) != transition_commitments(s2),
    ensures
        block_preimage(transition_commitments(s1)) != block_preimage(transition_commitments(s2)),
{
    let (c1, c2) = (transition_commitments(s1), transition_commitments(s2));
    assert forall|i: int| 0 <= i < c1.len() implies (#[trigger] c1[i]).len() == 32 by {
        assert(c1[i] == transition_commitment(s1[i]));
    }
    assert forall|i: int| 0 <= i < c2.len() implies (#[trigger] c2[i]).len() == 32 by {
        assert(c2[i] == transition_commitment(s2[i]));
    }
    lemma_preimage_injective(c1, c2);
}

/// Equal blocks have equal commitments.
pub proof fn law_block_commit_deterministic(s1: Seq<TransitionView>, s2: Seq<TransitionView>)
    requires
        s1 == s2,
    ensures
        block_commitment(s1) == block_commitment(s2),
{
}

} // verus!
