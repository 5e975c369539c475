//! A sparse three-valued cache of spend tags: known spent, known unspent, or
//! not known here (absent).
use vstd::prelude::*;
use crate::transition::Nullifier;

verus! {

/// The map that a list of entries stands for; a later entry for a tag
/// overrides an earlier one.
pub open spec fn map_of(s: Seq<(Nullifier, bool)>) -> Map<Nullifier, bool>
    decreases s.len(),
{
    if s.len() == 0 {
        Map::empty()
    } else {
        map_of(s.drop_last()).insert(s.last().0, s.last().1)
    }
}

/// No tag appears twice.
pub open spec fn distinct_tags(s: Seq<(Nullifier, bool)>) -> bool {
    forall|i: int, j: int| 0 <= i < j < s.len() ==> s[i].0 != s[j].0
}

proof fn lemma_map_domain(s: Seq<(Nullifier, bool)>, k: Nullifier)
    ensures
        map_of(s).contains_key(k) <==> exists|i: int| 0 <= i < s.len() && s[i].0 == k,
    decreases s.len(),
{
    if s.len() > 0 {
        lemma_map_domain(s.drop_last(), k);
        if map_of(s.drop_last()).contains_key(k) {
            let i = choose|i: int| 0 <= i < s.len() - 1 && s.drop_last()[i].0 == k;
            assert(s[i].0 == k);
        }
        if exists|i: int| 0 <= i < s.len() && s[i].0 == k {
            let i = choose|i: int| 0 <= i < s.len() && s[i].0 == k;
            if i < s.len() - 1 {
                assert(s.drop_last()[i].0 == k);
            }
        }
    }
}

proof fn lemma_map_at(s: Seq<(Nullifier, bool)>, i: int)
    requires
        distinct_tags(s),
        0 <= i < s.len(),
    ensures
        map_of(s).contains_key(s[i].0),
        map_of(s)[s[i].0] == s[i].1,
    decreases s.len(),
{
    if i < s.len() - 1 {
        lemma_map_at(s.drop_last(), i);
    }
}

proof fn lemma_map_update(s: Seq<(Nullifier, bool)>, i: int, v: bool)
    requires
        distinct_tags(s),
        0 <= i < s.len(),
    ensures
        map_of(s.update(i, (s[i].0, v))) == map_of(s).insert(s[i].0, v),
    decreases s.len(),
{
    let t = s.update(i, (s[i].0, v));
    if i == s.len() - 1 {
        assert(t.drop_last() == s.drop_last());
        lemma_map_domain(s.drop_last(), s[i].0);
        assert(map_of(s).insert(s[i].0, v) == map_of(s.drop_last()).insert(s[i].0, v));
    } else {
        assert(t.drop_last() == s.drop_last().update(i, (s[i].0, v)));
        lemma_map_update(s.drop_last(), i, v);
        assert(s.last().0 != s[i].0);
        assert(map_of(t) == map_of(s).insert(s[i].0, v));
    }
}

/// The spent-output cache. `get` answers `Some(true)` for a tag known to be
/// spent, `Some(false)` for one known to be unspent, and `None` where the
/// source of truth must be asked.
#[derive(Clone, Debug, Default)]
pub struct CapeNullifierSet {
    entries: Vec<(Nullifier, bool)>,
}

fn same_tag(a: &Nullifier, b: &Nullifier) -> (r: bool)
    ensures
        r == (*a == *b),
{
    let mut i: usize = 0;
    while i < 32
        invariant
            i <= 32,
            forall|j: int| 0 <= j < i ==> a.0@[j] == b.0@[j],
        decreases 32 - i,
    {
        if a.0[i] != b.0[i] {
            return false;
        }
        i = i + 1;
    }
    assert(a.0@ =~= b.0@);
    proof {
        vstd::array::axiom_array_ext_equal(a.0, b.0);
    }
    true
}

impl View for CapeNullifierSet {
    type V = Map<Nullifier, bool>;

    closed spec fn view(&self) -> Map<Nullifier, bool> {
        map_of(self.entries@)
    }
}

impl CapeNullifierSet {
    /// Each tag is held once.
    pub closed spec fn wf(&self) -> bool {
        distinct_tags(self.entries@)
    }

    /// The empty cache: nothing is known.
    pub fn new() -> (s: Self)
        ensures
            s.wf(),
            s@ == Map::<Nullifier, bool>::empty(),
    {
        CapeNullifierSet { entries: Vec::new() }
    }

    fn find(&self, n: &Nullifier) -> (r: Option<usize>)
        requires
            self.wf(),
        ensures
            r matches Some(i) ==> i < self.entries@.len() && self.entries@[i as int].0 == *n,
            r is None ==> !self@.contains_key(*n),
    {
        let mut i: usize = 0;
        while i < self.entries.len()
            invariant
                i <= self.entries@.len(),
                forall|j: int| 0 <= j < i ==> self.entries@[j].0 != *n,
            decreases self.entries@.len() - i,
        {
            if same_tag(&self.entries[i].0, n) {
                return Some(i);
            }
            i = i + 1;
        }
        proof {
            lemma_map_domain(self.entries@, *n);
        }
        None
    }

    /// The cached status of `n`; `None` if nothing is recorded for it.
    pub fn get(&self, n: Nullifier) -> (r: Option<bool>)
        requires
            self.wf(),
        ensures
            r == (if self@.contains_key(n) {
                Some(self@[n])
            } else {
                None::<bool>
            }),
    {
        match self.find(&n) {
            Some(i) => {
                proof {
                    lemma_map_at(self.entries@, i as int);
                }
                Some(self.entries[i].1)
            },
            None => None,
        }
    }

    /// Records `value` as the status of `n`, replacing what was there.
    pub fn insert(&mut self, n: Nullifier, value: bool)
        requires
            old(self).wf(),
        ensures
            final(self).wf(),
            final(self)@ == old(self)@.insert(n, value),
    {
        match self.find(&n) {
            Some(i) => {
                proof {
                    lemma_map_update(self.entries@, i as int, value);
                }
                self.entries.set(i, (n, value));
            },
            None => {
                proof {
                    lemma_map_domain(self.entries@, n);
                }
                self.entries.push((n, value));
                assert(self.entries@.drop_last() == old(self).entries@);
            },
        }
    }

    /// Marks every listed tag as spent. No proof is checked here, so this
    /// always succeeds.
    pub fn multi_insert(&mut self, nullifiers: &[(Nullifier, ())]) -> (r: Result<(), ()>)
        requires
            old(self).wf(),
        ensures
            final(self).wf(),
            r is Ok,
            forall|k: Nullifier| #[trigger]
                final(self)@.contains_key(k) <==> old(self)@.contains_key(k) || exists|i: int|
                    0 <= i < nullifiers@.len() && nullifiers@[i].0 == k,
            forall|k: Nullifier| #[trigger]
                final(self)@.contains_key(k) ==> final(self)@[k] == if exists|i: int|
                    0 <= i < nullifiers@.len() && nullifiers@[i].0 == k {
                    true
                } else {
                    old(self)@[k]
                },
    {
        let mut i: usize = 0;
        while i < nullifiers.len()
            invariant
                self.wf(),
                i <= nullifiers@.len(),
                forall|k: Nullifier| #[trigger]
                    self@.contains_key(k) <==> old(self)@.contains_key(k) || exists|j: int|
                        0 <= j < i && nullifiers@[j].0 == k,
                forall|k: Nullifier| #[trigger]
                    self@.contains_key(k) ==> self@[k] == if exists|j: int|
                        0 <= j < i && nullifiers@[j].0 == k {
                        true
                    } else {
                        old(self)@[k]
                    },
            decreases nullifiers@.len() - i,
        {
            let n = nullifiers[i].0;
            self.insert(n, true);
            proof {
                assert forall|k: Nullifier| #[trigger] self@.contains_key(k) implies self@[k]
                    == if exists|j: int| 0 <= j < i + 1 && nullifiers@[j].0 == k {
                    true
                } else {
                    old(self)@[k]
                } by {
                    if k == n {
                        assert(nullifiers@[i as int].0 == k);
                    }
                }
                assert forall|k: Nullifier| #[trigger] self@.contains_key(k) <==> old(
                    self,
                )@.contains_key(k) || exists|j: int| 0 <= j < i + 1 && nullifiers@[j].0 == k by {
                    if k == n {
                        assert(nullifiers@[i as int].0 == k);
                    }
                }
            }
            i = i + 1;
        }
        Ok(())
    }
}

/// After recording a status for a tag, that status is what is read back for it.
pub proof fn law_get_after_insert(m: Map<Nullifier, bool>, t: Nullifier, s: bool)
    ensures
        m.insert(t, s).contains_key(t),
        m.insert(t, s)[t] == s,
{
}

/// A tag that was never recorded reads as unknown: the empty cache holds no
/// tag, and recording other tags does not add it.
pub proof fn law_never_inserted_is_unknown(m: Map<Nullifier, bool>, t: Nullifier, u: Nullifier, s: bool)
    requires
        !m.contains_key(t),
        u != t,
    ensures
        !Map::<Nullifier, bool>::empty().contains_key(t),
        !m.insert(u, s).contains_key(t),
{
}

} // verus!
