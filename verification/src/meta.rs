//! Repository statistics: how many branches and tags it has, and how many distinct
//! commits its references reach.
use vstd::prelude::*;
use crate::branches::{RefCategory, RefRecord};

verus! {

pub struct RefData {
    pub branches: usize,
    pub tags: usize,
}

/// Branches (local and remote-tracking) among the references; unreadable references
/// and those without a category are passed over.
pub open spec fn branch_count(refs: Seq<Option<RefRecord>>) -> nat
    decreases refs.len(),
{
    if refs.len() == 0 {
        0
    } else {
        branch_count(refs.drop_last()) + match refs.last() {
            Some(r) => if r.category == Some(RefCategory::LocalBranch) || r.category == Some(
                RefCategory::RemoteBranch,
            ) {
                1nat
            } else {
                0nat
            },
            None => 0nat,
        }
    }
}

/// Tags among the references.
pub open spec fn tag_count(refs: Seq<Option<RefRecord>>) -> nat
    decreases refs.len(),
{
    if refs.len() == 0 {
        0
    } else {
        tag_count(refs.drop_last()) + match refs.last() {
            Some(r) => if r.category == Some(RefCategory::Tag) {
                1nat
            } else {
                0nat
            },
            None => 0nat,
        }
    }
}

proof fn lemma_counts_bounded(refs: Seq<Option<RefRecord>>)
    ensures
        branch_count(refs) + tag_count(refs) <= refs.len(),
    decreases refs.len(),
{
    if refs.len() > 0 {
        lemma_counts_bounded(refs.drop_last());
    }
}

/// Counts the branches and tags among the references.
pub fn count_ref_types(refs: &Vec<Option<RefRecord>>) -> (d: RefData)
    ensures
        d.branches == branch_count(refs@),
        d.tags == tag_count(refs@),
{
    let mut branches: usize = 0;
    let mut tags: usize = 0;
    let mut i: usize = 0;
    assert(refs@.take(0) =~= Seq::<Option<RefRecord>>::empty());
    while i < refs.len()
        invariant
            0 <= i <= refs@.len(),
            branches == branch_count(refs@.take(i as int)),
            tags == tag_count(refs@.take(i as int)),
        decreases refs@.len() - i,
    {
        assert(refs@.take(i + 1).drop_last() =~= refs@.take(i as int));
        assert(refs@.take(i + 1).last() == refs@[i as int]);
        proof {
            lemma_counts_bounded(refs@.take(i + 1));
        }
        match &refs[i] {
            Some(r) => match r.category {
                Some(RefCategory::LocalBranch) => {
                    branches = branches + 1;
                },
                Some(RefCategory::RemoteBranch) => {
                    branches = branches + 1;
                },
                Some(RefCategory::Tag) => {
                    tags = tags + 1;
                },
                _ => {},
            },
            None => {},
        }
        i = i + 1;
    }
    assert(refs@.take(i as int) =~= refs@);
    RefData { branches, tags }
}

/// Whether two byte strings are equal.
pub fn bytes_equal(a: &[u8], b: &[u8]) -> (r: bool)
    ensures
        r == (a@ == b@),
{
    if a.len() != b.len() {
        return false;
    }
    let mut i: usize = 0;
    while i < a.len()
        invariant
            a@.len() == b@.len(),
            0 <= i <= a@.len(),
            forall|j: int| 0 <= j < i ==> a@[j] == b@[j],
        decreases a@.len() - i,
    {
        if a[i] != b[i] {
            return false;
        }
        i = i + 1;
    }
    assert(a@ =~= b@);
    true
}

/// A set of commit ids, each held once.
pub struct CommitIdSet {
    ids: Vec<Vec<u8>>,
}

impl CommitIdSet {
    /// The ids held, in the order first seen.
    pub closed spec fn view_ids(&self) -> Seq<Seq<u8>> {
        self.ids@.map_values(|v: Vec<u8>| v@)
    }

    pub closed spec fn wf(&self) -> bool {
        self.view_ids().no_duplicates()
    }

    /// The set of ids held.
    pub open spec fn id_set(&self) -> Set<Seq<u8>> {
        self.view_ids().to_set()
    }

    pub fn new() -> (s: CommitIdSet)
        ensures
            s.wf(),
            s.view_ids() == Seq::<Seq<u8>>::empty(),
            s.id_set() == Set::<Seq<u8>>::empty(),
    {
        let s = CommitIdSet { ids: Vec::new() };
        assert(s.view_ids() =~= Seq::<Seq<u8>>::empty());
        assert(s.id_set() =~= Set::<Seq<u8>>::empty());
        s
    }

    /// Adds an id unless it is already held.
    pub fn insert(&mut self, id: &[u8])
        requires
            old(self).wf(),
        ensures
            final(self).wf(),
            final(self).view_ids() == (if old(self).view_ids().contains(id@) {
                old(self).view_ids()
            } else {
                old(self).view_ids().push(id@)
            }),
            final(self).id_set() == old(self).id_set().insert(id@),
    {
        let mut i: usize = 0;
        while i < self.ids.len()
            invariant
                0 <= i <= self.ids@.len(),
                self.wf(),
                self.view_ids() == old(self).view_ids(),
                forall|j: int| 0 <= j < i ==> self.view_ids()[j] != id@,
            decreases self.ids@.len() - i,
        {
            if bytes_equal(self.ids[i].as_slice(), id) {
                assert(self.view_ids()[i as int] == id@);
                assert(self.id_set() =~= old(self).id_set().insert(id@));
                return;
            }
            i = i + 1;
        }
        assert(!self.view_ids().contains(id@));
        self.ids.push(vstd::slice::slice_to_vec(id));
        assert(self.view_ids() =~= old(self).view_ids().push(id@));
        proof {
            Seq::<Seq<u8>>::lemma_to_set_insert_commutes(old(self).view_ids(), id@);
            assert(old(self).view_ids() + seq![id@] =~= old(self).view_ids().push(id@));
        }
    }

    /// Whether an id is held.
    pub fn contains(&self, id: &[u8]) -> (b: bool)
        requires
            self.wf(),
        ensures
            b == self.view_ids().contains(id@),
            b == self.id_set().contains(id@),
    {
        let mut i: usize = 0;
        while i < self.ids.len()
            invariant
                0 <= i <= self.ids@.len(),
                forall|j: int| 0 <= j < i ==> self.view_ids()[j] != id@,
            decreases self.ids@.len() - i,
        {
            if bytes_equal(self.ids[i].as_slice(), id) {
                assert(self.view_ids()[i as int] == id@);
                return true;
            }
            i = i + 1;
        }
        false
    }

    /// How many distinct ids are held.
    pub fn len(&self) -> (n: usize)
        requires
            self.wf(),
        ensures
            n == self.view_ids().len(),
            n == self.id_set().len(),
    {
        proof {
            self.view_ids().unique_seq_to_set();
        }
        self.ids.len()
    }
}

} // verus!
