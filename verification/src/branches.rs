//! Branches of a repository, local and remote-tracking, from its references.
use vstd::prelude::*;
use vstd::slice::slice_subrange;
use crate::text::{from_utf8_lossy, utf8_lossy};

verus! {

/// The namespace a reference lives in.
#[derive(Debug, Clone, Copy, PartialEq, Eq)]
pub enum RefCategory {
    LocalBranch,
    RemoteBranch,
    Tag,
    Other,
}

/// A reference as read from the repository: its category (if it has one), its short
/// name as bytes (`main`, `origin/main`) and the id of the object it points to.
pub struct RefRecord {
    pub category: Option<RefCategory>,
    pub short_name: Vec<u8>,
    pub tip: Vec<u8>,
}

/// A local branch (e.g. `main`, `feature/auth`) and the commit its tip points to.
pub struct LocalBranch {
    pub name: String,
    pub tip: Vec<u8>,
}

/// A remote-tracking branch (e.g. `origin/main`) and the commit its tip points to.
pub struct RemoteBranch {
    pub remote: String,
    pub branch: String,
    pub tip: Vec<u8>,
}

/// All branches of a repository, grouped by locality.
pub struct BranchListing {
    pub local: Vec<LocalBranch>,
    pub remote: Vec<RemoteBranch>,
}

/// Position of the first `/` at or after `i`, or -1.
pub open spec fn slash_from(s: Seq<u8>, i: int) -> int
    decreases s.len() - i,
{
    if i < 0 || i >= s.len() {
        -1
    } else if s[i] == 47 {
        i
    } else {
        slash_from(s, i + 1)
    }
}

/// The remote and branch names of a remote-tracking branch's short name, split at
/// the first `/` (branch names may themselves hold `/`). Without a `/`, the whole
/// name is the remote and the branch is empty.
pub open spec fn remote_parts(short: Seq<u8>) -> (Seq<char>, Seq<char>) {
    let i = slash_from(short, 0);
    if i < 0 {
        (utf8_lossy(short), Seq::<char>::empty())
    } else {
        (utf8_lossy(short.subrange(0, i)), utf8_lossy(short.subrange(i + 1, short.len() as int)))
    }
}

proof fn lemma_slash_from_skip(s: Seq<u8>, i: int)
    requires
        0 <= i < s.len(),
        s[i] != 47,
    ensures
        slash_from(s, i) == slash_from(s, i + 1),
{
}

proof fn lemma_slash_from_bounds(s: Seq<u8>, i: int)
    requires
        0 <= i,
    ensures
        slash_from(s, i) == -1 || (i <= slash_from(s, i) < s.len() && s[slash_from(s, i)] == 47),
    decreases s.len() - i,
{
    if i < s.len() && s[i] != 47 {
        lemma_slash_from_bounds(s, i + 1);
    }
}

/// A remote-tracking name made of a remote without `/`, a `/` and a branch name
/// (which may itself hold `/`) splits back into that remote and that branch.
pub proof fn lemma_remote_parts_of_joined(remote: Seq<u8>, branch: Seq<u8>)
    requires
        forall|i: int| 0 <= i < remote.len() ==> remote[i] != 47,
    ensures
        remote_parts(remote + seq![47u8] + branch) == (utf8_lossy(remote), utf8_lossy(branch)),
{
    let s = remote + seq![47u8] + branch;
    assert forall|k: int| 0 <= k <= remote.len() implies slash_from(s, k) == remote.len() by {
        lemma_slash_from_joined(s, remote.len() as int, k);
    }
    assert(s.subrange(0, remote.len() as int) =~= remote);
    assert(s.subrange(remote.len() + 1int, s.len() as int) =~= branch);
}

proof fn lemma_slash_from_joined(s: Seq<u8>, n: int, k: int)
    requires
        0 <= k <= n < s.len(),
        s[n] == 47,
        forall|i: int| 0 <= i < n ==> s[i] != 47,
    ensures
        slash_from(s, k) == n,
    decreases n - k,
{
    if k < n {
        lemma_slash_from_joined(s, n, k + 1);
    }
}

/// Splits `origin/main` into `("origin", "main")`.
pub fn split_remote_branch(short: &[u8]) -> (r: (String, String))
    ensures
        r.0@ == remote_parts(short@).0,
        r.1@ == remote_parts(short@).1,
{
    let mut i: usize = 0;
    while i < short.len() && short[i] != 47u8
        invariant
            0 <= i <= short@.len(),
            slash_from(short@, 0) == slash_from(short@, i as int),
        decreases short@.len() - i,
    {
        proof {
            lemma_slash_from_skip(short@, i as int);
        }
        i = i + 1;
    }
    proof {
        lemma_slash_from_bounds(short@, 0);
    }
    if i == short.len() {
        (from_utf8_lossy(short), String::new())
    } else {
        let before = slice_subrange(short, 0, i);
        let after = slice_subrange(short, i + 1, short.len());
        (from_utf8_lossy(before), from_utf8_lossy(after))
    }
}

pub open spec fn local_view(b: LocalBranch) -> (Seq<char>, Seq<u8>) {
    (b.name@, b.tip@)
}

pub open spec fn remote_view(b: RemoteBranch) -> (Seq<char>, Seq<char>, Seq<u8>) {
    (b.remote@, b.branch@, b.tip@)
}

/// The local branches among the references, in order; unreadable references are
/// passed over.
pub open spec fn local_branches(refs: Seq<Option<RefRecord>>) -> Seq<(Seq<char>, Seq<u8>)>
    decreases refs.len(),
{
    if refs.len() == 0 {
        Seq::empty()
    } else {
        let prev = local_branches(refs.drop_last());
        match refs.last() {
            Some(r) => if r.category == Some(RefCategory::LocalBranch) {
                prev.push((utf8_lossy(r.short_name@), r.tip@))
            } else {
                prev
            },
            None => prev,
        }
    }
}

/// The remote-tracking branches among the references, in order.
pub open spec fn remote_branches(refs: Seq<Option<RefRecord>>) -> Seq<(Seq<char>, Seq<char>, Seq<u8>)>
    decreases refs.len(),
{
    if refs.len() == 0 {
        Seq::empty()
    } else {
        let prev = remote_branches(refs.drop_last());
        match refs.last() {
            Some(r) => if r.category == Some(RefCategory::RemoteBranch) {
                prev.push(
                    (remote_parts(r.short_name@).0, remote_parts(r.short_name@).1, r.tip@),
                )
            } else {
                prev
            },
            None => prev,
        }
    }
}

/// Whether `b` is the local branch that reference `r` gives.
pub open spec fn local_of(r: Option<RefRecord>, b: (Seq<char>, Seq<u8>)) -> bool {
    r matches Some(x) && x.category == Some(RefCategory::LocalBranch) && b == (
        utf8_lossy(x.short_name@),
        x.tip@,
    )
}

/// Whether `b` is the remote-tracking branch that reference `r` gives.
pub open spec fn remote_of(r: Option<RefRecord>, b: (Seq<char>, Seq<char>, Seq<u8>)) -> bool {
    r matches Some(x) && x.category == Some(RefCategory::RemoteBranch) && b == (
        remote_parts(x.short_name@).0,
        remote_parts(x.short_name@).1,
        x.tip@,
    )
}

/// Every listed branch comes from a reference of its kind, with that reference's
/// name and the commit it points to; and every readable reference of either kind is
/// listed.
pub proof fn lemma_branches_come_from_refs(refs: Seq<Option<RefRecord>>)
    ensures
        forall|k: int|
            #![trigger local_branches(refs)[k]]
            0 <= k < local_branches(refs).len() ==> exists|j: int|
                #![trigger refs[j]]
                0 <= j < refs.len() && local_of(refs[j], local_branches(refs)[k]),
        forall|k: int|
            #![trigger remote_branches(refs)[k]]
            0 <= k < remote_branches(refs).len() ==> exists|j: int|
                #![trigger refs[j]]
                0 <= j < refs.len() && remote_of(refs[j], remote_branches(refs)[k]),
        forall|j: int, b: (Seq<char>, Seq<u8>)|
            0 <= j < refs.len() && #[trigger] local_of(refs[j], b) ==> local_branches(refs).contains(b),
        forall|j: int, b: (Seq<char>, Seq<char>, Seq<u8>)|
            0 <= j < refs.len() && #[trigger] remote_of(refs[j], b) ==> remote_branches(refs).contains(b),
    decreases refs.len(),
{
    if refs.len() == 0 {
        assert(local_branches(refs).len() == 0);
        assert(remote_branches(refs).len() == 0);
    } else {
        let p = refs.drop_last();
        let n = refs.len() - 1;
        lemma_branches_come_from_refs(p);
        let pl = local_branches(p);
        let pr = remote_branches(p);
        assert forall|j: int| 0 <= j < n implies refs[j] == p[j] by {}
        assert(refs[n] == refs.last());
        assert forall|k: int|
            #![trigger local_branches(refs)[k]]
            0 <= k < local_branches(refs).len() implies exists|j: int|
                #![trigger refs[j]]
                0 <= j < refs.len() && local_of(refs[j], local_branches(refs)[k]) by {
            if k < pl.len() {
                let j = choose|j: int| #![trigger p[j]] 0 <= j < p.len() && local_of(p[j], pl[k]);
                assert(refs[j] == p[j]);
                assert(local_branches(refs)[k] == pl[k]);
            } else {
                assert(local_of(refs[n], local_branches(refs)[k]));
            }
        }
        assert forall|k: int|
            #![trigger remote_branches(refs)[k]]
            0 <= k < remote_branches(refs).len() implies exists|j: int|
                #![trigger refs[j]]
                0 <= j < refs.len() && remote_of(refs[j], remote_branches(refs)[k]) by {
            if k < pr.len() {
                let j = choose|j: int| #![trigger p[j]] 0 <= j < p.len() && remote_of(p[j], pr[k]);
                assert(refs[j] == p[j]);
                assert(remote_branches(refs)[k] == pr[k]);
            } else {
                assert(remote_of(refs[n], remote_branches(refs)[k]));
            }
        }
        assert forall|j: int, b: (Seq<char>, Seq<u8>)|
            0 <= j < refs.len() && #[trigger] local_of(refs[j], b) implies local_branches(refs).contains(b) by {
            if j < n {
                assert(local_of(p[j], b));
                let i = choose|i: int| 0 <= i < pl.len() && pl[i] == b;
                assert(local_branches(refs)[i] == b);
            } else {
                assert(local_branches(refs)[pl.len() as int] == b);
            }
        }
        assert forall|j: int, b: (Seq<char>, Seq<char>, Seq<u8>)|
            0 <= j < refs.len() && #[trigger] remote_of(refs[j], b) implies remote_branches(refs).contains(b) by {
            if j < n {
                assert(remote_of(p[j], b));
                let i = choose|i: int| 0 <= i < pr.len() && pr[i] == b;
                assert(remote_branches(refs)[i] == b);
            } else {
                assert(remote_branches(refs)[pr.len() as int] == b);
            }
        }
    }
}

/// Sorts the references into local and remote-tracking branches.
pub fn list_branches(refs: &Vec<Option<RefRecord>>) -> (listing: BranchListing)
    ensures
        listing.local@.map_values(|b: LocalBranch| local_view(b)) == local_branches(refs@),
        listing.remote@.map_values(|b: RemoteBranch| remote_view(b)) == remote_branches(refs@),
        forall|k: int|
            #![trigger listing.local@[k]]
            0 <= k < listing.local@.len() ==> exists|j: int|
                #![trigger refs@[j]]
                0 <= j < refs@.len() && local_of(refs@[j], local_view(listing.local@[k])),
        forall|k: int|
            #![trigger listing.remote@[k]]
            0 <= k < listing.remote@.len() ==> exists|j: int|
                #![trigger refs@[j]]
                0 <= j < refs@.len() && remote_of(refs@[j], remote_view(listing.remote@[k])),
{
    let mut local: Vec<LocalBranch> = Vec::new();
    let mut remote: Vec<RemoteBranch> = Vec::new();
    let mut i: usize = 0;
    assert(refs@.take(0) =~= Seq::<Option<RefRecord>>::empty());
    while i < refs.len()
        invariant
            0 <= i <= refs@.len(),
            local@.map_values(|b: LocalBranch| local_view(b)) == local_branches(refs@.take(i as int)),
            remote@.map_values(|b: RemoteBranch| remote_view(b)) == remote_branches(refs@.take(i as int)),
        decreases refs@.len() - i,
    {
        assert(refs@.take(i + 1).drop_last() =~= refs@.take(i as int));
        assert(refs@.take(i + 1).last() == refs@[i as int]);
        let ghost lv = local@;
        let ghost rv = remote@;
        match &refs[i] {
            Some(r) => match r.category {
                Some(RefCategory::LocalBranch) => {
                    let name = from_utf8_lossy(r.short_name.as_slice());
                    local.push(LocalBranch { name, tip: r.tip.clone() });
                    assert(local@.map_values(|b: LocalBranch| local_view(b)) =~= lv.map_values(
                        |b: LocalBranch| local_view(b),
                    ).push((utf8_lossy(r.short_name@), r.tip@)));
                },
                Some(RefCategory::RemoteBranch) => {
                    let (rem, branch) = split_remote_branch(r.short_name.as_slice());
                    remote.push(RemoteBranch { remote: rem, branch, tip: r.tip.clone() });
                    assert(remote@.map_values(|b: RemoteBranch| remote_view(b)) =~= rv.map_values(
                        |b: RemoteBranch| remote_view(b),
                    ).push(
                        (remote_parts(r.short_name@).0, remote_parts(r.short_name@).1, r.tip@),
                    ));
                },
                _ => {},
            },
            None => {},
        }
        i = i + 1;
    }
    assert(refs@.take(i as int) =~= refs@);
    proof {
        lemma_branches_come_from_refs(refs@);
        assert forall|k: int|
            #![trigger local@[k]]
            0 <= k < local@.len() implies exists|j: int|
                #![trigger refs@[j]]
                0 <= j < refs@.len() && local_of(refs@[j], local_view(local@[k])) by {
            assert(local_view(local@[k]) == local_branches(refs@)[k]);
        }
        assert forall|k: int|
            #![trigger remote@[k]]
            0 <= k < remote@.len() implies exists|j: int|
                #![trigger refs@[j]]
                0 <= j < refs@.len() && remote_of(refs@[j], remote_view(remote@[k])) by {
            assert(remote_view(remote@[k]) == remote_branches(refs@)[k]);
        }
    }
    BranchListing { local, remote }
}

} // verus!
