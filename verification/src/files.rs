//! Files and directories of a commit's tree: whether a path can be read as a file,
//! the nested listing of a tree, and the flat list of its files.
use vstd::prelude::*;
use vstd::string::StringExecFns;

verus! {

/// Failures while reading a repository.
#[derive(Debug, Clone, Copy, PartialEq, Eq)]
pub enum GixError {
    OpenRepo,
    ReadHead,
    ResolveRev,
    PeelCommit,
    PeelObject,
    AcquireObject,
    Lookup,
    MissingItem,
    MissingTest,
    Unimplemented,
}

/// The kind of a tree entry, as its mode gives it.
#[derive(Debug, Clone, Copy, PartialEq, Eq)]
pub enum EntryKind {
    Blob,
    BlobExecutable,
    Tree,
    Link,
    Commit,
}

/// One entry of a tree as read from the repository: its name, the hex id of the
/// object it names, its kind, and for a directory the tree it holds.
pub struct TreeEntry {
    pub name: String,
    pub oid: String,
    pub kind: EntryKind,
    pub subtree: Option<Box<TreeListing>>,
}

/// The entries of a tree, in the order the tree stores them.
pub struct TreeListing {
    pub entries: Vec<TreeEntry>,
}

/// A tree as served: files and submodules with their object ids, directories with
/// their children.
#[derive(Debug)]
pub enum Node {
    File { name: String, oid: String },
    Directory { name: String, children: Vec<Node> },
    Submodule { name: String, oid: String },
}

/// The content of a `Node`.
pub enum NodeView {
    File { name: Seq<char>, oid: Seq<char> },
    Directory { name: Seq<char>, children: Seq<NodeView> },
    Submodule { name: Seq<char>, oid: Seq<char> },
}

pub open spec fn node_view(n: Node) -> NodeView
    decreases n,
{
    match n {
        Node::File { name, oid } => NodeView::File { name: name@, oid: oid@ },
        Node::Directory { name, children } => NodeView::Directory {
            name: name@,
            children: nodes_view(children@),
        },
        Node::Submodule { name, oid } => NodeView::Submodule { name: name@, oid: oid@ },
    }
}

pub open spec fn nodes_view(v: Seq<Node>) -> Seq<NodeView>
    decreases v,
{
    if v.len() == 0 {
        Seq::<NodeView>::empty()
    } else {
        nodes_view(v.drop_last()).push(node_view(v.last()))
    }
}

/// The children that a listing's entries become: files for plain files, directories
/// for subtrees, submodules for commits; executable files and links are left out.
/// `None` where a directory entry comes without its tree.
pub open spec fn tree_nodes(entries: Seq<TreeEntry>) -> Option<Seq<NodeView>>
    decreases entries,
{
    if entries.len() == 0 {
        Some(Seq::<NodeView>::empty())
    } else {
        match tree_nodes(entries.drop_last()) {
            None => None,
            Some(prev) => {
                let e = entries.last();
                match e.kind {
                    EntryKind::Blob => Some(prev.push(NodeView::File { name: e.name@, oid: e.oid@ })),
                    EntryKind::Tree => match e.subtree {
                        Some(sub) => match tree_nodes(sub.entries@) {
                            Some(c) => Some(prev.push(NodeView::Directory { name: e.name@, children: c })),
                            None => None,
                        },
                        None => None,
                    },
                    EntryKind::Commit => Some(
                        prev.push(NodeView::Submodule { name: e.name@, oid: e.oid@ }),
                    ),
                    _ => Some(prev),
                }
            },
        }
    }
}

/// Once a prefix of the entries fails, so do all longer prefixes.
proof fn lemma_tree_nodes_fail_extends(entries: Seq<TreeEntry>, k: int)
    requires
        0 <= k <= entries.len(),
        tree_nodes(entries.take(k)) is None,
    ensures
        tree_nodes(entries) is None,
    decreases entries.len() - k,
{
    if k < entries.len() {
        assert(entries.take(k + 1).drop_last() =~= entries.take(k));
        lemma_tree_nodes_fail_extends(entries, k + 1);
    } else {
        assert(entries.take(k) =~= entries);
    }
}

proof fn lemma_nodes_view_len(v: Seq<Node>)
    ensures
        nodes_view(v).len() == v.len(),
    decreases v.len(),
{
    if v.len() > 0 {
        lemma_nodes_view_len(v.drop_last());
    }
}

/// Whether an entry is shown in a tree listing: plain files, directories and
/// submodules are; executable files and links are not.
pub open spec fn is_listed(e: TreeEntry) -> bool {
    e.kind == EntryKind::Blob || e.kind == EntryKind::Tree || e.kind == EntryKind::Commit
}

/// How many of the entries are shown in a listing.
pub open spec fn listed_count(entries: Seq<TreeEntry>) -> nat
    decreases entries.len(),
{
    if entries.len() == 0 {
        0
    } else {
        listed_count(entries.drop_last()) + if is_listed(entries.last()) {
            1nat
        } else {
            0nat
        }
    }
}

proof fn lemma_listed_count_prefix(entries: Seq<TreeEntry>, k: int)
    requires
        0 <= k < entries.len(),
    ensures
        listed_count(entries.take(k + 1)) == listed_count(entries.take(k)) + if is_listed(
            entries[k],
        ) {
            1nat
        } else {
            0nat
        },
        listed_count(entries.take(k + 1)) <= listed_count(entries),
    decreases entries.len() - k,
{
    assert(entries.take(k + 1).drop_last() =~= entries.take(k));
    assert(entries.take(k + 1).last() == entries[k]);
    if k + 1 < entries.len() {
        lemma_listed_count_prefix(entries, k + 1);
    } else {
        assert(entries.take(k + 1) =~= entries);
    }
}

/// Whether every directory entry, at every depth, comes with its tree.
pub open spec fn subtrees_present(entries: Seq<TreeEntry>) -> bool {
    forall|k: int|
        0 <= k < entries.len() && (#[trigger] entries[k]).kind == EntryKind::Tree ==> (
        entries[k].subtree matches Some(sub) && tree_nodes(sub.entries@) is Some)
}

/// The listing of a tree, entry by entry: it holds one node per shown entry, in tree
/// order. The node of the `k`-th entry stands after the nodes of the shown entries
/// before it: a file for a plain file, a submodule for a commit, and for a directory
/// a directory of the same name whose children are the listing of its own tree, so
/// that the same holds at every depth. The listing exists exactly when every
/// directory entry comes with its tree.
pub proof fn lemma_tree_listing_shape(entries: Seq<TreeEntry>)
    ensures
        tree_nodes(entries) is Some <==> subtrees_present(entries),
        tree_nodes(entries) matches Some(c) ==> {
            &&& c.len() == listed_count(entries)
            &&& forall|k: int|
                #![trigger entries[k]]
                0 <= k < entries.len() ==> {
                    let e = entries[k];
                    let i = listed_count(entries.take(k)) as int;
                    &&& e.kind == EntryKind::Blob ==> c[i] == (NodeView::File {
                        name: e.name@,
                        oid: e.oid@,
                    })
                    &&& e.kind == EntryKind::Commit ==> c[i] == (NodeView::Submodule {
                        name: e.name@,
                        oid: e.oid@,
                    })
                    &&& e.kind == EntryKind::Tree ==> (e.subtree matches Some(sub) && tree_nodes(
                        sub.entries@,
                    ) matches Some(cc) && c[i] == (NodeView::Directory {
                        name: e.name@,
                        children: cc,
                    }))
                }
        },
    decreases entries.len(),
{
    if entries.len() == 0 {
        assert(subtrees_present(entries));
    } else {
        let p = entries.drop_last();
        let x = entries.last();
        let n = entries.len() - 1;
        lemma_tree_listing_shape(p);
        assert(entries[n] == x);
        assert(p.take(n) =~= p);
        assert(entries.take(n) =~= p);
        assert forall|k: int| 0 <= k < n implies entries[k] == p[k] && entries.take(k) =~= p.take(k) by {}
        // presence
        if subtrees_present(entries) {
            assert forall|k: int|
                0 <= k < p.len() && (#[trigger] p[k]).kind == EntryKind::Tree implies (
                p[k].subtree matches Some(sub) && tree_nodes(sub.entries@) is Some) by {
                assert(entries[k] == p[k]);
            }
            assert(subtrees_present(p));
            if x.kind == EntryKind::Tree {
                assert(entries[n].kind == EntryKind::Tree);
            }
        }
        if tree_nodes(entries) is Some {
            assert(tree_nodes(p) is Some);
            assert forall|k: int|
                0 <= k < entries.len() && (#[trigger] entries[k]).kind == EntryKind::Tree implies (
                entries[k].subtree matches Some(sub) && tree_nodes(sub.entries@) is Some) by {
                if k < n {
                    assert(entries[k] == p[k]);
                }
            }
        }
        if tree_nodes(entries) is Some {
            let c = tree_nodes(entries)->0;
            let prev = tree_nodes(p)->0;
            assert(prev.len() == listed_count(p));
            assert(c.len() == listed_count(entries));
            assert forall|k: int|
                #![trigger entries[k]]
                0 <= k < entries.len() implies {
                    let e = entries[k];
                    let i = listed_count(entries.take(k)) as int;
                    &&& e.kind == EntryKind::Blob ==> c[i] == (NodeView::File {
                        name: e.name@,
                        oid: e.oid@,
                    })
                    &&& e.kind == EntryKind::Commit ==> c[i] == (NodeView::Submodule {
                        name: e.name@,
                        oid: e.oid@,
                    })
                    &&& e.kind == EntryKind::Tree ==> (e.subtree matches Some(sub) && tree_nodes(
                        sub.entries@,
                    ) matches Some(cc) && c[i] == (NodeView::Directory {
                        name: e.name@,
                        children: cc,
                    }))
                } by {
                if k < n {
                    assert(entries[k] == p[k]);
                    assert(entries.take(k) =~= p.take(k));
                    lemma_listed_count_prefix(p, k);
                    let i = listed_count(p.take(k)) as int;
                    if is_listed(p[k]) {
                        assert(i < prev.len());
                        assert(c[i] == prev[i]);
                    }
                }
            }
        }
    }
}

/// Builds the served listing of a tree under the given name.
pub fn build_tree(listing: &TreeListing, name: &str) -> (r: Result<Node, GixError>)
    ensures
        r is Ok <==> (tree_nodes(listing.entries@) is Some),
        r matches Ok(n) ==> node_view(n) == (NodeView::Directory {
            name: name@,
            children: tree_nodes(listing.entries@)->0,
        }),
        r matches Err(e) ==> e == GixError::MissingItem,
        r is Ok <==> subtrees_present(listing.entries@),
        r matches Ok(n) ==> (n matches Node::Directory { children, .. } && children@.len()
            == listed_count(listing.entries@)),
    decreases listing,
{
    proof {
        lemma_tree_listing_shape(listing.entries@);
    }
    let mut children: Vec<Node> = Vec::new();
    let mut i: usize = 0;
    assert(listing.entries@.take(0) =~= Seq::<TreeEntry>::empty());
    while i < listing.entries.len()
        invariant
            0 <= i <= listing.entries@.len(),
            tree_nodes(listing.entries@.take(i as int)) == Some(nodes_view(children@)),
        decreases listing.entries@.len() - i,
    {
        let e = &listing.entries[i];
        let ghost before = children@;
        assert(listing.entries@.take(i + 1).drop_last() =~= listing.entries@.take(i as int));
        assert(listing.entries@.take(i + 1).last() == *e);
        match e.kind {
            EntryKind::Blob => {
                children.push(Node::File { name: e.name.clone(), oid: e.oid.clone() });
                assert(children@.drop_last() =~= before);
                assert(nodes_view(children@) == nodes_view(before).push(node_view(children@.last())));
                assert(node_view(children@.last()) == (NodeView::File { name: e.name@, oid: e.oid@ }));
                assert(tree_nodes(listing.entries@.take(i + 1)) == Some(nodes_view(before).push(NodeView::File { name: e.name@, oid: e.oid@ })));
            },
            EntryKind::Tree => match &e.subtree {
                Some(sub) => {
                    assert(decreases_to!(listing => listing.entries));
                    assert(decreases_to!(listing.entries => listing.entries@));
                    assert(decreases_to!(listing.entries@ => listing.entries@[i as int]));
                    match build_tree(sub, e.name.as_str()) {
                        Ok(node) => {
                            children.push(node);
                            assert(children@.drop_last() =~= before);
                        },
                        Err(err) => {
                            proof {
                                lemma_tree_nodes_fail_extends(listing.entries@, i + 1);
                            }
                            return Err(err);
                        },
                    }
                },
                None => {
                    proof {
                        lemma_tree_nodes_fail_extends(listing.entries@, i + 1);
                    }
                    return Err(GixError::MissingItem);
                },
            },
            EntryKind::Commit => {
                children.push(Node::Submodule { name: e.name.clone(), oid: e.oid.clone() });
                assert(children@.drop_last() =~= before);
            },
            _ => {},
        }
        i = i + 1;
    }
    assert(listing.entries@.take(i as int) =~= listing.entries@);
    proof {
        lemma_nodes_view_len(children@);
    }
    Ok(Node::Directory { name: name.to_string(), children })
}

/// A file of a tree, with its path from the root and the hex id of its blob.
pub struct BlobEntry {
    pub path: String,
    pub oid: String,
}

pub open spec fn blobs_view(v: Seq<BlobEntry>) -> Seq<(Seq<char>, Seq<char>)> {
    v.map_values(|b: BlobEntry| (b.path@, b.oid@))
}

/// The path of an entry named `name` under the directory path `prefix`.
pub open spec fn entry_path(prefix: Seq<char>, name: Seq<char>) -> Seq<char> {
    if prefix.len() == 0 {
        name
    } else {
        prefix + "/"@ + name
    }
}

/// The plain files under a listing, depth first in tree order, with their paths;
/// executable files, links and submodules are left out. `None` where a directory
/// entry comes without its tree.
pub open spec fn tree_blobs(entries: Seq<TreeEntry>, prefix: Seq<char>) -> Option<
    Seq<(Seq<char>, Seq<char>)>,
>
    decreases entries,
{
    if entries.len() == 0 {
        Some(Seq::<(Seq<char>, Seq<char>)>::empty())
    } else {
        match tree_blobs(entries.drop_last(), prefix) {
            None => None,
            Some(prev) => {
                let e = entries.last();
                let path = entry_path(prefix, e.name@);
                match e.kind {
                    EntryKind::Blob => Some(prev.push((path, e.oid@))),
                    EntryKind::Tree => match e.subtree {
                        Some(sub) => match tree_blobs(sub.entries@, path) {
                            Some(c) => Some(prev + c),
                            None => None,
                        },
                        None => None,
                    },
                    _ => Some(prev),
                }
            },
        }
    }
}

proof fn lemma_tree_blobs_fail_extends(entries: Seq<TreeEntry>, prefix: Seq<char>, k: int)
    requires
        0 <= k <= entries.len(),
        tree_blobs(entries.take(k), prefix) is None,
    ensures
        tree_blobs(entries, prefix) is None,
    decreases entries.len() - k,
{
    if k < entries.len() {
        assert(entries.take(k + 1).drop_last() =~= entries.take(k));
        lemma_tree_blobs_fail_extends(entries, prefix, k + 1);
    } else {
        assert(entries.take(k) =~= entries);
    }
}

/// Appends the plain files under a listing to `out`, with paths under `prefix`.
pub fn collect_blobs(listing: &TreeListing, prefix: &str, out: &mut Vec<BlobEntry>) -> (r: Result<
    (),
    GixError,
>)
    ensures
        r is Ok <==> (tree_blobs(listing.entries@, prefix@) is Some),
        r is Ok ==> blobs_view(final(out)@) == blobs_view(old(out)@) + tree_blobs(
            listing.entries@,
            prefix@,
        )->0,
        r matches Err(e) ==> e == GixError::MissingItem,
    decreases listing,
{
    let ghost start = out@;
    let mut i: usize = 0;
    assert(listing.entries@.take(0) =~= Seq::<TreeEntry>::empty());
    assert(blobs_view(out@) =~= blobs_view(start) + Seq::<(Seq<char>, Seq<char>)>::empty());
    while i < listing.entries.len()
        invariant
            0 <= i <= listing.entries@.len(),
            tree_blobs(listing.entries@.take(i as int), prefix@) is Some,
            blobs_view(out@) == blobs_view(start) + tree_blobs(
                listing.entries@.take(i as int),
                prefix@,
            )->0,
        decreases listing.entries@.len() - i,
    {
        let e = &listing.entries[i];
        let ghost before = out@;
        let ghost prev = tree_blobs(listing.entries@.take(i as int), prefix@)->0;
        assert(listing.entries@.take(i + 1).drop_last() =~= listing.entries@.take(i as int));
        assert(listing.entries@.take(i + 1).last() == *e);
        let path = if prefix.is_empty() {
            e.name.clone()
        } else {
            let mut p = prefix.to_string();
            p.append("/");
            p.append(e.name.as_str());
            p
        };
        assert(path@ == entry_path(prefix@, e.name@));
        match e.kind {
            EntryKind::Blob => {
                out.push(BlobEntry { path, oid: e.oid.clone() });
                assert(blobs_view(out@) =~= blobs_view(before).push((entry_path(prefix@, e.name@), e.oid@)));
                assert(blobs_view(out@) =~= blobs_view(start) + prev.push((entry_path(prefix@, e.name@), e.oid@)));
            },
            EntryKind::Tree => match &e.subtree {
                Some(sub) => {
                    assert(decreases_to!(listing => listing.entries));
                    assert(decreases_to!(listing.entries => listing.entries@));
                    assert(decreases_to!(listing.entries@ => listing.entries@[i as int]));
                    match collect_blobs(sub, path.as_str(), out) {
                        Ok(()) => {
                            assert(blobs_view(out@) =~= blobs_view(start) + (prev + tree_blobs(sub.entries@, path@)->0));
                        },
                        Err(err) => {
                            proof {
                                lemma_tree_blobs_fail_extends(listing.entries@, prefix@, i + 1);
                            }
                            return Err(err);
                        },
                    }
                },
                None => {
                    proof {
                        lemma_tree_blobs_fail_extends(listing.entries@, prefix@, i + 1);
                    }
                    return Err(GixError::MissingItem);
                },
            },
            _ => {},
        }
        i = i + 1;
    }
    assert(listing.entries@.take(i as int) =~= listing.entries@);
    Ok(())
}

/// Why a path of a commit cannot be read as a file, given the kind of the entry
/// found there (`None`: nothing there).
pub open spec fn unreadable_reason(kind: Option<EntryKind>, path: Seq<char>, commit: Seq<char>) -> Option<
    Seq<char>,
> {
    match kind {
        None => Some("'"@ + path + "' does not exist at commit "@ + commit),
        Some(EntryKind::Tree) => Some("'"@ + path + "' is a directory, not a file"@),
        Some(EntryKind::Link) => Some("'"@ + path + "' is a symbolic link"@),
        Some(EntryKind::Commit) => Some("'"@ + path + "' is a submodule"@),
        _ => None,
    }
}

/// Accepts a path for reading only where a plain or executable file stands there.
pub fn check_readable(kind: Option<EntryKind>, path: &str, commit: &str) -> (r: Result<(), String>)
    ensures
        r is Ok <==> (unreadable_reason(kind, path@, commit@) is None),
        r matches Err(m) ==> Some(m@) == unreadable_reason(kind, path@, commit@),
{
    let (lead, tail) = match kind {
        None => ("' does not exist at commit ", true),
        Some(EntryKind::Tree) => ("' is a directory, not a file", false),
        Some(EntryKind::Link) => ("' is a symbolic link", false),
        Some(EntryKind::Commit) => ("' is a submodule", false),
        _ => {
            return Ok(());
        },
    };
    let mut m = "'".to_string();
    m.append(path);
    m.append(lead);
    if tail {
        m.append(commit);
    }
    Err(m)
}

/// Whether a plain or executable file stands at a path.
pub fn is_regular_file(kind: Option<EntryKind>) -> (b: bool)
    ensures
        b == (kind == Some(EntryKind::Blob) || kind == Some(EntryKind::BlobExecutable)),
{
    match kind {
        Some(EntryKind::Blob) => true,
        Some(EntryKind::BlobExecutable) => true,
        _ => false,
    }
}

} // verus!
