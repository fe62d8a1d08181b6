//! An in-memory model of the build's filesystem: a finite map from
//! absolute paths (segment sequences) to nodes (directories or files with
//! byte contents). The pipeline plans and checks all its file effects on
//! this model; the embedding program replays them on the real disk.
//!
//! The representation is an append-only entry list: a later entry for the
//! same path shadows an earlier one, so the abstract value is the map
//! taken with last-entry-wins.

use vstd::prelude::*;

use crate::error::{BuildError, BuildResult, FileOperation};
use crate::path::FsPath;

verus! {

/// Mathematical value of an [`FsNode`].
pub enum FsNodeV {
    Dir,
    File(Seq<u8>),
}

/// A node of the filesystem model: a directory or a file with contents.
#[derive(Debug)]
pub enum FsNode {
    Dir,
    File(Vec<u8>),
}

impl View for FsNode {
    type V = FsNodeV;

    open spec fn view(&self) -> FsNodeV {
        match self {
            FsNode::Dir => FsNodeV::Dir,
            FsNode::File(bytes) => FsNodeV::File(bytes@),
        }
    }
}

impl FsNode {
    /// A structural copy.
    pub fn clone_node(&self) -> (r: FsNode)
        ensures
            r@ == self@,
    {
        match self {
            FsNode::Dir => FsNode::Dir,
            FsNode::File(bytes) => {
                let b = bytes.clone();
                proof {
                    assert(b@ =~= bytes@);
                }
                FsNode::File(b)
            },
        }
    }

    /// Whether the node is a directory.
    pub fn is_dir(&self) -> (r: bool)
        ensures
            r == (self@ is Dir),
    {
        match self {
            FsNode::Dir => true,
            FsNode::File(_) => false,
        }
    }
}

/// One path-to-node binding of the model.
pub struct FsEntry {
    pub path: FsPath,
    pub node: FsNode,
}

/// The abstract value of an entry list: later entries win.
pub open spec fn map_of(s: Seq<FsEntry>) -> Map<Seq<Seq<char>>, FsNodeV>
    decreases s.len(),
{
    if s.len() == 0 {
        Map::empty()
    } else {
        map_of(s.drop_last()).insert(s.last().path@.segments, s.last().node@)
    }
}

/// The filesystem model.
pub struct FsTree {
    pub entries: Vec<FsEntry>,
}

impl View for FsTree {
    type V = Map<Seq<Seq<char>>, FsNodeV>;

    open spec fn view(&self) -> Map<Seq<Seq<char>>, FsNodeV> {
        map_of(self.entries@)
    }
}

/// A key is absent from the abstract map exactly when no entry binds it.
pub proof fn lemma_map_of_no_match(s: Seq<FsEntry>, k: Seq<Seq<char>>)
    requires
        forall|j: int| 0 <= j < s.len() ==> s[j].path@.segments != k,
    ensures
        !map_of(s).dom().contains(k),
    decreases s.len(),
{
    if s.len() > 0 {
        lemma_map_of_no_match(s.drop_last(), k);
    }
}

/// The abstract map binds a key to the node of the last entry for it.
pub proof fn lemma_map_of_match_at(s: Seq<FsEntry>, k: Seq<Seq<char>>, i: int)
    requires
        0 <= i < s.len(),
        s[i].path@.segments == k,
        forall|j: int| i < j < s.len() ==> s[j].path@.segments != k,
    ensures
        map_of(s).dom().contains(k),
        map_of(s)[k] == s[i].node@,
    decreases s.len(),
{
    if i == s.len() - 1 {
    } else {
        lemma_map_of_match_at(s.drop_last(), k, i);
    }
}

/// Appending one entry inserts its binding into the abstract map.
pub proof fn lemma_map_of_push(s: Seq<FsEntry>, e: FsEntry)
    ensures
        map_of(s.push(e)) == map_of(s).insert(e.path@.segments, e.node@),
{
    assert(s.push(e).drop_last() =~= s);
    assert(s.push(e).last() == e);
}

/// Cause text recorded when a file blocks directory creation.
pub open spec fn mkdir_conflict_msg() -> Seq<char> {
    "a file stands where a directory is needed"@
}

/// The map after creating the first `i` components of `p` as
/// directories: every absent proper-or-full prefix of length at most `i`
/// is bound to a directory, and nothing else changes.
pub open spec fn spec_mkdir_upto(
    m: Map<Seq<Seq<char>>, FsNodeV>,
    p: Seq<Seq<char>>,
    i: int,
) -> Map<Seq<Seq<char>>, FsNodeV> {
    m.union_prefer_right(
        Map::new(
            |q: Seq<Seq<char>>|
                1 <= q.len() <= i && q == p.take(q.len() as int) && !m.dom().contains(q),
            |q: Seq<Seq<char>>| FsNodeV::Dir,
        ),
    )
}

/// The map after creating the directory `p` and all its ancestors.
pub open spec fn spec_mkdir_all(m: Map<Seq<Seq<char>>, FsNodeV>, p: Seq<Seq<char>>) -> Map<
    Seq<Seq<char>>,
    FsNodeV,
> {
    spec_mkdir_upto(m, p, p.len() as int)
}

/// Creating zero components changes nothing.
pub proof fn lemma_mkdir_upto_zero(m: Map<Seq<Seq<char>>, FsNodeV>, p: Seq<Seq<char>>)
    ensures
        spec_mkdir_upto(m, p, 0) == m,
{
    assert(spec_mkdir_upto(m, p, 0) =~= m);
}

/// Creating one more component either changes nothing (it already
/// exists) or adds exactly one directory binding.
pub proof fn lemma_mkdir_upto_step(m: Map<Seq<Seq<char>>, FsNodeV>, p: Seq<Seq<char>>, i: int)
    requires
        1 <= i <= p.len(),
    ensures
        spec_mkdir_upto(m, p, i - 1).dom().contains(p.take(i)) <==> m.dom().contains(p.take(i)),
        m.dom().contains(p.take(i)) ==> spec_mkdir_upto(m, p, i) == spec_mkdir_upto(m, p, i - 1),
        !m.dom().contains(p.take(i)) ==> spec_mkdir_upto(m, p, i) == spec_mkdir_upto(
            m,
            p,
            i - 1,
        ).insert(p.take(i), FsNodeV::Dir),
{
    assert(p.take(i).len() == i);
    if m.dom().contains(p.take(i)) {
        assert(spec_mkdir_upto(m, p, i) =~= spec_mkdir_upto(m, p, i - 1));
    } else {
        assert(spec_mkdir_upto(m, p, i) =~= spec_mkdir_upto(m, p, i - 1).insert(
            p.take(i),
            FsNodeV::Dir,
        ));
    }
}

/// Law: directory creation is idempotent. When every component of the
/// tree already exists, creating it again is success with no filesystem
/// change at all.
pub proof fn lemma_mkdir_all_idempotent(m: Map<Seq<Seq<char>>, FsNodeV>, p: Seq<Seq<char>>)
    requires
        forall|i: int| 1 <= i <= p.len() ==> m.dom().contains(#[trigger] p.take(i)),
    ensures
        spec_mkdir_all(m, p) == m,
{
    assert forall|q: Seq<Seq<char>>|
        !(1 <= q.len() <= p.len() && q == p.take(q.len() as int) && !m.dom().contains(q)) by {
        if 1 <= q.len() <= p.len() && q == p.take(q.len() as int) {
            assert(m.dom().contains(p.take(q.len() as int)));
        }
    }
    assert(spec_mkdir_all(m, p) =~= m);
}

/// Law: creating the same tree twice is the same as creating it once.
pub proof fn lemma_mkdir_all_twice(m: Map<Seq<Seq<char>>, FsNodeV>, p: Seq<Seq<char>>)
    ensures
        spec_mkdir_all(spec_mkdir_all(m, p), p) == spec_mkdir_all(m, p),
{
    assert forall|i: int| 1 <= i <= p.len() implies spec_mkdir_all(m, p).dom().contains(
        #[trigger] p.take(i),
    ) by {
        assert(p.take(i).len() == i);
        if !m.dom().contains(p.take(i)) {
            assert(1 <= p.take(i).len() <= p.len() && p.take(i) == p.take(p.take(i).len() as int)
                && !m.dom().contains(p.take(i)));
        }
    }
    lemma_mkdir_all_idempotent(spec_mkdir_all(m, p), p);
}

/// Cause text recorded when the source of a copy does not exist.
pub open spec fn copy_missing_msg() -> Seq<char> {
    "the source of the copy does not exist"@
}

/// The bindings a recursive copy adds: for every node of the subtree at
/// `src`, the same node at the corresponding path under `dst`.
pub open spec fn spec_subtree_copy(
    m: Map<Seq<Seq<char>>, FsNodeV>,
    src: Seq<Seq<char>>,
    dst: Seq<Seq<char>>,
) -> Map<Seq<Seq<char>>, FsNodeV> {
    Map::new(
        |q: Seq<Seq<char>>|
            dst.is_prefix_of(q) && m.dom().contains(src + q.skip(dst.len() as int)),
        |q: Seq<Seq<char>>| m[src + q.skip(dst.len() as int)],
    )
}

/// The map after recursively copying the subtree at `src` onto `dst`:
/// destination files are overwritten, destination directories are
/// merged, everything outside the destination subtree is unchanged.
pub open spec fn spec_copy_tree(
    m: Map<Seq<Seq<char>>, FsNodeV>,
    src: Seq<Seq<char>>,
    dst: Seq<Seq<char>>,
) -> Map<Seq<Seq<char>>, FsNodeV> {
    m.union_prefer_right(spec_subtree_copy(m, src, dst))
}

/// A path with prefix `a` that is also a prefix boundary of `a + b`
/// forces one of `a`, `b` to be a prefix of the other.
pub proof fn lemma_prefix_of_concat(a: Seq<Seq<char>>, b: Seq<Seq<char>>, rel: Seq<Seq<char>>)
    requires
        a.is_prefix_of(b + rel),
    ensures
        a.is_prefix_of(b) || b.is_prefix_of(a),
{
    if a.len() <= b.len() {
        assert(a =~= b.subrange(0, a.len() as int));
    } else {
        assert(b =~= a.subrange(0, b.len() as int));
    }
}

/// Splitting a concatenation back apart.
pub proof fn lemma_concat_parts(a: Seq<Seq<char>>, b: Seq<Seq<char>>)
    ensures
        a.is_prefix_of(a + b),
        (a + b).skip(a.len() as int) == b,
{
    assert(a =~= (a + b).subrange(0, a.len() as int));
    assert((a + b).skip(a.len() as int) =~= b);
}

/// A path is its prefix plus the rest.
pub proof fn lemma_prefix_rejoin(a: Seq<Seq<char>>, q: Seq<Seq<char>>)
    requires
        a.is_prefix_of(q),
    ensures
        a + q.skip(a.len() as int) == q,
{
    assert(a + q.skip(a.len() as int) =~= q);
}

/// Inserting one binding into the source map inserts (or leaves alone)
/// exactly one binding of the copied subtree.
pub proof fn lemma_subtree_copy_insert(
    m: Map<Seq<Seq<char>>, FsNodeV>,
    src: Seq<Seq<char>>,
    dst: Seq<Seq<char>>,
    k: Seq<Seq<char>>,
    v: FsNodeV,
)
    ensures
        src.is_prefix_of(k) ==> spec_subtree_copy(m.insert(k, v), src, dst) == spec_subtree_copy(
            m,
            src,
            dst,
        ).insert(dst + k.skip(src.len() as int), v),
        !src.is_prefix_of(k) ==> spec_subtree_copy(m.insert(k, v), src, dst) == spec_subtree_copy(
            m,
            src,
            dst,
        ),
{
    if src.is_prefix_of(k) {
        let k2 = dst + k.skip(src.len() as int);
        lemma_concat_parts(dst, k.skip(src.len() as int));
        lemma_prefix_rejoin(src, k);
        assert forall|q: Seq<Seq<char>>| dst.is_prefix_of(q) implies (src + q.skip(
            dst.len() as int,
        ) == k <==> q == k2) by {
            lemma_prefix_rejoin(dst, q);
            if src + q.skip(dst.len() as int) == k {
                lemma_concat_parts(src, q.skip(dst.len() as int));
                assert(k.skip(src.len() as int) == q.skip(dst.len() as int));
                assert(k2 == dst + q.skip(dst.len() as int));
            }
            if q == k2 {
                lemma_concat_parts(dst, k.skip(src.len() as int));
                assert(q.skip(dst.len() as int) == k.skip(src.len() as int));
            }
        }
        assert(spec_subtree_copy(m.insert(k, v), src, dst) =~= spec_subtree_copy(
            m,
            src,
            dst,
        ).insert(k2, v));
    } else {
        assert forall|q: Seq<Seq<char>>| dst.is_prefix_of(q) implies src + q.skip(dst.len() as int)
            != k by {
            if src + q.skip(dst.len() as int) == k {
                lemma_concat_parts(src, q.skip(dst.len() as int));
            }
        }
        assert(spec_subtree_copy(m.insert(k, v), src, dst) =~= spec_subtree_copy(m, src, dst));
    }
}

/// Law: a recursive copy is content-preserving. After copying the
/// subtree at `src` onto a destination that does not overlap it, source
/// and destination hold, node for node, the very same contents.
pub proof fn lemma_copy_tree_content_preserving(
    m: Map<Seq<Seq<char>>, FsNodeV>,
    src: Seq<Seq<char>>,
    dst: Seq<Seq<char>>,
    rel: Seq<Seq<char>>,
)
    requires
        !src.is_prefix_of(dst),
        !dst.is_prefix_of(src),
        m.dom().contains(src + rel),
    ensures
        spec_copy_tree(m, src, dst).dom().contains(src + rel),
        spec_copy_tree(m, src, dst).dom().contains(dst + rel),
        spec_copy_tree(m, src, dst)[src + rel] == m[src + rel],
        spec_copy_tree(m, src, dst)[dst + rel] == spec_copy_tree(m, src, dst)[src + rel],
{
    if dst.is_prefix_of(src + rel) {
        lemma_prefix_of_concat(dst, src, rel);
    }
    lemma_concat_parts(dst, rel);
}

/// The map with the whole subtree at `p` taken out.
pub open spec fn spec_remove_subtree(
    m: Map<Seq<Seq<char>>, FsNodeV>,
    p: Seq<Seq<char>>,
) -> Map<Seq<Seq<char>>, FsNodeV> {
    m.remove_keys(Set::new(|q: Seq<Seq<char>>| p.is_prefix_of(q)))
}

/// Inserting one binding before a removal either vanishes (the key lies
/// in the removed subtree) or commutes with it.
pub proof fn lemma_remove_subtree_insert(
    m: Map<Seq<Seq<char>>, FsNodeV>,
    p: Seq<Seq<char>>,
    k: Seq<Seq<char>>,
    v: FsNodeV,
)
    ensures
        p.is_prefix_of(k) ==> spec_remove_subtree(m.insert(k, v), p) == spec_remove_subtree(m, p),
        !p.is_prefix_of(k) ==> spec_remove_subtree(m.insert(k, v), p) == spec_remove_subtree(
            m,
            p,
        ).insert(k, v),
{
    if p.is_prefix_of(k) {
        assert(spec_remove_subtree(m.insert(k, v), p) =~= spec_remove_subtree(m, p));
    } else {
        assert(spec_remove_subtree(m.insert(k, v), p) =~= spec_remove_subtree(m, p).insert(k, v));
    }
}

/// Law: removal is idempotent. Removing a subtree twice is the same as
/// removing it once, and removing an absent target is success with no
/// change at all.
pub proof fn lemma_remove_subtree_idempotent(m: Map<Seq<Seq<char>>, FsNodeV>, p: Seq<Seq<char>>)
    ensures
        spec_remove_subtree(spec_remove_subtree(m, p), p) == spec_remove_subtree(m, p),
        (forall|q: Seq<Seq<char>>|
            m.dom().contains(q) ==> !(#[trigger] p.is_prefix_of(q))) ==> spec_remove_subtree(m, p)
            == m,
{
    assert(spec_remove_subtree(spec_remove_subtree(m, p), p) =~= spec_remove_subtree(m, p));
    if forall|q: Seq<Seq<char>>| m.dom().contains(q) ==> !(#[trigger] p.is_prefix_of(q)) {
        assert(spec_remove_subtree(m, p) =~= m);
    }
}

impl FsTree {
    /// The empty model.
    pub fn new() -> (r: FsTree)
        ensures
            r@ == Map::<Seq<Seq<char>>, FsNodeV>::empty(),
    {
        FsTree { entries: Vec::new() }
    }

    /// The node stored at a path, if any. Only the path's segments are
    /// consulted: the model is rooted, so every stored path is read as
    /// absolute.
    pub fn node_at(&self, p: &FsPath) -> (r: Option<FsNode>)
        ensures
            r is Some <==> self@.dom().contains(p@.segments),
            r is Some ==> r->0@ == self@[p@.segments],
    {
        let n = self.entries.len();
        let mut i: usize = n;
        while i > 0
            invariant
                i <= n,
                n == self.entries.len(),
                forall|j: int| i <= j < n ==> self.entries@[j].path@.segments != p@.segments,
            decreases i,
        {
            i -= 1;
            if self.entries[i].path.segments_eq(p) {
                proof {
                    lemma_map_of_match_at(self.entries@, p@.segments, i as int);
                }
                return Some(self.entries[i].node.clone_node());
            }
        }
        proof {
            lemma_map_of_no_match(self.entries@, p@.segments);
        }
        None
    }

    /// Whether any node stands at the path.
    pub fn contains(&self, p: &FsPath) -> (r: bool)
        ensures
            r == self@.dom().contains(p@.segments),
    {
        self.node_at(p).is_some()
    }

    /// Whether a directory stands at the path.
    pub fn is_dir_at(&self, p: &FsPath) -> (r: bool)
        ensures
            r == (self@.dom().contains(p@.segments) && self@[p@.segments] is Dir),
    {
        match self.node_at(p) {
            Some(n) => n.is_dir(),
            None => false,
        }
    }

    /// Whether a file stands at the path.
    pub fn is_file_at(&self, p: &FsPath) -> (r: bool)
        ensures
            r == (self@.dom().contains(p@.segments) && self@[p@.segments] is File),
    {
        match self.node_at(p) {
            Some(n) => !n.is_dir(),
            None => false,
        }
    }

    /// Creates a directory and every missing ancestor of it, as one
    /// idempotent operation: components that already exist as directories
    /// are left alone, and only a file standing where a directory is
    /// needed is an error.
    pub fn mkdir_all(&mut self, p: &FsPath) -> (res: BuildResult<()>)
        ensures
            res is Ok <==> (forall|i: int|
                1 <= i <= p@.segments.len() ==> !(old(self)@.dom().contains(
                    #[trigger] p@.segments.take(i),
                ) && old(self)@[p@.segments.take(i)] is File)),
            res is Ok ==> final(self)@ == spec_mkdir_all(old(self)@, p@.segments),
            res is Err ==> final(self)@ == old(self)@ && (res->Err_0 matches
                BuildError::FileOperationError { operation, path, source_path, cause }
                && operation == FileOperation::MkDir && path@ == crate::path::spec_render(p@)
                && source_path is None && cause@ == mkdir_conflict_msg()),
    {
        let len = p.segments.len();
        let mut i: usize = 0;
        while i < len
            invariant
                i <= len,
                len == p@.segments.len(),
                forall|k: int|
                    1 <= k <= i ==> !(self@.dom().contains(#[trigger] p@.segments.take(k))
                        && self@[p@.segments.take(k)] is File),
            decreases len - i,
        {
            let prefix = p.truncated(i + 1);
            if self.is_file_at(&prefix) {
                return Err(
                    BuildError::FileOperationError {
                        operation: FileOperation::MkDir,
                        path: p.render(),
                        source_path: None,
                        cause: String::from_str("a file stands where a directory is needed"),
                    },
                );
            }
            i += 1;
        }
        let ghost m0 = self@;
        proof {
            lemma_mkdir_upto_zero(m0, p@.segments);
        }
        let mut i: usize = 0;
        while i < len
            invariant
                i <= len,
                len == p@.segments.len(),
                self@ == spec_mkdir_upto(m0, p@.segments, i as int),
            decreases len - i,
        {
            let prefix = p.truncated(i + 1);
            proof {
                lemma_mkdir_upto_step(m0, p@.segments, i + 1 as int);
            }
            if !self.contains(&prefix) {
                self.set_node(&prefix, FsNode::Dir);
            }
            i += 1;
        }
        proof {
            assert(forall|k: int|
                1 <= k <= p@.segments.len() ==> !(m0.dom().contains(#[trigger] p@.segments.take(k))
                    && m0[p@.segments.take(k)] is File));
        }
        Ok(())
    }

    /// Recursively copies the subtree at `src` onto `dst`. Files already
    /// under the destination are overwritten, directories are merged;
    /// everything else is left alone. The two subtrees must not overlap.
    pub fn copy_tree(&mut self, src: &FsPath, dst: &FsPath) -> (res: BuildResult<()>)
        requires
            !src@.segments.is_prefix_of(dst@.segments),
            !dst@.segments.is_prefix_of(src@.segments),
        ensures
            res is Ok <==> old(self)@.dom().contains(src@.segments),
            res is Ok ==> final(self)@ == spec_copy_tree(
                old(self)@,
                src@.segments,
                dst@.segments,
            ),
            res is Err ==> final(self)@ == old(self)@ && (res->Err_0 matches
                BuildError::FileOperationError { operation, path, source_path, cause }
                && operation == FileOperation::CopyDir && path@ == crate::path::spec_render(dst@)
                && (source_path matches Some(sp) && sp@ == crate::path::spec_render(src@))
                && cause@ == copy_missing_msg()),
    {
        if !self.contains(src) {
            return Err(
                BuildError::FileOperationError {
                    operation: FileOperation::CopyDir,
                    path: dst.render(),
                    source_path: Some(src.render()),
                    cause: String::from_str("the source of the copy does not exist"),
                },
            );
        }
        let ghost m0 = self@;
        let ghost s0 = self.entries@;
        let n = self.entries.len();
        let mut i: usize = 0;
        while i < n
            invariant
                i <= n,
                n <= self.entries.len(),
                self.entries@.take(n as int) == s0,
                s0.len() == n,
                !src@.segments.is_prefix_of(dst@.segments),
                !dst@.segments.is_prefix_of(src@.segments),
                self@ == m0.union_prefer_right(
                    spec_subtree_copy(map_of(s0.take(i as int)), src@.segments, dst@.segments),
                ),
            decreases n - i,
        {
            let ghost mi = map_of(s0.take(i as int));
            proof {
                assert(s0.take(i + 1 as int) =~= s0.take(i as int).push(s0[i as int]));
                lemma_map_of_push(s0.take(i as int), s0[i as int]);
                lemma_subtree_copy_insert(
                    mi,
                    src@.segments,
                    dst@.segments,
                    s0[i as int].path@.segments,
                    s0[i as int].node@,
                );
                assert(self.entries@[i as int] == s0[i as int]);
            }
            if src.segments_prefix_of(&self.entries[i].path) {
                let suffix = self.entries[i].path.skipped(src.segments.len());
                let new_path = dst.join_rel(&suffix);
                let node = self.entries[i].node.clone_node();
                let ghost before = self.entries@;
                self.entries.push(FsEntry { path: new_path, node });
                proof {
                    lemma_map_of_push(before, self.entries@.last());
                    assert(before.take(n as int) =~= s0);
                    assert(self.entries@.take(n as int) =~= s0);
                    assert(self@ =~= m0.union_prefer_right(
                        spec_subtree_copy(
                            map_of(s0.take(i + 1 as int)),
                            src@.segments,
                            dst@.segments,
                        ),
                    ));
                }
            } else {
                proof {
                    assert(self@ =~= m0.union_prefer_right(
                        spec_subtree_copy(
                            map_of(s0.take(i + 1 as int)),
                            src@.segments,
                            dst@.segments,
                        ),
                    ));
                }
            }
            i += 1;
        }
        proof {
            assert(s0.take(n as int) =~= s0);
        }
        Ok(())
    }

    /// Removes the node at a path together with everything below it.
    /// Removal is idempotent cleanup: a missing target is success, and
    /// the model is unchanged.
    pub fn remove(&mut self, p: &FsPath)
        ensures
            final(self)@ == spec_remove_subtree(old(self)@, p@.segments),
    {
        let mut kept: Vec<FsEntry> = Vec::new();
        let mut i: usize = 0;
        let n = self.entries.len();
        while i < n
            invariant
                i <= n,
                n == self.entries.len(),
                map_of(kept@) == spec_remove_subtree(
                    map_of(self.entries@.take(i as int)),
                    p@.segments,
                ),
            decreases n - i,
        {
            let ghost mi = map_of(self.entries@.take(i as int));
            proof {
                assert(self.entries@.take(i + 1 as int) =~= self.entries@.take(i as int).push(
                    self.entries@[i as int],
                ));
                lemma_map_of_push(self.entries@.take(i as int), self.entries@[i as int]);
                lemma_remove_subtree_insert(
                    mi,
                    p@.segments,
                    self.entries@[i as int].path@.segments,
                    self.entries@[i as int].node@,
                );
            }
            if !p.segments_prefix_of(&self.entries[i].path) {
                let e = FsEntry {
                    path: self.entries[i].path.clone_path(),
                    node: self.entries[i].node.clone_node(),
                };
                let ghost before = kept@;
                kept.push(e);
                proof {
                    lemma_map_of_push(before, e);
                }
            }
            i += 1;
        }
        proof {
            assert(self.entries@.take(n as int) =~= self.entries@);
        }
        self.entries = kept;
    }

    /// Moves the subtree at `src` onto `dst`: a recursive copy followed
    /// by removal of the source. The two subtrees must not overlap.
    pub fn move_tree(&mut self, src: &FsPath, dst: &FsPath) -> (res: BuildResult<()>)
        requires
            !src@.segments.is_prefix_of(dst@.segments),
            !dst@.segments.is_prefix_of(src@.segments),
        ensures
            res is Ok <==> old(self)@.dom().contains(src@.segments),
            res is Ok ==> final(self)@ == spec_remove_subtree(
                spec_copy_tree(old(self)@, src@.segments, dst@.segments),
                src@.segments,
            ),
            res is Err ==> final(self)@ == old(self)@ && (res->Err_0 matches
                BuildError::FileOperationError { operation, path, source_path, cause }
                && operation == FileOperation::Move && path@ == crate::path::spec_render(dst@)
                && (source_path matches Some(sp) && sp@ == crate::path::spec_render(src@))
                && cause@ == copy_missing_msg()),
    {
        match self.copy_tree(src, dst) {
            Ok(()) => {
                self.remove(src);
                Ok(())
            },
            Err(_) => Err(
                BuildError::FileOperationError {
                    operation: FileOperation::Move,
                    path: dst.render(),
                    source_path: Some(src.render()),
                    cause: String::from_str("the source of the copy does not exist"),
                },
            ),
        }
    }

    /// Binds a path to a node, shadowing any earlier binding.
    pub fn set_node(&mut self, p: &FsPath, node: FsNode)
        ensures
            final(self)@ == old(self)@.insert(p@.segments, node@),
    {
        let ghost before = self.entries@;
        let ghost nv = node@;
        let e = FsEntry { path: p.clone_path(), node };
        proof {
            assert(e.node@ == nv);
        }
        self.entries.push(e);
        proof {
            lemma_map_of_push(before, e);
        }
    }
}

} // verus!
