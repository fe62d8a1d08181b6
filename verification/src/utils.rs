//! Small path and directory helpers the pipeline uses: deriving the
//! artifacts directory from the build output directory, creating
//! directories with an optional subpath, picking the link strategy for
//! the host's OS family, and deciding whether archive extraction strips
//! a wrapper folder. The link and the extraction themselves are
//! operating-system work the embedding program performs; only the
//! decisions are modelled here.

use vstd::prelude::*;

use crate::error::{BuildError, BuildResult, FileOperation};
use crate::fstree::{mkdir_conflict_msg, spec_mkdir_all, FsTree};
use crate::path::{spec_render, FsPath, PathView};

verus! {

/// The OS family the build runs on; detected once at startup by the
/// embedding program.
#[derive(Clone, Copy, PartialEq, Eq, Structural)]
pub enum OsFamily {
    Unix,
    Windows,
}

/// How a placed artifact may be linked instead of copied.
#[derive(Clone, Copy, PartialEq, Eq, Structural)]
pub enum LinkStrategy {
    /// A native symbolic link.
    NativeSymlink,
    /// A junction for directories and a hard file link otherwise.
    JunctionOrFileLink,
}

/// Picks the link strategy for an OS family: native symlinks on the
/// Unix family, junctions or file links on the Windows family.
pub fn symlink_strategy(os: OsFamily) -> (r: LinkStrategy)
    ensures
        os is Unix ==> r is NativeSymlink,
        os is Windows ==> r is JunctionOrFileLink,
{
    match os {
        OsFamily::Unix => LinkStrategy::NativeSymlink,
        OsFamily::Windows => LinkStrategy::JunctionOrFileLink,
    }
}

/// The path whose canonical form the artifacts directory is: the output
/// directory joined with three parent steps. Failures are attributed to
/// this joined path, as the canonicalize step sees it.
pub open spec fn spec_artifacts_join(out_dir: PathView) -> PathView {
    PathView {
        absolute: out_dir.absolute,
        segments: out_dir.segments.push("..".view()).push("..".view()).push("..".view()),
    }
}

/// Derives the artifacts directory from the build output directory: the
/// directory three levels up, as the tool layout fixes it. An output
/// directory that shallow cannot be resolved; the failure is reported
/// against the joined `../../..` path the canonicalize step works on.
pub fn get_artifacts_dir(out_dir: &FsPath) -> (res: BuildResult<FsPath>)
    ensures
        res is Ok <==> out_dir@.segments.len() >= 3,
        res is Ok ==> res->Ok_0@.absolute == out_dir@.absolute && res->Ok_0@.segments
            == out_dir@.segments.take(out_dir@.segments.len() - 3),
        res is Err ==> (res->Err_0 matches BuildError::FileOperationError {
            operation,
            path,
            source_path,
            cause: _,
        } && operation == FileOperation::Canonicalize && path@ == spec_render(
            spec_artifacts_join(out_dir@),
        ) && source_path is None),
{
    if out_dir.segments.len() < 3 {
        let parent = String::from_str("..");
        let joined = out_dir.child(&parent).child(&parent).child(&parent);
        proof {
            assert(joined@ =~= spec_artifacts_join(out_dir@));
        }
        return Err(
            BuildError::FileOperationError {
                operation: FileOperation::Canonicalize,
                path: joined.render(),
                source_path: None,
                cause: String::from_str("the output directory has no grandparent"),
            },
        );
    }
    Ok(out_dir.truncated(out_dir.segments.len() - 3))
}

/// Creates `target_path`, or `target_path/sub_path` when a subpath is
/// given, with every missing ancestor, and hands back the path that now
/// exists. Creation is idempotent: components already present as
/// directories are left untouched.
pub fn mkdir(fs: &mut FsTree, target_path: &FsPath, sub_path: Option<&FsPath>) -> (res:
    BuildResult<FsPath>)
    ensures
        res is Ok ==> res->Ok_0@ == spec_mkdir_target(target_path@, sub_path) && final(fs)@
            == spec_mkdir_all(old(fs)@, spec_mkdir_target(target_path@, sub_path).segments),
        res is Ok <==> (forall|i: int|
            1 <= i <= spec_mkdir_target(target_path@, sub_path).segments.len() ==> !(
            old(fs)@.dom().contains(
                #[trigger] spec_mkdir_target(target_path@, sub_path).segments.take(i),
            ) && old(fs)@[spec_mkdir_target(target_path@, sub_path).segments.take(i)] is File)),
        res is Err ==> final(fs)@ == old(fs)@ && (res->Err_0 matches
            BuildError::FileOperationError { operation, path, source_path, cause } && operation
            == FileOperation::MkDir && path@ == spec_render(
            spec_mkdir_target(target_path@, sub_path),
        ) && source_path is None && cause@ == mkdir_conflict_msg()),
{
    let target = match sub_path {
        Some(sub) => target_path.join_rel(sub),
        None => target_path.clone_path(),
    };
    proof {
        assert(target@ =~= spec_mkdir_target(target_path@, sub_path));
    }
    match fs.mkdir_all(&target) {
        Ok(()) => Ok(target),
        Err(e) => Err(e),
    }
}

/// The single wrapper folder shared by every member of an archive, if
/// the archive has one: extraction then strips that one leading
/// component. An empty archive, or members that do not all start with
/// the same component, have none.
pub open spec fn spec_archive_root(members: Seq<crate::path::PathView>) -> Option<Seq<char>> {
    if members.len() == 0 {
        None
    } else if forall|i: int|
        0 <= i < members.len() ==> (#[trigger] members[i].segments).len() >= 1
            && members[i].segments[0] == members[0].segments[0] {
        Some(members[0].segments[0])
    } else {
        None
    }
}

/// Decides whether extraction strips one leading path component: it
/// does exactly when every member of the archive lies under the same
/// top-level wrapper folder, and the result names that folder.
pub fn archive_strip_root(members: &Vec<FsPath>) -> (r: Option<String>)
    ensures
        crate::manifest::opt_str_view(r) == spec_archive_root(members.deep_view()),
{
    if members.len() == 0 {
        return None;
    }
    if members[0].segments.len() == 0 {
        return None;
    }
    let root = &members[0].segments[0];
    let mut i: usize = 0;
    while i < members.len()
        invariant
            i <= members.len(),
            members.deep_view().len() == members@.len(),
            members@.len() >= 1,
            members@[0].segments@.len() >= 1,
            *root == members@[0].segments@[0],
            forall|j: int|
                0 <= j < i ==> (#[trigger] members.deep_view()[j].segments).len() >= 1
                    && members.deep_view()[j].segments[0] == members.deep_view()[0].segments[0],
        decreases members.len() - i,
    {
        if members[i].segments.len() == 0 {
            proof {
                assert(members.deep_view()[i as int] == members@[i as int]@);
                assert(members.deep_view()[i as int].segments.len() == 0);
            }
            return None;
        }
        if !crate::path::str_eq(members[i].segments[0].as_str(), root.as_str()) {
            proof {
                assert(members.deep_view()[i as int].segments[0] != members.deep_view()[0].segments[0]);
            }
            return None;
        }
        i += 1;
    }
    Some(root.clone())
}

/// The path a [`mkdir`] call creates: the target, extended by the
/// subpath when one is given.
pub open spec fn spec_mkdir_target(target: PathView, sub_path: Option<&FsPath>) -> PathView {
    match sub_path {
        Some(sub) => PathView { absolute: target.absolute, segments: target.segments + sub@.segments },
        None => target,
    }
}

} // verus!
