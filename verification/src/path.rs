//! Filesystem paths as plain data: an absolute/relative flag and a list
//! of name segments. Path arithmetic (joining, prefixes, lexical parents)
//! is done here; the real filesystem is never consulted.

use vstd::prelude::*;

verus! {

/// Mathematical value of an [`FsPath`].
#[verifier::ext_equal]
pub struct PathView {
    pub absolute: bool,
    pub segments: Seq<Seq<char>>,
}

/// A filesystem path, split into name segments.
#[derive(Debug)]
pub struct FsPath {
    pub absolute: bool,
    pub segments: Vec<String>,
}

impl View for FsPath {
    type V = PathView;

    open spec fn view(&self) -> PathView {
        PathView { absolute: self.absolute, segments: self.segments.deep_view() }
    }
}

impl DeepView for FsPath {
    type V = PathView;

    open spec fn deep_view(&self) -> PathView {
        self@
    }
}

/// Rendering of the segments alone, separated by `/`.
pub open spec fn spec_render_segs(segs: Seq<Seq<char>>) -> Seq<char>
    decreases segs.len(),
{
    if segs.len() == 0 {
        Seq::empty()
    } else if segs.len() == 1 {
        segs[0]
    } else {
        spec_render_segs(segs.drop_last()) + seq!['/'] + segs.last()
    }
}

/// Rendering of a whole path: a leading `/` when absolute, then the
/// segments separated by `/`.
pub open spec fn spec_render(p: PathView) -> Seq<char> {
    (if p.absolute {
        seq!['/']
    } else {
        Seq::<char>::empty()
    }) + spec_render_segs(p.segments)
}

impl FsPath {
    /// The absolute root path (no segments).
    pub fn root() -> (r: FsPath)
        ensures
            r@.absolute,
            r@.segments == Seq::<Seq<char>>::empty(),
    {
        let r = FsPath { absolute: true, segments: Vec::new() };
        proof {
            assert(r@.segments =~= Seq::<Seq<char>>::empty());
        }
        r
    }

    /// A structural copy.
    pub fn clone_path(&self) -> (r: FsPath)
        ensures
            r@ == self@,
    {
        let segments = self.segments.clone();
        proof {
            assert(segments.deep_view() =~= self.segments.deep_view());
        }
        FsPath { absolute: self.absolute, segments }
    }

    /// The path extended by one more segment.
    pub fn child(&self, seg: &String) -> (r: FsPath)
        ensures
            r@.absolute == self@.absolute,
            r@.segments == self@.segments.push(seg@),
    {
        let mut segments = self.segments.clone();
        proof {
            assert(segments.deep_view() =~= self.segments.deep_view());
        }
        segments.push(seg.clone());
        proof {
            assert(segments.deep_view() =~= self.segments.deep_view().push(seg@));
        }
        FsPath { absolute: self.absolute, segments }
    }

    /// The path extended by every segment of a relative path.
    pub fn join_rel(&self, rel: &FsPath) -> (r: FsPath)
        ensures
            r@.absolute == self@.absolute,
            r@.segments == self@.segments + rel@.segments,
    {
        let mut segments = self.segments.clone();
        proof {
            assert(segments.deep_view() =~= self.segments.deep_view());
        }
        let mut i: usize = 0;
        while i < rel.segments.len()
            invariant
                i <= rel.segments.len(),
                segments.deep_view() =~= self@.segments + rel@.segments.take(i as int),
            decreases rel.segments.len() - i,
        {
            let ghost dv_before = segments.deep_view();
            segments.push(rel.segments[i].clone());
            proof {
                assert(segments.deep_view() =~= dv_before.push(rel@.segments[i as int]));
                assert(rel@.segments.take(i + 1 as int) =~= rel@.segments.take(i as int).push(
                    rel@.segments[i as int],
                ));
                assert(segments.deep_view() =~= self@.segments + rel@.segments.take(i + 1 as int));
            }
            i += 1;
        }
        proof {
            assert(rel@.segments.take(rel.segments.len() as int) =~= rel@.segments);
            assert(segments.deep_view() =~= self@.segments + rel@.segments);
        }
        FsPath { absolute: self.absolute, segments }
    }

    /// The first `n` segments of the path.
    pub fn truncated(&self, n: usize) -> (r: FsPath)
        requires
            n <= self@.segments.len(),
        ensures
            r@.absolute == self@.absolute,
            r@.segments == self@.segments.take(n as int),
    {
        let mut segments = self.segments.clone();
        proof {
            assert(segments.deep_view() =~= self.segments.deep_view());
        }
        segments.truncate(n);
        proof {
            assert(segments.deep_view() =~= self@.segments.take(n as int));
        }
        FsPath { absolute: self.absolute, segments }
    }

    /// The path without its first `n` segments, as a relative path.
    pub fn skipped(&self, n: usize) -> (r: FsPath)
        requires
            n <= self@.segments.len(),
        ensures
            !r@.absolute,
            r@.segments == self@.segments.skip(n as int),
    {
        let mut segments: Vec<String> = Vec::new();
        proof {
            assert(segments.deep_view() =~= self@.segments.subrange(n as int, n as int));
        }
        let mut i: usize = n;
        while i < self.segments.len()
            invariant
                n <= i <= self.segments.len(),
                self@.segments.len() == self.segments.len(),
                segments.deep_view() =~= self@.segments.subrange(n as int, i as int),
            decreases self.segments.len() - i,
        {
            let ghost dv_before = segments.deep_view();
            segments.push(self.segments[i].clone());
            proof {
                assert(segments.deep_view() =~= dv_before.push(self@.segments[i as int]));
                assert(self@.segments.subrange(n as int, i + 1 as int) =~= self@.segments.subrange(
                    n as int,
                    i as int,
                ).push(self@.segments[i as int]));
            }
            i += 1;
        }
        proof {
            assert(self@.segments.subrange(n as int, self@.segments.len() as int) == self@.segments.skip(
                n as int,
            ));
        }
        FsPath { absolute: false, segments }
    }

    /// Whether this path's segments are a prefix of the other's.
    pub fn segments_prefix_of(&self, other: &FsPath) -> (r: bool)
        ensures
            r == self@.segments.is_prefix_of(other@.segments),
    {
        if self.segments.len() > other.segments.len() {
            proof {
                assert(!self@.segments.is_prefix_of(other@.segments));
            }
            return false;
        }
        let mut i: usize = 0;
        while i < self.segments.len()
            invariant
                i <= self@.segments.len() <= other@.segments.len(),
                self@.segments.len() == self.segments.len(),
                forall|j: int| 0 <= j < i ==> self@.segments[j] == other@.segments[j],
            decreases self.segments.len() - i,
        {
            if !str_eq(self.segments[i].as_str(), other.segments[i].as_str()) {
                proof {
                    assert(other@.segments.subrange(0, self@.segments.len() as int)[i as int]
                        == other@.segments[i as int]);
                    assert(!self@.segments.is_prefix_of(other@.segments));
                }
                return false;
            }
            i += 1;
        }
        proof {
            assert(self@.segments =~= other@.segments.subrange(0, self@.segments.len() as int));
        }
        true
    }

    /// Whether the two paths have the same segments, whatever their
    /// absolute flags say.
    pub fn segments_eq(&self, other: &FsPath) -> (r: bool)
        ensures
            r == (self@.segments == other@.segments),
    {
        if self.segments.len() != other.segments.len() {
            proof {
                assert(self@.segments.len() != other@.segments.len());
            }
            return false;
        }
        let r = self.segments_prefix_of(other);
        proof {
            if r {
                assert(self@.segments =~= other@.segments);
            }
        }
        r
    }

    /// Whether the two paths are equal as values.
    pub fn path_eq(&self, other: &FsPath) -> (r: bool)
        ensures
            r == (self@ == other@),
    {
        if self.absolute != other.absolute {
            return false;
        }
        if self.segments.len() != other.segments.len() {
            proof {
                assert(self@.segments.len() != other@.segments.len());
            }
            return false;
        }
        let r = self.segments_prefix_of(other);
        proof {
            if r {
                assert(self@.segments =~= other@.segments);
                assert(self@ =~= other@);
            } else {
                assert(self@.segments.len() == other@.segments.len());
                assert(self@ != other@);
            }
        }
        r
    }

    /// Rendered text of the path, segments separated by `/`.
    pub fn render(&self) -> (r: String)
        ensures
            r@ == spec_render(self@),
    {
        proof {
            reveal_strlit("/");
        }
        let mut s = if self.absolute {
            String::from_str("/")
        } else {
            String::new()
        };
        proof {
            assert(s@ =~= (if self@.absolute {
                seq!['/']
            } else {
                Seq::<char>::empty()
            }));
        }
        let ghost prefix = s@;
        let mut i: usize = 0;
        while i < self.segments.len()
            invariant
                i <= self.segments.len(),
                self@.segments.len() == self.segments.len(),
                s@ == prefix + spec_render_segs(self@.segments.take(i as int)),
            decreases self.segments.len() - i,
        {
            if i > 0 {
                s.append("/");
            }
            s.append(self.segments[i].as_str());
            proof {
                let t = self@.segments.take(i + 1 as int);
                assert(t.drop_last() =~= self@.segments.take(i as int));
                assert(t.last() == self@.segments[i as int]);
                if i == 0 {
                    assert(spec_render_segs(t) == self@.segments[0]);
                    assert(prefix + spec_render_segs(self@.segments.take(0)) =~= prefix);
                    assert(s@ =~= prefix + spec_render_segs(t));
                } else {
                    assert(spec_render_segs(t) == spec_render_segs(
                        self@.segments.take(i as int),
                    ) + seq!['/'] + self@.segments[i as int]);
                    reveal_strlit("/");
                    assert("/"@ =~= seq!['/']);
                    assert(s@ =~= prefix + spec_render_segs(t));
                }
            }
            i += 1;
        }
        proof {
            assert(self@.segments.take(self.segments.len() as int) =~= self@.segments);
        }
        s
    }
}

/// Relies on `str`'s `PartialEq`: two string slices are equal exactly
/// when their character sequences are equal.
#[verifier::external_body]
pub(crate) fn str_eq(a: &str, b: &str) -> (r: bool)
    ensures
        r == (a@ == b@),
{
    a == b
}

/// Resolves a possibly relative path against the project manifest
/// directory: an absolute path stands as it is, a relative one is joined
/// onto the manifest directory.
pub fn get_absolute_path(path: &FsPath, manifest_dir: &FsPath) -> (r: FsPath)
    requires
        manifest_dir@.absolute,
    ensures
        r@.absolute,
        path@.absolute ==> r@ == path@,
        !path@.absolute ==> r@.segments == manifest_dir@.segments + path@.segments,
{
    if path.absolute {
        path.clone_path()
    } else {
        manifest_dir.join_rel(path)
    }
}

} // verus!
