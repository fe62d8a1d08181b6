//! Finding and validating a Flutter SDK installation. Resolution order:
//! an explicitly configured path, then an environment-supplied path, then
//! a PATH lookup. A candidate wins when it exists and has the expected
//! structural layout; an explicit wrong path is a hard error, an absent
//! later candidate is not.

use vstd::prelude::*;

use crate::error::{BuildError, BuildResult};
use crate::fstree::{FsNodeV, FsTree};
use crate::path::{FsPath, PathView};

verus! {

/// A located SDK: its root and, when configured, the local-engine
/// override path.
#[derive(Debug)]
pub struct FlutterInstallation {
    pub root: FsPath,
    pub local_engine: Option<FsPath>,
}

/// The configuration the locator works from. The embedding program fills
/// it once at pipeline start (explicit setting, environment variable,
/// PATH search result); no component reads the ambient environment.
pub struct LocatorConfig {
    pub explicit_path: Option<FsPath>,
    pub env_path: Option<FsPath>,
    pub path_lookup: Option<FsPath>,
    pub local_engine: Option<FsPath>,
}

/// The mathematical value of an optional path.
pub open spec fn opt_view(o: Option<FsPath>) -> Option<PathView> {
    match o {
        Some(p) => Some(p@),
        None => None,
    }
}

/// Whether a real Flutter installation stands at `root` in the
/// filesystem `m`: the root and its `bin` subdirectory are directories
/// and `bin/flutter` is a file.
pub open spec fn spec_valid_installation(m: Map<Seq<Seq<char>>, FsNodeV>, root: PathView) -> bool {
    let r = root.segments;
    let bin = r.push("bin"@);
    let tool = bin.push("flutter"@);
    &&& m.dom().contains(r) && m[r] is Dir
    &&& m.dom().contains(bin) && m[bin] is Dir
    &&& m.dom().contains(tool) && m[tool] is File
}

/// What the locator decides, before it is folded into a result value.
pub enum LocateOutcome {
    Found { root: PathView, engine: Option<PathView> },
    Invalid { path: PathView },
    NotFound,
    EngineMissing,
}

/// The local-engine override: only consulted once a root is found, and
/// only when configured; a configured override that does not exist is an
/// error of its own.
pub open spec fn spec_resolve_engine(
    m: Map<Seq<Seq<char>>, FsNodeV>,
    root: PathView,
    engine: Option<PathView>,
) -> LocateOutcome {
    match engine {
        None => LocateOutcome::Found { root, engine: None },
        Some(e) => if m.dom().contains(e.segments) {
            LocateOutcome::Found { root, engine: Some(e) }
        } else {
            LocateOutcome::EngineMissing
        },
    }
}

/// The full resolution order. An explicit path that exists and validates
/// wins; an explicit path that does not is a hard error. Otherwise the
/// environment candidate and then the PATH candidate are tried; one that
/// validates wins, one that exists but does not validate is reported as
/// invalid only after no later candidate wins, and if no candidate
/// exists at all the SDK is simply not found.
pub open spec fn spec_locate(
    m: Map<Seq<Seq<char>>, FsNodeV>,
    explicit: Option<PathView>,
    env: Option<PathView>,
    lookup: Option<PathView>,
    engine: Option<PathView>,
) -> LocateOutcome {
    match explicit {
        Some(p) => if spec_valid_installation(m, p) {
            spec_resolve_engine(m, p, engine)
        } else {
            LocateOutcome::Invalid { path: p }
        },
        None => {
            let env_exists = env matches Some(p) && m.dom().contains(p.segments);
            let lookup_exists = lookup matches Some(q) && m.dom().contains(q.segments);
            if env_exists && spec_valid_installation(m, env->0) {
                spec_resolve_engine(m, env->0, engine)
            } else if lookup_exists && spec_valid_installation(m, lookup->0) {
                spec_resolve_engine(m, lookup->0, engine)
            } else if env_exists {
                LocateOutcome::Invalid { path: env->0 }
            } else if lookup_exists {
                LocateOutcome::Invalid { path: lookup->0 }
            } else {
                LocateOutcome::NotFound
            }
        },
    }
}

/// Law: for every filesystem and every root with the correct structural
/// layout, an explicitly configured locator succeeds on that root; for
/// every root missing a required piece it fails with the invalid-path
/// error naming that exact root.
pub proof fn lemma_locate_explicit(
    m: Map<Seq<Seq<char>>, FsNodeV>,
    p: PathView,
    env: Option<PathView>,
    lookup: Option<PathView>,
)
    ensures
        spec_valid_installation(m, p) ==> spec_locate(m, Some(p), env, lookup, None)
            == (LocateOutcome::Found { root: p, engine: None }),
        !spec_valid_installation(m, p) ==> spec_locate(m, Some(p), env, lookup, None)
            == (LocateOutcome::Invalid { path: p }),
{
}

/// Law: with no explicit path, a validating environment candidate wins,
/// and a validating PATH candidate wins when the environment offers
/// none.
pub proof fn lemma_locate_fallback(
    m: Map<Seq<Seq<char>>, FsNodeV>,
    env: PathView,
    lookup: Option<PathView>,
)
    ensures
        spec_valid_installation(m, env) ==> spec_locate(m, None, Some(env), lookup, None)
            == (LocateOutcome::Found { root: env, engine: None }),
        (lookup matches Some(q) && spec_valid_installation(m, q) && !m.dom().contains(env.segments))
            ==> spec_locate(m, None, Some(env), lookup, None) == (LocateOutcome::Found {
            root: lookup->0,
            engine: None,
        }),
{
    if spec_valid_installation(m, env) {
        assert(m.dom().contains(env.segments));
    }
}

/// Checks the structural layout of a candidate root against the
/// filesystem model.
pub fn validate_installation(fs: &FsTree, root: &FsPath) -> (r: bool)
    ensures
        r == spec_valid_installation(fs@, root@),
{
    let bin_name = String::from_str("bin");
    let tool_name = String::from_str("flutter");
    let bin = root.child(&bin_name);
    let tool = bin.child(&tool_name);
    fs.is_dir_at(root) && fs.is_dir_at(&bin) && fs.is_file_at(&tool)
}

/// Runs the locator's resolution order against the filesystem model and
/// folds the outcome into a result: a validated installation, or the
/// error naming what went wrong.
pub fn locate(cfg: &LocatorConfig, fs: &FsTree) -> (res: BuildResult<FlutterInstallation>)
    ensures
        ({
            let outcome = spec_locate(
                fs@,
                opt_view(cfg.explicit_path),
                opt_view(cfg.env_path),
                opt_view(cfg.path_lookup),
                opt_view(cfg.local_engine),
            );
            match outcome {
                LocateOutcome::Found { root, engine } => res matches Ok(inst) && inst.root@ == root
                    && opt_view(inst.local_engine) == engine,
                LocateOutcome::Invalid { path } => res matches Err(
                    BuildError::FlutterPathInvalidError { path: p },
                ) && p@ == crate::path::spec_render(path),
                LocateOutcome::NotFound => res matches Err(BuildError::FlutterNotFoundError),
                LocateOutcome::EngineMissing => res matches Err(
                    BuildError::FlutterLocalEngineNotFound,
                ),
            }
        }),
{
    match &cfg.explicit_path {
        Some(p) => {
            if validate_installation(fs, p) {
                resolve_engine(cfg, fs, p)
            } else {
                Err(BuildError::FlutterPathInvalidError { path: p.render() })
            }
        },
        None => {
            let env_exists = match &cfg.env_path {
                Some(p) => fs.contains(p),
                None => false,
            };
            let lookup_exists = match &cfg.path_lookup {
                Some(q) => fs.contains(q),
                None => false,
            };
            if env_exists {
                let p = match &cfg.env_path {
                    Some(p) => p,
                    None => unreached(),
                };
                if validate_installation(fs, p) {
                    return resolve_engine(cfg, fs, p);
                }
            }
            if lookup_exists {
                let q = match &cfg.path_lookup {
                    Some(q) => q,
                    None => unreached(),
                };
                if validate_installation(fs, q) {
                    return resolve_engine(cfg, fs, q);
                }
            }
            if env_exists {
                let p = match &cfg.env_path {
                    Some(p) => p,
                    None => unreached(),
                };
                Err(BuildError::FlutterPathInvalidError { path: p.render() })
            } else if lookup_exists {
                let q = match &cfg.path_lookup {
                    Some(q) => q,
                    None => unreached(),
                };
                Err(BuildError::FlutterPathInvalidError { path: q.render() })
            } else {
                Err(BuildError::FlutterNotFoundError)
            }
        },
    }
}

/// Folds the local-engine override into a found root.
fn resolve_engine(cfg: &LocatorConfig, fs: &FsTree, root: &FsPath) -> (res: BuildResult<
    FlutterInstallation,
>)
    ensures
        ({
            let outcome = spec_resolve_engine(fs@, root@, opt_view(cfg.local_engine));
            match outcome {
                LocateOutcome::Found { root: r, engine } => res matches Ok(inst) && inst.root@ == r
                    && opt_view(inst.local_engine) == engine,
                LocateOutcome::EngineMissing => res matches Err(
                    BuildError::FlutterLocalEngineNotFound,
                ),
                _ => false,
            }
        }),
{
    match &cfg.local_engine {
        None => Ok(FlutterInstallation { root: root.clone_path(), local_engine: None }),
        Some(e) => {
            if fs.contains(e) {
                Ok(
                    FlutterInstallation {
                        root: root.clone_path(),
                        local_engine: Some(e.clone_path()),
                    },
                )
            } else {
                Err(BuildError::FlutterLocalEngineNotFound)
            }
        },
    }
}

} // verus!
