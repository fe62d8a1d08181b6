//! The artifact pipeline: locate the SDK, invoke the tool when the
//! outputs are stale, discover plugins, place artifacts. The pipeline is
//! a linear state machine; the embedding program performs the outside
//! work (running the process, reading the manifest file, mirroring the
//! planned file operations) and feeds each result back in. Any failure
//! is terminal: there is no partially-succeeded success state.

use vstd::prelude::*;

use crate::error::{BuildError, BuildResult, FileOperation};
use crate::fstree::{spec_copy_tree, spec_mkdir_all, FsNodeV, FsTree};
use crate::invoker::{
    build_bundle_invocation, interpret_tool_outcome, spec_bundle_args, spec_render_cmd, BuildMode,
    ToolInvocation, ToolOutcome,
};
use crate::locator::{locate, opt_view, spec_locate, FlutterInstallation, LocateOutcome, LocatorConfig};
use crate::manifest::{load_registry, spec_interpret, spec_select, yaml_parses, yaml_raw_of, Plugin};
use crate::path::{FsPath, PathView};

verus! {

/// Everything the pipeline is configured with, collected once at start;
/// no component reads the ambient environment.
pub struct PipelineConfig {
    pub locator: LocatorConfig,
    pub platform: String,
    pub mode: BuildMode,
    pub output_dir: FsPath,
    pub manifest_dir: FsPath,
    /// The artifact subtrees to place: each source path with its
    /// destination name directly under the output directory.
    pub artifacts: Vec<(FsPath, String)>,
    pub engine_version: String,
}

/// The ordered placement record handed to the host build: every file
/// subtree the pipeline placed, as (source, destination) pairs, plus
/// the resolved engine identifier.
#[derive(Debug)]
pub struct ArtifactManifest {
    pub entries: Vec<(FsPath, FsPath)>,
    pub engine_version: String,
}

/// The manifest invariant: no two entries target the same destination.
pub open spec fn manifest_wf(m: &ArtifactManifest) -> bool {
    forall|i: int, j: int|
        0 <= i < j < m.entries@.len() ==> (#[trigger] m.entries@[i]).1@.segments != (
        #[trigger] m.entries@[j]).1@.segments
}

/// Name of the freshness marker the pipeline leaves in the output
/// directory after a successful tool run.
pub open spec fn spec_stamp_name() -> Seq<char> {
    "flutter_artifacts.stamp"@
}

/// Whether the tool must run: the outputs are stale exactly when the
/// freshness marker is missing.
pub open spec fn spec_tool_needed(m: Map<Seq<Seq<char>>, FsNodeV>, out: PathView) -> bool {
    !m.dom().contains(out.segments.push(spec_stamp_name()))
}

/// The pipeline's position, with the data each stage owns.
pub enum PipelineState {
    /// Nothing has happened yet.
    Start,
    /// The SDK was located; `needs_tool` says whether the outputs are
    /// stale.
    Located { installation: FlutterInstallation, needs_tool: bool },
    /// The tool ran (or was skipped because the outputs were fresh).
    ToolDone { installation: FlutterInstallation },
    /// The plugin registry is built.
    Discovered { installation: FlutterInstallation, plugins: Vec<Plugin> },
    /// The run finished; the manifest is ready for the host.
    Done { manifest: ArtifactManifest, plugins: Vec<Plugin> },
    /// The run failed; the error is terminal.
    Failed { error: BuildError },
}

/// Locates the SDK against the filesystem model and checks freshness.
/// Any locator failure is terminal.
pub fn locate_step(cfg: &PipelineConfig, fs: &FsTree) -> (r: PipelineState)
    ensures
        ({
            let outcome = spec_locate(
                fs@,
                opt_view(cfg.locator.explicit_path),
                opt_view(cfg.locator.env_path),
                opt_view(cfg.locator.path_lookup),
                opt_view(cfg.locator.local_engine),
            );
            match outcome {
                LocateOutcome::Found { root, engine } => r matches PipelineState::Located {
                    installation,
                    needs_tool,
                } && installation.root@ == root && opt_view(installation.local_engine) == engine
                    && needs_tool == spec_tool_needed(fs@, cfg.output_dir@),
                _ => r matches PipelineState::Failed { error: e } && spec_locate_err_matches(
                    outcome,
                    e,
                ),
            }
        }),
{
    match locate(&cfg.locator, fs) {
        Ok(installation) => {
            let stamp = cfg.output_dir.child(&String::from_str("flutter_artifacts.stamp"));
            let needs_tool = !fs.contains(&stamp);
            PipelineState::Located { installation, needs_tool }
        },
        Err(error) => PipelineState::Failed { error },
    }
}

/// How each failed locator outcome is reported.
pub open spec fn spec_locate_err_matches(outcome: LocateOutcome, e: BuildError) -> bool {
    match outcome {
        LocateOutcome::Found { .. } => false,
        LocateOutcome::Invalid { path } => e matches BuildError::FlutterPathInvalidError {
            path: p,
        } && p@ == crate::path::spec_render(path),
        LocateOutcome::NotFound => e is FlutterNotFoundError,
        LocateOutcome::EngineMissing => e is FlutterLocalEngineNotFound,
    }
}

/// Plans the tool invocation for a located SDK: its `bin/flutter`
/// binary, the bundle arguments for the configured platform and mode,
/// and the project manifest directory as working directory.
pub fn plan_tool(cfg: &PipelineConfig, installation: &FlutterInstallation) -> (r: ToolInvocation)
    ensures
        r.program@ == crate::path::spec_render(
            PathView {
                absolute: installation.root@.absolute,
                segments: installation.root@.segments.push("bin"@).push("flutter"@),
            },
        ),
        r.args.deep_view() == spec_bundle_args(cfg.platform@, cfg.mode),
        r.working_dir@ == cfg.manifest_dir@,
{
    let tool = installation.root.child(&String::from_str("bin")).child(
        &String::from_str("flutter"),
    );
    build_bundle_invocation(&tool, &cfg.platform, cfg.mode, &cfg.manifest_dir)
}

/// Passes a located pipeline on without running the tool; only allowed
/// when the outputs are fresh. Skipping changes nothing the later
/// stages see.
pub fn tool_skip(state: PipelineState) -> (r: PipelineState)
    requires
        state matches PipelineState::Located { needs_tool: false, .. },
    ensures
        state matches PipelineState::Located { installation, .. } && r matches
            PipelineState::ToolDone { installation: inst2 } && inst2 == installation,
{
    match state {
        PipelineState::Located { installation, .. } => PipelineState::ToolDone { installation },
        _ => unreached(),
    }
}

/// Folds the finished tool invocation into the pipeline: a zero exit
/// moves on, any other ending is a terminal `ToolError` carrying the
/// full command line and the complete captured output.
pub fn tool_absorb(state: PipelineState, invocation: &ToolInvocation, outcome: ToolOutcome) -> (r:
    PipelineState)
    requires
        state matches PipelineState::Located { needs_tool: true, .. },
    ensures
        outcome.code == Some(0i32) ==> (state matches PipelineState::Located { installation, .. }
            && r matches PipelineState::ToolDone { installation: inst2 } && inst2 == installation),
        outcome.code != Some(0i32) ==> (r matches PipelineState::Failed { error } && (error
            matches BuildError::ToolError { command, status, stdout, stderr } && command@
            == spec_render_cmd(invocation.program@, invocation.args.deep_view()) && status
            == outcome.code && stdout@ == outcome.stdout@ && stderr@ == outcome.stderr@)),
{
    match interpret_tool_outcome(invocation, outcome) {
        Ok(_) => match state {
            PipelineState::Located { installation, .. } => PipelineState::ToolDone {
                installation,
            },
            _ => unreached(),
        },
        Err(error) => PipelineState::Failed { error },
    }
}

/// Builds the plugin registry from the manifest text; this step is
/// independent of whether the tool ran, since the plugin metadata comes
/// from the host manifest.
pub fn discover_step(state: PipelineState, cfg: &PipelineConfig, manifest_text: &str) -> (r:
    PipelineState)
    requires
        state matches PipelineState::ToolDone { .. },
    ensures
        r is Discovered || r is Failed,
        r is Discovered <==> (yaml_parses(manifest_text@) && spec_interpret(
            yaml_raw_of(manifest_text@),
            yaml_raw_of(manifest_text@).len() as int,
        ) is Some),
        r is Failed ==> (r matches PipelineState::Failed { error } && error matches
            BuildError::ManifestParseError { .. }),
        r is Discovered ==> (state matches PipelineState::ToolDone { installation } && (r matches
            PipelineState::Discovered { installation: inst2, plugins } && inst2 == installation
            && plugins.deep_view() == spec_select(
            spec_interpret(yaml_raw_of(manifest_text@), yaml_raw_of(manifest_text@).len() as int)->0,
            cfg.platform@,
            spec_interpret(
                yaml_raw_of(manifest_text@),
                yaml_raw_of(manifest_text@).len() as int,
            )->0.len() as int,
        ))),
{
    match load_registry(manifest_text, &cfg.platform) {
        Ok(plugins) => match state {
            PipelineState::ToolDone { installation } => PipelineState::Discovered {
                installation,
                plugins,
            },
            _ => unreached(),
        },
        Err(error) => PipelineState::Failed { error },
    }
}

/// Cause text recorded when two artifacts share a destination name.
pub open spec fn dup_dest_msg() -> Seq<char> {
    "two artifacts share a destination name"@
}

/// Cause text recorded when an artifact source overlaps its destination.
pub open spec fn overlap_msg() -> Seq<char> {
    "an artifact source overlaps its destination"@
}

/// The destination of one artifact: its name directly under the output
/// directory.
pub open spec fn spec_dest(out: PathView, name: Seq<char>) -> Seq<Seq<char>> {
    out.segments.push(name)
}

/// Two subtrees overlap when one root is a prefix of the other.
pub open spec fn spec_no_overlap(a: Seq<Seq<char>>, b: Seq<Seq<char>>) -> bool {
    !a.is_prefix_of(b) && !b.is_prefix_of(a)
}

/// The filesystem after the output directory is created and the first
/// `i` artifacts are copied in, in order.
pub open spec fn spec_place_fs(
    m: Map<Seq<Seq<char>>, FsNodeV>,
    arts: Seq<(FsPath, String)>,
    out: PathView,
    i: int,
) -> Map<Seq<Seq<char>>, FsNodeV>
    decreases i,
{
    if i <= 0 {
        spec_mkdir_all(m, out.segments)
    } else {
        spec_copy_tree(
            spec_place_fs(m, arts, out, i - 1),
            arts[i - 1].0@.segments,
            spec_dest(out, arts[i - 1].1@),
        )
    }
}

/// Whether placement succeeds through the first `i` artifacts: the
/// output directory can be created, every artifact's source exists when
/// its turn comes, no source overlaps its destination, and no two
/// artifacts share a destination name.
pub open spec fn spec_place_ok(
    m: Map<Seq<Seq<char>>, FsNodeV>,
    arts: Seq<(FsPath, String)>,
    out: PathView,
    i: int,
) -> bool
    decreases i,
{
    if i <= 0 {
        forall|k: int|
            1 <= k <= out.segments.len() ==> !(m.dom().contains(#[trigger] out.segments.take(k))
                && m[out.segments.take(k)] is File)
    } else {
        &&& spec_place_ok(m, arts, out, i - 1)
        &&& (forall|j: int| 0 <= j < i - 1 ==> (#[trigger] arts[j].1@) != arts[i - 1].1@)
        &&& spec_no_overlap(arts[i - 1].0@.segments, spec_dest(out, arts[i - 1].1@))
        &&& spec_place_fs(m, arts, out, i - 1).dom().contains(arts[i - 1].0@.segments)
    }
}

/// Placement that has failed by step `i` stays failed.
proof fn lemma_place_ok_propagates(
    m: Map<Seq<Seq<char>>, FsNodeV>,
    arts: Seq<(FsPath, String)>,
    out: PathView,
    i: int,
    j: int,
)
    requires
        0 <= i <= j,
        !spec_place_ok(m, arts, out, i),
    ensures
        !spec_place_ok(m, arts, out, j),
    decreases j - i,
{
    if i < j {
        lemma_place_ok_propagates(m, arts, out, i + 1, j);
    }
}

/// Copies every configured artifact subtree into the output directory
/// and records the placement. Succeeds exactly when the output
/// directory can be created, every source exists, no source overlaps
/// its destination and no destination repeats; the resulting manifest
/// lists every artifact in order, and its destinations are distinct.
/// A failure partway leaves the filesystem partially populated, as a
/// re-run rebuilds from scratch.
pub fn place_artifacts(
    fs: &mut FsTree,
    artifacts: &Vec<(FsPath, String)>,
    output_dir: &FsPath,
    engine_version: &String,
) -> (res: BuildResult<ArtifactManifest>)
    ensures
        res is Ok <==> spec_place_ok(
            old(fs)@,
            artifacts@,
            output_dir@,
            artifacts@.len() as int,
        ),
        res is Ok ==> final(fs)@ == spec_place_fs(
            old(fs)@,
            artifacts@,
            output_dir@,
            artifacts@.len() as int,
        ),
        res is Ok ==> ({
            let m = res->Ok_0;
            &&& manifest_wf(&m)
            &&& m.engine_version@ == engine_version@
            &&& m.entries@.len() == artifacts@.len()
            &&& forall|i: int|
                0 <= i < artifacts@.len() ==> (#[trigger] m.entries@[i]).0@ == artifacts@[i].0@
                    && m.entries@[i].1@.segments == spec_dest(output_dir@, artifacts@[i].1@)
        }),
        res is Err ==> ((res->Err_0 matches BuildError::FileOperationError { operation, .. }
            && (operation == FileOperation::MkDir || operation == FileOperation::CopyDir)) || (
        res->Err_0 matches BuildError::OtherError(msg) && (msg@ == dup_dest_msg() || msg@
            == overlap_msg()))),
{
    let mut entries: Vec<(FsPath, FsPath)> = Vec::new();
    if let Err(e) = fs.mkdir_all(output_dir) {
        proof {
            lemma_place_ok_propagates(
                old(fs)@,
                artifacts@,
                output_dir@,
                0,
                artifacts@.len() as int,
            );
        }
        return Err(e);
    }
    let ghost m0 = old(fs)@;
    let mut i: usize = 0;
    while i < artifacts.len()
        invariant
            i <= artifacts.len(),
            m0 == old(fs)@,
            spec_place_ok(m0, artifacts@, output_dir@, i as int),
            fs@ == spec_place_fs(m0, artifacts@, output_dir@, i as int),
            entries@.len() == i,
            forall|k: int|
                0 <= k < i ==> (#[trigger] entries@[k]).0@ == artifacts@[k].0@
                    && entries@[k].1@.segments == spec_dest(output_dir@, artifacts@[k].1@),
        decreases artifacts.len() - i,
    {
        let src = &artifacts[i].0;
        let dst = output_dir.child(&artifacts[i].1);
        let mut j: usize = 0;
        while j < i
            invariant
                j <= i < artifacts.len(),
                m0 == old(fs)@,
                spec_place_ok(m0, artifacts@, output_dir@, i as int),
                forall|k: int| 0 <= k < j ==> (#[trigger] artifacts@[k].1@) != artifacts@[i as int].1@,
            decreases i - j,
        {
            if crate::path::str_eq(artifacts[j].1.as_str(), artifacts[i].1.as_str()) {
                proof {
                    assert(!spec_place_ok(m0, artifacts@, output_dir@, i + 1 as int));
                    lemma_place_ok_propagates(
                        m0,
                        artifacts@,
                        output_dir@,
                        i + 1 as int,
                        artifacts@.len() as int,
                    );
                }
                return Err(
                    BuildError::OtherError(
                        String::from_str("two artifacts share a destination name"),
                    ),
                );
            }
            j += 1;
        }
        if src.segments_prefix_of(&dst) || dst.segments_prefix_of(src) {
            proof {
                assert(!spec_place_ok(m0, artifacts@, output_dir@, i + 1 as int));
                lemma_place_ok_propagates(
                    m0,
                    artifacts@,
                    output_dir@,
                    i + 1 as int,
                    artifacts@.len() as int,
                );
            }
            return Err(
                BuildError::OtherError(
                    String::from_str("an artifact source overlaps its destination"),
                ),
            );
        }
        match fs.copy_tree(src, &dst) {
            Ok(()) => {},
            Err(e) => {
                proof {
                    assert(!spec_place_ok(m0, artifacts@, output_dir@, i + 1 as int));
                    lemma_place_ok_propagates(
                        m0,
                        artifacts@,
                        output_dir@,
                        i + 1 as int,
                        artifacts@.len() as int,
                    );
                }
                return Err(e);
            },
        }
        entries.push((src.clone_path(), dst));
        i += 1;
    }
    let m = ArtifactManifest { entries, engine_version: engine_version.clone() };
    proof {
        assert forall|a: int, b: int| 0 <= a < b < m.entries@.len() implies (
        #[trigger] m.entries@[a]).1@.segments != (#[trigger] m.entries@[b]).1@.segments by {
            if !spec_place_ok(m0, artifacts@, output_dir@, b + 1) {
                lemma_place_ok_propagates(
                    m0,
                    artifacts@,
                    output_dir@,
                    b + 1,
                    artifacts@.len() as int,
                );
            }
            assert(spec_place_ok(m0, artifacts@, output_dir@, b + 1));
            assert(artifacts@[a].1@ != artifacts@[b].1@);
            assert(m.entries@[a].1@.segments.last() == artifacts@[a].1@);
            assert(m.entries@[b].1@.segments.last() == artifacts@[b].1@);
        }
    }
    Ok(m)
}

/// Runs the placement stage: every artifact is copied into the output
/// layout and the manifest is handed on; any placement failure fails
/// the whole run, and a partial manifest is never returned as success.
pub fn place_step(state: PipelineState, cfg: &PipelineConfig, fs: &mut FsTree) -> (r:
    PipelineState)
    requires
        state matches PipelineState::Discovered { .. },
    ensures
        spec_place_ok(old(fs)@, cfg.artifacts@, cfg.output_dir@, cfg.artifacts@.len() as int)
            ==> (state matches PipelineState::Discovered { plugins, .. } && r matches
            PipelineState::Done { manifest, plugins: p2 } && p2 == plugins && manifest_wf(
            &manifest,
        ) && manifest.engine_version@ == cfg.engine_version@ && manifest.entries@.len()
            == cfg.artifacts@.len() && final(fs)@ == spec_place_fs(
            old(fs)@,
            cfg.artifacts@,
            cfg.output_dir@,
            cfg.artifacts@.len() as int,
        )),
        !spec_place_ok(old(fs)@, cfg.artifacts@, cfg.output_dir@, cfg.artifacts@.len() as int)
            ==> r is Failed,
{
    match place_artifacts(fs, &cfg.artifacts, &cfg.output_dir, &cfg.engine_version) {
        Ok(manifest) => match state {
            PipelineState::Discovered { plugins, .. } => PipelineState::Done { manifest, plugins },
            _ => unreached(),
        },
        Err(error) => PipelineState::Failed { error },
    }
}

} // verus!
