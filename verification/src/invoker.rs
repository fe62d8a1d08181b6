//! Building the command line for SDK tool invocations and interpreting
//! what the child process came back with. Running the process itself is
//! the embedding program's business; this module fixes the argument
//! vector beforehand and attributes the outcome afterwards.

use vstd::prelude::*;

use crate::error::{BuildError, BuildResult};
use crate::path::{spec_render, FsPath};

verus! {

/// The build mode a tool invocation is made for.
#[derive(Clone, Copy, PartialEq, Eq, Structural)]
pub enum BuildMode {
    Debug,
    Release,
    Profile,
}

/// The flag selecting a build mode on the tool's command line.
pub open spec fn spec_mode_flag(mode: BuildMode) -> Seq<char> {
    match mode {
        BuildMode::Debug => "--debug"@,
        BuildMode::Release => "--release"@,
        BuildMode::Profile => "--profile"@,
    }
}

/// A fully planned child-process invocation: program, argument vector
/// and working directory (the project manifest directory).
pub struct ToolInvocation {
    pub program: String,
    pub args: Vec<String>,
    pub working_dir: FsPath,
}

/// What a finished child process came back with: its exit code (`None`
/// when a signal ended it) and everything it wrote to its two streams.
pub struct ToolOutcome {
    pub code: Option<i32>,
    pub stdout: String,
    pub stderr: String,
}

/// The argument vector asking the SDK tool to build the asset bundle
/// for one target platform in one build mode.
pub open spec fn spec_bundle_args(platform: Seq<char>, mode: BuildMode) -> Seq<Seq<char>> {
    seq!["build"@, "bundle"@, "--target-platform"@, platform, spec_mode_flag(mode)]
}

/// The one-line rendering of a command: the program and each argument,
/// separated by single spaces.
pub open spec fn spec_render_cmd(prog: Seq<char>, args: Seq<Seq<char>>) -> Seq<char>
    decreases args.len(),
{
    if args.len() == 0 {
        prog
    } else {
        spec_render_cmd(prog, args.drop_last()) + seq![' '] + args.last()
    }
}

impl BuildMode {
    /// The command-line flag of this mode.
    pub fn flag(&self) -> (r: &'static str)
        ensures
            r@ == spec_mode_flag(*self),
    {
        match self {
            BuildMode::Debug => "--debug",
            BuildMode::Release => "--release",
            BuildMode::Profile => "--profile",
        }
    }
}

/// Plans the asset-bundle invocation: the located tool binary, the
/// bundle arguments for the requested platform and mode, and the project
/// manifest directory as working directory.
pub fn build_bundle_invocation(
    tool: &FsPath,
    platform: &String,
    mode: BuildMode,
    manifest_dir: &FsPath,
) -> (r: ToolInvocation)
    ensures
        r.program@ == spec_render(tool@),
        r.args.deep_view() == spec_bundle_args(platform@, mode),
        r.working_dir@ == manifest_dir@,
{
    let mut args: Vec<String> = Vec::new();
    args.push(String::from_str("build"));
    args.push(String::from_str("bundle"));
    args.push(String::from_str("--target-platform"));
    args.push(platform.clone());
    args.push(String::from_str(mode.flag()));
    proof {
        assert(args.deep_view() =~= spec_bundle_args(platform@, mode));
    }
    ToolInvocation { program: tool.render(), args, working_dir: manifest_dir.clone_path() }
}

impl ToolInvocation {
    /// The full command line as one line of text.
    pub fn render_command(&self) -> (r: String)
        ensures
            r@ == spec_render_cmd(self.program@, self.args.deep_view()),
    {
        let mut s = self.program.clone();
        let mut i: usize = 0;
        while i < self.args.len()
            invariant
                i <= self.args.len(),
                s@ == spec_render_cmd(self.program@, self.args.deep_view().take(i as int)),
            decreases self.args.len() - i,
        {
            s.append(" ");
            s.append(self.args[i].as_str());
            proof {
                reveal_strlit(" ");
                let t = self.args.deep_view().take(i + 1 as int);
                assert(t.drop_last() =~= self.args.deep_view().take(i as int));
                assert(t.last() == self.args.deep_view()[i as int]);
                assert(" "@ =~= seq![' ']);
                assert(s@ =~= spec_render_cmd(self.program@, t));
            }
            i += 1;
        }
        proof {
            assert(self.args.deep_view().take(self.args.len() as int) =~= self.args.deep_view());
        }
        s
    }
}

/// Interprets a finished tool invocation. An exit status of zero is
/// success and hands back everything the tool printed; any other ending
/// is a `ToolError` that carries the full command line, the exit status
/// and the captured output streams exactly as the process wrote them,
/// never truncated.
pub fn interpret_tool_outcome(invocation: &ToolInvocation, outcome: ToolOutcome) -> (res:
    BuildResult<String>)
    ensures
        res is Ok <==> outcome.code == Some(0i32),
        res is Ok ==> res->Ok_0@ == outcome.stdout@,
        res is Err ==> (res->Err_0 matches BuildError::ToolError { command, status, stdout, stderr }
            && command@ == spec_render_cmd(invocation.program@, invocation.args.deep_view())
            && status == outcome.code && stdout@ == outcome.stdout@ && stderr@
            == outcome.stderr@),
{
    let ok = match &outcome.code {
        Some(c) => *c == 0i32,
        None => false,
    };
    if ok {
        Ok(outcome.stdout)
    } else {
        Err(
            BuildError::ToolError {
                command: invocation.render_command(),
                status: outcome.code,
                stdout: outcome.stdout,
                stderr: outcome.stderr,
            },
        )
    }
}

} // verus!
