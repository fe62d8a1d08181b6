//! Closed taxonomy of build failures, with uniform attribution of the
//! failing operation and path(s), and deterministic rendering to text.

use vstd::prelude::*;

verus! {

/// Tag naming the kind of file operation that failed. Used purely for
/// error attribution, never as control data.
#[derive(Clone, Copy, Debug, PartialEq, Eq, Structural)]
pub enum FileOperation {
    CreateDir,
    Copy,
    Move,
    Remove,
    RemoveDir,
    Read,
    Write,
    Open,
    Create,
    SymLink,
    MetaData,
    CopyDir,
    MkDir,
    ReadDir,
    Canonicalize,
    Command,
    Unarchive,
}

/// A build failure. Every variant carries enough context to produce a
/// human-readable diagnosis without re-querying the filesystem.
#[derive(Debug)]
pub enum BuildError {
    /// The external tool exited with a non-zero status; carries the full
    /// command line and the complete captured output.
    ToolError { command: String, status: Option<i32>, stdout: String, stderr: String },
    /// No SDK candidate exists at all.
    FlutterNotFoundError,
    /// A candidate path exists but is not a valid installation.
    FlutterPathInvalidError { path: String },
    /// A local-engine override was requested but its path does not exist.
    FlutterLocalEngineNotFound,
    /// A filesystem operation failed; `cause` preserves the underlying
    /// error's message.
    FileOperationError {
        operation: FileOperation,
        path: String,
        source_path: Option<String>,
        cause: String,
    },
    /// A plugin or configuration manifest could not be parsed; `text`
    /// carries the offending text when it is available.
    ManifestParseError { text: Option<String>, cause: String },
    /// Any other failure, described in prose.
    OtherError(String),
}

/// The decimal digit character for a value below ten.
pub open spec fn spec_digit(d: int) -> char {
    if d == 0 {
        '0'
    } else if d == 1 {
        '1'
    } else if d == 2 {
        '2'
    } else if d == 3 {
        '3'
    } else if d == 4 {
        '4'
    } else if d == 5 {
        '5'
    } else if d == 6 {
        '6'
    } else if d == 7 {
        '7'
    } else if d == 8 {
        '8'
    } else {
        '9'
    }
}

/// Decimal rendering of a natural number.
pub open spec fn spec_dec_nat(n: nat) -> Seq<char>
    decreases n,
{
    if n < 10 {
        seq![spec_digit(n as int)]
    } else {
        spec_dec_nat(n / 10) + seq![spec_digit((n % 10) as int)]
    }
}

/// Decimal rendering of an integer, with a leading minus sign when
/// negative.
pub open spec fn spec_dec_int(n: int) -> Seq<char> {
    if n < 0 {
        seq!['-'] + spec_dec_nat((-n) as nat)
    } else {
        spec_dec_nat(n as nat)
    }
}

/// The single-character text of a decimal digit.
fn digit_str(d: u64) -> (r: &'static str)
    requires
        d < 10,
    ensures
        r@ == seq![spec_digit(d as int)],
{
    proof {
        reveal_strlit("0");
        reveal_strlit("1");
        reveal_strlit("2");
        reveal_strlit("3");
        reveal_strlit("4");
        reveal_strlit("5");
        reveal_strlit("6");
        reveal_strlit("7");
        reveal_strlit("8");
        reveal_strlit("9");
    }
    let r = match d {
        0 => "0",
        1 => "1",
        2 => "2",
        3 => "3",
        4 => "4",
        5 => "5",
        6 => "6",
        7 => "7",
        8 => "8",
        _ => "9",
    };
    proof {
        assert(r@ =~= seq![spec_digit(d as int)]);
    }
    r
}

/// Decimal text of an unsigned value.
pub fn u64_dec(n: u64) -> (r: String)
    ensures
        r@ == spec_dec_nat(n as nat),
    decreases n,
{
    if n < 10 {
        String::from_str(digit_str(n))
    } else {
        let prefix = u64_dec(n / 10);
        let r = prefix.concat(digit_str(n % 10));
        proof {
            assert(r@ =~= spec_dec_nat(n as nat));
        }
        r
    }
}

/// Decimal text of a signed value.
pub fn i32_dec(n: i32) -> (r: String)
    ensures
        r@ == spec_dec_int(n as int),
{
    let wide: i64 = n as i64;
    if wide < 0 {
        proof {
            reveal_strlit("-");
        }
        let r = String::from_str("-").concat(u64_dec((-wide) as u64).as_str());
        proof {
            assert("-"@ =~= seq!['-']);
            assert(r@ =~= spec_dec_int(n as int));
        }
        r
    } else {
        u64_dec(wide as u64)
    }
}

/// The tag name of a file operation, as text.
pub open spec fn spec_operation_name(op: FileOperation) -> Seq<char> {
    match op {
        FileOperation::CreateDir => "CreateDir"@,
        FileOperation::Copy => "Copy"@,
        FileOperation::Move => "Move"@,
        FileOperation::Remove => "Remove"@,
        FileOperation::RemoveDir => "RemoveDir"@,
        FileOperation::Read => "Read"@,
        FileOperation::Write => "Write"@,
        FileOperation::Open => "Open"@,
        FileOperation::Create => "Create"@,
        FileOperation::SymLink => "SymLink"@,
        FileOperation::MetaData => "MetaData"@,
        FileOperation::CopyDir => "CopyDir"@,
        FileOperation::MkDir => "MkDir"@,
        FileOperation::ReadDir => "ReadDir"@,
        FileOperation::Canonicalize => "Canonicalize"@,
        FileOperation::Command => "Command"@,
        FileOperation::Unarchive => "Unarchive"@,
    }
}

impl FileOperation {
    /// The tag name, as text.
    pub fn name(&self) -> (r: &'static str)
        ensures
            r@ == spec_operation_name(*self),
    {
        match self {
            FileOperation::CreateDir => "CreateDir",
            FileOperation::Copy => "Copy",
            FileOperation::Move => "Move",
            FileOperation::Remove => "Remove",
            FileOperation::RemoveDir => "RemoveDir",
            FileOperation::Read => "Read",
            FileOperation::Write => "Write",
            FileOperation::Open => "Open",
            FileOperation::Create => "Create",
            FileOperation::SymLink => "SymLink",
            FileOperation::MetaData => "MetaData",
            FileOperation::CopyDir => "CopyDir",
            FileOperation::MkDir => "MkDir",
            FileOperation::ReadDir => "ReadDir",
            FileOperation::Canonicalize => "Canonicalize",
            FileOperation::Command => "Command",
            FileOperation::Unarchive => "Unarchive",
        }
    }
}

/// The exit-status part of a tool failure message.
pub open spec fn spec_status_text(status: Option<i32>) -> Seq<char> {
    match status {
        Some(c) => spec_dec_int(c as int),
        None => "terminated by a signal"@,
    }
}

/// The full, deterministic, human-readable message of a build error.
pub open spec fn spec_message(e: &BuildError) -> Seq<char> {
    match e {
        BuildError::ToolError { command, status, stdout, stderr } => "Tool Failed\nTool Status: "@
            + spec_status_text(*status) + "\nCommand: "@ + command@ + "\nStderr:\n"@ + stderr@
            + "\nStdout:\n"@ + stdout@,
        BuildError::FlutterNotFoundError => "Can't able to find flutter Plase make sure 'flutter' executable is in PATH"@,
        BuildError::FlutterPathInvalidError { path } => "Flutter path "@ + path@
            + " doesn't seem to be a valid flutter installation"@,
        BuildError::FlutterLocalEngineNotFound => "Could not able to find the flutter engine please specify the correct path"@,
        BuildError::FileOperationError { operation, path, source_path: Some(sp), cause } => "File operation failed: "@
            + spec_operation_name(*operation) + ", target path: "@ + path@ + ", source path: "@
            + sp@ + ", error: "@ + cause@,
        BuildError::FileOperationError { operation, path, source_path: None, cause } => "File operation failed: "@
            + spec_operation_name(*operation) + ", path: "@ + path@ + ", error: "@ + cause@,
        BuildError::ManifestParseError { text: Some(t), cause } => "Manifest parse failed: "@
            + cause@ + "\nText:\n"@ + t@,
        BuildError::ManifestParseError { text: None, cause } => "Manifest parse failed: "@
            + cause@,
        BuildError::OtherError(msg) => msg@,
    }
}

impl BuildError {
    /// Renders the error as the deterministic multi-line diagnostic a
    /// build log shows. Every variant keeps all of its context: tool
    /// errors show the command, status and the full captured output, and
    /// file errors show the operation, the target and any source path.
    pub fn format_message(&self) -> (r: String)
        ensures
            r@ == spec_message(self),
    {
        let r = match self {
            BuildError::ToolError { command, status, stdout, stderr } => {
                let status_text = match status {
                    Some(c) => i32_dec(*c),
                    None => String::from_str("terminated by a signal"),
                };
                let mut s = String::from_str("Tool Failed\nTool Status: ");
                s.append(status_text.as_str());
                s.append("\nCommand: ");
                s.append(command.as_str());
                s.append("\nStderr:\n");
                s.append(stderr.as_str());
                s.append("\nStdout:\n");
                s.append(stdout.as_str());
                s
            },
            BuildError::FlutterNotFoundError => String::from_str(
                "Can't able to find flutter Plase make sure 'flutter' executable is in PATH",
            ),
            BuildError::FlutterPathInvalidError { path } => {
                let mut s = String::from_str("Flutter path ");
                s.append(path.as_str());
                s.append(" doesn't seem to be a valid flutter installation");
                s
            },
            BuildError::FlutterLocalEngineNotFound => String::from_str(
                "Could not able to find the flutter engine please specify the correct path",
            ),
            BuildError::FileOperationError { operation, path, source_path, cause } => {
                let mut s = String::from_str("File operation failed: ");
                s.append(operation.name());
                match source_path {
                    Some(sp) => {
                        s.append(", target path: ");
                        s.append(path.as_str());
                        s.append(", source path: ");
                        s.append(sp.as_str());
                    },
                    None => {
                        s.append(", path: ");
                        s.append(path.as_str());
                    },
                }
                s.append(", error: ");
                s.append(cause.as_str());
                s
            },
            BuildError::ManifestParseError { text, cause } => {
                let mut s = String::from_str("Manifest parse failed: ");
                s.append(cause.as_str());
                match text {
                    Some(t) => {
                        s.append("\nText:\n");
                        s.append(t.as_str());
                    },
                    None => {},
                }
                s
            },
            BuildError::OtherError(msg) => msg.clone(),
        };
        proof {
            assert(r@ =~= spec_message(self));
        }
        r
    }
}

/// Result type used by every fallible operation of this library.
pub type BuildResult<T> = Result<T, BuildError>;

/// Attaches an operation kind and target path to a raw failure, keeping
/// the underlying cause.
pub fn wrap_error<T>(r: Result<T, String>, operation: FileOperation, path: String) -> (res:
    BuildResult<T>)
    ensures
        r is Ok <==> res is Ok,
        r is Ok ==> res->Ok_0 == r->Ok_0,
        r is Err ==> res == Result::<T, BuildError>::Err(
            BuildError::FileOperationError {
                operation,
                path,
                source_path: None,
                cause: r->Err_0,
            },
        ),
{
    match r {
        Ok(v) => Ok(v),
        Err(cause) => Err(
            BuildError::FileOperationError { operation, path, source_path: None, cause },
        ),
    }
}

/// As [`wrap_error`], but also records the source path of a two-path
/// operation such as a copy or a move.
pub fn wrap_error_with_src<T>(
    r: Result<T, String>,
    operation: FileOperation,
    path: String,
    source_path: String,
) -> (res: BuildResult<T>)
    ensures
        r is Ok <==> res is Ok,
        r is Ok ==> res->Ok_0 == r->Ok_0,
        r is Err ==> res == Result::<T, BuildError>::Err(
            BuildError::FileOperationError {
                operation,
                path,
                source_path: Some(source_path),
                cause: r->Err_0,
            },
        ),
{
    match r {
        Ok(v) => Ok(v),
        Err(cause) => Err(
            BuildError::FileOperationError {
                operation,
                path,
                source_path: Some(source_path),
                cause,
            },
        ),
    }
}

} // verus!
