use rustyflutter_build::error::{
    i32_dec, u64_dec, wrap_error, wrap_error_with_src, BuildError, FileOperation,
};
use rustyflutter_build::invoker::{
    build_bundle_invocation, interpret_tool_outcome, BuildMode, ToolOutcome,
};
use rustyflutter_build::path::FsPath;

fn abs(segments: &[&str]) -> FsPath {
    FsPath {
        absolute: true,
        segments: segments.iter().map(|s| s.to_string()).collect(),
    }
}

#[test]
fn decimal_rendering_is_exact() {
    assert_eq!(u64_dec(0).as_str(), "0");
    assert_eq!(u64_dec(7).as_str(), "7");
    assert_eq!(u64_dec(1234567).as_str(), "1234567");
    assert_eq!(i32_dec(-12).as_str(), "-12");
    assert_eq!(i32_dec(i32::MIN).as_str(), "-2147483648");
}

#[test]
fn wrap_error_attaches_operation_and_path() {
    let r: Result<u32, String> = Err("denied".to_string());
    let err = wrap_error(r, FileOperation::Read, "/etc/x".to_string()).unwrap_err();
    match err {
        BuildError::FileOperationError { operation, path, source_path, cause } => {
            assert!(matches!(operation, FileOperation::Read));
            assert_eq!(path.as_str(), "/etc/x");
            assert!(source_path.is_none());
            assert_eq!(cause.as_str(), "denied");
        }
        other => panic!("unexpected error: {}", other.format_message()),
    }
    assert_eq!(wrap_error(Ok(5u32), FileOperation::Read, String::new()).unwrap(), 5);
}

#[test]
fn wrap_error_with_src_keeps_both_paths() {
    let r: Result<(), String> = Err("io".to_string());
    let err =
        wrap_error_with_src(r, FileOperation::Copy, "/dst".to_string(), "/src".to_string())
            .unwrap_err();
    let msg = err.format_message();
    assert_eq!(
        msg.as_str(),
        "File operation failed: Copy, target path: /dst, source path: /src, error: io"
    );
}

#[test]
fn tool_error_message_is_deterministic() {
    let err = BuildError::ToolError {
        command: "flutter build bundle".to_string(),
        status: Some(1),
        stdout: "out".to_string(),
        stderr: "err".to_string(),
    };
    assert_eq!(
        err.format_message().as_str(),
        "Tool Failed\nTool Status: 1\nCommand: flutter build bundle\nStderr:\nerr\nStdout:\nout"
    );
}

#[test]
fn every_variant_renders_its_context() {
    let msg = BuildError::FlutterPathInvalidError { path: "/p".to_string() }.format_message();
    assert_eq!(msg.as_str(), "Flutter path /p doesn't seem to be a valid flutter installation");
    let msg = BuildError::FileOperationError {
        operation: FileOperation::MkDir,
        path: "/a".to_string(),
        source_path: None,
        cause: "full".to_string(),
    }
    .format_message();
    assert_eq!(msg.as_str(), "File operation failed: MkDir, path: /a, error: full");
    let msg = BuildError::ManifestParseError {
        text: Some("x: [".to_string()),
        cause: "bad".to_string(),
    }
    .format_message();
    assert_eq!(msg.as_str(), "Manifest parse failed: bad\nText:\nx: [");
    let msg = BuildError::OtherError("boom".to_string()).format_message();
    assert_eq!(msg.as_str(), "boom");
    assert_eq!(
        BuildError::FlutterNotFoundError.format_message().as_str(),
        "Can't able to find flutter Plase make sure 'flutter' executable is in PATH"
    );
    assert_eq!(
        BuildError::FlutterLocalEngineNotFound.format_message().as_str(),
        "Could not able to find the flutter engine please specify the correct path"
    );
}

#[test]
fn nonzero_exit_yields_tool_error_with_exact_output() {
    let inv = build_bundle_invocation(
        &abs(&["sdk", "bin", "flutter"]),
        &"android".to_string(),
        BuildMode::Release,
        &abs(&["proj"]),
    );
    let outcome = ToolOutcome {
        code: Some(1),
        stdout: "partial work".to_string(),
        stderr: "asset not found".to_string(),
    };
    let err = interpret_tool_outcome(&inv, outcome).unwrap_err();
    match err {
        BuildError::ToolError { command, status, stdout, stderr } => {
            assert_eq!(
                command.as_str(),
                "/sdk/bin/flutter build bundle --target-platform android --release"
            );
            assert_eq!(status, Some(1));
            assert_eq!(stdout.as_str(), "partial work");
            assert_eq!(stderr.as_str(), "asset not found");
        }
        other => panic!("unexpected error: {}", other.format_message()),
    }
}

#[test]
fn zero_exit_hands_back_stdout() {
    let inv = build_bundle_invocation(
        &abs(&["f"]),
        &"linux-x64".to_string(),
        BuildMode::Debug,
        &abs(&["proj"]),
    );
    let outcome = ToolOutcome {
        code: Some(0),
        stdout: "done".to_string(),
        stderr: String::new(),
    };
    assert_eq!(interpret_tool_outcome(&inv, outcome).unwrap().as_str(), "done");
}

#[test]
fn captured_output_is_never_truncated() {
    // A multi-megabyte stream survives interpretation byte for byte.
    let big_out = "o".repeat(3 * 1024 * 1024);
    let big_err = "e".repeat(2 * 1024 * 1024 + 17);
    let inv = build_bundle_invocation(
        &abs(&["f"]),
        &"android".to_string(),
        BuildMode::Profile,
        &abs(&["proj"]),
    );
    let outcome = ToolOutcome {
        code: Some(42),
        stdout: big_out.clone(),
        stderr: big_err.clone(),
    };
    match interpret_tool_outcome(&inv, outcome).unwrap_err() {
        BuildError::ToolError { status, stdout, stderr, .. } => {
            assert_eq!(status, Some(42));
            assert_eq!(stdout, big_out);
            assert_eq!(stderr, big_err);
        }
        other => panic!("unexpected error: {}", other.format_message()),
    }
}

#[test]
fn signal_endings_are_tool_errors_too() {
    let inv = build_bundle_invocation(
        &abs(&["f"]),
        &"android".to_string(),
        BuildMode::Debug,
        &abs(&["proj"]),
    );
    let outcome = ToolOutcome {
        code: None,
        stdout: String::new(),
        stderr: String::new(),
    };
    let err = interpret_tool_outcome(&inv, outcome).unwrap_err();
    match &err {
        BuildError::ToolError { status, .. } => assert_eq!(*status, None),
        other => panic!("unexpected error: {}", other.format_message()),
    }
    assert!(err.format_message().contains("terminated by a signal"));
}
