use merge_tools::errors::{
    BackendError, CheckoutError, ConfigError, ConflictResolveError, DiffEditError, ExitStatus,
    ExternalToolError, IoError, SnapshotError,
};
use merge_tools::repo::RepoPath;

fn io_error() -> IoError {
    IoError {
        display: "not there".to_owned(),
        debug: "NotThere".to_owned(),
    }
}

fn path() -> RepoPath {
    RepoPath {
        components: vec!["dir".to_owned(), "a \"b\"".to_owned()],
    }
}

#[test]
fn config_errors_in_words() {
    let not_found = ConfigError::NotFound("ui.\"x\"".to_owned());
    assert_eq!(not_found.message(), r#"configuration property "ui.\"x\"" not found"#);
    assert_eq!(not_found.message_with("K"), "configuration property K not found");
    assert_eq!(ConfigError::Message("bad".to_owned()).clone().message(), "bad");
}

#[test]
fn tool_errors_in_words() {
    let config = ExternalToolError::from(ConfigError::NotFound("k".to_owned()));
    assert_eq!(config.message(), "Invalid config: configuration property \"k\" not found");
    let message = ExternalToolError::ConfigError(ConfigError::Message("bad".to_owned()));
    assert_eq!(message.message(), "Invalid config: bad");
    let not_configured = ExternalToolError::MergeArgsNotConfigured {
        tool_name: "foo".to_owned(),
    };
    assert_eq!(
        not_configured.message(),
        "To use `foo` as a merge tool, the config `merge-tools.foo.merge-args` must be defined \
         (see docs for details)",
    );
    assert_eq!(
        ExternalToolError::SetUpDirError(io_error()).message(),
        "Error setting up temporary directory: NotThere",
    );
    let failed = ExternalToolError::FailedToExecute {
        tool_binary: "foo".to_owned(),
        source: io_error(),
    };
    assert_eq!(
        failed.message(),
        "Error executing 'foo' (run with --verbose to see the exact invocation). not there",
    );
    assert_eq!(ExternalToolError::from(io_error()).message(), "I/O error: NotThere");
}

#[test]
fn exit_codes_in_words() {
    let aborted = |code| {
        let exit_status = ExitStatus { code };
        ExternalToolError::ToolAborted { exit_status }.message()
    };
    assert_eq!(
        aborted(Some(2)),
        "Tool exited with a non-zero code (run with --verbose to see the exact invocation). Exit \
         code: 2.",
    );
    assert!(aborted(Some(-1)).ends_with(" Exit code: -1."));
    assert!(aborted(None).ends_with(" Exit code: <unknown>."));
}

#[test]
fn exit_statuses_are_judged() {
    assert!(ExitStatus { code: Some(0) }.success());
    assert!(!ExitStatus { code: Some(1) }.success());
    assert!(!ExitStatus { code: None }.success());
}

#[test]
fn diff_errors_in_words() {
    let debug = "Oops".to_owned();
    assert_eq!(
        DiffEditError::from(CheckoutError { debug: debug.clone() }).message(),
        "Failed to write directories to diff: Oops",
    );
    assert_eq!(
        DiffEditError::from(SnapshotError { debug }).message(),
        "Failed to snapshot changes: Oops",
    );
    assert_eq!(DiffEditError::from(io_error()).message(), "I/O error: NotThere");
    let tool = ExternalToolError::SetUpDirError(io_error());
    assert_eq!(
        DiffEditError::from(tool).message(),
        "Error setting up temporary directory: NotThere",
    );
}

#[test]
fn conflict_errors_in_words() {
    assert_eq!(
        ConflictResolveError::PathNotFoundError(path()).message(),
        r#"Couldn't find the path "dir/a \"b\"" in this revision"#,
    );
    assert_eq!(
        ConflictResolveError::NotAConflictError(path()).message(),
        r#"Couldn't find any conflicts at "dir/a \"b\"" in this revision"#,
    );
    assert_eq!(
        ConflictResolveError::NotNormalFilesError(path(), "a symlink\n".to_owned()).message(),
        "Only conflicts that involve normal files (not symlinks, not executable, etc.) are \
         supported. Conflict summary for \"dir/a \\\"b\\\"\":\na symlink\n",
    );
    let complicated = ConflictResolveError::ConflictTooComplicatedError {
        path: path(),
        removes: 2,
        adds: 13,
    };
    assert_eq!(
        complicated.message(),
        "The conflict at \"dir/a \\\"b\\\"\" has 2 removes and 13 adds.\nAt most 1 remove and 2 \
         adds are supported.",
    );
    assert_eq!(
        complicated.message_with("P"),
        "The conflict at P has 2 removes and 13 adds.\nAt most 1 remove and 2 adds are supported.",
    );
    assert_eq!(
        ConflictResolveError::EmptyOrUnchanged.message(),
        "The output file is either unchanged or empty after the editor quit (run with --verbose \
         to see the exact invocation).",
    );
    let backend = BackendError { debug: "Oops".to_owned() };
    assert_eq!(ConflictResolveError::from(backend).message(), "Backend error: Oops");
    assert_eq!(ConflictResolveError::from(io_error()).message(), "I/O error: NotThere");
    let config = ExternalToolError::from(ConfigError::NotFound("k".to_owned()));
    assert_eq!(
        ConflictResolveError::from(config).message(),
        "Invalid config: configuration property \"k\" not found",
    );
}
