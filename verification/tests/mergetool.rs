use merge_tools::command::CommandNameAndArgs;
use merge_tools::errors::{
    BackendError, ConflictResolveError, ExitStatus, ExternalToolError, IoError,
};
use merge_tools::repo::{ConflictContent, ConflictHunk, ConflictId, FileId, RepoPath, TreeValue};
use merge_tools::run_mergetool::{
    find_conflict, FileRole, FilesPrepared, OutputAccepted, SimpleConflict, StoreFileError,
    ToolFinished, ToolPaths, ToolReady, TEMP_DIR_PREFIX,
};
use merge_tools::settings::{MergeToolEntry, Ui, UserSettings, MERGE_EDITOR_KEY};
use merge_tools::table::Table;

fn path(components: &[&str]) -> RepoPath {
    RepoPath {
        components: components.iter().map(|name| name.to_string()).collect(),
    }
}

fn io_error() -> IoError {
    IoError {
        display: "d".to_owned(),
        debug: "D".to_owned(),
    }
}

fn backend_error() -> BackendError {
    BackendError {
        debug: "B".to_owned(),
    }
}

fn settings(edits_markers: bool) -> UserSettings {
    let mut commands = Table::new();
    commands.insert(MERGE_EDITOR_KEY, Ok(CommandNameAndArgs::String("foo".to_owned())));
    let mut tools = Table::new();
    let args = ["--auto", "$left", "$base:$right", "-o$output", "$unknown"];
    tools.insert(
        "foo",
        Ok(MergeToolEntry {
            program: Some("Foo".to_owned()),
            edit_args: None,
            merge_args: Some(args.map(ToOwned::to_owned).to_vec()),
            merge_tool_edits_conflict_markers: Some(edits_markers),
        }),
    );
    UserSettings {
        commands,
        merge_tools: Ok(tools),
    }
}

fn hunk(removes: &[&str], adds: &[&str]) -> ConflictHunk {
    ConflictHunk {
        removes: removes.iter().map(|term| term.as_bytes().to_vec()).collect(),
        adds: adds.iter().map(|term| term.as_bytes().to_vec()).collect(),
    }
}

fn simple(repo_path: RepoPath, hunk: ConflictHunk) -> Result<SimpleConflict, ConflictResolveError> {
    let found = find_conflict(repo_path, Some(TreeValue::Conflict(ConflictId(vec![1]))))?;
    assert_eq!(found.conflict_id().0, [1]);
    found.on_conflict(Ok(ConflictContent::Hunk(hunk)))
}

fn prepared(repo_path: RepoPath, hunk: ConflictHunk, edits_markers: bool) -> FilesPrepared {
    let mut ui = Ui::new();
    let simple = simple(repo_path, hunk).ok().unwrap();
    let chosen = simple.choose_tool(&mut ui, &settings(edits_markers)).ok().unwrap();
    assert!(ui.hints().is_empty());
    assert_eq!(chosen.starts_from_markers(), edits_markers);
    chosen.on_materialized(b"<<<".to_vec())
}

fn ready(edits_markers: bool) -> ToolReady {
    let paths = ToolPaths {
        base: "/t/base".to_owned(),
        right: "/t/right".to_owned(),
        left: "/t/left".to_owned(),
        output: "/t/output".to_owned(),
    };
    let prepared = prepared(path(&["d", "f"]), hunk(&["b"], &["l", "r"]), edits_markers);
    prepared.on_files(Ok(paths)).ok().unwrap()
}

fn finished(edits_markers: bool) -> ToolFinished {
    ready(edits_markers).on_exit(Ok(ExitStatus { code: Some(0) })).ok().unwrap()
}

fn accepted(edits_markers: bool) -> OutputAccepted {
    finished(edits_markers).on_output(Ok(b"new".to_vec())).ok().unwrap()
}

#[test]
fn path_must_exist() {
    match find_conflict(path(&["f"]), None) {
        Err(ConflictResolveError::PathNotFoundError(path)) => assert_eq!(path.components, ["f"]),
        _ => panic!(),
    }
}

#[test]
fn path_must_be_a_conflict() {
    let file = TreeValue::File {
        id: FileId(vec![1]),
        executable: false,
    };
    for value in [file, TreeValue::Other] {
        match find_conflict(path(&["f"]), Some(value)) {
            Err(ConflictResolveError::NotAConflictError(path)) => {
                assert_eq!(path.components, ["f"]);
            }
            _ => panic!(),
        }
    }
}

#[test]
fn conflict_must_be_readable() {
    let value = TreeValue::Conflict(ConflictId(vec![1]));
    let found = find_conflict(path(&["f"]), Some(value)).ok().unwrap();
    assert_eq!(found.repo_path().components, ["f"]);
    match found.on_conflict(Err(backend_error())) {
        Err(ConflictResolveError::BackendError(e)) => assert_eq!(e.debug, "B"),
        _ => panic!(),
    }
}

#[test]
fn conflict_must_be_between_normal_files() {
    let summary_of = |summary: &[u8]| {
        let value = TreeValue::Conflict(ConflictId(vec![1]));
        let found = find_conflict(path(&["f"]), Some(value)).ok().unwrap();
        let summary = summary.to_vec();
        match found.on_conflict(Ok(ConflictContent::NotNormalFiles { summary })) {
            Err(ConflictResolveError::NotNormalFilesError(_, text)) => text,
            _ => panic!(),
        }
    };
    assert_eq!(summary_of("a symlink \u{e9}".as_bytes()), "a symlink \u{e9}");
    assert_eq!(summary_of(b"a\xffb"), "a\u{fffd}b");
}

#[test]
fn conflict_must_be_simple() {
    for (removes, adds) in [(2, 2), (1, 3), (2, 3), (0, 3)] {
        let terms = vec!["x"; 3];
        match simple(path(&["f"]), hunk(&terms[..removes], &terms[..adds])) {
            Err(ConflictResolveError::ConflictTooComplicatedError {
                path,
                removes: r,
                adds: a,
            }) => {
                assert_eq!(path.components, ["f"]);
                assert_eq!((r, a), (removes, adds));
            }
            _ => panic!(),
        }
    }
    for (removes, adds) in [(0, 0), (0, 2), (1, 1), (1, 2)] {
        let terms = vec!["x"; 2];
        let simple = simple(path(&["f"]), hunk(&terms[..removes], &terms[..adds])).ok().unwrap();
        assert_eq!(simple.hunk().removes.len(), removes);
        assert_eq!(simple.hunk().adds.len(), adds);
    }
}

#[test]
fn tool_must_be_for_merges() {
    let settings = UserSettings {
        commands: Table::new(),
        merge_tools: Ok(Table::new()),
    };
    let mut ui = Ui::new();
    let simple = simple(path(&["f"]), hunk(&["b"], &["l", "r"])).ok().unwrap();
    match simple.choose_tool(&mut ui, &settings) {
        Err(ConflictResolveError::ExternalToolError(
            ExternalToolError::MergeArgsNotConfigured { tool_name },
        )) => assert_eq!(tool_name, "meld"),
        _ => panic!(),
    }
    assert_eq!(ui.hints().len(), 1);
}

#[test]
fn terms_become_sides() {
    let prepared = prepared(path(&["d", "f.txt"]), hunk(&["b"], &["l", "r"]), false);
    let files: Vec<_> = prepared
        .files()
        .iter()
        .map(|file| (file.name.as_str(), file.contents.as_slice(), file.read_only))
        .collect();
    assert_eq!(
        files,
        [
            ("base_f.txt", b"b".as_slice(), true),
            ("right_f.txt", b"r".as_slice(), true),
            ("left_f.txt", b"l".as_slice(), true),
            ("output_f.txt", b"".as_slice(), false),
        ],
    );
}

#[test]
fn missing_terms_are_empty_files() {
    let prepared = prepared(path(&["f"]), hunk(&[], &["a"]), false);
    let contents: Vec<_> = prepared.files().iter().map(|file| file.contents.as_slice()).collect();
    assert_eq!(contents, [b"".as_slice(), b"a".as_slice(), b"".as_slice(), b"".as_slice()]);
}

#[test]
fn root_has_files_without_suffix() {
    let prepared = prepared(path(&[]), hunk(&["b"], &["l", "r"]), false);
    let names: Vec<_> = prepared.files().iter().map(|file| file.name.as_str()).collect();
    assert_eq!(names, ["base", "right", "left", "output"]);
    for file in prepared.files() {
        assert_eq!(file.name, file.role.name());
        assert_eq!(file.read_only, file.role != FileRole::Output);
    }
}

#[test]
fn output_starts_with_markers_where_those_are_edited() {
    let prepared = prepared(path(&["f"]), hunk(&["b"], &["l", "r"]), true);
    assert_eq!(prepared.files()[3].contents, b"<<<");
}

#[test]
fn files_must_be_written() {
    assert_eq!(TEMP_DIR_PREFIX, "jj-resolve-");
    let prepared = prepared(path(&["f"]), hunk(&["b"], &["l", "r"]), false);
    match prepared.on_files(Err(io_error())) {
        Err(ConflictResolveError::ExternalToolError(ExternalToolError::SetUpDirError(e))) => {
            assert_eq!(e.debug, "D");
        }
        _ => panic!(),
    }
}

#[test]
fn references_become_paths() {
    let ready = ready(false);
    assert_eq!(*ready.program(), "Foo");
    assert_eq!(
        *ready.args(),
        ["--auto", "/t/left", "/t/base:/t/right", "-o/t/output", "$unknown"],
    );
}

#[test]
fn output_comes_from_the_output_file() {
    for edits_markers in [false, true] {
        assert_eq!(finished(edits_markers).output_path(), "/t/output");
        let updated = accepted(edits_markers).on_update(Ok(None)).ok().unwrap();
        assert_eq!(updated.output_path(), "/t/output");
    }
}

#[test]
fn tool_must_start() {
    match ready(false).on_exit(Err(io_error())) {
        Err(ConflictResolveError::ExternalToolError(ExternalToolError::FailedToExecute {
            tool_binary,
            source,
        })) => {
            assert_eq!(tool_binary, "Foo");
            assert_eq!(source.display, "d");
        }
        _ => panic!(),
    }
}

#[test]
fn tool_must_end_well() {
    for code in [Some(1), Some(-1), None] {
        match ready(false).on_exit(Ok(ExitStatus { code })) {
            Err(ConflictResolveError::ExternalToolError(ExternalToolError::ToolAborted {
                exit_status,
            })) => assert_eq!(exit_status.code, code),
            _ => panic!(),
        }
    }
}

#[test]
fn output_must_be_readable() {
    match finished(false).on_output(Err(io_error())) {
        Err(ConflictResolveError::ExternalToolError(ExternalToolError::IoError(e))) => {
            assert_eq!(e.debug, "D");
        }
        _ => panic!(),
    }
}

#[test]
fn empty_or_unchanged_output_is_refused() {
    for (edits_markers, output) in [(false, ""), (true, ""), (true, "<<<")] {
        match finished(edits_markers).on_output(Ok(output.as_bytes().to_vec())) {
            Err(ConflictResolveError::EmptyOrUnchanged) => {}
            _ => panic!(),
        }
    }
    for (edits_markers, output) in [(false, "<<<"), (true, "<<"), (true, "<<="), (true, "<<<<")] {
        let accepted = finished(edits_markers).on_output(Ok(output.as_bytes().to_vec()));
        let accepted = accepted.ok().unwrap();
        assert_eq!(accepted.output(), output.as_bytes());
        assert_eq!(accepted.edits_markers(), edits_markers);
        assert_eq!(accepted.conflict_id().0, [1]);
        assert_eq!(accepted.repo_path().components, ["d", "f"]);
    }
}

#[test]
fn output_without_markers_is_final() {
    // Nothing that is said of markers matters to a tool that does not edit them.
    for rest in [Ok(None), Ok(Some(ConflictId(vec![2]))), Err(backend_error())] {
        let updated = accepted(false).on_update(rest).ok().unwrap();
        assert_eq!(updated.repo_path().components, ["d", "f"]);
        let change = updated.on_stored(Ok(FileId(vec![3]))).ok().unwrap();
        assert_eq!(change.repo_path.components, ["d", "f"]);
        match change.value {
            TreeValue::File { id, executable } => {
                assert_eq!(id.0, [3]);
                assert!(!executable);
            }
            value => panic!("{:?}", value),
        }
    }
}

#[test]
fn remaining_markers_leave_a_conflict() {
    let updated = accepted(true).on_update(Ok(Some(ConflictId(vec![2])))).ok().unwrap();
    match updated.on_stored(Ok(FileId(vec![3]))).ok().unwrap().value {
        TreeValue::Conflict(id) => assert_eq!(id.0, [2]),
        value => panic!("{:?}", value),
    }
    let updated = accepted(true).on_update(Ok(None)).ok().unwrap();
    match updated.on_stored(Ok(FileId(vec![3]))).ok().unwrap().value {
        TreeValue::File { id, .. } => assert_eq!(id.0, [3]),
        value => panic!("{:?}", value),
    }
}

#[test]
fn markers_must_be_understood() {
    match accepted(true).on_update(Err(backend_error())) {
        Err(ConflictResolveError::BackendError(e)) => assert_eq!(e.debug, "B"),
        _ => panic!(),
    }
}

#[test]
fn output_must_be_stored() {
    // This is so even where a part of the conflict is left.
    for rest in [None, Some(ConflictId(vec![2]))] {
        let updated = accepted(true).on_update(Ok(rest)).ok().unwrap();
        match updated.on_stored(Err(StoreFileError::Open(io_error()))) {
            Err(ConflictResolveError::ExternalToolError(ExternalToolError::IoError(e))) => {
                assert_eq!(e.debug, "D");
            }
            _ => panic!(),
        }
    }
    let updated = accepted(false).on_update(Ok(None)).ok().unwrap();
    match updated.on_stored(Err(StoreFileError::Write(backend_error()))) {
        Err(ConflictResolveError::BackendError(e)) => assert_eq!(e.debug, "B"),
        _ => panic!(),
    }
}
