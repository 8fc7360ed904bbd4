use merge_tools::command::CommandNameAndArgs;
use merge_tools::edit_diff::{
    plan_dirs, EditorReady, SetUpFailure, SetUpStep, Side, SidesReady, INSTRUCTIONS_FILE,
    TEMP_DIR_PREFIX,
};
use merge_tools::errors::{
    CheckoutError, ConfigError, DiffEditError, ExitStatus, ExternalToolError, IoError,
    SnapshotError,
};
use merge_tools::repo::{RepoPath, TreeId};
use merge_tools::settings::{Ui, UserSettings, DIFF_EDITOR_KEY};
use merge_tools::table::Table;

fn io_error() -> IoError {
    IoError {
        display: "d".to_owned(),
        debug: "D".to_owned(),
    }
}

fn path(name: &str) -> RepoPath {
    RepoPath {
        components: vec![name.to_owned()],
    }
}

fn settings(line: &str) -> UserSettings {
    let mut commands = Table::new();
    commands.insert(DIFF_EDITOR_KEY, Ok(CommandNameAndArgs::String(line.to_owned())));
    UserSettings {
        commands,
        merge_tools: Ok(Table::new()),
    }
}

fn sides(instructions: &str, is_taken: bool) -> SidesReady {
    let planned = plan_dirs(vec![path("f")], instructions.to_owned());
    let dirs = planned.on_set_up(Ok(())).ok().unwrap();
    assert_eq!(dirs.has_instructions(), !instructions.is_empty());
    dirs.on_lookup(is_taken).on_written(Ok(())).ok().unwrap()
}

fn ready(sides: SidesReady, line: &str) -> EditorReady {
    let mut ui = Ui::new();
    let chosen = sides.choose_editor(&mut ui, &settings(line)).ok().unwrap();
    assert!(ui.hints().is_empty());
    chosen.on_paths("/t/left", "/t/right")
}

fn step_text(step: &SetUpStep) -> String {
    match step {
        SetUpStep::CreateTempDir { prefix } => format!("temp {prefix}"),
        SetUpStep::CreateDir { name } => format!("dir {name}"),
        SetUpStep::CheckOut {
            side,
            wc_dir,
            state_dir,
            sparse_patterns,
        } => {
            let side = if *side == Side::Left { "L" } else { "R" };
            let paths: Vec<_> =
                sparse_patterns.iter().map(RepoPath::to_internal_file_string).collect();
            format!("check out {side} {wc_dir} {state_dir} {}", paths.join(","))
        }
        SetUpStep::MakeReadOnly { name } => format!("read-only {name}"),
    }
}

#[test]
fn left_side_is_read_only() {
    let planned = plan_dirs(vec![path("f"), path("g")], String::new());
    let steps: Vec<_> = planned.steps().iter().map(step_text).collect();
    assert_eq!(
        steps,
        [
            "temp jj-diff-edit-",
            "dir left",
            "dir left_state",
            "check out L left left_state f,g",
            "read-only left",
            "dir right",
            "dir right_state",
            "check out R right right_state f,g",
        ],
    );
    assert_eq!(TEMP_DIR_PREFIX, "jj-diff-edit-");
    assert_eq!(INSTRUCTIONS_FILE, "JJ-INSTRUCTIONS");
}

#[test]
fn directories_must_be_made() {
    let planned = plan_dirs(vec![], String::new());
    match planned.on_set_up(Err(SetUpFailure::Io(io_error()))) {
        Err(DiffEditError::ExternalToolError(ExternalToolError::SetUpDirError(e))) => {
            assert_eq!(e.debug, "D");
        }
        _ => panic!(),
    }
}

#[test]
fn trees_must_be_checked_out() {
    let planned = plan_dirs(vec![], String::new());
    let failure = CheckoutError {
        debug: "C".to_owned(),
    };
    match planned.on_set_up(Err(SetUpFailure::CheckOut(failure))) {
        Err(DiffEditError::CheckoutError(e)) => assert_eq!(e.debug, "C"),
        _ => panic!(),
    }
}

#[test]
fn instructions_are_written_where_there_is_no_such_file() {
    let instructions = |text: &str, is_taken| {
        let dirs = plan_dirs(vec![], text.to_owned()).on_set_up(Ok(())).ok().unwrap();
        dirs.on_lookup(is_taken).instructions().clone()
    };
    assert_eq!(instructions("do it", false), Some("do it".to_owned()));
    assert_eq!(instructions("do it", true), None);
    assert_eq!(instructions("", false), None);
    assert_eq!(instructions("", true), None);
}

#[test]
fn instructions_are_on_the_right_side() {
    let place = ("right", "JJ-INSTRUCTIONS");
    let dirs = plan_dirs(vec![], "do it".to_owned()).on_set_up(Ok(())).ok().unwrap();
    assert_eq!(dirs.instructions_place(), place);
    assert_eq!(dirs.on_lookup(false).instructions_place(), place);
    let editor = ready(sides("do it", false), "foo");
    let finished = editor.on_exit(Ok(ExitStatus { code: Some(0) })).ok().unwrap();
    assert_eq!(finished.instructions_place(), place);
}

#[test]
fn instructions_must_be_written() {
    let dirs = plan_dirs(vec![], "do it".to_owned()).on_set_up(Ok(())).ok().unwrap();
    match dirs.on_lookup(false).on_written(Err(io_error())) {
        Err(DiffEditError::ExternalToolError(ExternalToolError::SetUpDirError(e))) => {
            assert_eq!(e.debug, "D");
        }
        _ => panic!(),
    }
    let dirs = plan_dirs(vec![], String::new()).on_set_up(Ok(())).ok().unwrap();
    assert!(dirs.on_lookup(false).on_written(Err(io_error())).is_ok());
}

#[test]
fn editor_must_be_known() {
    let mut settings = settings("foo");
    settings.merge_tools = Err(ConfigError::Message("bad".to_owned()));
    match sides("", false).choose_editor(&mut Ui::new(), &settings) {
        Err(DiffEditError::ExternalToolError(ExternalToolError::ConfigError(
            ConfigError::Message(text),
        ))) => assert_eq!(text, "bad"),
        _ => panic!(),
    }
}

#[test]
fn default_args_become_dirs() {
    let editor = ready(sides("", false), "foo");
    assert_eq!(*editor.program(), "foo");
    assert_eq!(*editor.args(), ["/t/left", "/t/right"]);
}

#[test]
fn references_become_dirs() {
    let editor = ready(sides("", false), "foo -l=$left $right/x $output");
    assert_eq!(*editor.args(), ["-l=/t/left", "/t/right/x", "$output"]);
}

#[test]
fn editor_must_start() {
    match ready(sides("", false), "foo").on_exit(Err(io_error())) {
        Err(DiffEditError::ExternalToolError(ExternalToolError::FailedToExecute {
            tool_binary,
            source,
        })) => {
            assert_eq!(tool_binary, "foo");
            assert_eq!(source.debug, "D");
        }
        _ => panic!(),
    }
}

#[test]
fn editor_must_end_well() {
    match ready(sides("", false), "foo").on_exit(Ok(ExitStatus { code: Some(7) })) {
        Err(DiffEditError::ExternalToolError(ExternalToolError::ToolAborted { exit_status })) => {
            assert_eq!(exit_status.code, Some(7));
        }
        _ => panic!(),
    }
}

#[test]
fn added_instructions_are_removed() {
    for (text, is_taken, removes) in [
        ("do it", false, true),
        ("do it", true, false),
        ("", false, false),
        ("", true, false),
    ] {
        let editor = ready(sides(text, is_taken), "foo");
        let finished = editor.on_exit(Ok(ExitStatus { code: Some(0) })).ok().unwrap();
        assert_eq!(finished.removes_instructions(), removes);
    }
}

#[test]
fn recorded_tree_is_the_result() {
    let finished = || {
        let editor = ready(sides("", false), "foo");
        editor.on_exit(Ok(ExitStatus { code: Some(0) })).ok().unwrap()
    };
    assert_eq!(finished().on_snapshot(Ok(TreeId(vec![4, 2]))).unwrap().0, [4, 2]);
    let failure = SnapshotError {
        debug: "S".to_owned(),
    };
    match finished().on_snapshot(Err(failure)) {
        Err(DiffEditError::SnapshotError(e)) => assert_eq!(e.debug, "S"),
        _ => panic!(),
    }
}
