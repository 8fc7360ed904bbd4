use config::ValueKind;
use merge_tools::command::{CommandNameAndArgs, NonEmptyCommandArgsVec};
use merge_tools::errors::{ConfigError, ExternalToolError};
use merge_tools::settings::{
    editor_args_from_settings, get_diff_editor_from_settings, get_merge_tool_from_settings,
    get_tool_config, MergeToolEntry, Ui, UserSettings, DIFF_EDITOR_KEY, MERGE_EDITOR_KEY,
    TABLE_KEY,
};
use merge_tools::table::Table;
use merge_tools::tool::MergeTool;

const DEFAULTS: &str = r#"
    [merge-tools.meld]
    merge-args = ["$left", "$base", "$right", "-o", "$output", "--auto-merge"]
"#;

fn config_from_string(text: &str) -> config::Config {
    config::Config::builder()
        // Load defaults to test the default args lookup
        .add_source(config::File::from_str(DEFAULTS, config::FileFormat::Toml))
        .add_source(config::File::from_str(text, config::FileFormat::Toml))
        .build()
        .unwrap()
}

fn config_error(e: config::ConfigError) -> ConfigError {
    match e {
        config::ConfigError::NotFound(key) => ConfigError::NotFound(key),
        e => ConfigError::Message(e.to_string()),
    }
}

fn words(value: config::Value) -> Result<Vec<String>, config::ConfigError> {
    value.into_array()?.into_iter().map(config::Value::into_string).collect()
}

fn command(value: config::Value) -> Result<CommandNameAndArgs, ConfigError> {
    match value.kind {
        ValueKind::String(line) => Ok(CommandNameAndArgs::String(line)),
        ValueKind::Array(_) => match NonEmptyCommandArgsVec::new(words(value).map_err(config_error)?)
        {
            Some(words) => Ok(CommandNameAndArgs::Vec(words)),
            None => Err(ConfigError::Message("no command".to_owned())),
        },
        _ => Err(ConfigError::Message("not a command".to_owned())),
    }
}

fn entry(value: config::Value) -> Result<MergeToolEntry, config::ConfigError> {
    let mut options = value.into_table()?;
    Ok(MergeToolEntry {
        program: options.remove("program").map(config::Value::into_string).transpose()?,
        edit_args: options.remove("edit-args").map(words).transpose()?,
        merge_args: options.remove("merge-args").map(words).transpose()?,
        merge_tool_edits_conflict_markers: options
            .remove("merge-tool-edits-conflict-markers")
            .map(config::Value::into_bool)
            .transpose()?,
    })
}

fn settings_from_config(config: &config::Config) -> UserSettings {
    let mut commands = Table::new();
    for key in [DIFF_EDITOR_KEY, MERGE_EDITOR_KEY] {
        let value = config.get::<config::Value>(key);
        commands.insert(key, value.map_err(config_error).and_then(command));
    }
    let merge_tools = match config.get_table(TABLE_KEY) {
        Ok(tools) => {
            let mut entries = Table::new();
            for (name, value) in tools {
                entries.insert(&name, entry(value).map_err(|e| e.to_string()));
            }
            Ok(entries)
        }
        Err(e) => Err(config_error(e)),
    };
    UserSettings { commands, merge_tools }
}

fn assert_tool(tool: &MergeTool, program: &str, edit_args: &[&str], merge_args: &[&str]) {
    assert_eq!(tool.program, program);
    assert_eq!(tool.edit_args, edit_args);
    assert_eq!(tool.merge_args, merge_args);
    assert!(!tool.merge_tool_edits_conflict_markers);
}

fn assert_not_configured(result: Result<MergeTool, ExternalToolError>, name: &str) {
    match result.unwrap_err() {
        ExternalToolError::MergeArgsNotConfigured { tool_name } => assert_eq!(tool_name, name),
        e => panic!("{:?}", e),
    }
}

#[test]
fn test_get_diff_editor() {
    let get = |text| {
        let config = config_from_string(text);
        let mut ui = Ui::new();
        let settings = settings_from_config(&config);
        get_diff_editor_from_settings(&mut ui, &settings)
    };

    // Default
    assert_tool(
        &get("").unwrap(),
        "meld",
        &["$left", "$right"],
        &["$left", "$base", "$right", "-o", "$output", "--auto-merge"],
    );

    // Just program name, edit_args are filled by default
    assert_tool(
        &get(r#"ui.diff-editor = "my-diff""#).unwrap(),
        "my-diff",
        &["$left", "$right"],
        &[],
    );

    // String args (with interpolation variables)
    assert_tool(
        &get(r#"ui.diff-editor = "my-diff -l $left -r $right""#).unwrap(),
        "my-diff",
        &["-l", "$left", "-r", "$right"],
        &[],
    );

    // List args (with interpolation variables)
    assert_tool(
        &get(r#"ui.diff-editor = ["my-diff", "--diff", "$left", "$right"]"#).unwrap(),
        "my-diff",
        &["--diff", "$left", "$right"],
        &[],
    );

    // Pick from merge-tools
    assert_tool(
        &get(
            r#"
        ui.diff-editor = "foo bar"
        [merge-tools."foo bar"]
        edit-args = ["--edit", "args", "$left", "$right"]
        "#,
        )
        .unwrap(),
        "foo bar",
        &["--edit", "args", "$left", "$right"],
        &[],
    );

    // Pick from merge-tools, but no edit-args specified
    assert_tool(
        &get(
            r#"
        ui.diff-editor = "my-diff"
        [merge-tools.my-diff]
        program = "MyDiff"
        "#,
        )
        .unwrap(),
        "MyDiff",
        &["$left", "$right"],
        &[],
    );

    // List args should never be a merge-tools key, edit_args are filled by default
    assert_tool(
        &get(r#"ui.diff-editor = ["meld"]"#).unwrap(),
        "meld",
        &["$left", "$right"],
        &[],
    );

    // Invalid type
    assert!(get(r#"ui.diff-editor.k = 0"#).is_err());
}

#[test]
fn test_get_merge_tool() {
    let get = |text| {
        let config = config_from_string(text);
        let mut ui = Ui::new();
        let settings = settings_from_config(&config);
        get_merge_tool_from_settings(&mut ui, &settings)
    };

    // Default
    assert_tool(
        &get("").unwrap(),
        "meld",
        &["$left", "$right"],
        &["$left", "$base", "$right", "-o", "$output", "--auto-merge"],
    );

    // Just program name
    assert_not_configured(get(r#"ui.merge-editor = "my-merge""#), "my-merge");

    // String args
    assert_tool(
        &get(r#"ui.merge-editor = "my-merge $left $base $right $output""#).unwrap(),
        "my-merge",
        &["$left", "$right"],
        &["$left", "$base", "$right", "$output"],
    );

    // List args
    assert_tool(
        &get(r#"ui.merge-editor = ["my-merge", "$left", "$base", "$right", "$output"]"#).unwrap(),
        "my-merge",
        &["$left", "$right"],
        &["$left", "$base", "$right", "$output"],
    );

    // Pick from merge-tools
    assert_tool(
        &get(
            r#"
        ui.merge-editor = "foo bar"
        [merge-tools."foo bar"]
        merge-args = ["$base", "$left", "$right", "$output"]
        "#,
        )
        .unwrap(),
        "foo bar",
        &["$left", "$right"],
        &["$base", "$left", "$right", "$output"],
    );

    // List args should never be a merge-tools key
    assert_not_configured(get(r#"ui.merge-editor = ["meld"]"#), "meld");

    // Invalid type
    assert!(get(r#"ui.merge-editor.k = 0"#).is_err());
}

#[test]
fn default_editor_comes_with_a_hint() {
    let settings = settings_from_config(&config_from_string(""));
    let mut ui = Ui::new();
    get_diff_editor_from_settings(&mut ui, &settings).unwrap();
    get_merge_tool_from_settings(&mut ui, &settings).unwrap();
    assert_eq!(
        *ui.hints(),
        [
            "Using default editor 'meld'; you can change this by setting ui.diff-editor",
            "Using default editor 'meld'; you can change this by setting ui.merge-editor",
        ],
    );
}

#[test]
fn chosen_editor_comes_without_a_hint() {
    let settings = settings_from_config(&config_from_string(r#"ui.diff-editor = "my-diff""#));
    let mut ui = Ui::new();
    get_diff_editor_from_settings(&mut ui, &settings).unwrap();
    assert!(ui.hints().is_empty());
}

#[test]
fn key_that_the_settings_do_not_know_is_unset() {
    let settings = UserSettings { commands: Table::new(), merge_tools: Ok(Table::new()) };
    let mut ui = Ui::new();
    let args = editor_args_from_settings(&mut ui, &settings, "ui.some-editor").unwrap();
    assert_eq!(args.to_string(), "meld");
    assert_eq!(
        *ui.hints(),
        ["Using default editor 'meld'; you can change this by setting ui.some-editor"],
    );
}

#[test]
fn unreadable_command_is_an_error_without_a_hint() {
    let mut commands = Table::new();
    commands.insert(DIFF_EDITOR_KEY, Err(ConfigError::Message("bad".to_owned())));
    let settings = UserSettings { commands, merge_tools: Ok(Table::new()) };
    let mut ui = Ui::new();
    match get_diff_editor_from_settings(&mut ui, &settings) {
        Err(ExternalToolError::ConfigError(ConfigError::Message(text))) => assert_eq!(text, "bad"),
        other => panic!("{:?}", other),
    }
    assert!(ui.hints().is_empty());
}

#[test]
fn missing_table_of_tools_is_an_error() {
    let mut commands = Table::new();
    commands.insert(DIFF_EDITOR_KEY, Ok(CommandNameAndArgs::String("my-diff".to_owned())));
    let settings = UserSettings {
        commands,
        merge_tools: Err(ConfigError::NotFound(TABLE_KEY.to_owned())),
    };
    let error = get_diff_editor_from_settings(&mut Ui::new(), &settings).unwrap_err();
    assert_eq!(
        error.message(),
        "Invalid config: configuration property \"merge-tools\" not found",
    );
}

#[test]
fn missing_table_of_tools_does_not_matter_to_lists() {
    let words = NonEmptyCommandArgsVec::new(vec!["my-diff".to_owned()]).unwrap();
    let mut commands = Table::new();
    commands.insert(DIFF_EDITOR_KEY, Ok(CommandNameAndArgs::Vec(words)));
    let settings = UserSettings {
        commands,
        merge_tools: Err(ConfigError::NotFound(TABLE_KEY.to_owned())),
    };
    let tool = get_diff_editor_from_settings(&mut Ui::new(), &settings).unwrap();
    assert_tool(&tool, "my-diff", &["$left", "$right"], &[]);
}

#[test]
fn unreadable_options_are_reported_with_their_key() {
    let settings = settings_from_config(&config_from_string("merge-tools.foo = 1"));
    match get_tool_config(&settings, "foo") {
        Err(ConfigError::Message(text)) => {
            assert!(text.starts_with("merge-tools.foo: "));
            assert!(text.len() > "merge-tools.foo: ".len());
        }
        other => panic!("{:?}", other),
    }
}

#[test]
fn unknown_tool_is_none() {
    let settings = settings_from_config(&config_from_string(""));
    assert!(get_tool_config(&settings, "foo").unwrap().is_none());
    assert!(get_tool_config(&settings, "meld").unwrap().is_some());
}

#[test]
fn empty_program_is_the_tool_name() {
    let settings = settings_from_config(&config_from_string(
        r#"
        [merge-tools.foo]
        program = ""
        merge-tool-edits-conflict-markers = true
        "#,
    ));
    let tool = get_tool_config(&settings, "foo").unwrap().unwrap();
    assert_eq!(tool.program, "foo");
    assert!(tool.merge_tool_edits_conflict_markers);
}

#[test]
fn empty_lists_of_arguments_are_kept() {
    let settings = settings_from_config(&config_from_string(
        r#"
        ui.diff-editor = "foo"
        ui.merge-editor = "foo"
        [merge-tools.foo]
        edit-args = []
        merge-args = []
        "#,
    ));
    let tool = get_diff_editor_from_settings(&mut Ui::new(), &settings).unwrap();
    assert_tool(&tool, "foo", &[], &[]);
    assert_not_configured(get_merge_tool_from_settings(&mut Ui::new(), &settings), "foo");
}

#[test]
fn structured_command_is_named_with_its_environment() {
    let words = NonEmptyCommandArgsVec::new(vec!["my-merge".to_owned()]).unwrap();
    let mut commands = Table::new();
    commands.insert(
        MERGE_EDITOR_KEY,
        Ok(CommandNameAndArgs::Structured {
            env: vec![("A".to_owned(), "b".to_owned())],
            command: words,
        }),
    );
    let settings = UserSettings { commands, merge_tools: Ok(Table::new()) };
    let result = get_merge_tool_from_settings(&mut Ui::new(), &settings);
    assert_not_configured(result, "A=b my-merge");
}

#[test]
fn default_tool_has_no_program() {
    assert_tool(&MergeTool::default(), "", &["$left", "$right"], &[]);
}

#[test]
fn commands_fill_in_one_task() {
    let command = CommandNameAndArgs::String("foo a b".to_owned());
    assert_tool(&MergeTool::with_edit_args(&command), "foo", &["a", "b"], &[]);
    assert_tool(
        &MergeTool::with_merge_args(&command),
        "foo",
        &["$left", "$right"],
        &["a", "b"],
    );
}
