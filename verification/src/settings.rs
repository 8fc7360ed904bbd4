//! Choosing a tool by the settings.

use crate::command::{CommandNameAndArgs, CommandView};
use crate::errors::{ConfigError, ConfigErrorView, ExternalToolError, ExternalToolErrorView};
use crate::outcome::viewed;
use crate::table::Table;
use crate::text::copy_words;
use crate::tool::{
    default_tool, law_commands_are_program_and_arguments, tool_for_edits, tool_for_merges,
    MergeTool, MergeToolView,
};
use vstd::prelude::*;

verus! {

/// The setting that says which tool edits diffs.
pub const DIFF_EDITOR_KEY: &'static str = "ui.diff-editor";

/// The setting that says which tool resolves conflicts.
pub const MERGE_EDITOR_KEY: &'static str = "ui.merge-editor";

/// The table with the options of the tools.
pub const TABLE_KEY: &'static str = "merge-tools";

/// The tool for those who have not chosen one.
pub const DEFAULT_EDITOR: &'static str = "meld";

/// What the settings say of one tool. What they do not say is filled in.
pub struct MergeToolEntry {
    pub program: Option<String>,
    pub edit_args: Option<Vec<String>>,
    pub merge_args: Option<Vec<String>>,
    pub merge_tool_edits_conflict_markers: Option<bool>,
}

/// The settings of a user, as far as they concern tools.
pub struct UserSettings {
    /// The settings that hold commands, by their keys, each with what came of reading it.
    pub commands: Table<Result<CommandNameAndArgs, ConfigError>>,
    /// The options of the tools, by their names, each with what came of reading it, or the error
    /// that kept the whole table from being read.
    pub merge_tools: Result<Table<Result<MergeToolEntry, String>>, ConfigError>,
}

/// What is told to the user on the side.
pub struct Ui {
    hints: Vec<String>,
}

impl View for Ui {
    type V = Seq<Seq<char>>;

    closed spec fn view(&self) -> Seq<Seq<char>> {
        self.hints.deep_view()
    }
}

impl Ui {
    /// Nothing has been told yet.
    pub fn new() -> (ui: Ui)
        ensures
            ui@ == Seq::<Seq<char>>::empty(),
    {
        let ui = Ui { hints: Vec::new() };
        assert(ui@ =~= Seq::<Seq<char>>::empty());
        ui
    }

    /// Tells the user a hint.
    pub fn hint(&mut self, line: String)
        ensures
            final(self)@ == old(self)@.push(line@),
    {
        self.hints.push(line);
        assert(self@ =~= old(self)@.push(line@));
    }

    /// All hints, each of them a line, in the order in which they were given.
    pub fn hints(&self) -> (hints: &Vec<String>)
        ensures
            hints.deep_view() == self@,
    {
        &self.hints
    }
}

/// The tool that an entry describes: what the entry leaves out is as for any tool, and where it
/// names no program, the tool's own name is the program.
pub open spec fn configured_tool(entry: MergeToolEntry, name: Seq<char>) -> MergeToolView {
    MergeToolView {
        program: match entry.program {
            Some(program) => if program@.len() == 0 {
                name
            } else {
                program@
            },
            None => name,
        },
        edit_args: match entry.edit_args {
            Some(args) => args.deep_view(),
            None => default_tool().edit_args,
        },
        merge_args: match entry.merge_args {
            Some(args) => args.deep_view(),
            None => default_tool().merge_args,
        },
        merge_tool_edits_conflict_markers: match entry.merge_tool_edits_conflict_markers {
            Some(edits) => edits,
            None => default_tool().merge_tool_edits_conflict_markers,
        },
    }
}

/// The tool of the given name in the settings, if they have one.
pub open spec fn tool_config(settings: UserSettings, name: Seq<char>) -> Result<
    Option<MergeToolView>,
    ConfigErrorView,
> {
    match settings.merge_tools {
        Err(e) => Err(e@),
        Ok(tools) => if !tools@.contains_key(name) {
            Ok(None)
        } else {
            match tools@[name] {
                Ok(entry) => Ok(Some(configured_tool(entry, name))),
                Err(text) => Err(
                    ConfigErrorView::Message(TABLE_KEY@ + "."@ + name + ": "@ + text@),
                ),
            }
        },
    }
}

/// What is known of a result once its parts are viewed.
pub open spec fn tool_config_view(result: Result<Option<MergeTool>, ConfigError>) -> Result<
    Option<MergeToolView>,
    ConfigErrorView,
> {
    match result {
        Ok(Some(tool)) => Ok(Some(tool@)),
        Ok(None) => Ok(None),
        Err(e) => Err(e@),
    }
}

/// Loads merge tool options from `[merge-tools.<name>]`.
pub fn get_tool_config(settings: &UserSettings, name: &str) -> (tool: Result<
    Option<MergeTool>,
    ConfigError,
>)
    ensures
        tool_config_view(tool) == tool_config(*settings, name@),
{
    let tools = match &settings.merge_tools {
        Ok(tools) => tools,
        Err(e) => return Err(e.clone()),
    };
    match tools.get(name) {
        Some(Ok(entry)) => {
            let mut tool: MergeTool = MergeTool::default();
            if let Some(program) = &entry.program {
                tool.program = program.clone();
            }
            if let Some(args) = &entry.edit_args {
                tool.edit_args = copy_words(args, 0);
                assert(args.deep_view().skip(0) =~= args.deep_view());
            }
            if let Some(args) = &entry.merge_args {
                tool.merge_args = copy_words(args, 0);
                assert(args.deep_view().skip(0) =~= args.deep_view());
            }
            if let Some(edits) = entry.merge_tool_edits_conflict_markers {
                tool.merge_tool_edits_conflict_markers = edits;
            }
            if tool.program.as_str().is_empty() {
                tool.program = name.to_owned();
            }
            Ok(Some(tool))
        },
        Some(Err(text)) => {
            let message = TABLE_KEY.to_owned().concat(".").concat(name).concat(": ").concat(
                text.as_str(),
            );
            Err(ConfigError::Message(message))
        },
        None => Ok(None),
    }
}

/// Whether the settings leave open which command `key` holds.
pub open spec fn is_unset(settings: UserSettings, key: Seq<char>) -> bool {
    settings.commands@.contains_key(key) ==> settings.commands@[key] matches Err(
        ConfigError::NotFound(_),
    )
}

/// The command that the settings hold for `key`, or the default editor where they leave it open.
pub open spec fn editor_args(settings: UserSettings, key: Seq<char>) -> Result<
    CommandView,
    ExternalToolErrorView,
> {
    if is_unset(settings, key) {
        Ok(CommandView::String(DEFAULT_EDITOR@))
    } else {
        match settings.commands@[key] {
            Ok(args) => Ok(args@),
            Err(e) => Err(ExternalToolErrorView::ConfigError(e@)),
        }
    }
}

/// The hints that choosing a command gives: one where the default editor was taken.
pub open spec fn editor_hints(settings: UserSettings, key: Seq<char>) -> Seq<Seq<char>> {
    if is_unset(settings, key) {
        seq![
            "Using default editor '"@ + DEFAULT_EDITOR@
                + "'; you can change this by setting "@ + key,
        ]
    } else {
        seq![]
    }
}

/// Finds the appropriate tool for diff editing or merges.
pub fn editor_args_from_settings(ui: &mut Ui, settings: &UserSettings, key: &str) -> (args: Result<
    CommandNameAndArgs,
    ExternalToolError,
>)
    ensures
        final(ui)@ == old(ui)@ + editor_hints(*settings, key@),
        viewed(args) == editor_args(*settings, key@),
{
    match settings.commands.get(key) {
        Some(Ok(args)) => {
            assert(ui@ + editor_hints(*settings, key@) =~= ui@);
            Ok(args.clone())
        },
        Some(Err(ConfigError::Message(text))) => {
            assert(ui@ + editor_hints(*settings, key@) =~= ui@);
            Err(ExternalToolError::ConfigError(ConfigError::Message(text.clone())))
        },
        _ => {
            let hint = "Using default editor '".to_owned().concat(DEFAULT_EDITOR).concat(
                "'; you can change this by setting ",
            ).concat(key);
            ui.hint(hint);
            assert(ui@ =~= old(ui)@ + editor_hints(*settings, key@));
            Ok(CommandNameAndArgs::String(DEFAULT_EDITOR.to_owned()))
        },
    }
}

/// The tool for a command. A line of text may be the name of a tool that the settings know; in
/// any other case the command itself is the tool.
pub open spec fn chosen_tool(
    settings: UserSettings,
    args: Result<CommandView, ExternalToolErrorView>,
    from_command: spec_fn(CommandView) -> MergeToolView,
) -> Result<MergeToolView, ExternalToolErrorView> {
    match args {
        Err(e) => Err(e),
        Ok(CommandView::String(name)) => match tool_config(settings, name) {
            Err(e) => Err(ExternalToolErrorView::ConfigError(e)),
            Ok(Some(tool)) => Ok(tool),
            Ok(None) => Ok(from_command(CommandView::String(name))),
        },
        Ok(command) => Ok(from_command(command)),
    }
}

/// The tool that edits diffs.
pub open spec fn diff_editor(settings: UserSettings) -> Result<
    MergeToolView,
    ExternalToolErrorView,
> {
    chosen_tool(
        settings,
        editor_args(settings, DIFF_EDITOR_KEY@),
        |command: CommandView| tool_for_edits(command),
    )
}

/// The tool that resolves conflicts. One without arguments for merges is of no use.
pub open spec fn merge_tool(settings: UserSettings) -> Result<
    MergeToolView,
    ExternalToolErrorView,
> {
    let args = editor_args(settings, MERGE_EDITOR_KEY@);
    match chosen_tool(settings, args, |command: CommandView| tool_for_merges(command)) {
        Ok(tool) => if tool.merge_args.len() == 0 {
            Err(ExternalToolErrorView::MergeArgsNotConfigured { tool_name: args->Ok_0.line() })
        } else {
            Ok(tool)
        },
        Err(e) => Err(e),
    }
}

/// The tool that edits diffs.
pub fn get_diff_editor_from_settings(ui: &mut Ui, settings: &UserSettings) -> (tool: Result<
    MergeTool,
    ExternalToolError,
>)
    ensures
        final(ui)@ == old(ui)@ + editor_hints(*settings, DIFF_EDITOR_KEY@),
        viewed(tool) == diff_editor(*settings),
{
    let args = match editor_args_from_settings(ui, settings, DIFF_EDITOR_KEY) {
        Ok(args) => args,
        Err(e) => return Err(e),
    };
    let maybe_editor: Option<MergeTool> = match &args {
        CommandNameAndArgs::String(name) => match get_tool_config(settings, name.as_str()) {
            Ok(maybe_editor) => maybe_editor,
            Err(e) => return Err(ExternalToolError::ConfigError(e)),
        },
        CommandNameAndArgs::Vec(_) => None,
        CommandNameAndArgs::Structured { .. } => None,
    };
    match maybe_editor {
        Some(editor) => Ok(editor),
        None => Ok(MergeTool::with_edit_args(&args)),
    }
}

/// The tool that resolves conflicts.
pub fn get_merge_tool_from_settings(ui: &mut Ui, settings: &UserSettings) -> (tool: Result<
    MergeTool,
    ExternalToolError,
>)
    ensures
        final(ui)@ == old(ui)@ + editor_hints(*settings, MERGE_EDITOR_KEY@),
        viewed(tool) == merge_tool(*settings),
{
    let args = match editor_args_from_settings(ui, settings, MERGE_EDITOR_KEY) {
        Ok(args) => args,
        Err(e) => return Err(e),
    };
    let maybe_editor: Option<MergeTool> = match &args {
        CommandNameAndArgs::String(name) => match get_tool_config(settings, name.as_str()) {
            Ok(maybe_editor) => maybe_editor,
            Err(e) => return Err(ExternalToolError::ConfigError(e)),
        },
        CommandNameAndArgs::Vec(_) => None,
        CommandNameAndArgs::Structured { .. } => None,
    };
    let editor: MergeTool = match maybe_editor {
        Some(editor) => editor,
        None => MergeTool::with_merge_args(&args),
    };
    assert(editor.merge_args.deep_view().len() == editor.merge_args@.len());
    if editor.merge_args.len() == 0 {
        Err(ExternalToolError::MergeArgsNotConfigured { tool_name: args.to_string() })
    } else {
        Ok(editor)
    }
}

/// A tool that resolves conflicts always has arguments for merges, whatever the settings are.
pub proof fn law_merge_tool_has_merge_args(settings: UserSettings)
    ensures
        merge_tool(settings) matches Ok(tool) ==> tool.merge_args.len() > 0,
{
}

/// The program of a tool from the settings is never empty, unless the tool's name is.
pub proof fn law_program_defaults_to_tool_name(settings: UserSettings, name: Seq<char>)
    requires
        name.len() > 0,
    ensures
        tool_config(settings, name) matches Ok(Some(tool)) ==> tool.program.len() > 0,
{
}

/// Only a line of text can be the name of a tool: where the settings hold a list of words, with or
/// without an environment, the options of the tools make no difference.
pub proof fn law_lists_are_no_tool_names(settings: UserSettings, other: UserSettings)
    requires
        settings.commands == other.commands,
    ensures
        editor_args(settings, DIFF_EDITOR_KEY@) matches Ok(command) && !(command is String)
            ==> diff_editor(settings) == diff_editor(other),
        editor_args(settings, MERGE_EDITOR_KEY@) matches Ok(command) && !(command is String)
            ==> merge_tool(settings) == merge_tool(other),
{
}

/// Where the settings choose no tool, the default one is looked up as if they had named it, and
/// there is a hint. Where they choose one, there is none.
pub proof fn law_unset_means_default_editor(settings: UserSettings, key: Seq<char>)
    ensures
        is_unset(settings, key) ==> editor_args(settings, key) == Ok::<
            CommandView,
            ExternalToolErrorView,
        >(CommandView::String(DEFAULT_EDITOR@)) && editor_hints(settings, key).len() == 1,
        !is_unset(settings, key) ==> editor_hints(settings, key).len() == 0,
{
}

/// A tool that is named in full by its command keeps, for the other task, what every tool has.
pub proof fn law_commands_fill_in_one_task(command: CommandView)
    ensures
        tool_for_edits(command).merge_args == default_tool().merge_args,
        tool_for_merges(command).edit_args == default_tool().edit_args,
        tool_for_edits(command).program == tool_for_merges(command).program,
{
}

/// What the settings hold for `key` decides, and nothing else does: a command is taken as it is, and
/// an error is reported, both without a hint. Where there is nothing, it is `meld`, with a hint that
/// says so and names the key.
pub proof fn law_settings_decide_the_command(settings: UserSettings, key: Seq<char>)
    ensures
        settings.commands@.contains_key(key) ==> match settings.commands@[key] {
            Ok(command) => {
                &&& editor_args(settings, key) == Ok::<CommandView, ExternalToolErrorView>(command@)
                &&& editor_hints(settings, key).len() == 0
            },
            Err(ConfigError::Message(text)) => {
                &&& editor_args(settings, key) == Err::<CommandView, ExternalToolErrorView>(
                    ExternalToolErrorView::ConfigError(ConfigErrorView::Message(text@)),
                )
                &&& editor_hints(settings, key).len() == 0
            },
            Err(ConfigError::NotFound(_)) => true,
        },
        !settings.commands@.contains_key(key) || (settings.commands@[key] matches Err(
            ConfigError::NotFound(_),
        )) ==> {
            &&& editor_args(settings, key) == Ok::<CommandView, ExternalToolErrorView>(
                CommandView::String("meld"@),
            )
            &&& editor_hints(settings, key) == seq![
                "Using default editor '"@ + "meld"@ + "'; you can change this by setting "@ + key,
            ]
        },
{
}

/// Each option that an entry sets is that of the tool, whatever the other options are. Each option
/// that it leaves out is as for any tool, and the program is then the tool's name.
pub proof fn law_options_are_independent(entry: MergeToolEntry, name: Seq<char>)
    ensures
        ({
            let tool = configured_tool(entry, name);
            &&& match entry.program {
                Some(program) => if program@.len() > 0 {
                    tool.program == program@
                } else {
                    tool.program == name
                },
                None => tool.program == name,
            }
            &&& match entry.edit_args {
                Some(args) => {
                    &&& tool.edit_args.len() == args@.len()
                    &&& forall|i: int|
                        0 <= i < args@.len() ==> #[trigger] tool.edit_args[i] == args@[i]@
                },
                None => tool.edit_args == seq!["$left"@, "$right"@],
            }
            &&& match entry.merge_args {
                Some(args) => {
                    &&& tool.merge_args.len() == args@.len()
                    &&& forall|i: int|
                        0 <= i < args@.len() ==> #[trigger] tool.merge_args[i] == args@[i]@
                },
                None => tool.merge_args.len() == 0,
            }
            &&& match entry.merge_tool_edits_conflict_markers {
                Some(edits) => tool.merge_tool_edits_conflict_markers == edits,
                None => !tool.merge_tool_edits_conflict_markers,
            }
        }),
{
}

/// A tool is looked up by its whole name. There is one where there is an entry of that name, and it
/// is the one that this entry describes, whatever other entries there are. An entry that could not be
/// read is reported under its key, and so is a table that could not.
pub proof fn law_tools_are_found_by_name(settings: UserSettings, name: Seq<char>)
    ensures
        match settings.merge_tools {
            Err(ConfigError::NotFound(key)) => tool_config(settings, name) == Err::<
                Option<MergeToolView>,
                ConfigErrorView,
            >(ConfigErrorView::NotFound(key@)),
            Err(ConfigError::Message(text)) => tool_config(settings, name) == Err::<
                Option<MergeToolView>,
                ConfigErrorView,
            >(ConfigErrorView::Message(text@)),
            Ok(tools) => {
                &&& !tools@.contains_key(name) ==> tool_config(settings, name) == Ok::<
                    Option<MergeToolView>,
                    ConfigErrorView,
                >(None)
                &&& tools@.contains_key(name) ==> match tools@[name] {
                    Ok(entry) => tool_config(settings, name) == Ok::<
                        Option<MergeToolView>,
                        ConfigErrorView,
                    >(Some(configured_tool(entry, name))),
                    Err(text) => tool_config(settings, name) == Err::<
                        Option<MergeToolView>,
                        ConfigErrorView,
                    >(ConfigErrorView::Message("merge-tools"@ + "."@ + name + ": "@ + text@)),
                }
            },
        },
{
}

/// What a lookup comes to is viewed as it is.
pub proof fn law_lookup_views_are_complete(tool: MergeTool, e: ConfigError)
    ensures
        tool_config_view(Ok(Some(tool))) == Ok::<Option<MergeToolView>, ConfigErrorView>(
            Some(tool@),
        ),
        tool_config_view(Ok(None)) == Ok::<Option<MergeToolView>, ConfigErrorView>(None),
        tool_config_view(Err(e)) == Err::<Option<MergeToolView>, ConfigErrorView>(e@),
{
}

/// Without a command there is no tool, for either task, and the error is that of the command.
pub proof fn law_no_tool_without_a_command(settings: UserSettings)
    ensures
        editor_args(settings, "ui.diff-editor"@) matches Err(e) ==> diff_editor(settings) == Err::<
            MergeToolView,
            ExternalToolErrorView,
        >(e),
        editor_args(settings, "ui.merge-editor"@) matches Err(e) ==> merge_tool(settings) == Err::<
            MergeToolView,
            ExternalToolErrorView,
        >(e),
{
}

/// A line that is the name of a tool chooses this tool with all its options, for either task. To
/// merge, it needs arguments for that.
pub proof fn law_names_choose_configured_tools(
    settings: UserSettings,
    name: Seq<char>,
    tool: MergeToolView,
)
    requires
        tool_config(settings, name) == Ok::<Option<MergeToolView>, ConfigErrorView>(Some(tool)),
    ensures
        editor_args(settings, "ui.diff-editor"@) == Ok::<CommandView, ExternalToolErrorView>(
            CommandView::String(name),
        ) ==> diff_editor(settings) == Ok::<MergeToolView, ExternalToolErrorView>(tool),
        editor_args(settings, "ui.merge-editor"@) == Ok::<CommandView, ExternalToolErrorView>(
            CommandView::String(name),
        ) ==> merge_tool(settings) == (if tool.merge_args.len() > 0 {
            Ok::<MergeToolView, ExternalToolErrorView>(tool)
        } else {
            Err(ExternalToolErrorView::MergeArgsNotConfigured { tool_name: name })
        }),
{
}

/// A name that cannot be looked up chooses no tool, for either task.
pub proof fn law_failed_lookups_are_reported(
    settings: UserSettings,
    name: Seq<char>,
    e: ConfigErrorView,
)
    requires
        tool_config(settings, name) == Err::<Option<MergeToolView>, ConfigErrorView>(e),
    ensures
        editor_args(settings, "ui.diff-editor"@) == Ok::<CommandView, ExternalToolErrorView>(
            CommandView::String(name),
        ) ==> diff_editor(settings) == Err::<MergeToolView, ExternalToolErrorView>(
            ExternalToolErrorView::ConfigError(e),
        ),
        editor_args(settings, "ui.merge-editor"@) == Ok::<CommandView, ExternalToolErrorView>(
            CommandView::String(name),
        ) ==> merge_tool(settings) == Err::<MergeToolView, ExternalToolErrorView>(
            ExternalToolErrorView::ConfigError(e),
        ),
{
}

/// A command that is not the name of a tool is started as it is: it is the program with the
/// arguments behind it. A diff editor without arguments gets the two directories, and a merge tool
/// without arguments is refused under the line of the command.
pub proof fn law_other_commands_are_started_as_they_are(
    settings: UserSettings,
    command: CommandView,
)
    requires
        command.words().len() > 0,
        command matches CommandView::String(name) ==> tool_config(settings, name) == Ok::<
            Option<MergeToolView>,
            ConfigErrorView,
        >(None),
    ensures
        editor_args(settings, "ui.diff-editor"@) == Ok::<CommandView, ExternalToolErrorView>(
            command,
        ) ==> {
            &&& diff_editor(settings) matches Ok(tool)
            &&& tool.program == command.words()[0]
            &&& if command.words().len() > 1 {
                seq![tool.program] + tool.edit_args == command.words()
            } else {
                tool.edit_args == seq!["$left"@, "$right"@]
            }
            &&& tool.merge_args.len() == 0
            &&& !tool.merge_tool_edits_conflict_markers
        },
        editor_args(settings, "ui.merge-editor"@) == Ok::<CommandView, ExternalToolErrorView>(
            command,
        ) ==> if command.words().len() > 1 {
            &&& merge_tool(settings) matches Ok(tool)
            &&& seq![tool.program] + tool.merge_args == command.words()
            &&& tool.edit_args == seq!["$left"@, "$right"@]
            &&& !tool.merge_tool_edits_conflict_markers
        } else {
            merge_tool(settings) == Err::<MergeToolView, ExternalToolErrorView>(
                ExternalToolErrorView::MergeArgsNotConfigured { tool_name: command.line() },
            )
        },
{
    law_commands_are_program_and_arguments(command);
    assert(tool_for_merges(command).merge_args.len() == command.words().len() - 1);
}

} // verus!
