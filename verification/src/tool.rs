//! The tools that can be started.

use crate::command::{CommandNameAndArgs, CommandView};
use crate::errors::{ExitStatus, ExternalToolError, ExternalToolErrorView, IoError};
use vstd::prelude::*;

verus! {

/// Merge/diff tool loaded from the settings.
#[derive(Debug)]
pub struct MergeTool {
    /// Program to execute. Must be defined; defaults to the tool name if not specified in the
    /// config.
    pub program: String,
    /// Arguments to pass to the program when editing diffs. `$left` and `$right` are replaced with
    /// the corresponding directories.
    pub edit_args: Vec<String>,
    /// Arguments to pass to the program when resolving 3-way conflicts. `$left`, `$right`, `$base`,
    /// and `$output` are replaced with paths to the corresponding files.
    pub merge_args: Vec<String>,
    /// If false (default), the `$output` file starts out empty and is accepted as a full conflict
    /// resolution as-is after the merge tool is done with it. If true, the `$output` file starts
    /// out with the contents of the conflict, with conflict markers. After the merge tool is done,
    /// any remaining conflict markers in the file are parsed and taken to mean that the conflict
    /// was only partially resolved.
    pub merge_tool_edits_conflict_markers: bool,
}

/// What a [`MergeTool`] says.
#[verifier::ext_equal]
pub struct MergeToolView {
    pub program: Seq<char>,
    pub edit_args: Seq<Seq<char>>,
    pub merge_args: Seq<Seq<char>>,
    pub merge_tool_edits_conflict_markers: bool,
}

impl View for MergeTool {
    type V = MergeToolView;

    open spec fn view(&self) -> MergeToolView {
        MergeToolView {
            program: self.program@,
            edit_args: self.edit_args.deep_view(),
            merge_args: self.merge_args.deep_view(),
            merge_tool_edits_conflict_markers: self.merge_tool_edits_conflict_markers,
        }
    }
}

/// The tool that all else is filled in from: it has no program and no arguments for merges, and
/// edits diffs in the two directories.
pub open spec fn default_tool() -> MergeToolView {
    MergeToolView {
        program: seq![],
        edit_args: seq!["$left"@, "$right"@],
        merge_args: seq![],
        merge_tool_edits_conflict_markers: false,
    }
}

impl Default for MergeTool {
    fn default() -> (tool: MergeTool)
        ensures
            tool@ == default_tool(),
    {
        let mut edit_args: Vec<String> = Vec::new();
        edit_args.push("$left".to_owned());
        edit_args.push("$right".to_owned());
        let tool = MergeTool {
            program: String::new(),
            edit_args,
            merge_args: Vec::new(),
            merge_tool_edits_conflict_markers: false,
        };
        assert(tool@ =~~= default_tool());
        tool
    }
}

/// The tool that a command edits diffs with: its name is the program, and its arguments, if it has
/// any, are those for diffs.
pub open spec fn tool_for_edits(command: CommandView) -> MergeToolView {
    let words = command.words();
    MergeToolView {
        program: words[0],
        edit_args: if words.len() > 1 {
            words.skip(1)
        } else {
            default_tool().edit_args
        },
        ..default_tool()
    }
}

/// The tool that a command merges with: its name is the program, and its arguments, if it has any,
/// are those for merges.
pub open spec fn tool_for_merges(command: CommandView) -> MergeToolView {
    let words = command.words();
    MergeToolView { program: words[0], merge_args: words.skip(1), ..default_tool() }
}

impl MergeTool {
    /// The tool that `command_args` edits diffs with.
    pub fn with_edit_args(command_args: &CommandNameAndArgs) -> (tool: MergeTool)
        ensures
            tool@ == tool_for_edits(command_args@),
    {
        let (name, args) = command_args.split_name_and_args();
        let mut tool: MergeTool = MergeTool::default();
        tool.program = name;
        assert(args.deep_view().len() == args@.len());
        if args.len() > 0 {
            tool.edit_args = args;
        }
        tool
    }

    /// The tool that `command_args` merges with.
    pub fn with_merge_args(command_args: &CommandNameAndArgs) -> (tool: MergeTool)
        ensures
            tool@ == tool_for_merges(command_args@),
    {
        let (name, args) = command_args.split_name_and_args();
        let mut tool: MergeTool = MergeTool::default();
        tool.program = name;
        assert(args.deep_view().len() == args@.len());
        if args.len() > 0 {
            tool.merge_args = args;
        }
        assert(tool@ =~~= tool_for_merges(command_args@));
        tool
    }
}

/// What the end of a tool is taken for: the tool must have been started, and must have ended with
/// a zero exit code.
pub open spec fn exit_error(
    program: Seq<char>,
    outcome: Result<ExitStatus, IoError>,
) -> Option<ExternalToolErrorView> {
    match outcome {
        Err(e) => Some(
            ExternalToolErrorView::FailedToExecute { tool_binary: program, source: e },
        ),
        Ok(exit_status) => if exit_status.is_success() {
            None
        } else {
            Some(ExternalToolErrorView::ToolAborted { exit_status })
        },
    }
}

/// Checks how a tool ended.
pub fn check_exit(program: String, outcome: Result<ExitStatus, IoError>) -> (checked: Result<
    (),
    ExternalToolError,
>)
    ensures
        match exit_error(program@, outcome) {
            None => checked is Ok,
            Some(e) => checked matches Err(error) && error@ == e,
        },
{
    match outcome {
        Err(e) => Err(ExternalToolError::FailedToExecute { tool_binary: program, source: e }),
        Ok(exit_status) => {
            if exit_status.success() {
                Ok(())
            } else {
                Err(ExternalToolError::ToolAborted { exit_status })
            }
        },
    }
}

/// The options that a tool has without anyone's doing.
pub proof fn law_default_tool_edits_two_directories()
    ensures
        default_tool().program.len() == 0,
        default_tool().edit_args.len() == 2,
        default_tool().edit_args[0] == "$left"@,
        default_tool().edit_args[1] == "$right"@,
        default_tool().merge_args.len() == 0,
        !default_tool().merge_tool_edits_conflict_markers,
{
}

/// A command is its tool's program with the arguments behind it, for the task that it was given for.
/// One without arguments edits diffs in the two directories. For the other task, and with regard to
/// conflict markers, it is like any tool.
pub proof fn law_commands_are_program_and_arguments(command: CommandView)
    requires
        command.words().len() > 0,
    ensures
        seq![tool_for_merges(command).program] + tool_for_merges(command).merge_args
            == command.words(),
        tool_for_merges(command).edit_args == seq!["$left"@, "$right"@],
        !tool_for_merges(command).merge_tool_edits_conflict_markers,
        command.words().len() > 1 ==> seq![tool_for_edits(command).program] + tool_for_edits(
            command,
        ).edit_args == command.words(),
        command.words().len() == 1 ==> seq![tool_for_edits(command).program] == command.words()
            && tool_for_edits(command).edit_args == seq!["$left"@, "$right"@],
        tool_for_edits(command).merge_args == Seq::<Seq<char>>::empty(),
        !tool_for_edits(command).merge_tool_edits_conflict_markers,
{
    let words = command.words();
    assert(seq![words[0]] + words.skip(1) =~= words);
    assert(words.len() == 1 ==> seq![words[0]] =~= words);
}

/// A tool has done its work only where it was started and its exit code is 0. In any other case the
/// error says which program could not be started and why, or how the tool ended.
pub proof fn law_only_exit_code_zero_is_good(
    program: Seq<char>,
    outcome: Result<ExitStatus, IoError>,
)
    ensures
        exit_error(program, outcome) is None <==> (outcome matches Ok(status) && status.code
            == Some(0i32)),
        outcome matches Err(e) ==> exit_error(program, outcome) == Some(
            ExternalToolErrorView::FailedToExecute { tool_binary: program, source: e },
        ),
        outcome matches Ok(status) ==> (status.code != Some(0i32) ==> exit_error(program, outcome)
            == Some(ExternalToolErrorView::ToolAborted { exit_status: status })),
{
}

/// The view of a tool keeps all its options.
pub proof fn law_tool_views_are_complete(tool: MergeTool)
    ensures
        tool@.program == tool.program@,
        tool@.edit_args.len() == tool.edit_args@.len(),
        forall|i: int|
            0 <= i < tool.edit_args@.len() ==> #[trigger] tool@.edit_args[i] == tool.edit_args@[i]@,
        tool@.merge_args.len() == tool.merge_args@.len(),
        forall|i: int|
            0 <= i < tool.merge_args@.len() ==> #[trigger] tool@.merge_args[i]
                == tool.merge_args@[i]@,
        tool@.merge_tool_edits_conflict_markers == tool.merge_tool_edits_conflict_markers,
{
}

} // verus!
