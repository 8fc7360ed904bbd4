//! Resolving a conflict with a merge tool.
//!
//! The work goes from stage to stage. Each stage says what is to be done next outside of this
//! library, and what came of it leads to the next stage or to an error. A stage can only be had
//! from the one before it.

use crate::errors::{
    BackendError, ConflictResolveError, ConflictResolveErrorView, ExitStatus, ExternalToolError,
    ExternalToolErrorView, IoError,
};
use crate::interpolate::{
    interpolate_variables, interpolated, interpolated_args, law_arguments_are_replaced_one_by_one,
    law_whole_references_become_values, Variables,
};
use crate::outcome::viewed;
use crate::repo::{ConflictContent, ConflictHunk, ConflictId, FileId, RepoPath, TreeValue};
use crate::settings::{
    editor_hints, get_merge_tool_from_settings, merge_tool, Ui, UserSettings, MERGE_EDITOR_KEY,
};
use crate::text::{decode_lossily, lossy_text};
use crate::tool::{
    check_exit, exit_error, law_only_exit_code_zero_is_good, MergeTool, MergeToolView,
};
use vstd::prelude::*;

verus! {

/// The start of the name of the directory that the tool works in.
pub const TEMP_DIR_PREFIX: &'static str = "jj-resolve-";

/// A conflict was found at a path. Next, it is read.
pub struct FoundConflict {
    repo_path: RepoPath,
    conflict_id: ConflictId,
}

/// What a [`FoundConflict`] holds.
pub struct FoundConflictView {
    pub repo_path: Seq<Seq<char>>,
    pub conflict_id: ConflictId,
}

impl View for FoundConflict {
    type V = FoundConflictView;

    closed spec fn view(&self) -> FoundConflictView {
        FoundConflictView { repo_path: self.repo_path@, conflict_id: self.conflict_id }
    }
}

/// The first stage, given what a tree holds at a path: there must be a conflict.
pub open spec fn found_conflict(repo_path: Seq<Seq<char>>, value: Option<TreeValue>) -> Result<
    FoundConflictView,
    ConflictResolveErrorView,
> {
    match value {
        Some(TreeValue::Conflict(conflict_id)) => Ok(FoundConflictView { repo_path, conflict_id }),
        Some(_) => Err(ConflictResolveErrorView::NotAConflictError(repo_path)),
        None => Err(ConflictResolveErrorView::PathNotFoundError(repo_path)),
    }
}

/// Starts with what a tree holds at `repo_path`. There must be a conflict.
pub fn find_conflict(repo_path: RepoPath, value: Option<TreeValue>) -> (found: Result<
    FoundConflict,
    ConflictResolveError,
>)
    ensures
        viewed(found) == found_conflict(repo_path@, value),
{
    match value {
        Some(TreeValue::Conflict(conflict_id)) => Ok(FoundConflict { repo_path, conflict_id }),
        Some(_) => Err(ConflictResolveError::NotAConflictError(repo_path)),
        None => Err(ConflictResolveError::PathNotFoundError(repo_path)),
    }
}

/// A conflict was read, and is of a kind that a tool can resolve. Next, a tool is chosen.
pub struct SimpleConflict {
    repo_path: RepoPath,
    conflict_id: ConflictId,
    hunk: ConflictHunk,
}

/// What a [`SimpleConflict`] holds.
pub struct SimpleConflictView {
    pub repo_path: Seq<Seq<char>>,
    pub conflict_id: ConflictId,
    pub hunk: ConflictHunk,
}

impl View for SimpleConflict {
    type V = SimpleConflictView;

    closed spec fn view(&self) -> SimpleConflictView {
        SimpleConflictView {
            repo_path: self.repo_path@,
            conflict_id: self.conflict_id,
            hunk: self.hunk,
        }
    }
}

/// Whether a tool can be asked to resolve a conflict. The usual case is 1 remove and 2 adds. 0
/// removes means the file did not exist in the conflict base. Only 1 add may exist for an
/// edit-delete conflict.
pub open spec fn is_simple(hunk: ConflictHunk) -> bool {
    hunk.removes@.len() <= 1 && hunk.adds@.len() <= 2
}

impl FoundConflictView {
    /// The next stage: the conflict must be between normal files, and simple.
    pub open spec fn after_conflict(self, conflict: Result<ConflictContent, BackendError>) -> Result<
        SimpleConflictView,
        ConflictResolveErrorView,
    > {
        match conflict {
            Err(e) => Err(ConflictResolveErrorView::BackendError(e)),
            Ok(ConflictContent::NotNormalFiles { summary }) => Err(
                ConflictResolveErrorView::NotNormalFilesError(self.repo_path, lossy_text(summary@)),
            ),
            Ok(ConflictContent::Hunk(hunk)) => if is_simple(hunk) {
                Ok(
                    SimpleConflictView {
                        repo_path: self.repo_path,
                        conflict_id: self.conflict_id,
                        hunk,
                    },
                )
            } else {
                Err(
                    ConflictResolveErrorView::ConflictTooComplicatedError {
                        path: self.repo_path,
                        removes: hunk.removes@.len(),
                        adds: hunk.adds@.len(),
                    },
                )
            },
        }
    }
}

impl SimpleConflict {
    #[verifier::type_invariant]
    spec fn can_be_resolved(self) -> bool {
        is_simple(self.hunk)
    }
}

impl FoundConflict {
    /// The place of the conflict.
    pub fn repo_path(&self) -> (repo_path: &RepoPath)
        ensures
            repo_path@ == self@.repo_path,
    {
        &self.repo_path
    }

    /// The conflict to read.
    pub fn conflict_id(&self) -> (conflict_id: &ConflictId)
        ensures
            *conflict_id == self@.conflict_id,
    {
        &self.conflict_id
    }

    /// Goes on with what was read. The conflict must be between normal files, and simple.
    pub fn on_conflict(self, conflict: Result<ConflictContent, BackendError>) -> (simple: Result<
        SimpleConflict,
        ConflictResolveError,
    >)
        ensures
            viewed(simple) == self@.after_conflict(conflict),
            conflict matches Ok(ConflictContent::NotNormalFiles { summary }) ==> (
            vstd::utf8::valid_utf8(summary@) ==> lossy_text(summary@) == vstd::utf8::decode_utf8(
                summary@,
            )),
    {
        match conflict {
            Err(e) => Err(ConflictResolveError::BackendError(e)),
            Ok(ConflictContent::NotNormalFiles { summary }) => {
                let text = decode_lossily(&summary);
                Err(ConflictResolveError::NotNormalFilesError(self.repo_path, text))
            },
            Ok(ConflictContent::Hunk(hunk)) => {
                if hunk.removes.len() > 1 || hunk.adds.len() > 2 {
                    Err(
                        ConflictResolveError::ConflictTooComplicatedError {
                            path: self.repo_path,
                            removes: hunk.removes.len(),
                            adds: hunk.adds.len(),
                        },
                    )
                } else {
                    Ok(
                        SimpleConflict {
                            repo_path: self.repo_path,
                            conflict_id: self.conflict_id,
                            hunk,
                        },
                    )
                }
            },
        }
    }
}

/// A tool was chosen. Next, the contents of its output file are made, if it edits conflict markers.
pub struct ToolChosen {
    repo_path: RepoPath,
    conflict_id: ConflictId,
    hunk: ConflictHunk,
    tool: MergeTool,
}

/// What a [`ToolChosen`] holds.
pub struct ToolChosenView {
    pub repo_path: Seq<Seq<char>>,
    pub conflict_id: ConflictId,
    pub hunk: ConflictHunk,
    pub tool: MergeToolView,
}

impl View for ToolChosen {
    type V = ToolChosenView;

    closed spec fn view(&self) -> ToolChosenView {
        ToolChosenView {
            repo_path: self.repo_path@,
            conflict_id: self.conflict_id,
            hunk: self.hunk,
            tool: self.tool@,
        }
    }
}

impl SimpleConflictView {
    /// The next stage: the settings must name a tool for merges.
    pub open spec fn after_choice(self, settings: UserSettings) -> Result<
        ToolChosenView,
        ConflictResolveErrorView,
    > {
        match merge_tool(settings) {
            Ok(tool) => Ok(
                ToolChosenView {
                    repo_path: self.repo_path,
                    conflict_id: self.conflict_id,
                    hunk: self.hunk,
                    tool,
                },
            ),
            Err(e) => Err(ConflictResolveErrorView::ExternalToolError(e)),
        }
    }
}

impl SimpleConflict {
    /// The terms of the conflict. There are few enough of them for a tool.
    pub fn hunk(&self) -> (hunk: &ConflictHunk)
        ensures
            *hunk == self@.hunk,
            is_simple(*hunk),
    {
        proof {
            use_type_invariant(self);
        }
        &self.hunk
    }

    /// Chooses the tool by the settings.
    pub fn choose_tool(self, ui: &mut Ui, settings: &UserSettings) -> (chosen: Result<
        ToolChosen,
        ConflictResolveError,
    >)
        ensures
            final(ui)@ == old(ui)@ + editor_hints(*settings, MERGE_EDITOR_KEY@),
            viewed(chosen) == self@.after_choice(*settings),
    {
        match get_merge_tool_from_settings(ui, settings) {
            Ok(tool) => Ok(
                ToolChosen {
                    repo_path: self.repo_path,
                    conflict_id: self.conflict_id,
                    hunk: self.hunk,
                    tool,
                },
            ),
            Err(e) => Err(ConflictResolveError::ExternalToolError(e)),
        }
    }
}

/// What a file is to the tool.
#[derive(Clone, Copy, PartialEq, Eq, Structural)]
pub enum FileRole {
    Base,
    Right,
    Left,
    Output,
}

impl FileRole {
    /// The name of the variable that stands for the path of the file.
    pub open spec fn spec_name(self) -> Seq<char> {
        match self {
            FileRole::Base => "base"@,
            FileRole::Right => "right"@,
            FileRole::Left => "left"@,
            FileRole::Output => "output"@,
        }
    }

    /// The name of the variable that stands for the path of the file.
    pub fn name(&self) -> (name: &'static str)
        ensures
            name@ == self.spec_name(),
    {
        match self {
            FileRole::Base => "base",
            FileRole::Right => "right",
            FileRole::Left => "left",
            FileRole::Output => "output",
        }
    }
}

/// A file that the tool is given.
pub struct ToolFile {
    pub role: FileRole,
    pub name: String,
    pub contents: Vec<u8>,
    pub read_only: bool,
}

/// What a [`ToolFile`] holds.
#[verifier::ext_equal]
pub struct ToolFileView {
    pub role: FileRole,
    pub name: Seq<char>,
    pub contents: Seq<u8>,
    pub read_only: bool,
}

impl View for ToolFile {
    type V = ToolFileView;

    open spec fn view(&self) -> ToolFileView {
        ToolFileView {
            role: self.role,
            name: self.name@,
            contents: self.contents@,
            read_only: self.read_only,
        }
    }
}

impl DeepView for ToolFile {
    type V = ToolFileView;

    open spec fn deep_view(&self) -> ToolFileView {
        self@
    }
}

/// What the names of all files end in: the name of the file that the conflict is about.
pub open spec fn name_suffix(repo_path: Seq<Seq<char>>) -> Seq<char> {
    if repo_path.len() == 0 {
        seq![]
    } else {
        "_"@ + repo_path.last()
    }
}

/// The term that is `back` places before the last one, and nothing where there is none.
pub open spec fn term_from_end(terms: Seq<Vec<u8>>, back: int) -> Seq<u8> {
    if back < terms.len() {
        terms[terms.len() - 1 - back]@
    } else {
        seq![]
    }
}

/// The file of the given role. All but the output are there to be read only.
pub open spec fn tool_file(
    role: FileRole,
    repo_path: Seq<Seq<char>>,
    contents: Seq<u8>,
) -> ToolFileView {
    ToolFileView {
        role,
        name: role.spec_name() + name_suffix(repo_path),
        contents,
        read_only: role != FileRole::Output,
    }
}

/// The files for a conflict. The last add is the right side, and the one before it the left side.
pub open spec fn tool_files(
    repo_path: Seq<Seq<char>>,
    hunk: ConflictHunk,
    initial_output: Seq<u8>,
) -> Seq<ToolFileView> {
    seq![
        tool_file(FileRole::Base, repo_path, term_from_end(hunk.removes@, 0)),
        tool_file(FileRole::Right, repo_path, term_from_end(hunk.adds@, 0)),
        tool_file(FileRole::Left, repo_path, term_from_end(hunk.adds@, 1)),
        tool_file(FileRole::Output, repo_path, initial_output),
    ]
}

/// The files for the tool are known. Next, they are written, and the tool is told where they are.
pub struct FilesPrepared {
    repo_path: RepoPath,
    conflict_id: ConflictId,
    tool: MergeTool,
    initial_output: Vec<u8>,
    files: Vec<ToolFile>,
}

/// What a [`FilesPrepared`] holds.
pub struct FilesPreparedView {
    pub repo_path: Seq<Seq<char>>,
    pub conflict_id: ConflictId,
    pub tool: MergeToolView,
    pub initial_output: Seq<u8>,
    pub files: Seq<ToolFileView>,
}

impl View for FilesPrepared {
    type V = FilesPreparedView;

    closed spec fn view(&self) -> FilesPreparedView {
        FilesPreparedView {
            repo_path: self.repo_path@,
            conflict_id: self.conflict_id,
            tool: self.tool@,
            initial_output: self.initial_output@,
            files: self.files.deep_view(),
        }
    }
}

/// A copy of the bytes.
fn copy_bytes(bytes: &Vec<u8>) -> (copy: Vec<u8>)
    ensures
        copy@ == bytes@,
{
    let mut copy: Vec<u8> = Vec::new();
    for i in 0..bytes.len()
        invariant
            copy@ == bytes@.take(i as int),
    {
        copy.push(bytes[i]);
        assert(copy@ =~= bytes@.take(i + 1));
    }
    assert(bytes@.take(bytes@.len() as int) =~= bytes@);
    copy
}

/// The last of the terms, taken off them, and nothing where there is none.
fn pop_term(terms: &mut Vec<Vec<u8>>) -> (term: Vec<u8>)
    ensures
        term@ == term_from_end(old(terms)@, 0),
        final(terms)@ == if old(terms)@.len() > 0 {
            old(terms)@.drop_last()
        } else {
            old(terms)@
        },
{
    match terms.pop() {
        Some(term) => term,
        None => {
            let nothing: Vec<u8> = Vec::new();
            assert(nothing@ =~= Seq::<u8>::empty());
            nothing
        },
    }
}

/// The file of the given role.
fn make_tool_file(role: FileRole, suffix: &str, contents: Vec<u8>) -> (file: ToolFile)
    ensures
        file@ == (ToolFileView {
            role,
            name: role.spec_name() + suffix@,
            contents: contents@,
            read_only: role != FileRole::Output,
        }),
{
    let name = role.name().to_owned().concat(suffix);
    let read_only: bool = role != FileRole::Output;
    ToolFile { role, name, contents, read_only }
}

impl ToolChosenView {
    /// The next stage. The output file starts out with the contents of the conflict where the tool
    /// edits conflict markers, and empty where it does not.
    pub open spec fn after_materialized(self, materialized: Seq<u8>) -> FilesPreparedView {
        let initial_output = if self.tool.merge_tool_edits_conflict_markers {
            materialized
        } else {
            seq![]
        };
        FilesPreparedView {
            repo_path: self.repo_path,
            conflict_id: self.conflict_id,
            tool: self.tool,
            initial_output,
            files: tool_files(self.repo_path, self.hunk, initial_output),
        }
    }
}

impl ToolChosen {
    /// Whether the output file starts out with the contents of the conflict.
    pub fn starts_from_markers(&self) -> (markers: bool)
        ensures
            markers == self@.tool.merge_tool_edits_conflict_markers,
    {
        self.tool.merge_tool_edits_conflict_markers
    }

    /// The terms of the conflict.
    pub fn hunk(&self) -> (hunk: &ConflictHunk)
        ensures
            *hunk == self@.hunk,
    {
        &self.hunk
    }

    /// Goes on with the contents of the conflict, conflict markers included. They are left aside
    /// where the tool does not edit those.
    pub fn on_materialized(self, materialized: Vec<u8>) -> (prepared: FilesPrepared)
        ensures
            prepared@ == self@.after_materialized(materialized@),
    {
        let initial_output: Vec<u8> = if self.tool.merge_tool_edits_conflict_markers {
            materialized
        } else {
            Vec::new()
        };
        let mut removes: Vec<Vec<u8>> = self.hunk.removes;
        let mut adds: Vec<Vec<u8>> = self.hunk.adds;
        let base = pop_term(&mut removes);
        let right = pop_term(&mut adds);
        let left = pop_term(&mut adds);
        let count: usize = self.repo_path.components.len();
        let suffix: String = if count > 0 {
            "_".to_owned().concat(self.repo_path.components[count - 1].as_str())
        } else {
            String::new()
        };
        assert(suffix@ =~= name_suffix(self.repo_path@));
        let mut files: Vec<ToolFile> = Vec::new();
        files.push(make_tool_file(FileRole::Base, suffix.as_str(), base));
        files.push(make_tool_file(FileRole::Right, suffix.as_str(), right));
        files.push(make_tool_file(FileRole::Left, suffix.as_str(), left));
        files.push(make_tool_file(FileRole::Output, suffix.as_str(), copy_bytes(&initial_output)));
        assert(files.deep_view() =~= tool_files(self@.repo_path, self@.hunk, initial_output@));
        FilesPrepared {
            repo_path: self.repo_path,
            conflict_id: self.conflict_id,
            tool: self.tool,
            initial_output,
            files,
        }
    }
}

/// Where the files for the tool are.
pub struct ToolPaths {
    pub base: String,
    pub right: String,
    pub left: String,
    pub output: String,
}

impl ToolPaths {
    /// Where the file of the given role is.
    pub open spec fn path(self, role: FileRole) -> Seq<char> {
        match role {
            FileRole::Base => self.base@,
            FileRole::Right => self.right@,
            FileRole::Left => self.left@,
            FileRole::Output => self.output@,
        }
    }
}

/// The variables that the arguments of the tool can refer to.
pub open spec fn path_variables(paths: ToolPaths) -> Map<Seq<char>, Seq<char>> {
    Map::<Seq<char>, Seq<char>>::empty().insert(FileRole::Base.spec_name(), paths.base@).insert(
        FileRole::Right.spec_name(),
        paths.right@,
    ).insert(FileRole::Left.spec_name(), paths.left@).insert(
        FileRole::Output.spec_name(),
        paths.output@,
    )
}

/// The tool can be started. Next, that is done.
pub struct ToolReady {
    repo_path: RepoPath,
    conflict_id: ConflictId,
    edits_markers: bool,
    initial_output: Vec<u8>,
    program: String,
    args: Vec<String>,
    output_path: String,
}

/// What a [`ToolReady`] holds.
pub struct ToolReadyView {
    pub repo_path: Seq<Seq<char>>,
    pub conflict_id: ConflictId,
    pub edits_markers: bool,
    pub initial_output: Seq<u8>,
    pub program: Seq<char>,
    pub args: Seq<Seq<char>>,
    /// Where the output file is.
    pub output_path: Seq<char>,
}

impl View for ToolReady {
    type V = ToolReadyView;

    closed spec fn view(&self) -> ToolReadyView {
        ToolReadyView {
            repo_path: self.repo_path@,
            conflict_id: self.conflict_id,
            edits_markers: self.edits_markers,
            initial_output: self.initial_output@,
            program: self.program@,
            args: self.args.deep_view(),
            output_path: self.output_path@,
        }
    }
}

impl FilesPreparedView {
    /// The next stage: the files must have been written.
    pub open spec fn after_files(self, paths: Result<ToolPaths, IoError>) -> Result<
        ToolReadyView,
        ConflictResolveErrorView,
    > {
        match paths {
            Ok(paths) => Ok(
                ToolReadyView {
                    repo_path: self.repo_path,
                    conflict_id: self.conflict_id,
                    edits_markers: self.tool.merge_tool_edits_conflict_markers,
                    initial_output: self.initial_output,
                    program: self.tool.program,
                    args: interpolated_args(self.tool.merge_args, path_variables(paths)),
                    output_path: paths.path(FileRole::Output),
                },
            ),
            Err(e) => Err(
                ConflictResolveErrorView::ExternalToolError(
                    ExternalToolErrorView::SetUpDirError(e),
                ),
            ),
        }
    }
}

impl FilesPrepared {
    /// The files to write.
    pub fn files(&self) -> (files: &Vec<ToolFile>)
        ensures
            files.deep_view() == self@.files,
    {
        &self.files
    }

    /// Goes on with where the files were written.
    pub fn on_files(self, paths: Result<ToolPaths, IoError>) -> (ready: Result<
        ToolReady,
        ConflictResolveError,
    >)
        ensures
            viewed(ready) == self@.after_files(paths),
    {
        match paths {
            Ok(paths) => {
                let mut variables: Variables = Variables::new();
                variables.insert(FileRole::Base.name(), paths.base.as_str());
                variables.insert(FileRole::Right.name(), paths.right.as_str());
                variables.insert(FileRole::Left.name(), paths.left.as_str());
                variables.insert(FileRole::Output.name(), paths.output.as_str());
                let args = interpolate_variables(self.tool.merge_args.as_slice(), &variables);
                Ok(
                    ToolReady {
                        repo_path: self.repo_path,
                        conflict_id: self.conflict_id,
                        edits_markers: self.tool.merge_tool_edits_conflict_markers,
                        initial_output: self.initial_output,
                        program: self.tool.program,
                        args,
                        output_path: paths.output,
                    },
                )
            },
            Err(e) => Err(
                ConflictResolveError::ExternalToolError(ExternalToolError::SetUpDirError(e)),
            ),
        }
    }
}

/// The tool has done its work. Next, the output file is read.
pub struct ToolFinished {
    repo_path: RepoPath,
    conflict_id: ConflictId,
    edits_markers: bool,
    initial_output: Vec<u8>,
    output_path: String,
}

/// What a [`ToolFinished`] holds.
pub struct ToolFinishedView {
    pub repo_path: Seq<Seq<char>>,
    pub conflict_id: ConflictId,
    pub edits_markers: bool,
    pub initial_output: Seq<u8>,
    /// Where the output file is.
    pub output_path: Seq<char>,
}

impl View for ToolFinished {
    type V = ToolFinishedView;

    closed spec fn view(&self) -> ToolFinishedView {
        ToolFinishedView {
            repo_path: self.repo_path@,
            conflict_id: self.conflict_id,
            edits_markers: self.edits_markers,
            initial_output: self.initial_output@,
            output_path: self.output_path@,
        }
    }
}

impl ToolReadyView {
    /// The next stage: the tool must have ended well.
    pub open spec fn after_exit(self, outcome: Result<ExitStatus, IoError>) -> Result<
        ToolFinishedView,
        ConflictResolveErrorView,
    > {
        match exit_error(self.program, outcome) {
            None => Ok(
                ToolFinishedView {
                    repo_path: self.repo_path,
                    conflict_id: self.conflict_id,
                    edits_markers: self.edits_markers,
                    initial_output: self.initial_output,
                    output_path: self.output_path,
                },
            ),
            Some(e) => Err(ConflictResolveErrorView::ExternalToolError(e)),
        }
    }
}

impl ToolReady {
    /// The program to start.
    pub fn program(&self) -> (program: &String)
        ensures
            program@ == self@.program,
    {
        &self.program
    }

    /// The arguments to start it with.
    pub fn args(&self) -> (args: &Vec<String>)
        ensures
            args.deep_view() == self@.args,
    {
        &self.args
    }

    /// Goes on with how the tool ended.
    pub fn on_exit(self, outcome: Result<ExitStatus, IoError>) -> (finished: Result<
        ToolFinished,
        ConflictResolveError,
    >)
        ensures
            viewed(finished) == self@.after_exit(outcome),
    {
        match check_exit(self.program, outcome) {
            Ok(()) => Ok(
                ToolFinished {
                    repo_path: self.repo_path,
                    conflict_id: self.conflict_id,
                    edits_markers: self.edits_markers,
                    initial_output: self.initial_output,
                    output_path: self.output_path,
                },
            ),
            Err(e) => Err(ConflictResolveError::ExternalToolError(e)),
        }
    }
}

/// The output of the tool is a resolution of the conflict, or at least a part of one. Next, what
/// is left of the conflict is found out, if the tool edits conflict markers.
pub struct OutputAccepted {
    repo_path: RepoPath,
    conflict_id: ConflictId,
    edits_markers: bool,
    initial_output: Vec<u8>,
    output_path: String,
    output: Vec<u8>,
}

/// What an [`OutputAccepted`] holds.
pub struct OutputAcceptedView {
    pub repo_path: Seq<Seq<char>>,
    pub conflict_id: ConflictId,
    pub edits_markers: bool,
    pub initial_output: Seq<u8>,
    /// Where the output file is.
    pub output_path: Seq<char>,
    pub output: Seq<u8>,
}

impl View for OutputAccepted {
    type V = OutputAcceptedView;

    closed spec fn view(&self) -> OutputAcceptedView {
        OutputAcceptedView {
            repo_path: self.repo_path@,
            conflict_id: self.conflict_id,
            edits_markers: self.edits_markers,
            initial_output: self.initial_output@,
            output_path: self.output_path@,
            output: self.output@,
        }
    }
}

/// Whether the tool has left something in its output file, and something new.
pub open spec fn is_new_output(output: Seq<u8>, initial_output: Seq<u8>) -> bool {
    output.len() > 0 && output != initial_output
}

/// Whether the two are the same bytes.
fn same_bytes(a: &Vec<u8>, b: &Vec<u8>) -> (same: bool)
    ensures
        same == (a@ == b@),
{
    if a.len() != b.len() {
        return false;
    }
    for i in 0..a.len()
        invariant
            a@.len() == b@.len(),
            a@.take(i as int) == b@.take(i as int),
    {
        if a[i] != b[i] {
            return false;
        }
        assert(a@.take(i + 1) =~= a@.take(i as int).push(a@[i as int]));
        assert(b@.take(i + 1) =~= b@.take(i as int).push(b@[i as int]));
    }
    assert(a@.take(a@.len() as int) =~= a@);
    assert(b@.take(b@.len() as int) =~= b@);
    true
}

impl OutputAccepted {
    #[verifier::type_invariant]
    spec fn output_is_new(self) -> bool {
        is_new_output(self.output@, self.initial_output@)
    }
}

impl ToolFinishedView {
    /// The next stage: the output file must be readable, and its contents must be new.
    pub open spec fn after_output(self, output: Result<Vec<u8>, IoError>) -> Result<
        OutputAcceptedView,
        ConflictResolveErrorView,
    > {
        match output {
            Err(e) => Err(
                ConflictResolveErrorView::ExternalToolError(ExternalToolErrorView::IoError(e)),
            ),
            Ok(output) => if is_new_output(output@, self.initial_output) {
                Ok(
                    OutputAcceptedView {
                        repo_path: self.repo_path,
                        conflict_id: self.conflict_id,
                        edits_markers: self.edits_markers,
                        initial_output: self.initial_output,
                        output_path: self.output_path,
                        output: output@,
                    },
                )
            } else {
                Err(ConflictResolveErrorView::EmptyOrUnchanged)
            },
        }
    }
}

impl ToolFinished {
    /// The file to read: the one that the tool knows as its output.
    pub fn output_path(&self) -> (path: &String)
        ensures
            path@ == self@.output_path,
    {
        &self.output_path
    }

    /// Goes on with the contents of the output file.
    pub fn on_output(self, output: Result<Vec<u8>, IoError>) -> (accepted: Result<
        OutputAccepted,
        ConflictResolveError,
    >)
        ensures
            viewed(accepted) == self@.after_output(output),
    {
        match output {
            Err(e) => Err(ConflictResolveError::ExternalToolError(ExternalToolError::IoError(e))),
            Ok(output) => {
                if output.len() == 0 || same_bytes(&output, &self.initial_output) {
                    Err(ConflictResolveError::EmptyOrUnchanged)
                } else {
                    Ok(
                        OutputAccepted {
                            repo_path: self.repo_path,
                            conflict_id: self.conflict_id,
                            edits_markers: self.edits_markers,
                            initial_output: self.initial_output,
                            output_path: self.output_path,
                            output,
                        },
                    )
                }
            },
        }
    }
}

/// What is left of the conflict is known. Next, the output is put into the store as a file.
pub struct ConflictUpdated {
    repo_path: RepoPath,
    rest: Option<ConflictId>,
    output_path: String,
}

/// What a [`ConflictUpdated`] holds.
pub struct ConflictUpdatedView {
    pub repo_path: Seq<Seq<char>>,
    /// What is left of the conflict.
    pub rest: Option<ConflictId>,
    /// Where the output file is.
    pub output_path: Seq<char>,
}

impl View for ConflictUpdated {
    type V = ConflictUpdatedView;

    closed spec fn view(&self) -> ConflictUpdatedView {
        ConflictUpdatedView {
            repo_path: self.repo_path@,
            rest: self.rest,
            output_path: self.output_path@,
        }
    }
}

impl OutputAcceptedView {
    /// The next stage: the rest of the conflict must be known, where the tool edits conflict markers.
    pub open spec fn after_update(self, rest: Result<Option<ConflictId>, BackendError>) -> Result<
        ConflictUpdatedView,
        ConflictResolveErrorView,
    > {
        let rest = if self.edits_markers {
            rest
        } else {
            Ok(None)
        };
        match rest {
            Ok(rest) => Ok(
                ConflictUpdatedView {
                    repo_path: self.repo_path,
                    rest,
                    output_path: self.output_path,
                },
            ),
            Err(e) => Err(ConflictResolveErrorView::BackendError(e)),
        }
    }
}

impl OutputAccepted {
    /// The place of the conflict.
    pub fn repo_path(&self) -> (repo_path: &RepoPath)
        ensures
            repo_path@ == self@.repo_path,
    {
        &self.repo_path
    }

    /// The conflict that was to be resolved.
    pub fn conflict_id(&self) -> (conflict_id: &ConflictId)
        ensures
            *conflict_id == self@.conflict_id,
    {
        &self.conflict_id
    }

    /// Whether conflict markers in the output mean that a part of the conflict is left.
    pub fn edits_markers(&self) -> (edits_markers: bool)
        ensures
            edits_markers == self@.edits_markers,
    {
        self.edits_markers
    }

    /// What the tool left in its output file. It is something, and something new.
    pub fn output(&self) -> (output: &Vec<u8>)
        ensures
            output@ == self@.output,
            is_new_output(output@, self@.initial_output),
    {
        proof {
            use_type_invariant(self);
        }
        &self.output
    }

    /// Goes on with the conflict that the markers in the output describe, if there are any. It is
    /// left aside where the tool does not edit those.
    pub fn on_update(self, rest: Result<Option<ConflictId>, BackendError>) -> (updated: Result<
        ConflictUpdated,
        ConflictResolveError,
    >)
        ensures
            viewed(updated) == self@.after_update(rest),
    {
        let rest: Result<Option<ConflictId>, BackendError> = if self.edits_markers {
            rest
        } else {
            Ok(None)
        };
        match rest {
            Ok(rest) => Ok(
                ConflictUpdated { repo_path: self.repo_path, rest, output_path: self.output_path },
            ),
            Err(e) => Err(ConflictResolveError::BackendError(e)),
        }
    }
}

/// The reasons for which a file does not get into a store.
pub enum StoreFileError {
    /// The file could not be opened.
    Open(IoError),
    /// The store did not take it.
    Write(BackendError),
}

/// The change of the tree that ends the work.
pub struct TreeChange {
    /// Where the tree changes.
    pub repo_path: RepoPath,
    /// What it holds there from now on.
    pub value: TreeValue,
}

/// What a [`TreeChange`] says.
pub struct TreeChangeView {
    pub repo_path: Seq<Seq<char>>,
    pub value: TreeValue,
}

impl View for TreeChange {
    type V = TreeChangeView;

    open spec fn view(&self) -> TreeChangeView {
        TreeChangeView { repo_path: self.repo_path@, value: self.value }
    }
}

impl ConflictUpdatedView {
    /// The end: the output must be in the store. It takes the place of the conflict, unless a part
    /// of that is left.
    pub open spec fn after_stored(self, file: Result<FileId, StoreFileError>) -> Result<
        TreeChangeView,
        ConflictResolveErrorView,
    > {
        match file {
            Ok(id) => Ok(
                TreeChangeView {
                    repo_path: self.repo_path,
                    value: match self.rest {
                        Some(rest) => TreeValue::Conflict(rest),
                        None => TreeValue::File { id, executable: false },
                    },
                },
            ),
            Err(StoreFileError::Open(e)) => Err(
                ConflictResolveErrorView::ExternalToolError(ExternalToolErrorView::IoError(e)),
            ),
            Err(StoreFileError::Write(e)) => Err(ConflictResolveErrorView::BackendError(e)),
        }
    }
}

impl ConflictUpdated {
    /// The place of the conflict.
    pub fn repo_path(&self) -> (repo_path: &RepoPath)
        ensures
            repo_path@ == self@.repo_path,
    {
        &self.repo_path
    }

    /// The file to put into the store: the one that the tool knows as its output.
    pub fn output_path(&self) -> (path: &String)
        ensures
            path@ == self@.output_path,
    {
        &self.output_path
    }

    /// Ends the work with the file that the store has made of the output. It takes the place of the
    /// conflict, unless a part of that is left. The output has to be in the store in either case.
    pub fn on_stored(self, file: Result<FileId, StoreFileError>) -> (change: Result<
        TreeChange,
        ConflictResolveError,
    >)
        ensures
            viewed(change) == self@.after_stored(file),
    {
        match file {
            Ok(id) => {
                let value: TreeValue = match self.rest {
                    Some(rest) => TreeValue::Conflict(rest),
                    None => TreeValue::File { id, executable: false },
                };
                Ok(TreeChange { repo_path: self.repo_path, value })
            },
            Err(StoreFileError::Open(e)) => Err(
                ConflictResolveError::ExternalToolError(ExternalToolError::IoError(e)),
            ),
            Err(StoreFileError::Write(e)) => Err(ConflictResolveError::BackendError(e)),
        }
    }
}

/// All that is found out on the way from a conflict to its resolution.
pub struct ResolveRun {
    pub repo_path: Seq<Seq<char>>,
    pub value: Option<TreeValue>,
    pub conflict: Result<ConflictContent, BackendError>,
    pub settings: UserSettings,
    pub materialized: Seq<u8>,
    pub paths: Result<ToolPaths, IoError>,
    pub exit: Result<ExitStatus, IoError>,
    pub output: Result<Vec<u8>, IoError>,
    pub rest: Result<Option<ConflictId>, BackendError>,
    pub file: Result<FileId, StoreFileError>,
}

impl ResolveRun {
    /// The tool, where the work comes so far that it can be started.
    pub open spec fn ready(self) -> Result<ToolReadyView, ConflictResolveErrorView> {
        match found_conflict(self.repo_path, self.value) {
            Err(e) => Err(e),
            Ok(found) => match found.after_conflict(self.conflict) {
                Err(e) => Err(e),
                Ok(simple) => match simple.after_choice(self.settings) {
                    Err(e) => Err(e),
                    Ok(chosen) => chosen.after_materialized(self.materialized).after_files(
                        self.paths,
                    ),
                },
            },
        }
    }

    /// The end of the tool, where it has ended well.
    pub open spec fn finished(self) -> Result<ToolFinishedView, ConflictResolveErrorView> {
        match self.ready() {
            Err(e) => Err(e),
            Ok(ready) => ready.after_exit(self.exit),
        }
    }

    /// What is left of the conflict, where the output of the tool is accepted.
    pub open spec fn updated(self) -> Result<ConflictUpdatedView, ConflictResolveErrorView> {
        match self.finished() {
            Err(e) => Err(e),
            Ok(finished) => match finished.after_output(self.output) {
                Err(e) => Err(e),
                Ok(accepted) => accepted.after_update(self.rest),
            },
        }
    }

    /// What comes of all the stages.
    pub open spec fn result(self) -> Result<TreeChangeView, ConflictResolveErrorView> {
        match self.updated() {
            Err(e) => Err(e),
            Ok(updated) => updated.after_stored(self.file),
        }
    }
}

/// A tool is only started on a simple conflict between normal files, and only with arguments for
/// merges.
pub proof fn law_tools_are_started_on_simple_conflicts(run: ResolveRun)
    ensures
        run.ready() is Ok ==> {
            &&& run.value matches Some(TreeValue::Conflict(_))
            &&& run.conflict matches Ok(ConflictContent::Hunk(hunk)) && is_simple(hunk)
            &&& merge_tool(run.settings) matches Ok(tool) && tool.merge_args.len() > 0
            &&& run.ready()->Ok_0.args.len() > 0
        },
{
}

/// The tree changes only when the tool has ended well and has left something new, only at the path
/// of the conflict, and there to the output of the tool or to what is left of the conflict.
pub proof fn law_only_new_output_changes_the_tree(run: ResolveRun)
    ensures
        run.result() matches Ok(change) ==> {
            &&& run.ready() matches Ok(ready)
            &&& run.exit matches Ok(status) && status.is_success()
            &&& run.output matches Ok(output) && is_new_output(output@, ready.initial_output)
            &&& change.repo_path == run.repo_path
            &&& run.file matches Ok(id)
            &&& match run.rest {
                Ok(Some(rest)) if ready.edits_markers => change.value == TreeValue::Conflict(rest),
                _ => change.value == (TreeValue::File { id, executable: false }),
            }
        },
{
}

/// A tool that does not edit conflict markers starts with an empty output file, and its output is
/// taken as a full resolution as it is.
pub proof fn law_output_without_markers_is_final(run: ResolveRun)
    requires
        merge_tool(run.settings) matches Ok(tool) && !tool.merge_tool_edits_conflict_markers,
    ensures
        run.ready() matches Ok(ready) ==> ready.initial_output.len() == 0,
        run.result() matches Ok(change) ==> change.value is File,
{
}

/// An output file that is empty or as it was is refused, however well the tool ended.
pub proof fn law_empty_or_unchanged_output_is_refused(run: ResolveRun)
    requires
        run.ready() is Ok,
        run.exit matches Ok(status) && status.is_success(),
        run.output matches Ok(output) && (output@.len() == 0 || output@
            == run.ready()->Ok_0.initial_output),
    ensures
        run.result() == Err::<TreeChangeView, ConflictResolveErrorView>(
            ConflictResolveErrorView::EmptyOrUnchanged,
        ),
{
}

/// The four files of a tool have four names, so that none takes the place of another.
pub proof fn law_file_names_differ(repo_path: Seq<Seq<char>>, a: FileRole, b: FileRole)
    requires
        a != b,
    ensures
        a.spec_name() + name_suffix(repo_path) != b.spec_name() + name_suffix(repo_path),
{
    reveal_strlit("base");
    reveal_strlit("right");
    reveal_strlit("left");
    reveal_strlit("output");
    let name_a = a.spec_name() + name_suffix(repo_path);
    let name_b = b.spec_name() + name_suffix(repo_path);
    assert(name_a.len() == name_b.len() ==> name_a[0] != name_b[0]);
}

/// `$left`, `$right`, `$base` and `$output` become the paths of the corresponding files.
pub proof fn law_references_become_paths(role: FileRole, paths: ToolPaths)
    ensures
        interpolated(seq!['$'] + role.spec_name(), path_variables(paths)) == paths.path(role),
{
    reveal_strlit("base");
    reveal_strlit("right");
    reveal_strlit("left");
    reveal_strlit("output");
    assert(FileRole::Base.spec_name()[0] != FileRole::Left.spec_name()[0]);
    assert(FileRole::Right.spec_name()[0] != FileRole::Left.spec_name()[0]);
    assert(FileRole::Base.spec_name()[0] != FileRole::Right.spec_name()[0]);
    assert(FileRole::Output.spec_name()[0] != FileRole::Base.spec_name()[0]);
    assert(FileRole::Output.spec_name()[0] != FileRole::Right.spec_name()[0]);
    assert(FileRole::Output.spec_name()[0] != FileRole::Left.spec_name()[0]);
    law_whole_references_become_values(role.spec_name(), path_variables(paths));
}

/// The file that is read when the tool has ended, and the one that is put into the store, is the one
/// that the tool was told of as `$output`.
pub proof fn law_output_comes_from_the_output_file(run: ResolveRun)
    ensures
        run.finished() matches Ok(finished) ==> {
            &&& run.paths matches Ok(paths)
            &&& finished.output_path == paths.path(FileRole::Output)
            &&& finished.output_path == interpolated(
                seq!['$'] + FileRole::Output.spec_name(),
                path_variables(paths),
            )
        },
        run.updated() matches Ok(updated) ==> {
            &&& run.finished() matches Ok(finished)
            &&& updated.output_path == finished.output_path
        },
{
    if let Ok(paths) = run.paths {
        law_references_become_paths(FileRole::Output, paths);
    }
}

/// The tool may write to its output file, and to no other.
pub proof fn law_only_output_is_writable(
    repo_path: Seq<Seq<char>>,
    hunk: ConflictHunk,
    initial_output: Seq<u8>,
)
    ensures
        forall|i: int|
            #![trigger tool_files(repo_path, hunk, initial_output)[i]]
            0 <= i < tool_files(repo_path, hunk, initial_output).len() ==> {
                let file = tool_files(repo_path, hunk, initial_output)[i];
                file.read_only <==> file.role != FileRole::Output
            },
{
}

/// In the usual case, each term of a simple conflict goes into one file: the one remove is the base,
/// the first add the left side and the second add the right side.
pub proof fn law_terms_become_sides(
    repo_path: Seq<Seq<char>>,
    hunk: ConflictHunk,
    initial_output: Seq<u8>,
)
    requires
        hunk.removes@.len() == 1,
        hunk.adds@.len() == 2,
    ensures
        is_simple(hunk),
        ({
            let files = tool_files(repo_path, hunk, initial_output);
            &&& files[0].role == FileRole::Base && files[0].contents == hunk.removes@[0]@
            &&& files[1].role == FileRole::Right && files[1].contents == hunk.adds@[1]@
            &&& files[2].role == FileRole::Left && files[2].contents == hunk.adds@[0]@
        }),
{
}

/// The work starts where the tree holds a conflict, and there only. A path that the tree does not
/// have is told apart from one that is no conflict.
pub proof fn law_only_conflicts_are_resolved(
    repo_path: Seq<Seq<char>>,
    value: Option<TreeValue>,
)
    ensures
        match value {
            Some(TreeValue::Conflict(id)) => {
                &&& found_conflict(repo_path, value) matches Ok(found)
                &&& found.repo_path == repo_path
                &&& found.conflict_id == id
            },
            Some(TreeValue::File { .. }) | Some(TreeValue::Other) => found_conflict(
                repo_path,
                value,
            ) == Err::<FoundConflictView, ConflictResolveErrorView>(
                ConflictResolveErrorView::NotAConflictError(repo_path),
            ),
            None => found_conflict(repo_path, value) == Err::<
                FoundConflictView,
                ConflictResolveErrorView,
            >(ConflictResolveErrorView::PathNotFoundError(repo_path)),
        },
{
}

/// A conflict is taken on with all its terms where there is at most 1 remove and there are at most 2
/// adds, and there only. In any other case the error says what the conflict is made of.
pub proof fn law_few_terms_are_simple(
    found: FoundConflictView,
    conflict: Result<ConflictContent, BackendError>,
)
    ensures
        match conflict {
            Ok(ConflictContent::Hunk(hunk)) => if hunk.removes@.len() <= 1 && hunk.adds@.len()
                <= 2 {
                &&& found.after_conflict(conflict) matches Ok(simple)
                &&& simple.repo_path == found.repo_path
                &&& simple.conflict_id == found.conflict_id
                &&& simple.hunk == hunk
            } else {
                found.after_conflict(conflict) == Err::<
                    SimpleConflictView,
                    ConflictResolveErrorView,
                >(
                    ConflictResolveErrorView::ConflictTooComplicatedError {
                        path: found.repo_path,
                        removes: hunk.removes@.len(),
                        adds: hunk.adds@.len(),
                    },
                )
            },
            Ok(ConflictContent::NotNormalFiles { summary }) => found.after_conflict(conflict)
                == Err::<SimpleConflictView, ConflictResolveErrorView>(
                ConflictResolveErrorView::NotNormalFilesError(
                    found.repo_path,
                    lossy_text(summary@),
                ),
            ),
            Err(e) => found.after_conflict(conflict) == Err::<
                SimpleConflictView,
                ConflictResolveErrorView,
            >(ConflictResolveErrorView::BackendError(e)),
        },
        forall|hunk: ConflictHunk| #[trigger]
            is_simple(hunk) <==> hunk.removes@.len() <= 1 && hunk.adds@.len() <= 2,
{
}

/// The tool is the one that the settings choose for merges, and the conflict stays what it was.
pub proof fn law_settings_choose_the_tool(simple: SimpleConflictView, settings: UserSettings)
    ensures
        match merge_tool(settings) {
            Ok(tool) => {
                &&& simple.after_choice(settings) matches Ok(chosen)
                &&& chosen.tool == tool
                &&& chosen.repo_path == simple.repo_path
                &&& chosen.conflict_id == simple.conflict_id
                &&& chosen.hunk == simple.hunk
            },
            Err(e) => simple.after_choice(settings) == Err::<
                ToolChosenView,
                ConflictResolveErrorView,
            >(ConflictResolveErrorView::ExternalToolError(e)),
        },
{
}

/// Each term of a simple conflict goes into one file, and a side without a term is an empty file.
/// The base is the remove. The right side is the last add. The left side is the first of two adds:
/// where there is one add only, the other side has deleted the file, and is shown as empty. The
/// output starts out with the conflict where the tool edits conflict markers, and is empty for any
/// other tool.
pub proof fn law_files_hold_the_terms(chosen: ToolChosenView, materialized: Seq<u8>)
    requires
        chosen.hunk.removes@.len() <= 1,
        chosen.hunk.adds@.len() <= 2,
    ensures
        ({
            let removes = chosen.hunk.removes@;
            let adds = chosen.hunk.adds@;
            let prepared = chosen.after_materialized(materialized);
            let files = prepared.files;
            &&& files.len() == 4
            &&& files[0].role == FileRole::Base
            &&& removes.len() == 1 ==> files[0].contents == removes[0]@
            &&& removes.len() == 0 ==> files[0].contents.len() == 0
            &&& files[1].role == FileRole::Right
            &&& adds.len() == 2 ==> files[1].contents == adds[1]@
            &&& adds.len() == 1 ==> files[1].contents == adds[0]@
            &&& adds.len() == 0 ==> files[1].contents.len() == 0
            &&& files[2].role == FileRole::Left
            &&& adds.len() == 2 ==> files[2].contents == adds[0]@
            &&& adds.len() < 2 ==> files[2].contents.len() == 0
            &&& files[3].role == FileRole::Output
            &&& chosen.tool.merge_tool_edits_conflict_markers ==> files[3].contents == materialized
            &&& !chosen.tool.merge_tool_edits_conflict_markers ==> files[3].contents.len() == 0
            &&& prepared.initial_output == files[3].contents
            &&& prepared.tool == chosen.tool
            &&& prepared.repo_path == chosen.repo_path
            &&& prepared.conflict_id == chosen.conflict_id
        }),
{
}

/// The name of each file is that of its role, with an underscore and the last component of the path
/// behind it if the path has one. Only the output can be written to.
pub proof fn law_files_are_named_after_their_roles(chosen: ToolChosenView, materialized: Seq<u8>)
    ensures
        ({
            let path = chosen.repo_path;
            let files = chosen.after_materialized(materialized).files;
            &&& path.len() > 0 ==> {
                &&& files[0].name == "base"@ + ("_"@ + path[path.len() - 1])
                &&& files[1].name == "right"@ + ("_"@ + path[path.len() - 1])
                &&& files[2].name == "left"@ + ("_"@ + path[path.len() - 1])
                &&& files[3].name == "output"@ + ("_"@ + path[path.len() - 1])
            }
            &&& path.len() == 0 ==> {
                &&& files[0].name == "base"@
                &&& files[1].name == "right"@
                &&& files[2].name == "left"@
                &&& files[3].name == "output"@
            }
            &&& files[0].read_only && files[1].read_only && files[2].read_only
            &&& !files[3].read_only
        }),
{
    let files = chosen.after_materialized(materialized).files;
    if chosen.repo_path.len() == 0 {
        assert(files[0].name =~= "base"@);
        assert(files[1].name =~= "right"@);
        assert(files[2].name =~= "left"@);
        assert(files[3].name =~= "output"@);
    }
}

/// The view of a file for the tool keeps all of it.
pub proof fn law_file_views_are_complete(file: ToolFile)
    ensures
        file@.role == file.role,
        file@.name == file.name@,
        file@.contents == file.contents@,
        file@.read_only == file.read_only,
        file.deep_view() == file@,
{
}

/// There are four variables, one for each file, each with the path of its file.
pub proof fn law_each_variable_is_a_path(paths: ToolPaths, name: Seq<char>)
    ensures
        path_variables(paths).contains_key(name) <==> {
            ||| name == "base"@
            ||| name == "right"@
            ||| name == "left"@
            ||| name == "output"@
        },
        path_variables(paths)["base"@] == paths.base@,
        path_variables(paths)["right"@] == paths.right@,
        path_variables(paths)["left"@] == paths.left@,
        path_variables(paths)["output"@] == paths.output@,
{
    reveal_strlit("base");
    reveal_strlit("right");
    reveal_strlit("left");
    reveal_strlit("output");
    assert("base"@[0] != "left"@[0]);
    assert("right"@[0] != "left"@[0]);
    assert("base"@[0] != "right"@[0]);
    assert("output"@[0] != "base"@[0]);
    assert("output"@[0] != "right"@[0]);
    assert("output"@[0] != "left"@[0]);
}

/// The program of the tool is started with its arguments for merges, as many as there are and in
/// their order, each with the paths of the files in place of the references. Its output file, and
/// how that started out, are remembered.
pub proof fn law_tools_are_started_with_their_merge_args(
    prepared: FilesPreparedView,
    paths: Result<ToolPaths, IoError>,
)
    ensures
        match paths {
            Ok(paths) => {
                &&& prepared.after_files(Ok(paths)) matches Ok(ready)
                &&& ready.program == prepared.tool.program
                &&& ready.args.len() == prepared.tool.merge_args.len()
                &&& forall|i: int|
                    0 <= i < ready.args.len() ==> #[trigger] ready.args[i] == interpolated(
                        prepared.tool.merge_args[i],
                        path_variables(paths),
                    )
                &&& ready.output_path == paths.output@
                &&& ready.initial_output == prepared.initial_output
                &&& ready.edits_markers == prepared.tool.merge_tool_edits_conflict_markers
                &&& ready.repo_path == prepared.repo_path
                &&& ready.conflict_id == prepared.conflict_id
            },
            Err(e) => prepared.after_files(paths) == Err::<ToolReadyView, ConflictResolveErrorView>(
                ConflictResolveErrorView::ExternalToolError(
                    ExternalToolErrorView::SetUpDirError(e),
                ),
            ),
        },
{
    if let Ok(paths) = paths {
        law_arguments_are_replaced_one_by_one(prepared.tool.merge_args, path_variables(paths));
    }
}

/// The output is looked at when the tool was started and its exit code is 0, and then only. What is
/// known of the conflict and of the output file stays the same.
pub proof fn law_only_exit_code_zero_leads_on(
    ready: ToolReadyView,
    outcome: Result<ExitStatus, IoError>,
)
    ensures
        match outcome {
            Ok(status) => if status.code == Some(0i32) {
                &&& ready.after_exit(outcome) matches Ok(finished)
                &&& finished.repo_path == ready.repo_path
                &&& finished.conflict_id == ready.conflict_id
                &&& finished.edits_markers == ready.edits_markers
                &&& finished.initial_output == ready.initial_output
                &&& finished.output_path == ready.output_path
            } else {
                ready.after_exit(outcome) == Err::<ToolFinishedView, ConflictResolveErrorView>(
                    ConflictResolveErrorView::ExternalToolError(
                        ExternalToolErrorView::ToolAborted { exit_status: status },
                    ),
                )
            },
            Err(e) => ready.after_exit(outcome) == Err::<
                ToolFinishedView,
                ConflictResolveErrorView,
            >(
                ConflictResolveErrorView::ExternalToolError(
                    ExternalToolErrorView::FailedToExecute {
                        tool_binary: ready.program,
                        source: e,
                    },
                ),
            ),
        },
{
    law_only_exit_code_zero_is_good(ready.program, outcome);
}

/// An output is accepted, with all its bytes, where there is at least one of them and the output file
/// did not start out with the same bytes.
pub proof fn law_only_new_output_is_accepted(
    finished: ToolFinishedView,
    output: Result<Vec<u8>, IoError>,
)
    ensures
        match output {
            Ok(bytes) => if bytes@.len() > 0 && bytes@ != finished.initial_output {
                &&& finished.after_output(output) matches Ok(accepted)
                &&& accepted.output == bytes@
                &&& accepted.repo_path == finished.repo_path
                &&& accepted.conflict_id == finished.conflict_id
                &&& accepted.edits_markers == finished.edits_markers
                &&& accepted.initial_output == finished.initial_output
                &&& accepted.output_path == finished.output_path
            } else {
                finished.after_output(output) == Err::<
                    OutputAcceptedView,
                    ConflictResolveErrorView,
                >(ConflictResolveErrorView::EmptyOrUnchanged)
            },
            Err(e) => finished.after_output(output) == Err::<
                OutputAcceptedView,
                ConflictResolveErrorView,
            >(ConflictResolveErrorView::ExternalToolError(ExternalToolErrorView::IoError(e))),
        },
{
}

/// What is left of the conflict is what the markers in the output say, where the tool edits markers.
/// Where it does not, nothing is left, and it makes no difference what markers say.
pub proof fn law_markers_say_what_is_left(
    accepted: OutputAcceptedView,
    rest: Result<Option<ConflictId>, BackendError>,
)
    ensures
        accepted.edits_markers ==> match rest {
            Ok(rest) => {
                &&& accepted.after_update(Ok(rest)) matches Ok(updated)
                &&& updated.rest == rest
            },
            Err(e) => accepted.after_update(rest) == Err::<
                ConflictUpdatedView,
                ConflictResolveErrorView,
            >(ConflictResolveErrorView::BackendError(e)),
        },
        !accepted.edits_markers ==> {
            &&& accepted.after_update(rest) matches Ok(updated)
            &&& updated.rest is None
        },
        accepted.after_update(rest) matches Ok(updated) ==> updated.repo_path == accepted.repo_path
            && updated.output_path == accepted.output_path,
{
}

/// The tree holds what is left of the conflict, or else the output as a file that is not executable.
/// In either case the output has to get into the store.
pub proof fn law_resolutions_take_the_place_of_conflicts(
    updated: ConflictUpdatedView,
    file: Result<FileId, StoreFileError>,
)
    ensures
        match file {
            Ok(stored) => {
                &&& updated.after_stored(file) matches Ok(change)
                &&& change.repo_path == updated.repo_path
                &&& match updated.rest {
                    Some(rest) => change.value == TreeValue::Conflict(rest),
                    None => change.value matches TreeValue::File { id, executable } && id == stored
                        && !executable,
                }
            },
            Err(StoreFileError::Open(e)) => updated.after_stored(file) == Err::<
                TreeChangeView,
                ConflictResolveErrorView,
            >(ConflictResolveErrorView::ExternalToolError(ExternalToolErrorView::IoError(e))),
            Err(StoreFileError::Write(e)) => updated.after_stored(file) == Err::<
                TreeChangeView,
                ConflictResolveErrorView,
            >(ConflictResolveErrorView::BackendError(e)),
        },
        forall|change: TreeChange| #[trigger]
            change@.repo_path == change.repo_path@ && change@.value == change.value,
{
}

/// A tool is started where the tree holds a conflict of at most 1 remove and 2 adds between normal
/// files, the settings have a tool for merges, and its files were written; and there only. It is the
/// tool of the settings, with its own arguments for merges.
pub proof fn law_simple_conflicts_get_their_tool(run: ResolveRun)
    ensures
        run.ready() is Ok <==> {
            &&& run.value matches Some(TreeValue::Conflict(_))
            &&& run.conflict matches Ok(ConflictContent::Hunk(hunk)) && hunk.removes@.len() <= 1
                && hunk.adds@.len() <= 2
            &&& merge_tool(run.settings) is Ok
            &&& run.paths is Ok
        },
        run.ready() matches Ok(ready) ==> {
            let tool = merge_tool(run.settings)->Ok_0;
            let paths = run.paths->Ok_0;
            &&& ready.program == tool.program
            &&& ready.args.len() == tool.merge_args.len()
            &&& forall|i: int|
                0 <= i < ready.args.len() ==> #[trigger] ready.args[i] == interpolated(
                    tool.merge_args[i],
                    path_variables(paths),
                )
            &&& ready.output_path == paths.output@
            &&& tool.merge_tool_edits_conflict_markers ==> ready.initial_output == run.materialized
            &&& !tool.merge_tool_edits_conflict_markers ==> ready.initial_output.len() == 0
            &&& ready.repo_path == run.repo_path
        },
{
}

/// The work succeeds where the tool was started, its exit code is 0, it left something new in its
/// output file, its markers were understood if it edits them, and the output got into the store; and
/// there only.
pub proof fn law_good_work_succeeds(run: ResolveRun)
    ensures
        run.result() is Ok <==> {
            &&& run.ready() matches Ok(ready)
            &&& run.exit matches Ok(status) && status.code == Some(0i32)
            &&& run.output matches Ok(output) && output@.len() > 0 && output@
                != ready.initial_output
            &&& merge_tool(run.settings)->Ok_0.merge_tool_edits_conflict_markers ==> run.rest is Ok
            &&& run.file is Ok
        },
{
}

} // verus!
