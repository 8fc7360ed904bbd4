//! Editing the difference between two trees with a diff editor.
//!
//! The work goes from stage to stage. Each stage says what is to be done next outside of this
//! library, and what came of it leads to the next stage or to an error. A stage can only be had
//! from the one before it.

use crate::errors::{
    CheckoutError, DiffEditError, DiffEditErrorView, ExitStatus, ExternalToolError,
    ExternalToolErrorView, IoError, SnapshotError,
};
use crate::interpolate::{
    interpolate_variables, interpolated, interpolated_args, law_arguments_are_replaced_one_by_one,
    law_whole_references_become_values, Variables,
};
use crate::outcome::viewed;
use crate::repo::{RepoPath, TreeId};
use crate::settings::{
    diff_editor, editor_hints, get_diff_editor_from_settings, Ui, UserSettings, DIFF_EDITOR_KEY,
};
use crate::tool::{check_exit, default_tool, exit_error, law_only_exit_code_zero_is_good};
use vstd::prelude::*;

verus! {

/// The start of the name of the directory that the editor works in.
pub const TEMP_DIR_PREFIX: &'static str = "jj-diff-edit-";

/// The file that tells the user what to do.
pub const INSTRUCTIONS_FILE: &'static str = "JJ-INSTRUCTIONS";

/// The two trees, by the side on which they are shown. Edits are made on the right side.
#[derive(Clone, Copy, PartialEq, Eq, Structural)]
pub enum Side {
    Left,
    Right,
}

impl Side {
    /// The directory that the tree is checked out to.
    pub open spec fn spec_wc_dir(self) -> Seq<char> {
        match self {
            Side::Left => "left"@,
            Side::Right => "right"@,
        }
    }

    /// The directory in which the state of that directory is kept.
    pub open spec fn spec_state_dir(self) -> Seq<char> {
        match self {
            Side::Left => "left_state"@,
            Side::Right => "right_state"@,
        }
    }

    /// The directory that the tree is checked out to.
    pub fn wc_dir(&self) -> (dir: &'static str)
        ensures
            dir@ == self.spec_wc_dir(),
    {
        match self {
            Side::Left => "left",
            Side::Right => "right",
        }
    }

    /// The directory in which the state of that directory is kept.
    pub fn state_dir(&self) -> (dir: &'static str)
        ensures
            dir@ == self.spec_state_dir(),
    {
        match self {
            Side::Left => "left_state",
            Side::Right => "right_state",
        }
    }
}

/// A step in setting up the directories. All names are relative to the temporary directory.
pub enum SetUpStep {
    /// Makes the temporary directory, with a name that starts like this.
    CreateTempDir { prefix: String },
    /// Makes a directory.
    CreateDir { name: String },
    /// Writes those files of a tree that are under the given paths to a directory.
    CheckOut { side: Side, wc_dir: String, state_dir: String, sparse_patterns: Vec<RepoPath> },
    /// Makes all files in a directory read-only.
    MakeReadOnly { name: String },
}

/// What a [`SetUpStep`] says.
pub enum SetUpStepView {
    CreateTempDir { prefix: Seq<char> },
    CreateDir { name: Seq<char> },
    CheckOut {
        side: Side,
        wc_dir: Seq<char>,
        state_dir: Seq<char>,
        sparse_patterns: Seq<Seq<Seq<char>>>,
    },
    MakeReadOnly { name: Seq<char> },
}

/// The paths in a list of paths.
pub open spec fn path_views(paths: Seq<RepoPath>) -> Seq<Seq<Seq<char>>> {
    paths.map_values(|path: RepoPath| path@)
}

impl View for SetUpStep {
    type V = SetUpStepView;

    open spec fn view(&self) -> SetUpStepView {
        match *self {
            SetUpStep::CreateTempDir { prefix } => SetUpStepView::CreateTempDir { prefix: prefix@ },
            SetUpStep::CreateDir { name } => SetUpStepView::CreateDir { name: name@ },
            SetUpStep::CheckOut { side, wc_dir, state_dir, sparse_patterns } => {
                SetUpStepView::CheckOut {
                    side,
                    wc_dir: wc_dir@,
                    state_dir: state_dir@,
                    sparse_patterns: path_views(sparse_patterns@),
                }
            },
            SetUpStep::MakeReadOnly { name } => SetUpStepView::MakeReadOnly { name: name@ },
        }
    }
}

impl DeepView for SetUpStep {
    type V = SetUpStepView;

    open spec fn deep_view(&self) -> SetUpStepView {
        self@
    }
}

/// The steps that check out the tree on one side.
pub open spec fn check_out_steps(
    side: Side,
    sparse_patterns: Seq<Seq<Seq<char>>>,
) -> Seq<SetUpStepView> {
    seq![
        SetUpStepView::CreateDir { name: side.spec_wc_dir() },
        SetUpStepView::CreateDir { name: side.spec_state_dir() },
        SetUpStepView::CheckOut {
            side,
            wc_dir: side.spec_wc_dir(),
            state_dir: side.spec_state_dir(),
            sparse_patterns,
        },
    ]
}

/// The steps that set up all directories. The left side is there to be read only.
pub open spec fn set_up_steps(changed_files: Seq<Seq<Seq<char>>>) -> Seq<SetUpStepView> {
    seq![SetUpStepView::CreateTempDir { prefix: TEMP_DIR_PREFIX@ }] + check_out_steps(
        Side::Left,
        changed_files,
    ) + seq![SetUpStepView::MakeReadOnly { name: Side::Left.spec_wc_dir() }] + check_out_steps(
        Side::Right,
        changed_files,
    )
}

/// A copy of the paths.
fn copy_paths(paths: &Vec<RepoPath>) -> (copy: Vec<RepoPath>)
    ensures
        path_views(copy@) == path_views(paths@),
{
    let mut copy: Vec<RepoPath> = Vec::new();
    for i in 0..paths.len()
        invariant
            copy@.len() == i,
            forall|j: int| 0 <= j < i ==> #[trigger] copy@[j]@ == paths@[j]@,
    {
        copy.push(paths[i].clone());
    }
    assert(path_views(copy@) =~= path_views(paths@));
    copy
}

/// Adds the steps that check out the tree on one side.
fn check_out(steps: &mut Vec<SetUpStep>, side: Side, sparse_patterns: Vec<RepoPath>)
    ensures
        final(steps).deep_view() == old(steps).deep_view() + check_out_steps(
            side,
            path_views(sparse_patterns@),
        ),
{
    let ghost before = steps.deep_view();
    steps.push(SetUpStep::CreateDir { name: side.wc_dir().to_owned() });
    steps.push(SetUpStep::CreateDir { name: side.state_dir().to_owned() });
    steps.push(
        SetUpStep::CheckOut {
            side,
            wc_dir: side.wc_dir().to_owned(),
            state_dir: side.state_dir().to_owned(),
            sparse_patterns,
        },
    );
    assert(steps.deep_view() =~= before + check_out_steps(side, path_views(sparse_patterns@)));
}

/// It is known which files differ. Next, the directories are set up.
pub struct DirsPlanned {
    instructions: String,
    steps: Vec<SetUpStep>,
}

/// What a [`DirsPlanned`] holds.
pub struct DirsPlannedView {
    pub instructions: Seq<char>,
    pub steps: Seq<SetUpStepView>,
}

impl View for DirsPlanned {
    type V = DirsPlannedView;

    closed spec fn view(&self) -> DirsPlannedView {
        DirsPlannedView { instructions: self.instructions@, steps: self.steps.deep_view() }
    }
}

/// Starts with the files in which the two trees differ. Only those are checked out.
pub fn plan_dirs(changed_files: Vec<RepoPath>, instructions: String) -> (planned: DirsPlanned)
    ensures
        planned@ == (DirsPlannedView {
            instructions: instructions@,
            steps: set_up_steps(path_views(changed_files@)),
        }),
{
    let ghost changed = path_views(changed_files@);
    let mut steps: Vec<SetUpStep> = Vec::new();
    steps.push(SetUpStep::CreateTempDir { prefix: TEMP_DIR_PREFIX.to_owned() });
    assert(steps.deep_view() =~= seq![SetUpStepView::CreateTempDir { prefix: TEMP_DIR_PREFIX@ }]);
    check_out(&mut steps, Side::Left, copy_paths(&changed_files));
    let ghost before = steps.deep_view();
    steps.push(SetUpStep::MakeReadOnly { name: Side::Left.wc_dir().to_owned() });
    assert(steps.deep_view() =~= before + seq![
        SetUpStepView::MakeReadOnly { name: Side::Left.spec_wc_dir() },
    ]);
    check_out(&mut steps, Side::Right, changed_files);
    DirsPlanned { instructions, steps }
}

/// The reasons for which a step can fail.
pub enum SetUpFailure {
    /// A directory could not be made, or a file could not be made read-only.
    Io(IoError),
    /// A tree could not be checked out.
    CheckOut(CheckoutError),
}

/// The directories are set up. Next, it is found out whether there is a file of the same name as
/// the instructions.
pub struct DirsReady {
    instructions: String,
}

impl View for DirsReady {
    type V = Seq<char>;

    closed spec fn view(&self) -> Seq<char> {
        self.instructions@
    }
}

impl DirsPlannedView {
    /// The next stage: all steps must have been taken. What is left of the plan is what to tell the
    /// user.
    pub open spec fn after_set_up(self, outcome: Result<(), SetUpFailure>) -> Result<
        Seq<char>,
        DiffEditErrorView,
    > {
        match outcome {
            Ok(()) => Ok(self.instructions),
            Err(SetUpFailure::Io(e)) => Err(
                DiffEditErrorView::ExternalToolError(ExternalToolErrorView::SetUpDirError(e)),
            ),
            Err(SetUpFailure::CheckOut(e)) => Err(DiffEditErrorView::CheckoutError(e)),
        }
    }
}

impl DirsPlanned {
    /// The steps to take, one after the other, until one of them fails.
    pub fn steps(&self) -> (steps: &Vec<SetUpStep>)
        ensures
            steps.deep_view() == self@.steps,
    {
        &self.steps
    }

    /// Goes on when the steps have been taken, or one of them has failed.
    pub fn on_set_up(self, outcome: Result<(), SetUpFailure>) -> (ready: Result<
        DirsReady,
        DiffEditError,
    >)
        ensures
            viewed(ready) == self@.after_set_up(outcome),
    {
        match outcome {
            Ok(()) => Ok(DirsReady { instructions: self.instructions }),
            Err(SetUpFailure::Io(e)) => Err(
                DiffEditError::ExternalToolError(ExternalToolError::SetUpDirError(e)),
            ),
            Err(SetUpFailure::CheckOut(e)) => Err(DiffEditError::CheckoutError(e)),
        }
    }
}

/// The place of the instructions: a file in the directory on the right side. It is given as the name
/// of the directory and the name of the file in it.
pub open spec fn instructions_place() -> (Seq<char>, Seq<char>) {
    (Side::Right.spec_wc_dir(), INSTRUCTIONS_FILE@)
}

/// Where the instructions are: the directory, and the file in it.
fn place_of_instructions() -> (place: (&'static str, &'static str))
    ensures
        (place.0@, place.1@) == instructions_place(),
{
    (Side::Right.wc_dir(), INSTRUCTIONS_FILE)
}

/// It is known whether there will be instructions. Next, they are written, if so.
pub struct InstructionsPlanned {
    instructions: Option<String>,
}

/// The instructions to write, if there are any.
pub open spec fn option_view(instructions: Option<String>) -> Option<Seq<char>> {
    match instructions {
        Some(text) => Some(text@),
        None => None,
    }
}

impl View for InstructionsPlanned {
    type V = Option<Seq<char>>;

    closed spec fn view(&self) -> Option<Seq<char>> {
        option_view(self.instructions)
    }
}

/// The next stage: what is written to the file with the instructions, given whether there is a file
/// of that name already.
pub open spec fn instructions_to_write(instructions: Seq<char>, is_taken: bool) -> Option<
    Seq<char>,
> {
    if instructions.len() > 0 && !is_taken {
        Some(instructions)
    } else {
        None
    }
}

impl DirsReady {
    /// Whether there is anything to tell the user. If not, no file needs to be looked for.
    pub fn has_instructions(&self) -> (has: bool)
        ensures
            has == (self@.len() > 0),
    {
        !self.instructions.as_str().is_empty()
    }

    /// Where to look: the directory, and the file in it.
    pub fn instructions_place(&self) -> (place: (&'static str, &'static str))
        ensures
            (place.0@, place.1@) == instructions_place(),
    {
        place_of_instructions()
    }

    /// Goes on when it is known whether the right side has a file of that name. In this unlikely
    /// event, the user simply does not get any instructions.
    pub fn on_lookup(self, is_taken: bool) -> (planned: InstructionsPlanned)
        ensures
            planned@ == instructions_to_write(self@, is_taken),
    {
        if !self.instructions.as_str().is_empty() && !is_taken {
            InstructionsPlanned { instructions: Some(self.instructions) }
        } else {
            InstructionsPlanned { instructions: None }
        }
    }
}

/// All files are in place. Next, an editor is chosen.
pub struct SidesReady {
    instructions_added: bool,
}

impl View for SidesReady {
    type V = bool;

    closed spec fn view(&self) -> bool {
        self.instructions_added
    }
}

/// The next stage: the instructions must have been written, if there are any. It says whether there
/// are.
pub open spec fn after_writing(
    instructions: Option<Seq<char>>,
    outcome: Result<(), IoError>,
) -> Result<bool, DiffEditErrorView> {
    match outcome {
        Err(e) if instructions is Some => Err(
            DiffEditErrorView::ExternalToolError(ExternalToolErrorView::SetUpDirError(e)),
        ),
        _ => Ok(instructions is Some),
    }
}

impl InstructionsPlanned {
    /// The instructions to write.
    pub fn instructions(&self) -> (instructions: &Option<String>)
        ensures
            option_view(*instructions) == self@,
    {
        &self.instructions
    }

    /// Where to write them: the directory, and the file in it.
    pub fn instructions_place(&self) -> (place: (&'static str, &'static str))
        ensures
            (place.0@, place.1@) == instructions_place(),
    {
        place_of_instructions()
    }

    /// Goes on when the instructions have been written. Where there are none, it makes no
    /// difference what came of that.
    pub fn on_written(self, outcome: Result<(), IoError>) -> (ready: Result<
        SidesReady,
        DiffEditError,
    >)
        ensures
            viewed(ready) == after_writing(self@, outcome),
    {
        match self.instructions {
            Some(_) => match outcome {
                Ok(()) => Ok(SidesReady { instructions_added: true }),
                Err(e) => Err(
                    DiffEditError::ExternalToolError(ExternalToolError::SetUpDirError(e)),
                ),
            },
            None => Ok(SidesReady { instructions_added: false }),
        }
    }
}

/// An editor was chosen. Next, it is told where the two sides are.
pub struct EditorChosen {
    instructions_added: bool,
    program: String,
    edit_args: Vec<String>,
}

/// What an [`EditorChosen`] holds.
pub struct EditorChosenView {
    pub instructions_added: bool,
    pub program: Seq<char>,
    pub edit_args: Seq<Seq<char>>,
}

impl View for EditorChosen {
    type V = EditorChosenView;

    closed spec fn view(&self) -> EditorChosenView {
        EditorChosenView {
            instructions_added: self.instructions_added,
            program: self.program@,
            edit_args: self.edit_args.deep_view(),
        }
    }
}

/// The next stage: the settings must name an editor.
pub open spec fn after_choice(instructions_added: bool, settings: UserSettings) -> Result<
    EditorChosenView,
    DiffEditErrorView,
> {
    match diff_editor(settings) {
        Ok(tool) => Ok(
            EditorChosenView {
                instructions_added,
                program: tool.program,
                edit_args: tool.edit_args,
            },
        ),
        Err(e) => Err(DiffEditErrorView::ExternalToolError(e)),
    }
}

impl SidesReady {
    /// Chooses the editor by the settings.
    pub fn choose_editor(self, ui: &mut Ui, settings: &UserSettings) -> (chosen: Result<
        EditorChosen,
        DiffEditError,
    >)
        ensures
            final(ui)@ == old(ui)@ + editor_hints(*settings, DIFF_EDITOR_KEY@),
            viewed(chosen) == after_choice(self@, *settings),
    {
        match get_diff_editor_from_settings(ui, settings) {
            Ok(tool) => Ok(
                EditorChosen {
                    instructions_added: self.instructions_added,
                    program: tool.program,
                    edit_args: tool.edit_args,
                },
            ),
            Err(e) => Err(DiffEditError::ExternalToolError(e)),
        }
    }
}

/// The variables that the arguments of the editor can refer to.
pub open spec fn dir_variables(left: Seq<char>, right: Seq<char>) -> Map<Seq<char>, Seq<char>> {
    Map::<Seq<char>, Seq<char>>::empty().insert("left"@, left).insert("right"@, right)
}

/// The editor can be started. Next, that is done.
pub struct EditorReady {
    instructions_added: bool,
    program: String,
    args: Vec<String>,
}

/// What an [`EditorReady`] holds.
pub struct EditorReadyView {
    pub instructions_added: bool,
    pub program: Seq<char>,
    pub args: Seq<Seq<char>>,
}

impl View for EditorReady {
    type V = EditorReadyView;

    closed spec fn view(&self) -> EditorReadyView {
        EditorReadyView {
            instructions_added: self.instructions_added,
            program: self.program@,
            args: self.args.deep_view(),
        }
    }
}

impl EditorChosenView {
    /// The next stage, given where the two sides are.
    pub open spec fn after_paths(self, left: Seq<char>, right: Seq<char>) -> EditorReadyView {
        EditorReadyView {
            instructions_added: self.instructions_added,
            program: self.program,
            args: interpolated_args(self.edit_args, dir_variables(left, right)),
        }
    }
}

impl EditorChosen {
    /// Goes on with where the two sides are.
    pub fn on_paths(self, left: &str, right: &str) -> (ready: EditorReady)
        ensures
            ready@ == self@.after_paths(left@, right@),
    {
        let mut variables: Variables = Variables::new();
        variables.insert("left", left);
        variables.insert("right", right);
        let args = interpolate_variables(self.edit_args.as_slice(), &variables);
        EditorReady { instructions_added: self.instructions_added, program: self.program, args }
    }
}

/// The editor has done its work. Next, the instructions are removed if they were added, and what
/// is in the directory on the right side is recorded as a tree.
pub struct EditorFinished {
    instructions_added: bool,
}

impl View for EditorFinished {
    type V = bool;

    closed spec fn view(&self) -> bool {
        self.instructions_added
    }
}

impl EditorReadyView {
    /// The next stage: the editor must have ended well. It says whether there are instructions.
    pub open spec fn after_exit(self, outcome: Result<ExitStatus, IoError>) -> Result<
        bool,
        DiffEditErrorView,
    > {
        match exit_error(self.program, outcome) {
            None => Ok(self.instructions_added),
            Some(e) => Err(DiffEditErrorView::ExternalToolError(e)),
        }
    }
}

impl EditorReady {
    /// The program to start.
    pub fn program(&self) -> (program: &String)
        ensures
            program@ == self@.program,
    {
        &self.program
    }

    /// The arguments to start it with.
    pub fn args(&self) -> (args: &Vec<String>)
        ensures
            args.deep_view() == self@.args,
    {
        &self.args
    }

    /// Goes on with how the editor ended.
    pub fn on_exit(self, outcome: Result<ExitStatus, IoError>) -> (finished: Result<
        EditorFinished,
        DiffEditError,
    >)
        ensures
            viewed(finished) == self@.after_exit(outcome),
    {
        match check_exit(self.program, outcome) {
            Ok(()) => Ok(EditorFinished { instructions_added: self.instructions_added }),
            Err(e) => Err(DiffEditError::ExternalToolError(e)),
        }
    }
}

/// The end: what is in the directory must have been recorded.
pub open spec fn after_snapshot(tree: Result<TreeId, SnapshotError>) -> Result<
    Seq<u8>,
    DiffEditErrorView,
> {
    match tree {
        Ok(id) => Ok(id@),
        Err(e) => Err(DiffEditErrorView::SnapshotError(e)),
    }
}

impl EditorFinished {
    /// Whether the instructions are to be removed: those that were added are, and a file that was
    /// there before is not.
    pub fn removes_instructions(&self) -> (removes: bool)
        ensures
            removes == self@,
    {
        self.instructions_added
    }

    /// What to remove: the directory, and the file in it.
    pub fn instructions_place(&self) -> (place: (&'static str, &'static str))
        ensures
            (place.0@, place.1@) == instructions_place(),
    {
        place_of_instructions()
    }

    /// Ends the work with the tree that was recorded.
    pub fn on_snapshot(self, tree: Result<TreeId, SnapshotError>) -> (edited: Result<
        TreeId,
        DiffEditError,
    >)
        ensures
            viewed(edited) == after_snapshot(tree),
    {
        match tree {
            Ok(id) => Ok(id),
            Err(e) => Err(DiffEditError::SnapshotError(e)),
        }
    }
}

/// All that is found out on the way from two trees to the edited one.
pub struct EditRun {
    pub changed_files: Seq<Seq<Seq<char>>>,
    pub instructions: Seq<char>,
    pub set_up: Result<(), SetUpFailure>,
    pub is_taken: bool,
    pub written: Result<(), IoError>,
    pub settings: UserSettings,
    pub left: Seq<char>,
    pub right: Seq<char>,
    pub exit: Result<ExitStatus, IoError>,
    pub tree: Result<TreeId, SnapshotError>,
}

impl EditRun {
    /// The plan to start from.
    pub open spec fn planned(self) -> DirsPlannedView {
        DirsPlannedView {
            instructions: self.instructions,
            steps: set_up_steps(self.changed_files),
        }
    }

    /// Whether instructions are there for the user to read.
    pub open spec fn adds_instructions(self) -> bool {
        instructions_to_write(self.instructions, self.is_taken) is Some
    }

    /// The editor, where the work comes so far that it can be started.
    pub open spec fn ready(self) -> Result<EditorReadyView, DiffEditErrorView> {
        match self.planned().after_set_up(self.set_up) {
            Err(e) => Err(e),
            Ok(instructions) => match after_writing(
                instructions_to_write(instructions, self.is_taken),
                self.written,
            ) {
                Err(e) => Err(e),
                Ok(added) => match after_choice(added, self.settings) {
                    Err(e) => Err(e),
                    Ok(chosen) => Ok(chosen.after_paths(self.left, self.right)),
                },
            },
        }
    }

    /// Whether the instructions are to be removed, where the editor has ended well.
    pub open spec fn finished(self) -> Result<bool, DiffEditErrorView> {
        match self.ready() {
            Err(e) => Err(e),
            Ok(ready) => ready.after_exit(self.exit),
        }
    }

    /// What comes of all the stages.
    pub open spec fn result(self) -> Result<Seq<u8>, DiffEditErrorView> {
        match self.finished() {
            Err(e) => Err(e),
            Ok(removes_instructions) => after_snapshot(self.tree),
        }
    }
}

/// The instructions that were added are removed again, and a file that was there before is left
/// alone.
pub proof fn law_added_instructions_are_removed(run: EditRun)
    ensures
        run.finished() matches Ok(removes) ==> removes == run.adds_instructions(),
        run.is_taken ==> !run.adds_instructions(),
        run.instructions.len() == 0 ==> !run.adds_instructions(),
{
}

/// There is an edited tree only when the directories were set up and the editor has ended well, and
/// it is the one that was recorded.
pub proof fn law_only_a_finished_editor_edits(run: EditRun)
    ensures
        run.result() matches Ok(tree) ==> {
            &&& run.set_up is Ok
            &&& run.adds_instructions() ==> run.written is Ok
            &&& diff_editor(run.settings) is Ok
            &&& run.exit matches Ok(status) && status.is_success()
            &&& run.tree matches Ok(id) && tree == id@
        },
{
}

/// `$left` and `$right` become the two directories. So an editor without arguments of its own is
/// started on the left side and the right side.
pub proof fn law_default_args_become_dirs(left: Seq<char>, right: Seq<char>)
    ensures
        interpolated_args(default_tool().edit_args, dir_variables(left, right)) == seq![left, right],
{
    reveal_strlit("left");
    reveal_strlit("right");
    reveal_strlit("$left");
    reveal_strlit("$right");
    assert("$left"@ =~= seq!['$'] + "left"@);
    assert("$right"@ =~= seq!['$'] + "right"@);
    assert("left"@.len() != "right"@.len());
    law_whole_references_become_values("left"@, dir_variables(left, right));
    law_whole_references_become_values("right"@, dir_variables(left, right));
    assert(interpolated_args(default_tool().edit_args, dir_variables(left, right)) =~= seq![
        left,
        right,
    ]);
}

/// Only the changed files are checked out, and each tree only when its directories have been made.
pub proof fn law_checkouts_have_their_dirs(changed_files: Seq<Seq<Seq<char>>>, i: int)
    requires
        0 <= i < set_up_steps(changed_files).len(),
    ensures
        set_up_steps(changed_files)[i] matches SetUpStepView::CheckOut {
            side,
            wc_dir,
            state_dir,
            sparse_patterns,
        } ==> {
            &&& wc_dir == side.spec_wc_dir() && state_dir == side.spec_state_dir()
            &&& sparse_patterns == changed_files
            &&& i >= 2
            &&& set_up_steps(changed_files)[i - 2] == (SetUpStepView::CreateDir { name: wc_dir })
            &&& set_up_steps(changed_files)[i - 1] == (SetUpStepView::CreateDir { name: state_dir })
        },
{
}

/// The left side, and nothing else, is made read-only, and that when it has been checked out.
pub proof fn law_left_side_is_read_only(changed_files: Seq<Seq<Seq<char>>>, i: int)
    requires
        0 <= i < set_up_steps(changed_files).len(),
    ensures
        set_up_steps(changed_files)[i] is MakeReadOnly <==> i == 4,
        set_up_steps(changed_files)[4] == (SetUpStepView::MakeReadOnly {
            name: Side::Left.spec_wc_dir(),
        }),
        set_up_steps(changed_files)[3] matches SetUpStepView::CheckOut { side: Side::Left, .. },
        set_up_steps(changed_files)[7] matches SetUpStepView::CheckOut { side: Side::Right, .. },
        Side::Left.spec_wc_dir() != Side::Right.spec_wc_dir(),
{
    reveal_strlit("left");
    reveal_strlit("right");
    assert(Side::Left.spec_wc_dir().len() != Side::Right.spec_wc_dir().len());
}

/// The steps are the same whatever files have changed, and also where none has: both trees are checked
/// out, each into new directories, and the left one is made read-only before the right one comes.
pub proof fn law_both_trees_are_always_checked_out(changed_files: Seq<Seq<Seq<char>>>)
    ensures
        ({
            let steps = set_up_steps(changed_files);
            &&& steps.len() == 8
            &&& steps[0] == (SetUpStepView::CreateTempDir { prefix: "jj-diff-edit-"@ })
            &&& steps[1] == (SetUpStepView::CreateDir { name: "left"@ })
            &&& steps[2] == (SetUpStepView::CreateDir { name: "left_state"@ })
            &&& steps[3] == (SetUpStepView::CheckOut {
                side: Side::Left,
                wc_dir: "left"@,
                state_dir: "left_state"@,
                sparse_patterns: changed_files,
            })
            &&& steps[4] == (SetUpStepView::MakeReadOnly { name: "left"@ })
            &&& steps[5] == (SetUpStepView::CreateDir { name: "right"@ })
            &&& steps[6] == (SetUpStepView::CreateDir { name: "right_state"@ })
            &&& steps[7] == (SetUpStepView::CheckOut {
                side: Side::Right,
                wc_dir: "right"@,
                state_dir: "right_state"@,
                sparse_patterns: changed_files,
            })
        }),
{
}

/// The views of steps, and of the paths in them, keep all of them.
pub proof fn law_step_views_are_complete(step: SetUpStep, paths: Seq<RepoPath>)
    ensures
        path_views(paths).len() == paths.len(),
        forall|i: int| 0 <= i < paths.len() ==> #[trigger] path_views(paths)[i] == paths[i]@,
        step.deep_view() == step@,
        match step {
            SetUpStep::CreateTempDir { prefix } => step@ == (SetUpStepView::CreateTempDir {
                prefix: prefix@,
            }),
            SetUpStep::CreateDir { name } => step@ == (SetUpStepView::CreateDir { name: name@ }),
            SetUpStep::CheckOut { side, wc_dir, state_dir, sparse_patterns } => step@ == (
            SetUpStepView::CheckOut {
                side,
                wc_dir: wc_dir@,
                state_dir: state_dir@,
                sparse_patterns: path_views(sparse_patterns@),
            }),
            SetUpStep::MakeReadOnly { name } => step@ == (SetUpStepView::MakeReadOnly {
                name: name@,
            }),
        },
{
}

/// The work goes on, with the instructions as they were given, where no step has failed. A tree that
/// could not be checked out is told apart from directories that could not be set up.
pub proof fn law_failed_steps_are_reported(
    planned: DirsPlannedView,
    outcome: Result<(), SetUpFailure>,
)
    ensures
        match outcome {
            Ok(()) => planned.after_set_up(outcome) == Ok::<Seq<char>, DiffEditErrorView>(
                planned.instructions,
            ),
            Err(SetUpFailure::Io(e)) => planned.after_set_up(outcome) == Err::<
                Seq<char>,
                DiffEditErrorView,
            >(DiffEditErrorView::ExternalToolError(ExternalToolErrorView::SetUpDirError(e))),
            Err(SetUpFailure::CheckOut(e)) => planned.after_set_up(outcome) == Err::<
                Seq<char>,
                DiffEditErrorView,
            >(DiffEditErrorView::CheckoutError(e)),
        },
{
}

/// Instructions are written as they were given where there are any and no file is in their place, and
/// nothing is written in any other case. Where something is written, that must succeed.
pub proof fn law_instructions_are_written_as_given(
    instructions: Seq<char>,
    is_taken: bool,
    outcome: Result<(), IoError>,
)
    ensures
        ({
            let text = instructions_to_write(instructions, is_taken);
            let ready = after_writing(text, outcome);
            if instructions.len() > 0 && !is_taken {
                &&& text == Some(instructions)
                &&& match outcome {
                    Ok(()) => ready == Ok::<bool, DiffEditErrorView>(true),
                    Err(e) => ready == Err::<bool, DiffEditErrorView>(
                        DiffEditErrorView::ExternalToolError(
                            ExternalToolErrorView::SetUpDirError(e),
                        ),
                    ),
                }
            } else {
                &&& text is None
                &&& ready == Ok::<bool, DiffEditErrorView>(false)
            }
        }),
        forall|text: String| #[trigger] option_view(Some(text)) == Some(text@),
        option_view(None) == None::<Seq<char>>,
{
}

/// There are two variables, one for each side, each with the directory of that side.
pub proof fn law_each_variable_is_a_directory(
    left: Seq<char>,
    right: Seq<char>,
    name: Seq<char>,
)
    ensures
        dir_variables(left, right).contains_key(name) <==> name == "left"@ || name == "right"@,
        dir_variables(left, right)["left"@] == left,
        dir_variables(left, right)["right"@] == right,
{
    reveal_strlit("left");
    reveal_strlit("right");
    assert("left"@.len() != "right"@.len());
}

/// The editor is the one that the settings choose for diffs. Its program is started with its
/// arguments for diffs, as many as there are and in their order, each with the directories in place
/// of the references. Whether there are instructions stays as it was.
pub proof fn law_editors_are_started_with_their_edit_args(
    instructions_added: bool,
    settings: UserSettings,
    left: Seq<char>,
    right: Seq<char>,
)
    ensures
        match diff_editor(settings) {
            Ok(tool) => {
                &&& after_choice(instructions_added, settings) matches Ok(chosen)
                &&& chosen.program == tool.program
                &&& chosen.edit_args == tool.edit_args
                &&& chosen.instructions_added == instructions_added
                &&& chosen.after_paths(left, right).program == tool.program
                &&& chosen.after_paths(left, right).args.len() == tool.edit_args.len()
                &&& forall|i: int|
                    0 <= i < tool.edit_args.len() ==> #[trigger] chosen.after_paths(
                        left,
                        right,
                    ).args[i] == interpolated(tool.edit_args[i], dir_variables(left, right))
                &&& chosen.after_paths(left, right).instructions_added == instructions_added
            },
            Err(e) => after_choice(instructions_added, settings) == Err::<
                EditorChosenView,
                DiffEditErrorView,
            >(DiffEditErrorView::ExternalToolError(e)),
        },
{
    if let Ok(tool) = diff_editor(settings) {
        law_arguments_are_replaced_one_by_one(tool.edit_args, dir_variables(left, right));
    }
}

/// A run that comes so far starts the program of the chosen editor with its arguments for diffs.
pub proof fn law_runs_start_the_chosen_editor(run: EditRun)
    ensures
        run.ready() is Ok <==> {
            &&& run.set_up is Ok
            &&& run.instructions.len() > 0 && !run.is_taken ==> run.written is Ok
            &&& diff_editor(run.settings) is Ok
        },
        run.ready() matches Ok(ready) ==> {
            let tool = diff_editor(run.settings)->Ok_0;
            &&& ready.program == tool.program
            &&& ready.args.len() == tool.edit_args.len()
            &&& forall|i: int|
                0 <= i < ready.args.len() ==> #[trigger] ready.args[i] == interpolated(
                    tool.edit_args[i],
                    dir_variables(run.left, run.right),
                )
        },
{
    law_editors_are_started_with_their_edit_args(
        run.adds_instructions(),
        run.settings,
        run.left,
        run.right,
    );
}

/// The arguments for merges, and what the tool does with conflict markers, make no difference to an
/// edit: two runs that differ in nothing else come to the same.
pub proof fn law_merge_args_make_no_difference_to_edits(run: EditRun, settings: UserSettings)
    requires
        diff_editor(run.settings) is Ok && diff_editor(settings) is Ok,
        diff_editor(run.settings)->Ok_0.program == diff_editor(settings)->Ok_0.program,
        diff_editor(run.settings)->Ok_0.edit_args == diff_editor(settings)->Ok_0.edit_args,
    ensures
        (EditRun { settings, ..run }).ready() == run.ready(),
        (EditRun { settings, ..run }).result() == run.result(),
{
}

/// The tree is recorded when the editor was started and its exit code is 0, and then only.
pub proof fn law_only_exit_code_zero_leads_to_a_tree(
    ready: EditorReadyView,
    outcome: Result<ExitStatus, IoError>,
)
    ensures
        match outcome {
            Ok(status) => if status.code == Some(0i32) {
                ready.after_exit(outcome) == Ok::<bool, DiffEditErrorView>(ready.instructions_added)
            } else {
                ready.after_exit(outcome) == Err::<bool, DiffEditErrorView>(
                    DiffEditErrorView::ExternalToolError(
                        ExternalToolErrorView::ToolAborted { exit_status: status },
                    ),
                )
            },
            Err(e) => ready.after_exit(outcome) == Err::<bool, DiffEditErrorView>(
                DiffEditErrorView::ExternalToolError(
                    ExternalToolErrorView::FailedToExecute {
                        tool_binary: ready.program,
                        source: e,
                    },
                ),
            ),
        },
{
    law_only_exit_code_zero_is_good(ready.program, outcome);
}

/// The recorded tree is the edited one, and a failure to record it is the error.
pub proof fn law_recorded_trees_are_returned(tree: Result<TreeId, SnapshotError>)
    ensures
        match tree {
            Ok(id) => after_snapshot(tree) == Ok::<Seq<u8>, DiffEditErrorView>(id.0@),
            Err(e) => after_snapshot(tree) == Err::<Seq<u8>, DiffEditErrorView>(
                DiffEditErrorView::SnapshotError(e),
            ),
        },
{
}

/// Instructions are looked for, written and removed in one place: a file of their own on the right
/// side.
pub proof fn law_instructions_are_on_the_right_side()
    ensures
        instructions_place() == ("right"@, "JJ-INSTRUCTIONS"@),
        Side::Right.spec_wc_dir() == "right"@,
        Side::Left.spec_wc_dir() == "left"@,
{
}

} // verus!
