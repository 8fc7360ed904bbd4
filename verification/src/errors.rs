//! What can go wrong, and how it is reported.

use crate::repo::RepoPath;
use crate::text::{
    debug_text, decimal, decimal_text, join, quote, signed_decimal, signed_decimal_text,
};
use vstd::prelude::*;

verus! {

/// An error of the configuration.
#[derive(Debug)]
pub enum ConfigError {
    /// There is no such setting.
    NotFound(String),
    /// Any other error, in words.
    Message(String),
}

/// What a [`ConfigError`] says.
pub enum ConfigErrorView {
    NotFound(Seq<char>),
    Message(Seq<char>),
}

impl View for ConfigError {
    type V = ConfigErrorView;

    open spec fn view(&self) -> ConfigErrorView {
        match *self {
            ConfigError::NotFound(key) => ConfigErrorView::NotFound(key@),
            ConfigError::Message(text) => ConfigErrorView::Message(text@),
        }
    }
}

impl Clone for ConfigError {
    fn clone(&self) -> (copy: ConfigError)
        ensures
            copy == *self,
    {
        match self {
            ConfigError::NotFound(key) => ConfigError::NotFound(key.clone()),
            ConfigError::Message(text) => ConfigError::Message(text.clone()),
        }
    }
}

impl ConfigErrorView {
    /// The setting that was not found.
    pub open spec fn key(self) -> Seq<char> {
        match self {
            ConfigErrorView::NotFound(key) => key,
            ConfigErrorView::Message(text) => seq![],
        }
    }

    /// The error in words, given how its key is quoted.
    pub open spec fn message(self, quoted_key: Seq<char>) -> Seq<char> {
        match self {
            ConfigErrorView::NotFound(key) => "configuration property "@ + quoted_key
                + " not found"@,
            ConfigErrorView::Message(text) => text,
        }
    }
}

impl ConfigError {
    /// The error in words, given how its key is quoted.
    pub fn message_with(&self, quoted_key: &str) -> (message: String)
        ensures
            message@ == self@.message(quoted_key@),
    {
        match self {
            ConfigError::NotFound(key) => {
                "configuration property ".to_owned().concat(quoted_key).concat(" not found")
            },
            ConfigError::Message(text) => text.clone(),
        }
    }

    /// The error in words.
    pub fn message(&self) -> (message: String)
        ensures
            message@ == self@.message(debug_text(self@.key())),
    {
        match self {
            ConfigError::NotFound(key) => {
                let quoted = quote(key.as_str());
                self.message_with(quoted.as_str())
            },
            ConfigError::Message(text) => self.message_with(""),
        }
    }
}

/// A failed input or output operation, as it is described to users and to developers.
#[derive(Debug)]
pub struct IoError {
    pub display: String,
    pub debug: String,
}

/// How a process ended. There is no exit code where it was ended by a signal.
#[derive(Clone, Copy, Debug)]
pub struct ExitStatus {
    pub code: Option<i32>,
}

impl ExitStatus {
    /// Whether the process ended by itself, with a zero exit code.
    pub open spec fn is_success(self) -> bool {
        self.code == Some(0i32)
    }

    /// Whether the process ended by itself, with a zero exit code.
    pub fn success(&self) -> (success: bool)
        ensures
            success == self.is_success(),
    {
        match self.code {
            Some(code) => code == 0,
            None => false,
        }
    }
}

/// An error in finding, starting or running a tool.
#[derive(Debug)]
pub enum ExternalToolError {
    ConfigError(ConfigError),
    MergeArgsNotConfigured { tool_name: String },
    SetUpDirError(IoError),
    FailedToExecute { tool_binary: String, source: IoError },
    ToolAborted { exit_status: ExitStatus },
    IoError(IoError),
}

/// What an [`ExternalToolError`] says.
pub enum ExternalToolErrorView {
    ConfigError(ConfigErrorView),
    MergeArgsNotConfigured { tool_name: Seq<char> },
    SetUpDirError(IoError),
    FailedToExecute { tool_binary: Seq<char>, source: IoError },
    ToolAborted { exit_status: ExitStatus },
    IoError(IoError),
}

impl View for ExternalToolError {
    type V = ExternalToolErrorView;

    open spec fn view(&self) -> ExternalToolErrorView {
        match *self {
            ExternalToolError::ConfigError(e) => ExternalToolErrorView::ConfigError(e@),
            ExternalToolError::MergeArgsNotConfigured { tool_name } => {
                ExternalToolErrorView::MergeArgsNotConfigured { tool_name: tool_name@ }
            },
            ExternalToolError::SetUpDirError(e) => ExternalToolErrorView::SetUpDirError(e),
            ExternalToolError::FailedToExecute { tool_binary, source } => {
                ExternalToolErrorView::FailedToExecute { tool_binary: tool_binary@, source }
            },
            ExternalToolError::ToolAborted { exit_status } => {
                ExternalToolErrorView::ToolAborted { exit_status }
            },
            ExternalToolError::IoError(e) => ExternalToolErrorView::IoError(e),
        }
    }
}

impl ExternalToolErrorView {
    /// The setting that was not found.
    pub open spec fn key(self) -> Seq<char> {
        match self {
            ExternalToolErrorView::ConfigError(e) => e.key(),
            _ => seq![],
        }
    }

    /// The error in words, given how its key is quoted.
    pub open spec fn message(self, quoted_key: Seq<char>) -> Seq<char> {
        match self {
            ExternalToolErrorView::ConfigError(e) => "Invalid config: "@ + e.message(quoted_key),
            ExternalToolErrorView::MergeArgsNotConfigured { tool_name } => "To use `"@ + tool_name
                + "` as a merge tool, the config `merge-tools."@ + tool_name
                + ".merge-args` must be defined (see docs for details)"@,
            ExternalToolErrorView::SetUpDirError(e) => "Error setting up temporary directory: "@
                + e.debug@,
            ExternalToolErrorView::FailedToExecute { tool_binary, source } => "Error executing '"@
                + tool_binary + "' (run with --verbose to see the exact invocation). "@
                + source.display@,
            ExternalToolErrorView::ToolAborted { exit_status } => {
                "Tool exited with a non-zero code (run with --verbose to see the exact invocation). Exit code: "@
                    + match exit_status.code {
                    Some(code) => signed_decimal(code as int),
                    None => "<unknown>"@,
                } + "."@
            },
            ExternalToolErrorView::IoError(e) => "I/O error: "@ + e.debug@,
        }
    }
}

impl ExternalToolError {
    /// The error in words, given how its key is quoted.
    pub fn message_with(&self, quoted_key: &str) -> (message: String)
        ensures
            message@ == self@.message(quoted_key@),
    {
        match self {
            ExternalToolError::ConfigError(e) => {
                "Invalid config: ".to_owned().concat(e.message_with(quoted_key).as_str())
            },
            ExternalToolError::MergeArgsNotConfigured { tool_name } => {
                "To use `".to_owned().concat(tool_name.as_str()).concat(
                    "` as a merge tool, the config `merge-tools.",
                ).concat(tool_name.as_str()).concat(
                    ".merge-args` must be defined (see docs for details)",
                )
            },
            ExternalToolError::SetUpDirError(e) => {
                "Error setting up temporary directory: ".to_owned().concat(e.debug.as_str())
            },
            ExternalToolError::FailedToExecute { tool_binary, source } => {
                "Error executing '".to_owned().concat(tool_binary.as_str()).concat(
                    "' (run with --verbose to see the exact invocation). ",
                ).concat(source.display.as_str())
            },
            ExternalToolError::ToolAborted { exit_status } => {
                let code = match exit_status.code {
                    Some(code) => signed_decimal_text(code),
                    None => "<unknown>".to_owned(),
                };
                "Tool exited with a non-zero code (run with --verbose to see the exact invocation). Exit code: ".to_owned().concat(
                code.as_str()).concat(".")
            },
            ExternalToolError::IoError(e) => "I/O error: ".to_owned().concat(e.debug.as_str()),
        }
    }

    /// The error in words.
    pub fn message(&self) -> (message: String)
        ensures
            message@ == self@.message(debug_text(self@.key())),
    {
        match self {
            ExternalToolError::ConfigError(ConfigError::NotFound(key)) => {
                let quoted = quote(key.as_str());
                self.message_with(quoted.as_str())
            },
            _ => self.message_with(""),
        }
    }
}

/// Checking out a tree failed, as developers are told.
#[derive(Debug)]
pub struct CheckoutError {
    pub debug: String,
}

/// Recording the state of a working copy failed, as developers are told.
#[derive(Debug)]
pub struct SnapshotError {
    pub debug: String,
}

/// A store failed, as developers are told.
#[derive(Debug)]
pub struct BackendError {
    pub debug: String,
}

/// An error in editing a diff.
#[derive(Debug)]
pub enum DiffEditError {
    ExternalToolError(ExternalToolError),
    CheckoutError(CheckoutError),
    SnapshotError(SnapshotError),
}

/// What a [`DiffEditError`] says.
pub enum DiffEditErrorView {
    ExternalToolError(ExternalToolErrorView),
    CheckoutError(CheckoutError),
    SnapshotError(SnapshotError),
}

impl View for DiffEditError {
    type V = DiffEditErrorView;

    open spec fn view(&self) -> DiffEditErrorView {
        match *self {
            DiffEditError::ExternalToolError(e) => DiffEditErrorView::ExternalToolError(e@),
            DiffEditError::CheckoutError(e) => DiffEditErrorView::CheckoutError(e),
            DiffEditError::SnapshotError(e) => DiffEditErrorView::SnapshotError(e),
        }
    }
}

impl DiffEditErrorView {
    /// The setting that was not found.
    pub open spec fn key(self) -> Seq<char> {
        match self {
            DiffEditErrorView::ExternalToolError(e) => e.key(),
            _ => seq![],
        }
    }

    /// The error in words, given how its key is quoted.
    pub open spec fn message(self, quoted_key: Seq<char>) -> Seq<char> {
        match self {
            DiffEditErrorView::ExternalToolError(e) => e.message(quoted_key),
            DiffEditErrorView::CheckoutError(e) => "Failed to write directories to diff: "@
                + e.debug@,
            DiffEditErrorView::SnapshotError(e) => "Failed to snapshot changes: "@ + e.debug@,
        }
    }
}

impl DiffEditError {
    /// The error in words.
    pub fn message(&self) -> (message: String)
        ensures
            message@ == self@.message(debug_text(self@.key())),
    {
        match self {
            DiffEditError::ExternalToolError(e) => e.message(),
            DiffEditError::CheckoutError(e) => {
                "Failed to write directories to diff: ".to_owned().concat(e.debug.as_str())
            },
            DiffEditError::SnapshotError(e) => {
                "Failed to snapshot changes: ".to_owned().concat(e.debug.as_str())
            },
        }
    }
}

/// An error in resolving a conflict.
#[derive(Debug)]
pub enum ConflictResolveError {
    ExternalToolError(ExternalToolError),
    PathNotFoundError(RepoPath),
    NotAConflictError(RepoPath),
    NotNormalFilesError(RepoPath, String),
    ConflictTooComplicatedError { path: RepoPath, removes: usize, adds: usize },
    EmptyOrUnchanged,
    BackendError(BackendError),
}

/// What a [`ConflictResolveError`] says.
pub enum ConflictResolveErrorView {
    ExternalToolError(ExternalToolErrorView),
    PathNotFoundError(Seq<Seq<char>>),
    NotAConflictError(Seq<Seq<char>>),
    NotNormalFilesError(Seq<Seq<char>>, Seq<char>),
    ConflictTooComplicatedError { path: Seq<Seq<char>>, removes: nat, adds: nat },
    EmptyOrUnchanged,
    BackendError(BackendError),
}

impl View for ConflictResolveError {
    type V = ConflictResolveErrorView;

    open spec fn view(&self) -> ConflictResolveErrorView {
        match *self {
            ConflictResolveError::ExternalToolError(e) => {
                ConflictResolveErrorView::ExternalToolError(e@)
            },
            ConflictResolveError::PathNotFoundError(path) => {
                ConflictResolveErrorView::PathNotFoundError(path@)
            },
            ConflictResolveError::NotAConflictError(path) => {
                ConflictResolveErrorView::NotAConflictError(path@)
            },
            ConflictResolveError::NotNormalFilesError(path, summary) => {
                ConflictResolveErrorView::NotNormalFilesError(path@, summary@)
            },
            ConflictResolveError::ConflictTooComplicatedError { path, removes, adds } => {
                ConflictResolveErrorView::ConflictTooComplicatedError {
                    path: path@,
                    removes: removes as nat,
                    adds: adds as nat,
                }
            },
            ConflictResolveError::EmptyOrUnchanged => ConflictResolveErrorView::EmptyOrUnchanged,
            ConflictResolveError::BackendError(e) => ConflictResolveErrorView::BackendError(e),
        }
    }
}

impl ConflictResolveErrorView {
    /// What the error quotes: the setting that was not found, or the path that it is about.
    pub open spec fn subject(self) -> Seq<char> {
        match self {
            ConflictResolveErrorView::ExternalToolError(e) => e.key(),
            ConflictResolveErrorView::PathNotFoundError(path) => join(path, '/'),
            ConflictResolveErrorView::NotAConflictError(path) => join(path, '/'),
            ConflictResolveErrorView::NotNormalFilesError(path, summary) => join(path, '/'),
            ConflictResolveErrorView::ConflictTooComplicatedError { path, removes, adds } => join(
                path,
                '/',
            ),
            ConflictResolveErrorView::EmptyOrUnchanged => seq![],
            ConflictResolveErrorView::BackendError(e) => seq![],
        }
    }

    /// The error in words, given how its subject is quoted.
    pub open spec fn message(self, quoted: Seq<char>) -> Seq<char> {
        match self {
            ConflictResolveErrorView::ExternalToolError(e) => e.message(quoted),
            ConflictResolveErrorView::PathNotFoundError(path) => "Couldn't find the path "@ + quoted
                + " in this revision"@,
            ConflictResolveErrorView::NotAConflictError(path) => "Couldn't find any conflicts at "@
                + quoted + " in this revision"@,
            ConflictResolveErrorView::NotNormalFilesError(path, summary) => {
                "Only conflicts that involve normal files (not symlinks, not executable, etc.) are supported. Conflict summary for "@
                    + quoted + ":\n"@ + summary
            },
            ConflictResolveErrorView::ConflictTooComplicatedError { path, removes, adds } => {
                "The conflict at "@ + quoted + " has "@ + decimal(removes) + " removes and "@
                    + decimal(adds)
                    + " adds.\nAt most 1 remove and 2 adds are supported."@
            },
            ConflictResolveErrorView::EmptyOrUnchanged => {
                "The output file is either unchanged or empty after the editor quit (run with --verbose to see the exact invocation)."@
            },
            ConflictResolveErrorView::BackendError(e) => "Backend error: "@ + e.debug@,
        }
    }
}

impl ConflictResolveError {
    /// The error in words, given how its subject is quoted.
    pub fn message_with(&self, quoted: &str) -> (message: String)
        ensures
            message@ == self@.message(quoted@),
    {
        match self {
            ConflictResolveError::ExternalToolError(e) => e.message_with(quoted),
            ConflictResolveError::PathNotFoundError(path) => {
                "Couldn't find the path ".to_owned().concat(quoted).concat(" in this revision")
            },
            ConflictResolveError::NotAConflictError(path) => {
                "Couldn't find any conflicts at ".to_owned().concat(quoted).concat(
                    " in this revision",
                )
            },
            ConflictResolveError::NotNormalFilesError(path, summary) => {
                "Only conflicts that involve normal files (not symlinks, not executable, etc.) are supported. Conflict summary for ".to_owned().concat(
                quoted).concat(":\n").concat(summary.as_str())
            },
            ConflictResolveError::ConflictTooComplicatedError { path, removes, adds } => {
                "The conflict at ".to_owned().concat(quoted).concat(" has ").concat(
                    decimal_text(*removes as u64).as_str(),
                ).concat(" removes and ").concat(decimal_text(*adds as u64).as_str()).concat(
                    " adds.\nAt most 1 remove and 2 adds are supported.",
                )
            },
            ConflictResolveError::EmptyOrUnchanged => {
                "The output file is either unchanged or empty after the editor quit (run with --verbose to see the exact invocation).".to_owned()
            },
            ConflictResolveError::BackendError(e) => {
                "Backend error: ".to_owned().concat(e.debug.as_str())
            },
        }
    }

    /// The error in words.
    pub fn message(&self) -> (message: String)
        ensures
            message@ == self@.message(debug_text(self@.subject())),
    {
        let subject: String = match self {
            ConflictResolveError::ExternalToolError(
                ExternalToolError::ConfigError(ConfigError::NotFound(key)),
            ) => key.clone(),
            ConflictResolveError::PathNotFoundError(path) => path.to_internal_file_string(),
            ConflictResolveError::NotAConflictError(path) => path.to_internal_file_string(),
            ConflictResolveError::NotNormalFilesError(path, summary) => {
                path.to_internal_file_string()
            },
            ConflictResolveError::ConflictTooComplicatedError { path, removes, adds } => {
                path.to_internal_file_string()
            },
            _ => String::new(),
        };
        let quoted = quote(subject.as_str());
        assert(subject@ =~= self@.subject());
        self.message_with(quoted.as_str())
    }
}

impl From<ConfigError> for ExternalToolError {
    fn from(e: ConfigError) -> (error: ExternalToolError) {
        ExternalToolError::ConfigError(e)
    }
}

impl vstd::std_specs::convert::FromSpecImpl<ConfigError> for ExternalToolError {
    open spec fn obeys_from_spec() -> bool {
        true
    }

    open spec fn from_spec(e: ConfigError) -> ExternalToolError {
        ExternalToolError::ConfigError(e)
    }
}

impl From<IoError> for ExternalToolError {
    fn from(e: IoError) -> (error: ExternalToolError) {
        ExternalToolError::IoError(e)
    }
}

impl vstd::std_specs::convert::FromSpecImpl<IoError> for ExternalToolError {
    open spec fn obeys_from_spec() -> bool {
        true
    }

    open spec fn from_spec(e: IoError) -> ExternalToolError {
        ExternalToolError::IoError(e)
    }
}

impl From<ExternalToolError> for DiffEditError {
    fn from(e: ExternalToolError) -> (error: DiffEditError) {
        DiffEditError::ExternalToolError(e)
    }
}

impl vstd::std_specs::convert::FromSpecImpl<ExternalToolError> for DiffEditError {
    open spec fn obeys_from_spec() -> bool {
        true
    }

    open spec fn from_spec(e: ExternalToolError) -> DiffEditError {
        DiffEditError::ExternalToolError(e)
    }
}

impl From<CheckoutError> for DiffEditError {
    fn from(e: CheckoutError) -> (error: DiffEditError) {
        DiffEditError::CheckoutError(e)
    }
}

impl vstd::std_specs::convert::FromSpecImpl<CheckoutError> for DiffEditError {
    open spec fn obeys_from_spec() -> bool {
        true
    }

    open spec fn from_spec(e: CheckoutError) -> DiffEditError {
        DiffEditError::CheckoutError(e)
    }
}

impl From<SnapshotError> for DiffEditError {
    fn from(e: SnapshotError) -> (error: DiffEditError) {
        DiffEditError::SnapshotError(e)
    }
}

impl vstd::std_specs::convert::FromSpecImpl<SnapshotError> for DiffEditError {
    open spec fn obeys_from_spec() -> bool {
        true
    }

    open spec fn from_spec(e: SnapshotError) -> DiffEditError {
        DiffEditError::SnapshotError(e)
    }
}

impl From<IoError> for DiffEditError {
    fn from(e: IoError) -> (error: DiffEditError) {
        DiffEditError::ExternalToolError(ExternalToolError::IoError(e))
    }
}

impl vstd::std_specs::convert::FromSpecImpl<IoError> for DiffEditError {
    open spec fn obeys_from_spec() -> bool {
        true
    }

    open spec fn from_spec(e: IoError) -> DiffEditError {
        DiffEditError::ExternalToolError(ExternalToolError::IoError(e))
    }
}

impl From<ExternalToolError> for ConflictResolveError {
    fn from(e: ExternalToolError) -> (error: ConflictResolveError) {
        ConflictResolveError::ExternalToolError(e)
    }
}

impl vstd::std_specs::convert::FromSpecImpl<ExternalToolError> for ConflictResolveError {
    open spec fn obeys_from_spec() -> bool {
        true
    }

    open spec fn from_spec(e: ExternalToolError) -> ConflictResolveError {
        ConflictResolveError::ExternalToolError(e)
    }
}

impl From<BackendError> for ConflictResolveError {
    fn from(e: BackendError) -> (error: ConflictResolveError) {
        ConflictResolveError::BackendError(e)
    }
}

impl vstd::std_specs::convert::FromSpecImpl<BackendError> for ConflictResolveError {
    open spec fn obeys_from_spec() -> bool {
        true
    }

    open spec fn from_spec(e: BackendError) -> ConflictResolveError {
        ConflictResolveError::BackendError(e)
    }
}

impl From<IoError> for ConflictResolveError {
    fn from(e: IoError) -> (error: ConflictResolveError) {
        ConflictResolveError::ExternalToolError(ExternalToolError::IoError(e))
    }
}

impl vstd::std_specs::convert::FromSpecImpl<IoError> for ConflictResolveError {
    open spec fn obeys_from_spec() -> bool {
        true
    }

    open spec fn from_spec(e: IoError) -> ConflictResolveError {
        ConflictResolveError::ExternalToolError(ExternalToolError::IoError(e))
    }
}

/// What an error quotes is the setting that was not found, by its whole key, or the path that it is
/// about, by all its components.
pub proof fn law_errors_quote_their_subject(
    key: Seq<char>,
    path: Seq<Seq<char>>,
    summary: Seq<char>,
    removes: nat,
    adds: nat,
)
    ensures
        ({
            let config = ConfigErrorView::NotFound(key);
            let tool = ExternalToolErrorView::ConfigError(config);
            &&& config.key() == key
            &&& tool.key() == key
            &&& DiffEditErrorView::ExternalToolError(tool).key() == key
            &&& ConflictResolveErrorView::ExternalToolError(tool).subject() == key
        }),
        ConflictResolveErrorView::PathNotFoundError(path).subject() == join(path, '/'),
        ConflictResolveErrorView::NotAConflictError(path).subject() == join(path, '/'),
        ConflictResolveErrorView::NotNormalFilesError(path, summary).subject() == join(path, '/'),
        (ConflictResolveErrorView::ConflictTooComplicatedError { path, removes, adds }).subject()
            == join(path, '/'),
{
}

/// The message of an error of the configuration names the key, or is the error's own text.
pub proof fn law_config_messages_say_what_is_wrong(e: ConfigErrorView, quoted: Seq<char>)
    ensures
        match e {
            ConfigErrorView::NotFound(_) => e.message(quoted) == "configuration property "@ + quoted
                + " not found"@,
            ConfigErrorView::Message(text) => e.message(quoted) == text,
        },
{
}

/// The message of an error of a tool holds all that is known of it: which tool it was, and what went
/// wrong with it.
pub proof fn law_tool_messages_say_what_is_wrong(e: ExternalToolErrorView, quoted: Seq<char>)
    ensures
        match e {
            ExternalToolErrorView::ConfigError(config) => e.message(quoted) == "Invalid config: "@
                + config.message(quoted),
            ExternalToolErrorView::MergeArgsNotConfigured { tool_name } => e.message(quoted)
                == "To use `"@ + tool_name + "` as a merge tool, the config `merge-tools."@
                + tool_name + ".merge-args` must be defined (see docs for details)"@,
            ExternalToolErrorView::SetUpDirError(io) => e.message(quoted)
                == "Error setting up temporary directory: "@ + io.debug@,
            ExternalToolErrorView::FailedToExecute { tool_binary, source } => e.message(quoted)
                == "Error executing '"@ + tool_binary
                + "' (run with --verbose to see the exact invocation). "@ + source.display@,
            ExternalToolErrorView::ToolAborted { exit_status } => match exit_status.code {
                Some(code) => e.message(quoted)
                    == "Tool exited with a non-zero code (run with --verbose to see the exact invocation). Exit code: "@
                    + signed_decimal(code as int) + "."@,
                None => e.message(quoted)
                    == "Tool exited with a non-zero code (run with --verbose to see the exact invocation). Exit code: "@
                    + "<unknown>"@ + "."@,
            },
            ExternalToolErrorView::IoError(io) => e.message(quoted) == "I/O error: "@ + io.debug@,
        },
{
}

/// The message of an error in editing a diff is that of the tool, or says which part of the work
/// failed and how.
pub proof fn law_diff_messages_say_what_is_wrong(e: DiffEditErrorView, quoted: Seq<char>)
    ensures
        match e {
            DiffEditErrorView::ExternalToolError(tool) => e.message(quoted) == tool.message(quoted),
            DiffEditErrorView::CheckoutError(failure) => e.message(quoted)
                == "Failed to write directories to diff: "@ + failure.debug@,
            DiffEditErrorView::SnapshotError(failure) => e.message(quoted)
                == "Failed to snapshot changes: "@ + failure.debug@,
        },
{
}

/// The message of an error in resolving a conflict is that of the tool, or says which path it is
/// about, what the conflict there is like, or how the store failed.
pub proof fn law_conflict_messages_say_what_is_wrong(e: ConflictResolveErrorView, quoted: Seq<char>)
    ensures
        match e {
            ConflictResolveErrorView::ExternalToolError(tool) => e.message(quoted) == tool.message(
                quoted,
            ),
            ConflictResolveErrorView::PathNotFoundError(_) => e.message(quoted)
                == "Couldn't find the path "@ + quoted + " in this revision"@,
            ConflictResolveErrorView::NotAConflictError(_) => e.message(quoted)
                == "Couldn't find any conflicts at "@ + quoted + " in this revision"@,
            ConflictResolveErrorView::NotNormalFilesError(_, summary) => e.message(quoted)
                == "Only conflicts that involve normal files (not symlinks, not executable, etc.) are supported. Conflict summary for "@
                + quoted + ":\n"@ + summary,
            ConflictResolveErrorView::ConflictTooComplicatedError { path, removes, adds } => {
                e.message(quoted) == "The conflict at "@ + quoted + " has "@ + decimal(removes)
                    + " removes and "@ + decimal(adds)
                    + " adds.\nAt most 1 remove and 2 adds are supported."@
            },
            ConflictResolveErrorView::EmptyOrUnchanged => e.message(quoted)
                == "The output file is either unchanged or empty after the editor quit (run with --verbose to see the exact invocation)."@,
            ConflictResolveErrorView::BackendError(failure) => e.message(quoted)
                == "Backend error: "@ + failure.debug@,
        },
{
}

/// The views of errors of the configuration and of tools keep what kind of error it is, and all that
/// is known of it.
pub proof fn law_tool_error_views_are_complete(config: ConfigError, e: ExternalToolError)
    ensures
        match config {
            ConfigError::NotFound(key) => config@ == ConfigErrorView::NotFound(key@),
            ConfigError::Message(text) => config@ == ConfigErrorView::Message(text@),
        },
        match e {
            ExternalToolError::ConfigError(config) => e@ == ExternalToolErrorView::ConfigError(
                config@,
            ),
            ExternalToolError::MergeArgsNotConfigured { tool_name } => e@ == (
            ExternalToolErrorView::MergeArgsNotConfigured { tool_name: tool_name@ }),
            ExternalToolError::SetUpDirError(io) => e@ == ExternalToolErrorView::SetUpDirError(io),
            ExternalToolError::FailedToExecute { tool_binary, source } => e@ == (
            ExternalToolErrorView::FailedToExecute { tool_binary: tool_binary@, source }),
            ExternalToolError::ToolAborted { exit_status } => e@ == (
            ExternalToolErrorView::ToolAborted { exit_status }),
            ExternalToolError::IoError(io) => e@ == ExternalToolErrorView::IoError(io),
        },
{
}

/// The views of errors in the two tasks keep what kind of error it is, and all that is known of it.
pub proof fn law_task_error_views_are_complete(diff: DiffEditError, conflict: ConflictResolveError)
    ensures
        match diff {
            DiffEditError::ExternalToolError(e) => diff@ == DiffEditErrorView::ExternalToolError(
                e@,
            ),
            DiffEditError::CheckoutError(e) => diff@ == DiffEditErrorView::CheckoutError(e),
            DiffEditError::SnapshotError(e) => diff@ == DiffEditErrorView::SnapshotError(e),
        },
        match conflict {
            ConflictResolveError::ExternalToolError(e) => conflict@
                == ConflictResolveErrorView::ExternalToolError(e@),
            ConflictResolveError::PathNotFoundError(path) => conflict@
                == ConflictResolveErrorView::PathNotFoundError(path@),
            ConflictResolveError::NotAConflictError(path) => conflict@
                == ConflictResolveErrorView::NotAConflictError(path@),
            ConflictResolveError::NotNormalFilesError(path, summary) => conflict@
                == ConflictResolveErrorView::NotNormalFilesError(path@, summary@),
            ConflictResolveError::ConflictTooComplicatedError { path, removes, adds } => conflict@
                == (ConflictResolveErrorView::ConflictTooComplicatedError {
                path: path@,
                removes: removes as nat,
                adds: adds as nat,
            }),
            ConflictResolveError::EmptyOrUnchanged => conflict@
                == ConflictResolveErrorView::EmptyOrUnchanged,
            ConflictResolveError::BackendError(e) => conflict@
                == ConflictResolveErrorView::BackendError(e),
        },
{
}

/// An error that is taken over into a wider kind of error stays what it was.
pub proof fn law_conversions_keep_the_error(
    config: ConfigError,
    io: IoError,
    tool: ExternalToolError,
    checkout: CheckoutError,
    snapshot: SnapshotError,
    backend: BackendError,
)
    ensures
        <ExternalToolError as vstd::std_specs::convert::FromSpec<ConfigError>>::from_spec(config)
            == ExternalToolError::ConfigError(config),
        <ExternalToolError as vstd::std_specs::convert::FromSpec<IoError>>::from_spec(io)
            == ExternalToolError::IoError(io),
        <DiffEditError as vstd::std_specs::convert::FromSpec<ExternalToolError>>::from_spec(tool)
            == DiffEditError::ExternalToolError(tool),
        <DiffEditError as vstd::std_specs::convert::FromSpec<CheckoutError>>::from_spec(checkout)
            == DiffEditError::CheckoutError(checkout),
        <DiffEditError as vstd::std_specs::convert::FromSpec<SnapshotError>>::from_spec(snapshot)
            == DiffEditError::SnapshotError(snapshot),
        <DiffEditError as vstd::std_specs::convert::FromSpec<IoError>>::from_spec(io)
            == DiffEditError::ExternalToolError(ExternalToolError::IoError(io)),
        <ConflictResolveError as vstd::std_specs::convert::FromSpec<ExternalToolError>>::from_spec(
            tool,
        ) == ConflictResolveError::ExternalToolError(tool),
        <ConflictResolveError as vstd::std_specs::convert::FromSpec<BackendError>>::from_spec(
            backend,
        ) == ConflictResolveError::BackendError(backend),
        <ConflictResolveError as vstd::std_specs::convert::FromSpec<IoError>>::from_spec(io)
            == ConflictResolveError::ExternalToolError(ExternalToolError::IoError(io)),
{
}

} // verus!
