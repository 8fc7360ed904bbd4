//! What a repository holds, as far as the tools have to do with it.

use crate::text::{copy_words, join, join_words};
use vstd::prelude::*;

verus! {

/// The place of a file in a repository: the names on the way from the root to it.
#[derive(Debug)]
pub struct RepoPath {
    pub components: Vec<String>,
}

impl View for RepoPath {
    type V = Seq<Seq<char>>;

    open spec fn view(&self) -> Seq<Seq<char>> {
        self.components.deep_view()
    }
}

impl Clone for RepoPath {
    fn clone(&self) -> (copy: RepoPath)
        ensures
            copy@ == self@,
    {
        let components = copy_words(&self.components, 0);
        assert(components.deep_view() =~= self.components.deep_view());
        RepoPath { components }
    }
}

impl RepoPath {
    /// The path with slashes between its components.
    pub fn to_internal_file_string(&self) -> (text: String)
        ensures
            text@ == join(self@, '/'),
    {
        join_words(&self.components, '/')
    }
}

/// The name by which a store knows the contents of a file.
#[derive(Debug)]
pub struct FileId(pub Vec<u8>);

/// The name by which a store knows a conflict.
#[derive(Debug)]
pub struct ConflictId(pub Vec<u8>);

/// The name by which a store knows a directory tree.
#[derive(Debug)]
pub struct TreeId(pub Vec<u8>);

impl View for TreeId {
    type V = Seq<u8>;

    open spec fn view(&self) -> Seq<u8> {
        self.0@
    }
}

/// What a tree holds at a path.
#[derive(Debug)]
pub enum TreeValue {
    /// A file.
    File { id: FileId, executable: bool },
    /// A conflict between the values of several trees.
    Conflict(ConflictId),
    /// Anything else: a directory, a symlink, a submodule.
    Other,
}

/// The file contents that a conflict is made of: each of `adds` wants to be the new contents, with
/// respect to those in `removes`.
#[derive(Debug)]
pub struct ConflictHunk {
    pub removes: Vec<Vec<u8>>,
    pub adds: Vec<Vec<u8>>,
}

/// A conflict as it was read from a store.
#[derive(Debug)]
pub enum ConflictContent {
    /// All of its terms are normal files.
    Hunk(ConflictHunk),
    /// Some of its terms are something else. The summary says what they are.
    NotNormalFiles { summary: Vec<u8> },
}

/// The view of a path keeps all its components, and that of a tree all bytes of its name.
pub proof fn law_repo_views_are_complete(path: RepoPath, tree: TreeId)
    ensures
        path@.len() == path.components@.len(),
        forall|i: int|
            0 <= i < path.components@.len() ==> #[trigger] path@[i] == path.components@[i]@,
        tree@ == tree.0@,
{
}

} // verus!
