//! Making all files under a path read-only.

use vstd::prelude::*;

verus! {

/// A walk over all that is under a path. Directories are walked through in the order in which they
/// list their entries. An entry that cannot be read takes its turn as the error that it is.
pub struct ReadonlyWalk<P, E> {
    pending: Vec<Result<P, E>>,
}

impl<P, E> View for ReadonlyWalk<P, E> {
    type V = Seq<Result<P, E>>;

    /// What has not been visited yet, in the order in which it will be.
    closed spec fn view(&self) -> Seq<Result<P, E>> {
        self.pending@.reverse()
    }
}

/// What a visit comes to: the path to make read-only, if any, and what is to be visited from then
/// on. A directory is walked through and stays as it is, since files under a read-only directory
/// cannot be removed. Anything else is made read-only.
pub open spec fn after_visit<P, E>(
    pending: Seq<Result<P, E>>,
    path: P,
    listing: Option<Seq<Result<P, E>>>,
) -> (Option<P>, Seq<Result<P, E>>) {
    match listing {
        Some(entries) => (None, entries + pending),
        None => (Some(path), pending),
    }
}

/// The entries of a directory, if it is one.
pub open spec fn listing_view<P, E>(listing: Option<Vec<Result<P, E>>>) -> Option<
    Seq<Result<P, E>>,
> {
    match listing {
        Some(entries) => Some(entries@),
        None => None,
    }
}

impl<P, E> ReadonlyWalk<P, E> {
    /// A walk over all that is under `path`.
    pub fn new(path: P) -> (walk: ReadonlyWalk<P, E>)
        ensures
            walk@ == seq![Ok::<P, E>(path)],
    {
        let mut pending: Vec<Result<P, E>> = Vec::new();
        pending.push(Ok(path));
        assert(pending@.reverse() =~= seq![Ok::<P, E>(path)]);
        ReadonlyWalk { pending }
    }

    /// What is to be visited next.
    pub fn next(&mut self) -> (entry: Option<Result<P, E>>)
        ensures
            match entry {
                Some(entry) => old(self)@.len() > 0 && entry == old(self)@[0] && final(self)@
                    == old(self)@.drop_first(),
                None => old(self)@.len() == 0 && final(self)@ == old(self)@,
            },
    {
        let entry = self.pending.pop();
        assert(entry is Some ==> self@ =~= old(self)@.drop_first());
        entry
    }

    /// Visits `path`, given its listing if it is a directory. Returns the path if it is to be made
    /// read-only.
    pub fn visit(&mut self, path: P, listing: Option<Vec<Result<P, E>>>) -> (file: Option<P>)
        ensures
            (file, final(self)@) == after_visit(old(self)@, path, listing_view(listing)),
            match listing {
                Some(entries) => file is None && final(self)@ == entries@ + old(self)@,
                None => file == Some(path) && final(self)@ == old(self)@,
            },
    {
        match listing {
            Some(entries) => {
                let ghost all = entries@;
                let mut rest: Vec<Result<P, E>> = entries;
                while rest.len() > 0
                    invariant
                        rest@.len() <= all.len(),
                        rest@ == all.take(rest@.len() as int),
                        self@ == all.skip(rest@.len() as int) + old(self)@,
                    decreases rest@.len(),
                {
                    let ghost n = rest@.len();
                    let ghost before = self@;
                    if let Some(entry) = rest.pop() {
                        self.pending.push(entry);
                        assert(self@ =~= seq![all[n - 1]] + before);
                        assert(rest@ =~= all.take(n - 1));
                        assert(all.skip(n - 1) =~= seq![all[n - 1]] + all.skip(n as int));
                        assert(self@ =~= all.skip(n - 1) + old(self)@);
                    }
                }
                assert(all.skip(0) =~= all);
                None
            },
            None => Some(path),
        }
    }
}

/// What can be found under a path.
pub enum FileTree<P> {
    /// Something other than a directory.
    File(P),
    /// A directory, with its entries.
    Dir(P, Seq<FileTree<P>>),
}

impl<P> FileTree<P> {
    /// The path itself.
    pub open spec fn path(self) -> P {
        match self {
            FileTree::File(path) => path,
            FileTree::Dir(path, entries) => path,
        }
    }

    /// What a directory lists.
    pub open spec fn listing<E>(self) -> Option<Seq<Result<P, E>>> {
        match self {
            FileTree::File(path) => None,
            FileTree::Dir(path, entries) => Some(tree_entries(entries)),
        }
    }
}

/// The trees as entries of a walk.
pub open spec fn tree_entries<P, E>(trees: Seq<FileTree<P>>) -> Seq<Result<P, E>> {
    trees.map_values(|tree: FileTree<P>| Ok::<P, E>(tree.path()))
}

/// All paths in the trees but those of directories.
pub open spec fn files<P>(trees: Seq<FileTree<P>>) -> Seq<P>
    decreases trees,
{
    if trees.len() == 0 {
        seq![]
    } else {
        let first = match trees[0] {
            FileTree::File(path) => seq![path],
            FileTree::Dir(path, entries) => files(entries),
        };
        first + files(trees.subrange(1, trees.len() as int))
    }
}

/// What is left of the trees when the first of them has been visited.
pub open spec fn unvisited<P>(trees: Seq<FileTree<P>>) -> Seq<FileTree<P>> {
    match trees[0] {
        FileTree::File(path) => trees.drop_first(),
        FileTree::Dir(path, entries) => entries + trees.drop_first(),
    }
}

proof fn lemma_files_of_sum<P>(a: Seq<FileTree<P>>, b: Seq<FileTree<P>>)
    ensures
        files(a + b) == files(a) + files(b),
    decreases a.len(),
{
    if a.len() == 0 {
        assert(a + b =~= b);
        assert(files(a + b) =~= files(a) + files(b));
    } else {
        let rest = a.subrange(1, a.len() as int);
        lemma_files_of_sum(rest, b);
        assert((a + b).subrange(1, (a + b).len() as int) =~= rest + b);
        assert(files(a + b) =~= files(a) + files(b));
    }
}

/// Each visit keeps the walk complete: the path that it makes read-only, if any, and the files that
/// are still to come are together the files that were to come before it, in their order.
pub proof fn law_a_visit_loses_no_file<P, E>(trees: Seq<FileTree<P>>)
    requires
        trees.len() > 0,
    ensures
        ({
            let pending = tree_entries::<P, E>(trees);
            let (file, rest) = after_visit(
                pending.drop_first(),
                trees[0].path(),
                trees[0].listing::<E>(),
            );
            &&& pending[0] == Ok::<P, E>(trees[0].path())
            &&& rest == tree_entries::<P, E>(unvisited(trees))
            &&& match file {
                Some(path) => files(trees) == seq![path] + files(unvisited(trees)),
                None => files(trees) == files(unvisited(trees)),
            }
        }),
{
    let pending = tree_entries::<P, E>(trees);
    let (file, rest) = after_visit(pending.drop_first(), trees[0].path(), trees[0].listing::<E>());
    assert(trees.subrange(1, trees.len() as int) =~= trees.drop_first());
    match trees[0] {
        FileTree::File(path) => {
            assert(rest =~= tree_entries::<P, E>(unvisited(trees)));
        },
        FileTree::Dir(path, entries) => {
            lemma_files_of_sum(entries, trees.drop_first());
            assert(rest =~= tree_entries::<P, E>(unvisited(trees)));
        },
    }
}

/// How many paths there are in the trees, those of directories included.
pub open spec fn path_count<P>(trees: Seq<FileTree<P>>) -> nat
    decreases trees,
{
    if trees.len() == 0 {
        0
    } else {
        let below = match trees[0] {
            FileTree::File(path) => 0,
            FileTree::Dir(path, entries) => path_count(entries),
        };
        1 + below + path_count(trees.subrange(1, trees.len() as int))
    }
}

/// A number of visits, one after the other, each of the path that is next, with what the trees say
/// of it: the paths to make read-only on the way, and what is to be visited from then on.
pub open spec fn after_visits<P, E>(
    pending: Seq<Result<P, E>>,
    trees: Seq<FileTree<P>>,
    visits: nat,
) -> (Seq<P>, Seq<Result<P, E>>)
    decreases visits,
{
    if visits == 0 || pending.len() == 0 {
        (seq![], pending)
    } else {
        let (file, rest) = after_visit(
            pending.drop_first(),
            trees[0].path(),
            trees[0].listing::<E>(),
        );
        let first = match file {
            Some(path) => seq![path],
            None => seq![],
        };
        let (later, end) = after_visits(rest, unvisited(trees), (visits - 1) as nat);
        (first + later, end)
    }
}

proof fn lemma_path_count_of_sum<P>(a: Seq<FileTree<P>>, b: Seq<FileTree<P>>)
    ensures
        path_count(a + b) == path_count(a) + path_count(b),
    decreases a.len(),
{
    if a.len() == 0 {
        assert(a + b =~= b);
    } else {
        let rest = a.subrange(1, a.len() as int);
        lemma_path_count_of_sum(rest, b);
        assert((a + b).subrange(1, (a + b).len() as int) =~= rest + b);
    }
}

proof fn lemma_a_visit_leaves_one_path_less<P>(trees: Seq<FileTree<P>>)
    requires
        trees.len() > 0,
    ensures
        path_count(trees) == 1 + path_count(unvisited(trees)),
{
    assert(trees.subrange(1, trees.len() as int) =~= trees.drop_first());
    if let FileTree::Dir(path, entries) = trees[0] {
        lemma_path_count_of_sum(entries, trees.drop_first());
    }
}

/// A walk ends, and makes each file read-only once and no directory: it takes one visit for each
/// path in the trees, and not one less. Then nothing is left to visit, and the paths that were made
/// read-only on the way are all the files, in their order.
pub proof fn law_each_file_is_made_read_only<P, E>(trees: Seq<FileTree<P>>, visits: nat)
    ensures
        visits >= path_count(trees) ==> after_visits(tree_entries::<P, E>(trees), trees, visits)
            == (files(trees), Seq::<Result<P, E>>::empty()),
        visits < path_count(trees) ==> after_visits(
            tree_entries::<P, E>(trees),
            trees,
            visits,
        ).1.len() > 0,
    decreases visits,
{
    let pending = tree_entries::<P, E>(trees);
    if trees.len() == 0 {
        assert(pending =~= Seq::<Result<P, E>>::empty());
        assert(files(trees) =~= Seq::<P>::empty());
    } else if visits > 0 {
        law_a_visit_loses_no_file::<P, E>(trees);
        lemma_a_visit_leaves_one_path_less(trees);
        law_each_file_is_made_read_only::<P, E>(unvisited(trees), (visits - 1) as nat);
        if visits >= path_count(trees) {
            assert(after_visits(pending, trees, visits).0 =~= files(trees));
        }
    }
}

/// A visit of a directory makes nothing read-only, and puts all its entries, those that could not be
/// read among them, in front of what was still to be visited. A visit of anything else makes that
/// read-only, and puts nothing there.
pub proof fn law_entries_are_visited_next<P, E>(
    pending: Seq<Result<P, E>>,
    path: P,
    entries: Seq<Result<P, E>>,
)
    ensures
        ({
            let (file, rest) = after_visit(pending, path, Some(entries));
            &&& file is None
            &&& rest.len() == entries.len() + pending.len()
            &&& forall|i: int| 0 <= i < entries.len() ==> rest[i] == #[trigger] entries[i]
            &&& forall|i: int|
                0 <= i < pending.len() ==> rest[entries.len() + i] == #[trigger] pending[i]
        }),
        after_visit(pending, path, None) == (Some(path), pending),
{
}

} // verus!
