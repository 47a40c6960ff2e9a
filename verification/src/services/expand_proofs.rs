//! What a finished walk has found, proved over a model of the directory
//! tree: a function that gives, for each path, the listing of the directory
//! at that path, or nothing where it cannot be listed.

use crate::services::expand::{listed, visited, EntryKind, EntryView, WalkView};
use vstd::prelude::*;

verus! {

/// The walk at its start: the root is to be listed, nothing is found.
pub open spec fn started(root: Seq<char>) -> WalkView {
    WalkView { pending: seq![root], files: Seq::empty(), directories: Seq::empty() }
}

/// One round of the walk: the directory found last is taken off the pending
/// ones and its listing is taken in. A walk without pending directories
/// stays as it is.
pub open spec fn round(
    walk: WalkView,
    tree: spec_fn(Seq<char>) -> Option<Seq<EntryView>>,
) -> WalkView {
    if walk.pending.len() == 0 {
        walk
    } else {
        visited(
            WalkView { pending: walk.pending.drop_last(), ..walk },
            tree(walk.pending.last()),
        )
    }
}

/// The walk after so many rounds.
pub open spec fn walked(
    root: Seq<char>,
    tree: spec_fn(Seq<char>) -> Option<Seq<EntryView>>,
    rounds: nat,
) -> WalkView
    decreases rounds,
{
    if rounds == 0 {
        started(root)
    } else {
        round(walked(root, tree, (rounds - 1) as nat), tree)
    }
}

/// Whether a sequence of directories leads down the tree from the root: it
/// starts with the root, each of its directories can be listed, and each
/// but the first is listed in the one before it.
pub open spec fn descends(
    root: Seq<char>,
    tree: spec_fn(Seq<char>) -> Option<Seq<EntryView>>,
    path: Seq<Seq<char>>,
) -> bool {
    &&& path.len() > 0
    &&& path[0] == root
    &&& forall|i: int| 0 <= i < path.len() ==> (#[trigger] tree(path[i])) is Some
    &&& forall|i: int|
        0 < i < path.len() ==> listed(tree(path[i - 1])->0, EntryKind::Directory).contains(
            #[trigger] path[i],
        )
}

/// Whether the walk knows a directory: it is the root or was found.
pub open spec fn knows(walk: WalkView, root: Seq<char>, directory: Seq<char>) -> bool {
    directory == root || walk.directories.contains(directory)
}

/// Whether the walk is through with a directory: it cannot be listed, or
/// all the files and directories of its listing were found.
pub open spec fn is_through(
    walk: WalkView,
    tree: spec_fn(Seq<char>) -> Option<Seq<EntryView>>,
    directory: Seq<char>,
) -> bool {
    tree(directory) matches Some(entries) ==> {
        &&& forall|file: Seq<char>|
            listed(entries, EntryKind::File).contains(file) ==> walk.files.contains(file)
        &&& forall|child: Seq<char>|
            listed(entries, EntryKind::Directory).contains(child) ==> walk.directories.contains(
                child,
            )
    }
}

/// Every directory that the walk knows is pending or done with.
pub open spec fn is_covering(
    walk: WalkView,
    root: Seq<char>,
    tree: spec_fn(Seq<char>) -> Option<Seq<EntryView>>,
) -> bool {
    forall|directory: Seq<char>| #[trigger]
        knows(walk, root, directory) ==> walk.pending.contains(directory) || is_through(
            walk,
            tree,
            directory,
        )
}

/// What is in one of two sequences is in the two put together, and the
/// other way round.
proof fn lemma_contains_in_sum(left: Seq<Seq<char>>, right: Seq<Seq<char>>, item: Seq<char>)
    ensures
        (left + right).contains(item) <==> left.contains(item) || right.contains(item),
{
    if left.contains(item) {
        let i = choose|i: int| 0 <= i < left.len() && left[i] == item;
        assert((left + right)[i] == item);
    }
    if right.contains(item) {
        let i = choose|i: int| 0 <= i < right.len() && right[i] == item;
        assert((left + right)[left.len() + i] == item);
    }
    if (left + right).contains(item) {
        let i = choose|i: int| 0 <= i < (left + right).len() && (left + right)[i] == item;
        if i < left.len() {
            assert(left[i] == item);
        } else {
            assert(right[i - left.len()] == item);
        }
    }
}

/// A round keeps the walk covering.
proof fn lemma_round_keeps_covering(
    walk: WalkView,
    root: Seq<char>,
    tree: spec_fn(Seq<char>) -> Option<Seq<EntryView>>,
)
    requires
        is_covering(walk, root, tree),
    ensures
        is_covering(round(walk, tree), root, tree),
{
    if walk.pending.len() > 0 {
        let next = round(walk, tree);
        let taken = walk.pending.last();
        let rest = walk.pending.drop_last();
        let new_files = match tree(taken) {
            Some(entries) => listed(entries, EntryKind::File),
            None => Seq::empty(),
        };
        let new_directories = match tree(taken) {
            Some(entries) => listed(entries, EntryKind::Directory),
            None => Seq::empty(),
        };
        assert(next.files =~= walk.files + new_files);
        assert(next.directories =~= walk.directories + new_directories);
        assert(next.pending =~= rest + new_directories);
        assert forall|item: Seq<char>| walk.files.contains(item) implies next.files.contains(
            item,
        ) by {
            lemma_contains_in_sum(walk.files, new_files, item);
        }
        assert forall|item: Seq<char>|
            walk.directories.contains(item) implies next.directories.contains(item) by {
            lemma_contains_in_sum(walk.directories, new_directories, item);
        }
        assert forall|directory: Seq<char>| #[trigger]
            knows(next, root, directory) implies next.pending.contains(directory) || is_through(
            next,
            tree,
            directory,
        ) by {
            lemma_contains_in_sum(walk.directories, new_directories, directory);
            lemma_contains_in_sum(rest, new_directories, directory);
            if directory == taken {
                if let Some(entries) = tree(taken) {
                    assert forall|file: Seq<char>|
                        listed(entries, EntryKind::File).contains(file) implies next.files.contains(
                        file,
                    ) by {
                        lemma_contains_in_sum(walk.files, new_files, file);
                    }
                    assert forall|child: Seq<char>|
                        listed(entries, EntryKind::Directory).contains(
                            child,
                        ) implies next.directories.contains(child) by {
                        lemma_contains_in_sum(walk.directories, new_directories, child);
                    }
                }
            } else if knows(walk, root, directory) {
                if walk.pending.contains(directory) {
                    let i = choose|i: int| 0 <= i < walk.pending.len() && walk.pending[i] == directory;
                    assert(rest[i] == directory);
                } else {
                    assert(is_through(walk, tree, directory));
                }
            }
        }
    }
}

/// The walk is covering after every number of rounds, and never loses what
/// it has found.
proof fn lemma_walk_is_covering(
    root: Seq<char>,
    tree: spec_fn(Seq<char>) -> Option<Seq<EntryView>>,
    rounds: nat,
)
    ensures
        is_covering(walked(root, tree, rounds), root, tree),
    decreases rounds,
{
    if rounds == 0 {
        assert(started(root).pending[0] == root);
    } else {
        lemma_walk_is_covering(root, tree, (rounds - 1) as nat);
        lemma_round_keeps_covering(walked(root, tree, (rounds - 1) as nat), root, tree);
    }
}

/// A finished walk knows every directory to which a way leads down from the
/// root.
proof fn lemma_finished_walk_knows_the_way(
    root: Seq<char>,
    tree: spec_fn(Seq<char>) -> Option<Seq<EntryView>>,
    rounds: nat,
    path: Seq<Seq<char>>,
    upto: int,
)
    requires
        walked(root, tree, rounds).pending.len() == 0,
        descends(root, tree, path),
        0 <= upto < path.len(),
    ensures
        knows(walked(root, tree, rounds), root, path[upto]),
    decreases upto,
{
    if upto > 0 {
        let walk = walked(root, tree, rounds);
        lemma_finished_walk_knows_the_way(root, tree, rounds, path, upto - 1);
        lemma_walk_is_covering(root, tree, rounds);
        let parent = path[upto - 1];
        assert(knows(walk, root, parent));
        assert(!walk.pending.contains(parent));
        assert(is_through(walk, tree, parent));
        assert(tree(parent) is Some);
        assert(listed(tree(parent)->0, EntryKind::Directory).contains(path[upto]));
    }
}

/// A walk that has come to its end has found every regular file of the
/// tree: each file that is listed, with a path that is valid text, in the
/// root or in a directory to which a way of listed directories leads down
/// from the root.
pub proof fn law_finished_walk_has_found_every_file(
    root: Seq<char>,
    tree: spec_fn(Seq<char>) -> Option<Seq<EntryView>>,
    rounds: nat,
    path: Seq<Seq<char>>,
    file: Seq<char>,
)
    requires
        walked(root, tree, rounds).pending.len() == 0,
        descends(root, tree, path),
        listed(tree(path.last())->0, EntryKind::File).contains(file),
    ensures
        walked(root, tree, rounds).files.contains(file),
{
    let walk = walked(root, tree, rounds);
    let directory = path.last();
    lemma_finished_walk_knows_the_way(root, tree, rounds, path, path.len() - 1);
    lemma_walk_is_covering(root, tree, rounds);
    assert(knows(walk, root, directory));
    assert(!walk.pending.contains(directory));
    assert(is_through(walk, tree, directory));
    assert(tree(directory) is Some);
}

/// Whether a file or directory is listed, as an entry of the kind with a
/// path that is valid text, in a directory that the walk knows.
pub open spec fn is_listed(
    walk: WalkView,
    root: Seq<char>,
    tree: spec_fn(Seq<char>) -> Option<Seq<EntryView>>,
    kind: EntryKind,
    item: Seq<char>,
) -> bool {
    exists|directory: Seq<char>|
        #![trigger knows(walk, root, directory)]
        knows(walk, root, directory) && tree(directory) is Some && listed(
            tree(directory)->0,
            kind,
        ).contains(item)
}

/// Everything that the walk holds comes from the tree: the pending
/// directories are known to it, and what it has found is listed in a
/// directory that it knows.
pub open spec fn is_grounded(
    walk: WalkView,
    root: Seq<char>,
    tree: spec_fn(Seq<char>) -> Option<Seq<EntryView>>,
) -> bool {
    &&& forall|directory: Seq<char>| #[trigger]
        walk.pending.contains(directory) ==> knows(walk, root, directory)
    &&& forall|file: Seq<char>| #[trigger]
        walk.files.contains(file) ==> is_listed(walk, root, tree, EntryKind::File, file)
    &&& forall|child: Seq<char>| #[trigger]
        walk.directories.contains(child) ==> is_listed(
            walk,
            root,
            tree,
            EntryKind::Directory,
            child,
        )
}

/// What is listed for a walk is listed for a walk that knows more.
proof fn lemma_listed_stays_listed(
    walk: WalkView,
    next: WalkView,
    root: Seq<char>,
    tree: spec_fn(Seq<char>) -> Option<Seq<EntryView>>,
    kind: EntryKind,
    item: Seq<char>,
)
    requires
        is_listed(walk, root, tree, kind, item),
        forall|directory: Seq<char>|
            walk.directories.contains(directory) ==> next.directories.contains(directory),
    ensures
        is_listed(next, root, tree, kind, item),
{
    let directory = choose|directory: Seq<char>|
        #![trigger knows(walk, root, directory)]
        knows(walk, root, directory) && tree(directory) is Some && listed(
            tree(directory)->0,
            kind,
        ).contains(item);
    assert(knows(next, root, directory));
}

/// A round keeps the walk grounded.
proof fn lemma_round_keeps_grounded(
    walk: WalkView,
    root: Seq<char>,
    tree: spec_fn(Seq<char>) -> Option<Seq<EntryView>>,
)
    requires
        is_grounded(walk, root, tree),
    ensures
        is_grounded(round(walk, tree), root, tree),
{
    if walk.pending.len() > 0 {
        let next = round(walk, tree);
        let taken = walk.pending.last();
        let rest = walk.pending.drop_last();
        let new_files = match tree(taken) {
            Some(entries) => listed(entries, EntryKind::File),
            None => Seq::empty(),
        };
        let new_directories = match tree(taken) {
            Some(entries) => listed(entries, EntryKind::Directory),
            None => Seq::empty(),
        };
        assert(next.files =~= walk.files + new_files);
        assert(next.directories =~= walk.directories + new_directories);
        assert(next.pending =~= rest + new_directories);
        assert(walk.pending.contains(taken)) by {
            assert(walk.pending[walk.pending.len() - 1] == taken);
        }
        assert(knows(walk, root, taken));
        assert forall|item: Seq<char>|
            walk.directories.contains(item) implies next.directories.contains(item) by {
            lemma_contains_in_sum(walk.directories, new_directories, item);
        }
        assert(knows(next, root, taken));
        assert forall|directory: Seq<char>| #[trigger]
            next.pending.contains(directory) implies knows(next, root, directory) by {
            lemma_contains_in_sum(rest, new_directories, directory);
            lemma_contains_in_sum(walk.directories, new_directories, directory);
            if rest.contains(directory) {
                let i = choose|i: int| 0 <= i < rest.len() && rest[i] == directory;
                assert(walk.pending[i] == directory);
                assert(walk.pending.contains(directory));
                assert(knows(walk, root, directory));
            }
        }
        assert forall|file: Seq<char>| #[trigger] next.files.contains(file) implies is_listed(
            next,
            root,
            tree,
            EntryKind::File,
            file,
        ) by {
            lemma_contains_in_sum(walk.files, new_files, file);
            if walk.files.contains(file) {
                lemma_listed_stays_listed(walk, next, root, tree, EntryKind::File, file);
            }
        }
        assert forall|child: Seq<char>| #[trigger]
            next.directories.contains(child) implies is_listed(
            next,
            root,
            tree,
            EntryKind::Directory,
            child,
        ) by {
            lemma_contains_in_sum(walk.directories, new_directories, child);
            if walk.directories.contains(child) {
                lemma_listed_stays_listed(walk, next, root, tree, EntryKind::Directory, child);
            }
        }
    }
}

/// A walk finds nothing but what the tree holds: after every number of
/// rounds, each file that it has found is listed as a regular file, and each
/// directory that it has found is listed as a directory, in the root or in
/// a directory that it has found.
pub proof fn law_walk_finds_only_what_is_listed(
    root: Seq<char>,
    tree: spec_fn(Seq<char>) -> Option<Seq<EntryView>>,
    rounds: nat,
)
    ensures
        is_grounded(walked(root, tree, rounds), root, tree),
    decreases rounds,
{
    if rounds == 0 {
        let walk = started(root);
        assert forall|directory: Seq<char>| #[trigger]
            walk.pending.contains(directory) implies knows(walk, root, directory) by {
            let i = choose|i: int| 0 <= i < walk.pending.len() && walk.pending[i] == directory;
            assert(walk.pending[i] == root);
        }
    } else {
        law_walk_finds_only_what_is_listed(root, tree, (rounds - 1) as nat);
        lemma_round_keeps_grounded(walked(root, tree, (rounds - 1) as nat), root, tree);
    }
}

} // verus!
