//! The directory expander: turns a copy request into the file-to-file jobs
//! that the engine can stream. The worker lists the directories; what is
//! kept, what is descended into and what is skipped is decided here.

use crate::models::job::{Job, JobView, StatusView};
use crate::services::copy::CopyService;
use crate::services::storage::job_views;
use crate::text::{clone_texts, contains_text, lemma_texts_push, rebase, rebased, texts};
use vstd::prelude::*;

verus! {

/// What a directory entry is.
#[derive(Clone, Copy, Debug, PartialEq, Eq, Structural)]
pub enum EntryKind {
    /// A regular file.
    File,
    /// A directory.
    Directory,
    /// Neither of the two.
    Other,
    /// An entry that could not be read.
    Unreadable,
}

/// One entry of a directory listing.
#[derive(Debug)]
pub struct DirectoryEntry {
    /// The full path of the entry, where it is valid text.
    pub path: Option<String>,
    /// What the entry is.
    pub kind: EntryKind,
}

/// The mathematical value of a [`DirectoryEntry`].
pub struct EntryView {
    pub path: Option<Seq<char>>,
    pub kind: EntryKind,
}

impl View for DirectoryEntry {
    type V = EntryView;

    open spec fn view(&self) -> EntryView {
        EntryView {
            path: match self.path {
                Some(path) => Some(path@),
                None => None,
            },
            kind: self.kind,
        }
    }
}

/// The views of the entries of a listing, in order.
pub open spec fn entry_views(entries: Seq<DirectoryEntry>) -> Seq<EntryView> {
    entries.map_values(|entry: DirectoryEntry| entry@)
}

/// The paths of the entries of one kind, in order. An entry whose path is
/// not valid text has none.
pub open spec fn listed(entries: Seq<EntryView>, kind: EntryKind) -> Seq<Seq<char>>
    decreases entries.len(),
{
    if entries.len() == 0 {
        Seq::empty()
    } else {
        let before = listed(entries.drop_last(), kind);
        let entry = entries.last();
        if entry.kind == kind && entry.path is Some {
            before.push(entry.path->0)
        } else {
            before
        }
    }
}

/// The state of a walk through a directory tree.
#[derive(Debug)]
pub struct DirectoryWalk {
    /// The directories that are still to be listed; the last one is listed
    /// next, so the walk goes depth first.
    pub pending: Vec<String>,
    /// The regular files found so far.
    pub files: Vec<String>,
    /// The directories found so far below the root.
    pub directories: Vec<String>,
}

/// The mathematical value of a [`DirectoryWalk`].
pub struct WalkView {
    pub pending: Seq<Seq<char>>,
    pub files: Seq<Seq<char>>,
    pub directories: Seq<Seq<char>>,
}

impl View for DirectoryWalk {
    type V = WalkView;

    open spec fn view(&self) -> WalkView {
        WalkView {
            pending: texts(self.pending@),
            files: texts(self.files@),
            directories: texts(self.directories@),
        }
    }
}

/// The walk after the listing of one directory: its files are kept, its
/// directories are kept and will be listed, everything else is skipped. A
/// directory that could not be listed adds nothing.
pub open spec fn visited(walk: WalkView, listing: Option<Seq<EntryView>>) -> WalkView {
    match listing {
        Some(entries) => WalkView {
            pending: walk.pending + listed(entries, EntryKind::Directory),
            files: walk.files + listed(entries, EntryKind::File),
            directories: walk.directories + listed(entries, EntryKind::Directory),
        },
        None => walk,
    }
}

/// The sequence without the repetitions of its items: each item stays where
/// it occurs first.
pub open spec fn deduplicated(items: Seq<Seq<char>>) -> Seq<Seq<char>>
    decreases items.len(),
{
    if items.len() == 0 {
        Seq::empty()
    } else {
        let before = deduplicated(items.drop_last());
        if before.contains(items.last()) {
            before
        } else {
            before.push(items.last())
        }
    }
}

/// The directories that the destinations of an expanded job need: the
/// destination itself, then the found directories moved from the source to
/// the destination, each once.
pub open spec fn needed_directories(
    source: Seq<char>,
    destination: Seq<char>,
    directories: Seq<Seq<char>>,
) -> Seq<Seq<char>> {
    deduplicated(
        seq![destination] + directories.map_values(
            |directory: Seq<char>| rebased(directory, source, destination),
        ),
    )
}

/// The subjob for the file at a position of the walk, up to its identifier.
pub open spec fn subjob_view(job: JobView, walk: WalkView, index: int, id: u128) -> JobView {
    JobView {
        id,
        source: walk.files[index],
        destination: rebased(walk.files[index], job.source, job.destination),
        status: StatusView::Created,
        writes: 0,
        parent: Some(job.id),
        destination_dirs: needed_directories(job.source, job.destination, walk.directories),
    }
}

/// Whether the jobs are the expansion of a job: the job itself where its
/// source is a regular file, otherwise one subjob for each file of the walk,
/// in order, each with an identifier of its own.
pub open spec fn is_expansion(job: JobView, is_file: bool, walk: WalkView, jobs: Seq<JobView>) -> bool {
    if is_file {
        jobs == seq![job]
    } else {
        &&& jobs.len() == walk.files.len()
        &&& forall|i: int| 0 <= i < jobs.len() ==> jobs[i] == subjob_view(job, walk, i, jobs[i].id)
    }
}

/// Deduplication leaves no item twice and keeps exactly the items that
/// there were.
pub proof fn law_deduplicated_keeps_each_item_once(items: Seq<Seq<char>>)
    ensures
        deduplicated(items).no_duplicates(),
        forall|item: Seq<char>| deduplicated(items).contains(item) <==> items.contains(item),
    decreases items.len(),
{
    if items.len() > 0 {
        let front = items.drop_last();
        let before = deduplicated(front);
        law_deduplicated_keeps_each_item_once(front);
        assert forall|item: Seq<char>| deduplicated(items).contains(item) <==> items.contains(
            item,
        ) by {
            if items.contains(item) {
                let at = choose|i: int| 0 <= i < items.len() && items[i] == item;
                if at < front.len() {
                    assert(front[at] == item);
                    assert(front.contains(item));
                    assert(before.contains(item));
                    let k = choose|k: int| 0 <= k < before.len() && before[k] == item;
                    assert(deduplicated(items)[k] == item);
                } else {
                    if !before.contains(item) {
                        assert(deduplicated(items)[before.len() as int] == item);
                    }
                }
            }
            if deduplicated(items).contains(item) {
                let k = choose|k: int| 0 <= k < deduplicated(items).len() && deduplicated(items)[k]
                    == item;
                if k < before.len() {
                    assert(before[k] == item);
                    assert(front.contains(item));
                    let at = choose|i: int| 0 <= i < front.len() && front[i] == item;
                    assert(items[at] == item);
                } else {
                    assert(items[items.len() - 1] == item);
                }
            }
        }
    }
}

/// Listing one more entry adds its path where it is of the kind and has a
/// path.
proof fn lemma_listed_push(entries: Seq<EntryView>, entry: EntryView, kind: EntryKind)
    ensures
        listed(entries.push(entry), kind) == if entry.kind == kind && entry.path is Some {
            listed(entries, kind).push(entry.path->0)
        } else {
            listed(entries, kind)
        },
{
    assert(entries.push(entry).drop_last() =~= entries);
}

impl DirectoryWalk {
    /// A walk that has the root still to list and has found nothing.
    pub fn new(root: String) -> (walk: Self)
        ensures
            walk@ == (WalkView {
                pending: seq![root@],
                files: Seq::empty(),
                directories: Seq::empty(),
            }),
    {
        let mut pending: Vec<String> = Vec::new();
        pending.push(root);
        let walk = DirectoryWalk { pending, files: Vec::new(), directories: Vec::new() };
        assert(walk@.pending =~= seq![root@]);
        assert(walk@.files =~= Seq::<Seq<char>>::empty());
        assert(walk@.directories =~= Seq::<Seq<char>>::empty());
        walk
    }

    /// Takes the directory to list next off the walk: the one found last.
    /// `None` where none is left, which ends the walk.
    pub fn next_directory(&mut self) -> (next: Option<String>)
        ensures
            match next {
                Some(directory) => old(self)@.pending.len() > 0 && directory@ == old(
                    self,
                )@.pending.last() && final(self)@ == (WalkView {
                    pending: old(self)@.pending.drop_last(),
                    ..old(self)@
                }),
                None => old(self)@.pending.len() == 0 && final(self)@ == old(self)@,
            },
    {
        let next = self.pending.pop();
        proof {
            if next is Some {
                assert(texts(self.pending@) =~= texts(old(self).pending@).drop_last());
            }
        }
        next
    }
}

impl CopyService {
    /// Takes the listing of one directory into the walk. `None` stands for a
    /// directory that could not be listed.
    pub fn visit_directory(walk: &mut DirectoryWalk, listing: Option<Vec<DirectoryEntry>>)
        ensures
            final(walk)@ == visited(
                old(walk)@,
                match listing {
                    Some(entries) => Some(entry_views(entries@)),
                    None => None,
                },
            ),
    {
        let entries = match listing {
            Some(entries) => entries,
            None => {
                return ;
            },
        };
        let ghost all = entry_views(entries@);
        let mut i: usize = 0;
        assert(all.take(0) =~= Seq::<EntryView>::empty());
        assert(walk@.pending + Seq::<Seq<char>>::empty() =~= walk@.pending);
        assert(walk@.files + Seq::<Seq<char>>::empty() =~= walk@.files);
        assert(walk@.directories + Seq::<Seq<char>>::empty() =~= walk@.directories);
        while i < entries.len()
            invariant
                i <= entries.len(),
                all == entry_views(entries@),
                walk@ == visited(old(walk)@, Some(all.take(i as int))),
            decreases entries.len() - i,
        {
            let entry = &entries[i];
            proof {
                lemma_listed_push(all.take(i as int), all[i as int], EntryKind::File);
                lemma_listed_push(all.take(i as int), all[i as int], EntryKind::Directory);
                assert(all.take(i as int).push(all[i as int]) =~= all.take(i + 1));
                assert(all[i as int] == entry@);
            }
            match &entry.path {
                Some(path) => match entry.kind {
                    EntryKind::File => {
                        let ghost before = walk.files@;
                        walk.files.push(path.clone());
                        proof {
                            lemma_texts_push(before, walk.files@.last());
                            assert(walk.files@ =~= before.push(walk.files@.last()));
                            assert(walk@.files =~= old(walk)@.files + listed(
                                all.take(i + 1),
                                EntryKind::File,
                            ));
                        }
                    },
                    EntryKind::Directory => {
                        let ghost pending = walk.pending@;
                        let ghost directories = walk.directories@;
                        walk.pending.push(path.clone());
                        walk.directories.push(path.clone());
                        proof {
                            lemma_texts_push(pending, walk.pending@.last());
                            lemma_texts_push(directories, walk.directories@.last());
                            assert(walk.pending@ =~= pending.push(walk.pending@.last()));
                            assert(walk.directories@ =~= directories.push(
                                walk.directories@.last(),
                            ));
                            assert(walk@.pending =~= old(walk)@.pending + listed(
                                all.take(i + 1),
                                EntryKind::Directory,
                            ));
                            assert(walk@.directories =~= old(walk)@.directories + listed(
                                all.take(i + 1),
                                EntryKind::Directory,
                            ));
                        }
                    },
                    _ => {},
                },
                None => {},
            }
            i += 1;
        }
        assert(all.take(i as int) =~= all);
    }

    /// The directories that the destinations of an expanded job need.
    fn destination_directories(source: &String, destination: &String, found: &Vec<String>) -> (needed:
        Vec<String>)
        ensures
            texts(needed@) == needed_directories(source@, destination@, texts(found@)),
    {
        let ghost moved = texts(found@).map_values(
            |directory: Seq<char>| rebased(directory, source@, destination@),
        );
        let ghost all = seq![destination@] + moved;
        let mut needed: Vec<String> = Vec::new();
        needed.push(destination.clone());
        proof {
            assert(all.take(1) =~= seq![destination@]);
            assert(all.take(1).drop_last() =~= Seq::<Seq<char>>::empty());
            assert(deduplicated(all.take(1).drop_last()) =~= Seq::<Seq<char>>::empty());
            assert(texts(needed@) =~= deduplicated(all.take(1)));
        }
        let mut i: usize = 0;
        while i < found.len()
            invariant
                i <= found.len(),
                moved == texts(found@).map_values(
                    |directory: Seq<char>| rebased(directory, source@, destination@),
                ),
                all == seq![destination@] + moved,
                texts(needed@) == deduplicated(all.take(i + 1)),
            decreases found.len() - i,
        {
            let directory = rebase(&found[i], source, destination);
            proof {
                assert(all.take(i + 2).drop_last() =~= all.take(i + 1));
                assert(all.take(i + 2).last() == moved[i as int]);
                assert(moved[i as int] == directory@);
            }
            if !contains_text(&needed, &directory) {
                let ghost before = needed@;
                needed.push(directory);
                proof {
                    lemma_texts_push(before, needed@.last());
                    assert(needed@ =~= before.push(needed@.last()));
                }
            }
            i += 1;
        }
        assert(all.take(i + 1) =~= all);
        needed
    }

    /// Expands a copy request into the jobs that stream one file each.
    ///
    /// Where the source is a regular file, that is the job itself,
    /// unchanged. Otherwise the source is taken for a directory that was
    /// walked: each file found becomes a subjob that copies it to the same
    /// place below the destination, refers back to the request and carries
    /// the directories that have to exist. A directory without files, or
    /// one that could not be listed, expands to nothing.
    pub fn subjobs(job: Job, is_file: bool, walk: &DirectoryWalk) -> (jobs: Vec<Job>)
        ensures
            is_expansion(job@, is_file, walk@, job_views(jobs@)),
    {
        let mut jobs: Vec<Job> = Vec::new();
        if is_file {
            jobs.push(job);
            assert(job_views(jobs@) =~= seq![job@]);
            return jobs;
        }
        let needed = Self::destination_directories(
            &job.source,
            &job.destination,
            &walk.directories,
        );
        let mut i: usize = 0;
        while i < walk.files.len()
            invariant
                i <= walk.files.len(),
                jobs@.len() == i,
                texts(needed@) == needed_directories(
                    job@.source,
                    job@.destination,
                    walk@.directories,
                ),
                forall|k: int|
                    0 <= k < i ==> jobs@[k]@ == subjob_view(job@, walk@, k, jobs@[k].id),
            decreases walk.files.len() - i,
        {
            let file = &walk.files[i];
            let moved = rebase(file, &job.source, &job.destination);
            let subjob = Job::subjob(file.clone(), moved, job.id, clone_texts(&needed));
            assert(walk@.files[i as int] == file@);
            jobs.push(subjob);
            i += 1;
        }
        assert(job_views(jobs@).len() == walk@.files.len());
        jobs
    }
}

} // verus!
