use copy_daemon::models::job::{Job, JobStatus};
use copy_daemon::services::copy::CopyService;
use copy_daemon::services::expand::{DirectoryEntry, DirectoryWalk, EntryKind};
use copy_daemon::services::storage::StorageService;
use copy_daemon::text::{clone_texts, contains_text, rebase};

fn entry(path: &str, kind: EntryKind) -> DirectoryEntry {
    DirectoryEntry { path: Some(path.to_string()), kind }
}

fn listing(directory: &str) -> Option<Vec<DirectoryEntry>> {
    match directory {
        "src" => Some(vec![
            entry("src/a.txt", EntryKind::File),
            entry("src/sub", EntryKind::Directory),
        ]),
        "src/sub" => Some(vec![entry("src/sub/b.txt", EntryKind::File)]),
        _ => None,
    }
}

fn walk(root: &str) -> DirectoryWalk {
    let mut walk = DirectoryWalk::new(root.to_string());
    while let Some(directory) = walk.next_directory() {
        CopyService::visit_directory(&mut walk, listing(&directory));
    }
    walk
}

#[test]
fn tree_expands_to_one_subjob_per_file() {
    let request = Job::new("src".to_string(), "dst".to_string());
    let parent = request.id;
    let jobs = CopyService::subjobs(request, false, &walk("src"));
    assert_eq!(jobs.len(), 2);
    assert_eq!(jobs[0].source, "src/a.txt");
    assert_eq!(jobs[0].destination, "dst/a.txt");
    assert_eq!(jobs[1].source, "src/sub/b.txt");
    assert_eq!(jobs[1].destination, "dst/sub/b.txt");
    for job in &jobs {
        assert_eq!(job.parent, Some(parent));
        assert!(job.status == JobStatus::Created);
        assert_eq!(job.writes, 0);
        assert_eq!(job.destination_dirs, vec!["dst", "dst/sub"]);
        assert_ne!(job.id, parent);
    }
    assert_ne!(jobs[0].id, jobs[1].id);
}

#[test]
fn regular_file_expands_to_itself() {
    let request = Job::new("src/a.txt".to_string(), "dst/a.txt".to_string());
    let id = request.id;
    let jobs = CopyService::subjobs(request, true, &DirectoryWalk::new("src/a.txt".to_string()));
    assert_eq!(jobs.len(), 1);
    assert_eq!(jobs[0].id, id);
    assert_eq!(jobs[0].source, "src/a.txt");
    assert_eq!(jobs[0].destination, "dst/a.txt");
    assert_eq!(jobs[0].parent, None);
    assert!(jobs[0].destination_dirs.is_empty());
}

#[test]
fn source_that_cannot_be_listed_expands_to_nothing() {
    let request = Job::new("missing".to_string(), "dst".to_string());
    let jobs = CopyService::subjobs(request, false, &walk("missing"));
    assert!(jobs.is_empty());
}

#[test]
fn walk_starts_with_the_root_pending() {
    let mut walk = DirectoryWalk::new("src".to_string());
    assert_eq!(walk.pending, vec!["src"]);
    assert!(walk.files.is_empty());
    assert!(walk.directories.is_empty());
    assert_eq!(walk.next_directory(), Some("src".to_string()));
    assert_eq!(walk.next_directory(), None);
    assert!(walk.pending.is_empty());
}

#[test]
fn walk_goes_depth_first() {
    let mut walk = DirectoryWalk::new("r".to_string());
    assert_eq!(walk.next_directory(), Some("r".to_string()));
    CopyService::visit_directory(
        &mut walk,
        Some(vec![entry("r/x", EntryKind::Directory), entry("r/y", EntryKind::Directory)]),
    );
    assert_eq!(walk.next_directory(), Some("r/y".to_string()));
    CopyService::visit_directory(&mut walk, Some(vec![entry("r/y/z", EntryKind::Directory)]));
    assert_eq!(walk.next_directory(), Some("r/y/z".to_string()));
    CopyService::visit_directory(&mut walk, Some(vec![]));
    assert_eq!(walk.next_directory(), Some("r/x".to_string()));
    CopyService::visit_directory(&mut walk, None);
    assert_eq!(walk.next_directory(), None);
    assert_eq!(walk.directories, vec!["r/x", "r/y", "r/y/z"]);
}

#[test]
fn visit_keeps_files_and_directories_and_skips_the_rest() {
    let mut walk = DirectoryWalk::new("r".to_string());
    walk.next_directory();
    CopyService::visit_directory(
        &mut walk,
        Some(vec![
            entry("r/file", EntryKind::File),
            entry("r/socket", EntryKind::Other),
            entry("r/gone", EntryKind::Unreadable),
            DirectoryEntry { path: None, kind: EntryKind::File },
            DirectoryEntry { path: None, kind: EntryKind::Directory },
            DirectoryEntry { path: None, kind: EntryKind::Unreadable },
            entry("r/dir", EntryKind::Directory),
            entry("r/other", EntryKind::File),
        ]),
    );
    assert_eq!(walk.files, vec!["r/file", "r/other"]);
    assert_eq!(walk.directories, vec!["r/dir"]);
    assert_eq!(walk.pending, vec!["r/dir"]);
}

#[test]
fn unreadable_directory_does_not_abort_the_walk() {
    let mut walk = DirectoryWalk::new("r".to_string());
    walk.next_directory();
    CopyService::visit_directory(
        &mut walk,
        Some(vec![entry("r/locked", EntryKind::Directory), entry("r/file", EntryKind::File)]),
    );
    assert_eq!(walk.next_directory(), Some("r/locked".to_string()));
    CopyService::visit_directory(&mut walk, None);
    assert_eq!(walk.next_directory(), None);
    assert_eq!(walk.files, vec!["r/file"]);
    assert_eq!(walk.directories, vec!["r/locked"]);
}

#[test]
fn destination_directories_are_deduplicated_in_order_of_first_occurrence() {
    let mut walk = DirectoryWalk::new("s".to_string());
    walk.files.push("s/f".to_string());
    for directory in ["s/a", "s", "s/b", "s/a", "s/b/c", "s/a"] {
        walk.directories.push(directory.to_string());
    }
    let jobs = CopyService::subjobs(Job::new("s".to_string(), "d".to_string()), false, &walk);
    assert_eq!(jobs.len(), 1);
    assert_eq!(jobs[0].destination_dirs, vec!["d", "d/a", "d/b", "d/b/c"]);
}

#[test]
fn rebase_substitutes_the_prefix_only() {
    let rebase = |path: &str, from: &str, to: &str| {
        rebase(&path.to_string(), &from.to_string(), &to.to_string())
    };
    assert_eq!(rebase("src/a.txt", "src", "dst"), "dst/a.txt");
    assert_eq!(rebase("src/src/a.txt", "src", "dst"), "dst/src/a.txt");
    assert_eq!(rebase("src", "src", "dst"), "dst");
    assert_eq!(rebase("other/src/a.txt", "src", "dst"), "other/src/a.txt");
    assert_eq!(rebase("sr", "src", "dst"), "sr");
    assert_eq!(rebase("a", "", "dst/"), "dst/a");
    assert_eq!(rebase("/données/été.txt", "/données", "/copie"), "/copie/été.txt");
}

#[test]
fn text_lists() {
    let list = vec!["a".to_string(), "bc".to_string()];
    assert_eq!(clone_texts(&list), list);
    assert!(clone_texts(&Vec::new()).is_empty());
    assert!(contains_text(&list, &"bc".to_string()));
    assert!(!contains_text(&list, &"b".to_string()));
    assert!(!contains_text(&Vec::new(), &"".to_string()));
}

#[test]
fn intake_registers_the_expansion_in_order() {
    let service = CopyService::new(64);
    let mut storage = StorageService::new();
    storage.add_job(Job::new("/old".to_string(), "/older".to_string()));
    let request = Job::new("src".to_string(), "dst".to_string());
    let parent = request.id;
    let handles = service.execute(&mut storage, request, false, &walk("src"));
    assert_eq!(handles.len(), 2);
    assert_eq!(handles[0].index, 1);
    assert_eq!(handles[1].index, 2);
    assert_eq!(storage.len(), 3);
    assert_eq!(storage.get(handles[0]).source, "src/a.txt");
    assert_eq!(storage.get(handles[0]).destination, "dst/a.txt");
    assert_eq!(storage.get(handles[1]).source, "src/sub/b.txt");
    assert_eq!(storage.get(handles[1]).destination, "dst/sub/b.txt");
    assert_eq!(storage.get(handles[1]).parent, Some(parent));
    assert_eq!(storage.get(handles[1]).destination_dirs, vec!["dst", "dst/sub"]);
    assert_eq!(storage.jobs()[0].source, "/old");
}

#[test]
fn intake_of_a_file_registers_the_request_under_its_identifier() {
    let service = CopyService::new(64);
    let mut storage = StorageService::new();
    let request = Job::new("src/a.txt".to_string(), "dst/a.txt".to_string());
    let id = request.id;
    let handles = service.execute(
        &mut storage,
        request,
        true,
        &DirectoryWalk::new("src/a.txt".to_string()),
    );
    assert_eq!(handles.len(), 1);
    assert_eq!(handles[0].index, 0);
    assert_eq!(storage.get(handles[0]).id, id);
    assert!(storage.get(handles[0]).status == JobStatus::Created);
    assert_eq!(storage.find(id).map(|handle| handle.index), Some(0));
}

#[test]
fn intake_of_an_empty_directory_registers_nothing() {
    let service = CopyService::new(64);
    let mut storage = StorageService::new();
    let request = Job::new("missing".to_string(), "dst".to_string());
    let handles = service.execute(&mut storage, request, false, &walk("missing"));
    assert!(handles.is_empty());
    assert_eq!(storage.len(), 0);
}
