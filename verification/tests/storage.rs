use copy_daemon::models::job::{Job, JobStatus};
use copy_daemon::services::storage::StorageService;

fn job(source: &str, destination: &str) -> Job {
    Job::new(source.to_string(), destination.to_string())
}

fn text(id: u128) -> String {
    uuid::Uuid::from_u128(id).to_string()
}

#[test]
fn new_registry_is_empty() {
    let storage = StorageService::new();
    assert_eq!(storage.len(), 0);
    assert!(storage.jobs().is_empty());
}

#[test]
fn new_job_is_created_with_nothing_written() {
    let fresh = job("/a", "/b");
    assert_eq!(fresh.source, "/a");
    assert_eq!(fresh.destination, "/b");
    assert!(fresh.status == JobStatus::Created);
    assert_eq!(fresh.writes, 0);
    assert_eq!(fresh.parent, None);
    assert!(fresh.destination_dirs.is_empty());
}

#[test]
fn new_jobs_get_random_version_four_identifiers() {
    let first = job("/a", "/b");
    let second = job("/a", "/b");
    assert_ne!(first.id, second.id);
    assert_eq!(uuid::Uuid::from_u128(first.id).get_version_num(), 4);
    assert_eq!(uuid::Uuid::from_u128(second.id).get_version_num(), 4);
}

#[test]
fn add_job_appends_and_returns_the_position() {
    let mut storage = StorageService::new();
    let first = storage.add_job(job("/a", "/b"));
    let second = storage.add_job(job("/c", "/d"));
    assert_eq!(first.index, 0);
    assert_eq!(second.index, 1);
    assert_eq!(storage.len(), 2);
    assert_eq!(storage.get(first).source, "/a");
    assert_eq!(storage.get(second).destination, "/d");
}

#[test]
fn add_job_keeps_a_free_identifier() {
    let mut storage = StorageService::new();
    let mut wanted = job("/a", "/b");
    wanted.id = 42;
    let handle = storage.add_job(wanted);
    assert_eq!(storage.get(handle).id, 42);
}

#[test]
fn add_job_replaces_a_taken_identifier_by_the_next_free_one() {
    let mut storage = StorageService::new();
    for id in [10u128, 11, 13] {
        let mut next = job("/a", "/b");
        next.id = id;
        storage.add_job(next);
    }
    let mut clash = job("/c", "/d");
    clash.id = 10;
    let handle = storage.add_job(clash);
    assert_eq!(storage.get(handle).id, 12);
    assert_eq!(storage.get(handle).source, "/c");

    let mut again = job("/e", "/f");
    again.id = 10;
    let handle = storage.add_job(again);
    assert_eq!(storage.get(handle).id, 14);
}

#[test]
fn free_identifier_search_wraps_around() {
    let mut storage = StorageService::new();
    let mut last = job("/a", "/b");
    last.id = u128::MAX;
    storage.add_job(last);
    let mut clash = job("/c", "/d");
    clash.id = u128::MAX;
    let handle = storage.add_job(clash);
    assert_eq!(storage.get(handle).id, 0);
}

#[test]
fn identifiers_stay_unique() {
    let mut storage = StorageService::new();
    for round in 0..20u128 {
        let mut next = job("/a", "/b");
        next.id = round % 3;
        storage.add_job(next);
    }
    let jobs = storage.jobs();
    for i in 0..jobs.len() {
        for j in (i + 1)..jobs.len() {
            assert_ne!(jobs[i].id, jobs[j].id);
        }
    }
}

#[test]
fn add_job_sets_the_state_to_created() {
    let mut storage = StorageService::new();
    let mut done = job("/a", "/b");
    done.status = JobStatus::Completed;
    done.writes = 5;
    let handle = storage.add_job(done);
    assert!(storage.get(handle).status == JobStatus::Created);
    assert_eq!(storage.get(handle).writes, 5);
}

#[test]
fn find_by_identifier() {
    let mut storage = StorageService::new();
    let mut first = job("/a", "/b");
    first.id = 7;
    let mut second = job("/c", "/d");
    second.id = 9;
    storage.add_job(first);
    storage.add_job(second);
    assert_eq!(storage.find(9).map(|handle| handle.index), Some(1));
    assert_eq!(storage.find(7).map(|handle| handle.index), Some(0));
    assert!(storage.find(8).is_none());
}

#[test]
fn job_is_found_by_every_textual_form_of_its_identifier() {
    let mut storage = StorageService::new();
    let mut wanted = job("/a", "/b");
    wanted.id = 0x550e8400_e29b_41d4_a716_446655440000;
    storage.add_job(wanted);
    for text in [
        "550e8400-e29b-41d4-a716-446655440000",
        "550E8400-E29B-41D4-A716-446655440000",
        "550e8400e29b41d4a716446655440000",
        "{550e8400-e29b-41d4-a716-446655440000}",
        "urn:uuid:550e8400-e29b-41d4-a716-446655440000",
    ] {
        let found = storage.job(text.to_string());
        assert_eq!(found.map(|job| job.source.clone()), Some("/a".to_string()));
        assert_eq!(storage.lookup(text).map(|handle| handle.index), Some(0));
    }
}

#[test]
fn unknown_and_malformed_identifiers_find_nothing() {
    let mut storage = StorageService::new();
    let mut wanted = job("/a", "/b");
    wanted.id = 1;
    storage.add_job(wanted);
    for text in [
        "550e8400-e29b-41d4-a716-446655440000",
        "",
        "1",
        "not an identifier",
        "00000000-0000-0000-0000-00000000000g",
        "00000000-0000-0000-0000-0000000000011",
    ] {
        assert!(storage.job(text.to_string()).is_none());
        assert!(storage.lookup(text).is_none());
        assert!(!storage.suspend_job(text.to_string()));
        assert!(!storage.cancel_job(text.to_string()));
        assert!(!storage.resume_job(text.to_string()));
    }
    assert!(storage.jobs()[0].status == JobStatus::Created);
}

#[test]
fn suspend_cancel_and_resume_overwrite_the_status_of_the_addressed_job_only() {
    let mut storage = StorageService::new();
    let first = storage.add_job(job("/a", "/b"));
    let second = storage.add_job(job("/c", "/d"));
    let id = text(storage.get(second).id);

    assert!(storage.suspend_job(id.clone()));
    assert!(storage.get(second).status == JobStatus::Suspended);
    assert!(storage.get(first).status == JobStatus::Created);

    assert!(storage.resume_job(id.clone()));
    assert!(storage.get(second).status == JobStatus::Running);

    assert!(storage.cancel_job(id.clone()));
    assert!(storage.get(second).status == JobStatus::Canceled);
    assert!(storage.get(first).status == JobStatus::Created);
    assert_eq!(storage.len(), 2);
}

#[test]
fn control_operations_apply_whatever_the_current_status() {
    let mut storage = StorageService::new();
    let handle = storage.add_job(job("/a", "/b"));
    let id = text(storage.get(handle).id);
    storage.update_job_status(handle, JobStatus::Completed);
    assert!(storage.suspend_job(id.clone()));
    assert!(storage.get(handle).status == JobStatus::Suspended);
    storage.update_job_status(handle, JobStatus::Failed("broken".to_string()));
    assert!(storage.cancel_job(id.clone()));
    assert!(storage.get(handle).status == JobStatus::Canceled);
    assert!(storage.suspend_job(id));
    assert!(storage.get(handle).status == JobStatus::Suspended);
}

#[test]
fn cancel_leaves_the_writes_unchanged() {
    let mut storage = StorageService::new();
    let handle = storage.add_job(job("/a", "/b"));
    storage.increment_job_writes(handle);
    storage.increment_job_writes(handle);
    storage.increment_job_writes(handle);
    let id = text(storage.get(handle).id);
    assert!(storage.cancel_job(id));
    assert_eq!(storage.get(handle).writes, 3);
    assert_eq!(storage.get(handle).source, "/a");
    assert_eq!(storage.get(handle).destination, "/b");
}

#[test]
fn increment_job_writes_counts_one() {
    let mut storage = StorageService::new();
    let first = storage.add_job(job("/a", "/b"));
    let second = storage.add_job(job("/c", "/d"));
    storage.increment_job_writes(second);
    storage.increment_job_writes(second);
    assert_eq!(storage.get(second).writes, 2);
    assert_eq!(storage.get(first).writes, 0);
    assert!(storage.get(second).status == JobStatus::Created);
}

#[test]
fn update_job_status_overwrites_one_field() {
    let mut storage = StorageService::new();
    let handle = storage.add_job(job("/a", "/b"));
    storage.increment_job_writes(handle);
    storage.update_job_status(handle, JobStatus::Failed("disk full".to_string()));
    assert!(storage.get(handle).status == JobStatus::Failed("disk full".to_string()));
    assert!(storage.get(handle).status != JobStatus::Failed("other".to_string()));
    assert_eq!(storage.get(handle).writes, 1);
}

#[test]
fn jobs_is_a_snapshot() {
    let mut storage = StorageService::new();
    let handle = storage.add_job(job("/a", "/b"));
    let snapshot = storage.jobs();
    storage.update_job_status(handle, JobStatus::Running);
    storage.increment_job_writes(handle);
    storage.add_job(job("/c", "/d"));
    assert_eq!(snapshot.len(), 1);
    assert!(snapshot[0].status == JobStatus::Created);
    assert_eq!(snapshot[0].writes, 0);
    assert_eq!(storage.jobs().len(), 2);
    assert!(storage.jobs()[0].status == JobStatus::Running);
}

#[test]
fn jobs_are_listed_in_order_of_registration() {
    let mut storage = StorageService::new();
    for name in ["/one", "/two", "/three"] {
        storage.add_job(job(name, "/d"));
    }
    let sources: Vec<String> = storage.jobs().iter().map(|job| job.source.clone()).collect();
    assert_eq!(sources, vec!["/one", "/two", "/three"]);
}

#[test]
fn terminal_states() {
    assert!(!JobStatus::Created.is_terminal());
    assert!(!JobStatus::Running.is_terminal());
    assert!(!JobStatus::Suspended.is_terminal());
    assert!(JobStatus::Canceled.is_terminal());
    assert!(JobStatus::Completed.is_terminal());
    assert!(JobStatus::Failed("x".to_string()).is_terminal());
}

#[test]
fn lifecycle_edges() {
    let all = || {
        vec![
            JobStatus::Created,
            JobStatus::Running,
            JobStatus::Suspended,
            JobStatus::Canceled,
            JobStatus::Completed,
            JobStatus::Failed("x".to_string()),
        ]
    };
    let expected = [
        [false, true, false, false, false, false],
        [false, false, true, true, true, true],
        [false, true, false, true, false, false],
        [false, false, false, false, false, false],
        [false, false, false, false, false, false],
        [false, false, false, false, false, false],
    ];
    for (i, from) in all().iter().enumerate() {
        for (j, to) in all().iter().enumerate() {
            assert_eq!(from.can_transition_to(to), expected[i][j]);
        }
    }
}

#[test]
fn status_clone_and_equality() {
    let failed = JobStatus::Failed("disk full".to_string());
    assert!(failed.clone() == failed);
    assert!(JobStatus::Running.clone() == JobStatus::Running);
    assert!(JobStatus::Running != JobStatus::Suspended);
    assert!(failed != JobStatus::Canceled);
}

#[test]
fn job_clone_copies_every_field() {
    let job = Job::subjob(
        "/src/a".to_string(),
        "/dst/a".to_string(),
        3,
        vec!["/dst".to_string(), "/dst/sub".to_string()],
    );
    let copy = job.clone();
    assert_eq!(copy.id, job.id);
    assert_eq!(copy.source, "/src/a");
    assert_eq!(copy.destination, "/dst/a");
    assert!(copy.status == JobStatus::Created);
    assert_eq!(copy.writes, 0);
    assert_eq!(copy.parent, Some(3));
    assert_eq!(copy.destination_dirs, vec!["/dst", "/dst/sub"]);
}
