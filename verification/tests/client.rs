use copy_daemon::client::client::{AnyResponse, Client};
use copy_daemon::client::handlers::{
    handle_cancel, handle_copy, handle_error, handle_list, handle_progress, handle_resume,
    handle_suspend,
};
use copy_daemon::client::requests::{
    AnyRequest, CancelJobRequest, CopyJobRequest, JobRequest, JobRequestType, ListJobsRequest,
    ProgressJobRequest, ResumeJobRequest, SuspendJobRequest,
};
use copy_daemon::client::responses::{JobResponse, Ratio};
use copy_daemon::models::job::{Job, JobStatus};
use copy_daemon::services::storage::StorageService;

fn base(request_type: JobRequestType) -> JobRequest {
    JobRequest { request_type }
}

fn registry() -> (StorageService, String) {
    let mut storage = StorageService::new();
    let mut job = Job::new("/src/a".to_string(), "/dst/a".to_string());
    job.id = 0xa1a2a3a4_b1b2_c1c2_d1d2_d3d4d5d6d7d8;
    storage.add_job(job);
    (storage, "a1a2a3a4-b1b2-c1c2-d1d2-d3d4d5d6d7d8".to_string())
}

const UNKNOWN: &str = "00000000-0000-0000-0000-000000000001";

#[test]
fn copy_makes_a_job_and_answers_with_its_identifier() {
    let request = CopyJobRequest {
        base: base(JobRequestType::Copy),
        source_path: "/src/a".to_string(),
        destination_path: "/dst/a".to_string(),
    };
    let (job, response) = handle_copy(request);
    assert_eq!(job.source, "/src/a");
    assert_eq!(job.destination, "/dst/a");
    assert!(job.status == JobStatus::Created);
    assert_eq!(job.writes, 0);
    assert_eq!(job.parent, None);
    assert!(job.destination_dirs.is_empty());
    assert_eq!(response.job_id, uuid::Uuid::from_u128(job.id).to_string());
    assert_eq!(response.job_id.len(), 36);
    assert_eq!(uuid::Uuid::parse_str(&response.job_id).unwrap().as_u128(), job.id);
}

#[test]
fn submitted_job_is_addressed_by_the_identifier_in_the_answer() {
    let request = CopyJobRequest {
        base: base(JobRequestType::Copy),
        source_path: "/src/a".to_string(),
        destination_path: "/dst/a".to_string(),
    };
    let (job, response) = handle_copy(request);
    let mut storage = StorageService::new();
    storage.add_job(job);
    assert_eq!(storage.lookup(&response.job_id).map(|handle| handle.index), Some(0));
    assert!(storage.suspend_job(response.job_id));
}

#[test]
fn suspend_confirms_or_says_that_it_could_not() {
    let (mut storage, id) = registry();
    let request = SuspendJobRequest { base: base(JobRequestType::Suspend), job_id: id.clone() };
    let answer = handle_suspend(request, &mut storage);
    assert_eq!(
        answer.unwrap().message,
        "Job a1a2a3a4-b1b2-c1c2-d1d2-d3d4d5d6d7d8 suspended successfully"
    );
    assert!(storage.jobs()[0].status == JobStatus::Suspended);

    let request =
        SuspendJobRequest { base: base(JobRequestType::Suspend), job_id: UNKNOWN.to_string() };
    let answer = handle_suspend(request, &mut storage);
    assert_eq!(
        answer.unwrap_err().message,
        "Could not suspend job 00000000-0000-0000-0000-000000000001"
    );
}

#[test]
fn cancel_confirms_or_says_that_it_could_not() {
    let (mut storage, id) = registry();
    let request = CancelJobRequest { base: base(JobRequestType::Cancel), job_id: id.clone() };
    let answer = handle_cancel(request, &mut storage);
    assert_eq!(
        answer.unwrap().message,
        "Job a1a2a3a4-b1b2-c1c2-d1d2-d3d4d5d6d7d8 cancelled successfully"
    );
    assert!(storage.jobs()[0].status == JobStatus::Canceled);

    let request = CancelJobRequest { base: base(JobRequestType::Cancel), job_id: "x".to_string() };
    let answer = handle_cancel(request, &mut storage);
    assert_eq!(answer.unwrap_err().message, "Could not cancel job x");
    assert!(storage.jobs()[0].status == JobStatus::Canceled);
}

#[test]
fn resume_confirms_or_says_that_it_could_not() {
    let (mut storage, id) = registry();
    assert!(storage.suspend_job(id.clone()));
    let request = ResumeJobRequest { base: base(JobRequestType::Resume), job_id: id.clone() };
    let answer = handle_resume(request, &mut storage);
    assert_eq!(
        answer.unwrap().message,
        "Job a1a2a3a4-b1b2-c1c2-d1d2-d3d4d5d6d7d8 resumed successfully"
    );
    assert!(storage.jobs()[0].status == JobStatus::Running);

    let request = ResumeJobRequest { base: base(JobRequestType::Resume), job_id: String::new() };
    let answer = handle_resume(request, &mut storage);
    assert_eq!(answer.unwrap_err().message, "Could not resume job ");
}

#[test]
fn progress_shows_the_addressed_job() {
    let (mut storage, id) = registry();
    let handle = storage.lookup(&id).unwrap();
    storage.update_job_status(handle, JobStatus::Running);
    storage.increment_job_writes(handle);
    storage.increment_job_writes(handle);
    let request = ProgressJobRequest { base: base(JobRequestType::Progress), job_id: id.clone() };
    let response = handle_progress(request, &storage, 10, Some(80)).unwrap();
    assert_eq!(response.id, id);
    assert_eq!(response.source, "/src/a");
    assert_eq!(response.destination, "/dst/a");
    assert_eq!(response.status, "Running");
    assert_eq!(response.writes, 2);
    assert_eq!(response.percentage, Ratio { part: 20, whole: 80 });
}

#[test]
fn progress_of_an_unknown_job_is_an_error() {
    let (storage, _) = registry();
    let request =
        ProgressJobRequest { base: base(JobRequestType::Progress), job_id: UNKNOWN.to_string() };
    let answer = handle_progress(request, &storage, 10, Some(80));
    assert_eq!(
        answer.unwrap_err().message,
        "Could not find job 00000000-0000-0000-0000-000000000001"
    );
}

#[test]
fn percentage_never_exceeds_one() {
    let exact = JobResponse::percentage(3, 10, Some(30));
    assert_eq!(exact, Ratio { part: 1, whole: 1 });
    let overshoot = JobResponse::percentage(4, 10, Some(35));
    assert_eq!(overshoot, Ratio { part: 1, whole: 1 });
    let huge = JobResponse::percentage(u64::MAX, usize::MAX, Some(5));
    assert_eq!(huge, Ratio { part: 1, whole: 1 });
    for writes in 0..50u64 {
        for size in [0u64, 1, 7, 99, 100, 101, 1000] {
            let ratio = JobResponse::percentage(writes, 10, Some(size));
            assert!(ratio.whole > 0);
            assert!(ratio.part <= ratio.whole);
            assert!(ratio.part as f64 / ratio.whole as f64 <= 1.0);
        }
    }
}

#[test]
fn percentage_is_writes_times_buffer_size_over_source_size() {
    assert_eq!(JobResponse::percentage(0, 10, Some(35)), Ratio { part: 0, whole: 35 });
    assert_eq!(JobResponse::percentage(1, 10, Some(35)), Ratio { part: 10, whole: 35 });
    assert_eq!(JobResponse::percentage(3, 10, Some(35)), Ratio { part: 30, whole: 35 });
    assert_eq!(JobResponse::percentage(2, 4096, Some(16384)), Ratio { part: 8192, whole: 16384 });
    let ratio = JobResponse::percentage(2, 4096, Some(16384));
    assert_eq!(ratio.part as f64 / ratio.whole as f64, 0.5);
}

#[test]
fn percentage_is_zero_where_the_size_is_unknown() {
    assert_eq!(JobResponse::percentage(0, 10, None), Ratio { part: 0, whole: 1 });
    assert_eq!(JobResponse::percentage(12, 10, None), Ratio { part: 0, whole: 1 });
}

#[test]
fn status_is_shown_by_name_or_by_the_reason_of_the_failure() {
    let mut job = Job::new("/a".to_string(), "/b".to_string());
    let cases = vec![
        (JobStatus::Created, "Created"),
        (JobStatus::Running, "Running"),
        (JobStatus::Suspended, "Suspended"),
        (JobStatus::Canceled, "Canceled"),
        (JobStatus::Completed, "Completed"),
        (JobStatus::Failed("Source path does not exist".to_string()), "failed: Source path does not exist"),
        (JobStatus::Failed(String::new()), "failed: "),
    ];
    for (status, text) in cases {
        job.status = status;
        assert_eq!(JobResponse::from_job(&job, 8, None).status, text);
    }
}

#[test]
fn list_shows_every_job_in_order() {
    let mut storage = StorageService::new();
    let first = storage.add_job(Job::new("/one".to_string(), "/d/one".to_string()));
    let second = storage.add_job(Job::new("/two".to_string(), "/d/two".to_string()));
    storage.add_job(Job::new("/three".to_string(), "/d/three".to_string()));
    storage.update_job_status(first, JobStatus::Completed);
    storage.update_job_status(second, JobStatus::Failed("gone".to_string()));
    storage.increment_job_writes(first);
    let jobs = storage.jobs();
    let responses = handle_list(&jobs, &vec![Some(4), None], 8);
    assert_eq!(responses.len(), 3);
    assert_eq!(responses[0].id, uuid::Uuid::from_u128(jobs[0].id).to_string());
    assert_eq!(responses[0].source, "/one");
    assert_eq!(responses[0].destination, "/d/one");
    assert_eq!(responses[0].status, "Completed");
    assert_eq!(responses[0].writes, 1);
    assert_eq!(responses[0].percentage, Ratio { part: 1, whole: 1 });
    assert_eq!(responses[1].status, "failed: gone");
    assert_eq!(responses[1].percentage, Ratio { part: 0, whole: 1 });
    assert_eq!(responses[2].source, "/three");
    assert_eq!(responses[2].status, "Created");
    assert_eq!(responses[2].percentage, Ratio { part: 0, whole: 1 });
}

#[test]
fn list_of_nothing_is_empty() {
    assert!(handle_list(&Vec::new(), &Vec::new(), 8).is_empty());
}

#[test]
fn error_carries_the_reason() {
    assert_eq!(handle_error("Failed to deserialize request_type".to_string()).message,
        "Failed to deserialize request_type");
}

#[test]
fn request_is_well_formed_where_it_declares_its_own_kind() {
    let good = AnyRequest::List(ListJobsRequest { base: base(JobRequestType::List) });
    let bad = AnyRequest::List(ListJobsRequest { base: base(JobRequestType::Copy) });
    assert!(good.is_well_formed());
    assert!(!bad.is_well_formed());
    let suspend = AnyRequest::Suspend(SuspendJobRequest {
        base: base(JobRequestType::Suspend),
        job_id: String::new(),
    });
    assert!(suspend.is_well_formed());
    let resume = AnyRequest::Resume(ResumeJobRequest {
        base: base(JobRequestType::Cancel),
        job_id: String::new(),
    });
    assert!(!resume.is_well_formed());
}

#[test]
fn dispatch_of_a_copy_request_returns_the_job_for_the_dispatcher() {
    let client = Client::new(8);
    let mut storage = StorageService::new();
    let request = AnyRequest::Copy(CopyJobRequest {
        base: base(JobRequestType::Copy),
        source_path: "/src".to_string(),
        destination_path: "/dst".to_string(),
    });
    let handled = client.handle_request(request, &mut storage, &Vec::new());
    let job = handled.submitted.unwrap();
    assert_eq!(job.source, "/src");
    assert_eq!(job.destination, "/dst");
    assert!(handled.resumed.is_none());
    assert_eq!(storage.len(), 0);
    match handled.response {
        AnyResponse::Copy(answer) => {
            assert_eq!(answer.job_id, uuid::Uuid::from_u128(job.id).to_string())
        }
        other => panic!("unexpected answer {:?}", other),
    }
}

#[test]
fn dispatch_of_control_requests() {
    let client = Client::new(8);
    let (mut storage, id) = registry();

    let suspend = AnyRequest::Suspend(SuspendJobRequest {
        base: base(JobRequestType::Suspend),
        job_id: id.clone(),
    });
    let handled = client.handle_request(suspend, &mut storage, &Vec::new());
    assert!(matches!(handled.response, AnyResponse::Suspend(_)));
    assert!(handled.submitted.is_none() && handled.resumed.is_none());
    assert!(storage.jobs()[0].status == JobStatus::Suspended);

    let resume = AnyRequest::Resume(ResumeJobRequest {
        base: base(JobRequestType::Resume),
        job_id: id.clone(),
    });
    let handled = client.handle_request(resume, &mut storage, &Vec::new());
    match handled.response {
        AnyResponse::Resume(done) => assert_eq!(
            done.message,
            "Job a1a2a3a4-b1b2-c1c2-d1d2-d3d4d5d6d7d8 resumed successfully"
        ),
        other => panic!("unexpected answer {:?}", other),
    }
    assert_eq!(handled.resumed.map(|handle| handle.index), Some(0));
    assert!(storage.jobs()[0].status == JobStatus::Running);

    let cancel = AnyRequest::Cancel(CancelJobRequest {
        base: base(JobRequestType::Cancel),
        job_id: id.clone(),
    });
    let handled = client.handle_request(cancel, &mut storage, &Vec::new());
    assert!(matches!(handled.response, AnyResponse::Cancel(_)));
    assert!(handled.resumed.is_none());
    assert!(storage.jobs()[0].status == JobStatus::Canceled);
}

#[test]
fn dispatch_of_requests_that_address_no_job() {
    let client = Client::new(8);
    let (mut storage, _) = registry();
    let requests = vec![
        (
            AnyRequest::Suspend(SuspendJobRequest {
                base: base(JobRequestType::Suspend),
                job_id: UNKNOWN.to_string(),
            }),
            "Could not suspend job 00000000-0000-0000-0000-000000000001",
        ),
        (
            AnyRequest::Cancel(CancelJobRequest {
                base: base(JobRequestType::Cancel),
                job_id: UNKNOWN.to_string(),
            }),
            "Could not cancel job 00000000-0000-0000-0000-000000000001",
        ),
        (
            AnyRequest::Resume(ResumeJobRequest {
                base: base(JobRequestType::Resume),
                job_id: UNKNOWN.to_string(),
            }),
            "Could not resume job 00000000-0000-0000-0000-000000000001",
        ),
        (
            AnyRequest::Progress(ProgressJobRequest {
                base: base(JobRequestType::Progress),
                job_id: UNKNOWN.to_string(),
            }),
            "Could not find job 00000000-0000-0000-0000-000000000001",
        ),
    ];
    for (request, message) in requests {
        let handled = client.handle_request(request, &mut storage, &vec![Some(5)]);
        assert!(handled.submitted.is_none() && handled.resumed.is_none());
        match handled.response {
            AnyResponse::Error(error) => assert_eq!(error.message, message),
            other => panic!("unexpected answer {:?}", other),
        }
        assert!(storage.jobs()[0].status == JobStatus::Created);
    }
}

#[test]
fn dispatch_of_progress_and_list_takes_the_sizes_by_position() {
    let client = Client::new(10);
    let (mut storage, id) = registry();
    let second = storage.add_job(Job::new("/src/b".to_string(), "/dst/b".to_string()));
    storage.increment_job_writes(second);
    let sizes = vec![Some(100), Some(40)];

    let progress = AnyRequest::Progress(ProgressJobRequest {
        base: base(JobRequestType::Progress),
        job_id: uuid::Uuid::from_u128(storage.get(second).id).to_string(),
    });
    let handled = client.handle_request(progress, &mut storage, &sizes);
    match handled.response {
        AnyResponse::Progress(response) => {
            assert_eq!(response.source, "/src/b");
            assert_eq!(response.percentage, Ratio { part: 10, whole: 40 });
        }
        other => panic!("unexpected answer {:?}", other),
    }

    let progress = AnyRequest::Progress(ProgressJobRequest {
        base: base(JobRequestType::Progress),
        job_id: id,
    });
    let handled = client.handle_request(progress, &mut storage, &Vec::new());
    match handled.response {
        AnyResponse::Progress(response) => {
            assert_eq!(response.source, "/src/a");
            assert_eq!(response.percentage, Ratio { part: 0, whole: 1 });
        }
        other => panic!("unexpected answer {:?}", other),
    }

    let list = AnyRequest::List(ListJobsRequest { base: base(JobRequestType::List) });
    let handled = client.handle_request(list, &mut storage, &sizes);
    match handled.response {
        AnyResponse::List(responses) => {
            assert_eq!(responses.len(), 2);
            assert_eq!(responses[0].percentage, Ratio { part: 0, whole: 100 });
            assert_eq!(responses[1].percentage, Ratio { part: 10, whole: 40 });
            assert_eq!(responses[1].writes, 1);
        }
        other => panic!("unexpected answer {:?}", other),
    }
    assert_eq!(storage.len(), 2);
}
