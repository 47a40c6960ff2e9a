//! The handlers of the control surface: one per kind of request.

use crate::client::requests::{
    CancelJobRequest, CopyJobRequest, ProgressJobRequest, ResumeJobRequest, SuspendJobRequest,
};
use crate::client::responses::{
    shown, CancelResponse, CopyResponse, ErrorMessageResponse, JobResponse, ResumeResponse,
    SuspendResponse,
};
use crate::models::identity::{id_text, uuid_parse, uuid_text};
use crate::models::job::{Job, JobView, StatusView};
use crate::services::storage::{distinct_ids, has_id, with_status_of, StorageService};
use vstd::prelude::*;
use vstd::string::StringExecFns;

verus! {

/// Whether a textual identifier addresses one of the jobs.
pub open spec fn addresses(jobs: Seq<JobView>, job_id: Seq<char>) -> bool {
    uuid_parse(job_id) matches Some(id) && has_id(jobs, id)
}

/// The jobs after the status of the addressed one, if there is one, was
/// overwritten.
pub open spec fn overwritten(jobs: Seq<JobView>, job_id: Seq<char>, status: StatusView) -> Seq<
    JobView,
> {
    match uuid_parse(job_id) {
        Some(id) => with_status_of(jobs, id, status),
        None => jobs,
    }
}

/// The job as a copy request for the two paths makes it, up to its
/// identifier.
pub open spec fn requested(id: u128, source: Seq<char>, destination: Seq<char>) -> JobView {
    JobView {
        id,
        source,
        destination,
        status: StatusView::Created,
        writes: 0,
        parent: None,
        destination_dirs: Seq::empty(),
    }
}

/// The size that is known for the source of the job at a position: the one
/// given for that position, none where none is given.
pub open spec fn size_at(sizes: Seq<Option<u64>>, index: int) -> Option<u64> {
    if 0 <= index < sizes.len() {
        sizes[index]
    } else {
        None
    }
}

/// Two texts with another one in between.
fn framed(before: &str, text: &String, after: &str) -> (whole: String)
    ensures
        whole@ == before@ + text@ + after@,
{
    String::from_str(before).concat(text.as_str()).concat(after)
}

/// A text behind another one.
fn prefixed(before: &str, text: &String) -> (whole: String)
    ensures
        whole@ == before@ + text@,
{
    String::from_str(before).concat(text.as_str())
}

/// Makes the job for a copy request and the answer that carries the job's
/// identifier. The job is not registered yet: it is handed to the
/// dispatcher.
pub fn handle_copy(request: CopyJobRequest) -> (outcome: (Job, CopyResponse))
    ensures
        outcome.0@ == requested(outcome.0.id, request.source_path@, request.destination_path@),
        outcome.1.job_id@ == uuid_text(outcome.0.id),
        uuid_parse(outcome.1.job_id@) == Some(outcome.0.id),
{
    let job = Job::new(request.source_path, request.destination_path);
    let job_id = id_text(job.id);
    (job, CopyResponse { job_id })
}

/// Suspends the addressed job, whatever its status, and confirms; or says
/// that there is no such job.
pub fn handle_suspend(request: SuspendJobRequest, storage: &mut StorageService) -> (answer: Result<
    SuspendResponse,
    ErrorMessageResponse,
>)
    ensures
        final(storage)@ == overwritten(old(storage)@, request.job_id@, StatusView::Suspended),
        match answer {
            Ok(done) => addresses(old(storage)@, request.job_id@) && done.message@ == "Job "@
                + request.job_id@ + " suspended successfully"@,
            Err(error) => !addresses(old(storage)@, request.job_id@) && error.message@
                == "Could not suspend job "@ + request.job_id@,
        },
        distinct_ids(final(storage)@),
{
    if storage.suspend_job(request.job_id.clone()) {
        Ok(SuspendResponse { message: framed("Job ", &request.job_id, " suspended successfully") })
    } else {
        Err(ErrorMessageResponse { message: prefixed("Could not suspend job ", &request.job_id) })
    }
}

/// Cancels the addressed job, whatever its status, and confirms; or says
/// that there is no such job.
pub fn handle_cancel(request: CancelJobRequest, storage: &mut StorageService) -> (answer: Result<
    CancelResponse,
    ErrorMessageResponse,
>)
    ensures
        final(storage)@ == overwritten(old(storage)@, request.job_id@, StatusView::Canceled),
        match answer {
            Ok(done) => addresses(old(storage)@, request.job_id@) && done.message@ == "Job "@
                + request.job_id@ + " cancelled successfully"@,
            Err(error) => !addresses(old(storage)@, request.job_id@) && error.message@
                == "Could not cancel job "@ + request.job_id@,
        },
        distinct_ids(final(storage)@),
{
    if storage.cancel_job(request.job_id.clone()) {
        Ok(CancelResponse { message: framed("Job ", &request.job_id, " cancelled successfully") })
    } else {
        Err(ErrorMessageResponse { message: prefixed("Could not cancel job ", &request.job_id) })
    }
}

/// Sets the addressed job Running, whatever its status, and confirms; or
/// says that there is no such job. The job still has to be handed to a
/// worker.
pub fn handle_resume(request: ResumeJobRequest, storage: &mut StorageService) -> (answer: Result<
    ResumeResponse,
    ErrorMessageResponse,
>)
    ensures
        final(storage)@ == overwritten(old(storage)@, request.job_id@, StatusView::Running),
        match answer {
            Ok(done) => addresses(old(storage)@, request.job_id@) && done.message@ == "Job "@
                + request.job_id@ + " resumed successfully"@,
            Err(error) => !addresses(old(storage)@, request.job_id@) && error.message@
                == "Could not resume job "@ + request.job_id@,
        },
        distinct_ids(final(storage)@),
{
    if storage.resume_job(request.job_id.clone()) {
        Ok(ResumeResponse { message: framed("Job ", &request.job_id, " resumed successfully") })
    } else {
        Err(ErrorMessageResponse { message: prefixed("Could not resume job ", &request.job_id) })
    }
}

/// Shows the addressed job, given the buffer size of the engine and the
/// size of the job's source where it can be determined; or says that there
/// is no such job.
pub fn handle_progress(
    request: ProgressJobRequest,
    storage: &StorageService,
    buffer_size: usize,
    source_size: Option<u64>,
) -> (answer: Result<JobResponse, ErrorMessageResponse>)
    ensures
        match answer {
            Ok(response) => addresses(storage@, request.job_id@) && exists|i: int|
                0 <= i < storage@.len() && Some(storage@[i].id) == uuid_parse(request.job_id@)
                    && response@ == shown(#[trigger] storage@[i], buffer_size, source_size),
            Err(error) => !addresses(storage@, request.job_id@) && error.message@
                == "Could not find job "@ + request.job_id@,
        },
        distinct_ids(storage@),
{
    match storage.lookup(request.job_id.as_str()) {
        Some(handle) => Ok(JobResponse::from_job(storage.get(handle), buffer_size, source_size)),
        None => Err(
            ErrorMessageResponse { message: prefixed("Could not find job ", &request.job_id) },
        ),
    }
}

/// Shows every job of a snapshot of the registry, in order, given the
/// buffer size of the engine and the sizes of the jobs' sources, position
/// by position, where they can be determined.
pub fn handle_list(jobs: &Vec<Job>, sizes: &Vec<Option<u64>>, buffer_size: usize) -> (responses: Vec<
    JobResponse,
>)
    ensures
        responses@.len() == jobs@.len(),
        forall|i: int|
            0 <= i < jobs@.len() ==> (#[trigger] responses@[i])@ == shown(
                jobs@[i]@,
                buffer_size,
                size_at(sizes@, i),
            ),
{
    let mut responses: Vec<JobResponse> = Vec::new();
    let mut i: usize = 0;
    while i < jobs.len()
        invariant
            i <= jobs.len(),
            responses@.len() == i,
            forall|k: int|
                0 <= k < i ==> (#[trigger] responses@[k])@ == shown(
                    jobs@[k]@,
                    buffer_size,
                    size_at(sizes@, k),
                ),
        decreases jobs.len() - i,
    {
        let size = if i < sizes.len() {
            sizes[i]
        } else {
            None
        };
        responses.push(JobResponse::from_job(&jobs[i], buffer_size, size));
        i += 1;
    }
    responses
}

/// Says that a request could not be served, with the given reason.
pub fn handle_error(message: String) -> (error: ErrorMessageResponse)
    ensures
        error.message@ == message@,
{
    ErrorMessageResponse { message }
}

} // verus!
