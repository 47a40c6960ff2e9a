//! The dispatch of the control surface: each request goes to the handler of
//! its kind.

use crate::client::handlers::{
    addresses, handle_cancel, handle_copy, handle_list, handle_progress, handle_resume,
    handle_suspend, overwritten, requested, size_at,
};
use crate::client::requests::AnyRequest;
use crate::client::responses::{
    shown, CancelResponse, CopyResponse, ErrorMessageResponse, JobResponse, ResumeResponse,
    SuspendResponse,
};
use crate::models::identity::{uuid_parse, uuid_text};
use crate::models::job::{Job, StatusView};
use crate::services::storage::{distinct_ids, JobHandle, StorageService};
use vstd::prelude::*;

verus! {

/// An answer of any kind.
#[derive(Debug)]
pub enum AnyResponse {
    Copy(CopyResponse),
    Suspend(SuspendResponse),
    Resume(ResumeResponse),
    Cancel(CancelResponse),
    Progress(JobResponse),
    List(Vec<JobResponse>),
    Error(ErrorMessageResponse),
}

/// What came of a request: the answer to send, and what is left to do for
/// the caller, who owns the channel to the dispatcher and the workers.
#[derive(Debug)]
pub struct Handled {
    /// The answer to the controller.
    pub response: AnyResponse,
    /// The job of a copy request, to be sent to the dispatcher.
    pub submitted: Option<Job>,
    /// The job that a resume request set Running, to be handed to a worker.
    pub resumed: Option<JobHandle>,
}

/// The front of the control surface, configured with the buffer size of the
/// engine, by which progress is computed.
pub struct Client {
    pub buffer_size: usize,
}

impl Client {
    /// A control surface for an engine with the given buffer size.
    pub fn new(buffer_size: usize) -> (client: Self)
        ensures
            client.buffer_size == buffer_size,
    {
        Client { buffer_size }
    }

    /// Serves one request against the registry.
    ///
    /// `sizes` holds, by position in the registry, the sizes of the jobs'
    /// sources in bytes as far as they could be determined; a position
    /// without an entry counts as undetermined.
    ///
    /// A copy request makes a job, which is returned for the dispatcher, and
    /// answers with the job's identifier. Suspend, cancel and resume
    /// overwrite the status of the addressed job and confirm; a resumed job
    /// is returned for the workers. Progress shows the addressed job, list
    /// shows all jobs in order. A request that addresses no job gets an
    /// error. Only suspend, cancel and resume change the registry.
    pub fn handle_request(
        &self,
        request: AnyRequest,
        storage: &mut StorageService,
        sizes: &Vec<Option<u64>>,
    ) -> (handled: Handled)
        ensures
            distinct_ids(final(storage)@),
            match request {
                AnyRequest::Copy(copy) => {
                    &&& final(storage)@ == old(storage)@
                    &&& handled.resumed is None
                    &&& handled.submitted matches Some(job)
                    &&& job@ == requested(job.id, copy.source_path@, copy.destination_path@)
                    &&& handled.response matches AnyResponse::Copy(answer)
                    &&& answer.job_id@ == uuid_text(job.id)
                    &&& uuid_parse(answer.job_id@) == Some(job.id)
                },
                AnyRequest::Suspend(suspend) => {
                    &&& final(storage)@ == overwritten(
                        old(storage)@,
                        suspend.job_id@,
                        StatusView::Suspended,
                    )
                    &&& handled.submitted is None
                    &&& handled.resumed is None
                    &&& match handled.response {
                        AnyResponse::Suspend(done) => addresses(old(storage)@, suspend.job_id@)
                            && done.message@ == "Job "@ + suspend.job_id@
                            + " suspended successfully"@,
                        AnyResponse::Error(error) => !addresses(old(storage)@, suspend.job_id@)
                            && error.message@ == "Could not suspend job "@ + suspend.job_id@,
                        _ => false,
                    }
                },
                AnyRequest::Cancel(cancel) => {
                    &&& final(storage)@ == overwritten(
                        old(storage)@,
                        cancel.job_id@,
                        StatusView::Canceled,
                    )
                    &&& handled.submitted is None
                    &&& handled.resumed is None
                    &&& match handled.response {
                        AnyResponse::Cancel(done) => addresses(old(storage)@, cancel.job_id@)
                            && done.message@ == "Job "@ + cancel.job_id@
                            + " cancelled successfully"@,
                        AnyResponse::Error(error) => !addresses(old(storage)@, cancel.job_id@)
                            && error.message@ == "Could not cancel job "@ + cancel.job_id@,
                        _ => false,
                    }
                },
                AnyRequest::Resume(resume) => {
                    &&& final(storage)@ == overwritten(
                        old(storage)@,
                        resume.job_id@,
                        StatusView::Running,
                    )
                    &&& handled.submitted is None
                    &&& match handled.response {
                        AnyResponse::Resume(done) => {
                            &&& addresses(old(storage)@, resume.job_id@)
                            &&& done.message@ == "Job "@ + resume.job_id@
                                + " resumed successfully"@
                            &&& handled.resumed matches Some(handle)
                            &&& handle.index < old(storage)@.len()
                            &&& Some(old(storage)@[handle.index as int].id) == uuid_parse(
                                resume.job_id@,
                            )
                        },
                        AnyResponse::Error(error) => {
                            &&& !addresses(old(storage)@, resume.job_id@)
                            &&& error.message@ == "Could not resume job "@ + resume.job_id@
                            &&& handled.resumed is None
                        },
                        _ => false,
                    }
                },
                AnyRequest::Progress(progress) => {
                    &&& final(storage)@ == old(storage)@
                    &&& handled.submitted is None
                    &&& handled.resumed is None
                    &&& match handled.response {
                        AnyResponse::Progress(response) => addresses(
                            old(storage)@,
                            progress.job_id@,
                        ) && exists|i: int|
                            0 <= i < old(storage)@.len() && Some(old(storage)@[i].id)
                                == uuid_parse(progress.job_id@) && response@ == shown(
                                #[trigger] old(storage)@[i],
                                self.buffer_size,
                                size_at(sizes@, i),
                            ),
                        AnyResponse::Error(error) => !addresses(old(storage)@, progress.job_id@)
                            && error.message@ == "Could not find job "@ + progress.job_id@,
                        _ => false,
                    }
                },
                AnyRequest::List(_) => {
                    &&& final(storage)@ == old(storage)@
                    &&& handled.submitted is None
                    &&& handled.resumed is None
                    &&& handled.response matches AnyResponse::List(responses)
                    &&& responses@.len() == old(storage)@.len()
                    &&& forall|i: int|
                        0 <= i < responses@.len() ==> (#[trigger] responses@[i])@ == shown(
                            old(storage)@[i],
                            self.buffer_size,
                            size_at(sizes@, i),
                        )
                },
            },
    {
        match request {
            AnyRequest::Copy(copy) => {
                proof {
                    use_type_invariant(&*storage);
                }
                let (job, answer) = handle_copy(copy);
                Handled { response: AnyResponse::Copy(answer), submitted: Some(job), resumed: None }
            },
            AnyRequest::Suspend(suspend) => {
                let response = match handle_suspend(suspend, storage) {
                    Ok(done) => AnyResponse::Suspend(done),
                    Err(error) => AnyResponse::Error(error),
                };
                Handled { response, submitted: None, resumed: None }
            },
            AnyRequest::Cancel(cancel) => {
                let response = match handle_cancel(cancel, storage) {
                    Ok(done) => AnyResponse::Cancel(done),
                    Err(error) => AnyResponse::Error(error),
                };
                Handled { response, submitted: None, resumed: None }
            },
            AnyRequest::Resume(resume) => {
                let resumed = storage.lookup(resume.job_id.as_str());
                let response = match handle_resume(resume, storage) {
                    Ok(done) => AnyResponse::Resume(done),
                    Err(error) => AnyResponse::Error(error),
                };
                Handled { response, submitted: None, resumed }
            },
            AnyRequest::Progress(progress) => {
                let size = match storage.lookup(progress.job_id.as_str()) {
                    Some(handle) => if handle.index < sizes.len() {
                        sizes[handle.index]
                    } else {
                        None
                    },
                    None => None,
                };
                let response = match handle_progress(progress, storage, self.buffer_size, size) {
                    Ok(response) => AnyResponse::Progress(response),
                    Err(error) => AnyResponse::Error(error),
                };
                Handled { response, submitted: None, resumed: None }
            },
            AnyRequest::List(_) => {
                let jobs = storage.jobs();
                let responses = handle_list(&jobs, sizes, self.buffer_size);
                Handled { response: AnyResponse::List(responses), submitted: None, resumed: None }
            },
        }
    }
}

} // verus!
