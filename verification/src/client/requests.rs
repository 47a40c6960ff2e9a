//! The requests of the control surface.

use vstd::prelude::*;

verus! {

/// The kinds of request.
#[derive(Clone, Copy, Debug, PartialEq, Eq, Structural)]
pub enum JobRequestType {
    Copy,
    Cancel,
    Suspend,
    Progress,
    List,
    Resume,
}

/// What every request carries: its kind.
#[derive(Debug)]
pub struct JobRequest {
    pub request_type: JobRequestType,
}

/// Asks for a file or a directory tree to be copied.
#[derive(Debug)]
pub struct CopyJobRequest {
    pub base: JobRequest,
    pub source_path: String,
    pub destination_path: String,
}

/// Asks for a job to be suspended.
#[derive(Debug)]
pub struct SuspendJobRequest {
    pub base: JobRequest,
    pub job_id: String,
}

/// Asks for a suspended job to go on.
#[derive(Debug)]
pub struct ResumeJobRequest {
    pub base: JobRequest,
    pub job_id: String,
}

/// Asks for a job to be canceled.
#[derive(Debug)]
pub struct CancelJobRequest {
    pub base: JobRequest,
    pub job_id: String,
}

/// Asks how far a job has come.
#[derive(Debug)]
pub struct ProgressJobRequest {
    pub base: JobRequest,
    pub job_id: String,
}

/// Asks for all jobs.
#[derive(Debug)]
pub struct ListJobsRequest {
    pub base: JobRequest,
}

/// A request of any kind.
#[derive(Debug)]
pub enum AnyRequest {
    Copy(CopyJobRequest),
    Suspend(SuspendJobRequest),
    Cancel(CancelJobRequest),
    Progress(ProgressJobRequest),
    List(ListJobsRequest),
    Resume(ResumeJobRequest),
}

impl AnyRequest {
    /// The kind that the request's variant stands for.
    pub open spec fn kind(self) -> JobRequestType {
        match self {
            AnyRequest::Copy(_) => JobRequestType::Copy,
            AnyRequest::Suspend(_) => JobRequestType::Suspend,
            AnyRequest::Cancel(_) => JobRequestType::Cancel,
            AnyRequest::Progress(_) => JobRequestType::Progress,
            AnyRequest::List(_) => JobRequestType::List,
            AnyRequest::Resume(_) => JobRequestType::Resume,
        }
    }

    /// The kind that the request itself declares.
    pub open spec fn declared_kind(self) -> JobRequestType {
        match self {
            AnyRequest::Copy(request) => request.base.request_type,
            AnyRequest::Suspend(request) => request.base.request_type,
            AnyRequest::Cancel(request) => request.base.request_type,
            AnyRequest::Progress(request) => request.base.request_type,
            AnyRequest::List(request) => request.base.request_type,
            AnyRequest::Resume(request) => request.base.request_type,
        }
    }

    /// Whether the request declares the kind that its variant stands for, as
    /// every request does that was read by its declared kind.
    pub fn is_well_formed(&self) -> (well_formed: bool)
        ensures
            well_formed == (self.kind() == self.declared_kind()),
    {
        match self {
            AnyRequest::Copy(request) => request.base.request_type == JobRequestType::Copy,
            AnyRequest::Suspend(request) => request.base.request_type == JobRequestType::Suspend,
            AnyRequest::Cancel(request) => request.base.request_type == JobRequestType::Cancel,
            AnyRequest::Progress(request) => request.base.request_type == JobRequestType::Progress,
            AnyRequest::List(request) => request.base.request_type == JobRequestType::List,
            AnyRequest::Resume(request) => request.base.request_type == JobRequestType::Resume,
        }
    }
}

} // verus!
