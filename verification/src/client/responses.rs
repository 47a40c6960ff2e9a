//! The answers of the control surface.

use crate::models::identity::{id_text, uuid_text};
use crate::models::job::{Job, JobStatus, JobView, StatusView};
use vstd::prelude::*;
use vstd::string::StringExecFns;

verus! {

/// Says that a request could not be served, and why.
#[derive(Debug)]
pub struct ErrorMessageResponse {
    pub message: String,
}

/// Answers a copy request with the identifier of its job.
#[derive(Debug)]
pub struct CopyResponse {
    pub job_id: String,
}

/// Confirms a suspension.
#[derive(Debug)]
pub struct SuspendResponse {
    pub message: String,
}

/// Confirms a resumption.
#[derive(Debug)]
pub struct ResumeResponse {
    pub message: String,
}

/// Confirms a cancellation.
#[derive(Debug)]
pub struct CancelResponse {
    pub message: String,
}

/// A part of a whole, both counted in bytes: the exact form of a
/// percentage. The whole is never zero.
#[derive(Clone, Copy, Debug, PartialEq, Eq, Structural)]
pub struct Ratio {
    pub part: u64,
    pub whole: u64,
}

/// A job as it is shown to a controller.
#[derive(Debug)]
pub struct JobResponse {
    pub id: String,
    pub source: String,
    pub destination: String,
    pub status: String,
    pub writes: u64,
    /// How much of the source has been copied.
    pub percentage: Ratio,
}

/// The mathematical value of a [`JobResponse`].
pub struct JobResponseView {
    pub id: Seq<char>,
    pub source: Seq<char>,
    pub destination: Seq<char>,
    pub status: Seq<char>,
    pub writes: u64,
    pub percentage: Ratio,
}

impl View for JobResponse {
    type V = JobResponseView;

    open spec fn view(&self) -> JobResponseView {
        JobResponseView {
            id: self.id@,
            source: self.source@,
            destination: self.destination@,
            status: self.status@,
            writes: self.writes,
            percentage: self.percentage,
        }
    }
}

/// Answers a progress request.
#[derive(Debug)]
pub struct ProgressResponse {
    pub job: JobResponse,
}

/// The text that shows a status: its name, or the reason of a failure.
pub open spec fn status_text(status: StatusView) -> Seq<char> {
    match status {
        StatusView::Created => "Created"@,
        StatusView::Running => "Running"@,
        StatusView::Suspended => "Suspended"@,
        StatusView::Canceled => "Canceled"@,
        StatusView::Completed => "Completed"@,
        StatusView::Failed(message) => "failed: "@ + message,
    }
}

/// How much of a source of the given size so many writes of the given buffer
/// size have copied: all of it as soon as the writes cover the source,
/// nothing where the size is not known.
pub open spec fn progress_ratio(writes: u64, buffer_size: usize, source_size: Option<u64>) -> Ratio {
    match source_size {
        Some(size) => if writes * buffer_size >= size {
            Ratio { part: 1, whole: 1 }
        } else {
            Ratio { part: (writes * buffer_size) as u64, whole: size }
        },
        None => Ratio { part: 0, whole: 1 },
    }
}

/// How a job is shown: its identifier as a text, its paths, its status as a
/// text, its write count and its progress.
pub open spec fn shown(job: JobView, buffer_size: usize, source_size: Option<u64>) -> JobResponseView {
    JobResponseView {
        id: uuid_text(job.id),
        source: job.source,
        destination: job.destination,
        status: status_text(job.status),
        writes: job.writes,
        percentage: progress_ratio(job.writes, buffer_size, source_size),
    }
}

/// The text that shows a status.
fn status_label(status: &JobStatus) -> (label: String)
    ensures
        label@ == status_text(status@),
{
    match status {
        JobStatus::Created => String::from_str("Created"),
        JobStatus::Running => String::from_str("Running"),
        JobStatus::Suspended => String::from_str("Suspended"),
        JobStatus::Canceled => String::from_str("Canceled"),
        JobStatus::Completed => String::from_str("Completed"),
        JobStatus::Failed(message) => String::from_str("failed: ").concat(message.as_str()),
    }
}

impl JobResponse {
    /// Shows a job, given the buffer size of the engine and the size of the
    /// job's source in bytes, where that can be determined.
    pub fn from_job(job: &Job, buffer_size: usize, source_size: Option<u64>) -> (response: Self)
        ensures
            response@ == shown(job@, buffer_size, source_size),
    {
        JobResponse {
            id: id_text(job.id),
            source: job.source.clone(),
            destination: job.destination.clone(),
            status: status_label(&job.status),
            writes: job.writes,
            percentage: Self::percentage(job.writes, buffer_size, source_size),
        }
    }

    /// The progress of a job as an exact ratio. The part never exceeds the
    /// whole, also where the last chunk overshoots the end of the source.
    pub fn percentage(writes: u64, buffer_size: usize, source_size: Option<u64>) -> (ratio: Ratio)
        ensures
            ratio == progress_ratio(writes, buffer_size, source_size),
            ratio.part <= ratio.whole,
            ratio.whole > 0,
    {
        match source_size {
            Some(size) => match writes.checked_mul(buffer_size as u64) {
                Some(copied) => if copied >= size {
                    Ratio { part: 1, whole: 1 }
                } else {
                    Ratio { part: copied, whole: size }
                },
                None => Ratio { part: 1, whole: 1 },
            },
            None => Ratio { part: 0, whole: 1 },
        }
    }
}

} // verus!
