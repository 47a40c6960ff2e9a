//! A job is one source-to-destination file copy and its mutable progress.

use crate::models::identity::random_id;
use crate::text::{clone_texts, texts};
use vstd::prelude::*;

verus! {

/// The mathematical value of a [`JobStatus`].
pub enum StatusView {
    Created,
    Running,
    Suspended,
    Canceled,
    Completed,
    Failed(Seq<char>),
}

impl StatusView {
    /// Canceled, Completed and Failed admit no further transition.
    pub open spec fn is_terminal(self) -> bool {
        self is Canceled || self is Completed || self is Failed
    }

    /// The edges of the lifecycle graph.
    pub open spec fn can_transition_to(self, next: StatusView) -> bool {
        match self {
            StatusView::Created => next is Running,
            StatusView::Running => next is Suspended || next is Canceled || next is Completed
                || next is Failed,
            StatusView::Suspended => next is Running || next is Canceled,
            StatusView::Canceled => false,
            StatusView::Completed => false,
            StatusView::Failed(_) => false,
        }
    }
}

/// The lifecycle state of a job.
#[derive(Debug)]
pub enum JobStatus {
    Created,
    Running,
    Suspended,
    Canceled,
    Completed,
    Failed(String),
}

impl View for JobStatus {
    type V = StatusView;

    open spec fn view(&self) -> StatusView {
        match self {
            JobStatus::Created => StatusView::Created,
            JobStatus::Running => StatusView::Running,
            JobStatus::Suspended => StatusView::Suspended,
            JobStatus::Canceled => StatusView::Canceled,
            JobStatus::Completed => StatusView::Completed,
            JobStatus::Failed(message) => StatusView::Failed(message@),
        }
    }
}

impl Clone for JobStatus {
    fn clone(&self) -> (copy: Self)
        ensures
            copy@ == self@,
    {
        match self {
            JobStatus::Created => JobStatus::Created,
            JobStatus::Running => JobStatus::Running,
            JobStatus::Suspended => JobStatus::Suspended,
            JobStatus::Canceled => JobStatus::Canceled,
            JobStatus::Completed => JobStatus::Completed,
            JobStatus::Failed(message) => JobStatus::Failed(message.clone()),
        }
    }
}

impl PartialEq for JobStatus {
    fn eq(&self, other: &Self) -> (same: bool) {
        match (self, other) {
            (JobStatus::Created, JobStatus::Created) => true,
            (JobStatus::Running, JobStatus::Running) => true,
            (JobStatus::Suspended, JobStatus::Suspended) => true,
            (JobStatus::Canceled, JobStatus::Canceled) => true,
            (JobStatus::Completed, JobStatus::Completed) => true,
            (JobStatus::Failed(a), JobStatus::Failed(b)) => *a == *b,
            _ => false,
        }
    }
}

impl vstd::std_specs::cmp::PartialEqSpecImpl for JobStatus {
    open spec fn obeys_eq_spec() -> bool {
        true
    }

    open spec fn eq_spec(&self, other: &Self) -> bool {
        self@ == other@
    }
}

impl JobStatus {
    /// Whether no further transition is permitted from this state.
    pub fn is_terminal(&self) -> (terminal: bool)
        ensures
            terminal == self@.is_terminal(),
    {
        match self {
            JobStatus::Canceled => true,
            JobStatus::Completed => true,
            JobStatus::Failed(_) => true,
            _ => false,
        }
    }

    /// Whether the lifecycle graph has an edge from this state to `next`.
    pub fn can_transition_to(&self, next: &JobStatus) -> (allowed: bool)
        ensures
            allowed == self@.can_transition_to(next@),
    {
        match self {
            JobStatus::Created => matches!(next, JobStatus::Running),
            JobStatus::Running => matches!(
                next,
                JobStatus::Suspended | JobStatus::Canceled | JobStatus::Completed
                    | JobStatus::Failed(_)
            ),
            JobStatus::Suspended => matches!(next, JobStatus::Running | JobStatus::Canceled),
            _ => false,
        }
    }
}

/// The mathematical value of a [`Job`].
pub struct JobView {
    pub id: u128,
    pub source: Seq<char>,
    pub destination: Seq<char>,
    pub status: StatusView,
    pub writes: u64,
    pub parent: Option<u128>,
    pub destination_dirs: Seq<Seq<char>>,
}

impl JobView {
    /// The job with another status and everything else as it is.
    pub open spec fn with_status(self, status: StatusView) -> JobView {
        JobView { status, ..self }
    }

    /// The job with another write count and everything else as it is.
    pub open spec fn with_writes(self, writes: u64) -> JobView {
        JobView { writes, ..self }
    }

    /// The job with another identifier and everything else as it is.
    pub open spec fn with_id(self, id: u128) -> JobView {
        JobView { id, ..self }
    }
}

/// One file-to-file copy operation.
#[derive(Debug)]
pub struct Job {
    /// The identifier under which the job is addressed.
    pub id: u128,
    /// The path of the file to read.
    pub source: String,
    /// The path of the file to append to.
    pub destination: String,
    /// The current lifecycle state.
    pub status: JobStatus,
    /// The number of buffer-sized writes completed against the destination;
    /// also the resume cursor, counted in buffers.
    pub writes: u64,
    /// The identifier of the job whose expansion produced this one.
    pub parent: Option<u128>,
    /// The directories that must exist before the destination is written.
    pub destination_dirs: Vec<String>,
}

impl View for Job {
    type V = JobView;

    open spec fn view(&self) -> JobView {
        JobView {
            id: self.id,
            source: self.source@,
            destination: self.destination@,
            status: self.status@,
            writes: self.writes,
            parent: self.parent,
            destination_dirs: texts(self.destination_dirs@),
        }
    }
}

impl Clone for Job {
    fn clone(&self) -> (copy: Self)
        ensures
            copy@ == self@,
    {
        Job {
            id: self.id,
            source: self.source.clone(),
            destination: self.destination.clone(),
            status: self.status.clone(),
            writes: self.writes,
            parent: self.parent,
            destination_dirs: clone_texts(&self.destination_dirs),
        }
    }
}

impl Job {
    /// A job as a copy request produces it: a fresh random identifier, state
    /// Created, nothing written, no parent and no directories to prepare.
    pub fn new(source: String, destination: String) -> (job: Job)
        ensures
            job@ == (JobView {
                id: job.id,
                source: source@,
                destination: destination@,
                status: StatusView::Created,
                writes: 0,
                parent: None,
                destination_dirs: Seq::empty(),
            }),
    {
        let job = Job {
            id: random_id(),
            source,
            destination,
            status: JobStatus::Created,
            writes: 0,
            parent: None,
            destination_dirs: Vec::new(),
        };
        assert(texts(job.destination_dirs@) =~= Seq::<Seq<char>>::empty());
        job
    }

    /// A job as directory expansion produces it: like a new job, with a
    /// back-reference to the expanded job and the directories that its
    /// destination needs.
    pub fn subjob(
        source: String,
        destination: String,
        parent: u128,
        destination_dirs: Vec<String>,
    ) -> (job: Job)
        ensures
            job@ == (JobView {
                id: job.id,
                source: source@,
                destination: destination@,
                status: StatusView::Created,
                writes: 0,
                parent: Some(parent),
                destination_dirs: texts(destination_dirs@),
            }),
    {
        Job {
            id: random_id(),
            source,
            destination,
            status: JobStatus::Created,
            writes: 0,
            parent: Some(parent),
            destination_dirs,
        }
    }
}

} // verus!
