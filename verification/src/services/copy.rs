//! The copy engine: the decisions of the resumable streaming copy, as a
//! function from a job and an event to the job's next state and the next
//! action. The worker that owns the files performs the actions.

use crate::models::copy::{CopyAction, CopyEvent, CopyEventView, IoFailure};
use crate::models::job::{JobStatus, JobView, StatusView};
use crate::services::storage::{distinct_ids, JobHandle, StorageService};
use crate::services::validate::{validate, validation};
use vstd::prelude::*;
use vstd::string::StringExecFns;

verus! {

/// The byte offset at which a job with so many completed writes resumes, as
/// far as it can be addressed.
pub open spec fn resume_offset(writes: u64, buffer_size: usize) -> Option<u64> {
    if writes * buffer_size <= u64::MAX {
        Some((writes * buffer_size) as u64)
    } else {
        None
    }
}

/// How a copy that must not go on is wound down: where the destination is
/// open it is flushed first.
pub open spec fn wind_down(event: CopyEventView) -> CopyAction {
    match event {
        CopyEventView::DestinationOpened(Ok(_)) => CopyAction::Pause,
        CopyEventView::ChunkRead(Ok(_)) => CopyAction::Pause,
        CopyEventView::ChunkWritten(Ok(_)) => CopyAction::Pause,
        _ => CopyAction::Stop,
    }
}

/// The reason for which an event fails the job, if it does.
pub open spec fn failure_reason(writes: u64, event: CopyEventView) -> Option<Seq<char>> {
    match event {
        CopyEventView::Validated(facts) => if validation(facts).0 {
            None
        } else {
            Some(validation(facts).1)
        },
        CopyEventView::DirectoryCreated(_, Err(failure)) => if failure.already_exists {
            None
        } else {
            Some(failure.message)
        },
        CopyEventView::SourceOpened(Err(failure)) => Some(failure.message),
        CopyEventView::DestinationOpened(Err(failure)) => Some(failure.message),
        CopyEventView::ChunkRead(Err(failure)) => Some(failure.message),
        CopyEventView::ChunkWritten(Err(failure)) => Some(
            "Error writing to destination file: "@ + failure.message,
        ),
        CopyEventView::ChunkWritten(Ok(_)) => if writes == u64::MAX {
            Some("Write count is out of range"@)
        } else {
            None
        },
        CopyEventView::Finished(Err(failure)) => Some(failure.message),
        CopyEventView::Paused(Err(failure)) => Some(failure.message),
        _ => None,
    }
}

/// The job with a successful write counted, where the event reports one.
pub open spec fn counted(job: JobView, event: CopyEventView) -> JobView {
    match event {
        CopyEventView::ChunkWritten(Ok(_)) => job.with_writes((job.writes + 1) as u64),
        _ => job,
    }
}

/// What follows once the directories before the index are in place: the
/// next directory, or the source at the job's resume offset.
pub open spec fn after_directories(job: JobView, index: int, buffer_size: usize) -> (
    JobView,
    CopyAction,
) {
    if index < job.destination_dirs.len() {
        (job, CopyAction::CreateDirectory(index as usize))
    } else {
        match resume_offset(job.writes, buffer_size) {
            Some(offset) => (job, CopyAction::OpenSource(offset)),
            None => (
                job.with_status(StatusView::Failed("Resume offset is out of range"@)),
                CopyAction::Stop,
            ),
        }
    }
}

/// The step of a running job on an event that does not fail it.
pub open spec fn progress(job: JobView, buffer_size: usize, event: CopyEventView) -> (
    JobView,
    CopyAction,
) {
    match event {
        CopyEventView::Dispatched => (job, CopyAction::Validate),
        CopyEventView::Validated(_) => after_directories(job, 0, buffer_size),
        CopyEventView::DirectoryCreated(index, _) => after_directories(
            job,
            index + 1,
            buffer_size,
        ),
        CopyEventView::SourceOpened(_) => (job, CopyAction::OpenDestination),
        CopyEventView::DestinationOpened(_) => (job, CopyAction::ReadChunk(buffer_size)),
        CopyEventView::ChunkRead(outcome) => match outcome {
            Ok(length) => if length == 0 {
                (job, CopyAction::Finish)
            } else {
                (job, CopyAction::WriteChunk(length))
            },
            Err(_) => (job, CopyAction::Stop),
        },
        CopyEventView::ChunkWritten(_) => (counted(job, event), CopyAction::ReadChunk(buffer_size)),
        CopyEventView::Finished(_) => (job.with_status(StatusView::Completed), CopyAction::Stop),
        CopyEventView::Paused(_) => (job, CopyAction::Stop),
    }
}

/// One step of the engine: the job after the event, and the next action.
///
/// A job in a terminal state is never changed. A worker that takes up any
/// other job sets it Running. After that, an event that reports a failure
/// fails the job; a job that is no longer Running is wound down, with a
/// completed write still counted; a Running job moves on.
pub open spec fn step(job: JobView, buffer_size: usize, event: CopyEventView) -> (
    JobView,
    CopyAction,
) {
    if job.status.is_terminal() {
        (job, wind_down(event))
    } else if event is Dispatched {
        (job.with_status(StatusView::Running), CopyAction::Validate)
    } else if failure_reason(job.writes, event) is Some {
        (job.with_status(StatusView::Failed(failure_reason(job.writes, event)->0)), CopyAction::Stop)
    } else if !(job.status is Running) {
        (counted(job, event), wind_down(event))
    } else {
        progress(job, buffer_size, event)
    }
}

/// Computes how a copy that must not go on is wound down.
fn wind_down_action(event: &CopyEvent) -> (action: CopyAction)
    ensures
        action == wind_down(event@),
{
    match event {
        CopyEvent::DestinationOpened(Ok(_)) => CopyAction::Pause,
        CopyEvent::ChunkRead(Ok(_)) => CopyAction::Pause,
        CopyEvent::ChunkWritten(Ok(_)) => CopyAction::Pause,
        _ => CopyAction::Stop,
    }
}

/// The message of a failure, where the outcome is one.
fn failure_message(outcome: &Result<(), IoFailure>) -> (message: Option<String>)
    ensures
        match outcome {
            Ok(_) => message is None,
            Err(failure) => message is Some && message->0@ == failure.message@,
        },
{
    match outcome {
        Ok(_) => None,
        Err(failure) => Some(failure.message.clone()),
    }
}

/// Computes the reason for which an event fails the job, if it does.
fn failure_reason_of(writes: u64, event: &CopyEvent) -> (reason: Option<String>)
    ensures
        match failure_reason(writes, event@) {
            Some(text) => reason is Some && reason->0@ == text,
            None => reason is None,
        },
{
    match event {
        CopyEvent::Dispatched => None,
        CopyEvent::Validated(facts) => {
            let verdict = validate(facts);
            if verdict.0 {
                None
            } else {
                Some(verdict.1)
            }
        },
        CopyEvent::DirectoryCreated(_, outcome) => match outcome {
            Ok(_) => None,
            Err(failure) => if failure.already_exists {
                None
            } else {
                Some(failure.message.clone())
            },
        },
        CopyEvent::SourceOpened(outcome) => failure_message(outcome),
        CopyEvent::DestinationOpened(outcome) => failure_message(outcome),
        CopyEvent::ChunkRead(outcome) => match outcome {
            Ok(_) => None,
            Err(failure) => Some(failure.message.clone()),
        },
        CopyEvent::ChunkWritten(outcome) => match outcome {
            Ok(_) => if writes == u64::MAX {
                Some(String::from_str("Write count is out of range"))
            } else {
                None
            },
            Err(failure) => Some(
                String::from_str("Error writing to destination file: ").concat(
                    failure.message.as_str(),
                ),
            ),
        },
        CopyEvent::Finished(outcome) => failure_message(outcome),
        CopyEvent::Paused(outcome) => failure_message(outcome),
    }
}

/// The copy engine, configured with the size of the chunks it moves.
pub struct CopyService {
    /// The number of bytes per read and per write. It must stay the same
    /// over all the episodes of a job.
    pub buffer_size: usize,
}

impl CopyService {
    /// An engine that moves chunks of the given size.
    pub fn new(buffer_size: usize) -> (service: Self)
        ensures
            service.buffer_size == buffer_size,
    {
        CopyService { buffer_size }
    }

    /// The byte offset to seek the source to for a job with so many
    /// completed writes, or `None` where it cannot be addressed.
    pub fn source_offset(&self, writes: u64) -> (offset: Option<u64>)
        ensures
            offset == resume_offset(writes, self.buffer_size),
    {
        writes.checked_mul(self.buffer_size as u64)
    }

    /// Decides what follows once the directories before the index are in
    /// place.
    fn enter_directories(&self, storage: &mut StorageService, handle: JobHandle, index: usize) -> (action:
        CopyAction)
        requires
            handle.index < old(storage)@.len(),
        ensures
            final(storage)@ == old(storage)@.update(
                handle.index as int,
                after_directories(
                    old(storage)@[handle.index as int],
                    index as int,
                    self.buffer_size,
                ).0,
            ),
            action == after_directories(
                old(storage)@[handle.index as int],
                index as int,
                self.buffer_size,
            ).1,
            distinct_ids(final(storage)@),
    {
        let job = storage.get(handle);
        let directories: usize = job.destination_dirs.len();
        let writes: u64 = job.writes;
        assert(job@.destination_dirs.len() == directories);
        assert(storage@ =~= storage@.update(handle.index as int, storage@[handle.index as int]));
        if index < directories {
            return CopyAction::CreateDirectory(index);
        }
        match self.source_offset(writes) {
            Some(offset) => CopyAction::OpenSource(offset),
            None => {
                storage.update_job_status(
                    handle,
                    JobStatus::Failed(String::from_str("Resume offset is out of range")),
                );
                CopyAction::Stop
            },
        }
    }

    /// Takes one step for a registered job: applies the event that the
    /// worker reports to the job, and returns what the worker does next.
    /// No other job changes.
    pub fn execute_job(
        &self,
        storage: &mut StorageService,
        handle: JobHandle,
        event: CopyEvent,
    ) -> (action: CopyAction)
        requires
            handle.index < old(storage)@.len(),
        ensures
            final(storage)@ == old(storage)@.update(
                handle.index as int,
                step(old(storage)@[handle.index as int], self.buffer_size, event@).0,
            ),
            action == step(old(storage)@[handle.index as int], self.buffer_size, event@).1,
            distinct_ids(final(storage)@),
    {
        let job = storage.get(handle);
        let terminal = job.status.is_terminal();
        let running = matches!(job.status, JobStatus::Running);
        let writes: u64 = job.writes;
        let directories: usize = job.destination_dirs.len();
        assert(job@.destination_dirs.len() == directories);
        assert(storage@ =~= storage@.update(handle.index as int, storage@[handle.index as int]));
        if terminal {
            return wind_down_action(&event);
        }
        if let CopyEvent::Dispatched = event {
            storage.update_job_status(handle, JobStatus::Running);
            return CopyAction::Validate;
        }
        if let Some(reason) = failure_reason_of(writes, &event) {
            storage.update_job_status(handle, JobStatus::Failed(reason));
            return CopyAction::Stop;
        }
        if !running {
            if let CopyEvent::ChunkWritten(_) = event {
                storage.increment_job_writes(handle);
            }
            return wind_down_action(&event);
        }
        match event {
            CopyEvent::Dispatched => CopyAction::Validate,
            CopyEvent::Validated(_) => self.enter_directories(storage, handle, 0),
            CopyEvent::DirectoryCreated(index, _) => {
                // A position past every directory stands for itself.
                let next: usize = if index < directories {
                    index + 1
                } else {
                    index
                };
                self.enter_directories(storage, handle, next)
            },
            CopyEvent::SourceOpened(_) => CopyAction::OpenDestination,
            CopyEvent::DestinationOpened(_) => CopyAction::ReadChunk(self.buffer_size),
            CopyEvent::ChunkRead(outcome) => match outcome {
                Ok(length) => if length == 0 {
                    CopyAction::Finish
                } else {
                    CopyAction::WriteChunk(length)
                },
                Err(_) => CopyAction::Stop,
            },
            CopyEvent::ChunkWritten(_) => {
                storage.increment_job_writes(handle);
                CopyAction::ReadChunk(self.buffer_size)
            },
            CopyEvent::Finished(_) => {
                storage.update_job_status(handle, JobStatus::Completed);
                CopyAction::Stop
            },
            CopyEvent::Paused(_) => CopyAction::Stop,
        }
    }
}

} // verus!
