//! What the copy engine guarantees, proved over a model of the two files.
//!
//! The model holds the source, the destination, the read position in the
//! source and the chunk that was read last. A worker is faithful where its
//! events report what its actions did to the files; its reads are full where
//! each returns as many bytes as were asked for, short of the end only.

use crate::models::copy::{CopyAction, CopyEventView};
use crate::models::job::JobView;
use crate::services::copy::{step, wind_down};
use vstd::prelude::*;

verus! {

/// The two files of a job as the worker sees them.
pub struct Files {
    /// The bytes of the source.
    pub source: Seq<u8>,
    /// The bytes of the destination.
    pub destination: Seq<u8>,
    /// The position in the source at which the next read starts.
    pub position: int,
    /// The bytes that the last read returned.
    pub chunk: Seq<u8>,
}

/// The source up to a position, or all of it where the position is past its
/// end.
pub open spec fn prefix(source: Seq<u8>, position: int) -> Seq<u8> {
    if position >= source.len() {
        source
    } else {
        source.take(position)
    }
}

/// The number of bytes that a full read of the given capacity returns at a
/// position.
pub open spec fn full_read(capacity: int, position: int, length: int) -> int {
    if position >= length {
        0
    } else if capacity <= length - position {
        capacity
    } else {
        length - position
    }
}

/// Whether an event reports what an action did to the files. A read returns
/// bytes from the read position on, at most as many as were asked for and
/// none only at the end of the source; a write appends the bytes read. The
/// source never changes; a failed write may leave anything in the
/// destination.
pub open spec fn faithful(
    before: Files,
    action: CopyAction,
    after: Files,
    event: CopyEventView,
) -> bool {
    match action {
        CopyAction::Validate => after == before && event is Validated,
        CopyAction::CreateDirectory(_) => after == before && event is DirectoryCreated,
        CopyAction::OpenSource(offset) => event is SourceOpened && after == (Files {
            position: offset as int,
            ..before
        }),
        CopyAction::OpenDestination => after == before && event is DestinationOpened,
        CopyAction::ReadChunk(capacity) => match event {
            CopyEventView::ChunkRead(Ok(length)) => {
                &&& length <= full_read(capacity as int, before.position, before.source.len() as int)
                &&& length == 0 ==> full_read(
                    capacity as int,
                    before.position,
                    before.source.len() as int,
                ) == 0
                &&& after == (Files {
                    position: before.position + length,
                    chunk: before.source.subrange(before.position, before.position + length),
                    ..before
                })
            },
            CopyEventView::ChunkRead(Err(_)) => after.source == before.source,
            _ => false,
        },
        CopyAction::WriteChunk(length) => match event {
            CopyEventView::ChunkWritten(Ok(_)) => after == (Files {
                destination: before.destination + before.chunk.take(length as int),
                ..before
            }),
            CopyEventView::ChunkWritten(Err(_)) => after.source == before.source,
            _ => false,
        },
        CopyAction::Finish => after == before && event is Finished,
        CopyAction::Pause => after == before && event is Paused,
        CopyAction::Stop => false,
    }
}

/// Whether the read that an event reports, if it reports one, was full.
pub open spec fn read_in_full(before: Files, action: CopyAction, event: CopyEventView) -> bool {
    match (action, event) {
        (CopyAction::ReadChunk(capacity), CopyEventView::ChunkRead(Ok(length))) => length
            == full_read(capacity as int, before.position, before.source.len() as int),
        _ => true,
    }
}

/// The destination holds the source up to where the copy has come, at the
/// moment at which the event is handed to the engine.
pub open spec fn consistent(
    writes: u64,
    buffer_size: usize,
    files: Files,
    event: CopyEventView,
) -> bool {
    match event {
        CopyEventView::Dispatched => files.destination == prefix(
            files.source,
            writes * buffer_size,
        ),
        CopyEventView::Validated(_) => files.destination == prefix(
            files.source,
            writes * buffer_size,
        ),
        CopyEventView::DirectoryCreated(_, _) => files.destination == prefix(
            files.source,
            writes * buffer_size,
        ),
        CopyEventView::SourceOpened(Ok(_)) => files.position >= 0 && files.destination == prefix(
            files.source,
            files.position,
        ),
        CopyEventView::DestinationOpened(Ok(_)) => files.position >= 0 && files.destination
            == prefix(files.source, files.position),
        CopyEventView::ChunkRead(Ok(length)) => {
            &&& files.position - length >= 0
            &&& files.destination == prefix(files.source, files.position - length)
            &&& length > 0 ==> files.position <= files.source.len() && files.chunk
                == files.source.subrange(files.position - length, files.position)
            &&& length == 0 ==> files.position >= files.source.len()
        },
        CopyEventView::ChunkWritten(Ok(_)) => files.position >= 0 && files.destination == prefix(
            files.source,
            files.position,
        ),
        CopyEventView::Finished(Ok(_)) => files.destination == files.source,
        _ => true,
    }
}

/// Whether a read position stands for the resume cursor of so many writes:
/// it is that cursor, or both are at or past the end of the source.
pub open spec fn at_cursor(position: int, writes: int, buffer_size: int, length: int) -> bool {
    position == writes * buffer_size || (position >= length && writes * buffer_size >= length)
}

/// The write count is the number of chunks that the destination holds, at
/// the moment at which the event is handed to the engine.
pub open spec fn counted_exactly(
    writes: u64,
    buffer_size: usize,
    files: Files,
    event: CopyEventView,
) -> bool {
    let length = files.source.len() as int;
    let size = buffer_size as int;
    &&& writes == 0 || (writes - 1) * size < length
    &&& match event {
        CopyEventView::SourceOpened(Ok(_)) => at_cursor(files.position, writes as int, size, length),
        CopyEventView::DestinationOpened(Ok(_)) => at_cursor(
            files.position,
            writes as int,
            size,
            length,
        ),
        CopyEventView::ChunkRead(Ok(read)) => at_cursor(
            files.position - read,
            writes as int,
            size,
            length,
        ) && read == full_read(size, files.position - read, length),
        CopyEventView::ChunkWritten(Ok(_)) => at_cursor(files.position, writes + 1, size, length)
            && writes * size < length,
        CopyEventView::Finished(Ok(_)) => writes * size >= length,
        CopyEventView::Paused(Ok(_)) => files.destination == prefix(files.source, writes * size),
        _ => true,
    }
}

/// A job that has written nothing to an empty destination starts
/// consistent and exactly counted.
pub proof fn law_fresh_copy_is_consistent(buffer_size: usize, files: Files)
    requires
        files.destination.len() == 0,
    ensures
        consistent(0, buffer_size, files, CopyEventView::Dispatched),
        counted_exactly(0, buffer_size, files, CopyEventView::Dispatched),
{
    assert(0 * buffer_size == 0) by (nonlinear_arith);
    assert(files.destination =~= prefix(files.source, 0));
}

/// With a positive buffer size, a step of the engine on a job that is not in
/// a terminal state, answered by a faithful worker, keeps the destination
/// consistent with the source. Reads may be short.
pub proof fn law_step_keeps_copy_consistent(
    job: JobView,
    buffer_size: usize,
    files: Files,
    event: CopyEventView,
    next_files: Files,
    next_event: CopyEventView,
)
    requires
        buffer_size > 0,
        !job.status.is_terminal(),
        consistent(job.writes, buffer_size, files, event),
        faithful(files, step(job, buffer_size, event).1, next_files, next_event),
    ensures
        consistent(step(job, buffer_size, event).0.writes, buffer_size, next_files, next_event),
{
    let (next_job, action) = step(job, buffer_size, event);
    let source = files.source;
    match action {
        CopyAction::OpenSource(offset) => {
            assert(offset == job.writes * buffer_size);
        },
        CopyAction::WriteChunk(length) => {
            if next_event is ChunkWritten && next_event->ChunkWritten_0 is Ok {
                let start = files.position - length;
                assert(files.chunk.take(length as int) =~= files.chunk);
                assert(prefix(source, start) + source.subrange(start, files.position) =~= prefix(
                    source,
                    files.position,
                ));
            }
        },
        CopyAction::Finish => {
            assert(prefix(source, files.position) =~= source);
        },
        _ => {},
    }
}

/// A job that the engine completes has a destination that is identical to
/// its source.
pub proof fn law_completed_copy_is_identical(
    job: JobView,
    buffer_size: usize,
    files: Files,
    event: CopyEventView,
)
    requires
        !job.status.is_terminal(),
        consistent(job.writes, buffer_size, files, event),
        step(job, buffer_size, event).0.status is Completed,
    ensures
        files.destination == files.source,
        files.destination.len() == files.source.len(),
{
}

/// With full reads, a step of the engine on a job that is not in a terminal
/// state, answered by a faithful worker, keeps the write count exact.
pub proof fn law_step_keeps_count_exact(
    job: JobView,
    buffer_size: usize,
    files: Files,
    event: CopyEventView,
    next_files: Files,
    next_event: CopyEventView,
)
    requires
        buffer_size > 0,
        !job.status.is_terminal(),
        consistent(job.writes, buffer_size, files, event),
        counted_exactly(job.writes, buffer_size, files, event),
        faithful(files, step(job, buffer_size, event).1, next_files, next_event),
        read_in_full(files, step(job, buffer_size, event).1, next_event),
    ensures
        counted_exactly(
            step(job, buffer_size, event).0.writes,
            buffer_size,
            next_files,
            next_event,
        ),
{
    let (next_job, action) = step(job, buffer_size, event);
    let length = files.source.len() as int;
    let size = buffer_size as int;
    let writes = job.writes as int;
    assert((writes + 1) * size == writes * size + size) by (nonlinear_arith);
    if next_job.writes != job.writes {
        assert(next_job.writes - 1 == writes);
        assert((next_job.writes - 1) * size == writes * size);
    }
    match action {
        CopyAction::OpenSource(offset) => {
            assert(offset == writes * size);
        },
        CopyAction::Pause => {
            if event is ChunkRead {
                assert(prefix(files.source, files.position - event->ChunkRead_0->Ok_0) == prefix(
                    files.source,
                    writes * size,
                ));
            }
        },
        _ => {},
    }
}

/// With full reads, a job that the engine stops without failing it can be
/// taken up again: its destination holds the source up to its resume
/// cursor. A suspended job therefore resumes without loss and without
/// duplication.
pub proof fn law_stopped_copy_can_resume(
    job: JobView,
    buffer_size: usize,
    files: Files,
    event: CopyEventView,
)
    requires
        buffer_size > 0,
        !job.status.is_terminal(),
        consistent(job.writes, buffer_size, files, event),
        counted_exactly(job.writes, buffer_size, files, event),
        step(job, buffer_size, event).1 == CopyAction::Stop,
        !(step(job, buffer_size, event).0.status is Failed),
    ensures
        consistent(
            step(job, buffer_size, event).0.writes,
            buffer_size,
            files,
            CopyEventView::Dispatched,
        ),
        counted_exactly(
            step(job, buffer_size, event).0.writes,
            buffer_size,
            files,
            CopyEventView::Dispatched,
        ),
{
}

/// A completed job has counted each chunk of its source once: the writes
/// cover the source, and one write fewer would not.
pub proof fn law_completed_copy_counts_each_chunk(
    job: JobView,
    buffer_size: usize,
    files: Files,
    event: CopyEventView,
)
    requires
        !job.status.is_terminal(),
        counted_exactly(job.writes, buffer_size, files, event),
        step(job, buffer_size, event).0.status is Completed,
    ensures
        step(job, buffer_size, event).0.writes == job.writes,
        job.writes * buffer_size >= files.source.len(),
        job.writes == 0 || (job.writes - 1) * buffer_size < files.source.len(),
{
}

/// The engine never changes a job that is in a terminal state: neither its
/// status nor its write count nor anything else, whatever the event.
pub proof fn law_terminal_job_is_left_alone(
    job: JobView,
    buffer_size: usize,
    event: CopyEventView,
)
    requires
        job.status.is_terminal(),
    ensures
        step(job, buffer_size, event).0 == job,
        step(job, buffer_size, event).1 == wind_down(event),
{
}

/// The engine changes a status only along the lifecycle graph, or to fail a
/// job that is not in a terminal state; it never lowers the write count and
/// raises it by one at most, on a completed write only; and it touches
/// nothing else of a job.
pub proof fn law_engine_follows_lifecycle(job: JobView, buffer_size: usize, event: CopyEventView)
    ensures
        ({
            let next = step(job, buffer_size, event).0;
            &&& next == job.with_status(next.status).with_writes(next.writes)
            &&& next.status == job.status || job.status.can_transition_to(next.status) || (
                next.status is Failed && !job.status.is_terminal())
            &&& next.writes == job.writes || (next.writes == job.writes + 1
                && event is ChunkWritten && event->ChunkWritten_0 is Ok)
            &&& next.status is Completed && !(job.status is Completed) ==> job.status is Running
        }),
{
}

/// A moment of a run: a job, its files, and the event that is about to be
/// handed to the engine.
pub struct Moment {
    pub job: JobView,
    pub files: Files,
    pub event: CopyEventView,
}

/// Whether a moment of a run follows from the one before it: the engine took
/// its step; the worker answered faithfully, or, where the engine stopped
/// the job without failing it and the run may be resumed, a worker took the
/// job up again with the files as they were; and a controller may have
/// overwritten the job's status, and nothing else. In a run that may be
/// resumed every read is full.
pub open spec fn follows(buffer_size: usize, before: Moment, after: Moment, resumable: bool) -> bool {
    let (job, action) = step(before.job, buffer_size, before.event);
    &&& after.job == job.with_status(after.job.status)
    &&& if action == CopyAction::Stop {
        &&& resumable
        &&& !(job.status is Failed)
        &&& after.files == before.files
        &&& after.event is Dispatched
    } else {
        &&& faithful(before.files, action, after.files, after.event)
        &&& resumable ==> read_in_full(before.files, action, after.event)
    }
}

/// Whether the moment at a position of a run follows from the one before.
pub open spec fn follows_at(buffer_size: usize, run: Seq<Moment>, index: int, resumable: bool) -> bool {
    follows(buffer_size, run[index - 1], run[index], resumable)
}

/// Whether a sequence of moments is a run of a job from its submission: it
/// starts with the dispatch of a job that has written nothing to an empty
/// destination, each moment follows from the one before, and the job is at
/// no moment in a terminal state.
pub open spec fn is_run(buffer_size: usize, run: Seq<Moment>, resumable: bool) -> bool {
    &&& run.len() > 0
    &&& run[0].event is Dispatched
    &&& run[0].job.writes == 0
    &&& run[0].files.destination.len() == 0
    &&& forall|i: int| 0 <= i < run.len() ==> !(#[trigger] run[i]).job.status.is_terminal()
    &&& forall|i: int| 0 < i < run.len() ==> #[trigger] follows_at(buffer_size, run, i, resumable)
}

/// At every moment of a run the source is what it was at submission, the
/// destination is consistent with it, and, in a run that may be resumed,
/// the write count is exact.
proof fn lemma_run_stays_consistent(
    buffer_size: usize,
    run: Seq<Moment>,
    resumable: bool,
    index: int,
)
    requires
        buffer_size > 0,
        is_run(buffer_size, run, resumable),
        0 <= index < run.len(),
    ensures
        run[index].files.source == run[0].files.source,
        consistent(run[index].job.writes, buffer_size, run[index].files, run[index].event),
        resumable ==> counted_exactly(
            run[index].job.writes,
            buffer_size,
            run[index].files,
            run[index].event,
        ),
    decreases index,
{
    if index == 0 {
        law_fresh_copy_is_consistent(buffer_size, run[0].files);
    } else {
        lemma_run_stays_consistent(buffer_size, run, resumable, index - 1);
        let before = run[index - 1];
        let after = run[index];
        assert(follows_at(buffer_size, run, index, resumable));
        assert(!before.job.status.is_terminal());
        let (job, action) = step(before.job, buffer_size, before.event);
        assert(after.job.writes == job.writes);
        if action == CopyAction::Stop {
            law_stopped_copy_can_resume(before.job, buffer_size, before.files, before.event);
        } else {
            law_step_keeps_copy_consistent(
                before.job,
                buffer_size,
                before.files,
                before.event,
                after.files,
                after.event,
            );
            if resumable {
                law_step_keeps_count_exact(
                    before.job,
                    buffer_size,
                    before.files,
                    before.event,
                    after.files,
                    after.event,
                );
            }
        }
    }
}

/// With a positive buffer size, a job that the engine completes at the end
/// of a run from its submission has a destination that is byte for byte the
/// source as it was at submission. That holds of a run without a stop,
/// whatever its reads return; and of a run in which the job was stopped and
/// taken up again any number of times, where every read is full. In such a
/// run the write count at the end is the number of chunks of the source.
pub proof fn law_completed_run_copies_source(buffer_size: usize, run: Seq<Moment>, resumable: bool)
    requires
        buffer_size > 0,
        is_run(buffer_size, run, resumable),
        step(run.last().job, buffer_size, run.last().event).0.status is Completed,
    ensures
        run.last().files.destination == run[0].files.source,
        run.last().files.destination.len() == run[0].files.source.len(),
        resumable ==> {
            let writes = step(run.last().job, buffer_size, run.last().event).0.writes;
            &&& writes * buffer_size >= run[0].files.source.len()
            &&& writes == 0 || (writes - 1) * buffer_size < run[0].files.source.len()
        },
{
    let last = run.last();
    lemma_run_stays_consistent(buffer_size, run, resumable, run.len() - 1);
    law_completed_copy_is_identical(last.job, buffer_size, last.files, last.event);
    if resumable {
        law_completed_copy_counts_each_chunk(last.job, buffer_size, last.files, last.event);
    }
}

/// Whether the job at a position of a sequence of moments is what the engine
/// made of the job before it, with no controller in between.
pub open spec fn is_engine_made(buffer_size: usize, run: Seq<Moment>, index: int) -> bool {
    run[index].job == step(run[index - 1].job, buffer_size, run[index - 1].event).0
}

/// A job that is in a terminal state, canceled for one, stays exactly as it
/// is for as long as only the engine deals with it, whatever the workers
/// report: its status never changes again, and neither does its write
/// count.
pub proof fn law_terminal_job_stays_as_it_is(buffer_size: usize, run: Seq<Moment>, index: int)
    requires
        0 <= index < run.len(),
        run[0].job.status.is_terminal(),
        forall|i: int| 0 < i < run.len() ==> #[trigger] is_engine_made(buffer_size, run, i),
    ensures
        run[index].job == run[0].job,
    decreases index,
{
    if index > 0 {
        law_terminal_job_stays_as_it_is(buffer_size, run, index - 1);
        assert(is_engine_made(buffer_size, run, index));
        law_terminal_job_is_left_alone(run[index - 1].job, buffer_size, run[index - 1].event);
    }
}

} // verus!
