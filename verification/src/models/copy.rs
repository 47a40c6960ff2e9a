//! What passes between the copy engine and the worker that performs its
//! input and output: the worker reports an event, the engine answers with
//! the next action.

use crate::services::validate::{PathFacts, PathFactsView};
use vstd::prelude::*;

verus! {

/// Why an operation on the file system failed.
#[derive(Debug)]
pub struct IoFailure {
    /// Whether the operation failed because its target already exists.
    pub already_exists: bool,
    /// The error as a text.
    pub message: String,
}

/// The mathematical value of an [`IoFailure`].
pub struct IoFailureView {
    pub already_exists: bool,
    pub message: Seq<char>,
}

impl View for IoFailure {
    type V = IoFailureView;

    open spec fn view(&self) -> IoFailureView {
        IoFailureView { already_exists: self.already_exists, message: self.message@ }
    }
}

/// What a worker reports to the engine.
#[derive(Debug)]
pub enum CopyEvent {
    /// A worker took the job up.
    Dispatched,
    /// The facts that validation needs were gathered.
    Validated(PathFacts),
    /// The destination directory at the index was created, or could not be.
    DirectoryCreated(usize, Result<(), IoFailure>),
    /// The source was opened and positioned at the requested offset, or
    /// could not be.
    SourceOpened(Result<(), IoFailure>),
    /// The destination was opened for appending, or could not be.
    DestinationOpened(Result<(), IoFailure>),
    /// So many bytes were read from the source, none at its end; or the read
    /// failed.
    ChunkRead(Result<usize, IoFailure>),
    /// The chunk read last was written to the destination in full, or the
    /// write failed.
    ChunkWritten(Result<(), IoFailure>),
    /// The destination was flushed after the source was exhausted, or the
    /// flush failed.
    Finished(Result<(), IoFailure>),
    /// The destination was flushed in order to stop early, or the flush
    /// failed.
    Paused(Result<(), IoFailure>),
}

/// The mathematical value of a [`CopyEvent`].
pub enum CopyEventView {
    Dispatched,
    Validated(PathFactsView),
    DirectoryCreated(usize, Result<(), IoFailureView>),
    SourceOpened(Result<(), IoFailureView>),
    DestinationOpened(Result<(), IoFailureView>),
    ChunkRead(Result<usize, IoFailureView>),
    ChunkWritten(Result<(), IoFailureView>),
    Finished(Result<(), IoFailureView>),
    Paused(Result<(), IoFailureView>),
}

/// The mathematical value of the outcome of an operation without a result.
pub open spec fn outcome_view(outcome: Result<(), IoFailure>) -> Result<(), IoFailureView> {
    match outcome {
        Ok(_) => Ok(()),
        Err(failure) => Err(failure@),
    }
}

impl View for CopyEvent {
    type V = CopyEventView;

    open spec fn view(&self) -> CopyEventView {
        match self {
            CopyEvent::Dispatched => CopyEventView::Dispatched,
            CopyEvent::Validated(facts) => CopyEventView::Validated(facts@),
            CopyEvent::DirectoryCreated(index, outcome) => CopyEventView::DirectoryCreated(
                *index,
                outcome_view(*outcome),
            ),
            CopyEvent::SourceOpened(outcome) => CopyEventView::SourceOpened(
                outcome_view(*outcome),
            ),
            CopyEvent::DestinationOpened(outcome) => CopyEventView::DestinationOpened(
                outcome_view(*outcome),
            ),
            CopyEvent::ChunkRead(outcome) => CopyEventView::ChunkRead(
                match outcome {
                    Ok(length) => Ok(*length),
                    Err(failure) => Err(failure@),
                },
            ),
            CopyEvent::ChunkWritten(outcome) => CopyEventView::ChunkWritten(
                outcome_view(*outcome),
            ),
            CopyEvent::Finished(outcome) => CopyEventView::Finished(outcome_view(*outcome)),
            CopyEvent::Paused(outcome) => CopyEventView::Paused(outcome_view(*outcome)),
        }
    }
}

/// What the engine asks a worker to do next.
#[derive(Clone, Copy, Debug, PartialEq, Eq, Structural)]
pub enum CopyAction {
    /// Gather the facts that validation needs; report `Validated`.
    Validate,
    /// Create the destination directory at the index, with its ancestors;
    /// report `DirectoryCreated`.
    CreateDirectory(usize),
    /// Open the source for reading and seek to the offset; report
    /// `SourceOpened`.
    OpenSource(u64),
    /// Open the destination for appending, creating it if absent; report
    /// `DestinationOpened`.
    OpenDestination,
    /// Read up to so many bytes from the source; report `ChunkRead`.
    ReadChunk(usize),
    /// Write the first so many bytes that were read to the destination;
    /// report `ChunkWritten`.
    WriteChunk(usize),
    /// Flush the destination because the source is exhausted; report
    /// `Finished`.
    Finish,
    /// Flush the destination because the copy stops early; report `Paused`.
    Pause,
    /// Close what is open and give the worker back.
    Stop,
}

} // verus!
