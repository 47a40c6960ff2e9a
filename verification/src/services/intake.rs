//! The intake of the dispatcher: what happens to a copy request between its
//! receipt and the hand-over of its jobs to the workers.

use crate::models::job::{Job, JobView, StatusView};
use crate::services::copy::CopyService;
use crate::services::expand::{is_expansion, subjob_view, DirectoryWalk, WalkView};
use crate::services::storage::{distinct_ids, has_id, job_views, JobHandle, StorageService};
use vstd::prelude::*;

verus! {

/// The job that the intake registers at a position of a request's
/// expansion, up to its identifier: the request itself where its source is a
/// regular file, otherwise the subjob for the file at the position; in
/// state Created.
pub open spec fn admitted(job: JobView, is_file: bool, walk: WalkView, index: int, id: u128) -> JobView {
    if is_file {
        job.with_id(id).with_status(StatusView::Created)
    } else {
        subjob_view(job, walk, index, id)
    }
}

/// The number of jobs that a request expands to.
pub open spec fn expansion_size(is_file: bool, walk: WalkView) -> nat {
    if is_file {
        1
    } else {
        walk.files.len()
    }
}

/// Whether the handle at a position of the intake's result refers to the job
/// that was registered for that position of the expansion.
pub open spec fn registered_at(
    before: Seq<JobView>,
    after: Seq<JobView>,
    handles: Seq<JobHandle>,
    job: JobView,
    is_file: bool,
    walk: WalkView,
    index: int,
) -> bool {
    &&& handles[index].index == before.len() + index
    &&& after[before.len() + index] == admitted(
        job,
        is_file,
        walk,
        index,
        after[before.len() + index].id,
    )
}

impl CopyService {
    /// Takes a copy request in: expands it, registers each job of the
    /// expansion in order, and returns their handles, which the dispatcher
    /// hands to the workers. The jobs registered before are untouched. A
    /// request for a single file keeps its identifier where that is free.
    pub fn execute(
        &self,
        storage: &mut StorageService,
        job: Job,
        is_file: bool,
        walk: &DirectoryWalk,
    ) -> (handles: Vec<JobHandle>)
        ensures
            handles@.len() == expansion_size(is_file, walk@),
            final(storage)@.len() == old(storage)@.len() + handles@.len(),
            final(storage)@.take(old(storage)@.len() as int) == old(storage)@,
            forall|i: int|
                0 <= i < handles@.len() ==> #[trigger] registered_at(
                    old(storage)@,
                    final(storage)@,
                    handles@,
                    job@,
                    is_file,
                    walk@,
                    i,
                ),
            is_file && !has_id(old(storage)@, job.id) ==> final(storage)@[old(
                storage,
            )@.len() as int].id == job.id,
            distinct_ids(final(storage)@),
    {
        let ghost request = job@;
        let ghost before = storage@;
        let jobs = Self::subjobs(job, is_file, walk);
        proof {
            use_type_invariant(&*storage);
        }
        assert(job_views(jobs@).len() == jobs@.len());
        broadcast use vstd::std_specs::vec::axiom_spec_into_iter;
        assert(storage@.take(before.len() as int) =~= before);
        let mut handles: Vec<JobHandle> = Vec::new();
        let ghost expansion = jobs@;
        for subjob in pieces: jobs
            invariant
                pieces.seq() == expansion,
                handles@.len() == pieces.index(),
                expansion.len() == expansion_size(is_file, walk@),
                is_expansion(request, is_file, walk@, job_views(expansion)),
                storage@.len() == before.len() + pieces.index(),
                storage@.take(before.len() as int) == before,
                forall|k: int|
                    0 <= k < pieces.index() ==> #[trigger] registered_at(
                        before,
                        storage@,
                        handles@,
                        request,
                        is_file,
                        walk@,
                        k,
                    ),
                is_file && pieces.index() > 0 && !has_id(before, request.id) ==> storage@[before.len() as int].id
                    == request.id,
                distinct_ids(storage@),
        {
            let ghost i = pieces.index();
            let ghost earlier = storage@;
            let ghost earlier_handles = handles@;
            assert(job_views(expansion)[i] == expansion[i]@);
            let handle = storage.add_job(subjob);
            proof {
                assert(storage@.drop_last() == earlier);
                assert forall|k: int| 0 <= k < storage@.len() - 1 implies storage@[k]
                    == earlier[k] by {
                    assert(storage@.drop_last()[k] == storage@[k]);
                }
                assert(storage@.take(before.len() as int) =~= before) by {
                    assert forall|k: int| 0 <= k < before.len() implies storage@.take(
                        before.len() as int,
                    )[k] == before[k] by {
                        assert(earlier.take(before.len() as int)[k] == earlier[k]);
                    }
                }
                if is_file && i == 0 {
                    assert(earlier =~= before);
                }
            }
            handles.push(handle);
            proof {
                assert forall|k: int| 0 <= k < i + 1 implies #[trigger] registered_at(
                    before,
                    storage@,
                    handles@,
                    request,
                    is_file,
                    walk@,
                    k,
                ) by {
                    if k < i {
                        assert(registered_at(
                            before,
                            earlier,
                            earlier_handles,
                            request,
                            is_file,
                            walk@,
                            k,
                        ));
                        assert(storage@[before.len() + k] == earlier[before.len() + k]);
                    }
                }
            }
        }
        handles
    }
}

} // verus!
