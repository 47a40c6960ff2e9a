//! The job registry: the single source of truth for all jobs.

use crate::models::identity::{parse_id, uuid_parse};
use crate::models::job::{Job, JobStatus, JobView, StatusView};
use vstd::prelude::*;

verus! {

/// Whether no two jobs of the sequence share an identifier.
pub open spec fn distinct_ids(jobs: Seq<JobView>) -> bool {
    forall|i: int, j: int| 0 <= i < j < jobs.len() ==> jobs[i].id != jobs[j].id
}

/// Whether some job of the sequence has the identifier.
pub open spec fn has_id(jobs: Seq<JobView>, id: u128) -> bool {
    exists|i: int| 0 <= i < jobs.len() && jobs[i].id == id
}

/// The jobs with the status of the one that has the identifier overwritten;
/// unchanged where none has it.
pub open spec fn with_status_of(jobs: Seq<JobView>, id: u128, status: StatusView) -> Seq<
    JobView,
> {
    jobs.map_values(
        |job: JobView|
            if job.id == id {
                job.with_status(status)
            } else {
                job
            },
    )
}

/// Overwriting the status of a job changes that status and nothing else:
/// every job keeps its identifier, its paths, its write count and its place,
/// and every job with another identifier keeps its status too.
pub proof fn law_overwriting_a_status_changes_nothing_else(
    jobs: Seq<JobView>,
    id: u128,
    status: StatusView,
)
    ensures
        with_status_of(jobs, id, status).len() == jobs.len(),
        forall|i: int|
            0 <= i < jobs.len() ==> {
                let after = #[trigger] with_status_of(jobs, id, status)[i];
                &&& after == jobs[i].with_status(after.status)
                &&& after.writes == jobs[i].writes
                &&& after.status == if jobs[i].id == id {
                    status
                } else {
                    jobs[i].status
                }
            },
        distinct_ids(jobs) ==> distinct_ids(with_status_of(jobs, id, status)),
{
}

/// The views of the jobs of a list, in order.
pub open spec fn job_views(jobs: Seq<Job>) -> Seq<JobView> {
    jobs.map_values(|job: Job| job@)
}

/// The identifier tried in the given round of the search for a free one: the
/// wanted identifier first, then its successors, wrapping around.
pub open spec fn probe(wanted: u128, round: nat) -> u128 {
    if wanted + round <= u128::MAX {
        (wanted + round) as u128
    } else {
        (wanted + round - u128::MAX - 1) as u128
    }
}

/// As many distinct identifiers as are all taken need as many jobs.
proof fn lemma_probes_need_room(jobs: Seq<JobView>, wanted: u128, rounds: nat)
    requires
        rounds <= u128::MAX,
        forall|round: nat| round < rounds ==> has_id(jobs, #[trigger] probe(wanted, round)),
    ensures
        rounds <= jobs.len(),
    decreases rounds,
{
    if rounds > 0 {
        let last = probe(wanted, (rounds - 1) as nat);
        assert(has_id(jobs, last));
        let at = choose|i: int| 0 <= i < jobs.len() && jobs[i].id == last;
        let rest = jobs.remove(at);
        assert forall|round: nat| round < rounds - 1 implies has_id(
            rest,
            #[trigger] probe(wanted, round),
        ) by {
            let id = probe(wanted, round);
            assert(has_id(jobs, id));
            let i = choose|i: int| 0 <= i < jobs.len() && jobs[i].id == id;
            assert(id != last);
            if i < at {
                assert(rest[i].id == id);
            } else {
                assert(rest[i - 1].id == id);
            }
        }
        lemma_probes_need_room(rest, wanted, (rounds - 1) as nat);
    }
}

/// The position of the first job with the identifier.
fn position(jobs: &Vec<Job>, id: u128) -> (found: Option<usize>)
    ensures
        match found {
            Some(index) => index < jobs@.len() && jobs@[index as int].id == id && forall|k: int|
                0 <= k < index ==> jobs@[k].id != id,
            None => !has_id(job_views(jobs@), id),
        },
{
    let mut i: usize = 0;
    while i < jobs.len()
        invariant
            i <= jobs.len(),
            forall|k: int| 0 <= k < i ==> jobs@[k].id != id,
        decreases jobs.len() - i,
    {
        if jobs[i].id == id {
            return Some(i);
        }
        i += 1;
    }
    assert forall|k: int| 0 <= k < job_views(jobs@).len() implies job_views(jobs@)[k].id
        != id by {
        assert(job_views(jobs@)[k] == jobs@[k]@);
    }
    None
}

/// An identifier that no job of the list has: the wanted one where it is
/// free, otherwise the first free one among its successors.
fn free_id(jobs: &Vec<Job>, wanted: u128) -> (id: u128)
    ensures
        !has_id(job_views(jobs@), id),
        !has_id(job_views(jobs@), wanted) ==> id == wanted,
{
    let count: usize = jobs.len();
    let mut candidate: u128 = wanted;
    let mut rounds: usize = 0;
    loop
        invariant
            count == jobs@.len(),
            rounds <= count,
            candidate == probe(wanted, rounds as nat),
            forall|round: nat|
                round < rounds ==> has_id(job_views(jobs@), #[trigger] probe(wanted, round)),
        decreases jobs@.len() - rounds,
    {
        let taken = position(jobs, candidate);
        if taken.is_none() {
            assert(rounds > 0 ==> has_id(job_views(jobs@), probe(wanted, 0)));
            return candidate;
        }
        candidate = if candidate == u128::MAX {
            0
        } else {
            candidate + 1
        };
        proof {
            assert(job_views(jobs@)[taken.unwrap() as int].id == probe(wanted, rounds as nat));
            assert forall|round: nat| round < rounds + 1 implies has_id(
                job_views(jobs@),
                #[trigger] probe(wanted, round),
            ) by {
                if round == rounds {
                    assert(has_id(job_views(jobs@), probe(wanted, rounds as nat)));
                }
            }
            lemma_probes_need_room(job_views(jobs@), wanted, (rounds + 1) as nat);
        }
        rounds += 1;
    }
}

/// Overwrites the status of the job at a position of the list.
fn set_status(jobs: &mut Vec<Job>, index: usize, status: JobStatus)
    requires
        index < old(jobs)@.len(),
    ensures
        job_views(final(jobs)@) == job_views(old(jobs)@).update(
            index as int,
            old(jobs)@[index as int]@.with_status(status@),
        ),
    no_unwind
{
    jobs[index].status = status;
    assert(job_views(jobs@) =~= job_views(old(jobs)@).update(
        index as int,
        old(jobs)@[index as int]@.with_status(status@),
    ));
}

/// Counts one more write for the job at a position of the list.
fn count_write(jobs: &mut Vec<Job>, index: usize)
    requires
        index < old(jobs)@.len(),
        old(jobs)@[index as int].writes < u64::MAX,
    ensures
        job_views(final(jobs)@) == job_views(old(jobs)@).update(
            index as int,
            old(jobs)@[index as int]@.with_writes((old(jobs)@[index as int].writes + 1) as u64),
        ),
    no_unwind
{
    let writes: u64 = jobs[index].writes;
    jobs[index].writes = writes + 1;
    assert(job_views(jobs@) =~= job_views(old(jobs)@).update(
        index as int,
        old(jobs)@[index as int]@.with_writes((old(jobs)@[index as int].writes + 1) as u64),
    ));
}

/// A reference to a registered job: its position in the registry, which
/// never changes because jobs are never removed.
#[derive(Clone, Copy, Debug)]
pub struct JobHandle {
    pub index: usize,
}

/// The registry of all jobs that were ever submitted, in order of
/// registration.
pub struct StorageService {
    jobs: Vec<Job>,
}

impl View for StorageService {
    type V = Seq<JobView>;

    closed spec fn view(&self) -> Seq<JobView> {
        job_views(self.jobs@)
    }
}

impl StorageService {
    /// No two registered jobs share an identifier, at any time.
    #[verifier::type_invariant]
    pub open spec fn identifiers_are_unique(self) -> bool {
        distinct_ids(self@)
    }

    /// An empty registry.
    pub fn new() -> (storage: Self)
        ensures
            storage@ == Seq::<JobView>::empty(),
    {
        let storage = StorageService { jobs: Vec::new() };
        assert(storage@ =~= Seq::<JobView>::empty());
        storage
    }

    /// The number of registered jobs.
    pub fn len(&self) -> (count: usize)
        ensures
            count == self@.len(),
            distinct_ids(self@),
    {
        proof {
            use_type_invariant(self);
        }
        self.jobs.len()
    }

    /// Registers a job and returns its handle. The job keeps its identifier
    /// where no registered job has it and gets a free one otherwise; it
    /// starts in state Created. The jobs registered before are untouched.
    pub fn add_job(&mut self, job: Job) -> (handle: JobHandle)
        ensures
            handle.index == old(self)@.len(),
            final(self)@.len() == old(self)@.len() + 1,
            final(self)@.drop_last() == old(self)@,
            final(self)@.last() == job@.with_id(final(self)@.last().id).with_status(
                StatusView::Created,
            ),
            !has_id(old(self)@, final(self)@.last().id),
            !has_id(old(self)@, job.id) ==> final(self)@.last().id == job.id,
            distinct_ids(final(self)@),
    {
        proof {
            use_type_invariant(&*self);
        }
        let mut job = job;
        job.id = free_id(&self.jobs, job.id);
        job.status = JobStatus::Created;
        // The list leaves the registry while it grows, so that the registry
        // is never seen with a half-made list.
        let mut jobs: Vec<Job> = Vec::new();
        core::mem::swap(&mut self.jobs, &mut jobs);
        let index = jobs.len();
        jobs.push(job);
        proof {
            assert(job_views(jobs@).drop_last() =~= job_views(old(self).jobs@));
            assert(job_views(jobs@).last() == job@);
            assert forall|i: int, j: int| 0 <= i < j < job_views(jobs@).len() implies job_views(
                jobs@,
            )[i].id != job_views(jobs@)[j].id by {
                if j < index {
                    assert(job_views(jobs@)[i] == old(self)@[i]);
                    assert(job_views(jobs@)[j] == old(self)@[j]);
                } else {
                    assert(job_views(jobs@)[i] == old(self)@[i]);
                }
            }
        }
        core::mem::swap(&mut self.jobs, &mut jobs);
        JobHandle { index }
    }

    /// The handle of the job with the identifier, if one is registered.
    pub fn find(&self, id: u128) -> (found: Option<JobHandle>)
        ensures
            (found is Some) == has_id(self@, id),
            found matches Some(handle) ==> handle.index < self@.len() && self@[handle.index as int].id
                == id,
            distinct_ids(self@),
    {
        proof {
            use_type_invariant(self);
        }
        match position(&self.jobs, id) {
            Some(index) => {
                assert(self@[index as int] == self.jobs@[index as int]@);
                Some(JobHandle { index })
            },
            None => None,
        }
    }

    /// The handle of the job that a textual identifier addresses. A text
    /// that is no identifier addresses no job.
    pub fn lookup(&self, job_id: &str) -> (found: Option<JobHandle>)
        ensures
            (found is Some) == (uuid_parse(job_id@) matches Some(id) && has_id(self@, id)),
            found matches Some(handle) ==> handle.index < self@.len() && Some(
                self@[handle.index as int].id,
            ) == uuid_parse(job_id@),
            distinct_ids(self@),
    {
        match parse_id(job_id) {
            Some(id) => self.find(id),
            None => {
                proof {
                    use_type_invariant(self);
                }
                None
            },
        }
    }

    /// The registered job behind a handle.
    pub fn get(&self, handle: JobHandle) -> (job: &Job)
        requires
            handle.index < self@.len(),
        ensures
            job@ == self@[handle.index as int],
            distinct_ids(self@),
    {
        proof {
            use_type_invariant(self);
        }
        &self.jobs[handle.index]
    }

    /// The job that a textual identifier addresses, if there is one.
    pub fn job(&self, job_id: String) -> (found: Option<&Job>)
        ensures
            (found is Some) == (uuid_parse(job_id@) matches Some(id) && has_id(self@, id)),
            found matches Some(job) ==> self@.contains(job@) && Some(job.id) == uuid_parse(
                job_id@,
            ),
            distinct_ids(self@),
    {
        match self.lookup(job_id.as_str()) {
            Some(handle) => Some(self.get(handle)),
            None => None,
        }
    }

    /// A snapshot of all registered jobs, in order of registration. Later
    /// changes to the registry do not show in it.
    pub fn jobs(&self) -> (snapshot: Vec<Job>)
        ensures
            job_views(snapshot@) == self@,
            distinct_ids(self@),
    {
        proof {
            use_type_invariant(self);
        }
        let mut snapshot: Vec<Job> = Vec::new();
        let mut i: usize = 0;
        while i < self.jobs.len()
            invariant
                i <= self.jobs.len(),
                snapshot@.len() == i,
                forall|k: int| 0 <= k < i ==> snapshot@[k]@ == self.jobs@[k]@,
            decreases self.jobs.len() - i,
        {
            snapshot.push(self.jobs[i].clone());
            i += 1;
        }
        assert(job_views(snapshot@) =~= self@);
        snapshot
    }

    /// Overwrites the status of the job that a textual identifier addresses,
    /// whatever its current status, and says whether there was such a job.
    fn overwrite_status(&mut self, job_id: &str, status: JobStatus) -> (found: bool)
        ensures
            found == (uuid_parse(job_id@) matches Some(id) && has_id(old(self)@, id)),
            final(self)@ == match uuid_parse(job_id@) {
                Some(id) => with_status_of(old(self)@, id, status@),
                None => old(self)@,
            },
            distinct_ids(final(self)@),
    {
        proof {
            use_type_invariant(&*self);
        }
        match self.lookup(job_id) {
            Some(handle) => {
                set_status(&mut self.jobs, handle.index, status);
                assert(self@ =~= with_status_of(
                    old(self)@,
                    uuid_parse(job_id@).unwrap(),
                    status@,
                ));
                true
            },
            None => {
                proof {
                    if let Some(id) = uuid_parse(job_id@) {
                        assert(self@ =~= with_status_of(old(self)@, id, status@));
                    }
                }
                false
            },
        }
    }

    /// Marks the addressed job Suspended, whatever its current status, and
    /// says whether there was such a job. No other field and no other job
    /// changes.
    pub fn suspend_job(&mut self, job_id: String) -> (found: bool)
        ensures
            found == (uuid_parse(job_id@) matches Some(id) && has_id(old(self)@, id)),
            final(self)@ == match uuid_parse(job_id@) {
                Some(id) => with_status_of(old(self)@, id, StatusView::Suspended),
                None => old(self)@,
            },
            distinct_ids(final(self)@),
    {
        self.overwrite_status(job_id.as_str(), JobStatus::Suspended)
    }

    /// Marks the addressed job Canceled, whatever its current status, and
    /// says whether there was such a job. No other field and no other job
    /// changes.
    pub fn cancel_job(&mut self, job_id: String) -> (found: bool)
        ensures
            found == (uuid_parse(job_id@) matches Some(id) && has_id(old(self)@, id)),
            final(self)@ == match uuid_parse(job_id@) {
                Some(id) => with_status_of(old(self)@, id, StatusView::Canceled),
                None => old(self)@,
            },
            distinct_ids(final(self)@),
    {
        self.overwrite_status(job_id.as_str(), JobStatus::Canceled)
    }

    /// Marks the addressed job Running, whatever its current status, and
    /// says whether there was such a job. No other field and no other job
    /// changes.
    pub fn resume_job(&mut self, job_id: String) -> (found: bool)
        ensures
            found == (uuid_parse(job_id@) matches Some(id) && has_id(old(self)@, id)),
            final(self)@ == match uuid_parse(job_id@) {
                Some(id) => with_status_of(old(self)@, id, StatusView::Running),
                None => old(self)@,
            },
            distinct_ids(final(self)@),
    {
        self.overwrite_status(job_id.as_str(), JobStatus::Running)
    }

    /// Counts one more completed write for a registered job.
    pub fn increment_job_writes(&mut self, handle: JobHandle)
        requires
            handle.index < old(self)@.len(),
            old(self)@[handle.index as int].writes < u64::MAX,
        ensures
            final(self)@ == old(self)@.update(
                handle.index as int,
                old(self)@[handle.index as int].with_writes(
                    (old(self)@[handle.index as int].writes + 1) as u64,
                ),
            ),
            distinct_ids(final(self)@),
    {
        proof {
            use_type_invariant(&*self);
        }
        count_write(&mut self.jobs, handle.index);
    }

    /// Overwrites the status of a registered job.
    pub fn update_job_status(&mut self, handle: JobHandle, new_status: JobStatus)
        requires
            handle.index < old(self)@.len(),
        ensures
            final(self)@ == old(self)@.update(
                handle.index as int,
                old(self)@[handle.index as int].with_status(new_status@),
            ),
            distinct_ids(final(self)@),
    {
        proof {
            use_type_invariant(&*self);
        }
        set_status(&mut self.jobs, handle.index, new_status);
    }
}

} // verus!
