//! The rendering scheduler: a bounded live-count of worker tasks, the
//! decision of whether to pop a job, and the collection of the per-format
//! results into one job outcome.
//!
//! The shell runs the loop: it asks `scheduler_step` what to do, spawns a
//! worker per popped job, drives each export format's pipeline, and hands
//! the per-format results back to `collect_results`.

use vstd::prelude::*;
use crate::queue::{is_disk, JobQueue, RenderingRequest, UploadedFiles};
use crate::status::RenderingError;

verus! {

broadcast use vstd::seq_lib::lemma_seq_concat_contains_all_elements;

/// The count of live worker tasks, bounded by the configured ceiling.
pub struct WorkerCounter {
    live: u64,
    ceiling: u64,
}

impl WorkerCounter {
    /// Worker tasks currently running.
    pub closed spec fn live(&self) -> u64 {
        self.live
    }

    /// The configured `max_rendering_threads`.
    pub closed spec fn ceiling(&self) -> u64 {
        self.ceiling
    }

    /// Concurrency ceiling invariant: never more live workers than allowed.
    pub open spec fn wf(&self) -> bool {
        self.live() <= self.ceiling()
    }

    pub fn new(max_rendering_threads: u64) -> (c: WorkerCounter)
        ensures
            c.wf(),
            c.live() == 0,
            c.ceiling() == max_rendering_threads,
    {
        WorkerCounter { live: 0, ceiling: max_rendering_threads }
    }

    /// Claims a worker slot; refused when the ceiling is reached, so the
    /// count can never pass it.
    pub fn try_acquire(&mut self) -> (r: bool)
        requires
            old(self).wf(),
        ensures
            final(self).wf(),
            final(self).ceiling() == old(self).ceiling(),
            r == (old(self).live() < old(self).ceiling()),
            r ==> final(self).live() == old(self).live() + 1,
            !r ==> final(self).live() == old(self).live(),
            final(self).live() as int == live_after_event(
                old(self).live() as int,
                old(self).ceiling() as int,
                CounterEvent::Acquire,
            ),
    {
        if self.live < self.ceiling {
            self.live = self.live + 1;
            true
        } else {
            false
        }
    }

    /// Returns a worker slot when a worker task exits.
    pub fn release(&mut self)
        requires
            old(self).wf(),
            old(self).live() >= 1,
        ensures
            final(self).wf(),
            final(self).ceiling() == old(self).ceiling(),
            final(self).live() == old(self).live() - 1,
            final(self).live() as int == live_after_event(
                old(self).live() as int,
                old(self).ceiling() as int,
                CounterEvent::Release,
            ),
    {
        self.live = self.live - 1;
    }
}

/// One event of the scheduler's life: a worker slot claimed before a spawn,
/// or released on worker exit.
pub enum CounterEvent {
    Acquire,
    Release,
}

/// The live count after one event, with the guards the executable counter
/// enforces: an acquire at the ceiling is refused, a release of an idle
/// counter changes nothing.
pub open spec fn live_after_event(live: int, ceiling: int, ev: CounterEvent) -> int {
    match ev {
        CounterEvent::Acquire => if live < ceiling {
            live + 1
        } else {
            live
        },
        CounterEvent::Release => if live > 0 {
            live - 1
        } else {
            live
        },
    }
}

/// The live count after a whole event trace, first event first.
pub open spec fn live_after(live: int, ceiling: int, evs: Seq<CounterEvent>) -> int
    decreases evs.len(),
{
    if evs.len() == 0 {
        live
    } else {
        live_after(live_after_event(live, ceiling, evs[0]), ceiling, evs.skip(1))
    }
}

/// Concurrency ceiling: starting at or below the ceiling, no trace of
/// acquires and releases ever lifts the count of live workers above
/// `max_rendering_threads`, and it never drops below zero.
pub proof fn lemma_concurrency_ceiling(live: int, ceiling: int, evs: Seq<CounterEvent>)
    requires
        0 <= live <= ceiling,
    ensures
        0 <= live_after(live, ceiling, evs) <= ceiling,
    decreases evs.len(),
{
    if evs.len() > 0 {
        lemma_concurrency_ceiling(live_after_event(live, ceiling, evs[0]), ceiling, evs.skip(1));
    }
}

/// What the scheduler loop does next.
pub enum SchedulerDecision<P, M> {
    /// The ceiling is reached: sleep briefly and retry, without popping.
    Saturated,
    /// Nothing queued: sleep and retry.
    Idle,
    /// A job was popped and a worker slot claimed for it: spawn its worker.
    Spawn(RenderingRequest<P, M>),
}

/// One turn of the scheduler loop: pop a job and claim a worker slot only
/// while below the ceiling.
pub fn scheduler_step<P, M>(counter: &mut WorkerCounter, queue: &mut JobQueue<P, M>) -> (d:
    SchedulerDecision<P, M>)
    requires
        old(counter).wf(),
        old(queue).wf(),
    ensures
        final(counter).wf(),
        final(queue).wf(),
        final(counter).ceiling() == old(counter).ceiling(),
        match d {
            SchedulerDecision::Saturated => {
                &&& old(counter).live() >= old(counter).ceiling()
                &&& final(counter).live() == old(counter).live()
                &&& final(queue)@ == old(queue)@
            },
            SchedulerDecision::Idle => {
                &&& old(counter).live() < old(counter).ceiling()
                &&& old(queue)@.len() == 0
                &&& final(counter).live() == old(counter).live()
                &&& final(queue)@ == old(queue)@
            },
            SchedulerDecision::Spawn(j) => {
                &&& old(counter).live() < old(counter).ceiling()
                &&& old(queue)@.len() > 0
                &&& j == old(queue)@[0]
                &&& is_disk(j)
                &&& final(queue)@ == old(queue)@.skip(1)
                &&& final(counter).live() == old(counter).live() + 1
            },
        },
{
    if counter.live >= counter.ceiling {
        return SchedulerDecision::Saturated;
    }
    match queue.pop_front() {
        Some(job) => {
            let got = counter.try_acquire();
            proof {
                assert(got);
            }
            SchedulerDecision::Spawn(job)
        },
        None => SchedulerDecision::Idle,
    }
}

/// The per-format rendering outcome a pipeline hands back: which produced
/// files to transfer to the peer, and which scratch directories to delete
/// once they are captured.
pub struct ExportFormatRenderingResult {
    /// Full paths of all files to read back and transfer.
    pub files_to_transfer: Vec<String>,
    /// Full paths of all scratch directories this pipeline created.
    pub temp_dirs: Vec<String>,
}

/// The files to transfer of a result sequence, concatenated in order.
pub open spec fn files_concat(
    rs: Seq<Result<ExportFormatRenderingResult, RenderingError>>,
) -> Seq<String>
    decreases rs.len(),
{
    if rs.len() == 0 {
        Seq::empty()
    } else {
        (match rs[0] {
            Ok(r) => r.files_to_transfer@,
            Err(_) => Seq::empty(),
        }) + files_concat(rs.skip(1))
    }
}

/// The scratch directories of a result sequence, concatenated in order.
pub open spec fn dirs_concat(
    rs: Seq<Result<ExportFormatRenderingResult, RenderingError>>,
) -> Seq<String>
    decreases rs.len(),
{
    if rs.len() == 0 {
        Seq::empty()
    } else {
        (match rs[0] {
            Ok(r) => r.temp_dirs@,
            Err(_) => Seq::empty(),
        }) + dirs_concat(rs.skip(1))
    }
}

/// Joins the per-format results of one job.  The first error in result
/// order wins and fails the whole job; otherwise the files to transfer and
/// the scratch directories to delete are concatenated across export formats,
/// preserving per-format order.
pub fn collect_results(results: &Vec<Result<ExportFormatRenderingResult, RenderingError>>) -> (r:
    Result<(Vec<String>, Vec<String>), RenderingError>)
    ensures
        r matches Ok(fd) ==> {
            &&& forall|i: int| 0 <= i < results@.len() ==> (#[trigger] results@[i]) is Ok
            &&& fd.0@ == files_concat(results@)
            &&& fd.1@ == dirs_concat(results@)
        },
        r matches Err(e) ==> exists|k: int|
            {
                &&& 0 <= k < results@.len()
                &&& (#[trigger] results@[k]) matches Err(e2) && e2 == e
                &&& forall|j: int| 0 <= j < k ==> (#[trigger] results@[j]) is Ok
            },
{
    let mut files: Vec<String> = Vec::new();
    let mut dirs: Vec<String> = Vec::new();
    let mut i: usize = 0;
    proof {
        assert(results@.skip(0) =~= results@);
    }
    while i < results.len()
        invariant
            i <= results@.len(),
            forall|j: int| 0 <= j < i ==> (#[trigger] results@[j]) is Ok,
            files@ + files_concat(results@.skip(i as int)) == files_concat(results@),
            dirs@ + dirs_concat(results@.skip(i as int)) == dirs_concat(results@),
        decreases results@.len() - i,
    {
        proof {
            assert(results@.skip(i as int)[0] == results@[i as int]);
            assert(results@.skip(i as int).skip(1) =~= results@.skip(i as int + 1));
        }
        match &results[i] {
            Ok(res) => {
                let mut fs = clone_strings(&res.files_to_transfer);
                let mut ds = clone_strings(&res.temp_dirs);
                files.append(&mut fs);
                dirs.append(&mut ds);
                proof {
                    assert(files@ + files_concat(results@.skip(i as int + 1)) =~= files_concat(
                        results@,
                    ));
                    assert(dirs@ + dirs_concat(results@.skip(i as int + 1)) =~= dirs_concat(
                        results@,
                    ));
                }
            },
            Err(e) => {
                let err = e.duplicate();
                proof {
                    assert(results@[i as int] matches Err(e2) && e2 == err);
                }
                return Err(err);
            },
        }
        i = i + 1;
    }
    proof {
        assert(results@.skip(i as int) =~= Seq::<
            Result<ExportFormatRenderingResult, RenderingError>,
        >::empty());
        assert(files@ + files_concat(results@.skip(i as int)) =~= files@);
        assert(dirs@ + dirs_concat(results@.skip(i as int)) =~= dirs@);
    }
    Ok((files, dirs))
}

/// Copies a vector of strings; string clones preserve the character view.
pub fn clone_strings(v: &Vec<String>) -> (r: Vec<String>)
    ensures
        r@ == v@,
{
    let mut r: Vec<String> = Vec::new();
    let mut i: usize = 0;
    while i < v.len()
        invariant
            i <= v@.len(),
            r@ == v@.take(i as int),
        decreases v@.len() - i,
    {
        r.push(v[i].clone());
        proof {
            assert(v@.take(i as int).push(v@[i as int]) =~= v@.take(i as int + 1));
        }
        i = i + 1;
    }
    proof {
        assert(v@.take(v@.len() as int) =~= v@);
    }
    r
}


/// The scratch directories a job's results report, successes and failures
/// alike, in result order.  The shell deletes these together with the
/// uploads directory (via `cleanup_dirs`) once the job reaches a terminal
/// status — on the failed path just as on the finished one, so no scratch
/// survives the job.  (A format that failed has already had its own
/// directories deleted when its pipeline was aborted; its entry reports
/// none.)
pub fn reported_dirs(results: &Vec<Result<ExportFormatRenderingResult, RenderingError>>) -> (r:
    Vec<String>)
    ensures
        r@ == dirs_concat(results@),
{
    let mut dirs: Vec<String> = Vec::new();
    let mut i: usize = 0;
    proof {
        assert(results@.skip(0) =~= results@);
    }
    while i < results.len()
        invariant
            i <= results@.len(),
            dirs@ + dirs_concat(results@.skip(i as int)) == dirs_concat(results@),
        decreases results@.len() - i,
    {
        proof {
            assert(results@.skip(i as int)[0] == results@[i as int]);
            assert(results@.skip(i as int).skip(1) =~= results@.skip(i as int + 1));
        }
        match &results[i] {
            Ok(res) => {
                let mut ds = clone_strings(&res.temp_dirs);
                dirs.append(&mut ds);
                proof {
                    assert(dirs@ + dirs_concat(results@.skip(i as int + 1)) =~= dirs_concat(
                        results@,
                    ));
                }
            },
            Err(_) => {
                proof {
                    assert(dirs@ + dirs_concat(results@.skip(i as int + 1)) =~= dirs_concat(
                        results@,
                    ));
                }
            },
        }
        i = i + 1;
    }
    proof {
        assert(results@.skip(i as int) =~= Seq::<
            Result<ExportFormatRenderingResult, RenderingError>,
        >::empty());
        assert(dirs@ + dirs_concat(results@.skip(i as int)) =~= dirs@);
    }
    dirs
}

/// The uploads directory a finished job must delete, if it has one.
pub open spec fn uploads_dir_of<P, M>(job: RenderingRequest<P, M>) -> Seq<String> {
    match job.project_uploaded_files {
        UploadedFiles::Disk(p) => seq![p],
        UploadedFiles::Memory(_) => Seq::empty(),
    }
}

/// The deletion set of one finished job: every scratch directory its
/// pipelines reported, and the on-disk uploads directory.
pub fn cleanup_dirs<P, M>(job: &RenderingRequest<P, M>, dirs: &Vec<String>) -> (r: Vec<String>)
    ensures
        r@ == dirs@ + uploads_dir_of(*job),
{
    let mut r = clone_strings(dirs);
    match &job.project_uploaded_files {
        UploadedFiles::Disk(p) => {
            r.push(p.clone());
            proof {
                assert(r@ =~= dirs@ + uploads_dir_of(*job));
            }
        },
        UploadedFiles::Memory(_) => {
            proof {
                assert(r@ =~= dirs@ + uploads_dir_of(*job));
            }
        },
    }
    r
}

/// Scratch cleanup: the concatenated deletion list of a job's results
/// contains every scratch directory any of its pipelines created.
/// `reported_dirs` computes exactly this list on the finished and the
/// failed path alike, and `cleanup_dirs` appends the uploads directory, so
/// the deletion set of a job at terminal status covers every directory the
/// job put on disk.
pub proof fn lemma_scratch_cleanup(
    rs: Seq<Result<ExportFormatRenderingResult, RenderingError>>,
    i: int,
    d: String,
)
    requires
        0 <= i < rs.len(),
        rs[i] matches Ok(res) && res.temp_dirs@.contains(d),
    ensures
        dirs_concat(rs).contains(d),
    decreases rs.len(),
{
    if i == 0 {
        assert(rs[0] matches Ok(res) && (match rs[0] {
            Ok(r0) => r0.temp_dirs@,
            Err(_) => Seq::empty(),
        }).contains(d));
    } else {
        assert(rs.skip(1)[i - 1] == rs[i]);
        lemma_scratch_cleanup(rs.skip(1), i - 1, d);
    }
}

} // verus!

