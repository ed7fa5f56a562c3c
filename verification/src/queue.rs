//! Rendering requests and the shared job queue.
//!
//! The queue discipline is newest-first: submissions go to the front and the
//! scheduler also pops from the front, so a peer observes its freshly
//! submitted job before older backlog.  Every queued job has its uploads
//! normalized to an on-disk directory before it enters the queue; the
//! scheduler never sees in-memory uploads.
//!
//! The prepared document model and the in-memory file tree are opaque to this
//! core and appear as the type parameters `P` and `M`: the codec collaborator
//! produces them, the rendering tools consume them, and the core only carries
//! them through.

use std::collections::VecDeque;
use vstd::prelude::*;

verus! {

/// Project uploads as submitted: either an in-memory file tree, or a
/// directory already on the worker's disk.
pub enum UploadedFiles<M> {
    Memory(M),
    Disk(String),
}

/// One rendering job as submitted by the peer.
pub struct RenderingRequest<P, M> {
    pub request_id: u128,
    pub template_id: u128,
    pub template_version_id: u128,
    /// Slugs of the export formats to render, e.g. `pdf` or `epub`.
    pub export_formats: Vec<String>,
    /// Opaque document model handed to the templating step.
    pub prepared_project: P,
    pub project_uploaded_files: UploadedFiles<M>,
}

/// Whether a request's uploads are already materialized on disk.
pub open spec fn is_disk<P, M>(r: RenderingRequest<P, M>) -> bool {
    r.project_uploaded_files matches UploadedFiles::Disk(_)
}

/// Executable mirror of `is_disk`.
pub fn request_is_disk<P, M>(r: &RenderingRequest<P, M>) -> (b: bool)
    ensures
        b == is_disk(*r),
{
    match &r.project_uploaded_files {
        UploadedFiles::Disk(_) => true,
        UploadedFiles::Memory(_) => false,
    }
}

/// The shared queue of accepted jobs, newest first.
pub struct JobQueue<P, M> {
    items: VecDeque<RenderingRequest<P, M>>,
}

impl<P, M> JobQueue<P, M> {
    /// The queue's contents, front first.
    pub closed spec fn view(&self) -> Seq<RenderingRequest<P, M>> {
        self.items@
    }

    /// Invariant: every queued job has disk-normalized uploads.
    pub closed spec fn wf(&self) -> bool {
        forall|i: int| 0 <= i < self.items@.len() ==> is_disk(#[trigger] self.items@[i])
    }

    pub fn new() -> (q: JobQueue<P, M>)
        ensures
            q.wf(),
            q@ == Seq::<RenderingRequest<P, M>>::empty(),
    {
        JobQueue { items: VecDeque::new() }
    }

    pub fn len(&self) -> (n: usize)
        ensures
            n == self@.len(),
    {
        self.items.len()
    }

    /// Submits a job at the front of the queue.  Only disk-normalized jobs
    /// may enter: the connection handler stages in-memory uploads first.
    pub fn push_front(&mut self, r: RenderingRequest<P, M>)
        requires
            old(self).wf(),
            is_disk(r),
        ensures
            final(self).wf(),
            final(self)@ == seq![r] + old(self)@,
    {
        self.items.push_front(r);
    }

    /// Pops the newest job.  Every popped job has disk-normalized uploads.
    pub fn pop_front(&mut self) -> (r: Option<RenderingRequest<P, M>>)
        requires
            old(self).wf(),
        ensures
            final(self).wf(),
            match r {
                Some(j) => old(self)@.len() > 0 && j == old(self)@[0] && final(self)@ == old(
                    self,
                )@.skip(1) && is_disk(j),
                None => old(self)@.len() == 0 && final(self)@ == old(self)@,
            },
    {
        let r = self.items.pop_front();
        proof {
            if old(self)@.len() > 0 {
                assert(old(self)@.subrange(1, old(self)@.len() as int) =~= old(self)@.skip(1));
            }
        }
        r
    }
}

/// The queue contents after submitting each job of `rs`, in order, at the
/// front of a queue that held `s`.
pub open spec fn after_pushes<P, M>(
    s: Seq<RenderingRequest<P, M>>,
    rs: Seq<RenderingRequest<P, M>>,
) -> Seq<RenderingRequest<P, M>>
    decreases rs.len(),
{
    if rs.len() == 0 {
        s
    } else {
        after_pushes(seq![rs[0]] + s, rs.skip(1))
    }
}

/// Queue discipline: submitting `n` jobs at the front and then popping `n`
/// jobs from the front yields the jobs in reverse submission order, and
/// leaves the queue as it was.
pub proof fn lemma_queue_discipline<P, M>(
    s: Seq<RenderingRequest<P, M>>,
    rs: Seq<RenderingRequest<P, M>>,
)
    ensures
        after_pushes(s, rs).take(rs.len() as int) == rs.reverse(),
        after_pushes(s, rs).skip(rs.len() as int) == s,
{
    lemma_after_pushes(s, rs);
    assert(after_pushes(s, rs).take(rs.len() as int) =~= rs.reverse());
    assert(after_pushes(s, rs).skip(rs.len() as int) =~= s);
}

/// Front-insertion builds the reverse of the submission order ahead of the
/// old contents.
pub proof fn lemma_after_pushes<P, M>(
    s: Seq<RenderingRequest<P, M>>,
    rs: Seq<RenderingRequest<P, M>>,
)
    ensures
        after_pushes(s, rs) == rs.reverse() + s,
    decreases rs.len(),
{
    if rs.len() == 0 {
        assert(after_pushes(s, rs) =~= rs.reverse() + s);
    } else {
        lemma_after_pushes(seq![rs[0]] + s, rs.skip(1));
        assert(rs.skip(1).reverse() + (seq![rs[0]] + s) =~= rs.reverse() + s);
    }
}

} // verus!
