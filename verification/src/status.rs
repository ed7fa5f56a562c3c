//! Rendering statuses, the error taxonomy surfaced to the peer, and the
//! shared status map from request id to current status.
//!
//! Statuses are ordered; transitions may only move forward, and `Finished`
//! and `Failed` are terminal.  The map enforces this defensively: an update
//! that would regress is refused, and registration never overwrites an
//! existing entry.

use vstd::prelude::*;
use crate::assoc::{assoc_map, keys_unique, lemma_assoc_contains, lemma_assoc_index,
    lemma_assoc_push, lemma_assoc_remove, lemma_assoc_update, lemma_keys_unique_push,
    lemma_keys_unique_remove, lemma_keys_unique_update};

verus! {

/// An error of one rendering pipeline, surfaced to the peer inside
/// `RenderingStatus::Failed`.  Log-carrying variants hold the rendering log
/// accumulated up to the failure.
#[derive(Debug)]
pub enum RenderingError {
    TemplateNotFound,
    CouldntLoadHandlebarTemplates(String),
    HandlebarsRenderingFailed(String),
    VivliostyleRenderingFailed(String),
    PandocConversionFailed(String),
    MissingExpectedFileToKeep(String, String),
    Other(String),
}

/// A result file carried back to the peer: a bare file name and its bytes.
#[derive(Debug)]
pub struct NamedFile {
    pub name: String,
    pub content: Vec<u8>,
}

/// The status of one rendering request, in its forward order.
#[derive(Debug)]
pub enum RenderingStatus {
    SentToWorker,
    RequestingTemplate,
    Queued,
    Running,
    Finished(Vec<NamedFile>),
    Failed(RenderingError),
}

/// Position of a status in the forward order; both terminal states share the
/// top rank, so neither can replace the other.
pub open spec fn status_rank(s: RenderingStatus) -> int {
    match s {
        RenderingStatus::SentToWorker => 0,
        RenderingStatus::RequestingTemplate => 1,
        RenderingStatus::Queued => 2,
        RenderingStatus::Running => 3,
        RenderingStatus::Finished(_) => 4,
        RenderingStatus::Failed(_) => 4,
    }
}

/// `Finished` and `Failed` end a request's life.
pub open spec fn is_terminal(s: RenderingStatus) -> bool {
    status_rank(s) == 4
}

/// Executable mirror of `is_terminal`.
pub fn status_is_terminal(s: &RenderingStatus) -> (r: bool)
    ensures
        r == is_terminal(*s),
{
    match s {
        RenderingStatus::Finished(_) => true,
        RenderingStatus::Failed(_) => true,
        _ => false,
    }
}

impl RenderingError {
    /// An exact copy; string clones preserve the value, so the copy equals
    /// the original.
    pub fn duplicate(&self) -> (r: RenderingError)
        ensures
            r == *self,
    {
        match self {
            RenderingError::TemplateNotFound => RenderingError::TemplateNotFound,
            RenderingError::CouldntLoadHandlebarTemplates(s) => {
                RenderingError::CouldntLoadHandlebarTemplates(s.clone())
            },
            RenderingError::HandlebarsRenderingFailed(s) => {
                RenderingError::HandlebarsRenderingFailed(s.clone())
            },
            RenderingError::VivliostyleRenderingFailed(s) => {
                RenderingError::VivliostyleRenderingFailed(s.clone())
            },
            RenderingError::PandocConversionFailed(s) => {
                RenderingError::PandocConversionFailed(s.clone())
            },
            RenderingError::MissingExpectedFileToKeep(n, l) => {
                RenderingError::MissingExpectedFileToKeep(n.clone(), l.clone())
            },
            RenderingError::Other(s) => RenderingError::Other(s.clone()),
        }
    }
}

/// The shared map from request id to current rendering status.
pub struct StatusMap {
    entries: Vec<(u128, RenderingStatus)>,
}

impl StatusMap {
    /// The map this store denotes.
    pub closed spec fn view(&self) -> Map<u128, RenderingStatus> {
        assoc_map(self.entries@)
    }

    /// Internal invariant: one entry per request id.
    pub closed spec fn wf(&self) -> bool {
        keys_unique(self.entries@)
    }

    pub fn new() -> (r: StatusMap)
        ensures
            r.wf(),
            r@ == Map::<u128, RenderingStatus>::empty(),
    {
        StatusMap { entries: Vec::new() }
    }

    /// Index of the entry carrying `id`, if any.
    fn find(&self, id: u128) -> (r: Option<usize>)
        requires
            self.wf(),
        ensures
            match r {
                Some(i) => i < self.entries@.len() && self.entries@[i as int].0 == id,
                None => forall|i: int|
                    0 <= i < self.entries@.len() ==> (#[trigger] self.entries@[i]).0 != id,
            },
    {
        let mut i: usize = 0;
        while i < self.entries.len()
            invariant
                i <= self.entries@.len(),
                forall|j: int| 0 <= j < i ==> (#[trigger] self.entries@[j]).0 != id,
            decreases self.entries@.len() - i,
        {
            if self.entries[i].0 == id {
                return Some(i);
            }
            i = i + 1;
        }
        None
    }

    /// Whether a status is registered under `id`.
    pub fn contains(&self, id: u128) -> (r: bool)
        requires
            self.wf(),
        ensures
            r == self@.contains_key(id),
    {
        proof {
            lemma_assoc_contains(self.entries@, id);
        }
        match self.find(id) {
            Some(i) => {
                proof {
                    lemma_assoc_index(self.entries@, i as int);
                }
                true
            },
            None => false,
        }
    }

    /// The status registered under `id`, if any.
    pub fn get(&self, id: u128) -> (r: Option<&RenderingStatus>)
        requires
            self.wf(),
        ensures
            match r {
                Some(s) => self@.contains_key(id) && *s == self@[id],
                None => !self@.contains_key(id),
            },
    {
        proof {
            lemma_assoc_contains(self.entries@, id);
        }
        match self.find(id) {
            Some(i) => {
                proof {
                    lemma_assoc_index(self.entries@, i as int);
                }
                Some(&self.entries[i].1)
            },
            None => None,
        }
    }

    /// Registers a fresh request.  A request id already present is left
    /// untouched and the call reports failure: a second submission under a
    /// live id is rejected, never overwritten.
    pub fn register(&mut self, id: u128, s: RenderingStatus) -> (r: bool)
        requires
            old(self).wf(),
        ensures
            final(self).wf(),
            r == !old(self)@.contains_key(id),
            r ==> final(self)@ == old(self)@.insert(id, s),
            !r ==> final(self)@ == old(self)@,
            final(self)@ == apply_status_op(old(self)@, StatusOp::Register(id, s)),
    {
        proof {
            lemma_assoc_contains(self.entries@, id);
        }
        match self.find(id) {
            Some(i) => {
                proof {
                    lemma_assoc_index(self.entries@, i as int);
                }
                false
            },
            None => {
                proof {
                    lemma_assoc_push(self.entries@, id, s);
                    lemma_keys_unique_push(self.entries@, id, s);
                }
                self.entries.push((id, s));
                true
            },
        }
    }

    /// Moves the status under `id` forward.  The update is applied exactly
    /// when the id is registered, the current status is not terminal, and the
    /// new status does not rank below the current one; otherwise the map is
    /// unchanged and the call reports failure.
    pub fn advance(&mut self, id: u128, s: RenderingStatus) -> (r: bool)
        requires
            old(self).wf(),
        ensures
            final(self).wf(),
            r == (old(self)@.contains_key(id) && !is_terminal(old(self)@[id]) && status_rank(
                old(self)@[id],
            ) <= status_rank(s)),
            r ==> final(self)@ == old(self)@.insert(id, s),
            !r ==> final(self)@ == old(self)@,
            final(self)@ == apply_status_op(old(self)@, StatusOp::Advance(id, s)),
    {
        proof {
            lemma_assoc_contains(self.entries@, id);
        }
        match self.find(id) {
            Some(i) => {
                proof {
                    lemma_assoc_index(self.entries@, i as int);
                }
                let cur_terminal = status_is_terminal(&self.entries[i].1);
                let cur_rank = status_rank_exec(&self.entries[i].1);
                let new_rank = status_rank_exec(&s);
                if cur_terminal || new_rank < cur_rank {
                    false
                } else {
                    proof {
                        lemma_assoc_update(self.entries@, i as int, s);
                        lemma_keys_unique_update(self.entries@, i as int, s);
                    }
                    let ghost k = self.entries@[i as int].0;
                    self.entries.set(i, (id, s));
                    proof {
                        assert(k == id);
                    }
                    true
                }
            },
            None => false,
        }
    }

    /// Drops the entry under `id`, if any; done by the connection handler
    /// after it has reported a terminal status to the peer.
    pub fn remove(&mut self, id: u128)
        requires
            old(self).wf(),
        ensures
            final(self).wf(),
            final(self)@ == old(self)@.remove(id),
            final(self)@ == apply_status_op(old(self)@, StatusOp::Remove(id)),
    {
        proof {
            lemma_assoc_contains(self.entries@, id);
        }
        match self.find(id) {
            Some(i) => {
                proof {
                    lemma_assoc_remove(self.entries@, i as int);
                    lemma_keys_unique_remove(self.entries@, i as int);
                }
                self.entries.remove(i);
            },
            None => {
                proof {
                    assert(self@.remove(id) =~= self@);
                }
            },
        }
    }
}

/// One mutation of the status map, as the producers perform them: the
/// connection handler registers and removes, and handler and scheduler
/// advance.
pub enum StatusOp {
    Register(u128, RenderingStatus),
    Advance(u128, RenderingStatus),
    Remove(u128),
}

/// What one mutation does to the map; each executable method of `StatusMap`
/// ensures exactly this effect.
pub open spec fn apply_status_op(
    m: Map<u128, RenderingStatus>,
    op: StatusOp,
) -> Map<u128, RenderingStatus> {
    match op {
        StatusOp::Register(id, s) => if m.contains_key(id) {
            m
        } else {
            m.insert(id, s)
        },
        StatusOp::Advance(id, s) => if m.contains_key(id) && !is_terminal(m[id]) && status_rank(
            m[id],
        ) <= status_rank(s) {
            m.insert(id, s)
        } else {
            m
        },
        StatusOp::Remove(id) => m.remove(id),
    }
}

/// The map after a whole sequence of mutations, first mutation first.
pub open spec fn apply_status_ops(
    m: Map<u128, RenderingStatus>,
    ops: Seq<StatusOp>,
) -> Map<u128, RenderingStatus>
    decreases ops.len(),
{
    if ops.len() == 0 {
        m
    } else {
        apply_status_ops(apply_status_op(m, ops[0]), ops.skip(1))
    }
}

/// Status monotonicity, one step: while a request id stays registered, no
/// single mutation lowers its status rank.
pub proof fn lemma_status_step_monotonic(m: Map<u128, RenderingStatus>, op: StatusOp, id: u128)
    requires
        m.contains_key(id),
        apply_status_op(m, op).contains_key(id),
    ensures
        status_rank(m[id]) <= status_rank(apply_status_op(m, op)[id]),
{
}

/// Status monotonicity, whole traces: once a request id carries a terminal
/// status, no sequence of mutations makes a later read of that id return a
/// non-terminal status, as long as no new request is registered under the
/// same id.  (A read after removal returns nothing, and the connection
/// handler turns that into the terminal `Failed`; a fresh registration under
/// a removed id starts a new request's life, which is the one way a
/// non-terminal status can ever follow a terminal one.)
pub proof fn lemma_status_terminal_stable(
    m: Map<u128, RenderingStatus>,
    ops: Seq<StatusOp>,
    id: u128,
)
    requires
        m.contains_key(id),
        is_terminal(m[id]),
        forall|i: int| 0 <= i < ops.len() ==> !(#[trigger] ops[i] matches StatusOp::Register(
            rid,
            _,
        ) && rid == id),
    ensures
        apply_status_ops(m, ops).contains_key(id) ==> is_terminal(apply_status_ops(m, ops)[id]),
    decreases ops.len(),
{
    if ops.len() > 0 {
        let m1 = apply_status_op(m, ops[0]);
        if m1.contains_key(id) {
            lemma_status_step_monotonic(m, ops[0], id);
            lemma_status_terminal_stable(m1, ops.skip(1), id);
        } else {
            lemma_status_absent_stays_absent(m1, ops.skip(1), id);
        }
    }
}

/// Helper for the trace law: an absent id can only re-enter the map through
/// registration, so over a trace that never registers it, it stays absent.
pub proof fn lemma_status_absent_stays_absent(
    m: Map<u128, RenderingStatus>,
    ops: Seq<StatusOp>,
    id: u128,
)
    requires
        !m.contains_key(id),
        forall|i: int| 0 <= i < ops.len() ==> !(#[trigger] ops[i] matches StatusOp::Register(
            rid,
            _,
        ) && rid == id),
    ensures
        !apply_status_ops(m, ops).contains_key(id),
    decreases ops.len(),
{
    if ops.len() > 0 {
        let m1 = apply_status_op(m, ops[0]);
        assert(!m1.contains_key(id));
        lemma_status_absent_stays_absent(m1, ops.skip(1), id);
    }
}

/// Executable mirror of `status_rank`.
pub fn status_rank_exec(s: &RenderingStatus) -> (r: u8)
    ensures
        r as int == status_rank(*s),
{
    match s {
        RenderingStatus::SentToWorker => 0,
        RenderingStatus::RequestingTemplate => 1,
        RenderingStatus::Queued => 2,
        RenderingStatus::Running => 3,
        RenderingStatus::Finished(_) => 4,
        RenderingStatus::Failed(_) => 4,
    }
}

} // verus!
