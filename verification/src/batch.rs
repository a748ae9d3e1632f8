//! The orchestrator's bookkeeping for one batch: which jobs are waiting,
//! which are in flight, and which are done, under a counting admission limit.
//!
//! The admission counter is the only state shared across jobs; everything
//! here is specified exactly, and well-formedness carries the concurrency
//! bound: no more jobs in flight than the configured limit, ever.

use vstd::prelude::*;
use crate::outcome::{BatchResult, ErrorKind, JobResult};

verus! {

/// The orchestrator's view of one submitted job.
#[derive(Debug, PartialEq, Eq)]
pub enum Slot {
    /// Not yet dispatched; waiting for admission.
    Pending,
    /// Dispatched and in flight (transferring, verifying or committing).
    Active,
    /// Finished, with its terminal record.
    Done(JobResult),
}

impl Slot {
    /// Whether this job is still waiting for admission.
    pub fn is_pending(&self) -> (r: bool)
        ensures
            r == (self is Pending),
    {
        match self {
            Slot::Pending => true,
            _ => false,
        }
    }
}

/// How many jobs are in flight.
pub open spec fn count_active(s: Seq<Slot>) -> int
    decreases s.len(),
{
    if s.len() == 0 {
        0
    } else {
        count_active(s.drop_last()) + if s.last() is Active {
            1int
        } else {
            0int
        }
    }
}

/// `count_active` is a count: between zero and the number of slots.
pub proof fn lemma_count_active_bounds(s: Seq<Slot>)
    ensures
        0 <= count_active(s) <= s.len(),
    decreases s.len(),
{
    if s.len() > 0 {
        lemma_count_active_bounds(s.drop_last());
    }
}

/// With no slot in flight, the count is zero.
pub proof fn lemma_count_active_none(s: Seq<Slot>)
    requires
        forall|k: int| 0 <= k < s.len() ==> !(#[trigger] s[k] is Active),
    ensures
        count_active(s) == 0,
    decreases s.len(),
{
    if s.len() > 0 {
        lemma_count_active_none(s.drop_last());
    }
}

/// An in-flight slot contributes one to the count.
pub proof fn lemma_count_active_pos(s: Seq<Slot>, i: int)
    requires
        0 <= i < s.len(),
        s[i] is Active,
    ensures
        count_active(s) >= 1,
    decreases s.len(),
{
    lemma_count_active_bounds(s.drop_last());
    if i < s.len() - 1 {
        lemma_count_active_pos(s.drop_last(), i);
    }
}

/// Replacing one slot changes the count by exactly the difference the two
/// slots contribute.
pub proof fn lemma_count_active_update(s: Seq<Slot>, i: int, v: Slot)
    requires
        0 <= i < s.len(),
    ensures
        count_active(s.update(i, v)) == count_active(s) + (if v is Active {
            1int
        } else {
            0int
        }) - (if s[i] is Active {
            1int
        } else {
            0int
        }),
    decreases s.len(),
{
    let t = s.update(i, v);
    if i == s.len() - 1 {
        assert(t.drop_last() =~= s.drop_last());
    } else {
        assert(t.drop_last() =~= s.drop_last().update(i, v));
        lemma_count_active_update(s.drop_last(), i, v);
    }
}

/// One batch of jobs under a counting admission limit. `slots` is indexed by
/// submission order and never reordered, so the final results preserve the
/// order the descriptors were submitted in.
pub struct Batch {
    /// One entry per submitted descriptor, in submission order.
    pub slots: Vec<Slot>,
    /// How many slots are currently `Active`.
    pub active: usize,
    /// The admission limit: at most this many jobs in flight at once.
    pub max_concurrency: usize,
}

impl Batch {
    /// Well-formedness: the counter agrees with the slots and never exceeds
    /// the admission limit.
    pub open spec fn wf(&self) -> bool {
        &&& self.active as int == count_active(self.slots@)
        &&& self.active <= self.max_concurrency
        &&& self.max_concurrency >= 1
    }

    /// Every job has finished.
    pub open spec fn all_done(&self) -> bool {
        forall|k: int| 0 <= k < self.slots@.len() ==> #[trigger] self.slots@[k] matches Slot::Done(_)
    }

    /// A fresh batch of `n_jobs` pending jobs.
    pub fn new(n_jobs: usize, max_concurrency: usize) -> (b: Batch)
        requires
            max_concurrency >= 1,
        ensures
            b.wf(),
            b.max_concurrency == max_concurrency,
            b.active == 0,
            b.slots@.len() == n_jobs,
            forall|k: int| 0 <= k < n_jobs ==> #[trigger] b.slots@[k] is Pending,
    {
        let mut slots: Vec<Slot> = Vec::new();
        let mut j: usize = 0;
        while j < n_jobs
            invariant
                j <= n_jobs,
                slots@.len() == j,
                forall|k: int| 0 <= k < j ==> #[trigger] slots@[k] is Pending,
            decreases n_jobs - j,
        {
            slots.push(Slot::Pending);
            j += 1;
        }
        proof {
            lemma_count_active_none(slots@);
        }
        Batch { slots, active: 0, max_concurrency }
    }

    /// Admit the next waiting job, if the limit allows one more in flight:
    /// the first `Pending` slot (submission order) becomes `Active`.
    pub fn try_admit(&mut self) -> (r: Option<usize>)
        requires
            old(self).wf(),
        ensures
            final(self).wf(),
            final(self).max_concurrency == old(self).max_concurrency,
            final(self).slots@.len() == old(self).slots@.len(),
            r is None <==> (old(self).active >= old(self).max_concurrency || forall|k: int|
                0 <= k < old(self).slots@.len() ==> !(#[trigger] old(self).slots@[k] is Pending)),
            r is None ==> *final(self) == *old(self),
            r matches Some(i) ==> {
                &&& (i as int) < old(self).slots@.len()
                &&& old(self).slots@[i as int] is Pending
                &&& forall|k: int| 0 <= k < i as int ==> !(#[trigger] old(self).slots@[k] is Pending)
                &&& final(self).slots@ == old(self).slots@.update(i as int, Slot::Active)
                &&& old(self).active < old(self).max_concurrency
                &&& final(self).active == old(self).active + 1
            },
    {
        if self.active >= self.max_concurrency {
            return None;
        }
        let n = self.slots.len();
        let mut j: usize = 0;
        while j < n
            invariant
                old(self).wf(),
                *self == *old(self),
                self.active < self.max_concurrency,
                n == self.slots@.len(),
                j <= n,
                forall|k: int| 0 <= k < j ==> !(#[trigger] self.slots@[k] is Pending),
            decreases n - j,
        {
            if self.slots[j].is_pending() {
                proof {
                    lemma_count_active_update(self.slots@, j as int, Slot::Active);
                }
                self.slots.set(j, Slot::Active);
                self.active = self.active + 1;
                return Some(j);
            }
            j += 1;
        }
        None
    }

    /// Record the terminal result of an in-flight job, freeing one admission
    /// slot.
    pub fn complete(&mut self, i: usize, result: JobResult)
        requires
            old(self).wf(),
            (i as int) < old(self).slots@.len(),
            old(self).slots@[i as int] is Active,
        ensures
            final(self).wf(),
            final(self).max_concurrency == old(self).max_concurrency,
            final(self).slots@ == old(self).slots@.update(i as int, Slot::Done(result)),
            final(self).active == old(self).active - 1,
    {
        proof {
            lemma_count_active_pos(self.slots@, i as int);
            lemma_count_active_update(self.slots@, i as int, Slot::Done(result));
        }
        self.slots.set(i, Slot::Done(result));
        self.active = self.active - 1;
    }

    /// Cooperative cancellation of everything not yet started: every still
    /// `Pending` job is recorded as `Failed { Cancelled }` with zero attempts.
    /// In-flight and finished jobs are left untouched; in particular a job
    /// that already committed keeps its `Succeeded` record.
    pub fn cancel_pending(&mut self)
        requires
            old(self).wf(),
        ensures
            final(self).wf(),
            final(self).max_concurrency == old(self).max_concurrency,
            final(self).active == old(self).active,
            final(self).slots@.len() == old(self).slots@.len(),
            forall|k: int|
                0 <= k < old(self).slots@.len() && old(self).slots@[k] is Pending
                    ==> #[trigger] final(self).slots@[k] == Slot::Done(JobResult::Failed {
                    reason: ErrorKind::Cancelled,
                    attempts_made: 0,
                }),
            forall|k: int|
                0 <= k < old(self).slots@.len() && !(old(self).slots@[k] is Pending)
                    ==> #[trigger] final(self).slots@[k] == old(self).slots@[k],
    {
        let n = self.slots.len();
        let mut j: usize = 0;
        while j < n
            invariant
                self.active == old(self).active,
                self.max_concurrency == old(self).max_concurrency,
                old(self).wf(),
                self.active as int == count_active(self.slots@),
                n == self.slots@.len(),
                old(self).slots@.len() == n,
                j <= n,
                forall|k: int|
                    0 <= k < j && old(self).slots@[k] is Pending
                        ==> #[trigger] self.slots@[k] == Slot::Done(JobResult::Failed {
                        reason: ErrorKind::Cancelled,
                        attempts_made: 0,
                    }),
                forall|k: int|
                    0 <= k < j && !(old(self).slots@[k] is Pending)
                        ==> #[trigger] self.slots@[k] == old(self).slots@[k],
                forall|k: int| j <= k < n ==> #[trigger] self.slots@[k] == old(self).slots@[k],
            decreases n - j,
        {
            if self.slots[j].is_pending() {
                proof {
                    lemma_count_active_update(
                        self.slots@,
                        j as int,
                        Slot::Done(JobResult::Failed {
                            reason: ErrorKind::Cancelled,
                            attempts_made: 0,
                        }),
                    );
                }
                self.slots.set(
                    j,
                    Slot::Done(JobResult::Failed {
                        reason: ErrorKind::Cancelled,
                        attempts_made: 0,
                    }),
                );
            }
            j += 1;
        }
    }

    /// Hand out the batch result: one `JobResult` per submitted descriptor,
    /// in submission order, regardless of the order the jobs finished in.
    pub fn collect(self) -> (r: BatchResult)
        requires
            self.all_done(),
        ensures
            r@.len() == self.slots@.len(),
            forall|i: int|
                0 <= i < self.slots@.len() ==> #[trigger] self.slots@[i] == Slot::Done(r@[i]),
    {
        let ghost orig = self.slots@;
        let mut rest = self.slots;
        let mut out: Vec<JobResult> = Vec::new();
        let n = rest.len();
        let mut j: usize = 0;
        while j < n
            invariant
                n == orig.len(),
                j <= n,
                rest@ =~= orig.skip(j as int),
                out@.len() == j,
                forall|k: int| 0 <= k < j ==> #[trigger] orig[k] == Slot::Done(out@[k]),
                forall|k: int| 0 <= k < orig.len() ==> #[trigger] orig[k] matches Slot::Done(_),
            decreases n - j,
        {
            let s = rest.remove(0);
            proof {
                assert(orig.skip(j as int).remove(0) =~= orig.skip(j as int + 1));
            }
            match s {
                Slot::Done(jr) => {
                    out.push(jr);
                },
                _ => {
                    proof {
                        assert(false);
                    }
                },
            }
            j += 1;
        }
        out
    }
}

/// Concurrency bound: in every well-formed orchestrator state, the number of
/// jobs in flight is at most the configured admission limit.
pub proof fn lemma_concurrency_bounded(b: Batch)
    requires
        b.wf(),
    ensures
        count_active(b.slots@) <= b.max_concurrency,
{
}

} // verus!
