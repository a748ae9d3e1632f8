//! The download execution engine: drives one job's state machine to
//! completion against a described environment, and runs a whole batch under
//! the admission limit, collecting results in submission order.
//!
//! The environment of one job — which mirrors respond, which staged results
//! pass the verification gate, whether the final rename succeeds — is given
//! as data (`TransferPlan`), so the engine's guarantees are proved once, for
//! every environment: a job succeeds whenever some mirror both responds and
//! verifies and the commit goes through, and exhausts its sources exactly
//! when no mirror does.

use vstd::prelude::*;
use crate::batch::{Batch, Slot};
use crate::download::Download;
use crate::job::{untried, JobState, Selection};
use crate::job::{lemma_untried_empty_all_tried, lemma_untried_update};
use crate::outcome::{BatchResult, CommitOutcome, ErrorKind, JobResult, TransferOutcome};

verus! {

/// A deterministic description of the environment one job runs against,
/// mirror by mirror. Tests and callers inject it in place of a live
/// transport, as the selection and retry policy is a pure function of the
/// remaining sources and these outcomes.
pub struct TransferPlan {
    /// Whether a transfer attempt against source `i` completes at the
    /// transport level.
    pub reachable: Vec<bool>,
    /// Whether data staged from source `i` passes the verification gate.
    pub verifies: Vec<bool>,
    /// Whether the final atomic rename succeeds once a staged file has been
    /// verified.
    pub commit_ok: bool,
    /// The random draws handed to mirror selection, one per attempt; a short
    /// list falls back to the first remaining candidate.
    pub picks: Vec<usize>,
}

impl TransferPlan {
    /// Number of sources described.
    pub open spec fn n(&self) -> int {
        self.reachable@.len() as int
    }

    /// One behaviour per source, and at least one source.
    pub open spec fn wf(&self) -> bool {
        &&& self.reachable@.len() == self.verifies@.len()
        &&& self.reachable@.len() >= 1
    }

    /// A good source both responds and yields data that verifies: attempting
    /// it can only fail at commit time.
    pub open spec fn good(&self, i: int) -> bool {
        self.reachable@[i] && self.verifies@[i]
    }
}

/// What the engine guarantees of one job's terminal record `res`, given the
/// environment `plan` it ran against and the job's final target path:
/// if no source is good, the job fails with `SourcesExhausted` after trying
/// every source once; if some source is good and the commit goes through, the
/// job succeeds with the file at `target`.
pub open spec fn job_post(plan: TransferPlan, target: String, res: JobResult) -> bool {
    &&& (forall|i: int| 0 <= i < plan.n() ==> !plan.good(i)) ==> res == (JobResult::Failed {
        reason: ErrorKind::SourcesExhausted,
        attempts_made: plan.reachable@.len() as usize,
    })
    &&& ((exists|i: int| 0 <= i < plan.n() && plan.good(i)) && plan.commit_ok) ==> res
        == (JobResult::Succeeded { final_path: target })
}

/// Drive one job from `Pending` to its terminal state against the given
/// environment: select a mirror, attempt it, gate the result on verification,
/// and commit or retry, until success or exhaustion.
///
/// The returned state is terminal and well-formed; in particular a failed job
/// holds no staging file and has committed nothing to the target path.
pub fn run_job(plan: &TransferPlan, target: String) -> (s: JobState)
    requires
        plan.wf(),
    ensures
        s.wf(),
        s.phase is Done,
        s.n_sources == plan.reachable@.len(),
        s.result matches Some(res) && job_post(*plan, target, res),
        s.result matches Some(JobResult::Failed { .. }) ==> s.staging_path is None
            && !s.committed,
{
    let n = plan.reachable.len();
    let mut st = JobState::new(n);
    loop
        invariant
            plan.wf(),
            n == plan.reachable@.len(),
            st.wf(),
            st.phase is Selecting,
            st.n_sources == n,
            st.max_attempts == n,
            forall|i: int| 0 <= i < n && #[trigger] st.tried@[i] ==> !plan.good(i),
        decreases untried(st.tried@).len(),
    {
        let pick = if st.attempts < plan.picks.len() {
            plan.picks[st.attempts]
        } else {
            0
        };
        let ghost tried_before = st.tried@;
        match st.on_select(pick) {
            Selection::Exhausted => {
                proof {
                    // exhaustion by budget is exhaustion of the sources:
                    // the budget equals the source count here
                    assert(untried(tried_before).len() == 0);
                    lemma_untried_empty_all_tried(tried_before);
                    assert forall|i: int| 0 <= i < n implies !plan.good(i) by {
                        assert(tried_before[i]);
                        assert(st.tried@[i]);
                    }
                }
                return st;
            },
            Selection::Transfer(i) => {
                if plan.reachable[i] {
                    st.on_transfer(TransferOutcome::Success { bytes_written: 0 }, String::new());
                    let passed = plan.verifies[i];
                    st.on_verify(passed);
                    if passed {
                        let outcome = if plan.commit_ok {
                            CommitOutcome::Committed
                        } else {
                            CommitOutcome::IoError
                        };
                        st.on_commit(outcome, target);
                        proof {
                            // the selected source is good, so exhaustion
                            // cannot be owed at this exit
                            assert(plan.good(i as int));
                        }
                        return st;
                    }
                    proof {
                        lemma_untried_update(tried_before, i as int);
                    }
                } else {
                    st.on_transfer(
                        TransferOutcome::RetryableFailure { reason: ErrorKind::SourceUnavailable },
                        String::new(),
                    );
                    proof {
                        lemma_untried_update(tried_before, i as int);
                    }
                }
            },
        }
    }
}

/// The transfer worker's completion rule: a stream counts as successfully
/// transferred only if the transport declared no length, or the declared
/// length matches the bytes received.
pub fn stream_complete(declared: Option<u64>, received: u64) -> (r: bool)
    ensures
        r == match declared {
            Some(d) => d == received,
            None => true,
        },
{
    match declared {
        Some(d) => d == received,
        None => true,
    }
}

/// The commit-time collision rule: committing collides exactly when the
/// descriptor asked to fail on an existing file and the final target path is
/// occupied at commit time (existence is checked at commit time, not at job
/// start, since other jobs or external writers may race).
pub fn commit_collides(fail_if_exists: bool, target_exists: bool) -> (r: bool)
    ensures
        r == (fail_if_exists && target_exists),
{
    fail_if_exists && target_exists
}

/// Run a whole batch: dispatch one job state machine per descriptor under
/// the admission limit, and collect one terminal record per descriptor, in
/// submission order, regardless of completion order. One job's failure never
/// cancels or blocks a sibling job: every descriptor gets its own record.
pub fn run(descriptors: &Vec<Download>, plans: &Vec<TransferPlan>, max_concurrency: usize) -> (r:
    BatchResult)
    requires
        descriptors@.len() == plans@.len(),
        max_concurrency >= 1,
        forall|i: int|
            0 <= i < plans@.len() ==> (#[trigger] plans@[i]).wf() && plans@[i].n()
                == descriptors@[i].urls@.len(),
    ensures
        r@.len() == descriptors@.len(),
        forall|i: int|
            0 <= i < r@.len() ==> job_post(
                plans@[i],
                descriptors@[i].spec_target_path(),
                #[trigger] r@[i],
            ),
{
    let n = descriptors.len();
    let mut batch = Batch::new(n, max_concurrency);
    let mut j: usize = 0;
    while j < n
        invariant
            n == descriptors@.len(),
            n == plans@.len(),
            forall|i: int|
                0 <= i < plans@.len() ==> (#[trigger] plans@[i]).wf() && plans@[i].n()
                    == descriptors@[i].urls@.len(),
            max_concurrency >= 1,
            batch.wf(),
            batch.max_concurrency == max_concurrency,
            batch.active == 0,
            batch.slots@.len() == n,
            j <= n,
            forall|k: int| j <= k < n ==> #[trigger] batch.slots@[k] is Pending,
            forall|k: int|
                0 <= k < j ==> (#[trigger] batch.slots@[k] matches Slot::Done(res) && job_post(
                    plans@[k],
                    descriptors@[k].spec_target_path(),
                    res,
                )),
        decreases n - j,
    {
        let ghost before = batch;
        let i = match batch.try_admit() {
            Some(i) => i,
            None => unreached(),
        };
        proof {
            // admission follows submission order: the first pending slot is j
            if (i as int) < j as int {
                assert(before.slots@[i as int] matches Slot::Done(_));
                assert(false);
            }
            if (i as int) > j as int {
                assert(before.slots@[j as int] is Pending);
                assert(false);
            }
        }
        let st = run_job(&plans[i], descriptors[i].target_path());
        let res = match st.result {
            Some(res) => res,
            None => unreached(),
        };
        batch.complete(i, res);
        j += 1;
    }
    let ghost done_slots = batch.slots@;
    proof {
        assert forall|k: int| 0 <= k < done_slots.len() implies #[trigger] done_slots[k] matches Slot::Done(_) by {
            assert(batch.slots@[k] matches Slot::Done(res) && job_post(
                plans@[k],
                descriptors@[k].spec_target_path(),
                res,
            ));
        }
    }
    let out = batch.collect();
    proof {
        assert forall|i: int|
            0 <= i < out@.len() implies job_post(
                plans@[i],
                descriptors@[i].spec_target_path(),
                #[trigger] out@[i],
            ) by {
            assert(done_slots[i] == Slot::Done(out@[i]));
            assert(done_slots[i] matches Slot::Done(res) && job_post(
                plans@[i],
                descriptors@[i].spec_target_path(),
                res,
            ));
        }
    }
    out
}

} // verus!
