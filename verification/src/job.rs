//! One job's lifecycle: an owned state machine that sequences mirror
//! selection, one transfer attempt at a time, the verification gate and the
//! final commit, applying the retry budget.
//!
//! The machine is event-driven: the caller performs the actual transfer,
//! verification and rename, and feeds each outcome back through `on_transfer`,
//! `on_verify` and `on_commit`. Every transition is specified exactly, so the
//! engine's guarantees (a tried mirror is never re-selected, a failed job
//! leaves neither a staged nor a committed file) are proved here once and hold
//! for any environment driving the machine.

use vstd::prelude::*;
use crate::outcome::{CommitOutcome, ErrorKind, JobResult, TransferOutcome};

verus! {

/// The ascending list of indices of sources not yet tried: `untried(s)` holds
/// exactly the `i` with `!s[i]`, in increasing order.
pub open spec fn untried(s: Seq<bool>) -> Seq<int>
    decreases s.len(),
{
    if s.len() == 0 {
        Seq::empty()
    } else if s.last() {
        untried(s.drop_last())
    } else {
        untried(s.drop_last()).push(s.len() - 1)
    }
}

/// Every entry of `untried(s)` is an in-range index of an untried source.
pub proof fn lemma_untried_bounds(s: Seq<bool>)
    ensures
        untried(s).len() <= s.len(),
        forall|k: int|
            0 <= k < untried(s).len() ==> 0 <= #[trigger] untried(s)[k] < s.len()
                && !s[untried(s)[k]],
    decreases s.len(),
{
    if s.len() > 0 {
        lemma_untried_bounds(s.drop_last());
    }
}

/// Every untried index occurs in `untried(s)`.
pub proof fn lemma_untried_complete(s: Seq<bool>, i: int)
    requires
        0 <= i < s.len(),
        !s[i],
    ensures
        untried(s).contains(i),
    decreases s.len(),
{
    if i == s.len() - 1 {
        assert(untried(s)[untried(s).len() - 1] == i);
    } else {
        lemma_untried_complete(s.drop_last(), i);
        let k = choose|k: int|
            0 <= k < untried(s.drop_last()).len() && untried(s.drop_last())[k] == i;
        assert(untried(s)[k] == i);
    }
}

/// Marking an untried source as tried removes exactly one entry.
pub proof fn lemma_untried_update(s: Seq<bool>, i: int)
    requires
        0 <= i < s.len(),
        !s[i],
    ensures
        untried(s.update(i, true)).len() == untried(s).len() - 1,
    decreases s.len(),
{
    let t = s.update(i, true);
    if i == s.len() - 1 {
        assert(t.drop_last() =~= s.drop_last());
    } else {
        assert(t.drop_last() =~= s.drop_last().update(i, true));
        lemma_untried_update(s.drop_last(), i);
    }
}

/// With no source tried yet, every index is a candidate.
pub proof fn lemma_untried_all_false(s: Seq<bool>)
    requires
        forall|i: int| 0 <= i < s.len() ==> !s[i],
    ensures
        untried(s).len() == s.len(),
    decreases s.len(),
{
    if s.len() > 0 {
        lemma_untried_all_false(s.drop_last());
    }
}

/// When no candidate is left, every source has been tried.
pub proof fn lemma_untried_empty_all_tried(s: Seq<bool>)
    requires
        untried(s).len() == 0,
    ensures
        forall|i: int| 0 <= i < s.len() ==> s[i],
{
    assert forall|i: int| 0 <= i < s.len() implies s[i] by {
        if !s[i] {
            lemma_untried_complete(s, i);
        }
    }
}

/// Where one job stands in its lifecycle. The `source` carried by the middle
/// phases is the index (into the descriptor's source list) of the mirror the
/// current attempt runs against.
#[derive(Clone, Copy, Debug, PartialEq, Eq, Structural)]
pub enum Phase {
    /// Waiting for a mirror to be selected.
    Selecting,
    /// A transfer attempt against `source` is in flight.
    Transferring { source: usize },
    /// The staged data of the attempt against `source` awaits verification.
    Verifying { source: usize },
    /// The verified staged data of the attempt against `source` awaits its
    /// atomic rename to the final path.
    Committing { source: usize },
    /// Terminal: `result` is set.
    Done,
}

/// What mirror selection decided.
#[derive(Clone, Copy, Debug, PartialEq, Eq, Structural)]
pub enum Selection {
    /// Start a transfer against this source index.
    Transfer(usize),
    /// No candidate was left (or the attempt budget is spent); the job has
    /// failed with `SourcesExhausted`.
    Exhausted,
}

/// The mutable state of one job, owned exclusively by the code driving it.
///
/// `tried[i]` records that source `i` failed (transfer or verification) and
/// must never be attempted again. `staging_path` is the job's private staging
/// file while one exists; `committed` says a verified file sits at the final
/// target path.
pub struct JobState {
    /// Number of sources in the job's descriptor.
    pub n_sources: usize,
    /// The retry budget: no more than this many transfer attempts are started.
    /// Defaults to `n_sources`.
    pub max_attempts: usize,
    /// Per-source flag: tried and failed, never to be re-selected.
    pub tried: Vec<bool>,
    /// Transfer attempts started so far.
    pub attempts: usize,
    /// Current lifecycle phase.
    pub phase: Phase,
    /// The kind of the most recent failure, if any.
    pub last_error: Option<ErrorKind>,
    /// The staging file currently holding transferred data, if one exists.
    pub staging_path: Option<String>,
    /// Whether a verified file has been committed to the final target path.
    pub committed: bool,
    /// The terminal record, set exactly when `phase` is `Done`.
    pub result: Option<JobResult>,
}

impl JobState {
    /// How many sources are still candidates.
    pub open spec fn remaining(&self) -> int {
        untried(self.tried@).len() as int
    }

    /// Well-formedness, established by `new` and preserved by every
    /// transition. Among other things it ties the attempt count to the tried
    /// set, keeps a staging file exactly through the verify and commit phases,
    /// and guarantees that a failed job holds neither a staged nor a
    /// committed file.
    pub open spec fn wf(&self) -> bool {
        &&& self.tried@.len() == self.n_sources
        &&& self.n_sources >= 1
        &&& self.max_attempts >= 1
        &&& self.attempts <= self.max_attempts
        &&& (self.result is Some <==> self.phase is Done)
        &&& match self.phase {
            Phase::Selecting => {
                &&& self.attempts + self.remaining() == self.n_sources
                &&& self.staging_path is None
                &&& !self.committed
            },
            Phase::Transferring { source } => {
                &&& source < self.n_sources
                &&& !self.tried@[source as int]
                &&& self.attempts == self.n_sources - self.remaining() + 1
                &&& self.staging_path is None
                &&& !self.committed
            },
            Phase::Verifying { source } => {
                &&& source < self.n_sources
                &&& !self.tried@[source as int]
                &&& self.attempts == self.n_sources - self.remaining() + 1
                &&& self.staging_path is Some
                &&& !self.committed
            },
            Phase::Committing { source } => {
                &&& source < self.n_sources
                &&& !self.tried@[source as int]
                &&& self.attempts == self.n_sources - self.remaining() + 1
                &&& self.staging_path is Some
                &&& !self.committed
            },
            Phase::Done => {
                &&& self.staging_path is None
                &&& (self.result matches Some(JobResult::Failed { .. }) ==> !self.committed)
                &&& (self.result matches Some(JobResult::Succeeded { .. }) ==> self.committed)
            },
        }
    }

    /// A fresh job over `n_sources` mirrors, with the default attempt budget
    /// of one attempt per source.
    pub fn new(n_sources: usize) -> (s: JobState)
        requires
            n_sources >= 1,
        ensures
            s.wf(),
            s.n_sources == n_sources,
            s.max_attempts == n_sources,
            s.phase == Phase::Selecting,
            s.attempts == 0,
            s.tried@ == Seq::new(n_sources as nat, |i: int| false),
            s.last_error is None,
            s.staging_path is None,
            !s.committed,
            s.result is None,
    {
        JobState::new_with_budget(n_sources, n_sources)
    }

    /// A fresh job over `n_sources` mirrors with an explicit attempt budget:
    /// no more than `max_attempts` transfer attempts are started, however
    /// many sources remain.
    pub fn new_with_budget(n_sources: usize, max_attempts: usize) -> (s: JobState)
        requires
            n_sources >= 1,
            max_attempts >= 1,
        ensures
            s.wf(),
            s.n_sources == n_sources,
            s.max_attempts == max_attempts,
            s.phase == Phase::Selecting,
            s.attempts == 0,
            s.tried@ == Seq::new(n_sources as nat, |i: int| false),
            s.last_error is None,
            s.staging_path is None,
            !s.committed,
            s.result is None,
    {
        let mut tried: Vec<bool> = Vec::new();
        let mut j: usize = 0;
        while j < n_sources
            invariant
                j <= n_sources,
                tried@ =~= Seq::new(j as nat, |i: int| false),
            decreases n_sources - j,
        {
            tried.push(false);
            j += 1;
            proof {
                assert(tried@ =~= Seq::new(j as nat, |i: int| false));
            }
        }
        proof {
            lemma_untried_all_false(tried@);
        }
        JobState {
            n_sources,
            max_attempts,
            tried,
            attempts: 0,
            phase: Phase::Selecting,
            last_error: None,
            staging_path: None,
            committed: false,
            result: None,
        }
    }
    /// Mirror selection: picks one source uniformly from the untried ones.
    ///
    /// `pick` is the random draw (the caller supplies it, so tests can inject
    /// a deterministic order); the chosen source is the `pick mod r`-th of the
    /// `r` remaining candidates, in index order. Once every source is tried,
    /// or the attempt budget is spent, the job fails with `SourcesExhausted`.
    pub fn on_select(&mut self, pick: usize) -> (r: Selection)
        requires
            old(self).wf(),
            old(self).phase is Selecting,
        ensures
            final(self).wf(),
            final(self).n_sources == old(self).n_sources,
            final(self).max_attempts == old(self).max_attempts,
            final(self).tried@ == old(self).tried@,
            final(self).last_error == old(self).last_error,
            final(self).staging_path is None,
            !final(self).committed,
            (r is Exhausted) <==> (untried(old(self).tried@).len() == 0
                || old(self).attempts >= old(self).max_attempts),
            r is Exhausted ==> {
                &&& final(self).phase is Done
                &&& final(self).attempts == old(self).attempts
                &&& final(self).result == Some(JobResult::Failed {
                    reason: ErrorKind::SourcesExhausted,
                    attempts_made: old(self).attempts,
                })
            },
            r matches Selection::Transfer(i) ==> {
                &&& (i as int) < old(self).n_sources
                &&& !old(self).tried@[i as int]
                &&& untried(old(self).tried@).len() > 0
                &&& i as int == untried(old(self).tried@)[(pick as int) % (untried(
                    old(self).tried@,
                ).len() as int)]
                &&& final(self).phase == (Phase::Transferring { source: i })
                &&& final(self).attempts == old(self).attempts + 1
                &&& final(self).result is None
            },
    {
        if self.attempts >= self.max_attempts {
            self.phase = Phase::Done;
            self.result = Some(JobResult::Failed {
                reason: ErrorKind::SourcesExhausted,
                attempts_made: self.attempts,
            });
            return Selection::Exhausted;
        }
        let ghost whole = self.tried@;
        let mut rem: Vec<usize> = Vec::new();
        let mut j: usize = 0;
        while j < self.tried.len()
            invariant
                *self == *old(self),
                j <= self.tried@.len(),
                rem@.len() == untried(self.tried@.take(j as int)).len(),
                forall|k: int|
                    0 <= k < rem@.len() ==> rem@[k] as int == untried(
                        self.tried@.take(j as int),
                    )[k],
                forall|k: int| 0 <= k < rem@.len() ==> rem@[k] < j,
            decreases self.tried@.len() - j,
        {
            proof {
                assert(self.tried@.take(j as int + 1).drop_last() =~= self.tried@.take(j as int));
            }
            if !self.tried[j] {
                rem.push(j);
            }
            j += 1;
        }
        proof {
            assert(self.tried@.take(self.tried@.len() as int) =~= self.tried@);
        }
        if rem.len() == 0 {
            self.phase = Phase::Done;
            self.result = Some(JobResult::Failed {
                reason: ErrorKind::SourcesExhausted,
                attempts_made: self.attempts,
            });
            Selection::Exhausted
        } else {
            let idx = pick % rem.len();
            let i = rem[idx];
            proof {
                lemma_untried_bounds(self.tried@);
            }
            self.attempts = self.attempts + 1;
            self.phase = Phase::Transferring { source: i };
            Selection::Transfer(i)
        }
    }

    /// Feed back the classification of the transfer attempt now in flight.
    ///
    /// `Success` moves the job to the verification gate with the staged file;
    /// a retryable failure marks the mirror as tried and returns to selection
    /// (the worker has deleted its staging file); a fatal failure ends the job
    /// at once, with no further mirror attempted.
    pub fn on_transfer(&mut self, outcome: TransferOutcome, staged_path: String)
        requires
            old(self).wf(),
            old(self).phase matches Phase::Transferring { source },
            outcome matches TransferOutcome::RetryableFailure { reason } ==> reason.is_retryable(),
            outcome matches TransferOutcome::FatalFailure { reason } ==> !reason.is_retryable()
                && reason != ErrorKind::SourcesExhausted,
        ensures
            final(self).wf(),
            final(self).n_sources == old(self).n_sources,
            final(self).max_attempts == old(self).max_attempts,
            final(self).attempts == old(self).attempts,
            !final(self).committed,
            match outcome {
                TransferOutcome::Success { .. } => {
                    &&& final(self).phase == (Phase::Verifying {
                        source: old(self).phase->Transferring_source,
                    })
                    &&& final(self).tried@ == old(self).tried@
                    &&& final(self).staging_path == Some(staged_path)
                    &&& final(self).last_error == old(self).last_error
                    &&& final(self).result is None
                },
                TransferOutcome::RetryableFailure { reason } => {
                    &&& final(self).phase is Selecting
                    &&& final(self).tried@ == old(self).tried@.update(
                        old(self).phase->Transferring_source as int,
                        true,
                    )
                    &&& final(self).staging_path is None
                    &&& final(self).last_error == Some(reason)
                    &&& final(self).result is None
                },
                TransferOutcome::FatalFailure { reason } => {
                    &&& final(self).phase is Done
                    &&& final(self).tried@ == old(self).tried@
                    &&& final(self).staging_path is None
                    &&& final(self).last_error == Some(reason)
                    &&& final(self).result == Some(JobResult::Failed {
                        reason,
                        attempts_made: old(self).attempts,
                    })
                },
            },
    {
        let source = match self.phase {
            Phase::Transferring { source } => source,
            _ => 0,
        };
        match outcome {
            TransferOutcome::Success { .. } => {
                self.staging_path = Some(staged_path);
                self.phase = Phase::Verifying { source };
            },
            TransferOutcome::RetryableFailure { reason } => {
                proof {
                    lemma_untried_update(self.tried@, source as int);
                }
                self.tried.set(source, true);
                self.last_error = Some(reason);
                self.phase = Phase::Selecting;
            },
            TransferOutcome::FatalFailure { reason } => {
                self.last_error = Some(reason);
                self.phase = Phase::Done;
                self.result = Some(JobResult::Failed {
                    reason,
                    attempts_made: self.attempts,
                });
            },
        }
    }

    /// Feed back the verdict of the verification gate on the staged data.
    ///
    /// A pass moves the job to commit. A failure distrusts the current mirror
    /// exactly like a transfer failure: the staged file is discarded, the
    /// mirror is marked tried, and selection resumes.
    pub fn on_verify(&mut self, passed: bool)
        requires
            old(self).wf(),
            old(self).phase matches Phase::Verifying { source },
        ensures
            final(self).wf(),
            final(self).n_sources == old(self).n_sources,
            final(self).max_attempts == old(self).max_attempts,
            final(self).attempts == old(self).attempts,
            !final(self).committed,
            final(self).result is None,
            passed ==> {
                &&& final(self).phase == (Phase::Committing {
                    source: old(self).phase->Verifying_source,
                })
                &&& final(self).tried@ == old(self).tried@
                &&& final(self).staging_path == old(self).staging_path
                &&& final(self).last_error == old(self).last_error
            },
            !passed ==> {
                &&& final(self).phase is Selecting
                &&& final(self).tried@ == old(self).tried@.update(
                    old(self).phase->Verifying_source as int,
                    true,
                )
                &&& final(self).staging_path is None
                &&& final(self).last_error == Some(ErrorKind::VerificationFailed)
            },
    {
        let source = match self.phase {
            Phase::Verifying { source } => source,
            _ => 0,
        };
        if passed {
            self.phase = Phase::Committing { source };
        } else {
            proof {
                lemma_untried_update(self.tried@, source as int);
            }
            self.tried.set(source, true);
            self.staging_path = None;
            self.last_error = Some(ErrorKind::VerificationFailed);
            self.phase = Phase::Selecting;
        }
    }

    /// Feed back the outcome of committing the staged file to `final_path`.
    ///
    /// Only a successful atomic rename makes the job succeed; a collision
    /// (the final path already occupied, under a fail-if-exists policy) or a
    /// local I/O error ends the job, with the staging file removed.
    pub fn on_commit(&mut self, outcome: CommitOutcome, final_path: String)
        requires
            old(self).wf(),
            old(self).phase matches Phase::Committing { source },
        ensures
            final(self).wf(),
            final(self).n_sources == old(self).n_sources,
            final(self).max_attempts == old(self).max_attempts,
            final(self).attempts == old(self).attempts,
            final(self).tried@ == old(self).tried@,
            final(self).phase is Done,
            final(self).staging_path is None,
            match outcome {
                CommitOutcome::Committed => {
                    &&& final(self).committed
                    &&& final(self).result == Some(JobResult::Succeeded { final_path })
                    &&& final(self).last_error == old(self).last_error
                },
                CommitOutcome::Collision => {
                    &&& !final(self).committed
                    &&& final(self).result == Some(JobResult::Failed {
                        reason: ErrorKind::TargetCollision,
                        attempts_made: old(self).attempts,
                    })
                    &&& final(self).last_error == Some(ErrorKind::TargetCollision)
                },
                CommitOutcome::IoError => {
                    &&& !final(self).committed
                    &&& final(self).result == Some(JobResult::Failed {
                        reason: ErrorKind::LocalIOError,
                        attempts_made: old(self).attempts,
                    })
                    &&& final(self).last_error == Some(ErrorKind::LocalIOError)
                },
            },
    {
        self.staging_path = None;
        match outcome {
            CommitOutcome::Committed => {
                self.committed = true;
                self.result = Some(JobResult::Succeeded { final_path });
            },
            CommitOutcome::Collision => {
                self.last_error = Some(ErrorKind::TargetCollision);
                self.result = Some(JobResult::Failed {
                    reason: ErrorKind::TargetCollision,
                    attempts_made: self.attempts,
                });
            },
            CommitOutcome::IoError => {
                self.last_error = Some(ErrorKind::LocalIOError);
                self.result = Some(JobResult::Failed {
                    reason: ErrorKind::LocalIOError,
                    attempts_made: self.attempts,
                });
            },
        }
        self.phase = Phase::Done;
    }

    /// Cooperative cancellation of a job that has not finished: any in-flight
    /// transfer is considered aborted, the staging file discarded, and the
    /// job recorded as `Failed { Cancelled }`. A job already done keeps its
    /// result and is not cancelled.
    pub fn on_cancel(&mut self)
        requires
            old(self).wf(),
            !(old(self).phase is Done),
        ensures
            final(self).wf(),
            final(self).n_sources == old(self).n_sources,
            final(self).max_attempts == old(self).max_attempts,
            final(self).attempts == old(self).attempts,
            final(self).tried@ == old(self).tried@,
            final(self).phase is Done,
            final(self).staging_path is None,
            !final(self).committed,
            final(self).last_error == Some(ErrorKind::Cancelled),
            final(self).result == Some(JobResult::Failed {
                reason: ErrorKind::Cancelled,
                attempts_made: old(self).attempts,
            }),
    {
        self.staging_path = None;
        self.last_error = Some(ErrorKind::Cancelled);
        self.result = Some(JobResult::Failed {
            reason: ErrorKind::Cancelled,
            attempts_made: self.attempts,
        });
        self.phase = Phase::Done;
    }
}

/// Staging cleanup invariant: a job whose terminal record is `Failed` holds
/// no staging file and has committed nothing to the final target path.
pub proof fn lemma_failed_leaves_no_file(s: JobState)
    requires
        s.wf(),
        s.result matches Some(JobResult::Failed { .. }),
    ensures
        s.staging_path is None,
        !s.committed,
{
}

} // verus!
