//! The per-job state machine, driven event by event.

use downloader::job::{JobState, Phase, Selection};
use downloader::outcome::{CommitOutcome, ErrorKind, JobResult, TransferOutcome};

#[test]
fn selection_never_retries_a_tried_mirror() {
    // three mirrors; fail them one at a time and watch the selection
    let mut st = JobState::new(3);
    let mut seen = Vec::new();
    for _ in 0..3 {
        match st.on_select(0) {
            Selection::Transfer(i) => {
                assert!(!seen.contains(&i), "mirror {} selected twice", i);
                seen.push(i);
                st.on_transfer(
                    TransferOutcome::RetryableFailure { reason: ErrorKind::SourceUnavailable },
                    String::new(),
                );
                assert_eq!(st.last_error, Some(ErrorKind::SourceUnavailable));
            }
            Selection::Exhausted => panic!("exhausted too early"),
        }
    }
    assert_eq!(seen.len(), 3);
    assert_eq!(st.on_select(0), Selection::Exhausted);
}

#[test]
fn attempt_budget_caps_retries() {
    // three mirrors but a budget of one attempt: the first failure exhausts
    let mut st = JobState::new_with_budget(3, 1);
    match st.on_select(0) {
        Selection::Transfer(_) => st.on_transfer(
            TransferOutcome::RetryableFailure { reason: ErrorKind::SourceUnavailable },
            String::new(),
        ),
        Selection::Exhausted => panic!("budget allows one attempt"),
    }
    assert_eq!(st.on_select(0), Selection::Exhausted);
    assert_eq!(
        st.result,
        Some(JobResult::Failed { reason: ErrorKind::SourcesExhausted, attempts_made: 1 })
    );
}

#[test]
fn exhaustion_counts_one_attempt_per_source() {
    let mut st = JobState::new(4);
    loop {
        match st.on_select(7) {
            Selection::Transfer(_) => {
                st.on_transfer(
                    TransferOutcome::RetryableFailure { reason: ErrorKind::SourceUnavailable },
                    String::new(),
                );
            }
            Selection::Exhausted => break,
        }
    }
    assert_eq!(
        st.result,
        Some(JobResult::Failed { reason: ErrorKind::SourcesExhausted, attempts_made: 4 })
    );
    assert!(st.staging_path.is_none());
    assert!(!st.committed);
}

#[test]
fn successful_attempt_walks_through_verify_and_commit() {
    let mut st = JobState::new(1);
    let sel = st.on_select(0);
    assert_eq!(sel, Selection::Transfer(0));
    assert_eq!(st.phase, Phase::Transferring { source: 0 });
    assert_eq!(st.attempts, 1);

    st.on_transfer(
        TransferOutcome::Success { bytes_written: 123 },
        "staging/part-0".to_string(),
    );
    assert_eq!(st.phase, Phase::Verifying { source: 0 });
    assert_eq!(st.staging_path, Some("staging/part-0".to_string()));

    st.on_verify(true);
    assert_eq!(st.phase, Phase::Committing { source: 0 });

    st.on_commit(CommitOutcome::Committed, "final/data.bin".to_string());
    assert_eq!(st.phase, Phase::Done);
    assert!(st.committed);
    assert!(st.staging_path.is_none());
    assert_eq!(
        st.result,
        Some(JobResult::Succeeded { final_path: "final/data.bin".to_string() })
    );
}

#[test]
fn verification_failure_distrusts_the_mirror() {
    let mut st = JobState::new(2);
    let first = match st.on_select(0) {
        Selection::Transfer(i) => i,
        Selection::Exhausted => panic!("two mirrors available"),
    };
    st.on_transfer(TransferOutcome::Success { bytes_written: 9 }, "stage".to_string());
    st.on_verify(false);
    assert_eq!(st.phase, Phase::Selecting);
    assert_eq!(st.last_error, Some(ErrorKind::VerificationFailed));
    assert!(st.staging_path.is_none());
    match st.on_select(0) {
        Selection::Transfer(second) => assert_ne!(first, second),
        Selection::Exhausted => panic!("one mirror is still untried"),
    }
}

#[test]
fn fatal_failure_stops_without_trying_other_mirrors() {
    let mut st = JobState::new(3);
    match st.on_select(0) {
        Selection::Transfer(_) => {}
        Selection::Exhausted => panic!("mirrors available"),
    }
    st.on_transfer(
        TransferOutcome::FatalFailure { reason: ErrorKind::LocalIOError },
        String::new(),
    );
    assert_eq!(st.phase, Phase::Done);
    assert_eq!(
        st.result,
        Some(JobResult::Failed { reason: ErrorKind::LocalIOError, attempts_made: 1 })
    );
    assert!(st.staging_path.is_none());
    assert!(!st.committed);
}

#[test]
fn commit_collision_fails_the_job() {
    let mut st = JobState::new(1);
    st.on_select(0);
    st.on_transfer(TransferOutcome::Success { bytes_written: 1 }, "stage".to_string());
    st.on_verify(true);
    st.on_commit(CommitOutcome::Collision, "occupied.bin".to_string());
    assert_eq!(
        st.result,
        Some(JobResult::Failed { reason: ErrorKind::TargetCollision, attempts_made: 1 })
    );
    assert!(!st.committed);
    assert!(st.staging_path.is_none());
}

#[test]
fn cancel_mid_transfer_discards_staging() {
    let mut st = JobState::new(2);
    st.on_select(1);
    st.on_transfer(TransferOutcome::Success { bytes_written: 10 }, "stage".to_string());
    assert!(st.staging_path.is_some());
    st.on_cancel();
    assert_eq!(st.phase, Phase::Done);
    assert!(st.staging_path.is_none());
    assert!(!st.committed);
    assert_eq!(
        st.result,
        Some(JobResult::Failed { reason: ErrorKind::Cancelled, attempts_made: 1 })
    );
}

#[test]
fn pick_selects_uniformly_among_remaining() {
    // with all three mirrors untried, pick 4 lands on index 4 mod 3 == 1
    let mut st = JobState::new(3);
    assert_eq!(st.on_select(4), Selection::Transfer(1));
}
