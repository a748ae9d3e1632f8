//! The engine: whole jobs and whole batches run against described
//! environments.

use downloader::download::Download;
use downloader::engine::{commit_collides, run, run_job, stream_complete, TransferPlan};
use downloader::outcome::{ErrorKind, JobResult};

fn plan(reachable: Vec<bool>, verifies: Vec<bool>, commit_ok: bool) -> TransferPlan {
    TransferPlan { reachable, verifies, commit_ok, picks: Vec::new() }
}

#[test]
fn succeeds_on_the_last_reachable_mirror() {
    // the first two mirrors fail; the engine retries and succeeds on the third
    let p = plan(vec![false, false, true], vec![true, true, true], true);
    let st = run_job(&p, "tool.tar.gz".to_string());
    assert_eq!(
        st.result,
        Some(JobResult::Succeeded { final_path: "tool.tar.gz".to_string() })
    );
    assert!(st.committed);
    assert_eq!(st.attempts, 3);
}

#[test]
fn succeeds_regardless_of_which_mirrors_fail_first() {
    // random draws visit mirrors in varying orders; a good mirror is always found
    for seed in 0..6usize {
        let p = TransferPlan {
            reachable: vec![false, true, false],
            verifies: vec![true, true, true],
            commit_ok: true,
            picks: vec![seed, seed + 1, seed + 2],
        };
        let st = run_job(&p, "t".to_string());
        assert_eq!(st.result, Some(JobResult::Succeeded { final_path: "t".to_string() }));
    }
}

#[test]
fn all_sources_unreachable_exhausts_with_one_attempt_each() {
    let p = plan(vec![false, false, false, false], vec![true, true, true, true], true);
    let st = run_job(&p, "x".to_string());
    assert_eq!(
        st.result,
        Some(JobResult::Failed { reason: ErrorKind::SourcesExhausted, attempts_made: 4 })
    );
}

#[test]
fn verification_failure_on_every_mirror_exhausts_sources() {
    // transfers succeed at the transport level, but verification gates success
    let p = plan(vec![true, true, true], vec![false, false, false], true);
    let st = run_job(&p, "x".to_string());
    assert_eq!(
        st.result,
        Some(JobResult::Failed { reason: ErrorKind::SourcesExhausted, attempts_made: 3 })
    );
}

#[test]
fn failed_job_leaves_no_file() {
    // the only source deterministically fails verification
    let p = plan(vec![true], vec![false], true);
    let st = run_job(&p, "never-written.bin".to_string());
    assert!(matches!(st.result, Some(JobResult::Failed { .. })));
    assert!(st.staging_path.is_none());
    assert!(!st.committed);
}

#[test]
fn commit_io_error_fails_the_job() {
    let p = plan(vec![true], vec![true], false);
    let st = run_job(&p, "x".to_string());
    assert_eq!(
        st.result,
        Some(JobResult::Failed { reason: ErrorKind::LocalIOError, attempts_made: 1 })
    );
}

#[test]
fn batch_results_preserve_submission_order() {
    // three jobs with distinct targets and mixed fates; the result order is
    // the submission order whatever the per-job outcomes are
    let descriptors = vec![
        Download::new("https://example.com/a/first.bin"),
        Download::new("https://example.com/a/second.bin"),
        Download::new("https://example.com/a/third.bin"),
    ];
    let plans = vec![
        plan(vec![true], vec![true], true),
        plan(vec![false], vec![true], true),
        plan(vec![true], vec![true], true),
    ];
    let results = run(&descriptors, &plans, 2);
    assert_eq!(results.len(), 3);
    assert_eq!(
        results[0],
        JobResult::Succeeded { final_path: "first.bin".to_string() }
    );
    assert_eq!(
        results[1],
        JobResult::Failed { reason: ErrorKind::SourcesExhausted, attempts_made: 1 }
    );
    assert_eq!(
        results[2],
        JobResult::Succeeded { final_path: "third.bin".to_string() }
    );
}

#[test]
fn one_job_failure_never_aborts_siblings() {
    let descriptors = vec![
        Download::new("https://example.com/ok.bin"),
        Download::new("https://example.com/bad.bin"),
        Download::new("https://example.com/ok2.bin"),
    ];
    let plans = vec![
        plan(vec![true], vec![true], true),
        plan(vec![false, false], vec![true, true], true),
        plan(vec![true], vec![true], true),
    ];
    let results = run(&descriptors, &plans, 1);
    assert!(matches!(results[0], JobResult::Succeeded { .. }));
    assert!(matches!(results[1], JobResult::Failed { .. }));
    assert!(matches!(results[2], JobResult::Succeeded { .. }));
}

#[test]
fn stream_completion_rule() {
    assert!(stream_complete(None, 42));
    assert!(stream_complete(Some(42), 42));
    assert!(!stream_complete(Some(43), 42));
}

#[test]
fn commit_collision_rule() {
    assert!(commit_collides(true, true));
    assert!(!commit_collides(true, false));
    assert!(!commit_collides(false, true));
    assert!(!commit_collides(false, false));
}
