use bors::config::{LabelConfig, RepoConfig};
use bors::queue::{HeadAction, MergeQueue};
use bors::state::{record_test_result, PullRequestState, Status, TestResult};

fn config(checks: &[&str], timeout: u64, maintainer_mode: bool) -> RepoConfig {
    RepoConfig {
        owner: "owner".to_string(),
        name: "repo".to_string(),
        checks: checks.iter().map(|c| c.to_string()).collect(),
        timeout,
        labels: LabelConfig {
            high_priority: "high_priority".to_string(),
            squash: "squash".to_string(),
        },
        maintainer_mode,
    }
}

fn pull(number: u64, labels: &[&str], status: Status) -> PullRequestState {
    PullRequestState {
        number,
        head_ref_name: format!("feature-{}", number),
        head_ref_oid: format!("head{}", number),
        head_repo: None,
        base_ref_name: "main".to_string(),
        maintainer_can_modify: true,
        labels: labels.iter().map(|l| l.to_string()).collect(),
        status,
    }
}

fn pass(url: &str) -> TestResult {
    TestResult { passed: true, details_url: url.to_string() }
}

fn fail(url: &str) -> TestResult {
    TestResult { passed: false, details_url: url.to_string() }
}

fn position(pulls: &[PullRequestState], number: u64) -> usize {
    pulls.iter().position(|p| p.number == number).unwrap()
}

/// Puts the queued pull request `number` under test with merge commit `merge_oid` at `now`.
fn start(queue: &mut MergeQueue, pulls: &mut Vec<PullRequestState>, number: u64, merge_oid: &str, now: u64) {
    let i = position(pulls, number);
    queue.start_testing(pulls, i, merge_oid.to_string(), now);
}

#[test]
fn happy_path_lands_the_pull_request() {
    let cfg = config(&["ci", "lint"], 100, true);
    let mut pulls = vec![pull(42, &[], Status::Queued)];
    let mut queue = MergeQueue::new();

    // Tick 1: nothing under test, so the queued pull request is staged.
    assert!(matches!(queue.process_head(&cfg, &mut pulls, 0), HeadAction::Idle));
    let next = queue.next_candidate(&cfg, &pulls);
    assert_eq!(next, Some(0));
    queue.start_testing(&mut pulls, 0, "X".to_string(), 5);
    assert_eq!(queue.head(), Some(42));
    match &pulls[0].status {
        Status::Testing { merge_oid, tests_started_at, test_results } => {
            assert_eq!(merge_oid, "X");
            assert_eq!(*tests_started_at, 5);
            assert!(test_results.is_empty());
        }
        _ => panic!("pull request 42 should be under test"),
    }

    // Every required check reports a pass.
    assert!(record_test_result(&mut pulls, 42, "ci".to_string(), pass("c")));
    assert!(record_test_result(&mut pulls, 42, "lint".to_string(), pass("l")));

    // Tick 2: the pull request is landed.
    match queue.process_head(&cfg, &mut pulls, 10) {
        HeadAction::Land { index, number, merge_oid, base_ref_name, in_place } => {
            assert_eq!(index, 0);
            assert_eq!(number, 42);
            assert_eq!(merge_oid, "X");
            assert_eq!(base_ref_name, "main");
            assert!(in_place.is_none());
            queue.complete_land(&mut pulls, index);
        }
        other => panic!("expected a landing, got {:?}", other),
    }
    assert!(pulls.is_empty());
    assert_eq!(queue.head(), None);
}

#[test]
fn priority_overtakes_lower_number() {
    let cfg = config(&["ci"], 100, false);
    let pulls = vec![
        pull(7, &[], Status::Queued),
        pull(20, &["high_priority"], Status::Queued),
    ];
    let queue = MergeQueue::new();
    let next = queue.next_candidate(&cfg, &pulls).unwrap();
    assert_eq!(pulls[next].number, 20);
}

#[test]
fn lowest_number_first_within_a_class() {
    let cfg = config(&["ci"], 100, false);
    let pulls = vec![
        pull(9, &[], Status::Queued),
        pull(3, &[], Status::InReview),
        pull(5, &[], Status::Queued),
        pull(8, &[], Status::Queued),
    ];
    let queue = MergeQueue::new();
    let next = queue.next_candidate(&cfg, &pulls).unwrap();
    assert_eq!(pulls[next].number, 5);
}

#[test]
fn nothing_queued_selects_nothing() {
    let cfg = config(&["ci"], 100, false);
    let pulls = vec![pull(1, &[], Status::InReview)];
    assert_eq!(MergeQueue::new().next_candidate(&cfg, &pulls), None);
    assert_eq!(MergeQueue::new().next_candidate(&cfg, &Vec::new()), None);
}

#[test]
fn conflict_is_skipped() {
    let cfg = config(&["ci"], 100, false);
    let mut pulls = vec![pull(4, &[], Status::Queued), pull(3, &[], Status::Queued)];
    let mut queue = MergeQueue::new();

    let first = queue.next_candidate(&cfg, &pulls).unwrap();
    assert_eq!(pulls[first].number, 3);
    // The rebase of #3 conflicts.
    queue.reject_conflict(&mut pulls, first);
    assert!(matches!(pulls[position(&pulls, 3)].status, Status::InReview));
    assert_eq!(queue.head(), None);

    let second = queue.next_candidate(&cfg, &pulls).unwrap();
    assert_eq!(pulls[second].number, 4);
    queue.start_testing(&mut pulls, second, "M".to_string(), 0);
    assert_eq!(queue.head(), Some(4));
    assert!(pulls[position(&pulls, 4)].status.is_testing());
    assert_eq!(pulls.iter().filter(|p| p.status.is_testing()).count(), 1);
}

#[test]
fn check_failure_returns_to_review() {
    let cfg = config(&["ci", "lint"], 100, false);
    let mut pulls = vec![pull(9, &[], Status::Queued), pull(12, &[], Status::Queued)];
    let mut queue = MergeQueue::new();
    start(&mut queue, &mut pulls, 9, "M9", 0);
    assert!(record_test_result(&mut pulls, 9, "ci".to_string(), fail("u")));

    match queue.process_head(&cfg, &mut pulls, 1) {
        HeadAction::Failed { number, head_oid, check, details_url } => {
            assert_eq!(number, 9);
            assert_eq!(head_oid, "head9");
            assert_eq!(check, "ci");
            assert_eq!(details_url, "u");
        }
        other => panic!("expected a failure, got {:?}", other),
    }
    assert!(matches!(pulls[0].status, Status::InReview));
    assert_eq!(queue.head(), None);
    // No other pull request was touched.
    assert!(pulls[1].status.is_queued());
}

#[test]
fn first_failing_check_in_configured_order_is_reported() {
    let cfg = config(&["ci", "lint"], 100, false);
    let mut pulls = vec![pull(2, &[], Status::Queued)];
    let mut queue = MergeQueue::new();
    start(&mut queue, &mut pulls, 2, "M2", 0);
    record_test_result(&mut pulls, 2, "lint".to_string(), fail("l"));
    record_test_result(&mut pulls, 2, "ci".to_string(), fail("c"));
    match queue.process_head(&cfg, &mut pulls, 1) {
        HeadAction::Failed { check, details_url, .. } => {
            assert_eq!(check, "ci");
            assert_eq!(details_url, "c");
        }
        other => panic!("expected a failure, got {:?}", other),
    }
}

#[test]
fn timeout_returns_to_review() {
    let cfg = config(&["ci"], 30, false);
    let mut pulls = vec![pull(11, &[], Status::Queued)];
    let mut queue = MergeQueue::new();
    start(&mut queue, &mut pulls, 11, "M11", 100);

    // One unit before the bound nothing happens.
    assert!(matches!(queue.process_head(&cfg, &mut pulls, 129), HeadAction::Idle));
    assert_eq!(queue.head(), Some(11));
    assert!(pulls[0].status.is_testing());

    match queue.process_head(&cfg, &mut pulls, 130) {
        HeadAction::TimedOut { number, head_oid } => {
            assert_eq!(number, 11);
            assert_eq!(head_oid, "head11");
        }
        other => panic!("expected a time-out, got {:?}", other),
    }
    assert!(matches!(pulls[0].status, Status::InReview));
    assert_eq!(queue.head(), None);
}

#[test]
fn in_place_refusal_keeps_the_pull_request() {
    let cfg = config(&["ci"], 100, true);
    let mut fork = pull(55, &[], Status::Queued);
    fork.head_repo = Some("contributor/repo".to_string());
    fork.maintainer_can_modify = false;
    let mut pulls = vec![fork];
    let mut queue = MergeQueue::new();
    start(&mut queue, &mut pulls, 55, "M55", 0);
    record_test_result(&mut pulls, 55, "ci".to_string(), pass("c"));

    match queue.process_head(&cfg, &mut pulls, 1) {
        HeadAction::Land { index, merge_oid, in_place, .. } => {
            assert_eq!(merge_oid, "M55");
            let push = in_place.expect("a fork is updated in place");
            assert_eq!(push.head_repo, "contributor/repo");
            assert_eq!(push.head_ref_name, "feature-55");
            assert_eq!(push.expected_oid, "head55");
            assert_eq!(push.new_oid, "M55");
            // The forge refuses the push.
            queue.refuse_land(&mut pulls, index);
        }
        other => panic!("expected a landing, got {:?}", other),
    }
    assert_eq!(pulls.len(), 1);
    assert!(matches!(pulls[0].status, Status::InReview));
    assert_eq!(queue.head(), None);
}

#[test]
fn no_in_place_push_without_maintainer_mode() {
    let cfg = config(&["ci"], 100, false);
    let mut fork = pull(56, &[], Status::Queued);
    fork.head_repo = Some("contributor/repo".to_string());
    let mut pulls = vec![fork];
    let mut queue = MergeQueue::new();
    start(&mut queue, &mut pulls, 56, "M56", 0);
    record_test_result(&mut pulls, 56, "ci".to_string(), pass("c"));
    match queue.process_head(&cfg, &mut pulls, 1) {
        HeadAction::Land { in_place, .. } => assert!(in_place.is_none()),
        other => panic!("expected a landing, got {:?}", other),
    }
}

#[test]
fn vanished_head_is_cleared() {
    let cfg = config(&["ci"], 100, false);
    let mut pulls = vec![pull(1, &[], Status::Queued)];
    let mut queue = MergeQueue::new();
    start(&mut queue, &mut pulls, 1, "M1", 0);
    pulls.clear();
    assert!(matches!(queue.process_head(&cfg, &mut pulls, 1), HeadAction::Idle));
    assert_eq!(queue.head(), None);
}

#[test]
fn cancelled_head_is_cleared() {
    let cfg = config(&["ci"], 100, false);
    let mut pulls = vec![pull(1, &[], Status::Queued)];
    let mut queue = MergeQueue::new();
    start(&mut queue, &mut pulls, 1, "M1", 0);
    pulls[0].status = Status::InReview;
    assert!(matches!(queue.process_head(&cfg, &mut pulls, 1), HeadAction::Idle));
    assert_eq!(queue.head(), None);
}

#[test]
fn pending_checks_keep_the_head() {
    let cfg = config(&["ci", "lint"], 100, false);
    let mut pulls = vec![pull(1, &[], Status::Queued)];
    let mut queue = MergeQueue::new();
    start(&mut queue, &mut pulls, 1, "M1", 0);
    record_test_result(&mut pulls, 1, "ci".to_string(), pass("c"));
    assert!(matches!(queue.process_head(&cfg, &mut pulls, 99), HeadAction::Idle));
    assert_eq!(queue.head(), Some(1));
}

#[test]
fn later_result_shadows_earlier_one() {
    let cfg = config(&["ci"], 100, false);
    let mut pulls = vec![pull(1, &[], Status::Queued)];
    let mut queue = MergeQueue::new();
    start(&mut queue, &mut pulls, 1, "M1", 0);
    record_test_result(&mut pulls, 1, "ci".to_string(), fail("old"));
    record_test_result(&mut pulls, 1, "ci".to_string(), pass("new"));
    assert!(matches!(queue.process_head(&cfg, &mut pulls, 1), HeadAction::Land { .. }));
}

#[test]
fn result_for_a_pull_request_not_under_test_is_ignored() {
    let mut pulls = vec![pull(1, &[], Status::Queued)];
    assert!(!record_test_result(&mut pulls, 1, "ci".to_string(), pass("c")));
    assert!(!record_test_result(&mut pulls, 2, "ci".to_string(), pass("c")));
    assert!(pulls[0].status.is_queued());
}
