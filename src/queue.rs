use crate::config::RepoConfig;
use crate::state::{
    find_pull, find_result, numbers_distinct, result_for, same_shape, set_status, CheckEntry,
    PullRequestState, Status,
};
use std::cmp::Ordering;
use vstd::prelude::*;

verus! {

/// The sort key of a queued pull request.
#[derive(Clone, Copy, Debug, PartialEq, Eq, Structural)]
pub struct QueueEntry {
    pub number: u64,
    /// Whether the pull request carries the high-priority label.
    pub priority: bool,
}

impl QueueEntry {
    /// `self` is tested before `other`: high priority first, then the lower number.
    pub open spec fn precedes(self, other: QueueEntry) -> bool {
        (self.priority && !other.priority) || (self.priority == other.priority && self.number
            < other.number)
    }

    pub fn cmp(&self, other: &QueueEntry) -> (r: Ordering)
        ensures
            (r == Ordering::Less) == self.precedes(*other),
            (r == Ordering::Greater) == other.precedes(*self),
            (r == Ordering::Equal) == (*self == *other),
    {
        if self.priority != other.priority {
            if self.priority {
                Ordering::Less
            } else {
                Ordering::Greater
            }
        } else if self.number < other.number {
            Ordering::Less
        } else if self.number > other.number {
            Ordering::Greater
        } else {
            Ordering::Equal
        }
    }
}

/// The sort key of a record under `config`.
pub open spec fn entry_of(pull: PullRequestState, config: RepoConfig) -> QueueEntry {
    QueueEntry {
        number: pull.number,
        priority: pull.spec_has_label(config.labels.high_priority@),
    }
}

/// What the checks of a pull request under test say.
#[derive(Clone, Copy, Debug, PartialEq, Eq, Structural)]
pub enum Verdict {
    /// The required check at this position of `config.checks` is the first that failed.
    Failed { check: usize },
    /// Every required check reported a pass.
    Passed,
    /// No check failed, not all passed, and the time allowed is spent.
    TimedOut,
    /// No check failed and there is time left.
    Pending,
}

pub open spec fn is_failing(rs: Seq<CheckEntry>, name: Seq<char>) -> bool {
    result_for(rs, name) matches Some(t) && !t.passed
}

pub open spec fn is_passing(rs: Seq<CheckEntry>, name: Seq<char>) -> bool {
    result_for(rs, name) matches Some(t) && t.passed
}

/// The first position at or after `k` whose check failed.
pub open spec fn first_failure_from(checks: Seq<String>, rs: Seq<CheckEntry>, k: int) -> Option<
    int,
>
    decreases checks.len() - k,
{
    if k < 0 || k >= checks.len() {
        None
    } else if is_failing(rs, checks[k]@) {
        Some(k)
    } else {
        first_failure_from(checks, rs, k + 1)
    }
}

pub open spec fn all_passing(checks: Seq<String>, rs: Seq<CheckEntry>) -> bool {
    forall|k: int| 0 <= k < checks.len() ==> is_passing(rs, #[trigger] checks[k]@)
}

pub open spec fn timed_out(started: u64, now: u64, timeout: u64) -> bool {
    now - started >= timeout
}

/// The verdict on the results `rs` of tests started at `started`, read at `now`.
pub open spec fn verdict_of(
    checks: Seq<String>,
    rs: Seq<CheckEntry>,
    started: u64,
    now: u64,
    timeout: u64,
) -> Verdict {
    match first_failure_from(checks, rs, 0) {
        Some(k) => Verdict::Failed { check: k as usize },
        None => if all_passing(checks, rs) {
            Verdict::Passed
        } else if timed_out(started, now, timeout) {
            Verdict::TimedOut
        } else {
            Verdict::Pending
        },
    }
}

proof fn lemma_first_failure_bounds(checks: Seq<String>, rs: Seq<CheckEntry>, k: int)
    requires
        0 <= k,
    ensures
        first_failure_from(checks, rs, k) matches Some(j) ==> k <= j < checks.len()
            && is_failing(rs, checks[j]@),
    decreases checks.len() - k,
{
    if k < checks.len() && !is_failing(rs, checks[k]@) {
        lemma_first_failure_bounds(checks, rs, k + 1);
    }
}

fn all_checks_pass(config: &RepoConfig, rs: &Vec<CheckEntry>) -> (r: bool)
    ensures
        r == all_passing(config.checks@, rs@),
{
    let mut k: usize = 0;
    while k < config.checks.len()
        invariant
            k <= config.checks@.len(),
            forall|j: int| 0 <= j < k ==> is_passing(rs@, #[trigger] config.checks@[j]@),
        decreases config.checks@.len() - k,
    {
        match find_result(rs, &config.checks[k]) {
            Some(i) => {
                if !rs[i].result.passed {
                    return false;
                }
            },
            None => {
                return false;
            },
        }
        k = k + 1;
    }
    true
}

/// Judges the results of tests started at `started`, read at `now`.
pub fn evaluate(config: &RepoConfig, rs: &Vec<CheckEntry>, started: u64, now: u64) -> (r: Verdict)
    ensures
        r == verdict_of(config.checks@, rs@, started, now, config.timeout),
        r matches Verdict::Failed { check } ==> check < config.checks@.len() && is_failing(
            rs@,
            config.checks@[check as int]@,
        ),
{
    proof {
        lemma_first_failure_bounds(config.checks@, rs@, 0);
    }
    let mut k: usize = 0;
    while k < config.checks.len()
        invariant
            k <= config.checks@.len(),
            first_failure_from(config.checks@, rs@, 0) == first_failure_from(
                config.checks@,
                rs@,
                k as int,
            ),
        decreases config.checks@.len() - k,
    {
        match find_result(rs, &config.checks[k]) {
            Some(i) => {
                if !rs[i].result.passed {
                    return Verdict::Failed { check: k };
                }
            },
            None => {},
        }
        k = k + 1;
    }
    if all_checks_pass(config, rs) {
        Verdict::Passed
    } else if now >= started && now - started >= config.timeout {
        Verdict::TimedOut
    } else {
        Verdict::Pending
    }
}

/// A push of the merge commit to the contributor's branch, made before landing so that
/// the forge shows the pull request as merged.
#[derive(Clone, Debug)]
pub struct InPlacePush {
    pub head_repo: String,
    pub head_ref_name: String,
    /// The commit the branch must still point to.
    pub expected_oid: String,
    pub new_oid: String,
}

/// What the first phase of a tick asks the caller to carry out.
#[derive(Clone, Debug)]
pub enum HeadAction {
    /// Nothing to report.
    Idle,
    /// A required check failed: post a failure status on `head_oid` that points at
    /// `details_url`, and a comment naming `check` and `details_url`.
    Failed { number: u64, head_oid: String, check: String, details_url: String },
    /// The checks ran out of time: post a "Timed-out" failure status on `head_oid` and a comment.
    TimedOut { number: u64, head_oid: String },
    /// Every required check passed: post a success status on `merge_oid`, carry out
    /// `in_place` if present, then advance `heads/<base_ref_name>` to `merge_oid`.
    Land {
        index: usize,
        number: u64,
        merge_oid: String,
        base_ref_name: String,
        in_place: Option<InPlacePush>,
    },
}

/// The in-place push that landing `pull` with merge commit `merge_oid` starts with, if any.
pub open spec fn in_place_of(
    config: RepoConfig,
    pull: PullRequestState,
    merge_oid: String,
) -> Option<InPlacePush> {
    if pull.head_repo is Some && config.maintainer_mode {
        Some(
            InPlacePush {
                head_repo: pull.head_repo.unwrap(),
                head_ref_name: pull.head_ref_name,
                expected_oid: pull.head_ref_oid,
                new_oid: merge_oid,
            },
        )
    } else {
        None
    }
}

/// The first phase of a tick on the head record at `i`: the store and head it leaves
/// (`pulls2`, `head2`) and what it reports (`r`).
pub open spec fn head_step(
    config: RepoConfig,
    pulls: Seq<PullRequestState>,
    i: int,
    now: u64,
    pulls2: Seq<PullRequestState>,
    head2: Option<u64>,
    r: HeadAction,
) -> bool {
    let p = pulls[i];
    match p.status {
        Status::Testing { merge_oid, tests_started_at, test_results } => match verdict_of(
            config.checks@,
            test_results@,
            tests_started_at,
            now,
            config.timeout,
        ) {
            Verdict::Failed { check } => {
                &&& pulls2 == pulls.update(i, p.with_status(Status::InReview))
                &&& head2 is None
                &&& r == HeadAction::Failed {
                    number: p.number,
                    head_oid: p.head_ref_oid,
                    check: config.checks@[check as int],
                    details_url: result_for(
                        test_results@,
                        config.checks@[check as int]@,
                    ).unwrap().details_url,
                }
            },
            Verdict::Passed => {
                &&& pulls2 == pulls
                &&& head2 == Some(p.number)
                &&& r == HeadAction::Land {
                    index: i as usize,
                    number: p.number,
                    merge_oid,
                    base_ref_name: p.base_ref_name,
                    in_place: in_place_of(config, p, merge_oid),
                }
            },
            Verdict::TimedOut => {
                &&& pulls2 == pulls.update(i, p.with_status(Status::InReview))
                &&& head2 is None
                &&& r == HeadAction::TimedOut { number: p.number, head_oid: p.head_ref_oid }
            },
            Verdict::Pending => {
                &&& pulls2 == pulls
                &&& head2 == Some(p.number)
                &&& r is Idle
            },
        },
        _ => {
            &&& pulls2 == pulls
            &&& head2 is None
            &&& r is Idle
        },
    }
}

/// How far the landing of the head has come.
#[derive(Clone, Copy, Debug, PartialEq, Eq, Structural)]
pub enum LandProgress {
    /// The success status was posted; nothing else was done.
    Started,
    /// The in-place push went through.
    InPlacePushed,
    /// The forge refused the in-place push.
    InPlaceRefused,
    /// The base branch points to the merge commit.
    BaseUpdated,
}

/// The next piece of work in landing the head.
#[derive(Clone, Copy, Debug, PartialEq, Eq, Structural)]
pub enum LandStep {
    /// Push the merge commit to the contributor's branch.
    PushInPlace,
    /// Advance the base branch to the merge commit, without force.
    UpdateBaseRef,
    /// Give up: the pull request goes back to review (`MergeQueue::refuse_land`).
    Abandon,
    /// Remove the pull request's card and the record (`MergeQueue::complete_land`).
    Finish,
}

pub open spec fn spec_next_land_step(in_place: bool, progress: LandProgress) -> LandStep {
    match progress {
        LandProgress::Started => if in_place {
            LandStep::PushInPlace
        } else {
            LandStep::UpdateBaseRef
        },
        LandProgress::InPlacePushed => LandStep::UpdateBaseRef,
        LandProgress::InPlaceRefused => LandStep::Abandon,
        LandProgress::BaseUpdated => LandStep::Finish,
    }
}

/// Where landing stands after `step` was carried out and succeeded (`ok`) or not. A
/// failed base update is an I/O error that ends the tick, so it leaves the progress as it was.
pub open spec fn land_after(step: LandStep, ok: bool, progress: LandProgress) -> LandProgress {
    match step {
        LandStep::PushInPlace => if ok {
            LandProgress::InPlacePushed
        } else {
            LandProgress::InPlaceRefused
        },
        LandStep::UpdateBaseRef => if ok {
            LandProgress::BaseUpdated
        } else {
            progress
        },
        _ => progress,
    }
}

/// The next step of landing, where `in_place` says whether an in-place push is due.
pub fn next_land_step(in_place: bool, progress: LandProgress) -> (r: LandStep)
    ensures
        r == spec_next_land_step(in_place, progress),
{
    match progress {
        LandProgress::Started => if in_place {
            LandStep::PushInPlace
        } else {
            LandStep::UpdateBaseRef
        },
        LandProgress::InPlacePushed => LandStep::UpdateBaseRef,
        LandProgress::InPlaceRefused => LandStep::Abandon,
        LandProgress::BaseUpdated => LandStep::Finish,
    }
}

/// The progress after `step` ended with `ok`.
pub fn advance_land(step: LandStep, ok: bool, progress: LandProgress) -> (r: LandProgress)
    ensures
        r == land_after(step, ok, progress),
{
    match step {
        LandStep::PushInPlace => if ok {
            LandProgress::InPlacePushed
        } else {
            LandProgress::InPlaceRefused
        },
        LandStep::UpdateBaseRef => if ok {
            LandProgress::BaseUpdated
        } else {
            progress
        },
        _ => progress,
    }
}

/// The steps that landing takes from `progress` when the outcomes of its pieces of work
/// are `oks`, in order, up to `Abandon` or `Finish` or the first failed base update.
pub open spec fn land_run(in_place: bool, progress: LandProgress, oks: Seq<bool>) -> Seq<LandStep>
    decreases oks.len(),
{
    let step = spec_next_land_step(in_place, progress);
    if step == LandStep::Abandon || step == LandStep::Finish {
        seq![step]
    } else if oks.len() == 0 || (step == LandStep::UpdateBaseRef && !oks[0]) {
        seq![step]
    } else {
        seq![step] + land_run(in_place, land_after(step, oks[0], progress), oks.drop_first())
    }
}

/// Landing from the start, with the in-place push, when due, succeeding: the base
/// update is attempted exactly once, right after it, and once the base update succeeds
/// the run ends by removing the record.
pub proof fn lemma_land_atomicity(in_place: bool, oks: Seq<bool>)
    requires
        in_place ==> oks.len() >= 1 && oks[0],
    ensures
        ({
            let run = land_run(in_place, LandProgress::Started, oks);
            let u = if in_place { 1int } else { 0int };
            &&& run.len() > u
            &&& run[u] == LandStep::UpdateBaseRef
            &&& forall|k: int| 0 <= k < run.len() && k != u ==> run[k] != LandStep::UpdateBaseRef
            &&& oks.len() > u && oks[u] ==> run.len() == u + 2 && run[u + 1] == LandStep::Finish
        }),
{
    let run = land_run(in_place, LandProgress::Started, oks);
    if in_place {
        let rest = land_run(in_place, LandProgress::InPlacePushed, oks.drop_first());
        assert(run == seq![LandStep::PushInPlace] + rest);
        let rest2 = oks.drop_first();
        if rest2.len() > 0 && rest2[0] {
            let tail = land_run(in_place, LandProgress::BaseUpdated, rest2.drop_first());
            assert(tail == seq![LandStep::Finish]);
            assert(rest == seq![LandStep::UpdateBaseRef] + tail);
        } else {
            assert(rest == seq![LandStep::UpdateBaseRef]);
        }
    } else {
        if oks.len() > 0 && oks[0] {
            let tail = land_run(in_place, LandProgress::BaseUpdated, oks.drop_first());
            assert(tail == seq![LandStep::Finish]);
            assert(run == seq![LandStep::UpdateBaseRef] + tail);
        } else {
            assert(run == seq![LandStep::UpdateBaseRef]);
        }
    }
}

/// A refused in-place push abandons the landing: the base branch is never updated.
pub proof fn lemma_refused_push_abandons(oks: Seq<bool>)
    requires
        oks.len() >= 1 && !oks[0],
    ensures
        land_run(true, LandProgress::Started, oks) == seq![LandStep::PushInPlace, LandStep::Abandon],
{
    let tail = land_run(true, LandProgress::InPlaceRefused, oks.drop_first());
    assert(tail == seq![LandStep::Abandon]);
    assert(land_run(true, LandProgress::Started, oks) == seq![LandStep::PushInPlace] + tail);
    assert(seq![LandStep::PushInPlace] + tail =~= seq![LandStep::PushInPlace, LandStep::Abandon]);
}

/// The queue's invariant: numbers are unique, and a record under test is the head.
pub open spec fn tester_inv(head: Option<u64>, pulls: Seq<PullRequestState>) -> bool {
    &&& numbers_distinct(pulls)
    &&& forall|i: int|
        0 <= i < pulls.len() && (#[trigger] pulls[i]).status is Testing ==> head == Some(
            pulls[i].number,
        )
}

/// The head, if any, is a record under test.
pub open spec fn head_ok(head: Option<u64>, pulls: Seq<PullRequestState>) -> bool {
    head matches Some(n) ==> exists|i: int|
        0 <= i < pulls.len() && (#[trigger] pulls[i]).number == n && pulls[i].status is Testing
}

/// In a store that satisfies the queue's invariant at most one record is under test.
pub proof fn lemma_single_tester(head: Option<u64>, pulls: Seq<PullRequestState>)
    requires
        tester_inv(head, pulls),
    ensures
        forall|i: int, j: int|
            0 <= i < pulls.len() && 0 <= j < pulls.len() && (#[trigger] pulls[i]).status is Testing
                && (#[trigger] pulls[j]).status is Testing ==> i == j,
{
}

/// A change of the store that keeps its numbers and the records under test, such as
/// recording a check result, keeps the queue's invariant.
pub proof fn lemma_same_shape_keeps_invariant(
    head: Option<u64>,
    pulls: Seq<PullRequestState>,
    pulls2: Seq<PullRequestState>,
)
    requires
        tester_inv(head, pulls),
        same_shape(pulls, pulls2),
    ensures
        tester_inv(head, pulls2),
{
    assert forall|i: int, j: int|
        0 <= i < pulls2.len() && 0 <= j < pulls2.len() && i != j implies pulls2[i].number
        != pulls2[j].number by {
        assert(pulls2[i].number == pulls[i].number);
        assert(pulls2[j].number == pulls[j].number);
    }
}

/// A record under test whose time is spent, and whose checks have not all passed, is
/// back in review after the first phase of the next tick, and the head is cleared.
pub proof fn lemma_timeout_bound(
    config: RepoConfig,
    pulls: Seq<PullRequestState>,
    i: int,
    now: u64,
    pulls2: Seq<PullRequestState>,
    head2: Option<u64>,
    r: HeadAction,
)
    requires
        0 <= i < pulls.len(),
        pulls[i].status matches Status::Testing { tests_started_at, test_results, .. }
            && timed_out(tests_started_at, now, config.timeout) && !all_passing(
            config.checks@,
            test_results@,
        ),
        head_step(config, pulls, i, now, pulls2, head2, r),
    ensures
        pulls2[i].status is InReview,
        head2 is None,
{
    if let Status::Testing { test_results, .. } = pulls[i].status {
        lemma_first_failure_bounds(config.checks@, test_results@, 0);
    }
}

/// The merge queue of one repository: it records which pull request is under test.
#[derive(Debug)]
pub struct MergeQueue {
    /// The current head of the queue, the pull request that is being tested.
    head: Option<u64>,
}

impl View for MergeQueue {
    type V = Option<u64>;

    closed spec fn view(&self) -> Option<u64> {
        self.head
    }
}

impl MergeQueue {
    pub fn new() -> (r: MergeQueue)
        ensures
            r@ is None,
    {
        MergeQueue { head: None }
    }

    /// The number of the pull request under test.
    pub fn head(&self) -> (r: Option<u64>)
        ensures
            r == self@,
    {
        self.head
    }

    /// The first phase of a tick: judges the pull request under test at time `now`.
    ///
    /// A failed or timed-out pull request goes back to review and the head is cleared;
    /// a passed one is left for the caller to land; a head that vanished or is no
    /// longer under test is cleared.
    pub fn process_head(
        &mut self,
        config: &RepoConfig,
        pulls: &mut Vec<PullRequestState>,
        now: u64,
    ) -> (r: HeadAction)
        requires
            tester_inv(old(self)@, old(pulls)@),
        ensures
            tester_inv(final(self)@, final(pulls)@),
            head_ok(final(self)@, final(pulls)@),
            old(self)@ is None ==> r is Idle && final(self)@ is None && final(pulls)@ == old(
                pulls,
            )@,
            old(self)@ matches Some(n) && (forall|i: int|
                0 <= i < old(pulls)@.len() ==> old(pulls)@[i].number != n) ==> r is Idle
                && final(self)@ is None && final(pulls)@ == old(pulls)@,
            forall|i: int|
                0 <= i < old(pulls)@.len() && old(self)@ == Some(#[trigger] old(pulls)@[i].number)
                    ==> head_step(*config, old(pulls)@, i, now, final(pulls)@, final(self)@, r),
    {
        let head = match self.head {
            Some(h) => h,
            None => {
                return HeadAction::Idle;
            },
        };
        let i = match find_pull(pulls, head) {
            Some(i) => i,
            None => {
                self.head = None;
                return HeadAction::Idle;
            },
        };
        let ghost old_pulls = pulls@;
        let number = pulls[i].number;
        let (merge_oid, started, results) = match &pulls[i].status {
            Status::Testing { merge_oid, tests_started_at, test_results } => (
                merge_oid,
                *tests_started_at,
                test_results,
            ),
            _ => {
                self.head = None;
                return HeadAction::Idle;
            },
        };
        match evaluate(config, results, started, now) {
            Verdict::Failed { check } => {
                let name = config.checks[check].clone();
                let details_url = match find_result(results, &name) {
                    Some(j) => results[j].result.details_url.clone(),
                    None => String::new(),
                };
                let head_oid = pulls[i].head_ref_oid.clone();
                set_status(pulls, i, Status::InReview);
                self.head = None;
                HeadAction::Failed { number, head_oid, check: name, details_url }
            },
            Verdict::Passed => {
                let merge_oid = merge_oid.clone();
                let pull = &pulls[i];
                let in_place = match &pull.head_repo {
                    Some(head_repo) => {
                        if config.maintainer_mode {
                            Some(
                                InPlacePush {
                                    head_repo: head_repo.clone(),
                                    head_ref_name: pull.head_ref_name.clone(),
                                    expected_oid: pull.head_ref_oid.clone(),
                                    new_oid: merge_oid.clone(),
                                },
                            )
                        } else {
                            None
                        }
                    },
                    None => None,
                };
                proof {
                    assert(old_pulls[i as int].number == head);
                }
                HeadAction::Land {
                    index: i,
                    number,
                    merge_oid,
                    base_ref_name: pull.base_ref_name.clone(),
                    in_place,
                }
            },
            Verdict::TimedOut => {
                let head_oid = pulls[i].head_ref_oid.clone();
                set_status(pulls, i, Status::InReview);
                self.head = None;
                HeadAction::TimedOut { number, head_oid }
            },
            Verdict::Pending => {
                proof {
                    assert(old_pulls[i as int].number == head);
                }
                HeadAction::Idle
            },
        }
    }

    /// The position of the queued pull request to test next: high priority first,
    /// then the lowest number; `None` when nothing is queued.
    pub fn next_candidate(&self, config: &RepoConfig, pulls: &Vec<PullRequestState>) -> (r:
        Option<usize>)
        requires
            numbers_distinct(pulls@),
        ensures
            r matches Some(i) ==> i < pulls@.len() && pulls@[i as int].status is Queued && forall|
                j: int,
            |
                0 <= j < pulls@.len() && j != i && (#[trigger] pulls@[j]).status is Queued
                    ==> entry_of(pulls@[i as int], *config).precedes(entry_of(pulls@[j], *config)),
            r is None ==> forall|j: int| 0 <= j < pulls@.len() ==> !(#[trigger] pulls@[j].status is Queued),
    {
        let mut best: Option<usize> = None;
        let mut best_entry = QueueEntry { number: 0, priority: false };
        let mut i: usize = 0;
        while i < pulls.len()
            invariant
                i <= pulls@.len(),
                numbers_distinct(pulls@),
                best matches Some(b) ==> b < i && pulls@[b as int].status is Queued && best_entry
                    == entry_of(pulls@[b as int], *config) && forall|j: int|
                    0 <= j < i && j != b && (#[trigger] pulls@[j]).status is Queued
                        ==> best_entry.precedes(entry_of(pulls@[j], *config)),
                best is None ==> forall|j: int| 0 <= j < i ==> !(#[trigger] pulls@[j].status is Queued),
            decreases pulls@.len() - i,
        {
            if pulls[i].status.is_queued() {
                let entry = QueueEntry {
                    number: pulls[i].number,
                    priority: pulls[i].has_label(&config.labels.high_priority),
                };
                match best {
                    None => {
                        best = Some(i);
                        best_entry = entry;
                    },
                    Some(b) => {
                        match entry.cmp(&best_entry) {
                            Ordering::Less => {
                                best = Some(i);
                                best_entry = entry;
                            },
                            _ => {
                                assert(pulls@[b as int].number != pulls@[i as int].number);
                            },
                        }
                    },
                }
            }
            i = i + 1;
        }
        best
    }

    /// Puts the queued pull request at `i` under test with the merge commit `merge_oid`
    /// staged at `now`, and makes it the head.
    pub fn start_testing(
        &mut self,
        pulls: &mut Vec<PullRequestState>,
        i: usize,
        merge_oid: String,
        now: u64,
    )
        requires
            old(self)@ is None,
            tester_inv(old(self)@, old(pulls)@),
            i < old(pulls)@.len(),
            old(pulls)@[i as int].status is Queued,
        ensures
            final(self)@ == Some(old(pulls)@[i as int].number),
            final(pulls)@ == old(pulls)@.update(
                i as int,
                old(pulls)@[i as int].with_status(final(pulls)@[i as int].status),
            ),
            final(pulls)@[i as int].status matches Status::Testing {
                merge_oid: m,
                tests_started_at: t,
                test_results: rs,
            } && m == merge_oid && t == now && rs@.len() == 0,
            tester_inv(final(self)@, final(pulls)@),
            head_ok(final(self)@, final(pulls)@),
    {
        let number = pulls[i].number;
        set_status(pulls, i, Status::testing(merge_oid, now));
        self.head = Some(number);
        assert(pulls@[i as int].number == number);
    }

    /// Sends the queued pull request at `i`, whose rebase conflicted, back to review.
    pub fn reject_conflict(&mut self, pulls: &mut Vec<PullRequestState>, i: usize)
        requires
            tester_inv(old(self)@, old(pulls)@),
            i < old(pulls)@.len(),
            old(pulls)@[i as int].status is Queued,
        ensures
            final(self)@ == old(self)@,
            final(pulls)@ == old(pulls)@.update(
                i as int,
                old(pulls)@[i as int].with_status(Status::InReview),
            ),
            tester_inv(final(self)@, final(pulls)@),
    {
        set_status(pulls, i, Status::InReview);
    }

    /// Abandons the landing of the head at `i` after its in-place push was refused: it
    /// goes back to review and the head is cleared.
    pub fn refuse_land(&mut self, pulls: &mut Vec<PullRequestState>, i: usize)
        requires
            tester_inv(old(self)@, old(pulls)@),
            i < old(pulls)@.len(),
            old(self)@ == Some(old(pulls)@[i as int].number),
        ensures
            final(self)@ is None,
            final(pulls)@ == old(pulls)@.update(
                i as int,
                old(pulls)@[i as int].with_status(Status::InReview),
            ),
            tester_inv(final(self)@, final(pulls)@),
    {
        set_status(pulls, i, Status::InReview);
        self.head = None;
    }

    /// Completes the landing of the head at `i` once the base branch points to its merge
    /// commit: the record leaves the store and the head is cleared.
    pub fn complete_land(&mut self, pulls: &mut Vec<PullRequestState>, i: usize)
        requires
            tester_inv(old(self)@, old(pulls)@),
            i < old(pulls)@.len(),
            old(self)@ == Some(old(pulls)@[i as int].number),
        ensures
            final(self)@ is None,
            final(pulls)@ == old(pulls)@.remove(i as int),
            tester_inv(final(self)@, final(pulls)@),
            forall|j: int|
                0 <= j < final(pulls)@.len() ==> (#[trigger] final(pulls)@[j]).number != old(
                    pulls,
                )@[i as int].number,
    {
        let ghost old_pulls = pulls@;
        pulls.remove(i);
        self.head = None;
        assert forall|j: int| 0 <= j < pulls@.len() implies (#[trigger] pulls@[j]).number
            != old_pulls[i as int].number by {
            if j < i {
                assert(pulls@[j] == old_pulls[j]);
            } else {
                assert(pulls@[j] == old_pulls[j + 1]);
            }
        }
        assert forall|a: int, b: int|
            0 <= a < pulls@.len() && 0 <= b < pulls@.len() && a != b implies pulls@[a].number
            != pulls@[b].number by {
            let oa = if a < i { a } else { a + 1 };
            let ob = if b < i { b } else { b + 1 };
            assert(pulls@[a] == old_pulls[oa]);
            assert(pulls@[b] == old_pulls[ob]);
        }
    }
}

} // verus!
