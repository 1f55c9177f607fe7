use vstd::prelude::*;

verus! {

/// The outcome that one CI check reported.
#[derive(Clone, Debug)]
pub struct TestResult {
    pub passed: bool,
    pub details_url: String,
}

/// A check name together with what it reported.
#[derive(Clone, Debug)]
pub struct CheckEntry {
    pub name: String,
    pub result: TestResult,
}

/// Where a pull request stands in the queue.
#[derive(Clone, Debug)]
pub enum Status {
    /// Idle: not in the queue.
    InReview,
    /// Approved and waiting for its turn.
    Queued,
    /// At the head of the queue: a merge commit was staged and CI runs on it.
    Testing { merge_oid: String, tests_started_at: u64, test_results: Vec<CheckEntry> },
}

impl Status {
    /// A fresh `Testing` status for a merge commit staged at `now`.
    pub fn testing(merge_oid: String, now: u64) -> (r: Status)
        ensures
            r matches Status::Testing { merge_oid: m, tests_started_at: t, test_results: rs }
                && m == merge_oid && t == now && rs@.len() == 0,
    {
        Status::Testing { merge_oid, tests_started_at: now, test_results: Vec::new() }
    }

    pub fn is_testing(&self) -> (r: bool)
        ensures
            r == (*self is Testing),
    {
        matches!(self, Status::Testing { .. })
    }

    pub fn is_queued(&self) -> (r: bool)
        ensures
            r == (*self is Queued),
    {
        matches!(self, Status::Queued)
    }
}

/// The result recorded for check `name`: the first entry of that name.
pub open spec fn result_for(rs: Seq<CheckEntry>, name: Seq<char>) -> Option<TestResult>
    decreases rs.len(),
{
    if rs.len() == 0 {
        None
    } else if rs[0].name@ == name {
        Some(rs[0].result)
    } else {
        result_for(rs.drop_first(), name)
    }
}

/// The index of the entry that `result_for` reads, if any.
pub fn find_result(rs: &Vec<CheckEntry>, name: &String) -> (r: Option<usize>)
    ensures
        r matches Some(i) ==> i < rs@.len() && result_for(rs@, name@) == Some(rs@[i as int].result),
        r is None ==> result_for(rs@, name@) is None,
{
    let mut i: usize = 0;
    assert(rs@.subrange(0, rs@.len() as int) =~= rs@);
    while i < rs.len()
        invariant
            i <= rs@.len(),
            result_for(rs@, name@) == result_for(rs@.subrange(i as int, rs@.len() as int), name@),
        decreases rs@.len() - i,
    {
        let ghost rest = rs@.subrange(i as int, rs@.len() as int);
        assert(rest.drop_first() =~= rs@.subrange(i + 1, rs@.len() as int));
        if rs[i].name == *name {
            return Some(i);
        }
        i = i + 1;
    }
    assert(rs@.subrange(i as int, rs@.len() as int).len() == 0);
    None
}

/// The in-memory record of one pull request.
#[derive(Clone, Debug)]
pub struct PullRequestState {
    pub number: u64,
    pub head_ref_name: String,
    pub head_ref_oid: String,
    /// The fork the pull request comes from; `None` for a branch of the repository itself.
    pub head_repo: Option<String>,
    pub base_ref_name: String,
    pub maintainer_can_modify: bool,
    pub labels: Vec<String>,
    pub status: Status,
}

impl PullRequestState {
    /// This record with its status replaced.
    pub open spec fn with_status(self, status: Status) -> PullRequestState {
        PullRequestState { status, ..self }
    }

    pub open spec fn spec_has_label(&self, label: Seq<char>) -> bool {
        exists|i: int| 0 <= i < self.labels@.len() && #[trigger] self.labels@[i]@ == label
    }

    pub fn has_label(&self, label: &String) -> (r: bool)
        ensures
            r == self.spec_has_label(label@),
    {
        let mut i: usize = 0;
        while i < self.labels.len()
            invariant
                i <= self.labels@.len(),
                forall|j: int| 0 <= j < i ==> self.labels@[j]@ != label@,
            decreases self.labels@.len() - i,
        {
            if self.labels[i] == *label {
                return true;
            }
            i = i + 1;
        }
        false
    }

    /// A record with empty fields, used to hold a slot while a record is edited.
    fn blank() -> PullRequestState {
        PullRequestState {
            number: 0,
            head_ref_name: String::new(),
            head_ref_oid: String::new(),
            head_repo: None,
            base_ref_name: String::new(),
            maintainer_can_modify: false,
            labels: Vec::new(),
            status: Status::InReview,
        }
    }
}

/// No two records of the store share a number.
pub open spec fn numbers_distinct(pulls: Seq<PullRequestState>) -> bool {
    forall|i: int, j: int|
        0 <= i < pulls.len() && 0 <= j < pulls.len() && i != j ==> pulls[i].number
            != pulls[j].number
}

/// `b` holds the same numbers as `a`, in the same places, and the same records are under test.
pub open spec fn same_shape(a: Seq<PullRequestState>, b: Seq<PullRequestState>) -> bool {
    &&& a.len() == b.len()
    &&& forall|i: int|
        0 <= i < a.len() ==> (#[trigger] b[i]).number == a[i].number && (b[i].status is Testing
            <==> a[i].status is Testing)
}

/// The position of the record with the given number.
pub fn find_pull(pulls: &Vec<PullRequestState>, number: u64) -> (r: Option<usize>)
    ensures
        r matches Some(i) ==> i < pulls@.len() && pulls@[i as int].number == number,
        r is None ==> forall|i: int| 0 <= i < pulls@.len() ==> pulls@[i].number != number,
{
    let mut i: usize = 0;
    while i < pulls.len()
        invariant
            i <= pulls@.len(),
            forall|j: int| 0 <= j < i ==> pulls@[j].number != number,
        decreases pulls@.len() - i,
    {
        if pulls[i].number == number {
            return Some(i);
        }
        i = i + 1;
    }
    None
}

/// Replaces the status of the record at `i`, leaving everything else as it was.
pub fn set_status(pulls: &mut Vec<PullRequestState>, i: usize, status: Status)
    requires
        i < old(pulls)@.len(),
    ensures
        final(pulls)@ == old(pulls)@.update(i as int, old(pulls)@[i as int].with_status(status)),
{
    let mut pull = PullRequestState::blank();
    pulls.set_and_swap(i, &mut pull);
    pull.status = status;
    pulls.set(i, pull);
}

/// Records the result `result` of check `name` for the pull request `number`, when it
/// is under test; the new entry goes first, so that it shadows an earlier one of that name.
/// Returns whether a record was changed.
pub fn record_test_result(
    pulls: &mut Vec<PullRequestState>,
    number: u64,
    name: String,
    result: TestResult,
) -> (r: bool)
    requires
        numbers_distinct(old(pulls)@),
    ensures
        same_shape(old(pulls)@, final(pulls)@),
        !r ==> final(pulls)@ == old(pulls)@,
        !r ==> forall|i: int|
            0 <= i < old(pulls)@.len() && old(pulls)@[i].number == number ==> !((
            #[trigger] old(pulls)@[i]).status is Testing),
        forall|i: int|
            0 <= i < old(pulls)@.len() && (#[trigger] old(pulls)@[i]).number == number
                && old(pulls)@[i].status is Testing ==> {
                &&& r
                &&& final(pulls)@ == old(pulls)@.update(
                    i,
                    old(pulls)@[i].with_status(final(pulls)@[i].status),
                )
                &&& old(pulls)@[i].status matches Status::Testing {
                    merge_oid: m0,
                    tests_started_at: t0,
                    test_results: rs0,
                }
                &&& final(pulls)@[i].status matches Status::Testing {
                    merge_oid: m,
                    tests_started_at: t,
                    test_results: rs,
                }
                &&& m == m0 && t == t0
                &&& rs@ == seq![CheckEntry { name, result }] + rs0@
            },
{
    let i = match find_pull(pulls, number) {
        Some(i) => i,
        None => {
            return false;
        },
    };
    if !pulls[i].status.is_testing() {
        return false;
    }
    let ghost old_pulls = pulls@;
    let mut pull = PullRequestState::blank();
    pulls.set_and_swap(i, &mut pull);
    let mut status = Status::InReview;
    std::mem::swap(&mut pull.status, &mut status);
    match status {
        Status::Testing { merge_oid, tests_started_at, mut test_results } => {
            let ghost rs0 = test_results@;
            test_results.insert(0, CheckEntry { name, result });
            assert(test_results@ =~= seq![CheckEntry { name, result }] + rs0);
            pull.status = Status::Testing { merge_oid, tests_started_at, test_results };
        },
        other => {
            pull.status = other;
        },
    }
    pulls.set(i, pull);
    assert(pulls@ =~= old_pulls.update(i as int, old_pulls[i as int].with_status(pulls@[i as int].status)));
    true
}

} // verus!
