use vstd::prelude::*;

verus! {

/// How the dispatch of one event ended.
#[derive(PartialEq, Eq, Structural, Clone, Copy, Debug)]
pub enum Status {
    Success,
    Failure,
    TimedOut,
}

/// The result of one event's dispatch: produced exactly once per event per attempt.
#[derive(Clone, Debug)]
pub struct DispatchOutcome {
    pub status: Status,
    pub event_id: u64,
    /// Why a delivery failed, where the transport said so.
    pub detail: Option<String>,
}

/// One outcome per input event, in the order of the input.
#[derive(Clone, Debug)]
pub struct BatchResult {
    pub outcomes: Vec<DispatchOutcome>,
}

/// How many outcomes of a batch ended in each status.
#[derive(PartialEq, Eq, Structural, Clone, Copy, Debug)]
pub struct Summary {
    pub success_count: usize,
    pub failure_count: usize,
    pub timeout_count: usize,
}

/// The number of outcomes in `s` whose status is `st`.
pub open spec fn count_status(s: Seq<DispatchOutcome>, st: Status) -> nat
    decreases s.len(),
{
    if s.len() == 0 {
        0
    } else {
        count_status(s.drop_last(), st) + if s.last().status == st { 1nat } else { 0nat }
    }
}

/// Every outcome has exactly one status, so the three counts of a batch add up
/// to the number of its outcomes.
pub proof fn lemma_counts_sum_to_len(s: Seq<DispatchOutcome>)
    ensures
        count_status(s, Status::Success) + count_status(s, Status::Failure) + count_status(
            s,
            Status::TimedOut,
        ) == s.len(),
    decreases s.len(),
{
    if s.len() > 0 {
        lemma_counts_sum_to_len(s.drop_last());
    }
}

impl DispatchOutcome {
    /// The outcome of an event that was not delivered because the deadline had elapsed.
    pub fn timed_out(event_id: u64) -> (r: DispatchOutcome)
        ensures
            r.status == Status::TimedOut,
            r.event_id == event_id,
            r.detail is None,
    {
        DispatchOutcome { status: Status::TimedOut, event_id, detail: None }
    }

    pub fn is_success(&self) -> (r: bool)
        ensures
            r == (self.status == Status::Success),
    {
        self.status == Status::Success
    }
}

impl BatchResult {
    pub fn len(&self) -> (r: usize)
        ensures
            r == self.outcomes@.len(),
    {
        self.outcomes.len()
    }

    /// Counts the outcomes of each status.
    pub fn summarize(&self) -> (r: Summary)
        ensures
            r.success_count == count_status(self.outcomes@, Status::Success),
            r.failure_count == count_status(self.outcomes@, Status::Failure),
            r.timeout_count == count_status(self.outcomes@, Status::TimedOut),
            r.success_count + r.failure_count + r.timeout_count == self.outcomes@.len(),
    {
        let mut success_count: usize = 0;
        let mut failure_count: usize = 0;
        let mut timeout_count: usize = 0;
        let mut i: usize = 0;
        while i < self.outcomes.len()
            invariant
                i <= self.outcomes@.len(),
                success_count == count_status(self.outcomes@.take(i as int), Status::Success),
                failure_count == count_status(self.outcomes@.take(i as int), Status::Failure),
                timeout_count == count_status(self.outcomes@.take(i as int), Status::TimedOut),
                success_count + failure_count + timeout_count == i,
            decreases self.outcomes@.len() - i,
        {
            let ghost prefix = self.outcomes@.take(i as int);
            let ghost next = self.outcomes@.take(i + 1);
            assert(next.drop_last() =~= prefix);
            match self.outcomes[i].status {
                Status::Success => success_count = success_count + 1,
                Status::Failure => failure_count = failure_count + 1,
                Status::TimedOut => timeout_count = timeout_count + 1,
            }
            i = i + 1;
        }
        proof {
            assert(self.outcomes@.take(i as int) =~= self.outcomes@);
            lemma_counts_sum_to_len(self.outcomes@);
        }
        Summary { success_count, failure_count, timeout_count }
    }
}

} // verus!
