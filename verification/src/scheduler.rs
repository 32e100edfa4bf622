use vstd::prelude::*;

verus! {

// ---------------------------------------------------------------------------
// Run accounting: the bounded-concurrency fan-out, proxy assignment, and
// the bounded retry policy. The scheduler's loop lives outside the library;
// every admission, completion and assignment decision is taken here, so the
// bound on in-flight executions and the record count are facts of the
// ledger, not of the loop.
// ---------------------------------------------------------------------------

/// The proxy an execution uses, by round-robin over the read-only pool:
/// execution `index` always uses the proxy at `index mod pool_len`.
pub fn assign_proxy_index(index: usize, pool_len: usize) -> (r: usize)
    requires
        pool_len >= 1,
    ensures
        r == index as int % pool_len as int,
        r < pool_len,
{
    index % pool_len
}

/// The proxy to try on the `attempt`-th retry of an execution that started
/// on proxy `start`: rotate through the pool, once per proxy, then give up.
pub fn rotate_proxy_index(start: usize, attempt: usize, pool_len: usize) -> (r: Option<usize>)
    requires
        pool_len >= 1,
        start < pool_len,
    ensures
        attempt < pool_len ==> r == Some(((start + attempt) as int % pool_len as int) as usize),
        attempt >= pool_len ==> r is None,
        r matches Some(i) ==> i < pool_len,
{
    if attempt >= pool_len {
        None
    } else {
        proof {
            let s = start as int;
            let a = attempt as int;
            let p = pool_len as int;
            if a < p - s {
                assert((s + a) % p == s + a) by (nonlinear_arith)
                    requires
                        0 <= s + a < p,
                ;
            } else {
                assert((s + a) % p == s + a - p) by (nonlinear_arith)
                    requires
                        p <= s + a < 2 * p,
                        p > 0,
                ;
            }
        }
        if attempt < pool_len - start {
            Some(start + attempt)
        } else {
            Some(attempt - (pool_len - start))
        }
    }
}

/// Rotation is exhaustive and fair: over one round of the pool, no two
/// attempts land on the same proxy, so giving up after `pool_len`
/// attempts means every proxy was tried exactly once.
pub proof fn lemma_rotation_tries_each_proxy_once(
    start: usize,
    a1: usize,
    a2: usize,
    pool_len: usize,
)
    requires
        pool_len >= 1,
        start < pool_len,
        a1 < pool_len,
        a2 < pool_len,
        a1 != a2,
    ensures
        (start + a1) as int % pool_len as int != (start + a2) as int % pool_len as int,
{
    let s = start as int;
    let p = pool_len as int;
    let x1 = s + a1;
    let x2 = s + a2;
    assert((x1 % p == if x1 < p { x1 } else { x1 - p }) && (x2 % p == if x2 < p {
        x2
    } else {
        x2 - p
    })) by (nonlinear_arith)
        requires
            0 <= x1 < 2 * p,
            0 <= x2 < 2 * p,
            p > 0,
    ;
}

/// The delay before retry number `attempt`, doubling from `base` on.
pub open spec fn backoff_delay(base: int, attempt: int) -> int
    decreases attempt,
{
    if attempt <= 0 {
        base
    } else {
        2 * backoff_delay(base, attempt - 1)
    }
}

proof fn lemma_backoff_nonneg(base: int, attempt: int)
    requires
        base >= 0,
    ensures
        backoff_delay(base, attempt) >= base,
    decreases attempt,
{
    if attempt > 0 {
        lemma_backoff_nonneg(base, attempt - 1);
    }
}

/// Bounded retry with exponential backoff: a failed execution is retried at
/// most `max_attempts` times, waiting `base_delay_ms * 2^attempt`
/// milliseconds (saturating) before attempt number `attempt`; after that
/// the run gives up on the credential and records a terminal failure.
#[derive(Clone, Copy, Debug, PartialEq, Eq, Structural)]
pub struct RetryPolicy {
    pub max_attempts: u32,
    pub base_delay_ms: u64,
}

impl RetryPolicy {
    /// What the policy says about retry number `attempt` (counted from
    /// zero): `None` to give up, or the delay in milliseconds to wait.
    pub open spec fn spec_delay(self, attempt: u32) -> Option<u64> {
        if attempt >= self.max_attempts {
            None
        } else if backoff_delay(self.base_delay_ms as int, attempt as int) > u64::MAX {
            Some(u64::MAX)
        } else {
            Some(backoff_delay(self.base_delay_ms as int, attempt as int) as u64)
        }
    }

    /// Decides retry number `attempt`.
    pub fn delay_for_attempt(&self, attempt: u32) -> (r: Option<u64>)
        ensures
            r == self.spec_delay(attempt),
    {
        if attempt >= self.max_attempts {
            return None;
        }
        let mut d: u64 = self.base_delay_ms;
        let mut i: u32 = 0;
        while i < attempt
        invariant
            i <= attempt,
            ({
                let b = backoff_delay(self.base_delay_ms as int, i as int);
                if b > u64::MAX {
                    d == u64::MAX
                } else {
                    d == b
                }
            }),
        decreases attempt - i,
        {
            proof {
                lemma_backoff_nonneg(self.base_delay_ms as int, i as int);
                lemma_backoff_nonneg(self.base_delay_ms as int, i + 1);
            }
            if d > u64::MAX / 2 {
                d = u64::MAX;
            } else {
                d = 2 * d;
            }
            i = i + 1;
        }
        Some(d)
    }
}

/// The ledger of one run: how many credentials exist, how many executions
/// were started and finished, and the outcome records produced so far.
///
/// It keeps the run's three global facts as its well-formedness invariant:
/// executions started never exceed the credential count, at most
/// `parallelism` executions are in flight at once, and there is at most one
/// record per finished execution.
pub struct RunLedger {
    parallelism: usize,
    total: usize,
    started: usize,
    finished: usize,
    records: Vec<String>,
}

impl RunLedger {
    /// The well-formedness facts every ledger maintains: constructors
    /// establish them and every operation preserves them.
    pub closed spec fn wf(self) -> bool {
        &&& self.parallelism >= 1
        &&& self.finished <= self.started <= self.total
        &&& self.started - self.finished <= self.parallelism
        &&& self.records.len() <= self.finished
    }

    pub closed spec fn spec_parallelism(self) -> int {
        self.parallelism as int
    }

    pub closed spec fn spec_total(self) -> int {
        self.total as int
    }

    pub closed spec fn spec_started(self) -> int {
        self.started as int
    }

    pub closed spec fn spec_finished(self) -> int {
        self.finished as int
    }

    /// How many executions are in flight right now.
    pub closed spec fn spec_in_flight(self) -> int {
        self.started - self.finished
    }

    /// The outcome records appended so far, in completion order.
    pub closed spec fn spec_records(self) -> Seq<Seq<char>> {
        self.records.deep_view()
    }

    /// A fresh ledger for `total` credentials under `parallelism`.
    pub fn new(parallelism: usize, total: usize) -> (l: RunLedger)
        requires
            parallelism >= 1,
        ensures
            l.spec_parallelism() == parallelism,
            l.spec_total() == total,
            l.spec_started() == 0,
            l.spec_finished() == 0,
            l.spec_records() == Seq::<Seq<char>>::empty(),
            l.wf(),
    {
        let l = RunLedger { parallelism, total, started: 0, finished: 0, records: Vec::new() };
        proof {
            assert(l.spec_records() =~= Seq::<Seq<char>>::empty());
        }
        l
    }

    /// Whether the next credential may start now: some are left, and a
    /// slot is free under the concurrency bound.
    pub open spec fn spec_can_start(self) -> bool {
        self.spec_started() < self.spec_total() && self.spec_in_flight() < self.spec_parallelism()
    }

    pub fn can_start(&self) -> (r: bool)
        requires
            self.wf(),
        ensures
            r == self.spec_can_start(),
    {
        self.started < self.total && self.started - self.finished < self.parallelism
    }

    /// Starts the next credential; its index is the returned value.
    pub fn start_next(&mut self) -> (index: usize)
        requires
            old(self).wf(),
            old(self).spec_can_start(),
        ensures
            final(self).wf(),
            index == old(self).spec_started(),
            final(self).spec_started() == old(self).spec_started() + 1,
            final(self).spec_finished() == old(self).spec_finished(),
            final(self).spec_parallelism() == old(self).spec_parallelism(),
            final(self).spec_total() == old(self).spec_total(),
            final(self).spec_records() == old(self).spec_records(),
    {
        let index = self.started;
        self.started = self.started + 1;
        index
    }

    /// Finishes one in-flight execution that produced an outcome record:
    /// the line is appended, whole, after everything already recorded.
    pub fn complete_with_record(&mut self, line: String) -> (r: ())
        requires
            old(self).wf(),
            old(self).spec_in_flight() > 0,
        ensures
            final(self).wf(),
            final(self).spec_finished() == old(self).spec_finished() + 1,
            final(self).spec_started() == old(self).spec_started(),
            final(self).spec_parallelism() == old(self).spec_parallelism(),
            final(self).spec_total() == old(self).spec_total(),
            final(self).spec_records() == old(self).spec_records().push(line@),
    {
        self.finished = self.finished + 1;
        self.records.push(line);
        proof {
            assert(self.spec_records() =~= old(self).spec_records().push(line@));
        }
    }

    /// Finishes one in-flight execution that produced no record — a
    /// not-eligible or indeterminate verdict, or any failure. The records
    /// stay as they were, and the freed slot lets the run go on with the
    /// remaining credentials.
    pub fn complete_without_record(&mut self) -> (r: ())
        requires
            old(self).wf(),
            old(self).spec_in_flight() > 0,
        ensures
            final(self).wf(),
            final(self).spec_finished() == old(self).spec_finished() + 1,
            final(self).spec_started() == old(self).spec_started(),
            final(self).spec_parallelism() == old(self).spec_parallelism(),
            final(self).spec_total() == old(self).spec_total(),
            final(self).spec_records() == old(self).spec_records(),
    {
        self.finished = self.finished + 1;
    }

    /// How many executions are in flight right now.
    pub fn in_flight(&self) -> (n: usize)
        requires
            self.wf(),
        ensures
            n == self.spec_in_flight(),
    {
        self.started - self.finished
    }

    /// The recorded lines, for the sink.
    pub fn record_count(&self) -> (n: usize)
        ensures
            n == self.spec_records().len(),
    {
        self.records.len()
    }

    /// Whether every started execution has finished and none are left.
    pub fn is_done(&self) -> (r: bool)
        requires
            self.wf(),
        ensures
            r == (self.spec_started() == self.spec_total() && self.spec_in_flight() == 0),
    {
        self.started == self.total && self.finished == self.started
    }

    /// The concurrency bound holds at every point of a run: the in-flight
    /// executions never exceed the configured parallelism.
    pub proof fn lemma_concurrency_bound(&self)
        requires
            self.wf(),
        ensures
            0 <= self.spec_in_flight() <= self.spec_parallelism(),
    {
    }

    /// There is at most one outcome record per credential processed: the
    /// records never outnumber the finished executions, which never exceed
    /// the credential count.
    pub proof fn lemma_records_bounded(&self)
        requires
            self.wf(),
        ensures
            self.spec_records().len() <= self.spec_finished() <= self.spec_total(),
    {
    }

    /// A failed or record-less execution frees its slot: after it
    /// completes, the run can start another credential whenever any are
    /// left. One bad credential never stalls the rest.
    pub proof fn lemma_completion_frees_slot(before: RunLedger, after: RunLedger)
        requires
            before.wf(),
            after.wf(),
            after.spec_finished() == before.spec_finished() + 1,
            after.spec_started() == before.spec_started(),
            after.spec_total() == before.spec_total(),
            after.spec_parallelism() == before.spec_parallelism(),
            after.spec_started() < after.spec_total(),
        ensures
            after.spec_can_start(),
    {
    }
}

} // verus!
