//! The wait between failed publish attempts.
//!
//! A policy is a fixed table of delays in seconds. Attempts count from one:
//! the first failure waits for the first entry, the second for the second,
//! and every failure past the end of the table waits for the last entry.
//! The policy never gives up; whoever runs the retries decides when to stop.

use vstd::prelude::*;

verus! {

/// The delays, in seconds, of the stock policy: half a minute, a minute,
/// five minutes, a quarter of an hour.
pub open spec fn default_delays() -> Seq<u64> {
    seq![30u64, 60u64, 300u64, 900u64]
}

/// No entry of `table` is smaller than one before it.
pub open spec fn ascending(table: Seq<u64>) -> bool {
    forall|i: int, j: int| 0 <= i <= j < table.len() ==> table[i] <= table[j]
}

/// The wait after failure number `attempt`: entry `attempt - 1` of the table,
/// or the last entry once the table is used up.
pub open spec fn delay_of(table: Seq<u64>, attempt: int) -> u64
    recommends
        table.len() > 0,
        attempt >= 1,
{
    if attempt > table.len() {
        table[table.len() - 1]
    } else {
        table[attempt - 1]
    }
}

/// An escalating table of retry delays.
#[derive(Debug)]
pub struct BackoffPolicy {
    delays: Vec<u64>,
}

impl View for BackoffPolicy {
    type V = Seq<u64>;

    closed spec fn view(&self) -> Seq<u64> {
        self.delays@
    }
}

impl BackoffPolicy {
    /// A usable policy has at least one delay, and its delays never shrink.
    pub open spec fn wf(&self) -> bool {
        self@.len() > 0 && ascending(self@)
    }

    /// Builds a policy from `delays`, or refuses a table that is empty or
    /// that somewhere steps down.
    pub fn new(delays: Vec<u64>) -> (policy: Option<BackoffPolicy>)
        ensures
            policy is Some <==> delays@.len() > 0 && ascending(delays@),
            policy matches Some(p) ==> p@ == delays@ && p.wf(),
    {
        if delays.len() == 0 {
            return None;
        }
        let mut k: usize = 1;
        while k < delays.len()
            invariant
                1 <= k <= delays.len(),
                forall|i: int| 0 <= i < k - 1 ==> delays@[i] <= #[trigger] delays@[i + 1],
            decreases delays.len() - k,
        {
            if delays[k - 1] > delays[k] {
                return None;
            }
            k = k + 1;
        }
        proof {
            lemma_steps_ascend(delays@);
        }
        Some(BackoffPolicy { delays })
    }

    /// The number of delays in the table.
    pub fn len(&self) -> (n: usize)
        ensures
            n == self@.len(),
    {
        self.delays.len()
    }

    /// The wait, in seconds, after failure number `attempt`.
    pub fn delay(&self, attempt: usize) -> (secs: u64)
        requires
            self.wf(),
            attempt >= 1,
        ensures
            secs == delay_of(self@, attempt as int),
    {
        if attempt > self.delays.len() {
            self.delays[self.delays.len() - 1]
        } else {
            self.delays[attempt - 1]
        }
    }
}

impl Default for BackoffPolicy {
    /// The stock policy.
    fn default() -> (policy: BackoffPolicy)
        ensures
            policy@ == default_delays(),
            policy.wf(),
    {
        let mut delays: Vec<u64> = Vec::new();
        delays.push(30);
        delays.push(60);
        delays.push(300);
        delays.push(900);
        assert(delays@ =~= default_delays());
        BackoffPolicy { delays }
    }
}

/// The wait, in seconds, that the stock policy prescribes after failure
/// number `attempt`.
pub fn get_backoff(attempt: usize) -> (secs: u64)
    requires
        attempt >= 1,
    ensures
        secs == delay_of(default_delays(), attempt as int),
{
    let policy = BackoffPolicy::default();
    policy.delay(attempt)
}

/// A table in which no entry is smaller than its predecessor is ascending.
proof fn lemma_steps_ascend(table: Seq<u64>)
    requires
        forall|i: int| 0 <= i < table.len() - 1 ==> table[i] <= #[trigger] table[i + 1],
    ensures
        ascending(table),
{
    assert forall|i: int, j: int| 0 <= i <= j < table.len() implies table[i] <= table[j] by {
        lemma_step_chain(table, i, j);
    }
}

proof fn lemma_step_chain(table: Seq<u64>, i: int, j: int)
    requires
        forall|k: int| 0 <= k < table.len() - 1 ==> table[k] <= #[trigger] table[k + 1],
        0 <= i <= j < table.len(),
    ensures
        table[i] <= table[j],
    decreases j - i,
{
    if i < j {
        lemma_step_chain(table, i, j - 1);
        assert(table[j - 1] <= table[j - 1 + 1]);
    }
}

/// The delay never shrinks as failures accumulate: a later attempt waits at
/// least as long as an earlier one.
pub proof fn lemma_delay_never_shrinks(policy: BackoffPolicy, earlier: int, later: int)
    requires
        policy.wf(),
        1 <= earlier <= later,
    ensures
        delay_of(policy@, earlier) <= delay_of(policy@, later),
{
}

/// Past the end of the table the delay stays at the last entry, which is
/// also the largest delay that the policy ever prescribes.
pub proof fn lemma_delay_caps_at_last(policy: BackoffPolicy, attempt: int)
    requires
        policy.wf(),
        attempt >= 1,
    ensures
        attempt > policy@.len() ==> delay_of(policy@, attempt) == policy@.last(),
        delay_of(policy@, attempt) <= policy@.last(),
{
}

} // verus!
