use vstd::prelude::*;

verus! {

/// The most balance queries that may be in flight at once.
pub const BALANCE_QUERY_LIMIT: usize = 50;

/// What a bounded fan-out does next.
#[derive(Clone, Copy, Debug, PartialEq, Eq, Structural)]
pub enum FanOutStep {
    /// Start the next waiting request.
    Launch,
    /// Wait for any one in-flight request and collect its result.
    Collect,
    /// Nothing waits and nothing is in flight.
    Finish,
}

/// Decides the next move of a fan-out that keeps at most `limit` requests in
/// flight: launch while there is room and work, collect while anything is in
/// flight otherwise, finish when both are exhausted.
pub fn next_step(waiting: usize, in_flight: usize, limit: usize) -> (r: FanOutStep)
    requires
        limit > 0,
    ensures
        r == FanOutStep::Launch <==> (waiting > 0 && in_flight < limit),
        r == FanOutStep::Collect <==> (in_flight > 0 && (waiting == 0 || in_flight >= limit)),
        r == FanOutStep::Finish <==> (waiting == 0 && in_flight == 0),
{
    if waiting > 0 && in_flight < limit {
        FanOutStep::Launch
    } else if in_flight > 0 {
        FanOutStep::Collect
    } else {
        FanOutStep::Finish
    }
}

/// The outcome of one transfer of a batch.
#[derive(Clone, Copy, Debug, PartialEq, Eq, Structural)]
pub struct TransferRecord {
    pub succeeded: bool,
    pub processing_time_ms: u64,
}

/// Totals over a batch of transfers.
#[derive(Clone, Copy, Debug, PartialEq, Eq, Structural)]
pub struct TransferSummary {
    pub total: usize,
    pub successful: usize,
    pub failed: usize,
    pub total_time_ms: u128,
    /// The mean processing time, rounded down; absent for an empty batch.
    pub average_time_ms: Option<u128>,
}

/// How many transfers of the batch succeeded.
pub open spec fn count_succeeded(s: Seq<TransferRecord>) -> nat
    decreases s.len(),
{
    if s.len() == 0 {
        0
    } else {
        count_succeeded(s.drop_last()) + if s.last().succeeded {
            1nat
        } else {
            0nat
        }
    }
}

/// The processing times of the batch added up.
pub open spec fn total_time(s: Seq<TransferRecord>) -> nat
    decreases s.len(),
{
    if s.len() == 0 {
        0
    } else {
        total_time(s.drop_last()) + s.last().processing_time_ms as nat
    }
}

proof fn lemma_totals_bounded(s: Seq<TransferRecord>)
    ensures
        count_succeeded(s) <= s.len(),
        total_time(s) <= s.len() * (u64::MAX as nat),
    decreases s.len(),
{
    if s.len() > 0 {
        lemma_totals_bounded(s.drop_last());
        assert((s.len() - 1) * (u64::MAX as nat) + u64::MAX == s.len() * (u64::MAX as nat))
            by (nonlinear_arith);
    }
}

/// Counts the successes and failures of a batch and totals and averages its
/// processing times.
pub fn summarize(results: &[TransferRecord]) -> (r: TransferSummary)
    ensures
        r.total == results@.len(),
        r.successful == count_succeeded(results@),
        r.failed == results@.len() - count_succeeded(results@),
        r.total_time_ms == total_time(results@),
        r.average_time_ms == (if results@.len() == 0 {
            None::<u128>
        } else {
            Some((total_time(results@) / results@.len()) as u128)
        }),
{
    let mut successful: usize = 0;
    let mut total_time_ms: u128 = 0;
    let mut i: usize = 0;
    while i < results.len()
        invariant
            0 <= i <= results@.len(),
            successful == count_succeeded(results@.subrange(0, i as int)),
            total_time_ms == total_time(results@.subrange(0, i as int)),
        decreases results@.len() - i,
    {
        let ghost prefix = results@.subrange(0, i as int);
        let ghost next = results@.subrange(0, i + 1);
        proof {
            assert(next.drop_last() =~= prefix);
            lemma_totals_bounded(prefix);
            assert(i * (u64::MAX as nat) <= usize::MAX * (u64::MAX as nat)) by (nonlinear_arith)
                requires
                    i <= usize::MAX,
            ;
        }
        if results[i].succeeded {
            successful = successful + 1;
        }
        total_time_ms = total_time_ms + results[i].processing_time_ms as u128;
        i = i + 1;
    }
    assert(results@.subrange(0, results@.len() as int) =~= results@);
    proof {
        lemma_totals_bounded(results@);
    }
    let average_time_ms = if results.len() == 0 {
        None
    } else {
        Some(total_time_ms / results.len() as u128)
    };
    TransferSummary {
        total: results.len(),
        successful,
        failed: results.len() - successful,
        total_time_ms,
        average_time_ms,
    }
}

} // verus!
