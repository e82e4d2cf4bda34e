use vstd::prelude::*;

verus! {

/// Oscillator frequency of the processor, in cycles per second.
pub const CPU_FREQUENCY_HZ: u64 = 1_789_773;

/// Nanoseconds in one second.
pub const NANOS_PER_SECOND: u64 = 1_000_000_000;

/// Processor cycles per batch that the console runs with by default. A smaller
/// batch paces more smoothly, a larger one spends less time on pacing.
pub const BATCH_CYCLES: u64 = 2000;

/// Picture-unit ticks that follow every processor cycle.
pub const PICTURE_TICKS_PER_CYCLE: u8 = 3;

/// Wall-clock time that a batch of `batch` processor cycles takes on the
/// hardware, in whole nanoseconds, capped at the largest `u64`.
pub open spec fn batch_budget_spec(batch: nat) -> nat {
    let exact = batch * (NANOS_PER_SECOND as nat) / (CPU_FREQUENCY_HZ as nat);
    if exact > u64::MAX {
        u64::MAX as nat
    } else {
        exact
    }
}

/// How long to wait after a batch that took `elapsed` nanoseconds of a budget
/// of `budget`: the rest of the budget, or nothing when the batch ran over.
pub open spec fn pacing_delay_spec(budget: u64, elapsed: u128) -> Option<u64> {
    if elapsed <= budget {
        Some((budget - elapsed) as u64)
    } else {
        None
    }
}

/// Computes the wall-clock budget of a batch of `batch` processor cycles.
pub fn batch_budget(batch: u64) -> (budget: u64)
    ensures
        budget == batch_budget_spec(batch as nat),
{
    let product: u128 = (batch as u128) * (NANOS_PER_SECOND as u128);
    let exact: u128 = product / (CPU_FREQUENCY_HZ as u128);
    if exact > u64::MAX as u128 {
        u64::MAX
    } else {
        exact as u64
    }
}

/// Decides the pause after a batch. A batch that finished within its budget is
/// followed by a pause of the time that is left, which may be zero; a batch
/// that ran over is followed by none.
pub fn pacing_delay(budget: u64, elapsed: u128) -> (sleep: Option<u64>)
    ensures
        sleep == pacing_delay_spec(budget, elapsed),
{
    if elapsed <= budget as u128 {
        let spent: u64 = elapsed as u64;
        Some(budget - spent)
    } else {
        None
    }
}

/// Pacing is one-sided. A batch that took less than its budget is followed by
/// a pause of exactly the time that is left; one that took its budget or more
/// is followed by no pause at all, and never by a negative one to catch up.
pub proof fn lemma_pacing(budget: u64, elapsed: u128)
    ensures
        elapsed < budget ==> pacing_delay_spec(budget, elapsed) == Some((budget - elapsed) as u64),
        elapsed < budget ==> pacing_delay_spec(budget, elapsed).unwrap() + elapsed == budget,
        elapsed == budget ==> pacing_delay_spec(budget, elapsed) == Some(0u64),
        elapsed > budget ==> pacing_delay_spec(budget, elapsed).is_none(),
{
}

/// The budget is the time of the batch rounded down to whole nanoseconds: it
/// is the largest number of nanoseconds in which the oscillator makes no more
/// than `batch` cycles, unless that exceeds the largest `u64`.
pub proof fn lemma_batch_budget(batch: nat)
    ensures
        batch_budget_spec(batch) <= u64::MAX,
        batch_budget_spec(batch) * CPU_FREQUENCY_HZ <= batch * NANOS_PER_SECOND,
        batch_budget_spec(batch) < u64::MAX ==> batch * NANOS_PER_SECOND < (batch_budget_spec(batch)
            + 1) * CPU_FREQUENCY_HZ,
{
    let exact = batch * 1_000_000_000 / 1_789_773;
    assert(exact * 1_789_773 <= batch * 1_000_000_000 < (exact + 1) * 1_789_773);
    if exact > u64::MAX {
        assert(u64::MAX * 1_789_773 <= exact * 1_789_773);
    }
}

} // verus!
