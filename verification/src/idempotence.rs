//! Rendering keeps no state: what is reported for a fact is a function of
//! what its probe answered, so rendering twice from one answer gives one
//! text.

use vstd::prelude::*;
use crate::battery::battery_outcome;
use crate::capacity::{capacity_outcome, disk_outcome, memory_outcome, Unit};
use crate::cpu::cpu_outcome;
use crate::failure::{FactError, ReadoutFailure};
use crate::packages::{package_lines, PackageCount};
use crate::text::{fact_text, option_text, result_text, texts};
use crate::uptime::uptime_outcome;

verus! {

/// Two renderings of one capacity in one unit are the same text, or both
/// nothing.
pub proof fn lemma_capacity_idempotent(
    used_bytes: u128,
    total_bytes: u128,
    unit: Unit,
    first: Option<String>,
    second: Option<String>,
)
    requires
        option_text(first) == capacity_outcome(used_bytes as nat, total_bytes as nat, unit),
        option_text(second) == capacity_outcome(used_bytes as nat, total_bytes as nat, unit),
    ensures
        option_text(first) == option_text(second),
        first is Some <==> second is Some,
{
}

/// Two renderings of the disk from one answer are the same text, or the same
/// error.
pub proof fn lemma_disk_idempotent(
    probe: Result<(u128, u128), ReadoutFailure>,
    first: Result<String, FactError>,
    second: Result<String, FactError>,
)
    requires
        fact_text(first) == disk_outcome(probe),
        fact_text(second) == disk_outcome(probe),
    ensures
        fact_text(first) == fact_text(second),
{
}

/// Two renderings of memory from one answer are the same text, or the same
/// error.
pub proof fn lemma_memory_idempotent(
    probe: Option<(u64, u64)>,
    first: Result<String, String>,
    second: Result<String, String>,
)
    requires
        result_text(first) == memory_outcome(probe),
        result_text(second) == memory_outcome(probe),
    ensures
        result_text(first) == result_text(second),
{
}

/// Two renderings of the battery from one pair of answers are the same text,
/// or the same error.
pub proof fn lemma_battery_idempotent(
    percent: Option<i64>,
    on_ac_power: Option<bool>,
    first: Result<String, String>,
    second: Result<String, String>,
)
    requires
        result_text(first) == battery_outcome(percent, on_ac_power),
        result_text(second) == battery_outcome(percent, on_ac_power),
    ensures
        result_text(first) == result_text(second),
{
}

/// Two renderings of the processor from one pair of answers are the same
/// text, or the same error.
pub proof fn lemma_cpu_idempotent(
    cores: Result<usize, ReadoutFailure>,
    model: Result<String, ReadoutFailure>,
    first: Result<String, ReadoutFailure>,
    second: Result<String, ReadoutFailure>,
)
    requires
        fact_text(first) == cpu_outcome(cores, model),
        fact_text(second) == cpu_outcome(cores, model),
    ensures
        fact_text(first) == fact_text(second),
{
}

/// Two renderings of one list of package counts are the same lines in the
/// same order.
pub proof fn lemma_packages_idempotent(
    counts: Seq<PackageCount>,
    first: Seq<String>,
    second: Seq<String>,
)
    requires
        texts(first) == package_lines(counts),
        texts(second) == package_lines(counts),
    ensures
        first.len() == second.len(),
        forall|i: int| 0 <= i < first.len() ==> first[i]@ == second[i]@,
{
    assert(texts(first).len() == first.len());
    assert(texts(second).len() == second.len());
    assert forall|i: int| 0 <= i < first.len() implies first[i]@ == second[i]@ by {
        assert(texts(first)[i] == first[i]@);
        assert(texts(second)[i] == second[i]@);
    }
}

/// Two renderings of the uptime from one answer are the same text, or the
/// same error.
pub proof fn lemma_uptime_idempotent(
    probe: Result<usize, ReadoutFailure>,
    first: Result<String, ReadoutFailure>,
    second: Result<String, ReadoutFailure>,
)
    requires
        fact_text(first) == uptime_outcome(probe),
        fact_text(second) == uptime_outcome(probe),
    ensures
        fact_text(first) == fact_text(second),
{
}

} // verus!
