//! The facts, each rendered from what its probe answered.
//!
//! A fact that fails does so alone: every function here returns its own
//! result and keeps no state. The disk, memory, uptime and the processor's
//! model name are asked for here. Every other answer is brought by the
//! caller: those probes read files and run programs in ways that may not
//! return, and the facts that only hand an answer on have nothing to compute
//! before it is there.

use vstd::prelude::*;
use libmacchina::GeneralReadout;
use crate::battery::{battery_fact, battery_outcome};
use crate::capacity::{disk_fact, disk_outcome, memory_fact, memory_outcome};
use crate::cpu::{cpu_fact, cpu_outcome};
use crate::failure::{answered, FactError, ReadoutFailure};
use crate::packages::{format_packages, package_lines, PackageCount};
use crate::probe;
use crate::text::{fact_text, result_text, texts};
use crate::uptime::{uptime_fact, uptime_outcome};

verus! {

/// The processor: `"<model> (<cores>)"`. The caller brings what the probe of
/// the cores answered. Where that is a failure, it is reported and the model
/// name is not asked for; else the model name is asked for here.
pub fn get_cpu_info(general_readout: &GeneralReadout, cores: Result<usize, ReadoutFailure>) -> (fact:
    Result<String, ReadoutFailure>)
    ensures
        cores matches Err(failure) ==> fact == Err::<String, ReadoutFailure>(failure),
        exists|model: Result<String, ReadoutFailure>|
            fact_text(fact) == #[trigger] cpu_outcome(cores, model),
{
    match cores {
        Err(failure) => {
            assert(cpu_outcome(cores, Err(failure)) == Err::<Seq<char>, ReadoutFailure>(failure));
            Err(failure)
        },
        Ok(_) => {
            let model = answered(probe::cpu_model_name(general_readout));
            cpu_fact(cores, model)
        },
    }
}

/// The machine's model: the probe's words, or its failure, as they are.
pub fn get_model(probe: Result<String, ReadoutFailure>) -> (fact: Result<String, ReadoutFailure>)
    ensures
        fact == probe,
{
    probe
}

/// The graphics processors: the names that the probe answered, in its order,
/// or its failure. An empty list is an answer like any other.
pub fn get_gpu(probe: Result<Vec<String>, ReadoutFailure>) -> (fact: Result<
    Vec<String>,
    ReadoutFailure,
>)
    ensures
        fact == probe,
{
    probe
}

/// The root filesystem: `"<used>G / <total>G (<percent>%)"`.
pub fn get_disk(general_readout: &GeneralReadout) -> (fact: Result<String, FactError>)
    ensures
        exists|probe: Result<(u128, u128), ReadoutFailure>|
            fact_text(fact) == #[trigger] disk_outcome(probe),
{
    let probe = answered(probe::disk_space(general_readout));
    disk_fact(probe)
}

/// Memory: `"<used>M / <total>M (<percent>%)"`, or `"no memory"`.
pub fn get_memory() -> (fact: Result<String, String>)
    ensures
        exists|probe: Option<(u64, u64)>| result_text(fact) == #[trigger] memory_outcome(probe),
{
    let system = probe::system();
    let probe = probe::memory(&system);
    memory_fact(probe)
}

/// The resolution of the displays: the probe's words, or its failure, as
/// they are.
pub fn get_resolution(probe: Result<String, ReadoutFailure>) -> (fact: Result<
    String,
    ReadoutFailure,
>)
    ensures
        fact == probe,
{
    probe
}

/// The battery: `"<percent>% [Charging] "` or `"<percent>% [Discharging] "`,
/// `"no battery"` where the charge is unknown, and `"no power"` where the
/// charge is known and the power state is not. The caller brings the charge
/// in percent and the power state, each `None` where its probe failed or was
/// not asked.
pub fn get_battery(percent: Option<i64>, on_ac_power: Option<bool>) -> (fact: Result<
    String,
    String,
>)
    ensures
        result_text(fact) == battery_outcome(percent, on_ac_power),
{
    battery_fact(percent, on_ac_power)
}

/// The user's name: the probe's words, or its failure, as they are.
pub fn get_user(probe: Result<String, ReadoutFailure>) -> (fact: Result<String, ReadoutFailure>)
    ensures
        fact == probe,
{
    probe
}

/// The distribution's name: the probe's words, or its failure, as they are.
pub fn get_distro(probe: Result<String, ReadoutFailure>) -> (fact: Result<String, ReadoutFailure>)
    ensures
        fact == probe,
{
    probe
}

/// The kernel's release: the probe's words, or its failure, as they are.
pub fn get_kernel(probe: Result<String, ReadoutFailure>) -> (fact: Result<String, ReadoutFailure>)
    ensures
        fact == probe,
{
    probe
}

/// The window manager's name: the probe's words, or its failure, as they
/// are.
pub fn get_wm(probe: Result<String, ReadoutFailure>) -> (fact: Result<String, ReadoutFailure>)
    ensures
        fact == probe,
{
    probe
}

/// The desktop environment's name: the probe's words, or its failure, as
/// they are.
pub fn get_de(probe: Result<String, ReadoutFailure>) -> (fact: Result<String, ReadoutFailure>)
    ensures
        fact == probe,
{
    probe
}

/// The shell: what the probe answered to `shell_query`, or its failure, as
/// it is.
pub fn get_shell(probe: Result<String, ReadoutFailure>) -> (fact: Result<String, ReadoutFailure>)
    ensures
        fact == probe,
{
    probe
}

/// The terminal emulator's name: the probe's words, or its failure, as they
/// are.
pub fn get_terminal(probe: Result<String, ReadoutFailure>) -> (fact: Result<
    String,
    ReadoutFailure,
>)
    ensures
        fact == probe,
{
    probe
}

/// The installed packages: one line `"<count> (<manager>)"` for each entry
/// of the counts that the probe answered, in their order, but for the
/// entries of `Manager::Cargo`. It never fails.
pub fn get_packages(counts: &Vec<PackageCount>) -> (fact: Result<Vec<String>, String>)
    ensures
        fact matches Ok(lines) && texts(lines@) == package_lines(counts@),
{
    Ok(format_packages(counts))
}

/// The uptime, largest unit first: `"1d 1h 0m 0s"`.
pub fn get_uptime(general_readout: &GeneralReadout) -> (fact: Result<String, ReadoutFailure>)
    ensures
        exists|probe: Result<usize, ReadoutFailure>|
            fact_text(fact) == #[trigger] uptime_outcome(probe),
{
    let probe = answered(probe::uptime(general_readout));
    uptime_fact(probe)
}

} // verus!
