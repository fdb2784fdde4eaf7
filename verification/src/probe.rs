//! The probes: calls into `libmacchina` and `systemstat`.
//!
//! Nothing in this file is proved. What a probe answers depends on the
//! machine, so no contract here says anything about an answer, with one
//! exception: the saturating difference of two byte counts. Only probes that
//! return on every state of the machine are called from here; the others are
//! left to the caller, who hands their answers in.

use vstd::prelude::*;
use libmacchina::traits::GeneralReadout as _;
use libmacchina::traits::ReadoutError;
use libmacchina::GeneralReadout;
use systemstat::{ByteSize, Platform, System};
use crate::failure::ReadoutFailure;

verus! {

/// `libmacchina::GeneralReadout`, the general probe of the platform.
#[verifier::external_type_specification]
#[verifier::external_body]
pub struct ExGeneralReadout(libmacchina::GeneralReadout);

/// `libmacchina::traits::ReadoutError`, the error of every `libmacchina`
/// probe.
#[verifier::external_type_specification]
#[verifier::external_body]
pub struct ExReadoutError(libmacchina::traits::ReadoutError);

/// `systemstat::System`, the hardware probe of the platform.
#[verifier::external_type_specification]
#[verifier::external_body]
pub struct ExSystem(systemstat::System);

/// Tells the variants of `libmacchina::traits::ReadoutError` apart and moves
/// the message of those that carry one. Nothing is claimed of the result.
#[verifier::external_body]
pub(crate) fn readout_failure(error: ReadoutError) -> ReadoutFailure {
    match error {
        ReadoutError::MetricNotAvailable => ReadoutFailure::MetricNotAvailable,
        ReadoutError::NotImplemented => ReadoutFailure::NotImplemented,
        ReadoutError::Other(message) => ReadoutFailure::Other(message),
        ReadoutError::Warning(message) => ReadoutFailure::Warning(message),
    }
}

/// `GeneralReadout::cpu_model_name`. Nothing is claimed of the answer.
#[verifier::external_body]
pub(crate) fn cpu_model_name(readout: &GeneralReadout) -> Result<String, ReadoutError> {
    readout.cpu_model_name()
}

/// `GeneralReadout::disk_space`: used and total bytes of the root
/// filesystem, in that order. Nothing is claimed of the answer.
#[verifier::external_body]
pub(crate) fn disk_space(readout: &GeneralReadout) -> Result<(u128, u128), ReadoutError> {
    readout.disk_space()
}

/// `GeneralReadout::uptime`, in seconds. Nothing is claimed of the answer.
#[verifier::external_body]
pub(crate) fn uptime(readout: &GeneralReadout) -> Result<usize, ReadoutError> {
    readout.uptime()
}

/// `systemstat::System::new`. The value holds no state.
#[verifier::external_body]
pub(crate) fn system() -> System {
    System::new()
}

/// `systemstat::Platform::memory`: total and free bytes of memory, in that
/// order, or `None` where the probe fails. Nothing is claimed of the answer.
#[verifier::external_body]
pub(crate) fn memory(system: &System) -> Option<(u64, u64)> {
    match system.memory() {
        Ok(memory) => Some((memory.total.as_u64(), memory.free.as_u64())),
        Err(_) => None,
    }
}

/// `systemstat::saturating_sub_bytes` on two byte counts: their difference,
/// or zero where the second is the larger.
#[verifier::external_body]
pub(crate) fn saturating_sub_bytes(left: u64, right: u64) -> (difference: u64)
    ensures
        difference == if left >= right {
            left - right
        } else {
            0
        },
{
    systemstat::saturating_sub_bytes(ByteSize::b(left), ByteSize::b(right)).as_u64()
}

} // verus!
