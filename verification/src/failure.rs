//! Why a fact could not be reported.

use vstd::prelude::*;
use libmacchina::traits::ReadoutError;
use crate::probe::readout_failure;

verus! {

/// A probe could not determine the value it was asked for.
#[derive(Clone, Debug, PartialEq, Eq)]
pub enum ReadoutFailure {
    /// The value is not available on this system.
    MetricNotAvailable,
    /// The probe is not supported on this platform.
    NotImplemented,
    /// The probe exists but failed; the text says why.
    Other(String),
    /// The probe makes little sense on this system; the text says why.
    Warning(String),
}

/// A fact could not be reported: either its probe failed, or the probe
/// answered and the answer admits no rendering.
#[derive(Clone, Debug, PartialEq, Eq)]
pub enum FactError {
    /// The probe failed.
    Probe(ReadoutFailure),
    /// The total capacity is zero in the unit shown, so no share of it can
    /// be given.
    ZeroTotal,
}

/// What a `libmacchina` probe answered, in the library's own terms. A value
/// is handed on unchanged; an error becomes the failure of its kind, and is
/// never turned into a value. Which kind is read off the error where Verus
/// does not look, so the contract says of a failure only that it stays one.
pub fn answered<T>(probe: Result<T, ReadoutError>) -> (answer: Result<T, ReadoutFailure>)
    ensures
        probe matches Ok(value) ==> answer == Ok::<T, ReadoutFailure>(value),
        probe is Err <==> answer is Err,
{
    match probe {
        Ok(value) => Ok(value),
        Err(error) => Err(readout_failure(error)),
    }
}

} // verus!
