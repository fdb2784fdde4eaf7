//! Processor: the model name and the number of cores.

use vstd::prelude::*;
use crate::decimal::{decimal, decimal_string};
use crate::failure::ReadoutFailure;
use crate::text::fact_text;

verus! {

/// The processor line: the model name, then the number of cores in round
/// brackets.
pub open spec fn cpu_info_text(model: Seq<char>, cores: nat) -> Seq<char> {
    model + seq![' ', '('] + decimal(cores) + seq![')']
}

/// What is reported for the processor, given what the probes of the number
/// of cores and of the model name answered: the failure of the cores, else
/// the failure of the model name, else the processor line.
pub open spec fn cpu_outcome(
    cores: Result<usize, ReadoutFailure>,
    model: Result<String, ReadoutFailure>,
) -> Result<Seq<char>, ReadoutFailure> {
    match cores {
        Err(failure) => Err(failure),
        Ok(count) => match model {
            Ok(name) => Ok(cpu_info_text(name@, count as nat)),
            Err(failure) => Err(failure),
        },
    }
}

/// Renders the processor line.
pub fn format_cpu_info(model: &str, cores: usize) -> (line: String)
    ensures
        line@ == cpu_info_text(model@, cores as nat),
{
    let mut line = String::from_str(model);
    line.append(" (");
    let digits = decimal_string(cores as u128);
    line.append(digits.as_str());
    line.append(")");
    proof {
        reveal_strlit(" (");
        reveal_strlit(")");
        assert(" ("@ =~= seq![' ', '(']);
        assert(")"@ =~= seq![')']);
        assert(line@ =~= cpu_info_text(model@, cores as nat));
    }
    line
}

/// Renders the processor from what the probes of the number of cores and of
/// the model name answered.
pub fn cpu_fact(cores: Result<usize, ReadoutFailure>, model: Result<String, ReadoutFailure>) -> (fact:
    Result<String, ReadoutFailure>)
    ensures
        fact_text(fact) == cpu_outcome(cores, model),
{
    match cores {
        Err(failure) => Err(failure),
        Ok(count) => match model {
            Ok(name) => Ok(format_cpu_info(name.as_str(), count)),
            Err(failure) => Err(failure),
        },
    }
}

} // verus!
