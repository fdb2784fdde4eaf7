//! Battery: the charge left, in percent, and whether the machine is on
//! mains power.

use vstd::prelude::*;
use crate::decimal::{signed_decimal, signed_decimal_string};
use crate::text::result_text;

verus! {

/// The word for the power state.
pub open spec fn power_word(on_ac_power: bool) -> Seq<char> {
    if on_ac_power {
        "Charging"@
    } else {
        "Discharging"@
    }
}

/// The battery line: the percentage, a percent sign, the power state in
/// square brackets, and a space at the end.
pub open spec fn battery_text(percent: int, on_ac_power: bool) -> Seq<char> {
    signed_decimal(percent) + seq!['%', ' ', '['] + power_word(on_ac_power) + seq![']', ' ']
}

/// What is reported for the battery, given what the two probes answered: no
/// battery where the charge is unknown, no power where the charge is known
/// and the power state is not, and the battery line otherwise.
pub open spec fn battery_outcome(percent: Option<i64>, on_ac_power: Option<bool>) -> Result<
    Seq<char>,
    Seq<char>,
> {
    match percent {
        None => Err("no battery"@),
        Some(p) => match on_ac_power {
            None => Err("no power"@),
            Some(on) => Ok(battery_text(p as int, on)),
        },
    }
}

/// Renders the battery line.
pub fn format_battery(percent: i64, on_ac_power: bool) -> (line: String)
    ensures
        line@ == battery_text(percent as int, on_ac_power),
{
    let mut line = signed_decimal_string(percent);
    line.append("% [");
    if on_ac_power {
        line.append("Charging");
    } else {
        line.append("Discharging");
    }
    line.append("] ");
    proof {
        reveal_strlit("% [");
        reveal_strlit("] ");
        assert("% ["@ =~= seq!['%', ' ', '[']);
        assert("] "@ =~= seq![']', ' ']);
        assert(line@ =~= battery_text(percent as int, on_ac_power));
    }
    line
}

/// Renders the battery from what the two probes answered.
pub fn battery_fact(percent: Option<i64>, on_ac_power: Option<bool>) -> (fact: Result<
    String,
    String,
>)
    ensures
        result_text(fact) == battery_outcome(percent, on_ac_power),
{
    match percent {
        None => Err(String::from_str("no battery")),
        Some(p) => match on_ac_power {
            None => Err(String::from_str("no power")),
            Some(on) => Ok(format_battery(p, on)),
        },
    }
}

} // verus!
