//! Capacity: how much of a disk or of memory is in use.

use vstd::prelude::*;
use crate::decimal::{decimal, decimal_string};
use crate::failure::{FactError, ReadoutFailure};
use crate::probe::saturating_sub_bytes;
use crate::text::{fact_text, option_text, result_text};

verus! {

pub const MEBIBYTE: u128 = 1_048_576;

pub const GIBIBYTE: u128 = 1_073_741_824;

/// The unit in which a capacity is shown.
#[derive(Clone, Copy, Debug, PartialEq, Eq, Structural)]
pub enum Unit {
    Mebibyte,
    Gibibyte,
}

impl Unit {
    /// The bytes in one unit.
    pub open spec fn bytes(self) -> nat {
        match self {
            Unit::Mebibyte => 1_048_576,
            Unit::Gibibyte => 1_073_741_824,
        }
    }

    /// The letter that stands for the unit.
    pub open spec fn letter(self) -> char {
        match self {
            Unit::Mebibyte => 'M',
            Unit::Gibibyte => 'G',
        }
    }

    /// The bytes in one unit.
    pub fn size(self) -> (bytes: u128)
        ensures
            bytes == self.bytes(),
    {
        match self {
            Unit::Mebibyte => MEBIBYTE,
            Unit::Gibibyte => GIBIBYTE,
        }
    }

    /// The letter that stands for the unit, as a string.
    pub fn symbol(self) -> (symbol: &'static str)
        ensures
            symbol@ == seq![self.letter()],
    {
        proof {
            reveal_strlit("M");
            reveal_strlit("G");
            assert("M"@ =~= seq!['M']);
            assert("G"@ =~= seq!['G']);
        }
        match self {
            Unit::Mebibyte => "M",
            Unit::Gibibyte => "G",
        }
    }
}

/// The share of `total` that `used` makes up, in percent, rounded down.
/// It has no meaning where `total` is zero.
pub open spec fn percent(used: nat, total: nat) -> nat
    recommends
        total > 0,
{
    used * 100 / total
}

/// The capacity line: used and total, each with the unit's letter, and the
/// share in percent in round brackets.
pub open spec fn capacity_text(used: nat, total: nat, letter: char) -> Seq<char> {
    decimal(used) + seq![letter, ' ', '/', ' '] + decimal(total) + seq![letter, ' ', '(']
        + decimal(percent(used, total)) + seq!['%', ')']
}

/// What is shown for `used_bytes` of `total_bytes`: both are rounded down to
/// whole units, and there is nothing to show where the total is then zero.
pub open spec fn capacity_outcome(used_bytes: nat, total_bytes: nat, unit: Unit) -> Option<
    Seq<char>,
> {
    if total_bytes / unit.bytes() == 0 {
        None
    } else {
        Some(capacity_text(used_bytes / unit.bytes(), total_bytes / unit.bytes(), unit.letter()))
    }
}

/// What is reported for the disk, given what its probe answered: used and
/// total bytes, in that order.
pub open spec fn disk_outcome(probe: Result<(u128, u128), ReadoutFailure>) -> Result<
    Seq<char>,
    FactError,
> {
    match probe {
        Err(failure) => Err(FactError::Probe(failure)),
        Ok((used, total)) => match capacity_outcome(used as nat, total as nat, Unit::Gibibyte) {
            None => Err(FactError::ZeroTotal),
            Some(line) => Ok(line),
        },
    }
}

/// The memory in use: what is not free, and nothing where more is reported
/// free than there is.
pub open spec fn memory_used(total: u64, free: u64) -> nat {
    if total >= free {
        (total - free) as nat
    } else {
        0
    }
}

/// What is reported for memory, given what its probe answered: total and
/// free bytes, in that order.
pub open spec fn memory_outcome(probe: Option<(u64, u64)>) -> Result<Seq<char>, Seq<char>> {
    match probe {
        None => Err("no memory"@),
        Some((total, free)) => match capacity_outcome(
            memory_used(total, free),
            total as nat,
            Unit::Mebibyte,
        ) {
            None => Err("no memory"@),
            Some(line) => Ok(line),
        },
    }
}

/// The share of `total` that `used` makes up, in percent and rounded down,
/// or `None` where `total` is zero.
pub fn capacity_percent(used: u128, total: u128) -> (share: Option<u128>)
    requires
        used * 100 <= u128::MAX,
    ensures
        total == 0 <==> share is None,
        total > 0 ==> share == Some(percent(used as nat, total as nat) as u128),
        total > 0 ==> percent(used as nat, total as nat) <= u128::MAX,
{
    if total == 0 {
        None
    } else {
        proof {
            lemma_percent_is_floor(used as nat, total as nat);
        }
        Some(used * 100 / total)
    }
}

/// Renders `used_bytes` of `total_bytes` in `unit`, or `None` where the
/// total comes to zero units.
pub fn format_capacity(used_bytes: u128, total_bytes: u128, unit: Unit) -> (line: Option<String>)
    ensures
        option_text(line) == capacity_outcome(used_bytes as nat, total_bytes as nat, unit),
{
    let used: u128 = used_bytes / unit.size();
    let total: u128 = total_bytes / unit.size();
    assert(used * 100 <= u128::MAX) by {
        assert(used <= u128::MAX / 1_048_576);
    }
    match capacity_percent(used, total) {
        None => None,
        Some(share) => {
            let mut line = decimal_string(used);
            line.append(unit.symbol());
            line.append(" / ");
            let total_digits = decimal_string(total);
            line.append(total_digits.as_str());
            line.append(unit.symbol());
            line.append(" (");
            let share_digits = decimal_string(share);
            line.append(share_digits.as_str());
            line.append("%)");
            proof {
                reveal_strlit(" / ");
                reveal_strlit(" (");
                reveal_strlit("%)");
                assert(" / "@ =~= seq![' ', '/', ' ']);
                assert(" ("@ =~= seq![' ', '(']);
                assert("%)"@ =~= seq!['%', ')']);
                assert(line@ =~= capacity_text(used as nat, total as nat, unit.letter()));
            }
            Some(line)
        },
    }
}

/// Renders the disk from what its probe answered.
pub fn disk_fact(probe: Result<(u128, u128), ReadoutFailure>) -> (fact: Result<String, FactError>)
    ensures
        fact_text(fact) == disk_outcome(probe),
{
    match probe {
        Err(failure) => Err(FactError::Probe(failure)),
        Ok((used, total)) => match format_capacity(used, total, Unit::Gibibyte) {
            None => Err(FactError::ZeroTotal),
            Some(line) => Ok(line),
        },
    }
}

/// Renders memory from what its probe answered.
pub fn memory_fact(probe: Option<(u64, u64)>) -> (fact: Result<String, String>)
    ensures
        result_text(fact) == memory_outcome(probe),
{
    match probe {
        None => Err(String::from_str("no memory")),
        Some((total, free)) => {
            let used: u64 = saturating_sub_bytes(total, free);
            match format_capacity(used as u128, total as u128, Unit::Mebibyte) {
                None => Err(String::from_str("no memory")),
                Some(line) => Ok(line),
            }
        },
    }
}

/// The percentage is the largest whole number whose share of the total does
/// not exceed what is used: it is `used * 100 / total` rounded down. It is
/// at most 100 where no more is used than there is.
pub proof fn lemma_percent_is_floor(used: nat, total: nat)
    requires
        total > 0,
    ensures
        percent(used, total) == (used * 100) / total,
        0 <= percent(used, total) <= used * 100,
        percent(used, total) * total <= used * 100 < (percent(used, total) + 1) * total,
        used <= total ==> percent(used, total) <= 100,
{
    let n = (used * 100) as int;
    let t = total as int;
    assert(0 <= n / t <= n && (n / t) * t <= n < (n / t + 1) * t) by (nonlinear_arith)
        requires
            n >= 0,
            t > 0,
    ;
    if used <= total {
        assert(n / t <= 100) by (nonlinear_arith)
            requires
                0 <= n <= 100 * t,
                t > 0,
        ;
    }
}

} // verus!
