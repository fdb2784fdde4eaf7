//! Uptime: a duration in seconds, split into days, hours, minutes and
//! seconds, and its one-line rendering.

use vstd::prelude::*;
use crate::decimal::{decimal, decimal_string};
use crate::failure::ReadoutFailure;
use crate::text::fact_text;

verus! {

pub const SECONDS_PER_MINUTE: u64 = 60;

pub const SECONDS_PER_HOUR: u64 = 3600;

pub const SECONDS_PER_DAY: u64 = 86400;

/// The units of an uptime that are shown. Days and hours are left out for
/// short uptimes; minutes and seconds are always there.
#[derive(Clone, Copy, Debug, PartialEq, Eq, Structural)]
pub struct UptimeParts {
    pub days: Option<u64>,
    pub hours: Option<u64>,
    pub minutes: u64,
    pub seconds: u64,
}

impl UptimeParts {
    /// Hours stay below a day, minutes and seconds below sixty, days are
    /// only shown together with hours, and the units add up to a number of
    /// seconds that a `u64` holds.
    pub open spec fn wf(self) -> bool {
        &&& self.seconds < 60
        &&& self.minutes < 60
        &&& self.hours matches Some(h) ==> h < 24
        &&& self.days is Some ==> self.hours is Some
        &&& self.total() <= u64::MAX
    }

    /// The seconds that the shown units add up to, a unit that is left out
    /// counting as zero.
    pub open spec fn total(self) -> nat {
        let d: nat = match self.days {
            Some(d) => d as nat,
            None => 0,
        };
        let h: nat = match self.hours {
            Some(h) => h as nat,
            None => 0,
        };
        d * 86400 + h * 3600 + self.minutes as nat * 60 + self.seconds as nat
    }

    /// The rendering: each shown unit as its number and letter, separated by
    /// single spaces, largest unit first.
    pub open spec fn text(self) -> Seq<char> {
        let d = match self.days {
            Some(d) => decimal(d as nat) + seq!['d', ' '],
            None => Seq::<char>::empty(),
        };
        let h = match self.hours {
            Some(h) => decimal(h as nat) + seq!['h', ' '],
            None => Seq::<char>::empty(),
        };
        d + h + decimal(self.minutes as nat) + seq!['m', ' '] + decimal(self.seconds as nat)
            + seq!['s']
    }

    /// Adds the shown units back up.
    pub fn reconstruct(&self) -> (total: u64)
        requires
            self.wf(),
        ensures
            total == self.total(),
    {
        let d: u64 = match self.days {
            Some(d) => d,
            None => 0,
        };
        let h: u64 = match self.hours {
            Some(h) => h,
            None => 0,
        };
        d * SECONDS_PER_DAY + h * SECONDS_PER_HOUR + self.minutes * SECONDS_PER_MINUTE
            + self.seconds
    }

    /// Renders the shown units.
    pub fn render(&self) -> (s: String)
        ensures
            s@ == self.text(),
    {
        let mut s = String::new();
        if let Some(d) = self.days {
            let digits = decimal_string(d as u128);
            s.append(digits.as_str());
            s.append("d ");
        }
        if let Some(h) = self.hours {
            let digits = decimal_string(h as u128);
            s.append(digits.as_str());
            s.append("h ");
        }
        let minutes = decimal_string(self.minutes as u128);
        s.append(minutes.as_str());
        s.append("m ");
        let seconds = decimal_string(self.seconds as u128);
        s.append(seconds.as_str());
        s.append("s");
        proof {
            reveal_strlit("d ");
            reveal_strlit("h ");
            reveal_strlit("m ");
            reveal_strlit("s");
            assert("d "@ =~= seq!['d', ' ']);
            assert("h "@ =~= seq!['h', ' ']);
            assert("m "@ =~= seq!['m', ' ']);
            assert("s"@ =~= seq!['s']);
            assert(s@ =~= self.text());
        }
        s
    }
}

/// The units shown for an uptime of `seconds`: days above one day, hours
/// above one hour, the minutes of the hour above one minute and zero minutes
/// otherwise, and always the seconds of the minute.
pub open spec fn uptime_parts(seconds: u64) -> UptimeParts {
    UptimeParts {
        days: if seconds > 86400 {
            Some(seconds / 86400)
        } else {
            None
        },
        hours: if seconds > 3600 {
            Some(((seconds / 3600) % 24) as u64)
        } else {
            None
        },
        minutes: if seconds > 60 {
            ((seconds / 60) % 60) as u64
        } else {
            0
        },
        seconds: seconds % 60,
    }
}

/// The line shown for an uptime of `seconds`.
pub open spec fn uptime_text(seconds: u64) -> Seq<char> {
    uptime_parts(seconds).text()
}

/// Splits an uptime into the units that are shown.
pub fn decompose_uptime(seconds: u64) -> (parts: UptimeParts)
    ensures
        parts == uptime_parts(seconds),
        parts.wf(),
{
    let days: Option<u64> = if seconds > SECONDS_PER_DAY {
        Some(seconds / SECONDS_PER_DAY)
    } else {
        None
    };
    let hours: Option<u64> = if seconds > SECONDS_PER_HOUR {
        Some((seconds / SECONDS_PER_HOUR) % 24)
    } else {
        None
    };
    let minutes: u64 = if seconds > SECONDS_PER_MINUTE {
        (seconds / SECONDS_PER_MINUTE) % 60
    } else {
        0
    };
    proof {
        if seconds == 60 || seconds == 3600 || seconds == 86400 {
            lemma_uptime_at_threshold(seconds);
        } else {
            lemma_uptime_round_trip(seconds);
        }
    }
    UptimeParts { days, hours, minutes, seconds: seconds % SECONDS_PER_MINUTE }
}

/// Renders an uptime given in seconds.
pub fn format_uptime(seconds: u64) -> (s: String)
    ensures
        s@ == uptime_text(seconds),
{
    decompose_uptime(seconds).render()
}

/// What is reported for the uptime, given what its probe answered.
pub open spec fn uptime_outcome(probe: Result<usize, ReadoutFailure>) -> Result<
    Seq<char>,
    ReadoutFailure,
> {
    match probe {
        Ok(seconds) => Ok(uptime_text(seconds as u64)),
        Err(failure) => Err(failure),
    }
}

/// Renders the uptime from what its probe answered.
pub fn uptime_fact(probe: Result<usize, ReadoutFailure>) -> (fact: Result<String, ReadoutFailure>)
    ensures
        fact_text(fact) == uptime_outcome(probe),
{
    match probe {
        Ok(seconds) => Ok(format_uptime(seconds as u64)),
        Err(failure) => Err(failure),
    }
}

/// The shown units add back up to the uptime they were split from. The three
/// uptimes of exactly one minute, one hour and one day are left out: at each
/// of them the unit that has just become full is not yet shown, and the units
/// below it are all zero.
pub proof fn lemma_uptime_round_trip(seconds: u64)
    requires
        seconds != 60,
        seconds != 3600,
        seconds != 86400,
    ensures
        uptime_parts(seconds).total() == seconds,
{
    let u = seconds as int;
    if u > 86400 {
        assert(u == (u / 86400) * 86400 + ((u / 3600) % 24) * 3600 + ((u / 60) % 60) * 60 + u
            % 60) by (nonlinear_arith)
            requires
                u >= 0,
        ;
    } else if u > 3600 {
        assert(u / 3600 < 24);
        assert(u == (u / 3600) * 3600 + ((u / 60) % 60) * 60 + u % 60) by (nonlinear_arith)
            requires
                u >= 0,
        ;
    } else if u > 60 {
        assert(u / 60 < 60);
    }
}

/// At exactly one minute, one hour or one day every shown unit is zero.
pub proof fn lemma_uptime_at_threshold(seconds: u64)
    requires
        seconds == 60 || seconds == 3600 || seconds == 86400,
    ensures
        uptime_parts(seconds).total() == 0,
{
}

} // verus!
