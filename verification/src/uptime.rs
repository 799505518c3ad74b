//! Breakdown of a nanosecond timestamp into days, hours, minutes, seconds and
//! sub-second parts, for reporting.

use vstd::prelude::*;
use vstd::string::StringExecFns;
use crate::text::{decimal, push_decimal};

verus! {

pub const NANOS_PER_SEC: u64 = 1_000_000_000;

/// A duration since the sandbox-local epoch, split into calendar-like parts.
#[derive(Debug)]
pub struct Uptime {
    pub day: u64,
    pub hour: u64,
    pub min: u64,
    pub sec: u64,
    pub ms: u64,
    pub micro: u64,
    pub nano: u64,
}

impl Uptime {
    /// The breakdown of `timestamp_ns` nanoseconds.
    pub open spec fn of_nanos(timestamp_ns: u64) -> Uptime {
        let secs = timestamp_ns / 1_000_000_000;
        let micros = (timestamp_ns % 1_000_000_000) / 1000;
        Uptime {
            day: secs / 86400,
            hour: (secs % 86400) / 3600,
            min: (secs % 3600) / 60,
            sec: secs % 60,
            ms: micros / 1000,
            micro: micros % 1000,
            nano: timestamp_ns % 1000,
        }
    }

    /// Every part below the day stays within its unit.
    pub open spec fn in_range(self) -> bool {
        &&& self.hour < 24
        &&& self.min < 60
        &&& self.sec < 60
        &&& self.ms < 1000
        &&& self.micro < 1000
        &&& self.nano < 1000
    }

    /// The breakdown as text: the days, then hours, minutes and seconds
    /// between colons, then milliseconds, microseconds and nanoseconds
    /// between dots. No part is padded.
    pub open spec fn text(self) -> Seq<char> {
        decimal(self.day as nat) + "d "@ + decimal(self.hour as nat) + ":"@ + decimal(
            self.min as nat,
        ) + ":"@ + decimal(self.sec as nat) + ":"@ + decimal(self.ms as nat) + "."@ + decimal(
            self.micro as nat,
        ) + "."@ + decimal(self.nano as nat)
    }

    /// Renders the breakdown as text.
    pub fn to_string(&self) -> (out: String)
        ensures
            out@ == self.text(),
    {
        let mut out = String::new();
        push_decimal(&mut out, self.day);
        out.append("d ");
        push_decimal(&mut out, self.hour);
        out.append(":");
        push_decimal(&mut out, self.min);
        out.append(":");
        push_decimal(&mut out, self.sec);
        out.append(":");
        push_decimal(&mut out, self.ms);
        out.append(".");
        push_decimal(&mut out, self.micro);
        out.append(".");
        push_decimal(&mut out, self.nano);
        assert(out@ =~= self.text());
        out
    }

    /// The number of nanoseconds that the parts add up to.
    pub open spec fn total_nanos(self) -> int {
        (((((self.day * 24 + self.hour) * 60 + self.min) * 60 + self.sec) * 1000 + self.ms) * 1000
            + self.micro) * 1000 + self.nano
    }
}

impl From<u64> for Uptime {
    fn from(timestamp_ns: u64) -> (up: Uptime)
        ensures
            up == Uptime::of_nanos(timestamp_ns),
            up.in_range(),
            up.total_nanos() == timestamp_ns,
    {
        let sec: u64 = timestamp_ns / 1_000_000_000;
        let micro: u64 = (timestamp_ns % 1_000_000_000) / 1000;
        let nano: u64 = timestamp_ns % 1000;
        let day: u64 = sec / 86400;
        let hour: u64 = (sec % 86400) / 3600;
        let min: u64 = (sec % 3600) / 60;
        let sec: u64 = sec % 60;
        Uptime { day, hour, min, sec, ms: micro / 1000, micro: micro % 1000, nano }
    }
}

impl vstd::std_specs::convert::FromSpecImpl<u64> for Uptime {
    open spec fn obeys_from_spec() -> bool {
        true
    }

    open spec fn from_spec(timestamp_ns: u64) -> Uptime {
        Uptime::of_nanos(timestamp_ns)
    }
}

} // verus!
