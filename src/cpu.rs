//! Per-state CPU times from `/proc/stat` lines.
use vstd::prelude::*;
use crate::error::{fails_with, SensorError};
use crate::text::{begins_with, decimal, push_decimal, starts_with, suffix_from};
use crate::words::{parse_u64, spec_parse_u64, split_words, views, words};

verus! {

/// CPU time per state, in clock ticks.
#[derive(Debug, Clone, Copy, PartialEq, Eq, Structural)]
pub struct CpuStats {
    pub user: u64,
    pub nice: u64,
    pub system: u64,
    pub idle: u64,
    pub iowait: u64,
    pub irq: u64,
    pub softirq: u64,
    pub steal: u64,
}

/// The CPU times of one core.
#[derive(Debug, Clone, Copy, PartialEq, Eq, Structural)]
pub struct PerCoreCpuStats {
    pub core_id: usize,
    pub stats: CpuStats,
}

/// The number fields of a stat line: up to eight words after the first.
pub open spec fn stat_fields(line: Seq<char>) -> Seq<Seq<char>> {
    let w = words(line);
    if w.len() <= 1 {
        Seq::empty()
    } else if w.len() <= 9 {
        w.subrange(1, w.len() as int)
    } else {
        w.subrange(1, 9)
    }
}

/// Whether every field reads as a `u64`.
pub open spec fn all_numbers(f: Seq<Seq<char>>) -> bool {
    forall|i: int| 0 <= i < f.len() ==> spec_parse_u64(f[i]) is Some
}

/// Field `i` as a number, zero where the line has fewer fields.
pub open spec fn field_or_zero(f: Seq<Seq<char>>, i: int) -> u64 {
    if i < f.len() {
        match spec_parse_u64(f[i]) {
            Some(v) => v,
            None => 0,
        }
    } else {
        0
    }
}

/// The stats that a stat line with valid fields holds.
pub open spec fn stats_of(f: Seq<Seq<char>>) -> CpuStats {
    CpuStats {
        user: field_or_zero(f, 0),
        nice: field_or_zero(f, 1),
        system: field_or_zero(f, 2),
        idle: field_or_zero(f, 3),
        iowait: field_or_zero(f, 4),
        irq: field_or_zero(f, 5),
        softirq: field_or_zero(f, 6),
        steal: field_or_zero(f, 7),
    }
}

/// `r` is a parse error with message `msg` and an underlying cause.
pub open spec fn fails_with_cause<T>(r: Result<T, SensorError>, msg: Seq<char>) -> bool {
    r matches Err(SensorError::Parse { message, source: Some(_) }) && message@ == msg
}

/// What parsing a stat line owes.
pub open spec fn stat_line_parsed(r: Result<CpuStats, SensorError>, line: Seq<char>) -> bool {
    let f = stat_fields(line);
    if !begins_with(line, "cpu"@) {
        fails_with(r, "Line does not start with 'cpu'"@)
    } else if !all_numbers(f) {
        fails_with_cause(r, "Failed to parse CPU statistics"@)
    } else if f.len() < 4 {
        fails_with(r, "Insufficient CPU statistics: expected at least 4, got "@ + decimal(f.len()))
    } else {
        r == Ok::<CpuStats, SensorError>(stats_of(f))
    }
}

impl CpuStats {
    /// Time in all states, as an unbounded integer.
    pub open spec fn spec_total(&self) -> int {
        self.user + self.nice + self.system + self.idle + self.iowait + self.irq + self.softirq
            + self.steal
    }

    /// Time in all states.
    pub fn total(&self) -> (r: u64)
        requires
            self.spec_total() <= u64::MAX,
        ensures
            r == self.spec_total(),
    {
        self.user + self.nice + self.system + self.idle + self.iowait + self.irq + self.softirq
            + self.steal
    }

    /// Time in the states that are not idle or waiting for I/O.
    pub fn active(&self) -> (r: u64)
        requires
            self.spec_total() <= u64::MAX,
        ensures
            r == self.spec_total() - self.idle - self.iowait,
    {
        self.total() - self.idle - self.iowait
    }

    /// Parses a `cpu` or `cpuN` line of `/proc/stat`: up to eight numbers after the
    /// first word, at least four, the missing ones zero.
    pub fn parse_from_proc_stat_line(line: &str) -> (r: Result<CpuStats, SensorError>)
        ensures
            stat_line_parsed(r, line@),
    {
        if !starts_with(line, "cpu") {
            return Err(SensorError::parse("Line does not start with 'cpu'"));
        }
        let w = split_words(line);
        let ghost f = stat_fields(line@);
        let end: usize = if w.len() <= 9 { w.len() } else { 9 };
        let mut values: Vec<u64> = Vec::new();
        let mut i: usize = 1;
        while i < end
            invariant
                begins_with(line@, "cpu"@),
                views(w@) == words(line@),
                f == stat_fields(line@),
                end == if w@.len() <= 9 { w@.len() } else { 9 },
                1 <= i <= end || (end <= 1 && i == 1),
                values@.len() == i - 1,
                forall|j: int| 0 <= j < i - 1 ==> spec_parse_u64(f[j]) == Some(values@[j]),
            decreases end - i,
        {
            assert(f[i - 1] == w@[i as int]@);
            match parse_u64(w[i].as_str()) {
                Some(v) => values.push(v),
                None => {
                    assert(spec_parse_u64(f[i - 1]) is None);
                    assert(!all_numbers(f));
                    return Err(SensorError::parse_with_source(
                        "Failed to parse CPU statistics",
                        "invalid digit or value out of range",
                    ));
                },
            }
            i = i + 1;
        }
        assert(f.len() == values@.len());
        assert(all_numbers(f));
        if values.len() < 4 {
            let mut msg = String::from_str("Insufficient CPU statistics: expected at least 4, got ");
            push_decimal(&mut msg, values.len() as u64);
            return Err(SensorError::Parse { message: msg, source: None });
        }
        let n = values.len();
        let r = CpuStats {
            user: values[0],
            nice: values[1],
            system: values[2],
            idle: values[3],
            iowait: if n > 4 { values[4] } else { 0 },
            irq: if n > 5 { values[5] } else { 0 },
            softirq: if n > 6 { values[6] } else { 0 },
            steal: if n > 7 { values[7] } else { 0 },
        };
        assert(r == stats_of(f));
        Ok(r)
    }
}

/// What parsing a per-core stat line owes.
pub open spec fn core_line_parsed(r: Result<PerCoreCpuStats, SensorError>, line: Seq<char>) -> bool {
    let w = words(line);
    if !begins_with(line, "cpu"@) || begins_with(line, "cpu "@) {
        fails_with(r, "Line is not a CPU core line"@)
    } else if w.len() == 0 {
        fails_with(r, "Empty line"@)
    } else if !begins_with(w[0], "cpu"@) {
        fails_with(r, "Invalid CPU line format"@)
    } else {
        match spec_parse_u64(w[0].subrange(3, w[0].len() as int)) {
            Some(id) if id <= usize::MAX => match r {
                Ok(c) => c.core_id == id && stat_line_parsed(Ok(c.stats), line),
                Err(e) => stat_line_parsed(Err(e), line),
            },
            _ => fails_with_cause(r, "Failed to parse core ID"@),
        }
    }
}

impl PerCoreCpuStats {
    /// Parses a `cpuN` line of `/proc/stat`, `N` being the core number.
    pub fn parse_from_proc_stat_line(line: &str) -> (r: Result<PerCoreCpuStats, SensorError>)
        ensures
            core_line_parsed(r, line@),
    {
        if !starts_with(line, "cpu") || starts_with(line, "cpu ") {
            return Err(SensorError::parse("Line is not a CPU core line"));
        }
        let w = split_words(line);
        if w.len() == 0 {
            return Err(SensorError::parse("Empty line"));
        }
        assert(w@[0]@ == words(line@)[0]);
        if !starts_with(w[0].as_str(), "cpu") {
            return Err(SensorError::parse("Invalid CPU line format"));
        }
        proof {
            reveal_strlit("cpu");
        }
        let id_text = suffix_from(w[0].as_str(), 3);
        let core_id = match parse_u64(id_text.as_str()) {
            Some(v) if v <= usize::MAX as u64 => v as usize,
            _ => {
                return Err(SensorError::parse_with_source(
                    "Failed to parse core ID",
                    "invalid digit or value out of range",
                ));
            },
        };
        match CpuStats::parse_from_proc_stat_line(line) {
            Ok(stats) => Ok(PerCoreCpuStats { core_id, stats }),
            Err(e) => Err(e),
        }
    }
}

} // verus!
