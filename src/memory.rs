//! Memory figures from `/proc/meminfo`.
use vstd::prelude::*;
use crate::error::SensorError;
use crate::text::{push_char, text_eq};
use crate::words::{parse_u64, pieces, spec_parse_u64, split_pieces, split_words, views, words};

verus! {

/// Memory figures in bytes.
#[derive(Debug, Clone, Copy, PartialEq, Eq, Structural)]
pub struct MemoryInfo {
    pub mem_total: u64,
    pub mem_free: u64,
    pub mem_available: u64,
    pub mem_buffers: u64,
    pub mem_cached: u64,
    pub swap_total: u64,
    pub swap_free: u64,
}

/// `a - b`, or zero when `b` is larger.
pub open spec fn sat_sub(a: u64, b: u64) -> u64 {
    if a >= b { (a - b) as u64 } else { 0 }
}

/// `a + b`, or `u64::MAX` when the sum does not fit.
pub open spec fn sat_add(a: u64, b: u64) -> u64 {
    if a + b <= u64::MAX { (a + b) as u64 } else { u64::MAX }
}

/// `s` without its trailing colons.
pub open spec fn trim_colons(s: Seq<char>) -> Seq<char>
    decreases s.len(),
{
    if s.len() > 0 && s.last() == ':' { trim_colons(s.drop_last()) } else { s }
}

/// The figures with the one that `key` names set to `v`; other keys change nothing.
pub open spec fn set_field(m: MemoryInfo, key: Seq<char>, v: u64) -> MemoryInfo {
    if key == "MemTotal"@ {
        MemoryInfo { mem_total: v, ..m }
    } else if key == "MemFree"@ {
        MemoryInfo { mem_free: v, ..m }
    } else if key == "MemAvailable"@ {
        MemoryInfo { mem_available: v, ..m }
    } else if key == "Buffers"@ {
        MemoryInfo { mem_buffers: v, ..m }
    } else if key == "Cached"@ {
        MemoryInfo { mem_cached: v, ..m }
    } else if key == "SwapTotal"@ {
        MemoryInfo { swap_total: v, ..m }
    } else if key == "SwapFree"@ {
        MemoryInfo { swap_free: v, ..m }
    } else {
        m
    }
}

/// All figures zero.
pub open spec fn zero_info() -> MemoryInfo {
    MemoryInfo {
        mem_total: 0,
        mem_free: 0,
        mem_available: 0,
        mem_buffers: 0,
        mem_cached: 0,
        swap_total: 0,
        swap_free: 0,
    }
}

/// The figures after the first `n` lines: a line of two or more words sets the
/// figure its first word names (colons trimmed) to its second word in kB, as bytes;
/// `None` once a second word is no number or its bytes do not fit a `u64`.
pub open spec fn scan_lines(lines: Seq<Seq<char>>, n: int) -> Option<MemoryInfo>
    decreases n,
{
    if n <= 0 {
        Some(zero_info())
    } else {
        match scan_lines(lines, n - 1) {
            None => None,
            Some(m) => {
                let w = words(lines[n - 1]);
                if w.len() < 2 {
                    Some(m)
                } else {
                    match spec_parse_u64(w[1]) {
                        Some(v) => if v * 1024 <= u64::MAX {
                            Some(set_field(m, trim_colons(w[0]), (v * 1024) as u64))
                        } else {
                            None
                        },
                        None => None,
                    }
                }
            },
        }
    }
}

/// Once a line fails, the whole text fails.
proof fn lemma_failure_stays(lines: Seq<Seq<char>>, i: int, n: int)
    requires
        0 <= i <= n,
        scan_lines(lines, i) is None,
    ensures
        scan_lines(lines, n) is None,
    decreases n - i,
{
    if i < n {
        lemma_failure_stays(lines, i, n - 1);
    }
}

/// The figures of a meminfo text; where it gives no available memory, that is
/// estimated as free + buffers + cached.
pub open spec fn meminfo_of(content: Seq<char>) -> Option<MemoryInfo> {
    let l = pieces(content);
    match scan_lines(l, l.len() as int) {
        Some(m) => Some(if m.mem_available == 0 {
            MemoryInfo {
                mem_available: sat_add(sat_add(m.mem_free, m.mem_buffers), m.mem_cached),
                ..m
            }
        } else {
            m
        }),
        None => None,
    }
}

/// `s` without its trailing colons.
fn trim_trailing_colons(s: &str) -> (r: String)
    ensures
        r@ == trim_colons(s@),
{
    let mut end = s.unicode_len();
    assert(s@.subrange(0, end as int) =~= s@);
    while end > 0 && s.get_char(end - 1) == ':'
        invariant
            end <= s@.len(),
            trim_colons(s@.subrange(0, end as int)) == trim_colons(s@),
        decreases end,
    {
        assert(s@.subrange(0, end as int).drop_last() =~= s@.subrange(0, end - 1));
        end = end - 1;
    }
    let mut r = String::new();
    let mut i: usize = 0;
    while i < end
        invariant
            end <= s@.len(),
            i <= end,
            r@ == s@.subrange(0, i as int),
        decreases end - i,
    {
        push_char(&mut r, s.get_char(i));
        assert(r@ =~= s@.subrange(0, i + 1));
        i = i + 1;
    }
    r
}

/// The figures with the one that `key` names set to `v`.
fn apply_field(m: &mut MemoryInfo, key: &str, v: u64)
    ensures
        *final(m) == set_field(*old(m), key@, v),
{
    if text_eq(key, "MemTotal") {
        m.mem_total = v;
    } else if text_eq(key, "MemFree") {
        m.mem_free = v;
    } else if text_eq(key, "MemAvailable") {
        m.mem_available = v;
    } else if text_eq(key, "Buffers") {
        m.mem_buffers = v;
    } else if text_eq(key, "Cached") {
        m.mem_cached = v;
    } else if text_eq(key, "SwapTotal") {
        m.swap_total = v;
    } else if text_eq(key, "SwapFree") {
        m.swap_free = v;
    }
}

impl MemoryInfo {
    /// Memory in use: total minus available, zero if available exceeds total.
    pub fn mem_used(&self) -> (r: u64)
        ensures
            r == sat_sub(self.mem_total, self.mem_available),
    {
        self.mem_total.saturating_sub(self.mem_available)
    }

    /// Swap in use: total minus free, zero if free exceeds total.
    pub fn swap_used(&self) -> (r: u64)
        ensures
            r == sat_sub(self.swap_total, self.swap_free),
    {
        self.swap_total.saturating_sub(self.swap_free)
    }

    /// Memory and swap in use, saturating at `u64::MAX`.
    pub fn total_used_with_swap(&self) -> (r: u64)
        ensures
            r == sat_add(
                sat_sub(self.mem_total, self.mem_available),
                sat_sub(self.swap_total, self.swap_free),
            ),
    {
        self.mem_used().saturating_add(self.swap_used())
    }

    /// Memory and swap capacity, saturating at `u64::MAX`.
    pub fn total_capacity_with_swap(&self) -> (r: u64)
        ensures
            r == sat_add(self.mem_total, self.swap_total),
    {
        self.mem_total.saturating_add(self.swap_total)
    }

    /// Parses the text of `/proc/meminfo` (values in kB) into figures in bytes.
    pub fn parse_meminfo_content(content: &str) -> (r: Result<MemoryInfo, SensorError>)
        ensures
            match meminfo_of(content@) {
                Some(m) => r == Ok::<MemoryInfo, SensorError>(m),
                None => r matches Err(SensorError::Parse { .. }),
            },
    {
        let lines = split_pieces(content);
        let ghost l = pieces(content@);
        let mut m = MemoryInfo {
            mem_total: 0,
            mem_free: 0,
            mem_available: 0,
            mem_buffers: 0,
            mem_cached: 0,
            swap_total: 0,
            swap_free: 0,
        };
        let mut i: usize = 0;
        while i < lines.len()
            invariant
                views(lines@) == l,
                l == pieces(content@),
                i <= lines@.len(),
                scan_lines(l, i as int) == Some(m),
            decreases lines@.len() - i,
        {
            assert(l[i as int] == lines@[i as int]@);
            let w = split_words(lines[i].as_str());
            if w.len() >= 2 {
                assert(w@[0]@ == words(l[i as int])[0]);
                assert(w@[1]@ == words(l[i as int])[1]);
                let key = trim_trailing_colons(w[0].as_str());
                let v = match parse_u64(w[1].as_str()) {
                    Some(v) => v,
                    None => {
                        proof {
                            lemma_failure_stays(l, i + 1, l.len() as int);
                        }
                        let mut msg = String::from_str("Failed to parse ");
                        msg.append(key.as_str());
                        msg.append(" value");
                        return Err(SensorError::Parse {
                            message: msg,
                            source: Some(String::from_str("invalid digit or value out of range")),
                        });
                    },
                };
                if v > u64::MAX / 1024 {
                    proof {
                        lemma_failure_stays(l, i + 1, l.len() as int);
                    }
                    let mut msg = String::from_str("Failed to parse ");
                    msg.append(key.as_str());
                    msg.append(" value");
                    return Err(SensorError::Parse {
                        message: msg,
                        source: Some(String::from_str("number too large to fit in target type")),
                    });
                }
                apply_field(&mut m, key.as_str(), v * 1024);
            }
            i = i + 1;
        }
        assert(lines@.len() == l.len());
        if m.mem_available == 0 {
            m.mem_available = m.mem_free.saturating_add(m.mem_buffers).saturating_add(m.mem_cached);
        }
        Ok(m)
    }
}

} // verus!
