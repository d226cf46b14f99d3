//! Execution of downloads through the external extraction tool: the parsers
//! for its progress output, the classification of its failures, the
//! per-job executor and the concurrency-limited scheduler.

use crate::decimal::{
    decimal_scaled,
    parse_uint,
    scale_decimal,
    uint_of,
    Percent,
};
use crate::text::{
    chars_are,
    pieces,
    skip,
    skip_back,
    slice_chars,
    span,
    span_back,
    split,
    split_chars,
    to_chars,
    trim,
    trimmed,
    CharClass,
};
use vstd::prelude::*;

pub mod classify;
pub mod config;
pub mod executor;
pub mod metadata;
pub mod preset;
pub mod progress;
pub mod scheduler;
pub mod scheduler_laws;

pub use config::{find_ffmpeg_binary, find_ytdlp_binary, DownloadConfig, FetchedMetadata};
pub use executor::{build_download_args, DownloadError, JobExecutor};
pub use metadata::fetch_metadata_for_url;
pub use scheduler::DownloadManager;

pub use preset::Preset;

pub use classify::{classify_error, classify_lowered};

pub use progress::{parse_progress, parse_progress_line, ParsedProgress};

verus! {

/// The units in which the tool states sizes and speeds.
#[derive(Debug, Clone, Copy, PartialEq, Eq, Structural)]
pub enum ByteUnit {
    B,
    KB,
    KiB,
    MB,
    MiB,
    GB,
    GiB,
}

impl ByteUnit {
    /// How many bytes one of this unit is. The decimal names count as their
    /// binary namesakes.
    pub open spec fn multiplier(self) -> nat {
        match self {
            ByteUnit::B => 1,
            ByteUnit::KB | ByteUnit::KiB => 1024,
            ByteUnit::MB | ByteUnit::MiB => 1024 * 1024,
            ByteUnit::GB | ByteUnit::GiB => 1024 * 1024 * 1024,
        }
    }

    /// The token that names this unit.
    pub open spec fn name(self) -> Seq<char> {
        match self {
            ByteUnit::B => seq!['B'],
            ByteUnit::KB => seq!['K', 'B'],
            ByteUnit::KiB => seq!['K', 'i', 'B'],
            ByteUnit::MB => seq!['M', 'B'],
            ByteUnit::MiB => seq!['M', 'i', 'B'],
            ByteUnit::GB => seq!['G', 'B'],
            ByteUnit::GiB => seq!['G', 'i', 'B'],
        }
    }

    pub fn bytes(self) -> (m: u64)
        ensures
            m == self.multiplier(),
            1 <= m <= crate::decimal::MAX_MULTIPLIER,
    {
        match self {
            ByteUnit::B => 1,
            ByteUnit::KB | ByteUnit::KiB => 1024,
            ByteUnit::MB | ByteUnit::MiB => 1024 * 1024,
            ByteUnit::GB | ByteUnit::GiB => 1024 * 1024 * 1024,
        }
    }
}

/// The unit token that stands at position `i`, if one does.
pub open spec fn unit_at(s: Seq<char>, i: int) -> Option<ByteUnit> {
    if 0 <= i < s.len() {
        let c = s[i];
        let second = if i + 1 < s.len() {
            Some(s[i + 1])
        } else {
            None
        };
        let third = if i + 2 < s.len() {
            Some(s[i + 2])
        } else {
            None
        };
        if c == 'B' {
            Some(ByteUnit::B)
        } else if c == 'K' || c == 'M' || c == 'G' {
            if second == Some('B') {
                Some(
                    if c == 'K' {
                        ByteUnit::KB
                    } else if c == 'M' {
                        ByteUnit::MB
                    } else {
                        ByteUnit::GB
                    },
                )
            } else if second == Some('i') && third == Some('B') {
                Some(
                    if c == 'K' {
                        ByteUnit::KiB
                    } else if c == 'M' {
                        ByteUnit::MiB
                    } else {
                        ByteUnit::GiB
                    },
                )
            } else {
                None
            }
        } else {
            None
        }
    } else {
        None
    }
}

/// A quantity that begins at position `i`: a run of digits and full stops,
/// optional white space, then a unit. Gives the run and the unit.
pub open spec fn quantity_at(s: Seq<char>, i: int) -> Option<(Seq<char>, ByteUnit)> {
    let e = span(s, CharClass::Number, i);
    let u = span(s, CharClass::Space, e);
    if 0 <= i < e {
        match unit_at(s, u) {
            Some(unit) => Some((s.subrange(i, e), unit)),
            None => None,
        }
    } else {
        None
    }
}

/// The first quantity that begins at or after position `from`.
pub open spec fn find_quantity(s: Seq<char>, from: int) -> Option<(Seq<char>, ByteUnit)>
    decreases s.len() - from,
{
    if from < 0 || from >= s.len() {
        None
    } else if quantity_at(s, from) is Some {
        quantity_at(s, from)
    } else {
        find_quantity(s, from + 1)
    }
}

/// Whether a field says that its value is not known.
pub open spec fn is_unknown(t: Seq<char>) -> bool {
    t.len() == 0 || t == seq!['N', '/', 'A']
}

/// The byte count that a size or speed field states: the first quantity in
/// it, its number times the unit's multiplier, rounded to the nearest byte
/// and capped at `u64::MAX`. `None` where the field is empty or `N/A`, holds
/// no quantity, or its number is no decimal number.
pub open spec fn quantity_of(s: Seq<char>) -> Option<u64> {
    let t = trimmed(s);
    if is_unknown(t) {
        None
    } else {
        match find_quantity(t, 0) {
            Some((number, unit)) => decimal_scaled(number, unit.multiplier()),
            None => None,
        }
    }
}

/// The seconds that an ETA field states: one, two or three unsigned integers
/// between colons, read as seconds, minutes and seconds, or hours, minutes
/// and seconds. `None` where the field is empty or `N/A`, has more parts, a
/// part is no unsigned integer, or the total exceeds `u64::MAX`.
pub open spec fn eta_of(s: Seq<char>) -> Option<u64> {
    let t = trimmed(s);
    let parts = split(t, ':');
    if is_unknown(t) {
        None
    } else if parts.len() == 1 {
        uint_of(parts[0])
    } else if parts.len() == 2 {
        match (uint_of(parts[0]), uint_of(parts[1])) {
            (Some(m), Some(sec)) => if m * 60 + sec <= u64::MAX {
                Some((m * 60 + sec) as u64)
            } else {
                None
            },
            _ => None,
        }
    } else if parts.len() == 3 {
        match (uint_of(parts[0]), uint_of(parts[1]), uint_of(parts[2])) {
            (Some(h), Some(m), Some(sec)) => if h * 3600 + m * 60 + sec <= u64::MAX {
                Some((h * 3600 + m * 60 + sec) as u64)
            } else {
                None
            },
            _ => None,
        }
    } else {
        None
    }
}

/// The percentage that a field states: a decimal number, with any `%` signs
/// after it and white space around it dropped, in thousandths of a point.
pub open spec fn percent_of(s: Seq<char>) -> Option<Percent> {
    let end = span_back(s, CharClass::Only('%'), s.len() as int);
    let t = trimmed(s.subrange(0, end));
    match decimal_scaled(t, 1000) {
        Some(v) => Some(Percent { thousandths: v }),
        None => None,
    }
}

fn is_unknown_field(t: &Vec<char>) -> (b: bool)
    ensures
        b == is_unknown(t@),
{
    proof {
        reveal_strlit("N/A");
        assert("N/A"@ =~= seq!['N', '/', 'A']);
    }
    t.len() == 0 || chars_are(t, "N/A")
}

fn unit_at_index(cs: &Vec<char>, i: usize) -> (r: Option<ByteUnit>)
    ensures
        r == unit_at(cs@, i as int),
{
    let n: usize = cs.len();
    if i >= n {
        return None;
    }
    let c = cs[i];
    if c == 'B' {
        return Some(ByteUnit::B);
    }
    if !(c == 'K' || c == 'M' || c == 'G') {
        return None;
    }
    if n - i > 1 && cs[i + 1] == 'B' {
        return Some(
            if c == 'K' {
                ByteUnit::KB
            } else if c == 'M' {
                ByteUnit::MB
            } else {
                ByteUnit::GB
            },
        );
    }
    if n - i > 2 && cs[i + 1] == 'i' && cs[i + 2] == 'B' {
        return Some(
            if c == 'K' {
                ByteUnit::KiB
            } else if c == 'M' {
                ByteUnit::MiB
            } else {
                ByteUnit::GiB
            },
        );
    }
    None
}

/// The byte count that the quantity field `cs` states.
pub(crate) fn parse_quantity(cs: &Vec<char>) -> (r: Option<u64>)
    ensures
        r == quantity_of(cs@),
{
    let t = trim(cs);
    if is_unknown_field(&t) {
        return None;
    }
    let n: usize = t.len();
    let mut i: usize = 0;
    while i < n
        invariant
            i <= n,
            n == t.len(),
            t@ == trimmed(cs@),
            !is_unknown(t@),
            find_quantity(t@, 0) == find_quantity(t@, i as int),
        decreases n - i,
    {
        let e: usize = skip(&t, CharClass::Number, i);
        if e > i {
            let u: usize = skip(&t, CharClass::Space, e);
            match unit_at_index(&t, u) {
                Some(unit) => {
                    let number = slice_chars(&t, i, e);
                    return scale_decimal(&number, unit.bytes());
                },
                None => {},
            }
        }
        i = i + 1;
    }
    None
}

/// The speed in bytes per second that a field such as `1.5MiB/s` states.
pub fn parse_speed(s: &str) -> (r: Option<u64>)
    ensures
        r == quantity_of(s@),
{
    let cs = to_chars(s);
    parse_quantity(&cs)
}

/// The size in bytes that a field such as `100MiB` states.
pub fn parse_bytes(s: &str) -> (r: Option<u64>)
    ensures
        r == quantity_of(s@),
{
    let cs = to_chars(s);
    parse_quantity(&cs)
}

pub(crate) fn parse_eta_chars(cs: &Vec<char>) -> (r: Option<u64>)
    ensures
        r == eta_of(cs@),
{
    let t = trim(cs);
    if is_unknown_field(&t) {
        return None;
    }
    let parts = split_chars(&t, ':');
    proof {
        assert(pieces(parts@).len() == parts.len());
        assert forall|k: int| 0 <= k < parts.len() implies #[trigger] pieces(parts@)[k]
            == parts@[k]@ by {}
    }
    if parts.len() == 1 {
        parse_uint(&parts[0])
    } else if parts.len() == 2 {
        let m = parse_uint(&parts[0]);
        let sec = parse_uint(&parts[1]);
        match (m, sec) {
            (Some(m), Some(sec)) => {
                let total: u128 = (m as u128) * 60 + (sec as u128);
                if total <= u64::MAX as u128 {
                    Some(total as u64)
                } else {
                    None
                }
            },
            _ => None,
        }
    } else if parts.len() == 3 {
        let h = parse_uint(&parts[0]);
        let m = parse_uint(&parts[1]);
        let sec = parse_uint(&parts[2]);
        match (h, m, sec) {
            (Some(h), Some(m), Some(sec)) => {
                let total: u128 = (h as u128) * 3600 + (m as u128) * 60 + (sec as u128);
                if total <= u64::MAX as u128 {
                    Some(total as u64)
                } else {
                    None
                }
            },
            _ => None,
        }
    } else {
        None
    }
}

/// The remaining time in seconds that a field such as `05:30` states.
pub fn parse_eta(s: &str) -> (r: Option<u64>)
    ensures
        r == eta_of(s@),
{
    let cs = to_chars(s);
    parse_eta_chars(&cs)
}

pub(crate) fn parse_percent_chars(cs: &Vec<char>) -> (r: Option<Percent>)
    ensures
        r == percent_of(cs@),
{
    let end: usize = skip_back(cs, CharClass::Only('%'), cs.len());
    let head = slice_chars(cs, 0, end);
    let t = trim(&head);
    match scale_decimal(&t, 1000) {
        Some(v) => Some(Percent { thousandths: v }),
        None => None,
    }
}

/// The percentage that a field such as `50.5%` states.
pub fn parse_percent(s: &str) -> (r: Option<Percent>)
    ensures
        r == percent_of(s@),
{
    let cs = to_chars(s);
    parse_percent_chars(&cs)
}

} // verus!
