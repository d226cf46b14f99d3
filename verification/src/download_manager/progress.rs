//! What one line of the tool's standard output says: a progress sample in
//! one of three formats, and the markers for merging, completion and the
//! output path.

use crate::decimal::{decimal_scaled, scale_decimal, Percent};
use crate::download_manager::{
    eta_of,
    parse_eta_chars,
    parse_percent_chars,
    parse_quantity,
    percent_of,
    quantity_of,
};
use crate::events::opt_view;
use crate::pattern::{find_captures, find_match, match_at, match_from, Part};
use crate::text::{
    contains,
    contains_str,
    find_last,
    find_last_sub,
    has_str_at,
    skip,
    slice_chars,
    span,
    starts_with_at,
    string_from_chars,
    to_chars,
    CharClass,
};
use vstd::prelude::*;
use vstd::string::*;

verus! {

/// A progress sample read from one line.
#[derive(Debug, Clone, Default)]
pub struct ParsedProgress {
    pub percent: Option<Percent>,
    pub bytes_downloaded: Option<u64>,
    pub bytes_total: Option<u64>,
    pub speed_bps: Option<u64>,
    pub eta_seconds: Option<u64>,
    pub phase: Option<String>,
}

pub struct ParsedProgressView {
    pub percent: Option<Percent>,
    pub bytes_downloaded: Option<u64>,
    pub bytes_total: Option<u64>,
    pub speed_bps: Option<u64>,
    pub eta_seconds: Option<u64>,
    pub phase: Option<Seq<char>>,
}

impl View for ParsedProgress {
    type V = ParsedProgressView;

    open spec fn view(&self) -> ParsedProgressView {
        ParsedProgressView {
            percent: self.percent,
            bytes_downloaded: self.bytes_downloaded,
            bytes_total: self.bytes_total,
            speed_bps: self.speed_bps,
            eta_seconds: self.eta_seconds,
            phase: opt_view(self.phase),
        }
    }
}

/// The view of an optional sample.
pub open spec fn opt_progress_view(p: Option<ParsedProgress>) -> Option<ParsedProgressView> {
    match p {
        Some(x) => Some(x@),
        None => None,
    }
}

/// The template line: the tag, then percent, speed, ETA and total size as
/// four words.
pub open spec fn template_parts() -> Seq<Part> {
    seq![
        Part::Lit("[downlink]"),
        Part::Spaces,
        Part::Word,
        Part::Spaces,
        Part::Word,
        Part::Spaces,
        Part::Word,
        Part::Spaces,
        Part::Word,
    ]
}

/// The tool's own progress line: `[download] P% of TOTAL at SPEED ETA ETA`.
pub open spec fn native_parts() -> Seq<Part> {
    seq![
        Part::Lit("[download]"),
        Part::Spaces,
        Part::Number,
        Part::Lit("%"),
        Part::Spaces,
        Part::Lit("of"),
        Part::Spaces,
        Part::Word,
        Part::Spaces,
        Part::Lit("at"),
        Part::Spaces,
        Part::Word,
        Part::Spaces,
        Part::Lit("ETA"),
        Part::Spaces,
        Part::Word,
    ]
}

/// A line that shows a percentage and nothing else: `[download] P%`.
pub open spec fn percent_parts() -> Seq<Part> {
    seq![Part::Lit("[download]"), Part::Spaces, Part::Number, Part::Lit("%")]
}

/// The announcement of the output path: `[download] Destination: PATH`.
pub open spec fn destination_parts() -> Seq<Part> {
    seq![Part::Lit("[download] Destination: "), Part::Line]
}

/// A sample of the downloading phase with the given fields.
pub open spec fn downloading(
    percent: Option<Percent>,
    total: Option<u64>,
    speed: Option<u64>,
    eta: Option<u64>,
) -> ParsedProgressView {
    ParsedProgressView {
        percent,
        bytes_downloaded: None,
        bytes_total: total,
        speed_bps: speed,
        eta_seconds: eta,
        phase: Some("Downloading"@),
    }
}

/// The percentage that a decimal number states, in thousandths of a point.
pub open spec fn percent_number(t: Seq<char>) -> Option<Percent> {
    match decimal_scaled(t, 1000) {
        Some(v) => Some(Percent { thousandths: v }),
        None => None,
    }
}

/// The sample that the four fields of a template line state.
pub open spec fn template_progress(
    percent: Seq<char>,
    speed: Seq<char>,
    eta: Seq<char>,
    total: Seq<char>,
) -> ParsedProgressView {
    downloading(percent_of(percent), quantity_of(total), quantity_of(speed), eta_of(eta))
}

/// The sample that a line states. The template format is tried first, then
/// the tool's own progress line, then a bare percentage; a line in none of
/// these formats states nothing.
pub open spec fn progress_of(line: Seq<char>) -> Option<ParsedProgressView> {
    match find_match(line, template_parts(), 0) {
        Some(c) => Some(template_progress(c[0], c[1], c[2], c[3])),
        None => match find_match(line, native_parts(), 0) {
            Some(c) => Some(
                downloading(percent_number(c[0]), quantity_of(c[1]), quantity_of(c[2]), eta_of(c[3])),
            ),
            None => match find_match(line, percent_parts(), 0) {
                Some(c) => match percent_number(c[0]) {
                    Some(p) => Some(downloading(Some(p), None, None, None)),
                    None => None,
                },
                None => None,
            },
        },
    }
}

/// Whether a line tells that streams are being merged.
pub open spec fn is_merge_line(line: Seq<char>) -> bool {
    contains(line, "[Merger]"@) || contains(line, "Merging formats"@) || contains(
        line,
        "[ffmpeg]"@,
    )
}

/// Whether a line tells that the transfer has reached 100%.
pub open spec fn is_finished_line(line: Seq<char>) -> bool {
    contains(line, "[download] 100%"@)
}

/// The output path that a line announces as the destination.
pub open spec fn destination_of(line: Seq<char>) -> Option<Seq<char>> {
    match find_match(line, destination_parts(), 0) {
        Some(c) => Some(c[0]),
        None => None,
    }
}

/// The path in `[download] PATH has already been downloaded`, where that
/// sentence starts at position `i`: the path runs up to the last place on
/// the line where the closing words stand.
pub open spec fn already_at(line: Seq<char>, i: int) -> Option<Seq<char>> {
    let from = i + "[download] "@.len();
    let end = span(line, CharClass::Except('\n'), from);
    if starts_with_at(line, i, "[download] "@) {
        match find_last_sub(line, " has already been downloaded"@, from + 1, end) {
            Some(j) => Some(line.subrange(from, j)),
            None => None,
        }
    } else {
        None
    }
}

pub open spec fn find_already(line: Seq<char>, from: int) -> Option<Seq<char>>
    decreases line.len() - from + 1,
{
    if from < 0 || from > line.len() {
        None
    } else if already_at(line, from) is Some {
        already_at(line, from)
    } else {
        find_already(line, from + 1)
    }
}

/// The path of a file that a line reports as already downloaded.
pub open spec fn already_downloaded_of(line: Seq<char>) -> Option<Seq<char>> {
    find_already(line, 0)
}

/// How many captures the parts from the `k`-th on hand out.
pub open spec fn capture_count(parts: Seq<Part>, k: int) -> nat
    decreases parts.len() - k,
{
    if k < 0 || k >= parts.len() {
        0
    } else {
        (if parts[k].captures() {
            1nat
        } else {
            0nat
        }) + capture_count(parts, k + 1)
    }
}

/// A match hands out one capture for each capturing part.
pub proof fn lemma_capture_count(s: Seq<char>, parts: Seq<Part>, k: int, i: int)
    requires
        0 <= k,
    ensures
        match match_from(s, parts, k, i) {
            Some(c) => c.len() == capture_count(parts, k),
            None => true,
        },
    decreases parts.len() - k,
{
    if k < parts.len() {
        match parts[k].end(s, i) {
            None => {},
            Some(e) => {
                lemma_capture_count(s, parts, k + 1, e);
            },
        }
    }
}

pub proof fn lemma_find_capture_count(s: Seq<char>, parts: Seq<Part>, from: int)
    ensures
        match find_match(s, parts, from) {
            Some(c) => c.len() == capture_count(parts, 0),
            None => true,
        },
    decreases s.len() - from + 1,
{
    if 0 <= from <= s.len() {
        if match_at(s, parts, from) is Some {
            lemma_capture_count(s, parts, 0, from);
        } else {
            lemma_find_capture_count(s, parts, from + 1);
        }
    }
}

fn template_pattern() -> (v: Vec<Part>)
    ensures
        v@ == template_parts(),
        capture_count(v@, 0) == 4,
{
    let mut v: Vec<Part> = Vec::new();
    v.push(Part::Lit("[downlink]"));
    v.push(Part::Spaces);
    v.push(Part::Word);
    v.push(Part::Spaces);
    v.push(Part::Word);
    v.push(Part::Spaces);
    v.push(Part::Word);
    v.push(Part::Spaces);
    v.push(Part::Word);
    proof {
        assert(v@ =~= template_parts());
        reveal_with_fuel(capture_count, 10);
    }
    v
}

fn native_pattern() -> (v: Vec<Part>)
    ensures
        v@ == native_parts(),
        capture_count(v@, 0) == 4,
{
    let mut v: Vec<Part> = Vec::new();
    v.push(Part::Lit("[download]"));
    v.push(Part::Spaces);
    v.push(Part::Number);
    v.push(Part::Lit("%"));
    v.push(Part::Spaces);
    v.push(Part::Lit("of"));
    v.push(Part::Spaces);
    v.push(Part::Word);
    v.push(Part::Spaces);
    v.push(Part::Lit("at"));
    v.push(Part::Spaces);
    v.push(Part::Word);
    v.push(Part::Spaces);
    v.push(Part::Lit("ETA"));
    v.push(Part::Spaces);
    v.push(Part::Word);
    proof {
        assert(v@ =~= native_parts());
        reveal_with_fuel(capture_count, 17);
    }
    v
}

fn percent_pattern() -> (v: Vec<Part>)
    ensures
        v@ == percent_parts(),
        capture_count(v@, 0) == 1,
{
    let mut v: Vec<Part> = Vec::new();
    v.push(Part::Lit("[download]"));
    v.push(Part::Spaces);
    v.push(Part::Number);
    v.push(Part::Lit("%"));
    proof {
        assert(v@ =~= percent_parts());
        reveal_with_fuel(capture_count, 5);
    }
    v
}

fn destination_pattern() -> (v: Vec<Part>)
    ensures
        v@ == destination_parts(),
        capture_count(v@, 0) == 1,
{
    let mut v: Vec<Part> = Vec::new();
    v.push(Part::Lit("[download] Destination: "));
    v.push(Part::Line);
    proof {
        assert(v@ =~= destination_parts());
        reveal_with_fuel(capture_count, 3);
    }
    v
}

fn downloading_sample(
    percent: Option<Percent>,
    total: Option<u64>,
    speed: Option<u64>,
    eta: Option<u64>,
) -> (p: ParsedProgress)
    ensures
        p@ == downloading(percent, total, speed, eta),
{
    ParsedProgress {
        percent,
        bytes_downloaded: None,
        bytes_total: total,
        speed_bps: speed,
        eta_seconds: eta,
        phase: Some("Downloading".to_owned()),
    }
}

fn percent_from_number(t: &Vec<char>) -> (r: Option<Percent>)
    ensures
        r == percent_number(t@),
{
    match scale_decimal(t, 1000) {
        Some(v) => Some(Percent { thousandths: v }),
        None => None,
    }
}

/// The sample that the four fields of a template line state: percent,
/// speed, ETA and total size.
pub fn parse_progress_line(percent: &str, speed: &str, eta: &str, total: &str) -> (p:
    ParsedProgress)
    ensures
        p@ == template_progress(percent@, speed@, eta@, total@),
{
    let pc = to_chars(percent);
    let sc = to_chars(speed);
    let ec = to_chars(eta);
    let tc = to_chars(total);
    downloading_sample(
        parse_percent_chars(&pc),
        parse_quantity(&tc),
        parse_quantity(&sc),
        parse_eta_chars(&ec),
    )
}

/// The sample that the line `cs` states.
pub(crate) fn parse_progress_chars(cs: &Vec<char>) -> (r: Option<ParsedProgress>)
    ensures
        opt_progress_view(r) == progress_of(cs@),
{
    let template = template_pattern();
    proof {
        lemma_find_capture_count(cs@, template@, 0);
    }
    match find_captures(cs, &template) {
        Some(c) => {
            return Some(
                downloading_sample(
                    parse_percent_chars(&c[0]),
                    parse_quantity(&c[3]),
                    parse_quantity(&c[1]),
                    parse_eta_chars(&c[2]),
                ),
            );
        },
        None => {},
    }
    let native = native_pattern();
    proof {
        lemma_find_capture_count(cs@, native@, 0);
    }
    match find_captures(cs, &native) {
        Some(c) => {
            return Some(
                downloading_sample(
                    percent_from_number(&c[0]),
                    parse_quantity(&c[1]),
                    parse_quantity(&c[2]),
                    parse_eta_chars(&c[3]),
                ),
            );
        },
        None => {},
    }
    let bare = percent_pattern();
    proof {
        lemma_find_capture_count(cs@, bare@, 0);
    }
    match find_captures(cs, &bare) {
        Some(c) => {
            match percent_from_number(&c[0]) {
                Some(p) => Some(downloading_sample(Some(p), None, None, None)),
                None => None,
            }
        },
        None => None,
    }
}

/// The progress sample that a line of the tool's output states, if any.
pub fn parse_progress(line: &str) -> (r: Option<ParsedProgress>)
    ensures
        opt_progress_view(r) == progress_of(line@),
{
    let cs = to_chars(line);
    parse_progress_chars(&cs)
}

pub(crate) fn merge_marker(cs: &Vec<char>) -> (b: bool)
    ensures
        b == is_merge_line(cs@),
{
    contains_str(cs, "[Merger]") || contains_str(cs, "Merging formats") || contains_str(
        cs,
        "[ffmpeg]",
    )
}

pub(crate) fn finished_marker(cs: &Vec<char>) -> (b: bool)
    ensures
        b == is_finished_line(cs@),
{
    contains_str(cs, "[download] 100%")
}

pub(crate) fn destination_path(cs: &Vec<char>) -> (r: Option<String>)
    ensures
        opt_view(r) == destination_of(cs@),
{
    let pattern = destination_pattern();
    proof {
        lemma_find_capture_count(cs@, pattern@, 0);
    }
    match find_captures(cs, &pattern) {
        Some(c) => Some(string_from_chars(&c[0])),
        None => None,
    }
}

fn already_path_at(cs: &Vec<char>, i: usize, closing: &Vec<char>) -> (r: Option<Vec<char>>)
    requires
        i <= cs.len(),
        closing@ == " has already been downloaded"@,
    ensures
        match r {
            Some(p) => already_at(cs@, i as int) == Some(p@),
            None => already_at(cs@, i as int) is None,
        },
{
    if !has_str_at(cs, i, "[download] ") {
        return None;
    }
    let n: usize = "[download] ".unicode_len();
    let from: usize = i + n;
    let end: usize = skip(cs, CharClass::Except('\n'), from);
    if end <= from {
        proof {
            assert(find_last_sub(cs@, closing@, from + 1, end as int) is None);
        }
        return None;
    }
    match find_last(cs, closing, from + 1, end) {
        Some(j) => Some(slice_chars(cs, from, j)),
        None => None,
    }
}

pub(crate) fn already_downloaded_path(cs: &Vec<char>) -> (r: Option<String>)
    ensures
        opt_view(r) == already_downloaded_of(cs@),
{
    let closing = to_chars(" has already been downloaded");
    let mut i: usize = 0;
    while i <= cs.len()
        invariant
            i <= cs.len() + 1,
            closing@ == " has already been downloaded"@,
            find_already(cs@, 0) == find_already(cs@, i as int),
        decreases cs.len() + 1 - i,
    {
        match already_path_at(cs, i, &closing) {
            Some(p) => {
                return Some(string_from_chars(&p));
            },
            None => {},
        }
        if i == cs.len() {
            proof {
                assert(find_already(cs@, i + 1) is None);
            }
            return None;
        }
        i = i + 1;
    }
    None
}

} // verus!
