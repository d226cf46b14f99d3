//! The metadata-only run that precedes a download whose title is not
//! known: its arguments, the time it may take, and what its output says.

use crate::download_manager::config::{FetchedMetadata, FetchedMetadataView};
use crate::json::{
    json_str,
    json_strings,
    json_u64,
    json_unsigned,
    json_whole,
    json_whole_number,
    member,
    parse_json,
};
use crate::text::{skip, slice_chars, span, string_from_chars, strings, to_chars, CharClass};
use vstd::prelude::*;
use vstd::string::*;

verus! {

/// How long the metadata run may take, in seconds. A run that takes longer
/// counts as failed, which does not fail the download.
pub const METADATA_TIMEOUT_SECS: u64 = 15;

/// The arguments of the metadata run for a URL.
pub open spec fn fetch_args(url: Seq<char>) -> Seq<Seq<char>> {
    seq!["--dump-json"@, "--no-warnings"@, "--no-call-home"@, "--no-playlist"@, url]
}

pub fn metadata_fetch_args(url: &str) -> (args: Vec<String>)
    ensures
        strings(args@) == fetch_args(url@),
{
    let mut args: Vec<String> = Vec::new();
    args.push("--dump-json".to_owned());
    args.push("--no-warnings".to_owned());
    args.push("--no-call-home".to_owned());
    args.push("--no-playlist".to_owned());
    args.push(url.to_owned());
    proof {
        assert(strings(args@) =~= fetch_args(url@));
    }
    args
}

/// The metadata that a JSON object states.
pub open spec fn metadata_of(v: serde_json::Value) -> FetchedMetadataView {
    FetchedMetadataView {
        title: member(json_strings(v), "title"@),
        uploader: member(json_strings(v), "uploader"@),
        duration_seconds: match member(json_unsigned(v), "duration"@) {
            Some(d) => Some(d),
            None => member(json_whole(v), "duration"@),
        },
        thumbnail_url: member(json_strings(v), "thumbnail"@),
    }
}

/// The metadata that a parsed JSON object states.
pub fn metadata_from_value(v: &serde_json::Value) -> (m: FetchedMetadata)
    ensures
        m@ == metadata_of(*v),
{
    FetchedMetadata {
        title: json_str(v, "title"),
        uploader: json_str(v, "uploader"),
        duration_seconds: match json_u64(v, "duration") {
            Some(d) => Some(d),
            None => json_whole_number(v, "duration"),
        },
        thumbnail_url: json_str(v, "thumbnail"),
    }
}

/// The first line of a text, without its line ending; `None` where the
/// text is empty.
pub open spec fn leading_line(text: Seq<char>) -> Option<Seq<char>> {
    let end = span(text, CharClass::Except('\n'), 0);
    if text.len() == 0 {
        None
    } else if 0 < end < text.len() && text[end - 1] == '\r' {
        Some(text.subrange(0, end - 1))
    } else {
        Some(text.subrange(0, end))
    }
}

pub fn first_line(text: &str) -> (r: Option<String>)
    ensures
        crate::events::opt_view(r) == leading_line(text@),
{
    let cs = to_chars(text);
    if cs.len() == 0 {
        return None;
    }
    let end: usize = skip(&cs, CharClass::Except('\n'), 0);
    let line = if 0 < end && end < cs.len() && cs[end - 1] == '\r' {
        slice_chars(&cs, 0, end - 1)
    } else {
        slice_chars(&cs, 0, end)
    };
    Some(string_from_chars(&line))
}

/// The view of optional metadata.
pub open spec fn opt_metadata_view(m: Option<FetchedMetadata>) -> Option<FetchedMetadataView> {
    if m is Some { Some(m->0@) } else { None }
}

/// The metadata of a URL, given how the metadata run ended and what it
/// printed: that of the first line, where the run succeeded and the line
/// holds JSON. Nothing where the run failed or printed nothing.
pub fn fetch_metadata_for_url(succeeded: bool, stdout: &str) -> (r: Option<FetchedMetadata>)
    ensures
        opt_metadata_view(r) == fetched_of(succeeded, stdout@),
{
    if !succeeded {
        return None;
    }
    match first_line(stdout) {
        Some(line) => match parse_json(line.as_str()) {
            Ok(v) => Some(metadata_from_value(&v)),
            Err(_) => None,
        },
        None => None,
    }
}

/// The metadata that a metadata run gives, given how it ended and what it
/// printed: that of the JSON object on the first line, where the run
/// succeeded and the line parses. Nothing where the run failed, printed
/// nothing, or printed a first line that is no JSON.
pub open spec fn fetched_of(succeeded: bool, stdout: Seq<char>) -> Option<FetchedMetadataView> {
    if !succeeded {
        None
    } else {
        match leading_line(stdout) {
            Some(line) => match crate::json::json_of(line) {
                Ok(v) => Some(metadata_of(v)),
                Err(_) => None,
            },
            None => None,
        }
    }
}

} // verus!
