//! Metadata and playlist runs of the extraction tool: the arguments they
//! are started with, what is kept of their output, and what their JSON
//! lines say. Starting the tool and reading its streams is not done here.

use crate::decimal::{int_text, int_to_chars};
use crate::events::opt_view;
use crate::json::{
    json_has,
    json_of,
    json_keys,
    json_str,
    json_strings,
    json_u64,
    json_unsigned,
    json_whole,
    json_whole_number,
    member,
    parse_json,
};
use crate::text::{
    clone_opt,
    clone_strings,
    has_str_at,
    skip,
    skip_back,
    span,
    span_back,
    starts_with_at,
    string_from_chars,
    strings,
    to_chars,
    CharClass,
};
use crate::url_utils::{url_join, url_joined_of, url_path, url_path_of, url_rejoin, url_rejoined_of};
use vstd::prelude::*;
use vstd::string::*;

verus! {

/// How many lines of standard output are kept of a run.
pub const MAX_STDOUT_LINES: usize = 20_000;

/// How many lines of standard error are kept of a run.
pub const MAX_STDERR_LINES: usize = 20_000;

/// How long a metadata run may take unless configured otherwise, in
/// milliseconds.
pub const DEFAULT_METADATA_TIMEOUT_MS: u64 = 30_000;

/// Where the extraction tool is and how it is run. The time allowed for a
/// metadata run is in milliseconds.
#[derive(Debug, Clone)]
pub struct YtDlpConfig {
    pub yt_dlp_path: String,
    pub global_args: Vec<String>,
    pub metadata_timeout: u64,
}

impl YtDlpConfig {
    pub fn new(yt_dlp_path: String) -> (c: Self)
        ensures
            c.yt_dlp_path == yt_dlp_path,
            c.global_args@.len() == 0,
            c.metadata_timeout == DEFAULT_METADATA_TIMEOUT_MS,
    {
        YtDlpConfig {
            yt_dlp_path,
            global_args: Vec::new(),
            metadata_timeout: DEFAULT_METADATA_TIMEOUT_MS,
        }
    }
}

/// What is known of a URL before it is queued.
#[derive(Debug, Clone)]
pub struct PreviewMetadata {
    pub url: String,
    pub title: Option<String>,
    pub uploader: Option<String>,
    pub duration_seconds: Option<u64>,
    pub thumbnail_url: Option<String>,
    pub filesize_bytes: Option<u64>,
    pub is_playlist: bool,
    pub playlist_title: Option<String>,
    pub playlist_count_hint: Option<u64>,
}

pub struct PreviewMetadataView {
    pub url: Seq<char>,
    pub title: Option<Seq<char>>,
    pub uploader: Option<Seq<char>>,
    pub duration_seconds: Option<u64>,
    pub thumbnail_url: Option<Seq<char>>,
    pub filesize_bytes: Option<u64>,
    pub is_playlist: bool,
    pub playlist_title: Option<Seq<char>>,
    pub playlist_count_hint: Option<u64>,
}

impl View for PreviewMetadata {
    type V = PreviewMetadataView;

    open spec fn view(&self) -> PreviewMetadataView {
        PreviewMetadataView {
            url: self.url@,
            title: opt_view(self.title),
            uploader: opt_view(self.uploader),
            duration_seconds: self.duration_seconds,
            thumbnail_url: opt_view(self.thumbnail_url),
            filesize_bytes: self.filesize_bytes,
            is_playlist: self.is_playlist,
            playlist_title: opt_view(self.playlist_title),
            playlist_count_hint: self.playlist_count_hint,
        }
    }
}

/// One entry of an enumerated playlist.
#[derive(Debug, Clone)]
pub struct PlaylistEntry {
    pub url: String,
    pub title: Option<String>,
    pub uploader: Option<String>,
    pub duration_seconds: Option<u64>,
    pub thumbnail_url: Option<String>,
}

pub struct PlaylistEntryView {
    pub url: Seq<char>,
    pub title: Option<Seq<char>>,
    pub uploader: Option<Seq<char>>,
    pub duration_seconds: Option<u64>,
    pub thumbnail_url: Option<Seq<char>>,
}

impl View for PlaylistEntry {
    type V = PlaylistEntryView;

    open spec fn view(&self) -> PlaylistEntryView {
        PlaylistEntryView {
            url: self.url@,
            title: opt_view(self.title),
            uploader: opt_view(self.uploader),
            duration_seconds: self.duration_seconds,
            thumbnail_url: opt_view(self.thumbnail_url),
        }
    }
}

/// What was kept of the output of a run.
#[derive(Debug, Clone)]
pub struct YtDlpOutput {
    pub stdout_lines: Vec<String>,
    pub stderr_lines: Vec<String>,
    pub exit_code: Option<i32>,
}

pub struct YtDlpOutputView {
    pub stdout_lines: Seq<Seq<char>>,
    pub stderr_lines: Seq<Seq<char>>,
    pub exit_code: Option<i32>,
}

impl View for YtDlpOutput {
    type V = YtDlpOutputView;

    open spec fn view(&self) -> YtDlpOutputView {
        YtDlpOutputView {
            stdout_lines: strings(self.stdout_lines@),
            stderr_lines: strings(self.stderr_lines@),
            exit_code: self.exit_code,
        }
    }
}

/// The kinds of failure of a run.
#[derive(Debug, Clone, Copy, PartialEq, Eq, Structural)]
pub enum YtDlpErrorKind {
    NotFound,
    Timeout,
    InvalidJson,
    NonZeroExit,
}

impl YtDlpErrorKind {
    pub open spec fn name(self) -> Seq<char> {
        match self {
            YtDlpErrorKind::NotFound => "NotFound"@,
            YtDlpErrorKind::Timeout => "Timeout"@,
            YtDlpErrorKind::InvalidJson => "InvalidJson"@,
            YtDlpErrorKind::NonZeroExit => "NonZeroExit"@,
        }
    }

    pub fn as_str(self) -> (r: &'static str)
        ensures
            r@ == self.name(),
    {
        match self {
            YtDlpErrorKind::NotFound => "NotFound",
            YtDlpErrorKind::Timeout => "Timeout",
            YtDlpErrorKind::InvalidJson => "InvalidJson",
            YtDlpErrorKind::NonZeroExit => "NonZeroExit",
        }
    }
}

/// A failed run, with what was kept of its output where there is any.
#[derive(Debug, Clone)]
pub struct YtDlpError {
    pub kind: YtDlpErrorKind,
    pub message: String,
    pub output: Option<YtDlpOutput>,
}

pub struct YtDlpErrorView {
    pub kind: YtDlpErrorKind,
    pub message: Seq<char>,
    pub output: Option<YtDlpOutputView>,
}

impl View for YtDlpError {
    type V = YtDlpErrorView;

    open spec fn view(&self) -> YtDlpErrorView {
        YtDlpErrorView {
            kind: self.kind,
            message: self.message@,
            output: match self.output {
                Some(o) => Some(o@),
                None => None,
            },
        }
    }
}

impl YtDlpError {
    /// The failure in one line: its kind, then its message.
    pub fn describe(&self) -> (text: String)
        ensures
            text@ == self.kind.name() + ": "@ + self.message@,
    {
        self.kind.as_str().to_owned().concat(": ").concat(self.message.as_str())
    }
}

/// Why metadata could not be had of the lines of a run.
#[derive(Debug, Clone)]
pub enum MetadataError {
    /// The run printed no JSON object.
    NoJsonOutput,
    /// A line that should hold JSON does not.
    Tool(YtDlpError),
    /// A playlist entry that names no URL and no identifier.
    MissingUrl,
}

impl MetadataError {
    pub fn describe(&self) -> (text: String)
        ensures
            text@ == (match *self {
                MetadataError::NoJsonOutput => "yt-dlp returned no JSON output"@,
                MetadataError::Tool(e) => e.kind.name() + ": "@ + e.message@,
                MetadataError::MissingUrl => "playlist entry missing url/webpage_url/id"@,
            }),
    {
        match self {
            MetadataError::NoJsonOutput => "yt-dlp returned no JSON output".to_owned(),
            MetadataError::Tool(e) => e.describe(),
            MetadataError::MissingUrl => "playlist entry missing url/webpage_url/id".to_owned(),
        }
    }
}

/// Whether a line looks like one JSON object: after the white space at its
/// start it begins with `{`, and it ends with `}`.
pub open spec fn is_json_like(s: Seq<char>) -> bool {
    let a = span(s, CharClass::Space, 0);
    a < s.len() && s[a] == '{' && s.last() == '}'
}

pub fn looks_like_json_object(s: &str) -> (b: bool)
    ensures
        b == is_json_like(s@),
{
    let cs = to_chars(s);
    let a: usize = skip(&cs, CharClass::Space, 0);
    a < cs.len() && cs[a] == '{' && cs[cs.len() - 1] == '}'
}

/// What has been kept of a run so far.
#[derive(Debug, Clone)]
pub struct JsonLineRun {
    pub stdout_lines: Vec<String>,
    pub stderr_lines: Vec<String>,
    pub json_lines: Vec<String>,
}

pub struct JsonLineRunView {
    pub stdout_lines: Seq<Seq<char>>,
    pub stderr_lines: Seq<Seq<char>>,
    pub json_lines: Seq<Seq<char>>,
}

impl View for JsonLineRun {
    type V = JsonLineRunView;

    open spec fn view(&self) -> JsonLineRunView {
        JsonLineRunView {
            stdout_lines: strings(self.stdout_lines@),
            stderr_lines: strings(self.stderr_lines@),
            json_lines: strings(self.json_lines@),
        }
    }
}

/// A list with one more line, unless it is full.
pub open spec fn bounded_push(lines: Seq<Seq<char>>, line: Seq<char>, limit: nat) -> Seq<Seq<char>> {
    if lines.len() < limit {
        lines.push(line)
    } else {
        lines
    }
}

/// How the exit status of a run is written in a message.
pub open spec fn exit_code_text(code: Option<i32>) -> Seq<char> {
    match code {
        Some(c) => "Some("@ + int_text(c as int) + ")"@,
        None => "None"@,
    }
}

/// The view of what the end of a run comes to.
pub open spec fn run_result_view(r: Result<(Vec<String>, YtDlpOutput), YtDlpError>) -> Result<
    (Seq<Seq<char>>, YtDlpOutputView),
    YtDlpErrorView,
> {
    match r {
        Ok((lines, output)) => Ok((strings(lines@), output@)),
        Err(e) => Err(e@),
    }
}

fn push_line(lines: &mut Vec<String>, line: String)
    ensures
        strings(final(lines)@) == strings(old(lines)@).push(line@),
{
    let ghost before = lines@;
    lines.push(line);
    proof {
        assert(lines@ =~= before.push(line));
        assert(strings(before.push(line)) =~= strings(before).push(line@));
    }
}

impl JsonLineRun {
    /// A run of which nothing has been read yet.
    pub fn new() -> (r: Self)
        ensures
            r@ == (JsonLineRunView {
                stdout_lines: Seq::empty(),
                stderr_lines: Seq::empty(),
                json_lines: Seq::empty(),
            }),
    {
        let r = JsonLineRun {
            stdout_lines: Vec::new(),
            stderr_lines: Vec::new(),
            json_lines: Vec::new(),
        };
        proof {
            assert(strings(r.stdout_lines@) =~= Seq::<Seq<char>>::empty());
            assert(strings(r.stderr_lines@) =~= Seq::<Seq<char>>::empty());
            assert(strings(r.json_lines@) =~= Seq::<Seq<char>>::empty());
        }
        r
    }

    /// Takes a line of standard output in: it is kept while there is room,
    /// and counted among the JSON lines where it looks like one.
    pub fn on_stdout_line(&mut self, line: String)
        ensures
            final(self)@ == (JsonLineRunView {
                stdout_lines: bounded_push(
                    old(self)@.stdout_lines,
                    line@,
                    MAX_STDOUT_LINES as nat,
                ),
                json_lines: if is_json_like(line@) {
                    old(self)@.json_lines.push(line@)
                } else {
                    old(self)@.json_lines
                },
                ..old(self)@
            }),
    {
        proof {
            assert(strings(self.stdout_lines@).len() == self.stdout_lines.len());
        }
        if self.stdout_lines.len() < MAX_STDOUT_LINES {
            push_line(&mut self.stdout_lines, line.clone());
        }
        if looks_like_json_object(line.as_str()) {
            push_line(&mut self.json_lines, line);
        }
    }

    /// Takes a line of standard error in: it is kept while there is room.
    pub fn on_stderr_line(&mut self, line: String)
        ensures
            final(self)@ == (JsonLineRunView {
                stderr_lines: bounded_push(
                    old(self)@.stderr_lines,
                    line@,
                    MAX_STDERR_LINES as nat,
                ),
                ..old(self)@
            }),
    {
        proof {
            assert(strings(self.stderr_lines@).len() == self.stderr_lines.len());
        }
        if self.stderr_lines.len() < MAX_STDERR_LINES {
            push_line(&mut self.stderr_lines, line);
        }
    }

    /// The failure of a run that took too long; `allowed` is how the time
    /// allowed is written. The tool is to be killed.
    pub fn on_timeout(self, allowed: &str) -> (e: YtDlpError)
        ensures
            e@ == (YtDlpErrorView {
                kind: YtDlpErrorKind::Timeout,
                message: "yt-dlp timed out after "@ + allowed@,
                output: Some(
                    YtDlpOutputView {
                        stdout_lines: self@.stdout_lines,
                        stderr_lines: self@.stderr_lines,
                        exit_code: None,
                    },
                ),
            }),
    {
        YtDlpError {
            kind: YtDlpErrorKind::Timeout,
            message: "yt-dlp timed out after ".to_owned().concat(allowed),
            output: Some(
                YtDlpOutput {
                    stdout_lines: self.stdout_lines,
                    stderr_lines: self.stderr_lines,
                    exit_code: None,
                },
            ),
        }
    }

    /// What the end of a run comes to: its JSON lines and what was kept of
    /// its output, or the failure of a run that exited badly.
    pub fn on_exit(self, exit_code: Option<i32>, success: bool) -> (r: Result<
        (Vec<String>, YtDlpOutput),
        YtDlpError,
    >)
        ensures
            run_result_view(r) == (if success {
                Ok(
                    (
                        self@.json_lines,
                        YtDlpOutputView {
                            stdout_lines: self@.stdout_lines,
                            stderr_lines: self@.stderr_lines,
                            exit_code,
                        },
                    ),
                )
            } else {
                Err(
                    YtDlpErrorView {
                        kind: YtDlpErrorKind::NonZeroExit,
                        message: "yt-dlp exited with status "@ + exit_code_text(exit_code)
                            + ". See logs for details."@,
                        output: Some(
                            YtDlpOutputView {
                                stdout_lines: self@.stdout_lines,
                                stderr_lines: self@.stderr_lines,
                                exit_code,
                            },
                        ),
                    },
                )
            }),
    {
        let output = YtDlpOutput {
            stdout_lines: self.stdout_lines,
            stderr_lines: self.stderr_lines,
            exit_code,
        };
        if success {
            Ok((self.json_lines, output))
        } else {
            let code = match exit_code {
                Some(c) => {
                    let digits = int_to_chars(c as i64);
                    "Some(".to_owned().concat(string_from_chars(&digits).as_str()).concat(")")
                },
                None => "None".to_owned(),
            };
            Err(
                YtDlpError {
                    kind: YtDlpErrorKind::NonZeroExit,
                    message: "yt-dlp exited with status ".to_owned().concat(code.as_str()).concat(
                        ". See logs for details.",
                    ),
                    output: Some(output),
                },
            )
        }
    }
}

/// The duration that a JSON object states: its `duration` where that is a
/// whole number, else its `duration` cut to a whole number.
pub open spec fn duration_of(v: serde_json::Value) -> Option<u64> {
    match member(json_unsigned(v), "duration"@) {
        Some(d) => Some(d),
        None => member(json_whole(v), "duration"@),
    }
}

/// Whether a JSON object describes a playlist: its `_type` says so, or it
/// has `entries`.
pub open spec fn describes_playlist(v: serde_json::Value) -> bool {
    member(json_strings(v), "_type"@) == Some("playlist"@) || json_keys(v).contains("entries"@)
}

/// The preview that a JSON object gives of a URL.
pub open spec fn preview_of(v: serde_json::Value, fallback_url: Seq<char>) -> PreviewMetadataView {
    PreviewMetadataView {
        url: match member(json_strings(v), "webpage_url"@) {
            Some(u) => u,
            None => fallback_url,
        },
        title: member(json_strings(v), "title"@),
        uploader: member(json_strings(v), "uploader"@),
        duration_seconds: duration_of(v),
        thumbnail_url: member(json_strings(v), "thumbnail"@),
        filesize_bytes: match member(json_unsigned(v), "filesize"@) {
            Some(n) => Some(n),
            None => member(json_unsigned(v), "filesize_approx"@),
        },
        is_playlist: describes_playlist(v),
        playlist_title: if describes_playlist(v) {
            member(json_strings(v), "title"@)
        } else {
            None
        },
        playlist_count_hint: if describes_playlist(v) {
            match member(json_unsigned(v), "playlist_count"@) {
                Some(n) => Some(n),
                None => member(json_unsigned(v), "n_entries"@),
            }
        } else {
            None
        },
    }
}

fn duration_in(v: &serde_json::Value) -> (d: Option<u64>)
    ensures
        d == duration_of(*v),
{
    match json_u64(v, "duration") {
        Some(d) => Some(d),
        None => json_whole_number(v, "duration"),
    }
}

/// The preview that a parsed JSON object gives of a URL.
pub fn preview_from_value(v: &serde_json::Value, fallback_url: &str) -> (p: PreviewMetadata)
    ensures
        p@ == preview_of(*v, fallback_url@),
{
    let url = match json_str(v, "webpage_url") {
        Some(u) => u,
        None => fallback_url.to_owned(),
    };
    let title = json_str(v, "title");
    let is_playlist = (match json_str(v, "_type") {
        Some(t) => crate::text::same_text(t.as_str(), "playlist"),
        None => false,
    }) || json_has(v, "entries");
    let playlist_title = if is_playlist {
        clone_opt(&title)
    } else {
        None
    };
    let playlist_count_hint = if is_playlist {
        match json_u64(v, "playlist_count") {
            Some(n) => Some(n),
            None => json_u64(v, "n_entries"),
        }
    } else {
        None
    };
    PreviewMetadata {
        url,
        title,
        uploader: json_str(v, "uploader"),
        duration_seconds: duration_in(v),
        thumbnail_url: json_str(v, "thumbnail"),
        filesize_bytes: match json_u64(v, "filesize") {
            Some(n) => Some(n),
            None => json_u64(v, "filesize_approx"),
        },
        is_playlist,
        playlist_title,
        playlist_count_hint,
    }
}

/// The failure of a line that holds no JSON.
pub fn invalid_json(opening: &str, reason: &str) -> (e: YtDlpError)
    ensures
        e@ == invalid_json_view(opening@, reason@),
{
    YtDlpError {
        kind: YtDlpErrorKind::InvalidJson,
        message: opening.to_owned().concat(reason),
        output: None,
    }
}

/// The preview that a line of JSON gives of a URL. A line that does not
/// parse is a failure of kind `InvalidJson`.
pub fn parse_preview_metadata(json_line: &str, fallback_url: &str) -> (r: Result<
    PreviewMetadata,
    YtDlpError,
>)
    ensures
        match json_of(json_line@) {
            Ok(v) => r is Ok && r->Ok_0@ == preview_of(v, fallback_url@),
            Err(reason) => r is Err && r->Err_0@ == invalid_json_view("invalid yt-dlp JSON: "@, reason),
        },
{
    match parse_json(json_line) {
        Ok(v) => Ok(preview_from_value(&v, fallback_url)),
        Err(reason) => Err(invalid_json("invalid yt-dlp JSON: ", reason.as_str())),
    }
}

/// The directory of a URL path: the path itself where it ends in `/`, else
/// the path up to its last `/`, that excluded.
pub open spec fn parent_path(path: Seq<char>) -> Seq<char> {
    let cut = span_back(path, CharClass::Except('/'), path.len() as int);
    if path.len() > 0 && path.last() == '/' {
        path
    } else if cut == 0 {
        Seq::empty()
    } else {
        path.subrange(0, cut - 1)
    }
}

/// The URL of a playlist entry that names a `url` of its own: that URL
/// where it is an http(s) URL, else what it resolves to under the
/// directory of the playlist's URL, else the `url` as it is.
pub open spec fn entry_url_of(reference: Seq<char>, playlist_url: Seq<char>) -> Seq<char> {
    if starts_with_at(reference, 0, "http://"@) || starts_with_at(reference, 0, "https://"@) {
        reference
    } else {
        match url_path_of(playlist_url) {
            Some(path) => {
                let resolved = if path.len() > 0 && path.last() == '/' {
                    url_joined_of(playlist_url, reference)
                } else {
                    url_rejoined_of(playlist_url, parent_path(path), reference)
                };
                match resolved {
                    Some(u) => u,
                    None => reference,
                }
            },
            None => reference,
        }
    }
}

/// The URL of a playlist entry: its `webpage_url`, else what its `url`
/// comes to, else its `id`.
pub open spec fn entry_address_of(v: serde_json::Value, playlist_url: Seq<char>) -> Option<
    Seq<char>,
> {
    match member(json_strings(v), "webpage_url"@) {
        Some(u) => Some(u),
        None => match member(json_strings(v), "url"@) {
            Some(u) => Some(entry_url_of(u, playlist_url)),
            None => member(json_strings(v), "id"@),
        },
    }
}

/// The playlist entry that a JSON object describes.
pub open spec fn entry_of(v: serde_json::Value, playlist_url: Seq<char>) -> Option<
    PlaylistEntryView,
> {
    match entry_address_of(v, playlist_url) {
        Some(url) => Some(
            PlaylistEntryView {
                url,
                title: member(json_strings(v), "title"@),
                uploader: member(json_strings(v), "uploader"@),
                duration_seconds: duration_of(v),
                thumbnail_url: member(json_strings(v), "thumbnail"@),
            },
        ),
        None => None,
    }
}

/// The URL that the `url` of a playlist entry comes to.
pub fn entry_url(reference: String, playlist_url: &str) -> (url: String)
    ensures
        url@ == entry_url_of(reference@, playlist_url@),
{
    let rc = to_chars(reference.as_str());
    if has_str_at(&rc, 0, "http://") || has_str_at(&rc, 0, "https://") {
        return reference;
    }
    match url_path(playlist_url) {
        Some(path) => {
            let pc = to_chars(path.as_str());
            let resolved = if pc.len() > 0 && pc[pc.len() - 1] == '/' {
                url_join(playlist_url, reference.as_str())
            } else {
                let cut: usize = skip_back(&pc, CharClass::Except('/'), pc.len());
                let parent = if cut == 0 {
                    String::new()
                } else {
                    path.as_str().substring_char(0, cut - 1).to_owned()
                };
                url_rejoin(playlist_url, parent.as_str(), reference.as_str())
            };
            match resolved {
                Some(u) => u,
                None => reference,
            }
        },
        None => reference,
    }
}

/// The view of an optional playlist entry.
pub open spec fn opt_entry_view(e: Option<PlaylistEntry>) -> Option<PlaylistEntryView> {
    match e {
        Some(x) => Some(x@),
        None => None,
    }
}

/// The views of a list of playlist entries, in order.
pub open spec fn entry_views(v: Seq<PlaylistEntry>) -> Seq<PlaylistEntryView> {
    v.map_values(|e: PlaylistEntry| e@)
}

/// The playlist entry that a parsed JSON object describes; `None` where it
/// names no URL and no identifier.
pub fn entry_from_value(v: &serde_json::Value, playlist_url: &str) -> (r: Option<PlaylistEntry>)
    ensures
        opt_entry_view(r) == entry_of(*v, playlist_url@),
{
    let url = match json_str(v, "webpage_url") {
        Some(u) => u,
        None => match json_str(v, "url") {
            Some(u) => entry_url(u, playlist_url),
            None => match json_str(v, "id") {
                Some(id) => id,
                None => {
                    return None;
                },
            },
        },
    };
    Some(
        PlaylistEntry {
            url,
            title: json_str(v, "title"),
            uploader: json_str(v, "uploader"),
            duration_seconds: duration_in(v),
            thumbnail_url: json_str(v, "thumbnail"),
        },
    )
}

/// The playlist entry that a line of JSON describes.
pub fn parse_playlist_entry(json_line: &str, playlist_url: &str) -> (r: Result<
    PlaylistEntry,
    MetadataError,
>)
    ensures
        match json_of(json_line@) {
            Ok(v) => match entry_of(v, playlist_url@) {
                Some(e) => r is Ok && r->Ok_0@ == e,
                None => r is Err && r->Err_0 is MissingUrl,
            },
            Err(reason) => r is Err && r->Err_0 is Tool && r->Err_0->Tool_0@ == invalid_json_view(
                "invalid yt-dlp playlist JSON: "@,
                reason,
            ),
        },
{
    match parse_json(json_line) {
        Ok(v) => match entry_from_value(&v, playlist_url) {
            Some(e) => Ok(e),
            None => Err(MetadataError::MissingUrl),
        },
        Err(reason) => Err(
            MetadataError::Tool(invalid_json("invalid yt-dlp playlist JSON: ", reason.as_str())),
        ),
    }
}

/// The arguments of a metadata run for a URL.
pub open spec fn metadata_args(url: Seq<char>) -> Seq<Seq<char>> {
    seq!["--dump-json"@, "--no-warnings"@, "--no-call-home"@, "--newline"@, url]
}

/// The arguments of a playlist enumeration for a URL.
pub open spec fn playlist_args(url: Seq<char>) -> Seq<Seq<char>> {
    seq![
        "--flat-playlist"@,
        "--dump-json"@,
        "--no-warnings"@,
        "--no-call-home"@,
        "--newline"@,
        url,
    ]
}

/// Runs of the extraction tool for metadata and playlists.
#[derive(Debug, Clone)]
pub struct YtDlpRunner {
    cfg: YtDlpConfig,
}

impl YtDlpRunner {
    pub closed spec fn config(&self) -> YtDlpConfig {
        self.cfg
    }

    pub fn new(cfg: YtDlpConfig) -> (r: Self)
        ensures
            r.config() == cfg,
    {
        YtDlpRunner { cfg }
    }

    /// Where the extraction tool is.
    pub fn yt_dlp_path(&self) -> (p: &str)
        ensures
            p@ == self.config().yt_dlp_path@,
    {
        self.cfg.yt_dlp_path.as_str()
    }

    /// How long a metadata run may take, in milliseconds.
    pub fn metadata_timeout(&self) -> (t: u64)
        ensures
            t == self.config().metadata_timeout,
    {
        self.cfg.metadata_timeout
    }

    /// The failure of a run whose tool is not where it should be.
    pub fn not_found(&self) -> (e: YtDlpError)
        ensures
            e@ == (YtDlpErrorView {
                kind: YtDlpErrorKind::NotFound,
                message: "yt-dlp not found at "@ + self.config().yt_dlp_path@,
                output: None,
            }),
    {
        YtDlpError {
            kind: YtDlpErrorKind::NotFound,
            message: "yt-dlp not found at ".to_owned().concat(self.cfg.yt_dlp_path.as_str()),
            output: None,
        }
    }

    /// The whole argument list of a run: the global arguments, then the
    /// run's own.
    pub fn exec_json_lines(&self, args: &Vec<String>) -> (all: Vec<String>)
        ensures
            strings(all@) == strings(self.config().global_args@) + strings(args@),
    {
        let mut all = clone_strings(&self.cfg.global_args);
        let mut own = clone_strings(args);
        let ghost g = all@;
        let ghost o = own@;
        all.append(&mut own);
        proof {
            assert(all@ =~= g + o);
            assert(strings(g + o) =~= strings(g) + strings(o));
        }
        all
    }

    /// The arguments with which metadata is fetched for a URL, and the
    /// preview that the lines of the run give: that of the first JSON line.
    pub fn fetch_metadata_args(&self, url: &str) -> (args: Vec<String>)
        ensures
            strings(args@) == metadata_args(url@),
    {
        let mut args: Vec<String> = Vec::new();
        args.push("--dump-json".to_owned());
        args.push("--no-warnings".to_owned());
        args.push("--no-call-home".to_owned());
        args.push("--newline".to_owned());
        args.push(url.to_owned());
        proof {
            assert(strings(args@) =~= metadata_args(url@));
        }
        args
    }

    /// The arguments with which a playlist is enumerated.
    pub fn enumerate_playlist_args(&self, playlist_url: &str) -> (args: Vec<String>)
        ensures
            strings(args@) == playlist_args(playlist_url@),
    {
        let mut args: Vec<String> = Vec::new();
        args.push("--flat-playlist".to_owned());
        args.push("--dump-json".to_owned());
        args.push("--no-warnings".to_owned());
        args.push("--no-call-home".to_owned());
        args.push("--newline".to_owned());
        args.push(playlist_url.to_owned());
        proof {
            assert(strings(args@) =~= playlist_args(playlist_url@));
        }
        args
    }

    /// The preview of a URL, given the JSON lines of its metadata run: that
    /// of the first line. A run without JSON lines gives none.
    pub fn fetch_metadata(&self, json_lines: &Vec<String>, url: &str) -> (r: Result<
        PreviewMetadata,
        MetadataError,
    >)
        ensures
            json_lines@.len() == 0 ==> r is Err && r->Err_0 is NoJsonOutput,
            json_lines@.len() > 0 ==> match json_of(json_lines@[0]@) {
                Ok(v) => r is Ok && r->Ok_0@ == preview_of(v, url@),
                Err(reason) => r is Err && r->Err_0 is Tool && r->Err_0->Tool_0@
                    == invalid_json_view("invalid yt-dlp JSON: "@, reason),
            },
    {
        if json_lines.len() == 0 {
            return Err(MetadataError::NoJsonOutput);
        }
        match parse_preview_metadata(json_lines[0].as_str(), url) {
            Ok(p) => Ok(p),
            Err(e) => Err(MetadataError::Tool(e)),
        }
    }

    /// The entries of a playlist, given the JSON lines of its enumeration,
    /// in their order. Blank lines and lines that describe no entry are
    /// passed over: one bad entry does not spoil the playlist.
    pub fn enumerate_playlist(&self, json_lines: &Vec<String>, playlist_url: &str) -> (entries:
        Vec<PlaylistEntry>)
        ensures
            entry_views(entries@) == entries_of(strings(json_lines@), playlist_url@),
    {
        let mut entries: Vec<PlaylistEntry> = Vec::new();
        let mut k: usize = 0;
        let ghost lines = strings(json_lines@);
        proof {
            assert(entry_views(entries@) =~= entries_of(lines.take(0), playlist_url@));
        }
        while k < json_lines.len()
            invariant
                k <= json_lines.len(),
                lines == strings(json_lines@),
                entry_views(entries@) == entries_of(lines.take(k as int), playlist_url@),
            decreases json_lines.len() - k,
        {
            let cs = to_chars(json_lines[k].as_str());
            let blank = skip(&cs, CharClass::Space, 0) >= cs.len();
            let ghost before = entries@;
            proof {
                assert(lines.take(k + 1).drop_last() =~= lines.take(k as int));
                assert(lines.take(k + 1).last() == json_lines@[k as int]@);
            }
            if !blank {
                match parse_playlist_entry(json_lines[k].as_str(), playlist_url) {
                    Ok(e) => {
                        entries.push(e);
                        proof {
                            assert(entry_views(before.push(e)) =~= entry_views(before).push(e@));
                        }
                    },
                    Err(_) => {},
                }
            }
            k = k + 1;
        }
        proof {
            assert(lines.take(k as int) =~= lines);
        }
        entries
    }
}

/// The failure of a line that holds no JSON: what the line was wanted for,
/// then what the parser said of it.
pub open spec fn invalid_json_view(opening: Seq<char>, reason: Seq<char>) -> YtDlpErrorView {
    YtDlpErrorView { kind: YtDlpErrorKind::InvalidJson, message: opening + reason, output: None }
}

/// The playlist entry that one line of an enumeration describes: none where
/// the line is blank, is no JSON, or names no URL and no identifier.
pub open spec fn line_entry(line: Seq<char>, playlist_url: Seq<char>) -> Option<
    PlaylistEntryView,
> {
    if span(line, CharClass::Space, 0) >= line.len() {
        None
    } else {
        match json_of(line) {
            Ok(v) => entry_of(v, playlist_url),
            Err(_) => None,
        }
    }
}

/// The entries that the lines of an enumeration describe, in the order of
/// the lines, each line giving one entry or none.
pub open spec fn entries_of(lines: Seq<Seq<char>>, playlist_url: Seq<char>) -> Seq<
    PlaylistEntryView,
>
    decreases lines.len(),
{
    if lines.len() == 0 {
        Seq::empty()
    } else {
        match line_entry(lines.last(), playlist_url) {
            Some(e) => entries_of(lines.drop_last(), playlist_url).push(e),
            None => entries_of(lines.drop_last(), playlist_url),
        }
    }
}

} // verus!
