//! The tools that the application drives: their names, where they are
//! looked for, how their versions are read, and which updates are due.
//! Running the tools and fetching updates is not done here.

use crate::db::{joined, join_path, AppDirs};
use crate::download_manager::config::{first_existing, Candidate};
use crate::events::opt_view;
use crate::text::{
    comes_after,
    find_char,
    is_after,
    pieces,
    same_text,
    skip,
    slice_chars,
    split_words,
    starts_with_at,
    string_from_chars,
    strings,
    to_chars,
    trim,
    trimmed,
    words,
    CharClass,
};
use vstd::prelude::*;
use vstd::string::*;

verus! {

/// The tools that the application manages.
#[derive(Debug, Clone, Copy, PartialEq, Eq, Hash, Structural)]
pub enum Tool {
    YtDlp,
    Ffmpeg,
    Ffprobe,
}

impl Tool {
    /// The name of the tool.
    pub open spec fn name(self) -> Seq<char> {
        match self {
            Tool::YtDlp => "yt-dlp"@,
            Tool::Ffmpeg => "ffmpeg"@,
            Tool::Ffprobe => "ffprobe"@,
        }
    }

    /// The file name of the tool on Windows.
    pub open spec fn windows_name(self) -> Seq<char> {
        match self {
            Tool::YtDlp => "yt-dlp.exe"@,
            Tool::Ffmpeg => "ffmpeg.exe"@,
            Tool::Ffprobe => "ffprobe.exe"@,
        }
    }

    /// The tool of that name.
    pub open spec fn named(s: Seq<char>) -> Option<Tool> {
        if s == "yt-dlp"@ {
            Some(Tool::YtDlp)
        } else if s == "ffmpeg"@ {
            Some(Tool::Ffmpeg)
        } else if s == "ffprobe"@ {
            Some(Tool::Ffprobe)
        } else {
            None
        }
    }

    pub fn as_str(&self) -> (r: &'static str)
        ensures
            r@ == self.name(),
    {
        match self {
            Tool::YtDlp => "yt-dlp",
            Tool::Ffmpeg => "ffmpeg",
            Tool::Ffprobe => "ffprobe",
        }
    }

    /// The file name of the tool's executable where executables carry no
    /// extension.
    pub fn binary_name(&self) -> (r: &'static str)
        ensures
            r@ == self.name(),
    {
        self.as_str()
    }

    /// The file name of the tool's executable on the given platform.
    pub fn binary_name_on(&self, windows: bool) -> (r: &'static str)
        ensures
            r@ == (if windows {
                self.windows_name()
            } else {
                self.name()
            }),
    {
        if windows {
            match self {
                Tool::YtDlp => "yt-dlp.exe",
                Tool::Ffmpeg => "ffmpeg.exe",
                Tool::Ffprobe => "ffprobe.exe",
            }
        } else {
            self.as_str()
        }
    }

    /// The arguments that make the tool print its version.
    pub fn version_args(&self) -> (r: Vec<&'static str>)
        ensures
            r@.len() == 1,
            r@[0]@ == (match self {
                Tool::YtDlp => "--version"@,
                _ => "-version"@,
            }),
    {
        match self {
            Tool::YtDlp => vec!["--version"],
            Tool::Ffmpeg => vec!["-version"],
            Tool::Ffprobe => vec!["-version"],
        }
    }

    /// The tool of that name, as an update manifest names tools.
    pub fn from_name(name: &str) -> (r: Option<Tool>)
        ensures
            r == Tool::named(name@),
    {
        if same_text(name, "yt-dlp") {
            Some(Tool::YtDlp)
        } else if same_text(name, "ffmpeg") {
            Some(Tool::Ffmpeg)
        } else if same_text(name, "ffprobe") {
            Some(Tool::Ffprobe)
        } else {
            None
        }
    }
}

/// The health of a tool.
#[derive(Debug, Clone, Copy, PartialEq, Eq, Structural)]
pub enum ToolStatus {
    Healthy,
    Outdated,
    Missing,
    Broken,
}

/// What is known of an installed tool. The instant of the last check is in
/// milliseconds since the Unix epoch.
#[derive(Debug, Clone)]
pub struct ToolInfo {
    pub tool: Tool,
    pub path: String,
    pub version: Option<String>,
    pub status: ToolStatus,
    pub is_bundled: bool,
    pub last_checked: Option<i64>,
}

/// The tools at a glance.
#[derive(Debug, Clone)]
pub struct ToolchainStatus {
    pub yt_dlp: Option<ToolInfo>,
    pub ffmpeg: Option<ToolInfo>,
    pub ffprobe: Option<ToolInfo>,
    pub overall_status: ToolStatus,
}

/// One tool in an update manifest.
#[derive(Debug, Clone)]
pub struct ToolManifestEntry {
    pub tool: String,
    pub version: String,
    pub download_url: String,
    pub sha256: String,
    pub size_bytes: u64,
}

/// The latest versions of the tools.
#[derive(Debug, Clone)]
pub struct UpdateManifest {
    pub manifest_version: u32,
    pub updated_at: String,
    pub tools: Vec<ToolManifestEntry>,
}

/// How long a version check may take unless configured otherwise, in
/// milliseconds.
pub const DEFAULT_VERSION_TIMEOUT_MS: u64 = 5000;

/// The settings of the tool manager. The time allowed for a version check
/// is in milliseconds.
#[derive(Debug, Clone)]
pub struct ToolManagerConfig {
    pub bundled_dir: Option<String>,
    pub updated_dir: String,
    pub manifest_url: Option<String>,
    pub version_timeout: u64,
}

impl ToolManagerConfig {
    pub open spec fn is_default(self) -> bool {
        &&& self.bundled_dir is None
        &&& self.updated_dir@.len() == 0
        &&& self.manifest_url is None
        &&& self.version_timeout == DEFAULT_VERSION_TIMEOUT_MS
    }
}

impl Default for ToolManagerConfig {
    fn default() -> (c: Self)
        ensures
            c.is_default(),
    {
        ToolManagerConfig {
            bundled_dir: None,
            updated_dir: String::new(),
            manifest_url: None,
            version_timeout: DEFAULT_VERSION_TIMEOUT_MS,
        }
    }
}

/// Whether the path `p` lies in the directory `dir`, component by
/// component.
pub open spec fn lies_in(p: Seq<char>, dir: Seq<char>) -> bool {
    &&& starts_with_at(p, 0, dir)
    &&& (p.len() == dir.len() || (dir.len() > 0 && dir.last() == '/') || p[dir.len() as int]
        == '/')
}

pub fn path_lies_in(p: &str, dir: &str) -> (b: bool)
    ensures
        b == lies_in(p@, dir@),
{
    let pc = to_chars(p);
    let dc = to_chars(dir);
    if !crate::text::has_prefix_at(&pc, 0, &dc) {
        return false;
    }
    pc.len() == dc.len() || (dc.len() > 0 && dc[dc.len() - 1] == '/') || pc[dc.len()] == '/'
}

/// The overall health of the tools: missing without the extraction tool,
/// else broken or outdated where it or ffmpeg is, else healthy.
pub open spec fn overall(yt_dlp: ToolStatus, ffmpeg: ToolStatus) -> ToolStatus {
    if yt_dlp == ToolStatus::Missing {
        ToolStatus::Missing
    } else if yt_dlp == ToolStatus::Broken || ffmpeg == ToolStatus::Broken {
        ToolStatus::Broken
    } else if yt_dlp == ToolStatus::Outdated || ffmpeg == ToolStatus::Outdated {
        ToolStatus::Outdated
    } else {
        ToolStatus::Healthy
    }
}

/// The first line of what a tool printed, without white space around it;
/// `None` where it printed nothing.
pub open spec fn first_line(output: Seq<char>) -> Option<Seq<char>> {
    if output.len() == 0 {
        None
    } else {
        Some(trimmed(output.subrange(0, find_char(output, '\n', 0))))
    }
}

/// The version that a tool's output states. The extraction tool prints its
/// version alone; ffmpeg and ffprobe print their name, the word `version`
/// and then the version.
pub open spec fn version_of(output: Seq<char>, tool: Tool) -> Option<Seq<char>> {
    match first_line(output) {
        None => None,
        Some(line) => {
            let parts = words(line);
            if tool != Tool::YtDlp && parts.len() >= 3 && (parts[0] == "ffmpeg"@ || parts[0]
                == "ffprobe"@) {
                Some(parts[2])
            } else {
                Some(line)
            }
        },
    }
}

/// The version that the output of a tool states.
pub fn parse_version(output: &str, tool: Tool) -> (r: Option<String>)
    ensures
        opt_view(r) == version_of(output@, tool),
{
    let cs = to_chars(output);
    if cs.len() == 0 {
        return None;
    }
    let end: usize = skip(&cs, CharClass::Except('\n'), 0);
    let head = slice_chars(&cs, 0, end);
    let line = trim(&head);
    match tool {
        Tool::YtDlp => Some(string_from_chars(&line)),
        _ => {
            let parts = split_words(&line);
            proof {
                assert(pieces(parts@).len() == parts.len());
                assert forall|k: int| 0 <= k < parts.len() implies #[trigger] pieces(parts@)[k]
                    == parts@[k]@ by {}
            }
            if parts.len() >= 3 && (crate::text::chars_are(&parts[0], "ffmpeg")
                || crate::text::chars_are(&parts[0], "ffprobe")) {
                Some(string_from_chars(&parts[2]))
            } else {
                Some(string_from_chars(&line))
            }
        },
    }
}

/// Whether `new_version` is newer than `current_version`: versions are
/// compared as text, which orders dates written year first.
pub fn version_is_newer(new_version: &str, current_version: &str) -> (r: bool)
    ensures
        r == comes_after(new_version@, current_version@, 0),
{
    let a = to_chars(new_version);
    let b = to_chars(current_version);
    is_after(&a, &b)
}

/// Why the version of a tool could not be read.
#[derive(Debug, Clone, Copy, PartialEq, Eq, Structural)]
pub enum VersionError {
    /// The tool exited with a failure.
    NonZeroExit,
    /// The tool printed nothing to read a version from.
    Unparsable,
}

impl VersionError {
    pub fn message(self) -> (m: String)
        ensures
            m@ == (match self {
                VersionError::NonZeroExit => "Tool returned non-zero exit code"@,
                VersionError::Unparsable => "Could not parse version from output"@,
            }),
    {
        match self {
            VersionError::NonZeroExit => "Tool returned non-zero exit code".to_owned(),
            VersionError::Unparsable => "Could not parse version from output".to_owned(),
        }
    }
}

/// The view of what reading a version comes to.
pub open spec fn version_result_view(r: Result<String, VersionError>) -> Result<
    Seq<char>,
    VersionError,
> {
    match r {
        Ok(v) => Ok(v@),
        Err(e) => Err(e),
    }
}

/// The version of a tool, given how its version run ended and what it
/// printed.
pub fn get_version(succeeded: bool, stdout: &str, tool: Tool) -> (r: Result<String, VersionError>)
    ensures
        version_result_view(r) == (if !succeeded {
            Err(VersionError::NonZeroExit)
        } else {
            match version_of(stdout@, tool) {
                Some(v) => Ok(v),
                None => Err(VersionError::Unparsable),
            }
        }),
{
    if !succeeded {
        return Err(VersionError::NonZeroExit);
    }
    match parse_version(stdout, tool) {
        Some(v) => Ok(v),
        None => Err(VersionError::Unparsable),
    }
}

/// Whether a manifest entry is due, given the version installed (if any):
/// a tool that is not installed is always due.
pub open spec fn is_due(offered: Seq<char>, installed: Option<Seq<char>>) -> bool {
    match installed {
        Some(v) => comes_after(offered, v, 0),
        None => true,
    }
}

pub fn needs_update(entry: &ToolManifestEntry, installed: Option<&str>) -> (b: bool)
    ensures
        b == is_due(
            entry.version@,
            match installed {
                Some(v) => Some(v@),
                None => None,
            },
        ),
{
    match installed {
        Some(v) => version_is_newer(entry.version.as_str(), v),
        None => true,
    }
}

/// The versions installed of each tool, where known.
#[derive(Debug, Clone)]
pub struct InstalledVersions {
    pub yt_dlp: Option<String>,
    pub ffmpeg: Option<String>,
    pub ffprobe: Option<String>,
}

impl InstalledVersions {
    pub open spec fn of(self, tool: Tool) -> Option<Seq<char>> {
        match tool {
            Tool::YtDlp => opt_view(self.yt_dlp),
            Tool::Ffmpeg => opt_view(self.ffmpeg),
            Tool::Ffprobe => opt_view(self.ffprobe),
        }
    }
}

/// Whether an entry of a manifest is an update that is due: it names a
/// known tool and offers a newer version than the one installed.
pub open spec fn entry_is_due(entry: ToolManifestEntry, installed: InstalledVersions) -> bool {
    match Tool::named(entry.tool@) {
        Some(tool) => is_due(entry.version@, installed.of(tool)),
        None => false,
    }
}

/// The entries from position `from` on that are due, in their order.
pub open spec fn due_entries(
    entries: Seq<ToolManifestEntry>,
    installed: InstalledVersions,
    from: int,
) -> Seq<ToolManifestEntry>
    decreases entries.len() - from,
{
    if from < 0 || from >= entries.len() {
        Seq::empty()
    } else if entry_is_due(entries[from], installed) {
        seq![entries[from]] + due_entries(entries, installed, from + 1)
    } else {
        due_entries(entries, installed, from + 1)
    }
}

/// The updates of a manifest that are due, in the manifest's order.
/// Entries for tools that are not known are passed over.
pub fn check_for_updates(manifest: UpdateManifest, installed: &InstalledVersions) -> (updates: Vec<
    ToolManifestEntry,
>)
    ensures
        updates@ == due_entries(manifest.tools@, *installed, 0),
{
    let mut tools = manifest.tools;
    let ghost all = tools@;
    let mut updates: Vec<ToolManifestEntry> = Vec::new();
    let mut rest: Vec<ToolManifestEntry> = Vec::new();
    // Entries are taken from the back; what is due is put in order at the end.
    while tools.len() > 0
        invariant
            tools@ == all.subrange(0, tools.len() as int),
            tools.len() <= all.len(),
            rest@.reverse() == due_entries(all, *installed, tools.len() as int),
        decreases tools.len(),
    {
        let ghost n = tools.len() as int;
        let entry = tools.pop().unwrap();
        proof {
            assert(entry == all[n - 1]);
            assert(tools@ =~= all.subrange(0, n - 1));
        }
        let due = match Tool::from_name(entry.tool.as_str()) {
            Some(tool) => {
                let current: Option<&str> = match tool {
                    Tool::YtDlp => match &installed.yt_dlp {
                        Some(v) => Some(v.as_str()),
                        None => None,
                    },
                    Tool::Ffmpeg => match &installed.ffmpeg {
                        Some(v) => Some(v.as_str()),
                        None => None,
                    },
                    Tool::Ffprobe => match &installed.ffprobe {
                        Some(v) => Some(v.as_str()),
                        None => None,
                    },
                };
                needs_update(&entry, current)
            },
            None => false,
        };
        if due {
            let ghost before = rest@;
            rest.push(entry);
            proof {
                assert(rest@.reverse() =~= seq![entry] + before.reverse());
            }
        }
    }
    proof {
        assert(rest@.reverse() == due_entries(all, *installed, 0));
    }
    while rest.len() > 0
        invariant
            updates@ + rest@.reverse() == due_entries(all, *installed, 0),
        decreases rest.len(),
    {
        let ghost before_rest = rest@;
        let ghost before_updates = updates@;
        let entry = rest.pop().unwrap();
        updates.push(entry);
        proof {
            assert(before_rest.reverse() =~= seq![entry] + rest@.reverse());
            assert(updates@ + rest@.reverse() =~= before_updates + before_rest.reverse());
        }
    }
    proof {
        assert(updates@ + rest@.reverse() =~= updates@);
    }
    updates
}

/// The file name with its extension replaced by `bak`, or with `.bak`
/// added where it has none.
pub open spec fn backup_name(name: Seq<char>) -> Seq<char> {
    let dot = crate::text::span_back(name, CharClass::Except('.'), name.len() as int);
    if dot <= 1 {
        name + ".bak"@
    } else {
        name.subrange(0, dot - 1) + ".bak"@
    }
}

/// Where an update of a tool passes through.
#[derive(Debug, Clone)]
pub struct UpdatePaths {
    /// Where the download is written first.
    pub temp: String,
    /// Where the tool ends up.
    pub target: String,
    /// Where a tool already at the target is kept.
    pub backup: String,
}

/// What an update of a tool came to before it is put in place.
#[derive(Debug, Clone)]
pub enum UpdateError {
    /// The manifest names a tool that is not known.
    UnknownTool(String),
    /// The download does not have the checksum that the manifest states.
    ChecksumMismatch { expected: String, actual: String },
}

impl UpdateError {
    pub fn message(&self) -> (m: String)
        ensures
            m@ == (match *self {
                UpdateError::UnknownTool(t) => "Unknown tool: "@ + t@,
                UpdateError::ChecksumMismatch { expected, actual } => "Checksum mismatch: expected "@
                    + expected@ + ", got "@ + actual@,
            }),
    {
        match self {
            UpdateError::UnknownTool(t) => "Unknown tool: ".to_owned().concat(t.as_str()),
            UpdateError::ChecksumMismatch {
                expected,
                actual,
            } => "Checksum mismatch: expected ".to_owned().concat(expected.as_str()).concat(
                ", got ",
            ).concat(actual.as_str()),
        }
    }
}

/// The SHA-256 digest of data, as `sha2::Sha256` computes it.
pub uninterp spec fn sha256_of(data: Seq<u8>) -> Seq<u8>;

/// The lower-case hexadecimal digit of a value below sixteen.
pub open spec fn hex_digit(v: int) -> char {
    if v == 0 {
        '0'
    } else if v == 1 {
        '1'
    } else if v == 2 {
        '2'
    } else if v == 3 {
        '3'
    } else if v == 4 {
        '4'
    } else if v == 5 {
        '5'
    } else if v == 6 {
        '6'
    } else if v == 7 {
        '7'
    } else if v == 8 {
        '8'
    } else if v == 9 {
        '9'
    } else if v == 10 {
        'a'
    } else if v == 11 {
        'b'
    } else if v == 12 {
        'c'
    } else if v == 13 {
        'd'
    } else if v == 14 {
        'e'
    } else {
        'f'
    }
}

/// Bytes written as lower-case hexadecimal, two digits a byte.
pub open spec fn hex_of(bytes: Seq<u8>) -> Seq<char> {
    Seq::new(
        2 * bytes.len(),
        |i: int|
            if i % 2 == 0 {
                hex_digit(bytes[i / 2] as int / 16)
            } else {
                hex_digit(bytes[i / 2] as int % 16)
            },
    )
}

/// `sha2::Sha256::digest`: the SHA-256 digest of the data.
#[verifier::external_body]
pub(crate) fn sha256(data: &Vec<u8>) -> (digest: Vec<u8>)
    ensures
        digest@ == sha256_of(data@),
{
    <sha2::Sha256 as sha2::Digest>::digest(data.as_slice()).to_vec()
}

/// `hex::encode`: the bytes in lower-case hexadecimal, two digits a byte.
#[verifier::external_body]
pub(crate) fn hex_encode(bytes: &Vec<u8>) -> (text: String)
    ensures
        text@ == hex_of(bytes@),
{
    hex::encode(bytes)
}

/// The SHA-256 digest of data, in lower-case hexadecimal.
pub fn compute_sha256(data: &Vec<u8>) -> (text: String)
    ensures
        text@ == hex_of(sha256_of(data@)),
{
    let digest = sha256(data);
    hex_encode(&digest)
}

/// Whether a download with the given checksum is the one that the manifest
/// entry describes.
pub fn verify_checksum(entry: &ToolManifestEntry, actual: String) -> (r: Result<(), UpdateError>)
    ensures
        match r {
            Ok(_) => actual@ == entry.sha256@,
            Err(e) => actual@ != entry.sha256@ && e == (UpdateError::ChecksumMismatch {
                expected: e->ChecksumMismatch_expected,
                actual,
            }) && e->ChecksumMismatch_expected@ == entry.sha256@,
        },
{
    if same_text(actual.as_str(), entry.sha256.as_str()) {
        Ok(())
    } else {
        Err(UpdateError::ChecksumMismatch { expected: entry.sha256.clone(), actual })
    }
}

/// The tool manager: where tools are looked for and kept.
pub struct ToolManager {
    config: ToolManagerConfig,
    app_dirs: AppDirs,
}

impl ToolManager {
    /// A tool manager for the given settings. Where the settings name no
    /// directory for updated tools, the application's tools directory is
    /// used.
    pub fn new(config: ToolManagerConfig, app_dirs: AppDirs) -> (m: Self)
        ensures
            m.config().bundled_dir == config.bundled_dir,
            m.config().manifest_url == config.manifest_url,
            m.config().version_timeout == config.version_timeout,
            m.config().updated_dir@ == (if config.updated_dir@.len() == 0 {
                app_dirs.tools@
            } else {
                config.updated_dir@
            }),
            m.dirs() == app_dirs,
    {
        let empty = config.updated_dir.as_str().unicode_len() == 0;
        let updated_dir = if empty {
            app_dirs.tools.clone()
        } else {
            config.updated_dir
        };
        ToolManager {
            config: ToolManagerConfig {
                bundled_dir: config.bundled_dir,
                updated_dir,
                manifest_url: config.manifest_url,
                version_timeout: config.version_timeout,
            },
            app_dirs,
        }
    }

    pub closed spec fn config(&self) -> ToolManagerConfig {
        self.config
    }

    pub closed spec fn dirs(&self) -> AppDirs {
        self.app_dirs
    }

    /// The directory in which updated tools are kept.
    pub fn tools_dir(&self) -> (d: &str)
        ensures
            d@ == self.config().updated_dir@,
    {
        self.config.updated_dir.as_str()
    }

    /// The places where a tool is looked for before `PATH`, in order of
    /// preference: among the updated tools, then among the bundled ones.
    pub open spec fn places(&self, tool: Tool, windows: bool) -> Seq<Seq<char>> {
        let name = if windows {
            tool.windows_name()
        } else {
            tool.name()
        };
        seq![joined(self.config().updated_dir@, name)] + (match self.config().bundled_dir {
            Some(d) => seq![joined(d@, name)],
            None => Seq::empty(),
        })
    }

    pub fn tool_places(&self, tool: Tool, windows: bool) -> (v: Vec<String>)
        ensures
            strings(v@) == self.places(tool, windows),
    {
        let name = tool.binary_name_on(windows);
        let mut v: Vec<String> = Vec::new();
        v.push(join_path(self.config.updated_dir.as_str(), name));
        match &self.config.bundled_dir {
            Some(d) => {
                v.push(join_path(d.as_str(), name));
            },
            None => {},
        }
        proof {
            assert(strings(v@) =~= self.places(tool, windows));
        }
        v
    }

    /// The best place of a tool: the first of the candidates that is there
    /// and healthy. The candidates are given in order of preference: the
    /// updated tool, the bundled tool, what `PATH` holds.
    pub fn find_tool(&self, candidates: &Vec<Candidate>) -> (r: Option<String>)
        ensures
            opt_view(r) == first_existing(candidates@, 0),
    {
        crate::download_manager::config::find_ffmpeg_binary(candidates)
    }

    /// What is known of a tool, given where it was found (if anywhere), the
    /// version read from it and the instant of the check.
    pub fn get_tool_info(&self, tool: Tool, path: Option<String>, version: Option<String>, now: i64) -> (info:
        ToolInfo)
        ensures
            info.tool == tool,
            info.last_checked == Some(now),
            match path {
                Some(p) => {
                    &&& info.path == p
                    &&& info.version == version
                    &&& info.status == ToolStatus::Healthy
                    &&& info.is_bundled == (match self.config().bundled_dir {
                        Some(d) => lies_in(p@, d@),
                        None => false,
                    })
                },
                None => {
                    &&& info.path@.len() == 0
                    &&& info.version is None
                    &&& info.status == ToolStatus::Missing
                    &&& !info.is_bundled
                },
            },
    {
        match path {
            Some(p) => {
                let is_bundled = match &self.config.bundled_dir {
                    Some(d) => path_lies_in(p.as_str(), d.as_str()),
                    None => false,
                };
                ToolInfo {
                    tool,
                    path: p,
                    version,
                    status: ToolStatus::Healthy,
                    is_bundled,
                    last_checked: Some(now),
                }
            },
            None => ToolInfo {
                tool,
                path: String::new(),
                version: None,
                status: ToolStatus::Missing,
                is_bundled: false,
                last_checked: Some(now),
            },
        }
    }

    /// The tools at a glance, given what is known of each.
    pub fn get_toolchain_status(&self, yt_dlp: ToolInfo, ffmpeg: ToolInfo, ffprobe: ToolInfo) -> (s:
        ToolchainStatus)
        ensures
            s.yt_dlp == Some(yt_dlp),
            s.ffmpeg == Some(ffmpeg),
            s.ffprobe == Some(ffprobe),
            s.overall_status == overall(yt_dlp.status, ffmpeg.status),
    {
        let overall_status = match (yt_dlp.status, ffmpeg.status) {
            (ToolStatus::Missing, _) => ToolStatus::Missing,
            (ToolStatus::Broken, _) => ToolStatus::Broken,
            (_, ToolStatus::Broken) => ToolStatus::Broken,
            (ToolStatus::Outdated, _) => ToolStatus::Outdated,
            (_, ToolStatus::Outdated) => ToolStatus::Outdated,
            _ => ToolStatus::Healthy,
        };
        ToolchainStatus {
            yt_dlp: Some(yt_dlp),
            ffmpeg: Some(ffmpeg),
            ffprobe: Some(ffprobe),
            overall_status,
        }
    }

    /// The paths through which an update of the tool that a manifest entry
    /// names passes.
    pub fn update_tool(&self, entry: &ToolManifestEntry, windows: bool) -> (r: Result<
        UpdatePaths,
        UpdateError,
    >)
        ensures
            match r {
                Ok(paths) => match Tool::named(entry.tool@) {
                    Some(tool) => {
                        let name = if windows {
                            tool.windows_name()
                        } else {
                            tool.name()
                        };
                        &&& paths.temp@ == joined(self.dirs().tmp@, name + ".download"@)
                        &&& paths.target@ == joined(self.config().updated_dir@, name)
                        &&& paths.backup@ == joined(self.config().updated_dir@, backup_name(name))
                    },
                    None => false,
                },
                Err(e) => Tool::named(entry.tool@) is None && e is UnknownTool
                    && e->UnknownTool_0@ == entry.tool@,
            },
    {
        let tool = match Tool::from_name(entry.tool.as_str()) {
            Some(t) => t,
            None => {
                return Err(UpdateError::UnknownTool(entry.tool.clone()));
            },
        };
        let name = tool.binary_name_on(windows);
        let download_name = name.to_owned().concat(".download");
        let nc = to_chars(name);
        let dot: usize = crate::text::skip_back(&nc, CharClass::Except('.'), nc.len());
        let backup = if dot <= 1 {
            name.to_owned().concat(".bak")
        } else {
            name.substring_char(0, dot - 1).to_owned().concat(".bak")
        };
        Ok(
            UpdatePaths {
                temp: join_path(self.app_dirs.tmp.as_str(), download_name.as_str()),
                target: join_path(self.config.updated_dir.as_str(), name),
                backup: join_path(self.config.updated_dir.as_str(), backup.as_str()),
            },
        )
    }

    /// Where the updated copy of a tool is, to be removed when the tool is
    /// reset to the bundled one.
    pub fn reset_to_bundled(&self, tool: Tool, windows: bool) -> (path: String)
        ensures
            path@ == joined(
                self.config().updated_dir@,
                if windows {
                    tool.windows_name()
                } else {
                    tool.name()
                },
            ),
    {
        join_path(self.config.updated_dir.as_str(), tool.binary_name_on(windows))
    }
}

/// A builder of tool manager settings.
pub struct ToolManagerConfigBuilder {
    config: ToolManagerConfig,
}

impl ToolManagerConfigBuilder {
    pub closed spec fn view(&self) -> ToolManagerConfig {
        self.config
    }

    pub fn new() -> (b: Self)
        ensures
            b.view().is_default(),
    {
        ToolManagerConfigBuilder { config: ToolManagerConfig::default() }
    }

    pub fn bundled_dir(self, path: String) -> (b: Self)
        ensures
            b.view() == (ToolManagerConfig { bundled_dir: Some(path), ..self.view() }),
    {
        let mut b = self;
        b.config.bundled_dir = Some(path);
        b
    }

    pub fn updated_dir(self, path: String) -> (b: Self)
        ensures
            b.view() == (ToolManagerConfig { updated_dir: path, ..self.view() }),
    {
        let mut b = self;
        b.config.updated_dir = path;
        b
    }

    pub fn manifest_url(self, url: String) -> (b: Self)
        ensures
            b.view() == (ToolManagerConfig { manifest_url: Some(url), ..self.view() }),
    {
        let mut b = self;
        b.config.manifest_url = Some(url);
        b
    }

    pub fn version_timeout(self, timeout: u64) -> (b: Self)
        ensures
            b.view() == (ToolManagerConfig { version_timeout: timeout, ..self.view() }),
    {
        let mut b = self;
        b.config.version_timeout = timeout;
        b
    }

    pub fn build(self) -> (c: ToolManagerConfig)
        ensures
            c == self.view(),
    {
        self.config
    }
}

impl Default for ToolManagerConfigBuilder {
    fn default() -> (b: Self)
        ensures
            b.view().is_default(),
    {
        Self::new()
    }
}

} // verus!
