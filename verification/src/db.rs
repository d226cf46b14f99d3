//! The persisted shape of a download: its status and kind as the store
//! spells them, a stored row, the layout of the application's directories
//! and the schema migration decision. The store itself is not here.

use crate::decimal::{int_of, parse_int, Percent};
use crate::text::{same_text, to_chars};
use vstd::prelude::*;
use vstd::string::*;

verus! {

/// The schema version that this code reads and writes.
pub const SCHEMA_VERSION: i64 = 1;

/// The lifecycle status of a download as the store holds it.
#[derive(Debug, Clone, Copy, PartialEq, Eq, Structural)]
pub enum DownloadStatus {
    Queued,
    Fetching,
    Ready,
    Downloading,
    PostProcessing,
    Stopped,
    Done,
    Failed,
    Canceled,
}

impl DownloadStatus {
    /// How the store spells this status.
    pub open spec fn name(self) -> Seq<char> {
        match self {
            DownloadStatus::Queued => "queued"@,
            DownloadStatus::Fetching => "fetching"@,
            DownloadStatus::Ready => "ready"@,
            DownloadStatus::Downloading => "downloading"@,
            DownloadStatus::PostProcessing => "postprocessing"@,
            DownloadStatus::Stopped => "stopped"@,
            DownloadStatus::Done => "done"@,
            DownloadStatus::Failed => "failed"@,
            DownloadStatus::Canceled => "canceled"@,
        }
    }

    /// The status that the store spells as `s`.
    pub open spec fn named(s: Seq<char>) -> Option<DownloadStatus> {
        if s == "queued"@ {
            Some(DownloadStatus::Queued)
        } else if s == "fetching"@ {
            Some(DownloadStatus::Fetching)
        } else if s == "ready"@ {
            Some(DownloadStatus::Ready)
        } else if s == "downloading"@ {
            Some(DownloadStatus::Downloading)
        } else if s == "postprocessing"@ {
            Some(DownloadStatus::PostProcessing)
        } else if s == "stopped"@ {
            Some(DownloadStatus::Stopped)
        } else if s == "done"@ {
            Some(DownloadStatus::Done)
        } else if s == "failed"@ {
            Some(DownloadStatus::Failed)
        } else if s == "canceled"@ {
            Some(DownloadStatus::Canceled)
        } else {
            None
        }
    }

    /// Whether a download in this status may be started.
    pub open spec fn startable(self) -> bool {
        self == DownloadStatus::Queued || self == DownloadStatus::Ready || self
            == DownloadStatus::Stopped
    }

    pub fn as_str(self) -> (r: &'static str)
        ensures
            r@ == self.name(),
    {
        match self {
            DownloadStatus::Queued => "queued",
            DownloadStatus::Fetching => "fetching",
            DownloadStatus::Ready => "ready",
            DownloadStatus::Downloading => "downloading",
            DownloadStatus::PostProcessing => "postprocessing",
            DownloadStatus::Stopped => "stopped",
            DownloadStatus::Done => "done",
            DownloadStatus::Failed => "failed",
            DownloadStatus::Canceled => "canceled",
        }
    }

    pub fn from_str(s: &str) -> (r: Option<Self>)
        ensures
            r == Self::named(s@),
    {
        if same_text(s, "queued") {
            Some(DownloadStatus::Queued)
        } else if same_text(s, "fetching") {
            Some(DownloadStatus::Fetching)
        } else if same_text(s, "ready") {
            Some(DownloadStatus::Ready)
        } else if same_text(s, "downloading") {
            Some(DownloadStatus::Downloading)
        } else if same_text(s, "postprocessing") {
            Some(DownloadStatus::PostProcessing)
        } else if same_text(s, "stopped") {
            Some(DownloadStatus::Stopped)
        } else if same_text(s, "done") {
            Some(DownloadStatus::Done)
        } else if same_text(s, "failed") {
            Some(DownloadStatus::Failed)
        } else if same_text(s, "canceled") {
            Some(DownloadStatus::Canceled)
        } else {
            None
        }
    }

    /// Whether a download in this status may be started.
    pub fn is_startable(self) -> (b: bool)
        ensures
            b == self.startable(),
    {
        match self {
            DownloadStatus::Queued | DownloadStatus::Ready | DownloadStatus::Stopped => true,
            _ => false,
        }
    }
}

/// Reading back the spelling of a status gives the status.
pub proof fn lemma_status_round_trip(status: DownloadStatus)
    ensures
        DownloadStatus::named(status.name()) == Some(status),
{
    reveal_strlit("queued");
    reveal_strlit("fetching");
    reveal_strlit("ready");
    reveal_strlit("downloading");
    reveal_strlit("postprocessing");
    reveal_strlit("stopped");
    reveal_strlit("done");
    reveal_strlit("failed");
    reveal_strlit("canceled");
    assert("queued"@.len() == 6 && "fetching"@.len() == 8 && "ready"@.len() == 5);
    assert("downloading"@.len() == 11 && "postprocessing"@.len() == 14);
    assert("stopped"@.len() == 7 && "done"@.len() == 4);
    assert("failed"@.len() == 6 && "canceled"@.len() == 8);
    assert("queued"@[0] == 'q' && "failed"@[0] == 'f');
    assert("fetching"@[0] == 'f' && "canceled"@[0] == 'c');
}

/// What kind of node a download is in the queue.
#[derive(Debug, Clone, Copy, PartialEq, Eq, Structural)]
pub enum SourceKind {
    Single,
    PlaylistParent,
    PlaylistItem,
}

impl SourceKind {
    /// How the store spells this kind.
    pub open spec fn name(self) -> Seq<char> {
        match self {
            SourceKind::Single => "single"@,
            SourceKind::PlaylistParent => "playlist_parent"@,
            SourceKind::PlaylistItem => "playlist_item"@,
        }
    }

    /// The kind that the store spells as `s`.
    pub open spec fn named(s: Seq<char>) -> Option<SourceKind> {
        if s == "single"@ {
            Some(SourceKind::Single)
        } else if s == "playlist_parent"@ {
            Some(SourceKind::PlaylistParent)
        } else if s == "playlist_item"@ {
            Some(SourceKind::PlaylistItem)
        } else {
            None
        }
    }

    pub fn as_str(self) -> (r: &'static str)
        ensures
            r@ == self.name(),
    {
        match self {
            SourceKind::Single => "single",
            SourceKind::PlaylistParent => "playlist_parent",
            SourceKind::PlaylistItem => "playlist_item",
        }
    }

    pub fn from_str(s: &str) -> (r: Option<Self>)
        ensures
            r == Self::named(s@),
    {
        if same_text(s, "single") {
            Some(SourceKind::Single)
        } else if same_text(s, "playlist_parent") {
            Some(SourceKind::PlaylistParent)
        } else if same_text(s, "playlist_item") {
            Some(SourceKind::PlaylistItem)
        } else {
            None
        }
    }
}

/// Reading back the spelling of a kind gives the kind.
pub proof fn lemma_kind_round_trip(kind: SourceKind)
    ensures
        SourceKind::named(kind.name()) == Some(kind),
{
    reveal_strlit("single");
    reveal_strlit("playlist_parent");
    reveal_strlit("playlist_item");
    assert("single"@.len() == 6 && "playlist_parent"@.len() == 15 && "playlist_item"@.len()
        == 13);
}

/// A stored download. Identifiers are 128-bit numbers, instants are
/// milliseconds since the Unix epoch.
#[derive(Debug, Clone)]
pub struct DownloadRow {
    pub id: u128,
    pub created_at: i64,
    pub updated_at: i64,
    pub source_url: String,
    pub source_kind: SourceKind,
    pub parent_id: Option<u128>,
    pub title: Option<String>,
    pub uploader: Option<String>,
    pub duration_seconds: Option<i64>,
    pub thumbnail_url: Option<String>,
    pub status: DownloadStatus,
    pub phase: Option<String>,
    pub preset_id: String,
    pub output_dir: String,
    pub final_path: Option<String>,
    pub progress_percent: Option<Percent>,
    pub bytes_downloaded: Option<i64>,
    pub bytes_total: Option<i64>,
    pub speed_bps: Option<i64>,
    pub eta_seconds: Option<i64>,
    pub error_code: Option<String>,
    pub error_message: Option<String>,
}

/// The columns of a stored download as the store hands them out, before
/// they are checked.
#[derive(Debug, Clone)]
pub struct RawDownloadRow {
    pub id: String,
    pub created_at: String,
    pub updated_at: String,
    pub source_url: String,
    pub source_kind: String,
    pub parent_id: Option<String>,
    pub title: Option<String>,
    pub uploader: Option<String>,
    pub duration_seconds: Option<i64>,
    pub thumbnail_url: Option<String>,
    pub status: String,
    pub phase: Option<String>,
    pub preset_id: String,
    pub output_dir: String,
    pub final_path: Option<String>,
    pub progress_percent: Option<Percent>,
    pub bytes_downloaded: Option<i64>,
    pub bytes_total: Option<i64>,
    pub speed_bps: Option<i64>,
    pub eta_seconds: Option<i64>,
    pub error_code: Option<String>,
    pub error_message: Option<String>,
}

/// The number that the text of a UUID stands for, as `uuid::Uuid::parse_str`
/// reads it.
pub uninterp spec fn uuid_of(s: Seq<char>) -> Option<u128>;

/// The instant, in milliseconds since the Unix epoch, that an RFC 3339
/// timestamp names, as `chrono::DateTime::parse_from_rfc3339` reads it.
pub uninterp spec fn rfc3339_millis_of(s: Seq<char>) -> Option<i64>;

/// `uuid::Uuid::parse_str`, then `Uuid::as_u128`: the 128-bit value of a
/// UUID given as text, or `None` where the text is no UUID.
#[verifier::external_body]
pub(crate) fn parse_uuid(s: &str) -> (r: Option<u128>)
    ensures
        r == uuid_of(s@),
{
    match uuid::Uuid::parse_str(s) {
        Ok(u) => Some(u.as_u128()),
        Err(_) => None,
    }
}

/// `chrono::DateTime::parse_from_rfc3339`, then `timestamp_millis`: the
/// instant that the text names, or `None` where the text is no RFC 3339
/// timestamp.
#[verifier::external_body]
pub(crate) fn parse_rfc3339_millis(s: &str) -> (r: Option<i64>)
    ensures
        r == rfc3339_millis_of(s@),
{
    match chrono::DateTime::parse_from_rfc3339(s) {
        Ok(d) => Some(d.timestamp_millis()),
        Err(_) => None,
    }
}

/// Whether the columns of a raw row are all well formed, given what its
/// identifiers and instants were read as.
pub open spec fn row_is_valid(
    raw: RawDownloadRow,
    id: Option<u128>,
    created_at: Option<i64>,
    updated_at: Option<i64>,
    parent_id: Option<Option<u128>>,
) -> bool {
    &&& id is Some
    &&& created_at is Some
    &&& updated_at is Some
    &&& SourceKind::named(raw.source_kind@) is Some
    &&& parent_id is Some
    &&& DownloadStatus::named(raw.status@) is Some
}

/// What the identifier column of a parent was read as: no parent, a parent,
/// or (the outer `None`) text that is no identifier.
pub open spec fn parent_of(raw: Option<String>) -> Option<Option<u128>> {
    match raw {
        None => Some(None),
        Some(s) => match uuid_of(s@) {
            Some(p) => Some(Some(p)),
            None => None,
        },
    }
}

/// The row that checked columns make.
pub open spec fn row_of(
    raw: RawDownloadRow,
    id: u128,
    created_at: i64,
    updated_at: i64,
    parent_id: Option<u128>,
) -> DownloadRow {
    DownloadRow {
        id,
        created_at,
        updated_at,
        source_url: raw.source_url,
        source_kind: SourceKind::named(raw.source_kind@)->0,
        parent_id,
        title: raw.title,
        uploader: raw.uploader,
        duration_seconds: raw.duration_seconds,
        thumbnail_url: raw.thumbnail_url,
        status: DownloadStatus::named(raw.status@)->0,
        phase: raw.phase,
        preset_id: raw.preset_id,
        output_dir: raw.output_dir,
        final_path: raw.final_path,
        progress_percent: raw.progress_percent,
        bytes_downloaded: raw.bytes_downloaded,
        bytes_total: raw.bytes_total,
        speed_bps: raw.speed_bps,
        eta_seconds: raw.eta_seconds,
        error_code: raw.error_code,
        error_message: raw.error_message,
    }
}

/// A stored row whose columns do not make a download.
#[derive(Debug, Clone, Copy, PartialEq, Eq, Structural)]
pub enum RowError {
    InvalidQuery,
}

/// The download that raw columns make, once its identifiers and instants
/// have been read: all columns are carried over, kind and status are read
/// from their spelling, and a column that is not well formed makes the row
/// invalid.
pub fn checked_row(
    raw: RawDownloadRow,
    id: Option<u128>,
    created_at: Option<i64>,
    updated_at: Option<i64>,
    parent_id: Option<Option<u128>>,
) -> (r: Result<DownloadRow, RowError>)
    ensures
        match r {
            Ok(row) => row_is_valid(raw, id, created_at, updated_at, parent_id) && row == row_of(
                raw,
                id->0,
                created_at->0,
                updated_at->0,
                parent_id->0,
            ),
            Err(_) => !row_is_valid(raw, id, created_at, updated_at, parent_id),
        },
{
    let id = match id {
        Some(v) => v,
        None => {
            return Err(RowError::InvalidQuery);
        },
    };
    let created_at = match created_at {
        Some(v) => v,
        None => {
            return Err(RowError::InvalidQuery);
        },
    };
    let updated_at = match updated_at {
        Some(v) => v,
        None => {
            return Err(RowError::InvalidQuery);
        },
    };
    let source_kind = match SourceKind::from_str(raw.source_kind.as_str()) {
        Some(v) => v,
        None => {
            return Err(RowError::InvalidQuery);
        },
    };
    let parent_id = match parent_id {
        Some(v) => v,
        None => {
            return Err(RowError::InvalidQuery);
        },
    };
    let status = match DownloadStatus::from_str(raw.status.as_str()) {
        Some(v) => v,
        None => {
            return Err(RowError::InvalidQuery);
        },
    };
    Ok(
        DownloadRow {
            id,
            created_at,
            updated_at,
            source_url: raw.source_url,
            source_kind,
            parent_id,
            title: raw.title,
            uploader: raw.uploader,
            duration_seconds: raw.duration_seconds,
            thumbnail_url: raw.thumbnail_url,
            status,
            phase: raw.phase,
            preset_id: raw.preset_id,
            output_dir: raw.output_dir,
            final_path: raw.final_path,
            progress_percent: raw.progress_percent,
            bytes_downloaded: raw.bytes_downloaded,
            bytes_total: raw.bytes_total,
            speed_bps: raw.speed_bps,
            eta_seconds: raw.eta_seconds,
            error_code: raw.error_code,
            error_message: raw.error_message,
        },
    )
}

/// The download that the raw columns of a stored row make. Identifiers are
/// read as UUIDs and instants as RFC 3339 timestamps.
pub fn row_to_download(raw: RawDownloadRow) -> (r: Result<DownloadRow, RowError>)
    ensures
        match r {
            Ok(row) => row_is_valid(
                raw,
                uuid_of(raw.id@),
                rfc3339_millis_of(raw.created_at@),
                rfc3339_millis_of(raw.updated_at@),
                parent_of(raw.parent_id),
            ) && row == row_of(
                raw,
                uuid_of(raw.id@)->0,
                rfc3339_millis_of(raw.created_at@)->0,
                rfc3339_millis_of(raw.updated_at@)->0,
                parent_of(raw.parent_id)->0,
            ),
            Err(_) => !row_is_valid(
                raw,
                uuid_of(raw.id@),
                rfc3339_millis_of(raw.created_at@),
                rfc3339_millis_of(raw.updated_at@),
                parent_of(raw.parent_id),
            ),
        },
{
    let id = parse_uuid(raw.id.as_str());
    let created_at = parse_rfc3339_millis(raw.created_at.as_str());
    let updated_at = parse_rfc3339_millis(raw.updated_at.as_str());
    let parent_id = match &raw.parent_id {
        None => Some(None),
        Some(s) => match parse_uuid(s.as_str()) {
            Some(p) => Some(Some(p)),
            None => None,
        },
    };
    checked_row(raw, id, created_at, updated_at, parent_id)
}

/// Why the application's directories cannot be laid out.
#[derive(Debug, Clone, Copy, PartialEq, Eq, Structural)]
pub enum DirError {
    /// The per-user data directory could not be resolved.
    Unresolved,
}

impl DirError {
    pub fn message(self) -> (m: String)
        ensures
            m@ == "failed to resolve per-user app data directory"@,
    {
        "failed to resolve per-user app data directory".to_owned()
    }
}

/// The directories in which the application keeps its state.
#[derive(Debug, Clone)]
pub struct AppDirs {
    pub data: String,
    pub logs: String,
    pub tools: String,
    pub tmp: String,
}

/// `name` inside the directory `base`: the two joined by one `/`, unless
/// `base` is empty or already ends in one.
pub open spec fn joined(base: Seq<char>, name: Seq<char>) -> Seq<char> {
    if base.len() == 0 || base.last() == '/' {
        base + name
    } else {
        base + seq!['/'] + name
    }
}

pub fn join_path(base: &str, name: &str) -> (r: String)
    ensures
        r@ == joined(base@, name@),
{
    let bc = to_chars(base);
    proof {
        reveal_strlit("/");
        assert("/"@ =~= seq!['/']);
    }
    if bc.len() == 0 || bc[bc.len() - 1] == '/' {
        base.to_owned().concat(name)
    } else {
        base.to_owned().concat("/").concat(name)
    }
}

/// The directory where the application keeps its state, given the per-user
/// data directory that the platform resolved (if it did).
pub fn app_data_dir(resolved: Option<&str>) -> (r: Result<String, DirError>)
    ensures
        match resolved {
            Some(d) => r is Ok && r->Ok_0@ == d@,
            None => r == Err::<String, DirError>(DirError::Unresolved),
        },
{
    match resolved {
        Some(d) => Ok(d.to_owned()),
        None => Err(DirError::Unresolved),
    }
}

/// The path of the database file.
pub fn db_path(resolved: Option<&str>) -> (r: Result<String, DirError>)
    ensures
        match resolved {
            Some(d) => r is Ok && r->Ok_0@ == joined(d@, "downlink.sqlite3"@),
            None => r == Err::<String, DirError>(DirError::Unresolved),
        },
{
    match resolved {
        Some(d) => Ok(join_path(d, "downlink.sqlite3")),
        None => Err(DirError::Unresolved),
    }
}

/// The directories that state storage needs: data, logs, tools and tmp.
/// Creating them is the caller's part.
pub fn app_dirs(resolved: Option<&str>) -> (r: Result<AppDirs, DirError>)
    ensures
        match resolved {
            Some(d) => r is Ok && r->Ok_0.data@ == d@ && r->Ok_0.logs@ == joined(d@, "logs"@)
                && r->Ok_0.tools@ == joined(d@, "tools"@) && r->Ok_0.tmp@ == joined(d@, "tmp"@),
            None => r == Err::<AppDirs, DirError>(DirError::Unresolved),
        },
{
    match resolved {
        Some(d) => Ok(
            AppDirs {
                data: d.to_owned(),
                logs: join_path(d, "logs"),
                tools: join_path(d, "tools"),
                tmp: join_path(d, "tmp"),
            },
        ),
        None => Err(DirError::Unresolved),
    }
}

/// What a store at some schema version needs before it can be used.
#[derive(Debug, Clone, Copy, PartialEq, Eq, Structural)]
pub enum MigrationPlan {
    /// The schema is current.
    UpToDate,
    /// The first schema has to be created and its version recorded.
    CreateSchema,
}

/// A store written by a newer version of the application.
#[derive(Debug, Clone, Copy, PartialEq, Eq, Structural)]
pub struct SchemaTooNew {
    pub found: i64,
    pub supported: i64,
}

/// The schema version that a stored value states: the number it writes, or
/// zero where there is none or it is no number.
pub open spec fn stored_version(existing: Option<Seq<char>>) -> i64 {
    match existing {
        Some(s) => match int_of(s) {
            Some(v) => v,
            None => 0,
        },
        None => 0,
    }
}

/// The migration that a store needs, given the schema version it records.
pub open spec fn plan_for(version: i64) -> Result<MigrationPlan, SchemaTooNew> {
    if version > SCHEMA_VERSION {
        Err(SchemaTooNew { found: version, supported: SCHEMA_VERSION })
    } else if version == 0 {
        Ok(MigrationPlan::CreateSchema)
    } else {
        Ok(MigrationPlan::UpToDate)
    }
}

pub fn migrate(existing: Option<&str>) -> (r: Result<MigrationPlan, SchemaTooNew>)
    ensures
        r == plan_for(
            stored_version(
                match existing {
                    Some(s) => Some(s@),
                    None => None,
                },
            ),
        ),
{
    let version: i64 = match existing {
        Some(s) => {
            let cs = to_chars(s);
            match parse_int(&cs) {
                Some(v) => v,
                None => 0,
            }
        },
        None => 0,
    };
    if version > SCHEMA_VERSION {
        Err(SchemaTooNew { found: version, supported: SCHEMA_VERSION })
    } else if version == 0 {
        Ok(MigrationPlan::CreateSchema)
    } else {
        Ok(MigrationPlan::UpToDate)
    }
}

} // verus!
