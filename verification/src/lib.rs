//! Supervision of media downloads that an external extraction tool performs:
//! line parsers for its progress output, failure classification, the per-job
//! executor state machine and the concurrency-limited scheduler.

pub mod db;
pub mod decimal;
pub mod download_manager;
pub mod events;
pub mod json;
pub mod models;
pub mod parse_laws;
pub mod pattern;
pub mod settings;
pub mod text;
pub mod tool_manager;
pub mod url_utils;
pub mod ytdlp;

use crate::db::{DownloadRow, SourceKind};
use crate::decimal::Percent;
use crate::download_manager::preset::{builtin, preset_views, Preset};
use crate::events::opt_view;
use crate::text::{same_text, strings};
use crate::tool_manager::ToolManifestEntry;
use crate::url_utils::{extract_urls, urls_of};
use crate::ytdlp::PreviewMetadata;
use vstd::prelude::*;
use vstd::string::*;

verus! {

/// What adding URLs came to: the identifiers of the new downloads and the
/// URLs they are for, in matching order.
#[derive(Debug, Clone)]
pub struct AddUrlsResult {
    pub ids: Vec<u128>,
    pub urls: Vec<String>,
}

/// How URLs are to be added.
#[derive(Debug, Clone)]
pub struct AddUrlsOptions {
    pub preset_id: String,
    pub output_dir: String,
    pub parent_id: Option<u128>,
    pub source_kind: Option<String>,
    pub title: Option<String>,
    pub uploader: Option<String>,
    pub thumbnail_url: Option<String>,
    pub duration_seconds: Option<i64>,
}

/// How metadata is to be fetched.
#[derive(Debug, Clone)]
pub struct FetchMetadataOptions {
    pub preset_id: String,
    pub output_dir: String,
}

/// What fetching metadata came to.
#[derive(Debug, Clone)]
pub struct FetchMetadataResult {
    pub id: u128,
    pub url: String,
    pub is_playlist: bool,
    pub title: Option<String>,
    pub uploader: Option<String>,
    pub duration_seconds: Option<u64>,
    pub thumbnail_url: Option<String>,
    pub filesize_bytes: Option<u64>,
    pub playlist_title: Option<String>,
    pub playlist_count_hint: Option<u64>,
}

/// What expanding a playlist came to.
#[derive(Debug, Clone)]
pub struct ExpandPlaylistResult {
    pub parent_id: u128,
    pub item_ids: Vec<u128>,
    pub count: usize,
}

/// How a playlist is to be expanded.
#[derive(Debug, Clone)]
pub struct ExpandPlaylistOptions {
    pub preset_id: String,
    pub output_dir: String,
}

/// A download as the queue and the history show it.
#[derive(Debug, Clone)]
pub struct QueueItem {
    pub id: u128,
    pub source_url: String,
    pub title: Option<String>,
    pub uploader: Option<String>,
    pub thumbnail_url: Option<String>,
    pub status: String,
    pub phase: Option<String>,
    pub progress_percent: Option<Percent>,
    pub speed_bps: Option<i64>,
    pub eta_seconds: Option<i64>,
    pub preset_id: String,
    pub output_dir: String,
    pub final_path: Option<String>,
    pub error_message: Option<String>,
}

/// A preset as the interface lists it.
#[derive(Debug, Clone)]
pub struct PresetInfo {
    pub id: String,
    pub name: String,
}

/// Whether an update of the application is to be had.
#[derive(Debug, Clone)]
pub struct AppUpdateInfo {
    pub available: bool,
    pub current_version: String,
    pub latest_version: Option<String>,
    pub release_notes: Option<String>,
    pub download_url: Option<String>,
}

/// How many downloads the history shows unless asked otherwise.
pub const DEFAULT_HISTORY_LIMIT: u32 = 100;

/// The kind of the downloads to add, given the hint of the request: a
/// hint that is missing or not known counts as a single download.
pub open spec fn hinted_kind(hint: Option<Seq<char>>) -> SourceKind {
    if hint == Some("playlist_parent"@) {
        SourceKind::PlaylistParent
    } else if hint == Some("playlist_item"@) {
        SourceKind::PlaylistItem
    } else {
        SourceKind::Single
    }
}

pub fn source_kind_for(hint: &Option<String>) -> (kind: SourceKind)
    ensures
        kind == hinted_kind(opt_view(*hint)),
{
    match hint {
        Some(h) => {
            if same_text(h.as_str(), "playlist_parent") {
                SourceKind::PlaylistParent
            } else if same_text(h.as_str(), "playlist_item") {
                SourceKind::PlaylistItem
            } else {
                SourceKind::Single
            }
        },
        None => SourceKind::Single,
    }
}

/// What is to be added for a request: the URLs found in its text, the kind
/// of download they become, and whether the request brings metadata to
/// record with each of them.
#[derive(Debug, Clone)]
pub struct AddUrlsPlan {
    pub urls: Vec<String>,
    pub source_kind: SourceKind,
    pub record_metadata: bool,
}

/// The plan for a request to add URLs. A text without URLs is refused.
pub fn add_urls(urls_text: &str, options: &AddUrlsOptions) -> (r: Result<AddUrlsPlan, String>)
    ensures
        match r {
            Ok(plan) => {
                &&& urls_of(urls_text@).len() > 0
                &&& strings(plan.urls@) == urls_of(urls_text@)
                &&& plan.source_kind == hinted_kind(opt_view(options.source_kind))
                &&& plan.record_metadata == (options.title is Some || options.uploader is Some
                    || options.thumbnail_url is Some)
            },
            Err(e) => urls_of(urls_text@).len() == 0 && e@ == "No valid http(s) URLs found."@,
        },
{
    let urls = extract_urls(urls_text);
    proof {
        assert(strings(urls@).len() == urls.len());
    }
    if urls.len() == 0 {
        return Err("No valid http(s) URLs found.".to_owned());
    }
    Ok(
        AddUrlsPlan {
            urls,
            source_kind: source_kind_for(&options.source_kind),
            record_metadata: options.title.is_some() || options.uploader.is_some()
                || options.thumbnail_url.is_some(),
        },
    )
}

/// The first of the URLs found in a text; the message where there is none.
pub fn first_url(text: &str, message: &str) -> (r: Result<String, String>)
    ensures
        match r {
            Ok(u) => urls_of(text@).len() > 0 && u@ == urls_of(text@)[0],
            Err(e) => urls_of(text@).len() == 0 && e@ == message@,
        },
{
    let mut urls = extract_urls(text);
    proof {
        assert(strings(urls@).len() == urls.len());
    }
    if urls.len() == 0 {
        return Err(message.to_owned());
    }
    proof {
        assert(strings(urls@)[0] == urls@[0]@);
    }
    Ok(urls[0].clone())
}

/// What is handed back for fetched metadata. Nothing is stored at this
/// point, so the identifier is the nil identifier.
pub fn fetch_metadata(meta: PreviewMetadata) -> (r: FetchMetadataResult)
    ensures
        r.id == 0,
        r.url == meta.url,
        r.is_playlist == meta.is_playlist,
        r.title == meta.title,
        r.uploader == meta.uploader,
        r.duration_seconds == meta.duration_seconds,
        r.thumbnail_url == meta.thumbnail_url,
        r.filesize_bytes == meta.filesize_bytes,
        r.playlist_title == meta.playlist_title,
        r.playlist_count_hint == meta.playlist_count_hint,
{
    FetchMetadataResult {
        id: 0,
        url: meta.url,
        is_playlist: meta.is_playlist,
        title: meta.title,
        uploader: meta.uploader,
        duration_seconds: meta.duration_seconds,
        thumbnail_url: meta.thumbnail_url,
        filesize_bytes: meta.filesize_bytes,
        playlist_title: meta.playlist_title,
        playlist_count_hint: meta.playlist_count_hint,
    }
}

/// What is handed back for an expanded playlist.
pub fn expand_playlist(parent_id: u128, item_ids: Vec<u128>) -> (r: ExpandPlaylistResult)
    ensures
        r.parent_id == parent_id,
        r.item_ids == item_ids,
        r.count == item_ids@.len(),
{
    let count = item_ids.len();
    ExpandPlaylistResult { parent_id, item_ids, count }
}

/// Whether a queue item shows a stored download: every field it has is
/// the row's, and its status is the row's as the store spells it.
pub open spec fn shows(item: QueueItem, row: DownloadRow) -> bool {
    &&& item.id == row.id
    &&& item.source_url == row.source_url
    &&& item.title == row.title
    &&& item.uploader == row.uploader
    &&& item.thumbnail_url == row.thumbnail_url
    &&& item.status@ == row.status.name()
    &&& item.phase == row.phase
    &&& item.progress_percent == row.progress_percent
    &&& item.speed_bps == row.speed_bps
    &&& item.eta_seconds == row.eta_seconds
    &&& item.preset_id == row.preset_id
    &&& item.output_dir == row.output_dir
    &&& item.final_path == row.final_path
    &&& item.error_message == row.error_message
}

/// A stored download as the queue shows it.
pub fn queue_item(row: DownloadRow) -> (item: QueueItem)
    ensures
        shows(item, row),
{
    QueueItem {
        id: row.id,
        source_url: row.source_url,
        title: row.title,
        uploader: row.uploader,
        thumbnail_url: row.thumbnail_url,
        status: row.status.as_str().to_owned(),
        phase: row.phase,
        progress_percent: row.progress_percent,
        speed_bps: row.speed_bps,
        eta_seconds: row.eta_seconds,
        preset_id: row.preset_id,
        output_dir: row.output_dir,
        final_path: row.final_path,
        error_message: row.error_message,
    }
}

/// Stored downloads as the queue shows them, in their order.
pub fn get_queue(rows: Vec<DownloadRow>) -> (items: Vec<QueueItem>)
    ensures
        items@.len() == rows@.len(),
        forall|i: int| 0 <= i < items@.len() ==> shows(#[trigger] items@[i], rows@[i]),
{
    let mut rows = rows;
    let ghost all = rows@;
    let mut back: Vec<QueueItem> = Vec::new();
    while rows.len() > 0
        invariant
            rows@ == all.subrange(0, rows.len() as int),
            rows.len() <= all.len(),
            back@.len() + rows.len() == all.len(),
            forall|j: int|
                0 <= j < back@.len() ==> shows(#[trigger] back@[j], all[all.len() - 1 - j]),
        decreases rows.len(),
    {
        let ghost n = rows.len() as int;
        let row = rows.pop().unwrap();
        proof {
            assert(row == all[n - 1]);
            assert(rows@ =~= all.subrange(0, n - 1));
        }
        back.push(queue_item(row));
    }
    let mut items: Vec<QueueItem> = Vec::new();
    let ghost reversed = back@;
    while back.len() > 0
        invariant
            back@ == reversed.subrange(0, back.len() as int),
            back.len() <= reversed.len(),
            items@.len() + back.len() == reversed.len(),
            forall|i: int|
                0 <= i < items@.len() ==> #[trigger] items@[i] == reversed[reversed.len() - 1 - i],
        decreases back.len(),
    {
        let ghost n = back.len() as int;
        let item = back.pop().unwrap();
        proof {
            assert(item == reversed[n - 1]);
            assert(back@ =~= reversed.subrange(0, n - 1));
        }
        items.push(item);
    }
    items
}

/// How many downloads the history shows, given what was asked for.
pub fn get_history(limit: Option<u32>) -> (n: u32)
    ensures
        n == match limit {
            Some(l) => l,
            None => DEFAULT_HISTORY_LIMIT,
        },
{
    match limit {
        Some(l) => l,
        None => DEFAULT_HISTORY_LIMIT,
    }
}

/// The built-in presets as the interface lists them.
pub fn get_presets() -> (v: Vec<PresetInfo>)
    ensures
        v@.len() == builtin().len(),
        forall|i: int|
            0 <= i < v@.len() ==> (#[trigger] v@[i]).id@ == builtin()[i].id && v@[i].name@
                == builtin()[i].name,
{
    let presets = Preset::builtin_presets();
    let mut v: Vec<PresetInfo> = Vec::new();
    let mut i: usize = 0;
    proof {
        assert(preset_views(presets@).len() == presets.len());
    }
    while i < presets.len()
        invariant
            i <= presets.len(),
            preset_views(presets@) == builtin(),
            presets.len() == builtin().len(),
            v@.len() == i,
            forall|j: int|
                0 <= j < i ==> (#[trigger] v@[j]).id@ == builtin()[j].id && v@[j].name@
                    == builtin()[j].name,
        decreases presets.len() - i,
    {
        proof {
            assert(preset_views(presets@)[i as int] == presets@[i as int]@);
        }
        v.push(PresetInfo { id: presets[i].id.clone(), name: presets[i].name.clone() });
        i = i + 1;
    }
    v
}

/// The names of the tools for which updates are due.
pub fn check_for_updates(updates: &Vec<ToolManifestEntry>) -> (names: Vec<String>)
    ensures
        names@.len() == updates@.len(),
        forall|i: int| 0 <= i < names@.len() ==> (#[trigger] names@[i])@ == updates@[i].tool@,
{
    let mut names: Vec<String> = Vec::new();
    let mut i: usize = 0;
    while i < updates.len()
        invariant
            i <= updates.len(),
            names@.len() == i,
            forall|j: int| 0 <= j < i ==> (#[trigger] names@[j])@ == updates@[j].tool@,
        decreases updates.len() - i,
    {
        names.push(updates[i].tool.clone());
        i = i + 1;
    }
    names
}

/// The first of the due updates that is for the named tool; the refusal
/// where there is none.
pub fn update_tool(updates: &Vec<ToolManifestEntry>, tool_name: &str) -> (r: Result<usize, String>)
    ensures
        match r {
            Ok(i) => i < updates@.len() && updates@[i as int].tool@ == tool_name@ && forall|
                j: int,
            | 0 <= j < i ==> (#[trigger] updates@[j]).tool@ != tool_name@,
            Err(e) => e@ == "No update available for "@ + tool_name@ && forall|j: int|
                0 <= j < updates@.len() ==> (#[trigger] updates@[j]).tool@ != tool_name@,
        },
{
    let mut i: usize = 0;
    while i < updates.len()
        invariant
            i <= updates.len(),
            forall|j: int| 0 <= j < i ==> (#[trigger] updates@[j]).tool@ != tool_name@,
        decreases updates.len() - i,
    {
        if same_text(updates[i].tool.as_str(), tool_name) {
            return Ok(i);
        }
        i = i + 1;
    }
    Err("No update available for ".to_owned().concat(tool_name))
}

/// What is known of a path that is to be shown in the file manager.
#[derive(Debug, Clone)]
pub struct PathProbe {
    pub path: String,
    pub is_file: bool,
    pub exists: bool,
    pub parent: Option<String>,
}

/// The folder to open for a path: the folder of a file, the path itself
/// where it is a folder, else the folder above it; where a path that is
/// not there has no folder above it, the download folder, or the root.
pub fn open_folder(probe: &PathProbe, download_dir: Option<&str>) -> (folder: String)
    ensures
        folder@ == (if probe.is_file {
            match probe.parent {
                Some(p) => p@,
                None => probe.path@,
            }
        } else if probe.exists {
            probe.path@
        } else {
            match probe.parent {
                Some(p) => p@,
                None => match download_dir {
                    Some(d) => d@,
                    None => "/"@,
                },
            }
        }),
{
    if probe.is_file {
        match &probe.parent {
            Some(p) => p.clone(),
            None => probe.path.clone(),
        }
    } else if probe.exists {
        probe.path.clone()
    } else {
        match &probe.parent {
            Some(p) => p.clone(),
            None => match download_dir {
                Some(d) => d.to_owned(),
                None => "/".to_owned(),
            },
        }
    }
}

/// What checking for an update of the application found.
#[derive(Debug, Clone)]
pub enum UpdateCheck {
    /// An update, with its version and its notes.
    Found { version: String, notes: Option<String> },
    /// No update.
    UpToDate,
    /// The check could not be made.
    Unavailable,
}

/// Whether an update of the application is to be had, given what the check
/// found. A check that could not be made counts as no update.
pub fn check_app_update(current_version: String, check: UpdateCheck) -> (info: AppUpdateInfo)
    ensures
        info.current_version == current_version,
        info.download_url is None,
        match check {
            UpdateCheck::Found { version, notes } => info.available && info.latest_version == Some(
                version,
            ) && info.release_notes == notes,
            _ => !info.available && info.latest_version is None && info.release_notes is None,
        },
{
    match check {
        UpdateCheck::Found { version, notes } => AppUpdateInfo {
            available: true,
            current_version,
            latest_version: Some(version),
            release_notes: notes,
            download_url: None,
        },
        _ => AppUpdateInfo {
            available: false,
            current_version,
            latest_version: None,
            release_notes: None,
            download_url: None,
        },
    }
}

/// The event that tells the interface that the application is ready.
pub fn emit_app_ready(
    app_version: String,
    yt_dlp_version: Option<String>,
    ffmpeg_version: Option<String>,
) -> (e: crate::events::DownlinkEvent)
    ensures
        e@ == (crate::events::DownlinkEventView::AppReady {
            versions: crate::events::ToolVersionsView {
                app_version: app_version@,
                yt_dlp_version: opt_view(yt_dlp_version),
                ffmpeg_version: opt_view(ffmpeg_version),
            },
        }),
{
    crate::events::DownlinkEvent::AppReady {
        versions: crate::events::ToolVersions { app_version, yt_dlp_version, ffmpeg_version },
    }
}

} // verus!
