//! The record of a download as the application keeps it, and the small
//! types around it.

use crate::decimal::Percent;
use crate::events::opt_view;
use vstd::prelude::*;
use vstd::string::*;

verus! {

/// What kind of node a download is in the queue: a standalone URL, the
/// parent that stands for a playlist, or one item of a playlist.
#[derive(Debug, Clone, Copy, PartialEq, Eq, Structural)]
pub enum SourceKind {
    Single,
    PlaylistParent,
    PlaylistItem,
}

/// The lifecycle status of a download.
#[derive(Debug, Clone, Copy, PartialEq, Eq, Structural)]
pub enum DownloadStatus {
    Queued,
    Fetching,
    Ready,
    Downloading,
    PostProcessing,
    /// Stopped, and startable again.
    Stopped,
    Done,
    Failed,
    Canceled,
}

/// A finer label than the status, shown as it is.
#[derive(Debug, Clone)]
pub struct PhaseLabel(pub String);

impl PhaseLabel {
    pub fn new(s: &str) -> (p: Self)
        ensures
            p.0@ == s@,
    {
        PhaseLabel(s.to_owned())
    }
}

/// The progress of a download; each field is known or not on its own.
#[derive(Debug, Clone, Copy, PartialEq, Eq, Structural)]
pub struct Progress {
    pub percent: Option<Percent>,
    pub bytes_downloaded: Option<u64>,
    pub bytes_total: Option<u64>,
    pub speed_bps: Option<u64>,
    pub eta_seconds: Option<u64>,
}

impl Progress {
    /// Progress of which nothing is known.
    pub fn empty() -> (p: Self)
        ensures
            p == (Progress {
                percent: None,
                bytes_downloaded: None,
                bytes_total: None,
                speed_bps: None,
                eta_seconds: None,
            }),
    {
        Progress {
            percent: None,
            bytes_downloaded: None,
            bytes_total: None,
            speed_bps: None,
            eta_seconds: None,
        }
    }
}

/// The failure categories that the interface knows remedies for.
#[derive(Debug, Clone, Copy, PartialEq, Eq, Structural)]
pub enum ErrorCode {
    Unknown,
    Network,
    ExtractorOutdated,
    SignInRequired,
    BotCheck,
    GeoRestricted,
    FormatUnavailable,
    ToolMissing,
    ToolFailed,
    OutputWriteFailed,
    Canceled,
}

/// A remedy that the interface can offer as a button.
#[derive(Debug, Clone)]
pub enum RemediationAction {
    ImportCookies { label: String },
    UpdateYtDlp { label: String },
    OpenSettingsProxy { label: String },
    RetryRecommended { label: String },
    Retry { label: String },
}

/// The kinds of remedy, without their labels.
#[derive(Debug, Clone, Copy, PartialEq, Eq, Structural)]
pub enum RemedyKind {
    ImportCookies,
    UpdateYtDlp,
    OpenSettingsProxy,
    RetryRecommended,
    Retry,
}

impl RemediationAction {
    pub open spec fn kind(self) -> RemedyKind {
        match self {
            RemediationAction::ImportCookies { .. } => RemedyKind::ImportCookies,
            RemediationAction::UpdateYtDlp { .. } => RemedyKind::UpdateYtDlp,
            RemediationAction::OpenSettingsProxy { .. } => RemedyKind::OpenSettingsProxy,
            RemediationAction::RetryRecommended { .. } => RemedyKind::RetryRecommended,
            RemediationAction::Retry { .. } => RemedyKind::Retry,
        }
    }

    pub open spec fn label(self) -> Seq<char> {
        match self {
            RemediationAction::ImportCookies { label } => label@,
            RemediationAction::UpdateYtDlp { label } => label@,
            RemediationAction::OpenSettingsProxy { label } => label@,
            RemediationAction::RetryRecommended { label } => label@,
            RemediationAction::Retry { label } => label@,
        }
    }

    pub fn import_cookies() -> (a: Self)
        ensures
            a.kind() == RemedyKind::ImportCookies,
            a.label() == "Import cookies from browser"@,
    {
        RemediationAction::ImportCookies { label: "Import cookies from browser".to_owned() }
    }

    pub fn update_ytdlp() -> (a: Self)
        ensures
            a.kind() == RemedyKind::UpdateYtDlp,
            a.label() == "Update yt-dlp and retry"@,
    {
        RemediationAction::UpdateYtDlp { label: "Update yt-dlp and retry".to_owned() }
    }

    pub fn open_proxy_settings() -> (a: Self)
        ensures
            a.kind() == RemedyKind::OpenSettingsProxy,
            a.label() == "Configure proxy…"@,
    {
        RemediationAction::OpenSettingsProxy { label: "Configure proxy…".to_owned() }
    }

    pub fn retry_recommended() -> (a: Self)
        ensures
            a.kind() == RemedyKind::RetryRecommended,
            a.label() == "Download Recommended instead"@,
    {
        RemediationAction::RetryRecommended { label: "Download Recommended instead".to_owned() }
    }

    pub fn retry() -> (a: Self)
        ensures
            a.kind() == RemedyKind::Retry,
            a.label() == "Retry"@,
    {
        RemediationAction::Retry { label: "Retry".to_owned() }
    }
}

/// A failure in the form in which it is shown: short and actionable.
#[derive(Debug, Clone)]
pub struct UserFacingError {
    pub error_code: ErrorCode,
    pub user_message: String,
    pub actions: Vec<RemediationAction>,
}

/// One download (a row of queue or history). Identifiers are 128-bit
/// numbers, instants are milliseconds since the Unix epoch.
#[derive(Debug, Clone)]
pub struct DownloadItem {
    pub id: u128,
    pub created_at: i64,
    pub updated_at: i64,
    pub source_url: String,
    pub source_kind: SourceKind,
    pub parent_id: Option<u128>,
    pub title: Option<String>,
    pub uploader: Option<String>,
    pub duration_seconds: Option<u64>,
    pub thumbnail_url: Option<String>,
    pub status: DownloadStatus,
    pub phase: Option<PhaseLabel>,
    pub progress: Progress,
    pub preset_id: String,
    pub output_dir: String,
    pub final_path: Option<String>,
    pub temp_dir: Option<String>,
    pub last_error: Option<UserFacingError>,
    pub yt_dlp_version: Option<String>,
    pub ffmpeg_version: Option<String>,
}

/// `uuid::Uuid::new_v4`, then `Uuid::as_u128`: a fresh random identifier.
/// Nothing is claimed of it.
#[verifier::external_body]
pub(crate) fn new_uuid() -> (id: u128) {
    uuid::Uuid::new_v4().as_u128()
}

/// `chrono::Utc::now`, then `timestamp_millis`: the present instant in
/// milliseconds since the Unix epoch. Nothing is claimed of it.
#[verifier::external_body]
pub(crate) fn now_millis() -> (now: i64) {
    chrono::Utc::now().timestamp_millis()
}

/// The label of an optional phase.
pub open spec fn phase_text(p: Option<PhaseLabel>) -> Option<Seq<char>> {
    match p {
        Some(l) => Some(l.0@),
        None => None,
    }
}

impl DownloadItem {
    /// Whether this is a download just created: nothing fetched, nothing
    /// transferred, no output, no failure.
    pub open spec fn is_fresh(self) -> bool {
        &&& self.created_at == self.updated_at
        &&& self.uploader is None
        &&& self.duration_seconds is None
        &&& self.thumbnail_url is None
        &&& self.progress == (Progress {
            percent: None,
            bytes_downloaded: None,
            bytes_total: None,
            speed_bps: None,
            eta_seconds: None,
        })
        &&& self.final_path is None
        &&& self.temp_dir is None
        &&& self.last_error is None
        &&& self.yt_dlp_version is None
        &&& self.ffmpeg_version is None
    }

    /// A download of the given kind, created at the given instant under the
    /// given identifier.
    pub fn created(
        id: u128,
        now: i64,
        source_kind: SourceKind,
        parent_id: Option<u128>,
        url: String,
        preset_id: String,
        output_dir: String,
        title: Option<String>,
    ) -> (item: Self)
        ensures
            item.is_fresh(),
            item.id == id,
            item.created_at == now,
            item.source_url == url,
            item.source_kind == source_kind,
            item.parent_id == parent_id,
            item.title == title,
            item.preset_id == preset_id,
            item.output_dir == output_dir,
            item.status == (if source_kind == SourceKind::PlaylistParent {
                DownloadStatus::Fetching
            } else {
                DownloadStatus::Queued
            }),
            phase_text(item.phase) == Some(
                if source_kind == SourceKind::PlaylistParent {
                    "Fetching playlist…"@
                } else {
                    "Queued"@
                },
            ),
    {
        let fetching = match source_kind {
            SourceKind::PlaylistParent => true,
            _ => false,
        };
        DownloadItem {
            id,
            created_at: now,
            updated_at: now,
            source_url: url,
            source_kind,
            parent_id,
            title,
            uploader: None,
            duration_seconds: None,
            thumbnail_url: None,
            status: if fetching {
                DownloadStatus::Fetching
            } else {
                DownloadStatus::Queued
            },
            phase: Some(
                if fetching {
                    PhaseLabel::new("Fetching playlist…")
                } else {
                    PhaseLabel::new("Queued")
                },
            ),
            progress: Progress::empty(),
            preset_id,
            output_dir,
            final_path: None,
            temp_dir: None,
            last_error: None,
            yt_dlp_version: None,
            ffmpeg_version: None,
        }
    }

    /// A new standalone download, queued, under a fresh identifier.
    pub fn new_single(url: String, preset_id: String, output_dir: String) -> (item: Self)
        ensures
            item.is_fresh(),
            item.source_url == url,
            item.source_kind == SourceKind::Single,
            item.parent_id is None,
            item.title is None,
            item.preset_id == preset_id,
            item.output_dir == output_dir,
            item.status == DownloadStatus::Queued,
            phase_text(item.phase) == Some("Queued"@),
    {
        Self::created(
            new_uuid(),
            now_millis(),
            SourceKind::Single,
            None,
            url,
            preset_id,
            output_dir,
            None,
        )
    }

    /// A new playlist parent, about to be expanded, under a fresh
    /// identifier.
    pub fn new_playlist_parent(playlist_url: String, preset_id: String, output_dir: String) -> (item:
        Self)
        ensures
            item.is_fresh(),
            item.source_url == playlist_url,
            item.source_kind == SourceKind::PlaylistParent,
            item.parent_id is None,
            item.title is None,
            item.preset_id == preset_id,
            item.output_dir == output_dir,
            item.status == DownloadStatus::Fetching,
            phase_text(item.phase) == Some("Fetching playlist…"@),
    {
        Self::created(
            new_uuid(),
            now_millis(),
            SourceKind::PlaylistParent,
            None,
            playlist_url,
            preset_id,
            output_dir,
            None,
        )
    }

    /// A new item of the given playlist, queued, under a fresh identifier.
    pub fn new_playlist_item(
        parent_id: u128,
        item_url: String,
        preset_id: String,
        output_dir: String,
        title_hint: Option<String>,
    ) -> (item: Self)
        ensures
            item.is_fresh(),
            item.source_url == item_url,
            item.source_kind == SourceKind::PlaylistItem,
            item.parent_id == Some(parent_id),
            item.title == title_hint,
            item.preset_id == preset_id,
            item.output_dir == output_dir,
            item.status == DownloadStatus::Queued,
            phase_text(item.phase) == Some("Queued"@),
    {
        Self::created(
            new_uuid(),
            now_millis(),
            SourceKind::PlaylistItem,
            Some(parent_id),
            item_url,
            preset_id,
            output_dir,
            title_hint,
        )
    }

    /// Sets status and phase as of the given instant.
    pub fn set_status_at(&mut self, status: DownloadStatus, phase: Option<PhaseLabel>, now: i64)
        ensures
            *final(self) == (DownloadItem { status, phase, updated_at: now, ..*old(self) }),
    {
        self.status = status;
        self.phase = phase;
        self.updated_at = now;
    }

    /// Sets status and phase as of now. Everything else stays.
    pub fn set_status(&mut self, status: DownloadStatus, phase: Option<PhaseLabel>)
        ensures
            *final(self) == (DownloadItem {
                status,
                phase,
                updated_at: final(self).updated_at,
                ..*old(self)
            }),
    {
        let now = now_millis();
        self.set_status_at(status, phase, now);
    }

    /// Records a failure as of the given instant: the download is failed.
    pub fn set_error_at(&mut self, err: UserFacingError, now: i64)
        ensures
            final(self).last_error == Some(err),
            final(self).status == DownloadStatus::Failed,
            phase_text(final(self).phase) == Some("Failed"@),
            final(self).updated_at == now,
            *final(self) == (DownloadItem {
                last_error: final(self).last_error,
                status: final(self).status,
                phase: final(self).phase,
                updated_at: final(self).updated_at,
                ..*old(self)
            }),
    {
        self.last_error = Some(err);
        self.status = DownloadStatus::Failed;
        self.phase = Some(PhaseLabel::new("Failed"));
        self.updated_at = now;
    }

    /// Records a failure as of now.
    pub fn set_error(&mut self, err: UserFacingError)
        ensures
            final(self).last_error == Some(err),
            final(self).status == DownloadStatus::Failed,
            phase_text(final(self).phase) == Some("Failed"@),
            *final(self) == (DownloadItem {
                last_error: final(self).last_error,
                status: final(self).status,
                phase: final(self).phase,
                updated_at: final(self).updated_at,
                ..*old(self)
            }),
    {
        let now = now_millis();
        self.set_error_at(err, now);
    }

    /// Records the completion as of the given instant: the download is done
    /// at 100%, with its output path.
    pub fn mark_done_at(&mut self, final_path: String, now: i64)
        ensures
            final(self).final_path == Some(final_path),
            final(self).status == DownloadStatus::Done,
            phase_text(final(self).phase) == Some("Completed"@),
            final(self).progress == (Progress {
                percent: Some(Percent { thousandths: 100_000 }),
                ..old(self).progress
            }),
            final(self).updated_at == now,
            *final(self) == (DownloadItem {
                final_path: final(self).final_path,
                status: final(self).status,
                phase: final(self).phase,
                progress: final(self).progress,
                updated_at: final(self).updated_at,
                ..*old(self)
            }),
    {
        self.final_path = Some(final_path);
        self.status = DownloadStatus::Done;
        self.phase = Some(PhaseLabel::new("Completed"));
        self.progress.percent = Some(Percent { thousandths: 100_000 });
        self.updated_at = now;
    }

    /// Records the completion as of now.
    pub fn mark_done(&mut self, final_path: String)
        ensures
            final(self).final_path == Some(final_path),
            final(self).status == DownloadStatus::Done,
            phase_text(final(self).phase) == Some("Completed"@),
            final(self).progress == (Progress {
                percent: Some(Percent { thousandths: 100_000 }),
                ..old(self).progress
            }),
            *final(self) == (DownloadItem {
                final_path: final(self).final_path,
                status: final(self).status,
                phase: final(self).phase,
                progress: final(self).progress,
                updated_at: final(self).updated_at,
                ..*old(self)
            }),
    {
        let now = now_millis();
        self.mark_done_at(final_path, now);
    }
}

/// A preset as the interface edits it.
#[derive(Debug, Clone)]
pub struct Preset {
    pub id: String,
    pub name: String,
    pub description: String,
    pub yt_dlp_args: Vec<String>,
    pub ffmpeg_args: Vec<String>,
}

/// Switches that apply to any preset.
#[derive(Debug, Clone)]
pub struct FeatureToggles {
    pub sponsorblock_enabled: bool,
    pub sponsorblock_categories: Vec<String>,
    pub sponsorblock_mode: Option<String>,
    pub subtitles_enabled: bool,
    pub subtitles_language: Option<String>,
    pub subtitles_embed: bool,
    pub subtitles_auto_captions: bool,
    pub embed_metadata: bool,
    pub embed_thumbnail: bool,
}

impl Default for FeatureToggles {
    fn default() -> (t: Self)
        ensures
            !t.sponsorblock_enabled,
            t.sponsorblock_categories@.len() == 0,
            t.sponsorblock_mode is None,
            !t.subtitles_enabled,
            opt_view(t.subtitles_language) == Some("en"@),
            !t.subtitles_embed,
            !t.subtitles_auto_captions,
            t.embed_metadata,
            t.embed_thumbnail,
    {
        FeatureToggles {
            sponsorblock_enabled: false,
            sponsorblock_categories: Vec::new(),
            sponsorblock_mode: None,
            subtitles_enabled: false,
            subtitles_language: Some("en".to_owned()),
            subtitles_embed: false,
            subtitles_auto_captions: false,
            embed_metadata: true,
            embed_thumbnail: true,
        }
    }
}

/// The tools that the application manages.
#[derive(Debug, Clone, Copy, PartialEq, Eq, Structural)]
pub enum Tool {
    YtDlp,
    Ffmpeg,
    Ffprobe,
}

/// An installed tool.
#[derive(Debug, Clone)]
pub struct ToolInstall {
    pub tool: Tool,
    pub version: Option<String>,
    pub path: String,
    pub is_bundled: bool,
    pub last_checked_at: Option<i64>,
}

/// The health of a tool.
#[derive(Debug, Clone, Copy, PartialEq, Eq, Structural)]
pub enum ToolStatus {
    Healthy,
    Outdated,
    Missing,
    Broken,
}

/// The tools at a glance.
#[derive(Debug, Clone)]
pub struct ToolchainStatus {
    pub yt_dlp: Option<ToolInstall>,
    pub ffmpeg: Option<ToolInstall>,
    pub ffprobe: Option<ToolInstall>,
    pub status: ToolStatus,
}

/// What is known of a URL before it is queued.
#[derive(Debug, Clone)]
pub struct PreviewMetadata {
    pub url: String,
    pub title: Option<String>,
    pub uploader: Option<String>,
    pub duration_seconds: Option<u64>,
    pub thumbnail_url: Option<String>,
    pub is_playlist: bool,
    pub playlist_title: Option<String>,
    pub playlist_count_hint: Option<u64>,
}

/// One entry of an expanded playlist.
#[derive(Debug, Clone)]
pub struct PlaylistEntry {
    pub url: String,
    pub title: Option<String>,
    pub uploader: Option<String>,
    pub duration_seconds: Option<u64>,
    pub thumbnail_url: Option<String>,
}

} // verus!
