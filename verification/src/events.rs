//! Events that the backend reports to the user interface, and the types they
//! carry. Job identifiers are 128-bit numbers; percentages are fixed-point
//! (see [`Percent`]).

use crate::decimal::Percent;
use vstd::prelude::*;

pub mod helpers;

verus! {

/// The one channel name under which every backend event is delivered.
pub const DOWNLINK_EVENT_NAME: &'static str = "downlink://event";

/// What the interface should do when the user picks a suggested remedy.
#[derive(Debug, Clone, Copy, PartialEq, Eq, Structural)]
pub enum ActionKind {
    ImportCookies,
    UpdateYtDlp,
    UpdateFfmpeg,
    OpenSettingsProxy,
    RetryRecommended,
    Retry,
    OpenLogs,
}

/// A remedy offered with a failure: a stable kind and a button label.
#[derive(Debug, Clone)]
pub struct Action {
    pub kind: ActionKind,
    pub label: String,
}

pub struct ActionView {
    pub kind: ActionKind,
    pub label: Seq<char>,
}

impl View for Action {
    type V = ActionView;

    open spec fn view(&self) -> ActionView {
        ActionView { kind: self.kind, label: self.label@ }
    }
}

/// The views of a list of actions, in order.
pub open spec fn action_views(v: Seq<Action>) -> Seq<ActionView> {
    v.map_values(|a: Action| a@)
}

/// Stable failure categories.
#[derive(Debug, Clone, Copy, PartialEq, Eq, Structural)]
pub enum ErrorCode {
    Unknown,
    InvalidUrl,
    Network,
    GeoRestricted,
    LoginRequired,
    BotCheck,
    ExtractorOutdated,
    FormatUnavailable,
    ToolMissing,
    ToolUnhealthy,
    PostProcessingFailed,
    Canceled,
}

/// The lifecycle status of a job as the interface shows it.
#[derive(Debug, Clone, Copy, PartialEq, Eq, Structural)]
pub enum DownloadStatus {
    Queued,
    Fetching,
    Ready,
    Downloading,
    PostProcessing,
    Stopped,
    Done,
    Failed,
    Canceled,
}

/// A short human-readable phase within a status.
#[derive(Debug, Clone)]
pub struct Phase {
    pub name: String,
    pub detail: Option<String>,
}

pub struct PhaseView {
    pub name: Seq<char>,
    pub detail: Option<Seq<char>>,
}

/// The view of an optional string.
pub open spec fn opt_view(o: Option<String>) -> Option<Seq<char>> {
    match o {
        Some(s) => Some(s@),
        None => None,
    }
}

impl View for Phase {
    type V = PhaseView;

    open spec fn view(&self) -> PhaseView {
        PhaseView { name: self.name@, detail: opt_view(self.detail) }
    }
}

/// What is known of a medium before it is downloaded.
#[derive(Debug, Clone)]
pub struct MediaInfo {
    pub title: Option<String>,
    pub uploader: Option<String>,
    pub duration_seconds: Option<u64>,
    pub thumbnail_url: Option<String>,
    pub webpage_url: Option<String>,
}

pub struct MediaInfoView {
    pub title: Option<Seq<char>>,
    pub uploader: Option<Seq<char>>,
    pub duration_seconds: Option<u64>,
    pub thumbnail_url: Option<Seq<char>>,
    pub webpage_url: Option<Seq<char>>,
}

impl View for MediaInfo {
    type V = MediaInfoView;

    open spec fn view(&self) -> MediaInfoView {
        MediaInfoView {
            title: opt_view(self.title),
            uploader: opt_view(self.uploader),
            duration_seconds: self.duration_seconds,
            thumbnail_url: opt_view(self.thumbnail_url),
            webpage_url: opt_view(self.webpage_url),
        }
    }
}

/// A complete best-effort snapshot of a job's progress: each field is known
/// or not on its own.
#[derive(Debug, Clone)]
pub struct Progress {
    pub percent: Option<Percent>,
    pub bytes_downloaded: Option<u64>,
    pub bytes_total: Option<u64>,
    pub speed_bps: Option<u64>,
    pub eta_seconds: Option<u64>,
    pub phase: Option<Phase>,
}

pub struct ProgressView {
    pub percent: Option<Percent>,
    pub bytes_downloaded: Option<u64>,
    pub bytes_total: Option<u64>,
    pub speed_bps: Option<u64>,
    pub eta_seconds: Option<u64>,
    pub phase: Option<PhaseView>,
}

impl View for Progress {
    type V = ProgressView;

    open spec fn view(&self) -> ProgressView {
        ProgressView {
            percent: self.percent,
            bytes_downloaded: self.bytes_downloaded,
            bytes_total: self.bytes_total,
            speed_bps: self.speed_bps,
            eta_seconds: self.eta_seconds,
            phase: match self.phase {
                Some(p) => Some(p@),
                None => None,
            },
        }
    }
}

/// Versions of the application and of the tools it drives.
#[derive(Debug, Clone)]
pub struct ToolVersions {
    pub app_version: String,
    pub yt_dlp_version: Option<String>,
    pub ffmpeg_version: Option<String>,
}

pub struct ToolVersionsView {
    pub app_version: Seq<char>,
    pub yt_dlp_version: Option<Seq<char>>,
    pub ffmpeg_version: Option<Seq<char>>,
}

impl View for ToolVersions {
    type V = ToolVersionsView;

    open spec fn view(&self) -> ToolVersionsView {
        ToolVersionsView {
            app_version: self.app_version@,
            yt_dlp_version: opt_view(self.yt_dlp_version),
            ffmpeg_version: opt_view(self.ffmpeg_version),
        }
    }
}

/// An available tool update: the tool's name, what is installed and what is
/// offered.
#[derive(Debug, Clone)]
pub struct ToolUpdateInfo {
    pub tool: String,
    pub current: Option<String>,
    pub latest: Option<String>,
}

pub struct ToolUpdateInfoView {
    pub tool: Seq<char>,
    pub current: Option<Seq<char>>,
    pub latest: Option<Seq<char>>,
}

impl View for ToolUpdateInfo {
    type V = ToolUpdateInfoView;

    open spec fn view(&self) -> ToolUpdateInfoView {
        ToolUpdateInfoView {
            tool: self.tool@,
            current: opt_view(self.current),
            latest: opt_view(self.latest),
        }
    }
}

/// How far a tool update has come.
#[derive(Debug, Clone)]
pub struct ToolUpdateProgressInfo {
    pub tool: String,
    pub percent: Percent,
}

pub struct ToolUpdateProgressInfoView {
    pub tool: Seq<char>,
    pub percent: Percent,
}

impl View for ToolUpdateProgressInfo {
    type V = ToolUpdateProgressInfoView;

    open spec fn view(&self) -> ToolUpdateProgressInfoView {
        ToolUpdateProgressInfoView { tool: self.tool@, percent: self.percent }
    }
}

/// Everything the backend tells the interface.
#[derive(Debug, Clone)]
#[allow(inconsistent_fields)]
pub enum DownlinkEvent {
    AppReady { versions: ToolVersions },
    ClipboardUrlDetected { url: String },
    MetadataStarted { id: u128, url: String },
    MetadataReady { id: u128, info: MediaInfo },
    PlaylistExpanded { parent_id: u128, item_ids: Vec<u128>, count: usize },
    DownloadQueued { id: u128 },
    DownloadStarted { id: u128 },
    DownloadProgress { id: u128, status: DownloadStatus, progress: Progress },
    DownloadPostProcessing { id: u128, step: String, detail: Option<String> },
    DownloadStopped { id: u128 },
    DownloadCanceled { id: u128 },
    DownloadCompleted { id: u128, final_path: String },
    DownloadFailed { id: u128, error_code: ErrorCode, user_message: String, actions: Vec<Action> },
    ToolUpdateAvailable { info: ToolUpdateInfo },
    ToolUpdateProgress { info: ToolUpdateProgressInfo },
    ToolUpdateCompleted { tool: String, version: String },
    ToolUpdateFailed { tool: String, user_message: String },
}

#[allow(inconsistent_fields)]
pub enum DownlinkEventView {
    AppReady { versions: ToolVersionsView },
    ClipboardUrlDetected { url: Seq<char> },
    MetadataStarted { id: u128, url: Seq<char> },
    MetadataReady { id: u128, info: MediaInfoView },
    PlaylistExpanded { parent_id: u128, item_ids: Seq<u128>, count: usize },
    DownloadQueued { id: u128 },
    DownloadStarted { id: u128 },
    DownloadProgress { id: u128, status: DownloadStatus, progress: ProgressView },
    DownloadPostProcessing { id: u128, step: Seq<char>, detail: Option<Seq<char>> },
    DownloadStopped { id: u128 },
    DownloadCanceled { id: u128 },
    DownloadCompleted { id: u128, final_path: Seq<char> },
    DownloadFailed {
        id: u128,
        error_code: ErrorCode,
        user_message: Seq<char>,
        actions: Seq<ActionView>,
    },
    ToolUpdateAvailable { info: ToolUpdateInfoView },
    ToolUpdateProgress { info: ToolUpdateProgressInfoView },
    ToolUpdateCompleted { tool: Seq<char>, version: Seq<char> },
    ToolUpdateFailed { tool: Seq<char>, user_message: Seq<char> },
}

impl View for DownlinkEvent {
    type V = DownlinkEventView;

    open spec fn view(&self) -> DownlinkEventView {
        match *self {
            DownlinkEvent::AppReady { versions } => DownlinkEventView::AppReady {
                versions: versions@,
            },
            DownlinkEvent::ClipboardUrlDetected { url } => DownlinkEventView::ClipboardUrlDetected {
                url: url@,
            },
            DownlinkEvent::MetadataStarted { id, url } => DownlinkEventView::MetadataStarted {
                id,
                url: url@,
            },
            DownlinkEvent::MetadataReady { id, info } => DownlinkEventView::MetadataReady {
                id,
                info: info@,
            },
            DownlinkEvent::PlaylistExpanded {
                parent_id,
                item_ids,
                count,
            } => DownlinkEventView::PlaylistExpanded { parent_id, item_ids: item_ids@, count },
            DownlinkEvent::DownloadQueued { id } => DownlinkEventView::DownloadQueued { id },
            DownlinkEvent::DownloadStarted { id } => DownlinkEventView::DownloadStarted { id },
            DownlinkEvent::DownloadProgress {
                id,
                status,
                progress,
            } => DownlinkEventView::DownloadProgress { id, status, progress: progress@ },
            DownlinkEvent::DownloadPostProcessing {
                id,
                step,
                detail,
            } => DownlinkEventView::DownloadPostProcessing {
                id,
                step: step@,
                detail: opt_view(detail),
            },
            DownlinkEvent::DownloadStopped { id } => DownlinkEventView::DownloadStopped { id },
            DownlinkEvent::DownloadCanceled { id } => DownlinkEventView::DownloadCanceled { id },
            DownlinkEvent::DownloadCompleted {
                id,
                final_path,
            } => DownlinkEventView::DownloadCompleted { id, final_path: final_path@ },
            DownlinkEvent::DownloadFailed {
                id,
                error_code,
                user_message,
                actions,
            } => DownlinkEventView::DownloadFailed {
                id,
                error_code,
                user_message: user_message@,
                actions: action_views(actions@),
            },
            DownlinkEvent::ToolUpdateAvailable { info } => DownlinkEventView::ToolUpdateAvailable {
                info: info@,
            },
            DownlinkEvent::ToolUpdateProgress { info } => DownlinkEventView::ToolUpdateProgress {
                info: info@,
            },
            DownlinkEvent::ToolUpdateCompleted {
                tool,
                version,
            } => DownlinkEventView::ToolUpdateCompleted { tool: tool@, version: version@ },
            DownlinkEvent::ToolUpdateFailed {
                tool,
                user_message,
            } => DownlinkEventView::ToolUpdateFailed { tool: tool@, user_message: user_message@ },
        }
    }
}

/// The views of a list of events, in order.
pub open spec fn event_views(v: Seq<DownlinkEvent>) -> Seq<DownlinkEventView> {
    v.map_values(|e: DownlinkEvent| e@)
}

} // verus!
