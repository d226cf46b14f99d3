//! The user's preferences and their defaults. Where they are stored is not
//! decided here.

use crate::text::strings;
use vstd::prelude::*;
use vstd::string::*;

pub mod keys;

verus! {

/// Where downloads go when the platform names no download folder.
pub open spec fn fallback_download_folder() -> Seq<char> {
    "~/Downloads"@
}

/// The default download folder: the platform's, or the fallback.
pub fn default_download_folder(platform: Option<&str>) -> (folder: String)
    ensures
        folder@ == match platform {
            Some(p) => p@,
            None => fallback_download_folder(),
        },
{
    match platform {
        Some(p) => p.to_owned(),
        None => "~/Downloads".to_owned(),
    }
}

pub fn default_preset_id() -> (id: String)
    ensures
        id@ == "recommended_best"@,
{
    "recommended_best".to_owned()
}

pub fn default_concurrency() -> (n: u32)
    ensures
        n == 2,
{
    2
}

pub fn default_true() -> (b: bool)
    ensures
        b,
{
    true
}

pub fn default_filename_template() -> (t: String)
    ensures
        t@ == "%(title)s [%(id)s].%(ext)s"@,
{
    "%(title)s [%(id)s].%(ext)s".to_owned()
}

pub fn default_sponsorblock_mode() -> (m: String)
    ensures
        m@ == "remove"@,
{
    "remove".to_owned()
}

pub fn default_sponsorblock_categories() -> (c: Vec<String>)
    ensures
        strings(c@) == seq!["sponsor"@],
{
    let mut c: Vec<String> = Vec::new();
    c.push("sponsor".to_owned());
    proof {
        assert(strings(c@) =~= seq!["sponsor"@]);
    }
    c
}

pub fn default_subtitle_language() -> (l: String)
    ensures
        l@ == "en"@,
{
    "en".to_owned()
}

pub fn default_subtitle_format() -> (f: String)
    ensures
        f@ == "srt"@,
{
    "srt".to_owned()
}

pub fn default_update_interval() -> (h: u32)
    ensures
        h == 24,
{
    24
}

pub fn default_cookie_mode() -> (m: String)
    ensures
        m@ == "on_demand"@,
{
    "on_demand".to_owned()
}

pub fn default_max_history() -> (n: u32)
    ensures
        n == 1000,
{
    1000
}

pub fn default_retries() -> (n: u32)
    ensures
        n == 3,
{
    3
}

pub fn default_concurrent_fragments() -> (n: u32)
    ensures
        n == 1,
{
    1
}

pub fn default_socket_timeout() -> (s: u32)
    ensures
        s == 30,
{
    30
}

/// General settings of the application.
#[derive(Debug, Clone)]
pub struct GeneralSettings {
    pub download_folder: String,
    pub default_preset: String,
    pub concurrency: u32,
    pub auto_start: bool,
    pub notify_on_complete: bool,
    pub minimize_to_tray: bool,
    pub start_minimized: bool,
    pub remember_window_state: bool,
    pub show_advanced_by_default: bool,
}

impl GeneralSettings {
    /// Whether these are the defaults, for the given download folder.
    pub open spec fn is_default_for(self, folder: Seq<char>) -> bool {
        &&& self.download_folder@ == folder
        &&& self.default_preset@ == "recommended_best"@
        &&& self.concurrency == 2
        &&& self.auto_start
        &&& self.notify_on_complete
        &&& !self.minimize_to_tray
        &&& !self.start_minimized
        &&& self.remember_window_state
        &&& !self.show_advanced_by_default
    }

    /// The defaults, with the platform's download folder where it names
    /// one.
    pub fn with_download_folder(platform: Option<&str>) -> (s: Self)
        ensures
            s.is_default_for(
                match platform {
                    Some(p) => p@,
                    None => fallback_download_folder(),
                },
            ),
    {
        GeneralSettings {
            download_folder: default_download_folder(platform),
            default_preset: default_preset_id(),
            concurrency: default_concurrency(),
            auto_start: true,
            notify_on_complete: true,
            minimize_to_tray: false,
            start_minimized: false,
            remember_window_state: true,
            show_advanced_by_default: false,
        }
    }
}

impl Default for GeneralSettings {
    fn default() -> (s: Self)
        ensures
            s.is_default_for(fallback_download_folder()),
    {
        GeneralSettings::with_download_folder(None)
    }
}

/// Format and quality settings.
#[derive(Debug, Clone)]
pub struct FormatSettings {
    pub prefer_mp4: bool,
    pub max_video_height: u32,
    pub preferred_video_codec: String,
    pub preferred_audio_codec: String,
    pub embed_metadata: bool,
    pub embed_thumbnail: bool,
    pub write_info_json: bool,
    pub filename_template: String,
}

impl FormatSettings {
    pub open spec fn is_default(self) -> bool {
        &&& self.prefer_mp4
        &&& self.max_video_height == 0
        &&& self.preferred_video_codec@.len() == 0
        &&& self.preferred_audio_codec@.len() == 0
        &&& self.embed_metadata
        &&& self.embed_thumbnail
        &&& !self.write_info_json
        &&& self.filename_template@ == "%(title)s [%(id)s].%(ext)s"@
    }
}

impl Default for FormatSettings {
    fn default() -> (s: Self)
        ensures
            s.is_default(),
    {
        FormatSettings {
            prefer_mp4: true,
            max_video_height: 0,
            preferred_video_codec: String::new(),
            preferred_audio_codec: String::new(),
            embed_metadata: true,
            embed_thumbnail: true,
            write_info_json: false,
            filename_template: default_filename_template(),
        }
    }
}

/// SponsorBlock settings.
#[derive(Debug, Clone)]
pub struct SponsorBlockSettings {
    pub enabled_by_default: bool,
    pub mode: String,
    pub categories: Vec<String>,
}

impl SponsorBlockSettings {
    pub open spec fn is_default(self) -> bool {
        &&& !self.enabled_by_default
        &&& self.mode@ == "remove"@
        &&& strings(self.categories@) == seq!["sponsor"@]
    }
}

impl Default for SponsorBlockSettings {
    fn default() -> (s: Self)
        ensures
            s.is_default(),
    {
        SponsorBlockSettings {
            enabled_by_default: false,
            mode: default_sponsorblock_mode(),
            categories: default_sponsorblock_categories(),
        }
    }
}

/// Subtitle settings.
#[derive(Debug, Clone)]
pub struct SubtitleSettings {
    pub enabled_by_default: bool,
    pub default_language: String,
    pub include_auto_captions: bool,
    pub embed_subtitles: bool,
    pub preferred_format: String,
}

impl SubtitleSettings {
    pub open spec fn is_default(self) -> bool {
        &&& !self.enabled_by_default
        &&& self.default_language@ == "en"@
        &&& !self.include_auto_captions
        &&& !self.embed_subtitles
        &&& self.preferred_format@ == "srt"@
    }
}

impl Default for SubtitleSettings {
    fn default() -> (s: Self)
        ensures
            s.is_default(),
    {
        SubtitleSettings {
            enabled_by_default: false,
            default_language: default_subtitle_language(),
            include_auto_captions: false,
            embed_subtitles: false,
            preferred_format: default_subtitle_format(),
        }
    }
}

/// Update settings.
#[derive(Debug, Clone)]
pub struct UpdateSettings {
    pub auto_update_app: bool,
    pub auto_update_ytdlp: bool,
    pub auto_update_ffmpeg: bool,
    pub check_interval_hours: u32,
    pub last_checked: Option<String>,
}

impl UpdateSettings {
    pub open spec fn is_default(self) -> bool {
        &&& self.auto_update_app
        &&& self.auto_update_ytdlp
        &&& !self.auto_update_ffmpeg
        &&& self.check_interval_hours == 24
        &&& self.last_checked is None
    }
}

impl Default for UpdateSettings {
    fn default() -> (s: Self)
        ensures
            s.is_default(),
    {
        UpdateSettings {
            auto_update_app: true,
            auto_update_ytdlp: true,
            auto_update_ffmpeg: false,
            check_interval_hours: default_update_interval(),
            last_checked: None,
        }
    }
}

/// Privacy settings.
#[derive(Debug, Clone)]
pub struct PrivacySettings {
    pub cookie_mode: String,
    pub cookies_path: Option<String>,
    pub clear_cookies_on_exit: bool,
    pub keep_history: bool,
    pub max_history_entries: u32,
}

impl PrivacySettings {
    pub open spec fn is_default(self) -> bool {
        &&& self.cookie_mode@ == "on_demand"@
        &&& self.cookies_path is None
        &&& !self.clear_cookies_on_exit
        &&& self.keep_history
        &&& self.max_history_entries == 1000
    }
}

impl Default for PrivacySettings {
    fn default() -> (s: Self)
        ensures
            s.is_default(),
    {
        PrivacySettings {
            cookie_mode: default_cookie_mode(),
            cookies_path: None,
            clear_cookies_on_exit: false,
            keep_history: true,
            max_history_entries: default_max_history(),
        }
    }
}

/// Network settings.
#[derive(Debug, Clone)]
pub struct NetworkSettings {
    pub use_proxy: bool,
    pub proxy_url: String,
    pub rate_limit_bps: u64,
    pub retries: u32,
    pub concurrent_fragments: u32,
    pub socket_timeout: u32,
}

impl NetworkSettings {
    pub open spec fn is_default(self) -> bool {
        &&& !self.use_proxy
        &&& self.proxy_url@.len() == 0
        &&& self.rate_limit_bps == 0
        &&& self.retries == 3
        &&& self.concurrent_fragments == 1
        &&& self.socket_timeout == 30
    }
}

impl Default for NetworkSettings {
    fn default() -> (s: Self)
        ensures
            s.is_default(),
    {
        NetworkSettings {
            use_proxy: false,
            proxy_url: String::new(),
            rate_limit_bps: 0,
            retries: default_retries(),
            concurrent_fragments: default_concurrent_fragments(),
            socket_timeout: default_socket_timeout(),
        }
    }
}

/// All of the user's settings.
#[derive(Debug, Clone)]
pub struct UserSettings {
    pub general: GeneralSettings,
    pub formats: FormatSettings,
    pub sponsorblock: SponsorBlockSettings,
    pub subtitles: SubtitleSettings,
    pub updates: UpdateSettings,
    pub privacy: PrivacySettings,
    pub network: NetworkSettings,
}

impl UserSettings {
    /// Whether every section holds its defaults, for the given download
    /// folder.
    pub open spec fn is_default_for(self, folder: Seq<char>) -> bool {
        &&& self.general.is_default_for(folder)
        &&& self.formats.is_default()
        &&& self.sponsorblock.is_default()
        &&& self.subtitles.is_default()
        &&& self.updates.is_default()
        &&& self.privacy.is_default()
        &&& self.network.is_default()
    }

    /// The defaults, with the platform's download folder where it names
    /// one.
    pub fn with_download_folder(platform: Option<&str>) -> (s: Self)
        ensures
            s.is_default_for(
                match platform {
                    Some(p) => p@,
                    None => fallback_download_folder(),
                },
            ),
    {
        UserSettings {
            general: GeneralSettings::with_download_folder(platform),
            formats: FormatSettings::default(),
            sponsorblock: SponsorBlockSettings::default(),
            subtitles: SubtitleSettings::default(),
            updates: UpdateSettings::default(),
            privacy: PrivacySettings::default(),
            network: NetworkSettings::default(),
        }
    }

    /// These settings with the general section replaced.
    pub fn with_general(self, general: GeneralSettings) -> (s: Self)
        ensures
            s == (UserSettings { general, ..self }),
    {
        let mut s = self;
        s.general = general;
        s
    }

    /// These settings with the formats section replaced.
    pub fn with_formats(self, formats: FormatSettings) -> (s: Self)
        ensures
            s == (UserSettings { formats, ..self }),
    {
        let mut s = self;
        s.formats = formats;
        s
    }

    /// These settings with the SponsorBlock section replaced.
    pub fn with_sponsorblock(self, sponsorblock: SponsorBlockSettings) -> (s: Self)
        ensures
            s == (UserSettings { sponsorblock, ..self }),
    {
        let mut s = self;
        s.sponsorblock = sponsorblock;
        s
    }

    /// These settings with the subtitles section replaced.
    pub fn with_subtitles(self, subtitles: SubtitleSettings) -> (s: Self)
        ensures
            s == (UserSettings { subtitles, ..self }),
    {
        let mut s = self;
        s.subtitles = subtitles;
        s
    }

    /// These settings with the updates section replaced.
    pub fn with_updates(self, updates: UpdateSettings) -> (s: Self)
        ensures
            s == (UserSettings { updates, ..self }),
    {
        let mut s = self;
        s.updates = updates;
        s
    }

    /// These settings with the privacy section replaced.
    pub fn with_privacy(self, privacy: PrivacySettings) -> (s: Self)
        ensures
            s == (UserSettings { privacy, ..self }),
    {
        let mut s = self;
        s.privacy = privacy;
        s
    }

    /// These settings with the network section replaced.
    pub fn with_network(self, network: NetworkSettings) -> (s: Self)
        ensures
            s == (UserSettings { network, ..self }),
    {
        let mut s = self;
        s.network = network;
        s
    }
}

impl Default for UserSettings {
    fn default() -> (s: Self)
        ensures
            s.is_default_for(fallback_download_folder()),
    {
        UserSettings::with_download_folder(None)
    }
}

/// Where the window was and how large.
#[derive(Debug, Clone, Copy, PartialEq, Eq, Structural)]
pub struct WindowState {
    pub x: i32,
    pub y: i32,
    pub width: u32,
    pub height: u32,
    pub is_maximized: bool,
}

impl Default for WindowState {
    fn default() -> (w: Self)
        ensures
            w == (WindowState { x: 100, y: 100, width: 1200, height: 800, is_maximized: false }),
    {
        WindowState { x: 100, y: 100, width: 1200, height: 800, is_maximized: false }
    }
}

/// Whether cookies count as imported, given the stored flag.
pub fn cookies_imported(stored: Option<bool>) -> (b: bool)
    ensures
        b == (stored == Some(true)),
{
    match stored {
        Some(v) => v,
        None => false,
    }
}

} // verus!
