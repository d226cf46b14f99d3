use downlink::settings::keys;
use downlink::settings::{
    cookies_imported, default_download_folder, FormatSettings, GeneralSettings, NetworkSettings,
    PrivacySettings, SponsorBlockSettings, SubtitleSettings, UpdateSettings, UserSettings,
    WindowState,
};

#[test]
fn test_default_settings() {
    let settings = UserSettings::default();
    assert_eq!(settings.general.concurrency, 2);
    assert!(settings.general.auto_start);
    assert!(settings.formats.prefer_mp4);
    assert!(!settings.sponsorblock.enabled_by_default);
}

#[test]
fn defaults_of_every_section() {
    let g = GeneralSettings::default();
    assert_eq!(g.download_folder, "~/Downloads");
    assert_eq!(g.default_preset, "recommended_best");
    assert!(g.notify_on_complete && g.remember_window_state);
    assert!(!g.minimize_to_tray && !g.start_minimized && !g.show_advanced_by_default);
    let f = FormatSettings::default();
    assert_eq!(f.max_video_height, 0);
    assert_eq!(f.filename_template, "%(title)s [%(id)s].%(ext)s");
    assert!(f.embed_metadata && f.embed_thumbnail && !f.write_info_json);
    let s = SponsorBlockSettings::default();
    assert_eq!(s.mode, "remove");
    assert_eq!(s.categories, vec!["sponsor".to_string()]);
    let t = SubtitleSettings::default();
    assert_eq!(t.default_language, "en");
    assert_eq!(t.preferred_format, "srt");
    let u = UpdateSettings::default();
    assert!(u.auto_update_app && u.auto_update_ytdlp && !u.auto_update_ffmpeg);
    assert_eq!(u.check_interval_hours, 24);
    assert_eq!(u.last_checked, None);
    let p = PrivacySettings::default();
    assert_eq!(p.cookie_mode, "on_demand");
    assert_eq!(p.max_history_entries, 1000);
    assert!(p.keep_history && !p.clear_cookies_on_exit);
    let n = NetworkSettings::default();
    assert_eq!((n.retries, n.concurrent_fragments, n.socket_timeout), (3, 1, 30));
    assert_eq!(n.rate_limit_bps, 0);
    assert!(!n.use_proxy && n.proxy_url.is_empty());
    let w = WindowState::default();
    assert_eq!((w.x, w.y, w.width, w.height, w.is_maximized), (100, 100, 1200, 800, false));
}

#[test]
fn platform_download_folder_is_preferred() {
    assert_eq!(default_download_folder(Some("/home/u/Downloads")), "/home/u/Downloads");
    assert_eq!(default_download_folder(None), "~/Downloads");
    let s = UserSettings::with_download_folder(Some("/d"));
    assert_eq!(s.general.download_folder, "/d");
}

#[test]
fn with_section_replaces_only_that_section() {
    let mut general = GeneralSettings::default();
    general.concurrency = 4;
    let mut network = NetworkSettings::default();
    network.retries = 9;
    let s = UserSettings::default().with_general(general).with_network(network);
    assert_eq!(s.general.concurrency, 4);
    assert_eq!(s.network.retries, 9);
    assert!(s.formats.prefer_mp4);
    let mut formats = FormatSettings::default();
    formats.max_video_height = 720;
    let mut sponsorblock = SponsorBlockSettings::default();
    sponsorblock.enabled_by_default = true;
    let mut subtitles = SubtitleSettings::default();
    subtitles.embed_subtitles = true;
    let mut updates = UpdateSettings::default();
    updates.check_interval_hours = 1;
    let mut privacy = PrivacySettings::default();
    privacy.keep_history = false;
    let s = s
        .with_formats(formats)
        .with_sponsorblock(sponsorblock)
        .with_subtitles(subtitles)
        .with_updates(updates)
        .with_privacy(privacy);
    assert_eq!(s.formats.max_video_height, 720);
    assert!(s.sponsorblock.enabled_by_default);
    assert!(s.subtitles.embed_subtitles);
    assert_eq!(s.updates.check_interval_hours, 1);
    assert!(!s.privacy.keep_history);
    assert_eq!(s.general.concurrency, 4);
    assert_eq!(s.network.retries, 9);
}

#[test]
fn setting_keys_and_flags() {
    assert_eq!(keys::USER_SETTINGS, "user_settings");
    assert_eq!(keys::WINDOW_STATE, "window_state");
    assert_eq!(keys::LAST_PRESET, "last_preset");
    assert_eq!(keys::LAST_DESTINATION, "last_destination");
    assert_eq!(keys::COOKIES_IMPORTED, "cookies_imported");
    assert!(cookies_imported(Some(true)));
    assert!(!cookies_imported(Some(false)));
    assert!(!cookies_imported(None));
}
