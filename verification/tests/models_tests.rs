use downlink::decimal::Percent;
use downlink::events::helpers::{
    action, fail_extractor_outdated, fail_format_unavailable, fail_login_required, fail_unknown,
};
use downlink::events::{ActionKind, DownlinkEvent, ErrorCode as EventErrorCode, DOWNLINK_EVENT_NAME};
use downlink::models::{
    DownloadItem, DownloadStatus, ErrorCode, FeatureToggles, PhaseLabel, Progress,
    RemediationAction, SourceKind, UserFacingError,
};

#[test]
fn new_downloads_start_out_fresh() {
    let item = DownloadItem::new_single("https://e/x".to_string(), "p".to_string(), "/out".to_string());
    assert_eq!(item.source_url, "https://e/x");
    assert_eq!(item.source_kind, SourceKind::Single);
    assert_eq!(item.parent_id, None);
    assert_eq!(item.status, DownloadStatus::Queued);
    assert_eq!(item.phase.as_ref().unwrap().0, "Queued");
    assert_eq!(item.created_at, item.updated_at);
    assert_eq!(item.progress, Progress::empty());
    assert_eq!(item.preset_id, "p");
    assert_eq!(item.output_dir, "/out");
    assert!(item.title.is_none() && item.final_path.is_none() && item.last_error.is_none());
    let other = DownloadItem::new_single("u".to_string(), "p".to_string(), "/o".to_string());
    assert_ne!(item.id, other.id);
    assert!(item.created_at > 1_600_000_000_000);

    let parent =
        DownloadItem::new_playlist_parent("https://e/l".to_string(), "p".to_string(), "/o".to_string());
    assert_eq!(parent.source_kind, SourceKind::PlaylistParent);
    assert_eq!(parent.status, DownloadStatus::Fetching);
    assert_eq!(parent.phase.as_ref().unwrap().0, "Fetching playlist…");

    let child = DownloadItem::new_playlist_item(
        parent.id,
        "https://e/1".to_string(),
        "p".to_string(),
        "/o".to_string(),
        Some("Hint".to_string()),
    );
    assert_eq!(child.source_kind, SourceKind::PlaylistItem);
    assert_eq!(child.parent_id, Some(parent.id));
    assert_eq!(child.title.as_deref(), Some("Hint"));
    assert_eq!(child.status, DownloadStatus::Queued);

    let made = DownloadItem::created(
        5,
        77,
        SourceKind::Single,
        None,
        "u".to_string(),
        "p".to_string(),
        "/o".to_string(),
        None,
    );
    assert_eq!((made.id, made.created_at, made.updated_at), (5, 77, 77));
}

#[test]
fn status_error_and_completion() {
    let mut item = DownloadItem::created(
        1,
        10,
        SourceKind::Single,
        None,
        "u".to_string(),
        "p".to_string(),
        "/o".to_string(),
        None,
    );
    item.set_status_at(DownloadStatus::Downloading, Some(PhaseLabel::new("Starting…")), 20);
    assert_eq!(item.status, DownloadStatus::Downloading);
    assert_eq!(item.phase.as_ref().unwrap().0, "Starting…");
    assert_eq!(item.updated_at, 20);
    assert_eq!(item.created_at, 10);
    item.set_status(DownloadStatus::Stopped, None);
    assert_eq!(item.status, DownloadStatus::Stopped);
    assert!(item.phase.is_none());

    let err = UserFacingError {
        error_code: ErrorCode::Network,
        user_message: "down".to_string(),
        actions: vec![RemediationAction::retry()],
    };
    item.set_error_at(err, 30);
    assert_eq!(item.status, DownloadStatus::Failed);
    assert_eq!(item.phase.as_ref().unwrap().0, "Failed");
    assert_eq!(item.updated_at, 30);
    assert_eq!(item.last_error.as_ref().unwrap().user_message, "down");
    assert_eq!(item.last_error.as_ref().unwrap().error_code, ErrorCode::Network);

    item.progress.bytes_total = Some(9);
    item.mark_done_at("/o/a.mp4".to_string(), 40);
    assert_eq!(item.status, DownloadStatus::Done);
    assert_eq!(item.phase.as_ref().unwrap().0, "Completed");
    assert_eq!(item.final_path.as_deref(), Some("/o/a.mp4"));
    assert_eq!(item.progress.percent, Some(Percent { thousandths: 100_000 }));
    assert_eq!(item.progress.bytes_total, Some(9));
    assert_eq!(item.updated_at, 40);
    item.mark_done("/o/b.mp4".to_string());
    assert_eq!(item.final_path.as_deref(), Some("/o/b.mp4"));
    let again = UserFacingError {
        error_code: ErrorCode::Unknown,
        user_message: "x".to_string(),
        actions: Vec::new(),
    };
    item.set_error(again);
    assert_eq!(item.status, DownloadStatus::Failed);
}

#[test]
fn remedies_and_their_labels() {
    assert!(matches!(
        RemediationAction::import_cookies(),
        RemediationAction::ImportCookies { label } if label == "Import cookies from browser"
    ));
    assert!(matches!(
        RemediationAction::update_ytdlp(),
        RemediationAction::UpdateYtDlp { label } if label == "Update yt-dlp and retry"
    ));
    assert!(matches!(
        RemediationAction::open_proxy_settings(),
        RemediationAction::OpenSettingsProxy { label } if label == "Configure proxy…"
    ));
    assert!(matches!(
        RemediationAction::retry_recommended(),
        RemediationAction::RetryRecommended { label } if label == "Download Recommended instead"
    ));
    assert!(matches!(
        RemediationAction::retry(),
        RemediationAction::Retry { label } if label == "Retry"
    ));
    let t = FeatureToggles::default();
    assert!(!t.sponsorblock_enabled && t.sponsorblock_categories.is_empty());
    assert_eq!(t.subtitles_language.as_deref(), Some("en"));
    assert!(t.embed_metadata && t.embed_thumbnail);
    assert!(!t.subtitles_enabled && !t.subtitles_embed && !t.subtitles_auto_captions);
    assert_eq!(t.sponsorblock_mode, None);
}

#[test]
fn ready_made_failure_events() {
    assert_eq!(DOWNLINK_EVENT_NAME, "downlink://event");
    let a = action(ActionKind::OpenLogs, "View logs");
    assert_eq!(a.kind, ActionKind::OpenLogs);
    assert_eq!(a.label, "View logs");
    match fail_login_required(4) {
        DownlinkEvent::DownloadFailed { id, error_code, user_message, actions } => {
            assert_eq!(id, 4);
            assert_eq!(error_code, EventErrorCode::LoginRequired);
            assert_eq!(
                user_message,
                "This site requires sign-in to proceed. Import cookies from your browser and retry."
            );
            assert_eq!(actions.len(), 1);
            assert_eq!(actions[0].kind, ActionKind::ImportCookies);
            assert_eq!(actions[0].label, "Import cookies from browser");
        }
        other => panic!("unexpected event {:?}", other),
    }
    match fail_extractor_outdated(4) {
        DownlinkEvent::DownloadFailed { error_code, user_message, actions, .. } => {
            assert_eq!(error_code, EventErrorCode::ExtractorOutdated);
            assert_eq!(
                user_message,
                "Downloader engine is outdated for this site. Update yt-dlp and retry."
            );
            let kinds: Vec<ActionKind> = actions.iter().map(|a| a.kind).collect();
            assert_eq!(kinds, vec![ActionKind::UpdateYtDlp, ActionKind::Retry]);
        }
        other => panic!("unexpected event {:?}", other),
    }
    match fail_format_unavailable(4) {
        DownlinkEvent::DownloadFailed { error_code, user_message, actions, .. } => {
            assert_eq!(error_code, EventErrorCode::FormatUnavailable);
            assert_eq!(
                user_message,
                "That quality/format isn't available for this media. Try the recommended preset."
            );
            assert_eq!(actions[0].kind, ActionKind::RetryRecommended);
            assert_eq!(actions[0].label, "Use Recommended preset");
        }
        other => panic!("unexpected event {:?}", other),
    }
    match fail_unknown(4, "boom".to_string()) {
        DownlinkEvent::DownloadFailed { error_code, user_message, actions, .. } => {
            assert_eq!(error_code, EventErrorCode::Unknown);
            assert_eq!(user_message, "boom");
            assert_eq!(actions.len(), 1);
            assert_eq!(actions[0].kind, ActionKind::OpenLogs);
        }
        other => panic!("unexpected event {:?}", other),
    }
}
