use downlink::db::{DownloadRow, DownloadStatus, SourceKind};
use downlink::decimal::Percent;
use downlink::events::DownlinkEvent;
use downlink::tool_manager::ToolManifestEntry;
use downlink::ytdlp::PreviewMetadata;
use downlink::{
    add_urls, check_app_update, check_for_updates, emit_app_ready, expand_playlist,
    fetch_metadata, first_url, get_history, get_presets, get_queue, open_folder, queue_item,
    source_kind_for, update_tool, AddUrlsOptions, PathProbe, UpdateCheck,
};

fn options() -> AddUrlsOptions {
    AddUrlsOptions {
        preset_id: "p".to_string(),
        output_dir: "/o".to_string(),
        parent_id: None,
        source_kind: None,
        title: None,
        uploader: None,
        thumbnail_url: None,
        duration_seconds: None,
    }
}

fn row(id: u128, status: DownloadStatus) -> DownloadRow {
    DownloadRow {
        id,
        created_at: 1,
        updated_at: 2,
        source_url: format!("https://e/{}", id),
        source_kind: SourceKind::Single,
        parent_id: None,
        title: Some("T".to_string()),
        uploader: Some("U".to_string()),
        duration_seconds: None,
        thumbnail_url: None,
        status,
        phase: Some("P".to_string()),
        preset_id: "p".to_string(),
        output_dir: "/o".to_string(),
        final_path: Some("/o/f".to_string()),
        progress_percent: Some(Percent { thousandths: 1000 }),
        bytes_downloaded: None,
        bytes_total: None,
        speed_bps: Some(5),
        eta_seconds: Some(6),
        error_code: None,
        error_message: Some("m".to_string()),
    }
}

fn update(tool: &str) -> ToolManifestEntry {
    ToolManifestEntry {
        tool: tool.to_string(),
        version: "1".to_string(),
        download_url: String::new(),
        sha256: String::new(),
        size_bytes: 0,
    }
}

#[test]
fn adding_urls() {
    assert_eq!(add_urls("nothing", &options()).unwrap_err(), "No valid http(s) URLs found.");
    let plan = add_urls("https://e/a and https://e/b", &options()).unwrap();
    assert_eq!(plan.urls, vec!["https://e/a", "https://e/b"]);
    assert_eq!(plan.source_kind, SourceKind::Single);
    assert!(!plan.record_metadata);
    let mut o = options();
    o.source_kind = Some("playlist_item".to_string());
    o.thumbnail_url = Some("t".to_string());
    let plan = add_urls("https://e/a", &o).unwrap();
    assert_eq!(plan.source_kind, SourceKind::PlaylistItem);
    assert!(plan.record_metadata);
    let mut o = options();
    o.duration_seconds = Some(1);
    assert!(!add_urls("https://e/a", &o).unwrap().record_metadata);
    assert_eq!(source_kind_for(&Some("playlist_parent".to_string())), SourceKind::PlaylistParent);
    assert_eq!(source_kind_for(&Some("single".to_string())), SourceKind::Single);
    assert_eq!(source_kind_for(&Some("other".to_string())), SourceKind::Single);
    assert_eq!(source_kind_for(&None), SourceKind::Single);
}

#[test]
fn first_url_of_a_text() {
    assert_eq!(first_url("x https://e/a https://e/b", "none").unwrap(), "https://e/a");
    assert_eq!(
        first_url("x", "No valid http(s) URL found.").unwrap_err(),
        "No valid http(s) URL found."
    );
}

#[test]
fn results_handed_back() {
    let meta = PreviewMetadata {
        url: "https://e/a".to_string(),
        title: Some("T".to_string()),
        uploader: None,
        duration_seconds: Some(3),
        thumbnail_url: None,
        filesize_bytes: Some(4),
        is_playlist: true,
        playlist_title: Some("L".to_string()),
        playlist_count_hint: Some(2),
    };
    let r = fetch_metadata(meta);
    assert_eq!(r.id, 0);
    assert_eq!(r.url, "https://e/a");
    assert!(r.is_playlist);
    assert_eq!(r.title.as_deref(), Some("T"));
    assert_eq!(r.duration_seconds, Some(3));
    assert_eq!(r.filesize_bytes, Some(4));
    assert_eq!(r.playlist_title.as_deref(), Some("L"));
    assert_eq!(r.playlist_count_hint, Some(2));
    let r = expand_playlist(9, vec![1, 2, 3]);
    assert_eq!((r.parent_id, r.item_ids.clone(), r.count), (9, vec![1, 2, 3], 3));
}

#[test]
fn queue_and_history() {
    let item = queue_item(row(7, DownloadStatus::PostProcessing));
    assert_eq!(item.id, 7);
    assert_eq!(item.status, "postprocessing");
    assert_eq!(item.source_url, "https://e/7");
    assert_eq!(item.title.as_deref(), Some("T"));
    assert_eq!(item.uploader.as_deref(), Some("U"));
    assert_eq!(item.phase.as_deref(), Some("P"));
    assert_eq!(item.progress_percent, Some(Percent { thousandths: 1000 }));
    assert_eq!((item.speed_bps, item.eta_seconds), (Some(5), Some(6)));
    assert_eq!(item.final_path.as_deref(), Some("/o/f"));
    assert_eq!(item.error_message.as_deref(), Some("m"));
    let items = get_queue(vec![
        row(1, DownloadStatus::Queued),
        row(2, DownloadStatus::Failed),
        row(3, DownloadStatus::Stopped),
    ]);
    let shown: Vec<(u128, &str)> = items.iter().map(|i| (i.id, i.status.as_str())).collect();
    assert_eq!(shown, vec![(1, "queued"), (2, "failed"), (3, "stopped")]);
    assert!(get_queue(Vec::new()).is_empty());
    assert_eq!(get_history(None), 100);
    assert_eq!(get_history(Some(5)), 5);
}

#[test]
fn presets_and_updates() {
    let presets = get_presets();
    let shown: Vec<(&str, &str)> =
        presets.iter().map(|p| (p.id.as_str(), p.name.as_str())).collect();
    assert_eq!(
        shown,
        vec![
            ("recommended_best", "Recommended (Best)"),
            ("mp4_1080p", "1080p MP4"),
            ("mp4_best", "Best MP4"),
            ("audio_m4a", "Audio M4A"),
            ("audio_mp3_320", "Audio MP3 320"),
        ]
    );
    let due = vec![update("ffmpeg"), update("yt-dlp"), update("ffmpeg")];
    assert_eq!(check_for_updates(&due), vec!["ffmpeg", "yt-dlp", "ffmpeg"]);
    assert_eq!(update_tool(&due, "yt-dlp"), Ok(1));
    assert_eq!(update_tool(&due, "ffmpeg"), Ok(0));
    assert_eq!(update_tool(&due, "ffprobe").unwrap_err(), "No update available for ffprobe");
}

#[test]
fn folder_to_open() {
    let file = PathProbe {
        path: "/o/a.mp4".to_string(),
        is_file: true,
        exists: true,
        parent: Some("/o".to_string()),
    };
    assert_eq!(open_folder(&file, None), "/o");
    let rootless = PathProbe { path: "a".to_string(), is_file: true, exists: true, parent: None };
    assert_eq!(open_folder(&rootless, None), "a");
    let dir = PathProbe {
        path: "/o".to_string(),
        is_file: false,
        exists: true,
        parent: Some("/".to_string()),
    };
    assert_eq!(open_folder(&dir, Some("/dl")), "/o");
    let gone = PathProbe {
        path: "/o/x".to_string(),
        is_file: false,
        exists: false,
        parent: Some("/o".to_string()),
    };
    assert_eq!(open_folder(&gone, Some("/dl")), "/o");
    let nowhere = PathProbe { path: "".to_string(), is_file: false, exists: false, parent: None };
    assert_eq!(open_folder(&nowhere, Some("/dl")), "/dl");
    assert_eq!(open_folder(&nowhere, None), "/");
}

#[test]
fn application_updates_and_the_ready_event() {
    let info = check_app_update(
        "1.0".to_string(),
        UpdateCheck::Found { version: "1.1".to_string(), notes: Some("n".to_string()) },
    );
    assert!(info.available);
    assert_eq!(info.current_version, "1.0");
    assert_eq!(info.latest_version.as_deref(), Some("1.1"));
    assert_eq!(info.release_notes.as_deref(), Some("n"));
    assert_eq!(info.download_url, None);
    for check in [UpdateCheck::UpToDate, UpdateCheck::Unavailable] {
        let info = check_app_update("1.0".to_string(), check);
        assert!(!info.available);
        assert_eq!(info.latest_version, None);
        assert_eq!(info.release_notes, None);
    }
    match emit_app_ready("1.0".to_string(), Some("2024".to_string()), None) {
        DownlinkEvent::AppReady { versions } => {
            assert_eq!(versions.app_version, "1.0");
            assert_eq!(versions.yt_dlp_version.as_deref(), Some("2024"));
            assert_eq!(versions.ffmpeg_version, None);
        }
        other => panic!("unexpected event {:?}", other),
    }
}
