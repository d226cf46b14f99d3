use downlink::db::{
    app_data_dir, app_dirs, checked_row, db_path, join_path, migrate, row_to_download, DirError,
    DownloadStatus, MigrationPlan, RawDownloadRow, RowError, SchemaTooNew, SourceKind,
    SCHEMA_VERSION,
};
use downlink::decimal::Percent;

fn raw() -> RawDownloadRow {
    RawDownloadRow {
        id: "67e55044-10b1-426f-9247-bb680e5fe0c8".to_string(),
        created_at: "2024-01-02T03:04:05.678+00:00".to_string(),
        updated_at: "2024-01-02T04:04:05+01:00".to_string(),
        source_url: "https://e/x".to_string(),
        source_kind: "playlist_item".to_string(),
        parent_id: Some("00000000-0000-0000-0000-000000000001".to_string()),
        title: Some("T".to_string()),
        uploader: None,
        duration_seconds: Some(9),
        thumbnail_url: None,
        status: "downloading".to_string(),
        phase: Some("Starting…".to_string()),
        preset_id: "mp4_best".to_string(),
        output_dir: "/out".to_string(),
        final_path: None,
        progress_percent: Some(Percent { thousandths: 12500 }),
        bytes_downloaded: Some(1),
        bytes_total: Some(2),
        speed_bps: Some(3),
        eta_seconds: Some(4),
        error_code: None,
        error_message: Some("m".to_string()),
    }
}

#[test]
fn status_names_go_both_ways() {
    let all = [
        (DownloadStatus::Queued, "queued"),
        (DownloadStatus::Fetching, "fetching"),
        (DownloadStatus::Ready, "ready"),
        (DownloadStatus::Downloading, "downloading"),
        (DownloadStatus::PostProcessing, "postprocessing"),
        (DownloadStatus::Stopped, "stopped"),
        (DownloadStatus::Done, "done"),
        (DownloadStatus::Failed, "failed"),
        (DownloadStatus::Canceled, "canceled"),
    ];
    for (status, name) in all {
        assert_eq!(status.as_str(), name);
        assert_eq!(DownloadStatus::from_str(name), Some(status));
    }
    assert_eq!(DownloadStatus::from_str("Queued"), None);
    assert_eq!(DownloadStatus::from_str(""), None);
    assert!(DownloadStatus::Queued.is_startable());
    assert!(DownloadStatus::Ready.is_startable());
    assert!(DownloadStatus::Stopped.is_startable());
    assert!(!DownloadStatus::Done.is_startable());
    assert!(!DownloadStatus::Fetching.is_startable());
}

#[test]
fn kind_names_go_both_ways() {
    let all = [
        (SourceKind::Single, "single"),
        (SourceKind::PlaylistParent, "playlist_parent"),
        (SourceKind::PlaylistItem, "playlist_item"),
    ];
    for (kind, name) in all {
        assert_eq!(kind.as_str(), name);
        assert_eq!(SourceKind::from_str(name), Some(kind));
    }
    assert_eq!(SourceKind::from_str("playlist"), None);
}

#[test]
fn a_well_formed_row_is_read() {
    let row = row_to_download(raw()).unwrap();
    assert_eq!(row.id, 0x67e55044_10b1_426f_9247_bb680e5fe0c8);
    assert_eq!(row.created_at, 1704164645678);
    assert_eq!(row.updated_at, 1704164645000);
    assert_eq!(row.parent_id, Some(1));
    assert_eq!(row.source_kind, SourceKind::PlaylistItem);
    assert_eq!(row.status, DownloadStatus::Downloading);
    assert_eq!(row.source_url, "https://e/x");
    assert_eq!(row.title.as_deref(), Some("T"));
    assert_eq!(row.duration_seconds, Some(9));
    assert_eq!(row.phase.as_deref(), Some("Starting…"));
    assert_eq!(row.preset_id, "mp4_best");
    assert_eq!(row.output_dir, "/out");
    assert_eq!(row.progress_percent, Some(Percent { thousandths: 12500 }));
    assert_eq!(
        (row.bytes_downloaded, row.bytes_total, row.speed_bps, row.eta_seconds),
        (Some(1), Some(2), Some(3), Some(4))
    );
    assert_eq!(row.error_message.as_deref(), Some("m"));
    let mut orphan = raw();
    orphan.parent_id = None;
    assert_eq!(row_to_download(orphan).unwrap().parent_id, None);
}

#[test]
fn a_malformed_column_makes_the_row_invalid() {
    let mut r = raw();
    r.id = "not-a-uuid".to_string();
    assert_eq!(row_to_download(r).unwrap_err(), RowError::InvalidQuery);
    let mut r = raw();
    r.created_at = "yesterday".to_string();
    assert!(row_to_download(r).is_err());
    let mut r = raw();
    r.updated_at = "".to_string();
    assert!(row_to_download(r).is_err());
    let mut r = raw();
    r.source_kind = "album".to_string();
    assert!(row_to_download(r).is_err());
    let mut r = raw();
    r.parent_id = Some("zz".to_string());
    assert!(row_to_download(r).is_err());
    let mut r = raw();
    r.status = "paused".to_string();
    assert!(row_to_download(r).is_err());
    assert!(checked_row(raw(), None, Some(1), Some(2), Some(None)).is_err());
    assert!(checked_row(raw(), Some(1), None, Some(2), Some(None)).is_err());
    assert!(checked_row(raw(), Some(1), Some(1), None, Some(None)).is_err());
    assert!(checked_row(raw(), Some(1), Some(1), Some(2), None).is_err());
    let row = checked_row(raw(), Some(5), Some(1), Some(2), Some(Some(6))).unwrap();
    assert_eq!((row.id, row.created_at, row.updated_at, row.parent_id), (5, 1, 2, Some(6)));
}

#[test]
fn directories_under_the_data_directory() {
    assert_eq!(app_data_dir(Some("/d")).unwrap(), "/d");
    assert_eq!(app_data_dir(None).unwrap_err(), DirError::Unresolved);
    assert_eq!(db_path(Some("/d")).unwrap(), "/d/downlink.sqlite3");
    assert_eq!(db_path(Some("/d/")).unwrap(), "/d/downlink.sqlite3");
    assert!(db_path(None).is_err());
    let dirs = app_dirs(Some("/d")).unwrap();
    assert_eq!(dirs.data, "/d");
    assert_eq!(dirs.logs, "/d/logs");
    assert_eq!(dirs.tools, "/d/tools");
    assert_eq!(dirs.tmp, "/d/tmp");
    assert!(app_dirs(None).is_err());
    assert_eq!(join_path("", "x"), "x");
    assert_eq!(join_path("/", "x"), "/x");
    assert_eq!(
        DirError::Unresolved.message(),
        "failed to resolve per-user app data directory"
    );
}

#[test]
fn migration_follows_the_stored_version() {
    assert_eq!(SCHEMA_VERSION, 1);
    assert_eq!(migrate(None), Ok(MigrationPlan::CreateSchema));
    assert_eq!(migrate(Some("0")), Ok(MigrationPlan::CreateSchema));
    assert_eq!(migrate(Some("junk")), Ok(MigrationPlan::CreateSchema));
    assert_eq!(migrate(Some("")), Ok(MigrationPlan::CreateSchema));
    assert_eq!(migrate(Some("1")), Ok(MigrationPlan::UpToDate));
    assert_eq!(migrate(Some("+1")), Ok(MigrationPlan::UpToDate));
    assert_eq!(migrate(Some("-4")), Ok(MigrationPlan::UpToDate));
    assert_eq!(migrate(Some("2")), Err(SchemaTooNew { found: 2, supported: 1 }));
    assert_eq!(
        migrate(Some("9223372036854775807")),
        Err(SchemaTooNew { found: i64::MAX, supported: 1 })
    );
    assert_eq!(migrate(Some("9223372036854775808")), Ok(MigrationPlan::CreateSchema));
    assert_eq!(migrate(Some("-9223372036854775808")), Ok(MigrationPlan::UpToDate));
    assert_eq!(migrate(Some(" 1")), Ok(MigrationPlan::CreateSchema));
}
