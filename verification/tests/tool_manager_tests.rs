use downlink::db::AppDirs;
use downlink::download_manager::config::Candidate;
use downlink::tool_manager::{
    check_for_updates, compute_sha256, get_version, needs_update, parse_version, path_lies_in,
    verify_checksum, version_is_newer, InstalledVersions, Tool, ToolManager, ToolManagerConfig,
    ToolManagerConfigBuilder, ToolManifestEntry, ToolStatus, UpdateError, UpdateManifest,
    VersionError,
};

fn dirs() -> AppDirs {
    AppDirs {
        data: "/data".to_string(),
        logs: "/data/logs".to_string(),
        tools: "/data/tools".to_string(),
        tmp: "/data/tmp".to_string(),
    }
}

fn entry(tool: &str, version: &str) -> ToolManifestEntry {
    ToolManifestEntry {
        tool: tool.to_string(),
        version: version.to_string(),
        download_url: format!("https://example.com/{}", tool),
        sha256: "00".to_string(),
        size_bytes: 1,
    }
}

#[test]
fn test_parse_version_ytdlp() {
    let output = "2024.01.01\n";
    assert_eq!(parse_version(output, Tool::YtDlp), Some("2024.01.01".to_string()));
}

#[test]
fn test_parse_version_ffmpeg() {
    let output = "ffmpeg version 6.1.1 Copyright (c) 2000-2023 the FFmpeg developers\n";
    assert_eq!(parse_version(output, Tool::Ffmpeg), Some("6.1.1".to_string()));
}

#[test]
fn test_version_is_newer() {
    assert!(version_is_newer("2024.01.02", "2024.01.01"));
    assert!(!version_is_newer("2024.01.01", "2024.01.02"));
    assert!(!version_is_newer("2024.01.01", "2024.01.01"));
}

#[test]
fn test_tool_binary_names() {
    assert_eq!(Tool::YtDlp.binary_name_on(true), "yt-dlp.exe");
    assert_eq!(Tool::Ffmpeg.binary_name_on(true), "ffmpeg.exe");
    assert_eq!(Tool::YtDlp.binary_name(), "yt-dlp");
    assert_eq!(Tool::Ffmpeg.binary_name(), "ffmpeg");
}

#[test]
fn tool_names_and_version_args() {
    assert_eq!(Tool::YtDlp.as_str(), "yt-dlp");
    assert_eq!(Tool::Ffmpeg.as_str(), "ffmpeg");
    assert_eq!(Tool::Ffprobe.as_str(), "ffprobe");
    assert_eq!(Tool::Ffprobe.binary_name_on(true), "ffprobe.exe");
    assert_eq!(Tool::Ffprobe.binary_name_on(false), "ffprobe");
    assert_eq!(Tool::YtDlp.version_args(), vec!["--version"]);
    assert_eq!(Tool::Ffmpeg.version_args(), vec!["-version"]);
    assert_eq!(Tool::Ffprobe.version_args(), vec!["-version"]);
    assert_eq!(Tool::from_name("ffprobe"), Some(Tool::Ffprobe));
    assert_eq!(Tool::from_name("curl"), None);
}

#[test]
fn parse_version_edges() {
    assert_eq!(parse_version("", Tool::YtDlp), None);
    assert_eq!(parse_version("\n", Tool::YtDlp), Some(String::new()));
    assert_eq!(parse_version("  2025.02.03 \r\nmore", Tool::YtDlp), Some("2025.02.03".to_string()));
    assert_eq!(
        parse_version("ffprobe version N-1 built", Tool::Ffprobe),
        Some("N-1".to_string())
    );
    assert_eq!(parse_version("ffmpeg version", Tool::Ffmpeg), Some("ffmpeg version".to_string()));
    assert_eq!(parse_version("other version 1 2", Tool::Ffmpeg), Some("other version 1 2".to_string()));
    assert_eq!(
        parse_version("ffmpeg version 7 x", Tool::YtDlp),
        Some("ffmpeg version 7 x".to_string())
    );
}

#[test]
fn get_version_outcomes() {
    assert_eq!(get_version(false, "1.0\n", Tool::YtDlp), Err(VersionError::NonZeroExit));
    assert_eq!(get_version(true, "", Tool::YtDlp), Err(VersionError::Unparsable));
    assert_eq!(get_version(true, "1.0\n", Tool::YtDlp), Ok("1.0".to_string()));
    assert_eq!(VersionError::NonZeroExit.message(), "Tool returned non-zero exit code");
    assert_eq!(VersionError::Unparsable.message(), "Could not parse version from output");
}

#[test]
fn newer_is_text_order() {
    assert!(version_is_newer("10", "1"));
    assert!(version_is_newer("b", "a"));
    assert!(!version_is_newer("", "a"));
    assert!(version_is_newer("a", ""));
    assert!(version_is_newer("9", "10"));
    assert!(version_is_newer("é", "z"));
}

#[test]
fn updates_due_in_manifest_order() {
    let manifest = UpdateManifest {
        manifest_version: 1,
        updated_at: "2024-01-01".to_string(),
        tools: vec![
            entry("ffmpeg", "7.0"),
            entry("curl", "9"),
            entry("yt-dlp", "2024.01.02"),
            entry("ffprobe", "6.0"),
        ],
    };
    let installed = InstalledVersions {
        yt_dlp: Some("2024.01.01".to_string()),
        ffmpeg: None,
        ffprobe: Some("6.0".to_string()),
    };
    let updates = check_for_updates(manifest, &installed);
    let names: Vec<&str> = updates.iter().map(|u| u.tool.as_str()).collect();
    assert_eq!(names, vec!["ffmpeg", "yt-dlp"]);
    assert!(needs_update(&entry("yt-dlp", "2"), None));
    assert!(needs_update(&entry("yt-dlp", "2"), Some("1")));
    assert!(!needs_update(&entry("yt-dlp", "2"), Some("2")));
}

#[test]
fn sha256_is_the_known_digest() {
    assert_eq!(
        compute_sha256(&b"abc".to_vec()),
        "ba7816bf8f01cfea414140de5dae2223b00361a396177a9cb410ff61f20015ad"
    );
    assert_eq!(
        compute_sha256(&Vec::new()),
        "e3b0c44298fc1c149afbf4c8996fb92427ae41e4649b934ca495991b7852b855"
    );
}

#[test]
fn checksum_is_compared_exactly() {
    let mut e = entry("yt-dlp", "1");
    e.sha256 = "abcd".to_string();
    assert!(verify_checksum(&e, "abcd".to_string()).is_ok());
    match verify_checksum(&e, "abce".to_string()) {
        Err(err) => {
            assert_eq!(err.message(), "Checksum mismatch: expected abcd, got abce");
        }
        Ok(_) => panic!("a wrong checksum was accepted"),
    }
}

#[test]
fn manager_uses_tools_dir_when_none_is_set() {
    let m = ToolManager::new(ToolManagerConfig::default(), dirs());
    assert_eq!(m.tools_dir(), "/data/tools");
    let config = ToolManagerConfigBuilder::new()
        .bundled_dir("/app".to_string())
        .updated_dir("/upd".to_string())
        .manifest_url("https://example.com/m.json".to_string())
        .version_timeout(1234)
        .build();
    assert_eq!(config.bundled_dir.as_deref(), Some("/app"));
    assert_eq!(config.manifest_url.as_deref(), Some("https://example.com/m.json"));
    assert_eq!(config.version_timeout, 1234);
    let m = ToolManager::new(config, dirs());
    assert_eq!(m.tools_dir(), "/upd");
    assert_eq!(
        m.tool_places(Tool::YtDlp, false),
        vec!["/upd/yt-dlp".to_string(), "/app/yt-dlp".to_string()]
    );
    assert_eq!(m.reset_to_bundled(Tool::Ffmpeg, true), "/upd/ffmpeg.exe");
    let d = ToolManagerConfig::default();
    assert_eq!(d.bundled_dir, None);
    assert_eq!(d.updated_dir, "");
    assert_eq!(d.manifest_url, None);
    assert_eq!(d.version_timeout, 5000);
}

#[test]
fn first_healthy_candidate_wins() {
    let m = ToolManager::new(ToolManagerConfig::default(), dirs());
    let candidates = vec![
        Candidate { path: "/a".to_string(), exists: false },
        Candidate { path: "/b".to_string(), exists: true },
        Candidate { path: "/c".to_string(), exists: true },
    ];
    assert_eq!(m.find_tool(&candidates), Some("/b".to_string()));
    assert_eq!(m.find_tool(&Vec::new()), None);
}

#[test]
fn tool_info_and_overall_status() {
    let config = ToolManagerConfigBuilder::new().bundled_dir("/app".to_string()).build();
    let m = ToolManager::new(config, dirs());
    let found = m.get_tool_info(
        Tool::YtDlp,
        Some("/app/yt-dlp".to_string()),
        Some("1".to_string()),
        77,
    );
    assert_eq!(found.status, ToolStatus::Healthy);
    assert!(found.is_bundled);
    assert_eq!(found.last_checked, Some(77));
    assert_eq!(found.version.as_deref(), Some("1"));
    let elsewhere = m.get_tool_info(Tool::Ffmpeg, Some("/application/ffmpeg".to_string()), None, 1);
    assert!(!elsewhere.is_bundled);
    let missing = m.get_tool_info(Tool::Ffprobe, None, Some("x".to_string()), 1);
    assert_eq!(missing.status, ToolStatus::Missing);
    assert_eq!(missing.path, "");
    assert_eq!(missing.version, None);
    let status = m.get_toolchain_status(found.clone(), elsewhere.clone(), missing.clone());
    assert_eq!(status.overall_status, ToolStatus::Healthy);
    let mut broken = elsewhere.clone();
    broken.status = ToolStatus::Broken;
    assert_eq!(
        m.get_toolchain_status(found.clone(), broken, missing.clone()).overall_status,
        ToolStatus::Broken
    );
    let mut outdated = found.clone();
    outdated.status = ToolStatus::Outdated;
    assert_eq!(
        m.get_toolchain_status(outdated, elsewhere.clone(), missing.clone()).overall_status,
        ToolStatus::Outdated
    );
    let mut gone = found.clone();
    gone.status = ToolStatus::Missing;
    let mut broken = elsewhere;
    broken.status = ToolStatus::Broken;
    assert_eq!(
        m.get_toolchain_status(gone, broken, missing).overall_status,
        ToolStatus::Missing
    );
    assert!(path_lies_in("/app/bin/x", "/app"));
    assert!(path_lies_in("/app", "/app"));
    assert!(path_lies_in("/app/x", "/app/"));
    assert!(!path_lies_in("/apple", "/app"));
}

#[test]
fn update_paths_of_a_tool() {
    let m = ToolManager::new(ToolManagerConfig::default(), dirs());
    let paths = m.update_tool(&entry("yt-dlp", "1"), false).unwrap();
    assert_eq!(paths.temp, "/data/tmp/yt-dlp.download");
    assert_eq!(paths.target, "/data/tools/yt-dlp");
    assert_eq!(paths.backup, "/data/tools/yt-dlp.bak");
    let paths = m.update_tool(&entry("ffmpeg", "1"), true).unwrap();
    assert_eq!(paths.temp, "/data/tmp/ffmpeg.exe.download");
    assert_eq!(paths.target, "/data/tools/ffmpeg.exe");
    assert_eq!(paths.backup, "/data/tools/ffmpeg.bak");
    match m.update_tool(&entry("curl", "1"), false) {
        Err(UpdateError::UnknownTool(t)) => assert_eq!(t, "curl"),
        _ => panic!("an unknown tool was accepted"),
    }
    assert_eq!(UpdateError::UnknownTool("curl".to_string()).message(), "Unknown tool: curl");
}
