use downlink::ytdlp::{
    entry_url, looks_like_json_object, parse_playlist_entry, parse_preview_metadata, JsonLineRun,
    MetadataError, YtDlpConfig, YtDlpError, YtDlpErrorKind, YtDlpRunner, MAX_STDOUT_LINES,
};

fn runner() -> YtDlpRunner {
    let mut cfg = YtDlpConfig::new("/bin/yt-dlp".to_string());
    cfg.global_args = vec!["--proxy".to_string(), "socks5://x".to_string()];
    YtDlpRunner::new(cfg)
}

#[test]
fn configuration_and_arguments() {
    let cfg = YtDlpConfig::new("/bin/yt-dlp".to_string());
    assert_eq!(cfg.yt_dlp_path, "/bin/yt-dlp");
    assert!(cfg.global_args.is_empty());
    assert_eq!(cfg.metadata_timeout, 30_000);
    let r = runner();
    assert_eq!(r.yt_dlp_path(), "/bin/yt-dlp");
    assert_eq!(r.metadata_timeout(), 30_000);
    assert_eq!(
        r.fetch_metadata_args("https://e/x"),
        vec!["--dump-json", "--no-warnings", "--no-call-home", "--newline", "https://e/x"]
    );
    assert_eq!(
        r.enumerate_playlist_args("https://e/p"),
        vec![
            "--flat-playlist",
            "--dump-json",
            "--no-warnings",
            "--no-call-home",
            "--newline",
            "https://e/p",
        ]
    );
    assert_eq!(
        r.exec_json_lines(&vec!["-a".to_string()]),
        vec!["--proxy", "socks5://x", "-a"]
    );
    let e = r.not_found();
    assert_eq!(e.kind, YtDlpErrorKind::NotFound);
    assert_eq!(e.describe(), "NotFound: yt-dlp not found at /bin/yt-dlp");
}

#[test]
fn json_like_lines() {
    assert!(looks_like_json_object("{}"));
    assert!(looks_like_json_object("  \t{\"a\":1}"));
    assert!(!looks_like_json_object("{\"a\":1} "));
    assert!(!looks_like_json_object("[1]"));
    assert!(!looks_like_json_object(""));
    assert!(!looks_like_json_object("   "));
    assert!(!looks_like_json_object("x{}"));
    assert!(!looks_like_json_object("{"));
    assert!(looks_like_json_object("}") == false);
}

#[test]
fn a_run_keeps_lines_and_counts_json() {
    let mut run = JsonLineRun::new();
    run.on_stdout_line("{\"a\":1}".to_string());
    run.on_stdout_line("note".to_string());
    run.on_stderr_line("warn".to_string());
    let (json, output) = run.clone().on_exit(Some(0), true).unwrap();
    assert_eq!(json, vec!["{\"a\":1}"]);
    assert_eq!(output.stdout_lines, vec!["{\"a\":1}", "note"]);
    assert_eq!(output.stderr_lines, vec!["warn"]);
    assert_eq!(output.exit_code, Some(0));
    let e = run.clone().on_exit(Some(-2), false).unwrap_err();
    assert_eq!(e.kind, YtDlpErrorKind::NonZeroExit);
    assert_eq!(e.message, "yt-dlp exited with status Some(-2). See logs for details.");
    assert_eq!(e.output.as_ref().unwrap().exit_code, Some(-2));
    let e = run.clone().on_exit(None, false).unwrap_err();
    assert_eq!(e.message, "yt-dlp exited with status None. See logs for details.");
    let e = run.clone().on_exit(Some(i32::MIN), false).unwrap_err();
    assert_eq!(e.message, "yt-dlp exited with status Some(-2147483648). See logs for details.");
    let e = run.clone().on_exit(Some(1040), false).unwrap_err();
    assert_eq!(e.message, "yt-dlp exited with status Some(1040). See logs for details.");
    let e = run.on_timeout("30s");
    assert_eq!(e.kind, YtDlpErrorKind::Timeout);
    assert_eq!(e.describe(), "Timeout: yt-dlp timed out after 30s");
    let kept = e.output.unwrap();
    assert_eq!(kept.stdout_lines.len(), 2);
    assert_eq!(kept.exit_code, None);
}

#[test]
fn kept_output_is_bounded() {
    let mut run = JsonLineRun::new();
    for _ in 0..(MAX_STDOUT_LINES + 5) {
        run.on_stdout_line("{}".to_string());
        run.on_stderr_line("e".to_string());
    }
    assert_eq!(run.stdout_lines.len(), MAX_STDOUT_LINES);
    assert_eq!(run.stderr_lines.len(), 20_000);
    assert_eq!(run.json_lines.len(), MAX_STDOUT_LINES + 5);
}

#[test]
fn preview_of_a_single_medium() {
    let line = "{\"webpage_url\":\"https://e/w\",\"title\":\"T\",\"uploader\":\"U\",\
                \"duration\":61,\"thumbnail\":\"https://e/t.jpg\",\"filesize_approx\":99,\
                \"playlist_count\":3}";
    let p = parse_preview_metadata(line, "https://fallback").unwrap();
    assert_eq!(p.url, "https://e/w");
    assert_eq!(p.title.as_deref(), Some("T"));
    assert_eq!(p.uploader.as_deref(), Some("U"));
    assert_eq!(p.duration_seconds, Some(61));
    assert_eq!(p.thumbnail_url.as_deref(), Some("https://e/t.jpg"));
    assert_eq!(p.filesize_bytes, Some(99));
    assert!(!p.is_playlist);
    assert_eq!(p.playlist_title, None);
    assert_eq!(p.playlist_count_hint, None);
}

#[test]
fn preview_of_a_playlist() {
    let p = parse_preview_metadata(
        "{\"_type\":\"playlist\",\"title\":\"List\",\"n_entries\":7,\"duration\":1.5,\"filesize\":5,\"filesize_approx\":6}",
        "https://fallback",
    )
    .unwrap();
    assert_eq!(p.url, "https://fallback");
    assert!(p.is_playlist);
    assert_eq!(p.playlist_title.as_deref(), Some("List"));
    assert_eq!(p.playlist_count_hint, Some(7));
    assert_eq!(p.duration_seconds, Some(1));
    assert_eq!(p.filesize_bytes, Some(5));
    let p = parse_preview_metadata("{\"entries\":[],\"playlist_count\":2,\"n_entries\":9}", "u").unwrap();
    assert!(p.is_playlist);
    assert_eq!(p.playlist_count_hint, Some(2));
    assert_eq!(p.playlist_title, None);
    let p = parse_preview_metadata("{\"_type\":\"video\",\"duration\":-3.5}", "u").unwrap();
    assert!(!p.is_playlist);
    assert_eq!(p.duration_seconds, Some(0));
    let p = parse_preview_metadata("[1,2]", "u").unwrap();
    assert_eq!(p.url, "u");
    assert_eq!(p.title, None);
}

#[test]
fn invalid_json_is_its_own_kind() {
    let e: YtDlpError = parse_preview_metadata("{oops", "u").unwrap_err();
    assert_eq!(e.kind, YtDlpErrorKind::InvalidJson);
    assert!(e.message.starts_with("invalid yt-dlp JSON: "));
    assert!(e.message.len() > "invalid yt-dlp JSON: ".len());
    assert!(e.output.is_none());
    match parse_playlist_entry("{oops", "u") {
        Err(MetadataError::Tool(e)) => {
            assert_eq!(e.kind, YtDlpErrorKind::InvalidJson);
            assert!(e.message.starts_with("invalid yt-dlp playlist JSON: "));
        }
        other => panic!("unexpected result {:?}", other),
    }
}

#[test]
fn playlist_entry_addresses() {
    let playlist = "https://example.com/lists/mine?x=1";
    let e = parse_playlist_entry(
        "{\"webpage_url\":\"https://e/w\",\"url\":\"ignored\",\"title\":\"T\",\"duration\":3}",
        playlist,
    )
    .unwrap();
    assert_eq!(e.url, "https://e/w");
    assert_eq!(e.title.as_deref(), Some("T"));
    assert_eq!(e.duration_seconds, Some(3));
    let e = parse_playlist_entry("{\"url\":\"https://e/direct\"}", playlist).unwrap();
    assert_eq!(e.url, "https://e/direct");
    let e = parse_playlist_entry("{\"url\":\"abc\"}", playlist).unwrap();
    assert_eq!(e.url, "https://example.com/abc");
    let e = parse_playlist_entry("{\"url\":\"abc\"}", "https://example.com/a/b/c").unwrap();
    assert_eq!(e.url, "https://example.com/a/abc");
    let e = parse_playlist_entry("{\"url\":\"abc\"}", "https://example.com/lists/").unwrap();
    assert_eq!(e.url, "https://example.com/lists/abc");
    let e = parse_playlist_entry("{\"url\":\"abc\"}", "https://example.com").unwrap();
    assert_eq!(e.url, "https://example.com/abc");
    let e = parse_playlist_entry("{\"url\":\"abc\"}", "not a url").unwrap();
    assert_eq!(e.url, "abc");
    let e = parse_playlist_entry("{\"id\":\"xyz\",\"uploader\":\"U\"}", playlist).unwrap();
    assert_eq!(e.url, "xyz");
    assert_eq!(e.uploader.as_deref(), Some("U"));
    match parse_playlist_entry("{\"title\":\"T\"}", playlist) {
        Err(e) => assert_eq!(e.describe(), "playlist entry missing url/webpage_url/id"),
        Ok(_) => panic!("an entry without address was accepted"),
    }
    assert_eq!(entry_url("http://e/x".to_string(), playlist), "http://e/x");
    assert_eq!(entry_url("/root".to_string(), playlist), "https://example.com/root");
}

#[test]
fn metadata_and_playlist_from_lines() {
    let r = runner();
    match r.fetch_metadata(&Vec::new(), "u") {
        Err(e) => assert_eq!(e.describe(), "yt-dlp returned no JSON output"),
        Ok(_) => panic!("metadata out of nothing"),
    }
    let lines = vec!["{\"title\":\"A\"}".to_string(), "{\"title\":\"B\"}".to_string()];
    assert_eq!(r.fetch_metadata(&lines, "u").unwrap().title.as_deref(), Some("A"));
    assert!(matches!(
        r.fetch_metadata(&vec!["{bad}".to_string()], "u"),
        Err(MetadataError::Tool(_))
    ));
    let lines = vec![
        "{\"id\":\"1\"}".to_string(),
        "   ".to_string(),
        "{bad}".to_string(),
        "{\"title\":\"no address\"}".to_string(),
        "{\"url\":\"https://e/2\"}".to_string(),
    ];
    let entries = r.enumerate_playlist(&lines, "https://e/list");
    let urls: Vec<&str> = entries.iter().map(|e| e.url.as_str()).collect();
    assert_eq!(urls, vec!["1", "https://e/2"]);
}
