use downlink::decimal::Percent;
use downlink::download_manager::config::{
    ffmpeg_common_paths, ytdlp_common_paths, Candidate, DownloadConfig,
};
use downlink::download_manager::executor::{join, Stream, PROGRESS_TEMPLATE};
use downlink::download_manager::metadata::{first_line, metadata_fetch_args};
use downlink::download_manager::{
    build_download_args, fetch_metadata_for_url, find_ffmpeg_binary, find_ytdlp_binary,
    DownloadError, JobExecutor, Preset,
};
use downlink::events::{ActionKind, DownlinkEvent, DownloadStatus, ErrorCode};

fn config(ffmpeg: Option<&str>) -> DownloadConfig {
    DownloadConfig::with_binaries("/bin/yt-dlp".to_string(), ffmpeg.map(|s| s.to_string()))
}

#[test]
fn template_line_gives_a_progress_event() {
    let mut executor = JobExecutor::new(7);
    let events = executor.on_stdout_line("[downlink] 50.5% 1.5MiB/s 00:30 100MiB");
    assert_eq!(events.len(), 1);
    match &events[0] {
        DownlinkEvent::DownloadProgress { id, status, progress } => {
            assert_eq!(*id, 7);
            assert_eq!(*status, DownloadStatus::Downloading);
            assert_eq!(progress.percent.map(|p| p.thousandths as f64 / 1000.0), Some(50.5));
            assert_eq!(progress.speed_bps, Some(1572864));
            assert_eq!(progress.eta_seconds, Some(30));
            assert_eq!(progress.bytes_total, Some(104857600));
            assert_eq!(progress.bytes_downloaded, None);
            let phase = progress.phase.as_ref().unwrap();
            assert_eq!(phase.name, "Downloading");
            assert_eq!(phase.detail, None);
        }
        other => panic!("unexpected event {:?}", other),
    }
    assert_eq!(executor.last_percent, 50500);
}

#[test]
fn complete_line_then_clean_exit_is_done() {
    let mut executor = JobExecutor::new(1);
    let events = executor.on_stdout_line("[download] 100%");
    assert_eq!(events.len(), 2);
    match &events[1] {
        DownlinkEvent::DownloadProgress { progress, .. } => {
            assert_eq!(progress.percent, Some(Percent { thousandths: 100_000 }));
            assert_eq!(progress.phase.as_ref().unwrap().name, "Finishing...");
            assert_eq!(progress.bytes_total, None);
        }
        other => panic!("unexpected event {:?}", other),
    }
    assert_eq!(executor.on_exit(true).unwrap(), None);

    let mut executor = JobExecutor::new(1);
    executor.on_stdout_line("[download] Destination: /out/a.mp4");
    executor.on_stdout_line("[download] 100%");
    assert_eq!(executor.on_exit(true).unwrap(), Some("/out/a.mp4".to_string()));
}

#[test]
fn sign_in_failure_is_login_required() {
    let mut executor = JobExecutor::new(1);
    executor.on_stderr_line("ERROR: Sign in to confirm your age".to_string());
    match executor.on_exit(false) {
        Err(DownloadError::Failed { code, message, actions }) => {
            assert_eq!(code, ErrorCode::LoginRequired);
            assert_eq!(
                message,
                "This content requires sign-in. Import cookies from your browser and retry."
            );
            assert!(actions.iter().any(|a| a.kind == ActionKind::ImportCookies));
        }
        other => panic!("unexpected outcome {:?}", other),
    }
}

#[test]
fn progress_events_are_rate_limited() {
    let mut executor = JobExecutor::new(1);
    assert_eq!(executor.on_stdout_line("[downlink] 0.4% N/A N/A N/A").len(), 0);
    assert_eq!(executor.last_percent, 0);
    assert_eq!(executor.on_stdout_line("[downlink] 0.5% N/A N/A N/A").len(), 1);
    assert_eq!(executor.last_percent, 500);
    assert_eq!(executor.on_stdout_line("[downlink] 0.9% N/A N/A N/A").len(), 0);
    assert_eq!(executor.on_stdout_line("[downlink] 1.0% N/A N/A N/A").len(), 1);
    assert_eq!(executor.on_stdout_line("[downlink] 0.5% N/A N/A N/A").len(), 1);
    assert_eq!(executor.last_percent, 500);
    assert_eq!(executor.on_stdout_line("[downlink] 99.8% N/A N/A N/A").len(), 1);
    assert_eq!(executor.on_stdout_line("[downlink] 99.9% N/A N/A N/A").len(), 1);
    assert_eq!(executor.on_stdout_line("[downlink] 99.9% N/A N/A N/A").len(), 1);
    assert_eq!(executor.on_stdout_line("[downlink] N/A N/A N/A N/A").len(), 1);
    assert_eq!(executor.last_percent, 0);
}

#[test]
fn markers_are_sent_whatever_the_percentage() {
    let mut executor = JobExecutor::new(3);
    let events = executor.on_stdout_line("[Merger] Merging formats into \"a.mp4\"");
    assert_eq!(events.len(), 1);
    match &events[0] {
        DownlinkEvent::DownloadPostProcessing { id, step, detail } => {
            assert_eq!(*id, 3);
            assert_eq!(step, "Merging streams");
            assert_eq!(*detail, None);
        }
        other => panic!("unexpected event {:?}", other),
    }
    assert_eq!(executor.on_stdout_line("[ffmpeg] Destination: x").len(), 1);
    assert_eq!(executor.on_stdout_line("nothing of note").len(), 0);
    let events = executor.on_stdout_line("[download] 100% [Merger]");
    assert_eq!(events.len(), 3);
    assert!(matches!(events[0], DownlinkEvent::DownloadProgress { .. }));
    assert!(matches!(events[1], DownlinkEvent::DownloadPostProcessing { .. }));
    assert!(matches!(events[2], DownlinkEvent::DownloadProgress { .. }));
}

#[test]
fn output_path_is_the_last_one_announced() {
    let mut executor = JobExecutor::new(1);
    executor.on_stdout_line("[download] Destination: /out/a.f137.mp4");
    assert_eq!(executor.final_path.as_deref(), Some("/out/a.f137.mp4"));
    executor.on_stdout_line("[download] /out/b has already been downloaded has already been downloaded");
    assert_eq!(executor.final_path.as_deref(), Some("/out/b has already been downloaded"));
    executor.on_stdout_line("[download] Destination: ");
    assert_eq!(executor.final_path.as_deref(), Some("/out/b has already been downloaded"));
    executor.on_stdout_line("[download]  has already been downloaded");
    assert_eq!(executor.final_path.as_deref(), Some("/out/b has already been downloaded"));
    executor.on_stdout_line("x [download] c.mp4 has already been downloaded and more");
    assert_eq!(executor.final_path.as_deref(), Some("c.mp4"));
}

#[test]
fn stopping_and_failures_without_remedies() {
    let executor = JobExecutor::new(1);
    assert!(matches!(executor.on_cancel(), DownloadError::Stopped));
    match JobExecutor::spawn_failed("No such file") {
        DownloadError::Failed { code, message, actions } => {
            assert_eq!(code, ErrorCode::ToolMissing);
            assert_eq!(message, "Failed to start yt-dlp: No such file");
            assert!(actions.is_empty());
        }
        other => panic!("unexpected outcome {:?}", other),
    }
    match JobExecutor::capture_failed(Stream::Stdout) {
        DownloadError::Failed { code, message, .. } => {
            assert_eq!(code, ErrorCode::Unknown);
            assert_eq!(message, "Failed to capture stdout");
        }
        other => panic!("unexpected outcome {:?}", other),
    }
    match JobExecutor::capture_failed(Stream::Stderr) {
        DownloadError::Failed { message, .. } => assert_eq!(message, "Failed to capture stderr"),
        other => panic!("unexpected outcome {:?}", other),
    }
    match JobExecutor::wait_failed("gone") {
        DownloadError::Failed { code, message, .. } => {
            assert_eq!(code, ErrorCode::Unknown);
            assert_eq!(message, "Failed to wait for yt-dlp: gone");
        }
        other => panic!("unexpected outcome {:?}", other),
    }
}

#[test]
fn error_output_is_joined_by_line_feeds() {
    assert_eq!(join(&Vec::new()), "");
    assert_eq!(join(&vec!["a".to_string()]), "a");
    assert_eq!(join(&vec!["a".to_string(), "".to_string(), "b".to_string()]), "a\n\nb");
    let mut executor = JobExecutor::new(1);
    executor.on_stderr_line("first".to_string());
    executor.on_stderr_line("second".to_string());
    match executor.on_exit(false) {
        Err(DownloadError::Failed { code, message, .. }) => {
            assert_eq!(code, ErrorCode::Unknown);
            assert_eq!(message, "Download failed: first\nsecond");
        }
        other => panic!("unexpected outcome {:?}", other),
    }
}

#[test]
fn builtin_presets_and_lookup() {
    let presets = Preset::builtin_presets();
    let ids: Vec<&str> = presets.iter().map(|p| p.id.as_str()).collect();
    assert_eq!(
        ids,
        vec!["recommended_best", "mp4_1080p", "mp4_best", "audio_m4a", "audio_mp3_320"]
    );
    assert_eq!(presets[0].name, "Recommended (Best)");
    assert_eq!(presets[0].yt_dlp_args, vec!["-f", "bv*+ba/b", "--merge-output-format", "mp4"]);
    assert_eq!(
        presets[4].yt_dlp_args,
        vec!["-f", "ba", "-x", "--audio-format", "mp3", "--audio-quality", "320K"]
    );
    let p = Preset::get_by_id("audio_m4a").unwrap();
    assert_eq!(p.name, "Audio M4A");
    assert_eq!(p.yt_dlp_args, vec!["-f", "ba[ext=m4a]/ba", "-x", "--audio-format", "m4a"]);
    assert!(Preset::get_by_id("nope").is_none());
    assert_eq!(Preset::get_or_default("nope").id, "recommended_best");
    assert_eq!(Preset::get_or_default("mp4_best").id, "mp4_best");
}

#[test]
fn download_arguments_in_order() {
    let args = build_download_args("mp4_1080p", "/out", &config(Some("/bin/ffmpeg")), "https://e/x");
    assert_eq!(
        args,
        vec![
            "--newline",
            "--no-warnings",
            "--no-call-home",
            "--progress",
            "--progress-template",
            PROGRESS_TEMPLATE,
            "-o",
            "/out/%(title)s [%(id)s].%(ext)s",
            "-f",
            "bv*[height<=1080]+ba/b[height<=1080]",
            "--merge-output-format",
            "mp4",
            "--ffmpeg-location",
            "/bin/ffmpeg",
            "https://e/x",
        ]
    );
    let args = build_download_args("unknown", "/out", &config(None), "u");
    assert_eq!(args.len(), 13);
    assert_eq!(args[9], "bv*+ba/b");
    assert_eq!(args[12], "u");
    assert!(PROGRESS_TEMPLATE.starts_with("download:[downlink] "));
}

#[test]
fn default_configuration() {
    let c = config(None);
    assert_eq!(c.yt_dlp_path, "/bin/yt-dlp");
    assert_eq!(c.ffmpeg_path, None);
    assert_eq!(c.max_concurrent, 2);
    assert_eq!(c.default_output_template, "%(title)s [%(id)s].%(ext)s");
}

#[test]
fn tools_are_looked_for_in_order() {
    assert_eq!(
        ytdlp_common_paths(Some("/home/u")),
        vec![
            "/opt/homebrew/bin/yt-dlp",
            "/usr/local/bin/yt-dlp",
            "/home/u/.local/bin/yt-dlp",
            "/usr/bin/yt-dlp",
            "/home/u/.local/pipx/venvs/yt-dlp/bin/yt-dlp",
            "/opt/local/bin/yt-dlp",
        ]
    );
    assert_eq!(
        ytdlp_common_paths(None),
        vec![
            "/opt/homebrew/bin/yt-dlp",
            "/usr/local/bin/yt-dlp",
            "/usr/bin/yt-dlp",
            "/opt/local/bin/yt-dlp",
        ]
    );
    assert_eq!(
        ffmpeg_common_paths(),
        vec![
            "/opt/homebrew/bin/ffmpeg",
            "/usr/local/bin/ffmpeg",
            "/usr/bin/ffmpeg",
            "/opt/local/bin/ffmpeg",
        ]
    );
    let none = vec![Candidate { path: "/a".to_string(), exists: false }];
    assert_eq!(find_ytdlp_binary(&none), "yt-dlp");
    assert_eq!(find_ffmpeg_binary(&none), None);
    let some = vec![
        Candidate { path: "/a".to_string(), exists: false },
        Candidate { path: "/b".to_string(), exists: true },
    ];
    assert_eq!(find_ytdlp_binary(&some), "/b");
    assert_eq!(find_ffmpeg_binary(&some), Some("/b".to_string()));
}

#[test]
fn metadata_of_the_first_line() {
    assert_eq!(
        metadata_fetch_args("https://e/x"),
        vec!["--dump-json", "--no-warnings", "--no-call-home", "--no-playlist", "https://e/x"]
    );
    assert_eq!(first_line(""), None);
    assert_eq!(first_line("a\r\nb"), Some("a".to_string()));
    assert_eq!(first_line("a\rb\nc"), Some("a\rb".to_string()));
    assert_eq!(first_line("a\r"), Some("a\r".to_string()));
    assert_eq!(first_line("\nx"), Some(String::new()));
    let out = "{\"title\":\"T\",\"uploader\":\"U\",\"duration\":12.9,\"thumbnail\":\"http://t\"}\n{}";
    let m = fetch_metadata_for_url(true, out).unwrap();
    assert_eq!(m.title.as_deref(), Some("T"));
    assert_eq!(m.uploader.as_deref(), Some("U"));
    assert_eq!(m.duration_seconds, Some(12));
    assert_eq!(m.thumbnail_url.as_deref(), Some("http://t"));
    let m = fetch_metadata_for_url(true, "{\"title\":5,\"duration\":90}").unwrap();
    assert_eq!(m.title, None);
    assert_eq!(m.duration_seconds, Some(90));
    assert!(fetch_metadata_for_url(false, out).is_none());
    assert!(fetch_metadata_for_url(true, "").is_none());
    assert!(fetch_metadata_for_url(true, "not json\n{}").is_none());
}
