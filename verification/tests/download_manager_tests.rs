use downlink::decimal::Percent;
use downlink::download_manager::{
    classify_error, classify_lowered, parse_bytes, parse_eta, parse_percent, parse_progress,
    parse_progress_line, parse_speed,
};
use downlink::events::{ActionKind, ErrorCode};

fn percent_value(p: Option<Percent>) -> Option<f64> {
    p.map(|p| p.thousandths as f64 / 1000.0)
}

#[test]
fn test_parse_percent() {
    assert_eq!(percent_value(parse_percent("50.5%")), Some(50.5));
    assert_eq!(percent_value(parse_percent("100%")), Some(100.0));
    assert_eq!(percent_value(parse_percent("N/A")), None);
}

#[test]
fn test_parse_speed() {
    assert_eq!(parse_speed("1.5MiB/s"), Some(1572864));
    assert_eq!(parse_speed("500KiB/s"), Some(512000));
    assert_eq!(parse_speed("N/A"), None);
}

#[test]
fn test_parse_eta() {
    assert_eq!(parse_eta("30"), Some(30));
    assert_eq!(parse_eta("05:30"), Some(330));
    assert_eq!(parse_eta("01:05:30"), Some(3930));
    assert_eq!(parse_eta("N/A"), None);
}

#[test]
fn test_classify_error_login() {
    let (code, _, _) = classify_error("Sign in to confirm your age");
    assert!(matches!(code, ErrorCode::LoginRequired));
}

#[test]
fn test_classify_error_geo() {
    let (code, _, _) = classify_error("Video not available in your country");
    assert!(matches!(code, ErrorCode::GeoRestricted));
}

#[test]
fn parse_bytes_units_and_rounding() {
    assert_eq!(parse_bytes("100MiB"), Some(104857600));
    assert_eq!(parse_bytes("1KB"), Some(1024));
    assert_eq!(parse_bytes("1GB"), Some(1073741824));
    assert_eq!(parse_bytes("2GiB"), Some(2147483648));
    assert_eq!(parse_bytes("7B"), Some(7));
    assert_eq!(parse_bytes("0.5B"), Some(1));
    assert_eq!(parse_bytes("0.4B"), Some(0));
    assert_eq!(parse_bytes("0.0009KiB"), Some(1));
    assert_eq!(parse_bytes("~100.00MiB"), Some(104857600));
    assert_eq!(parse_bytes("12 34KiB"), Some(34 * 1024));
    assert_eq!(parse_bytes(""), None);
    assert_eq!(parse_bytes("   "), None);
    assert_eq!(parse_bytes(" N/A "), None);
    assert_eq!(parse_bytes("1.2.3MiB"), None);
    assert_eq!(parse_bytes("5Mbps"), None);
    assert_eq!(parse_bytes("99999999999999999999999GiB"), Some(u64::MAX));
}

#[test]
fn parse_eta_edges() {
    assert_eq!(parse_eta(""), None);
    assert_eq!(parse_eta(" 12 "), Some(12));
    assert_eq!(parse_eta("+5"), Some(5));
    assert_eq!(parse_eta("1:2:3:4"), None);
    assert_eq!(parse_eta("1:x"), None);
    assert_eq!(parse_eta("1::3"), None);
    assert_eq!(parse_eta("-1"), None);
    assert_eq!(parse_eta("18446744073709551615"), Some(u64::MAX));
    assert_eq!(parse_eta("18446744073709551616"), None);
    assert_eq!(parse_eta("18446744073709551615:00"), None);
}

#[test]
fn template_line_is_read_in_full() {
    let p = parse_progress("[downlink] 50.5% 1.5MiB/s 00:30 100MiB").unwrap();
    assert_eq!(percent_value(p.percent), Some(50.5));
    assert_eq!(p.speed_bps, Some(1572864));
    assert_eq!(p.eta_seconds, Some(30));
    assert_eq!(p.bytes_total, Some(104857600));
    assert_eq!(p.bytes_downloaded, None);
    assert_eq!(p.phase.as_deref(), Some("Downloading"));
}

#[test]
fn template_fields_directly() {
    let p = parse_progress_line("N/A", "N/A", "N/A", "N/A");
    assert_eq!(p.percent, None);
    assert_eq!(p.speed_bps, None);
    assert_eq!(p.eta_seconds, None);
    assert_eq!(p.bytes_total, None);
    let p = parse_progress_line("12.5%", "2KiB/s", "1:00", "3MiB");
    assert_eq!(p.percent, Some(Percent { thousandths: 12500 }));
    assert_eq!(p.speed_bps, Some(2048));
    assert_eq!(p.eta_seconds, Some(60));
    assert_eq!(p.bytes_total, Some(3 * 1024 * 1024));
}

#[test]
fn native_and_bare_lines() {
    let p = parse_progress("[download]  50.5% of 100.00MiB at 1.50MiB/s ETA 00:30").unwrap();
    assert_eq!(p.percent, Some(Percent { thousandths: 50500 }));
    assert_eq!(p.bytes_total, Some(104857600));
    assert_eq!(p.speed_bps, Some(1572864));
    assert_eq!(p.eta_seconds, Some(30));
    let p = parse_progress("[download] 100%").unwrap();
    assert_eq!(p.percent, Some(Percent { thousandths: 100000 }));
    assert_eq!(p.bytes_total, None);
    assert!(parse_progress("[download] Destination: a.mp4").is_none());
    assert!(parse_progress("nothing here").is_none());
}

#[test]
fn classification_rules_in_order() {
    let (code, message, actions) = classify_lowered("X", "please sign in, bot");
    assert_eq!(code, ErrorCode::LoginRequired);
    assert_eq!(
        message,
        "This content requires sign-in. Import cookies from your browser and retry."
    );
    assert_eq!(actions.len(), 1);
    assert_eq!(actions[0].kind, ActionKind::ImportCookies);
    assert_eq!(classify_lowered("", "captcha").0, ErrorCode::BotCheck);
    assert_eq!(classify_lowered("", "geo").0, ErrorCode::GeoRestricted);
    assert_eq!(classify_lowered("", "unsupported url").0, ErrorCode::ExtractorOutdated);
    assert_eq!(classify_lowered("", "requested format").0, ErrorCode::FormatUnavailable);
    assert_eq!(classify_lowered("", "timed out").0, ErrorCode::Network);
    let (code, message, actions) = classify_lowered("Boom", "boom");
    assert_eq!(code, ErrorCode::Unknown);
    assert_eq!(message, "Download failed: Boom");
    assert_eq!(actions.len(), 2);
    assert_eq!(actions[0].kind, ActionKind::Retry);
    assert_eq!(actions[1].kind, ActionKind::OpenLogs);
    assert_eq!(classify_lowered("", "").1, "Download failed with unknown error.");
}

#[test]
fn classification_is_case_insensitive() {
    assert_eq!(classify_error("CAPTCHA required").0, ErrorCode::BotCheck);
    assert_eq!(classify_error("Connection RESET").0, ErrorCode::Network);
    assert_eq!(classify_error("ERROR: Unsupported URL: x").0, ErrorCode::ExtractorOutdated);
}

#[test]
fn unknown_message_is_cut_at_a_character() {
    let long = "x".repeat(250);
    let (_, message, _) = classify_error(&long);
    assert_eq!(message, format!("Download failed: {}…", "x".repeat(200)));
    let wide = "é".repeat(150);
    let (_, message, _) = classify_error(&wide);
    assert_eq!(message, format!("Download failed: {}…", "é".repeat(100)));
    let exact = "y".repeat(200);
    let (_, message, _) = classify_error(&exact);
    assert_eq!(message, format!("Download failed: {}", exact));
}
