use downlink::decimal::{int_to_chars, parse_int, parse_uint, scale_decimal};
use downlink::download_manager::{parse_bytes, parse_percent, parse_progress, parse_speed};
use downlink::pattern::{captures_at, find_captures, Part};
use downlink::text::{
    contains_str, count_within, find, is_after, is_space_char, split_chars, split_words,
    substring, to_chars, trim,
};

fn chars(s: &str) -> Vec<char> {
    s.chars().collect()
}

fn text(v: &[char]) -> String {
    v.iter().collect()
}

fn texts(v: &[Vec<char>]) -> Vec<String> {
    v.iter().map(|p| text(p)).collect()
}

const LINES: [&str; 14] = [
    "[downlink] 50.5% 1.5MiB/s 00:30 100MiB",
    "[downlink]   12.0%\t~2.00KiB/s  N/A   N/A  trailing",
    "[downlink] a b c",
    "[downlink]x [downlink] 1% 2B/s 3 4B",
    "x[downlink]\u{a0}7%\u{2003}8B 9 10B",
    "[download]  50.5% of 100.00MiB at 1.50MiB/s ETA 00:30",
    "[download]  50.% of ~1GiB at N/A ETA 1:02:03",
    "[download] 7% of 1KiB at 2KiB/s ETA",
    "[download] 100%",
    "[download] .5% [download] 5%",
    "[download]12%",
    "[download] Destination: /out/a b.mp4",
    "[download] /out/c.mp4 has already been downloaded",
    "",
];

#[test]
fn white_space_is_the_unicode_property() {
    for n in 0..=0x3001u32 {
        if let Some(c) = char::from_u32(n) {
            assert_eq!(is_space_char(c), c.is_whitespace(), "U+{:04X}", n);
        }
    }
    assert!(!is_space_char('\u{feff}'));
    assert!(!is_space_char('\u{10ffff}'));
}

#[test]
fn trimming_and_splitting_agree_with_std() {
    for s in ["", " ", " a ", "\u{3000}a b\t\n", "a", "\r\nab\u{85}", "  \u{2028}"] {
        assert_eq!(text(&trim(&chars(s))), s.trim(), "{:?}", s);
        let words: Vec<String> = s.split_whitespace().map(|w| w.to_string()).collect();
        assert_eq!(texts(&split_words(&chars(s))), words, "{:?}", s);
    }
    for s in ["", ":", "a:b", "a::b:", ":a", "abc"] {
        let parts: Vec<String> = s.split(':').map(|w| w.to_string()).collect();
        assert_eq!(texts(&split_chars(&chars(s), ':')), parts, "{:?}", s);
    }
    assert_eq!(to_chars("héllo"), chars("héllo"));
    assert_eq!(substring("héllo", 1, 3), "él");
}

#[test]
fn search_and_order_agree_with_std() {
    let hay = chars("abcabcabd");
    assert_eq!(find(&hay, &chars("abd"), 0), Some(6));
    assert_eq!(find(&hay, &chars("abc"), 1), Some(3));
    assert_eq!(find(&hay, &chars("abe"), 0), None);
    assert_eq!(find(&hay, &chars(""), 9), Some(9));
    assert_eq!(find(&hay, &chars(""), 10), None);
    assert!(contains_str(&hay, "cab"));
    assert!(contains_str(&hay, ""));
    assert!(!contains_str(&chars(""), "a"));
    for (a, b) in [("a", "b"), ("b", "a"), ("a", "a"), ("ab", "a"), ("", ""), ("é", "e"), ("10", "9")] {
        assert_eq!(is_after(&chars(a), &chars(b)), a > b, "{:?} {:?}", a, b);
    }
    assert_eq!(count_within(&chars("aé€😀b"), 0), 0);
    assert_eq!(count_within(&chars("aé€😀b"), 1), 1);
    assert_eq!(count_within(&chars("aé€😀b"), 2), 1);
    assert_eq!(count_within(&chars("aé€😀b"), 3), 2);
    assert_eq!(count_within(&chars("aé€😀b"), 6), 3);
    assert_eq!(count_within(&chars("aé€😀b"), 10), 4);
    assert_eq!(count_within(&chars("aé€😀b"), 11), 5);
}

#[test]
fn integers_are_read_as_std_reads_them() {
    for s in ["0", "007", "+5", "-5", "", "+", "-", "1 ", "18446744073709551615",
        "18446744073709551616", "9223372036854775807", "9223372036854775808",
        "-9223372036854775808", "-9223372036854775809", "1_0", "٣"]
    {
        assert_eq!(parse_uint(&chars(s)), s.parse::<u64>().ok(), "{:?}", s);
        assert_eq!(parse_int(&chars(s)), s.parse::<i64>().ok(), "{:?}", s);
    }
    for n in [0i64, 7, -7, 10, 1040, i64::MAX, i64::MIN, -1000000] {
        assert_eq!(text(&int_to_chars(n)), n.to_string());
    }
}

#[test]
fn decimals_are_scaled_and_rounded() {
    assert_eq!(scale_decimal(&chars("1.5"), 1024 * 1024), Some(1572864));
    assert_eq!(scale_decimal(&chars("1."), 10), Some(10));
    assert_eq!(scale_decimal(&chars(".5"), 10), Some(5));
    assert_eq!(scale_decimal(&chars(".25"), 10), Some(3));
    assert_eq!(scale_decimal(&chars(".24"), 10), Some(2));
    assert_eq!(scale_decimal(&chars("0.00049999999999999999999999"), 1000), Some(0));
    assert_eq!(scale_decimal(&chars("0.0005"), 1000), Some(1));
    assert_eq!(scale_decimal(&chars("."), 10), None);
    assert_eq!(scale_decimal(&chars(""), 10), None);
    assert_eq!(scale_decimal(&chars("1.2.3"), 10), None);
    assert_eq!(scale_decimal(&chars("1e3"), 10), None);
    assert_eq!(scale_decimal(&chars("18446744073709551615"), 1), Some(u64::MAX));
    assert_eq!(scale_decimal(&chars("18446744073709551614.5"), 1), Some(u64::MAX));
    assert_eq!(scale_decimal(&chars("18446744073709551614.4"), 1), Some(u64::MAX - 1));
    assert_eq!(scale_decimal(&chars("4294967296"), 4294967296), Some(u64::MAX));
    assert_eq!(parse_percent("33.3333%").map(|p| p.thousandths), Some(33333));
    assert_eq!(parse_percent(" 7 %%").map(|p| p.thousandths), Some(7000));
    assert_eq!(parse_percent("%").map(|p| p.thousandths), None);
    assert_eq!(parse_percent("-1%").map(|p| p.thousandths), None);
}

#[test]
fn quantities_agree_with_the_pattern_on_ascii() {
    let re = regex::Regex::new(r"([\d.]+)\s*(Ki?B|Mi?B|Gi?B|B)").unwrap();
    let fields = [
        "1.5MiB/s", "500KiB/s", "N/A", "", "100MiB", "~2.00KiB", "12 34KiB", "3 GB", "1..2B",
        "7Bx", "KiB", "5", "5 K", "5KB5MB", ".B", "9.GiB ", "  8B", "1.5 M 2KB", "10MiBps",
        "x1B", "1Ki", "2KiX 3B", "4\u{a0}MB",
    ];
    for field in fields {
        let trimmed = field.trim();
        let expected = if trimmed == "N/A" || trimmed.is_empty() {
            None
        } else {
            re.captures(trimmed).and_then(|caps| {
                let number = caps.get(1).unwrap().as_str();
                let multiplier: u64 = match caps.get(2).unwrap().as_str() {
                    "B" => 1,
                    "KB" | "KiB" => 1024,
                    "MB" | "MiB" => 1024 * 1024,
                    _ => 1024 * 1024 * 1024,
                };
                scale_decimal(&chars(number), multiplier)
            })
        };
        assert_eq!(parse_bytes(field), expected, "{:?}", field);
        assert_eq!(parse_speed(field), expected, "{:?}", field);
    }
}

#[test]
fn line_patterns_agree_with_the_patterns_they_stand_for() {
    let template = (
        regex::Regex::new(r"\[downlink\]\s+(\S+)\s+(\S+)\s+(\S+)\s+(\S+)").unwrap(),
        vec![
            Part::Lit("[downlink]"),
            Part::Spaces,
            Part::Word,
            Part::Spaces,
            Part::Word,
            Part::Spaces,
            Part::Word,
            Part::Spaces,
            Part::Word,
        ],
    );
    let native = (
        regex::Regex::new(r"\[download\]\s+([0-9]+\.?[0-9]*)%\s+of\s+(\S+)\s+at\s+(\S+)\s+ETA\s+(\S+)")
            .unwrap(),
        vec![
            Part::Lit("[download]"),
            Part::Spaces,
            Part::Number,
            Part::Lit("%"),
            Part::Spaces,
            Part::Lit("of"),
            Part::Spaces,
            Part::Word,
            Part::Spaces,
            Part::Lit("at"),
            Part::Spaces,
            Part::Word,
            Part::Spaces,
            Part::Lit("ETA"),
            Part::Spaces,
            Part::Word,
        ],
    );
    let bare = (
        regex::Regex::new(r"\[download\]\s+([0-9]+\.?[0-9]*)%").unwrap(),
        vec![Part::Lit("[download]"), Part::Spaces, Part::Number, Part::Lit("%")],
    );
    let destination = (
        regex::Regex::new(r"\[download\] Destination: (.+)").unwrap(),
        vec![Part::Lit("[download] Destination: "), Part::Line],
    );
    for (re, parts) in [template, native, bare, destination] {
        for line in LINES {
            let expected: Option<Vec<String>> = re.captures(line).map(|caps| {
                (1..caps.len()).map(|i| caps.get(i).unwrap().as_str().to_string()).collect()
            });
            let found = find_captures(&chars(line), &parts).map(|c| texts(&c));
            assert_eq!(found, expected, "{:?} in {:?}", re.as_str(), line);
        }
    }
    let parts = vec![Part::Lit("ab"), Part::Word];
    assert_eq!(captures_at(&chars("xabcd e"), &parts, 1).map(|c| texts(&c)), Some(vec!["cd".to_string()]));
    assert!(captures_at(&chars("xabcd e"), &parts, 0).is_none());
    assert!(captures_at(&chars("ab"), &parts, 0).is_none());
    assert!(captures_at(&chars("ab"), &parts, 5).is_none());
}

#[test]
fn progress_takes_the_first_format_that_fits() {
    let p = parse_progress("[download] 5% of 1KiB at 2KiB/s ETA 3 [downlink] 9% N/A N/A N/A").unwrap();
    assert_eq!(p.percent.map(|p| p.thousandths), Some(9000));
    assert_eq!(p.bytes_total, None);
    let p = parse_progress("[download] 5% of 1KiB at 2KiB/s ETA 3").unwrap();
    assert_eq!(p.percent.map(|p| p.thousandths), Some(5000));
    assert_eq!(p.bytes_total, Some(1024));
    assert_eq!(p.speed_bps, Some(2048));
    assert_eq!(p.eta_seconds, Some(3));
    let p = parse_progress("[download] 5% of 1KiB").unwrap();
    assert_eq!(p.percent.map(|p| p.thousandths), Some(5000));
    assert_eq!(p.bytes_total, None);
    assert!(parse_progress("[download] % of").is_none());
}
