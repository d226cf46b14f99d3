use downlink::url_utils::{
    contains_multiple_urls, extract_urls, normalize_http_url, normalized, trim_trailing_punct,
};

#[test]
fn extracts_single_url() {
    let urls = extract_urls("hello https://example.com/world");
    assert_eq!(urls, vec!["https://example.com/world".to_string()]);
}

#[test]
fn extracts_multiple_urls_dedup_preserve_order() {
    let urls = extract_urls("a https://example.com/x\nb https://example.com/y c https://example.com/x");
    assert_eq!(
        urls,
        vec!["https://example.com/x".to_string(), "https://example.com/y".to_string()]
    );
}

#[test]
fn trims_trailing_punct() {
    let urls = extract_urls("see (https://example.com/foo), ok");
    assert_eq!(urls, vec!["https://example.com/foo".to_string()]);
}

#[test]
fn strips_fragment() {
    let urls = extract_urls("https://example.com/watch?v=1#t=10");
    assert_eq!(urls, vec!["https://example.com/watch?v=1".to_string()]);
}

#[test]
fn removes_default_ports() {
    let urls = extract_urls("http://example.com:80/x https://example.com:443/y");
    assert_eq!(
        urls,
        vec!["http://example.com/x".to_string(), "https://example.com/y".to_string()]
    );
}

#[test]
fn ignores_non_http_schemes() {
    let urls = extract_urls("ftp://example.com/x https://example.com/y");
    assert_eq!(urls, vec!["https://example.com/y".to_string()]);
}

#[test]
fn empty_and_blank_text_hold_no_urls() {
    assert!(extract_urls("").is_empty());
    assert!(extract_urls("  \n\t").is_empty());
    assert!(extract_urls("http:// https://").is_empty());
    assert!(!contains_multiple_urls(""));
    assert!(!contains_multiple_urls("https://example.com/a https://example.com/a"));
    assert!(contains_multiple_urls("https://example.com/a https://example.com/b"));
}

#[test]
fn normal_form_lowercases_and_keeps_other_ports() {
    assert_eq!(
        normalize_http_url("  HTTPS://Example.COM:8443/Path?Q=1#frag  "),
        Some("https://example.com:8443/Path?Q=1".to_string())
    );
    assert_eq!(normalize_http_url("ftp://example.com/x"), None);
    assert_eq!(normalize_http_url("not a url"), None);
    assert_eq!(normalize_http_url("   "), None);
    assert_eq!(normalize_http_url("http://example.com"), Some("http://example.com/".to_string()));
}

#[test]
fn normal_form_from_what_was_read() {
    assert_eq!(
        normalized(Some("http".to_string()), Some("http://a/".to_string())),
        Some("http://a/".to_string())
    );
    assert_eq!(
        normalized(Some("https".to_string()), Some("https://a/".to_string())),
        Some("https://a/".to_string())
    );
    assert_eq!(normalized(Some("ftp".to_string()), Some("ftp://a/".to_string())), None);
    assert_eq!(normalized(None, None), None);
    assert_eq!(normalized(Some("http".to_string()), None), None);
}

#[test]
fn trailing_punctuation_is_peeled_off() {
    assert_eq!(trim_trailing_punct("https://example.com/foo),"), "https://example.com/foo");
    assert_eq!(trim_trailing_punct("a.b.c..."), "a.b.c");
    assert_eq!(trim_trailing_punct("?!;:'\""), "");
    assert_eq!(trim_trailing_punct("plain"), "plain");
    assert_eq!(trim_trailing_punct(""), "");
    assert_eq!(trim_trailing_punct("x]}>"), "x");
}

#[test]
fn candidates_agree_with_the_pattern() {
    let re = regex::Regex::new(r"https?://[^\s]+").unwrap();
    let texts = [
        "hello https://example.com/world",
        "http://a.example/x,https://b.example/y",
        "xhttps://c.example/z http://d.example",
        "https:// http://e.example/\u{a0}https://f.example/q",
        "httphttp://g.example/r",
        "https://h.example/s\u{3000}tail http://",
    ];
    for text in texts {
        let expected: Vec<String> = re
            .find_iter(text)
            .map(|m| trim_trailing_punct(m.as_str()))
            .filter(|c| !c.is_empty())
            .filter_map(|c| normalize_http_url(&c))
            .fold(Vec::new(), |mut seen, u| {
                if !seen.contains(&u) {
                    seen.push(u);
                }
                seen
            });
        assert_eq!(extract_urls(text), expected, "text: {:?}", text);
    }
}
