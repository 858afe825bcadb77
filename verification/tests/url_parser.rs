// Tests of URL detection in notification text.

use cosmic_applet_notifications::ui::url_parser::{
    extract_first_url, first_url_among, parse_text, segment_text, validate_lowered, validate_url,
    TextSegment,
};

#[test]
fn url_parser_test_parse_text_no_urls() {
    let segments = parse_text("This is plain text without URLs");
    assert_eq!(segments.len(), 1);
    assert_eq!(
        segments[0],
        TextSegment::Text("This is plain text without URLs".to_string())
    );
}

#[test]
fn url_parser_test_parse_text_single_url() {
    let segments = parse_text("Check out https://example.com for info");

    assert_eq!(segments.len(), 3);
    assert_eq!(segments[0], TextSegment::Text("Check out ".to_string()));
    assert!(
        matches!(&segments[1], TextSegment::Link { url, .. } if url == "https://example.com")
    );
    assert_eq!(segments[2], TextSegment::Text(" for info".to_string()));
}

#[test]
fn url_parser_test_parse_text_multiple_urls() {
    let segments = parse_text("Visit https://example.com or https://test.org");

    assert_eq!(segments.len(), 4);
    assert_eq!(segments[0], TextSegment::Text("Visit ".to_string()));
    assert!(
        matches!(&segments[1], TextSegment::Link { url, .. } if url == "https://example.com")
    );
    assert_eq!(segments[2], TextSegment::Text(" or ".to_string()));
    assert!(matches!(&segments[3], TextSegment::Link { url, .. } if url == "https://test.org"));
}

#[test]
fn url_parser_test_parse_text_www_url() {
    let segments = parse_text("Go to www.example.com");

    assert_eq!(segments.len(), 2);
    assert_eq!(segments[0], TextSegment::Text("Go to ".to_string()));
    // www. URLs should be normalized to https://
    assert!(
        matches!(&segments[1], TextSegment::Link { url, .. } if url == "https://www.example.com")
    );
}

#[test]
fn test_parse_text_mailto() {
    let segments = parse_text("Email me at mailto:user@example.com");

    assert_eq!(segments.len(), 2);
    assert_eq!(segments[0], TextSegment::Text("Email me at ".to_string()));
    assert!(
        matches!(&segments[1], TextSegment::Link { url, .. } if url == "mailto:user@example.com")
    );
}

#[test]
fn test_validate_url_dangerous_javascript() {
    let url = validate_url("javascript:alert('xss')");
    assert_eq!(url, None);
}

#[test]
fn test_validate_url_dangerous_data() {
    let url = validate_url("data:text/html,<script>alert('xss')</script>");
    assert_eq!(url, None);
}

#[test]
fn test_validate_url_dangerous_file() {
    let url = validate_url("file:///etc/passwd");
    assert_eq!(url, None);
}

#[test]
fn test_validate_url_safe_http() {
    let url = validate_url("https://example.com");
    assert_eq!(url, Some("https://example.com".to_string()));
}

#[test]
fn test_validate_url_normalize_www() {
    let url = validate_url("www.example.com");
    assert_eq!(url, Some("https://www.example.com".to_string()));
}

#[test]
fn url_parser_test_parse_text_url_at_start() {
    let segments = parse_text("https://example.com is great");

    assert_eq!(segments.len(), 2);
    assert!(
        matches!(&segments[0], TextSegment::Link { url, .. } if url == "https://example.com")
    );
    assert_eq!(segments[1], TextSegment::Text(" is great".to_string()));
}

#[test]
fn url_parser_test_parse_text_url_at_end() {
    let segments = parse_text("Visit https://example.com");

    assert_eq!(segments.len(), 2);
    assert_eq!(segments[0], TextSegment::Text("Visit ".to_string()));
    assert!(
        matches!(&segments[1], TextSegment::Link { url, .. } if url == "https://example.com")
    );
}

#[test]
fn url_parser_test_parse_text_ftp_url() {
    let segments = parse_text("Download from ftp://files.example.com/file.zip");

    assert!(segments.len() >= 2);
    assert!(segments
        .iter()
        .any(|s| matches!(s, TextSegment::Link { url, .. } if url.contains("ftp://"))));
}

#[test]
fn validate_url_ignores_the_case_of_the_scheme() {
    assert_eq!(validate_url("JavaScript:alert(1)"), None);
    assert_eq!(validate_url("DATA:text/plain,hi"), None);
    assert_eq!(validate_url("VBScript:msgbox(1)"), None);
    assert_eq!(validate_url("vbscript:msgbox(1)"), None);
    assert_eq!(validate_url("FILE:///etc/passwd"), None);
    assert_eq!(validate_url("HTTPS://Example.com"), Some("HTTPS://Example.com".to_string()));
    // Only an address that starts with www. in lowercase is given a scheme.
    assert_eq!(validate_url("WWW.example.com"), Some("WWW.example.com".to_string()));
    assert_eq!(validate_url(""), Some(String::new()));
}

#[test]
fn validate_lowered_goes_by_the_lowercase_form_it_is_given() {
    assert_eq!(validate_lowered("X", "javascript:"), None);
    assert_eq!(validate_lowered("www.a", "www.a"), Some("https://www.a".to_string()));
    assert_eq!(validate_lowered("www.a", "file:"), None);
    assert_eq!(validate_lowered("mailto:a@b", "mailto:a@b"), Some("mailto:a@b".to_string()));
}

#[test]
fn segment_text_cuts_at_the_given_places() {
    let text = "aé www.x.org ü";
    // "aé " is 4 bytes, the address 9 bytes.
    let segments = segment_text(text, &vec![(4, 13)]);
    assert_eq!(
        segments,
        vec![
            TextSegment::Text("aé ".to_string()),
            TextSegment::Link {
                text: "www.x.org".to_string(),
                url: "https://www.x.org".to_string()
            },
            TextSegment::Text(" ü".to_string()),
        ]
    );
    assert_eq!(segment_text("", &vec![]), vec![TextSegment::Text(String::new())]);
    assert_eq!(segment_text("abc", &vec![]), vec![TextSegment::Text("abc".to_string())]);
    assert_eq!(
        segment_text("file:x", &vec![(0, 6)]),
        vec![TextSegment::Text("file:x".to_string())]
    );
    assert_eq!(
        segment_text("ab", &vec![(0, 1), (1, 2)]),
        vec![
            TextSegment::Link { text: "a".to_string(), url: "a".to_string() },
            TextSegment::Link { text: "b".to_string(), url: "b".to_string() },
        ]
    );
}

#[test]
fn parse_text_keeps_text_around_urls_with_wide_characters() {
    let segments = parse_text("日本語 https://example.com/ü?q=1 終わり");
    assert_eq!(
        segments,
        vec![
            TextSegment::Text("日本語 ".to_string()),
            TextSegment::Link {
                text: "https://example.com/ü?q=1".to_string(),
                url: "https://example.com/ü?q=1".to_string()
            },
            TextSegment::Text(" 終わり".to_string()),
        ]
    );
}

#[test]
fn parse_text_stops_a_url_at_quotes_and_brackets() {
    let segments = parse_text("<a href=\"http://a.b/c\">x</a>");
    assert_eq!(
        segments,
        vec![
            TextSegment::Text("<a href=\"".to_string()),
            TextSegment::Link { text: "http://a.b/c".to_string(), url: "http://a.b/c".to_string() },
            TextSegment::Text("\">x</a>".to_string()),
        ]
    );
}

#[test]
fn extract_first_url_takes_the_first_match_only() {
    assert_eq!(
        extract_first_url("Check out https://example.com! And www.b.org"),
        Some("https://example.com!".to_string())
    );
    assert_eq!(extract_first_url("see www.b.org now"), Some("https://www.b.org".to_string()));
    assert_eq!(extract_first_url("nothing here"), None);
    assert_eq!(extract_first_url(""), None);
    assert_eq!(first_url_among("abc", &vec![]), None);
    assert_eq!(first_url_among("file:x y", &vec![(0, 6)]), None);
    assert_eq!(first_url_among("xx www.y", &vec![(3, 8)]), Some("https://www.y".to_string()));
}
