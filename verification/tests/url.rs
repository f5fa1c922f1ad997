use regex::Regex;
use youtube_downloader::url::{id_char, is_short_url, is_youtube_url};

/// The pattern that the grammar of supported URLs is written after.
fn pattern() -> Regex {
    Regex::new(r"^https?://(www\.|m\.)?(youtube\.com/(watch\?v=|shorts/)|youtu\.be/)[\w-]+")
        .unwrap()
}

#[test]
fn test_is_youtube_url() {
    assert!(is_youtube_url("https://www.youtube.com/watch?v=dQw4w9WgXcQ"));
    assert!(is_youtube_url("https://youtu.be/dQw4w9WgXcQ"));
    assert!(is_youtube_url("https://m.youtube.com/watch?v=dQw4w9WgXcQ"));
    assert!(is_youtube_url("https://youtube.com/watch?v=dQw4w9WgXcQ"));
    assert!(is_youtube_url("http://www.youtube.com/watch?v=dQw4w9WgXcQ"));
    assert!(is_youtube_url("https://www.youtube.com/shorts/dQw4w9WgXcQ"));
    assert!(is_youtube_url("https://youtube.com/shorts/dQw4w9WgXcQ"));

    assert!(!is_youtube_url("https://www.google.com"));
    assert!(!is_youtube_url("https://vimeo.com/123456"));
    assert!(!is_youtube_url("not a url"));
    assert!(!is_youtube_url(""));
    assert!(!is_youtube_url("https://youtube.com"));
}

#[test]
fn test_url_validation_edge_cases() {
    let test_cases = vec![
        ("https://www.youtube.com/watch?v=", false),
        ("https://youtu.be/", false),
        ("https://www.youtube.com/watch", false),
        ("youtube.com/watch?v=dQw4w9WgXcQ", false),
        ("https://www.youtube.com/watch?v=dQw4w9WgXcQ&t=10s", true),
        ("https://www.youtube.com/watch?v=dQw4w9WgXcQ&list=PLxxx", true),
    ];

    for (url, expected) in test_cases {
        assert_eq!(is_youtube_url(url), expected, "Failed for URL: {url}");
    }
}

#[test]
fn empty_id_is_rejected() {
    assert!(!is_youtube_url("https://www.youtube.com/watch?v="));
    assert!(!is_youtube_url("https://www.youtube.com/shorts/"));
    assert!(!is_youtube_url("https://www.youtube.com/watch?v=&t=10s"));
}

#[test]
fn missing_id_parameter_is_rejected() {
    assert!(!is_youtube_url("https://youtube.com/watch"));
    assert!(!is_youtube_url("https://youtube.com/watch?"));
    assert!(!is_youtube_url("https://youtube.com/watch?t=10s&v=abc"));
}

#[test]
fn missing_scheme_is_rejected() {
    assert!(!is_youtube_url("youtube.com/watch?v=abc"));
    assert!(!is_youtube_url("www.youtube.com/watch?v=abc"));
    assert!(!is_youtube_url("//youtube.com/watch?v=abc"));
    assert!(!is_youtube_url("ftp://youtube.com/watch?v=abc"));
}

#[test]
fn scheme_is_case_sensitive() {
    assert!(!is_youtube_url("HTTPS://youtube.com/watch?v=abc"));
    assert!(!is_youtube_url("Https://youtube.com/watch?v=abc"));
    assert!(!is_youtube_url("https://YouTube.com/watch?v=abc"));
}

#[test]
fn url_must_stand_at_the_start() {
    assert!(!is_youtube_url(" https://youtu.be/abc"));
    assert!(!is_youtube_url("see https://youtu.be/abc"));
}

#[test]
fn any_suffix_after_the_id_is_accepted() {
    for suffix in ["", "t=10s", "list=PLxxx&index=2", "&&&", " and more", "\u{1F600}", "\n"] {
        let url = format!("https://www.youtube.com/watch?v=dQw4w9WgXcQ&{suffix}");
        assert!(is_youtube_url(&url), "{url}");
    }
    assert!(is_youtube_url("https://youtu.be/a b c"));
    assert!(is_youtube_url("https://youtu.be/a/b/c"));
}

#[test]
fn subdomains() {
    assert!(is_youtube_url("https://www.youtu.be/abc"));
    assert!(is_youtube_url("http://m.youtu.be/abc"));
    assert!(is_youtube_url("http://m.youtube.com/shorts/abc"));
    assert!(!is_youtube_url("https://music.youtube.com/watch?v=abc"));
    assert!(!is_youtube_url("https://www.m.youtube.com/watch?v=abc"));
    assert!(!is_youtube_url("https://wwwyoutube.com/watch?v=abc"));
}

#[test]
fn id_characters() {
    assert!(is_youtube_url("https://youtu.be/-"));
    assert!(is_youtube_url("https://youtu.be/_"));
    assert!(is_youtube_url("https://youtu.be/0"));
    assert!(!is_youtube_url("https://youtu.be/?"));
    assert!(!is_youtube_url("https://youtu.be/ "));
    assert!(!is_youtube_url("https://youtu.be/."));
    assert!(!is_youtube_url("https://youtu.be//"));
}

#[test]
fn id_characters_beyond_ascii() {
    // Letters, marks and digits of other scripts are word characters;
    // signs and punctuation are not.
    assert!(is_youtube_url("https://youtu.be/\u{e9}"));
    assert!(is_youtube_url("https://youtu.be/\u{3b1}"));
    assert!(is_youtube_url("https://youtu.be/\u{4e2d}"));
    assert!(is_youtube_url("https://youtu.be/\u{663}"));
    assert!(is_youtube_url("https://youtu.be/\u{301}"));
    assert!(is_youtube_url("https://youtu.be/\u{200d}"));
    assert!(!is_youtube_url("https://youtu.be/\u{20ac}"));
    assert!(!is_youtube_url("https://youtu.be/\u{a7}"));
    assert!(!is_youtube_url("https://youtu.be/\u{2014}"));
    assert!(!is_youtube_url("https://youtu.be/\u{1F600}"));
    assert!(!is_youtube_url("https://youtu.be/\u{a0}"));
}

#[test]
fn id_char_on_ascii() {
    for n in 0u8..128 {
        let c = n as char;
        let expected = c.is_ascii_alphanumeric() || c == '_' || c == '-';
        assert_eq!(id_char(c), expected, "{c:?}");
    }
}

#[test]
fn id_char_agrees_with_the_pattern_class_low_planes() {
    let class = Regex::new(r"^[\w-]$").unwrap();
    let mut buffer = [0u8; 4];
    for n in 0u32..0x3100 {
        if let Some(c) = char::from_u32(n) {
            assert_eq!(id_char(c), class.is_match(c.encode_utf8(&mut buffer)), "{c:?}");
        }
    }
}

#[test]
fn id_char_agrees_with_the_pattern_class_sampled() {
    let class = Regex::new(r"^[\w-]$").unwrap();
    let mut buffer = [0u8; 4];
    let mut n = 0x3100u32;
    while n <= 0x10FFFF {
        if let Some(c) = char::from_u32(n) {
            assert_eq!(id_char(c), class.is_match(c.encode_utf8(&mut buffer)), "{c:?}");
        }
        n += 7;
    }
}

#[test]
fn agrees_with_the_pattern() {
    let pattern = pattern();
    let schemes = ["https://", "http://", "https:/", "htp://", "HTTP://", "", "httpss://", "https:// "];
    let subdomains = ["", "www.", "m.", "ww.", "www", "m", "mwww.", "www.m.", "M."];
    let sites = [
        "youtube.com/watch?v=",
        "youtube.com/shorts/",
        "youtu.be/",
        "youtube.com/",
        "youtube.com/watch",
        "youtube.com/watch?v",
        "youtube.com/watchXv=",
        "youtubeXcom/watch?v=",
        "youtuXbe/",
        "youtu.be",
        "youtube.com/short/",
        "youtube.com/shorts",
        "vimeo.com/",
        "",
    ];
    let ids = ["", "a", "-", "_", "dQw4w9WgXcQ", "&t=1", "a&t=1", "/a", " a", "\u{e9}t\u{e9}", "\u{20ac}", "?", "\n"];
    let mut checked = 0;
    for scheme in schemes {
        for subdomain in subdomains {
            for site in sites {
                for id in ids {
                    let url = format!("{scheme}{subdomain}{site}{id}");
                    assert_eq!(is_youtube_url(&url), pattern.is_match(&url), "{url:?}");
                    checked += 1;
                }
            }
        }
    }
    assert_eq!(checked, 8 * 9 * 14 * 13);
}

#[test]
fn agrees_with_the_pattern_on_prefixes() {
    let pattern = pattern();
    for full in [
        "https://www.youtube.com/watch?v=dQw4w9WgXcQ&t=10s",
        "http://m.youtube.com/shorts/abc-def_123",
        "https://youtu.be/dQw4w9WgXcQ",
    ] {
        for end in 0..=full.len() {
            let url = &full[..end];
            assert_eq!(is_youtube_url(url), pattern.is_match(url), "{url:?}");
        }
    }
}

#[test]
fn short_urls() {
    assert!(is_short_url("https://www.youtube.com/shorts/dQw4w9WgXcQ"));
    assert!(is_short_url("https://youtube.com/shorts/"));
    assert!(is_short_url("anything/shorts/anything"));
    assert!(!is_short_url("https://www.youtube.com/watch?v=dQw4w9WgXcQ"));
    assert!(!is_short_url("https://youtu.be/shorts"));
    assert!(!is_short_url("https://youtube.com/Shorts/abc"));
    assert!(!is_short_url(""));
}
