use youtube_downloader::text::{
    chars_of, contains_part, part_at, same_text, split_words, trim, whitespace,
};

fn corpus() -> Vec<&'static str> {
    vec![
        "",
        " ",
        "a",
        " a",
        "a ",
        "  a  b  ",
        "download https://youtu.be/test -a -o myaudio",
        "\tdownload\t\thttps://youtu.be/test\n",
        "one\u{a0}two\u{2003}three\u{3000}four",
        "\u{85}x\u{1680}y\u{2028}z\u{2029}",
        "no-break\u{202f}narrow \u{205f}math",
        "zero\u{200b}width",
        "\u{feff}bom",
        "\r\n\r\n",
        "tab\u{b}vertical\u{c}feed",
        "   ",
        "\u{3000}",
    ]
}

#[test]
fn whitespace_is_the_unicode_property() {
    for n in 0u32..=0x10FFFF {
        if let Some(c) = char::from_u32(n) {
            assert_eq!(whitespace(c), c.is_whitespace(), "{n:#x}");
        }
    }
}

#[test]
fn whitespace_examples() {
    assert!(whitespace(' '));
    assert!(whitespace('\t'));
    assert!(whitespace('\n'));
    assert!(whitespace('\u{a0}'));
    assert!(whitespace('\u{3000}'));
    assert!(!whitespace('a'));
    assert!(!whitespace('\u{200b}'));
    assert!(!whitespace('\u{0}'));
    assert!(!whitespace('\u{1c}'));
}

#[test]
fn chars_of_lists_the_characters() {
    assert_eq!(chars_of(""), Vec::<char>::new());
    assert_eq!(chars_of("a\u{e9}\u{1F600}"), vec!['a', '\u{e9}', '\u{1F600}']);
    for text in corpus() {
        assert_eq!(chars_of(text), text.chars().collect::<Vec<char>>());
    }
}

#[test]
fn part_at_finds_a_part_where_it_stands() {
    let text = chars_of("download now");
    assert!(part_at(&text, 0, "download "));
    assert!(part_at(&text, 9, "now"));
    assert!(part_at(&text, 12, ""));
    assert!(part_at(&text, 0, ""));
    assert!(!part_at(&text, 1, "download "));
    assert!(!part_at(&text, 9, "nowhere"));
    assert!(!part_at(&text, 10, "now"));
    assert!(!part_at(&text, 0, "Download"));
}

#[test]
fn part_at_beyond_the_end() {
    let text = chars_of("abc");
    assert!(part_at(&text, 3, ""));
    assert!(!part_at(&text, 4, ""));
    assert!(!part_at(&text, 3, "c"));
    assert!(!part_at(&text, usize::MAX, "abc"));
}

#[test]
fn contains_part_examples() {
    assert!(contains_part("https://youtube.com/shorts/abc", "/shorts/"));
    assert!(contains_part("/shorts/", "/shorts/"));
    assert!(contains_part("abc", ""));
    assert!(contains_part("", ""));
    assert!(contains_part("abc", "c"));
    assert!(contains_part("abc", "abc"));
    assert!(!contains_part("abc", "abcd"));
    assert!(!contains_part("", "a"));
    assert!(!contains_part("https://youtube.com/short/abc", "/shorts/"));
    assert!(!contains_part("/SHORTS/", "/shorts/"));
}

#[test]
fn contains_part_agrees_with_std() {
    for text in corpus() {
        for part in ["", " ", "a", "download", "\u{a0}", "  ", "\r\n", "o ", "youtu"] {
            assert_eq!(contains_part(text, part), text.contains(part), "{text:?} {part:?}");
        }
    }
}

#[test]
fn same_text_compares_characters() {
    assert!(same_text("", ""));
    assert!(same_text("exit", "exit"));
    assert!(!same_text("exit", "exit "));
    assert!(!same_text("exit", "exi"));
    assert!(!same_text("exit", "Exit"));
    assert!(!same_text("\u{e9}", "e"));
}

#[test]
fn trim_examples() {
    assert_eq!(trim(""), "");
    assert_eq!(trim("   "), "");
    assert_eq!(trim("  exit\t\n"), "exit");
    assert_eq!(trim("a  b"), "a  b");
    assert_eq!(trim("\u{3000}a\u{a0}"), "a");
    assert_eq!(trim("\u{200b}a"), "\u{200b}a");
}

#[test]
fn trim_agrees_with_std() {
    for text in corpus() {
        assert_eq!(trim(text), text.trim(), "{text:?}");
    }
}

#[test]
fn split_words_examples() {
    assert_eq!(split_words(""), Vec::<String>::new());
    assert_eq!(split_words(" \t "), Vec::<String>::new());
    assert_eq!(split_words("a"), vec!["a"]);
    assert_eq!(split_words("  a  bc   d "), vec!["a", "bc", "d"]);
    assert_eq!(
        split_words("download https://youtu.be/test -a -o myaudio"),
        vec!["download", "https://youtu.be/test", "-a", "-o", "myaudio"]
    );
}

#[test]
fn split_words_agrees_with_std() {
    for text in corpus() {
        let expected: Vec<String> = text.split_whitespace().map(|word| word.to_string()).collect();
        assert_eq!(split_words(text), expected, "{text:?}");
    }
}
