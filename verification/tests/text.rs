use reddit_downloader::downloader::{without_separators, RedditPost};
use reddit_downloader::listing::{REQUEST_TIMEOUT_SECS, USER_AGENT};
use reddit_downloader::text::{
    from_chars, has_tail, is_at, push_all, push_str, same_chars, spells, to_chars,
};
use reddit_downloader::url::is_alphanumeric;

#[test]
fn chars_round_trip() {
    for s in ["", "abc", "e\u{301}\u{1F600}z", "a\nb"] {
        let chars = to_chars(s);
        assert_eq!(chars, s.chars().collect::<Vec<char>>());
        assert_eq!(from_chars(&chars), s);
    }
}

#[test]
fn pushing_keeps_what_was_there() {
    let mut out = vec!['a'];
    push_all(&mut out, &['b', 'c']);
    push_str(&mut out, "de");
    push_all(&mut out, &[]);
    push_str(&mut out, "");
    assert_eq!(out, vec!['a', 'b', 'c', 'd', 'e']);
}

#[test]
fn occurrences() {
    let s = to_chars("hello");
    assert!(is_at(&s, 0, &to_chars("he")));
    assert!(is_at(&s, 3, &to_chars("lo")));
    assert!(is_at(&s, 5, &[]));
    assert!(!is_at(&s, 6, &[]));
    assert!(!is_at(&s, 4, &to_chars("lo")));
    assert!(!is_at(&s, 1, &to_chars("he")));
    assert!(!is_at(&s, usize::MAX, &to_chars("he")));
    assert!(has_tail(&s, &to_chars("llo")));
    assert!(has_tail(&s, &[]));
    assert!(!has_tail(&s, &to_chars("hell")));
    assert!(!has_tail(&s, &to_chars("xhello")));
    assert!(same_chars(&s, &to_chars("hello")));
    assert!(!same_chars(&s, &to_chars("hellp")));
    assert!(!same_chars(&s, &to_chars("hell")));
    assert!(spells(&s, "hello"));
    assert!(!spells(&s, "Hello"));
}

#[test]
fn alphanumeric_is_ascii_only() {
    for c in ['a', 'z', 'A', 'Z', '0', '9', 'm', 'Q', '5'] {
        assert!(is_alphanumeric(c));
    }
    for c in ['.', '/', '_', '-', ' ', '\u{e9}', '\u{661}', '`', '{', '@', '[', ':'] {
        assert!(!is_alphanumeric(c));
    }
}

#[test]
fn separators_are_stripped() {
    assert_eq!(without_separators("a\\b/c:d"), "abcd");
    assert_eq!(without_separators("\\/:"), "");
    assert_eq!(without_separators("plain title"), "plain title");
    assert_eq!(without_separators(""), "");
}

#[test]
fn short_title_is_kept_whole() {
    let post = RedditPost::new("https://example.com/a.png", "A short title");
    assert_eq!(post.parse_filename(), "A short title");
    let exact = "y".repeat(50);
    assert_eq!(RedditPost::new("u", &exact).parse_filename(), exact);
    assert_eq!(RedditPost::new("u", "").parse_filename(), "");
}

#[test]
fn client_settings() {
    assert_eq!(USER_AGENT, "RedditDownloader/1.0 by u/RedditorDownloader");
    assert_eq!(REQUEST_TIMEOUT_SECS, 30);
}
