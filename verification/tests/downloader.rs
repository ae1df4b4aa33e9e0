use reddit_downloader::downloader::{check_status, DownloadError, DownloadTask, RedditPost};
use reddit_downloader::graphemes::join_leading;
use reddit_downloader::url::{
    ends_in_file_suffix, file_extension, is_allowed_extension, is_gifv_page, rewrite_address,
};

fn url_chars(s: &str) -> Vec<char> {
    s.chars().collect()
}

fn url_text(v: &[char]) -> String {
    v.iter().collect()
}

#[test]
fn url_without_extension_is_invalid() {
    let post = RedditPost::new("https://example.com/image", "a title");
    assert_eq!(
        post.plan_download("posts"),
        Err(DownloadError::InvalidUrl { url: "https://example.com/image".to_string() })
    );
    assert!(post.parse_url().is_err());
}

#[test]
fn url_with_unknown_extension_is_unsupported() {
    let post = RedditPost::new("https://example.com/file.bmp", "a title");
    assert_eq!(
        post.plan_download("posts"),
        Err(DownloadError::UnsupportedExtension { url: "https://example.com/file.bmp".to_string() })
    );
    assert_eq!(post.parse_url(), Ok("https://example.com/file.bmp".to_string()));
}

#[test]
fn extension_allowlist_is_case_sensitive() {
    assert!(is_allowed_extension(&url_chars("png")));
    assert!(is_allowed_extension(&url_chars("jpg")));
    assert!(is_allowed_extension(&url_chars("jpeg")));
    assert!(is_allowed_extension(&url_chars("gif")));
    assert!(is_allowed_extension(&url_chars("mp4")));
    assert!(!is_allowed_extension(&url_chars("PNG")));
    assert!(!is_allowed_extension(&url_chars("gifv")));
    assert!(!is_allowed_extension(&url_chars("")));
    assert!(!is_allowed_extension(&url_chars("/")));
}

#[test]
fn file_suffix_needs_dot_and_letters_or_digits() {
    assert!(ends_in_file_suffix(&url_chars("https://example.com/a.png")));
    assert!(ends_in_file_suffix(&url_chars("a.B9")));
    assert!(ends_in_file_suffix(&url_chars(".x")));
    assert!(!ends_in_file_suffix(&url_chars("https://example.com/a.")));
    assert!(!ends_in_file_suffix(&url_chars("https://example.com/a.png?x=1")));
    assert!(!ends_in_file_suffix(&url_chars("https://example.com/a.pn_g")));
    assert!(!ends_in_file_suffix(&url_chars("png")));
    assert!(!ends_in_file_suffix(&url_chars("")));
    assert!(!ends_in_file_suffix(&url_chars("a.\u{e9}")));
}

#[test]
fn imgur_gifv_is_rewritten_to_mp4() {
    let post = RedditPost::new("https://i.imgur.com/abc123.gifv", "clip");
    assert_eq!(post.parse_url(), Ok("https://i.imgur.com/abc123.mp4".to_string()));
    assert_eq!(
        post.plan_download("posts-r-gifs"),
        Ok(DownloadTask {
            url: "https://i.imgur.com/abc123.mp4".to_string(),
            directory: "posts-r-gifs".to_string(),
            file_name: "clip.mp4".to_string(),
        })
    );
    assert_eq!(url_text(&file_extension(&url_chars("https://i.imgur.com/abc123.mp4"))), "mp4");
}

#[test]
fn gifv_elsewhere_is_left_alone() {
    assert!(is_gifv_page(&url_chars("https://i.imgur.com/a.gifv")));
    assert!(is_gifv_page(&url_chars("https://i.imgur.com/.gifv")));
    for url in [
        "https://example.com/abc123.gifv",
        "https://iXimgurYcom/a.gifv",
        "http://i.imgur.com/a.gifv",
        "see https://i.imgur.com/a.gifv",
        "https://i.imgur.com/agifv.png",
        "https://i.imgur.com/gifv",
        "https://i.imgur.com/x/y.gifv?z",
        "https://i.imgur.com/a.GIFV",
        "https://i.imgur.com/",
        ".gifv",
        "",
    ] {
        assert!(!is_gifv_page(&url_chars(url)), "{url:?}");
        assert_eq!(url_text(&rewrite_address(&url_chars(url))), url);
    }
    let post = RedditPost::new("https://example.com/a.gifv", "clip");
    assert_eq!(post.parse_url(), Ok("https://example.com/a.gifv".to_string()));
    assert_eq!(
        post.plan_download("posts"),
        Err(DownloadError::UnsupportedExtension { url: "https://example.com/a.gifv".to_string() })
    );
    let post = RedditPost::new("https://i.imgur.com/agifv.png", "clip");
    assert_eq!(post.parse_url(), Ok("https://i.imgur.com/agifv.png".to_string()));
}

#[test]
fn only_the_extension_of_an_imgur_address_changes() {
    let post = RedditPost::new("https://i.imgur.com/gifvabc.gifv", "t");
    assert_eq!(post.parse_url(), Ok("https://i.imgur.com/gifvabc.mp4".to_string()));
    assert_eq!(
        url_text(&rewrite_address(&url_chars("https://i.imgur.com/a.gifv/b.gifv"))),
        "https://i.imgur.com/a.gifv/b.mp4"
    );
    assert_eq!(
        url_text(&rewrite_address(&url_chars("https://i.imgur.com/.gifv"))),
        "https://i.imgur.com/.mp4"
    );
}

#[test]
fn extension_is_what_follows_the_last_dot() {
    assert_eq!(url_text(&file_extension(&url_chars("a.b.c"))), "c");
    assert_eq!(url_text(&file_extension(&url_chars("abc"))), "abc");
    assert_eq!(url_text(&file_extension(&url_chars("abc."))), "");
    assert_eq!(url_text(&file_extension(&url_chars(""))), "");
}

#[test]
fn filename_strips_separators_and_truncates() {
    let title = "ab/cd\\ef:gh/".repeat(5);
    assert_eq!(title.chars().count(), 60);
    let name = RedditPost::new("https://example.com/a.png", &title).parse_filename();
    assert_eq!(name, "abcdefgh".repeat(5));
    assert_eq!(name.chars().count(), 40);

    let long = "x/".repeat(60);
    let name = RedditPost::new("https://example.com/a.png", &long).parse_filename();
    assert_eq!(name, "x".repeat(50));
}

#[test]
fn filename_counts_grapheme_clusters() {
    let title = "e\u{301}".repeat(60);
    let name = RedditPost::new("https://example.com/a.png", &title).parse_filename();
    assert_eq!(name, "e\u{301}".repeat(50));
    assert_eq!(name.chars().count(), 100);
}

#[test]
fn join_leading_takes_the_first_clusters() {
    let clusters = vec!["a".to_string(), "bc".to_string(), "d".to_string()];
    assert_eq!(join_leading(&clusters, 0), "");
    assert_eq!(join_leading(&clusters, 2), "abc");
    assert_eq!(join_leading(&clusters, 3), "abcd");
    assert_eq!(join_leading(&clusters, 50), "abcd");
    assert_eq!(join_leading(&Vec::new(), 50), "");
}

#[test]
fn extension_is_appended_unless_present() {
    let plan = |title: &str| {
        RedditPost::new("https://example.com/pic.png", title).plan_download("posts").unwrap()
    };
    assert_eq!(plan("sunset").file_name, "sunset.png");
    assert_eq!(plan("sunset.png").file_name, "sunset.png");
    assert_eq!(plan("my png").file_name, "my png");
    assert_eq!(plan("a/b:c").file_name, "abc.png");
    assert_eq!(plan("///").file_name, ".png");
    assert_eq!(plan("sunset").directory, "posts");
    assert_eq!(plan("sunset").url, "https://example.com/pic.png");
}

#[test]
fn equal_titles_give_the_same_file() {
    let long = "t".repeat(50);
    let first = RedditPost::new("https://example.com/a.jpg", &format!("{long} one"))
        .plan_download("posts")
        .unwrap();
    let second = RedditPost::new("https://example.com/b.jpg", &format!("{long} two"))
        .plan_download("posts")
        .unwrap();
    assert_eq!(first.file_name, second.file_name);
    assert_ne!(first.url, second.url);
}

#[test]
fn status_outside_2xx_is_a_network_error() {
    assert_eq!(check_status("u", 200), Ok(()));
    assert_eq!(check_status("u", 204), Ok(()));
    assert_eq!(check_status("u", 299), Ok(()));
    assert_eq!(
        check_status("u", 300),
        Err(DownloadError::Network { url: "u".to_string(), status: 300 })
    );
    assert_eq!(
        check_status("u", 199),
        Err(DownloadError::Network { url: "u".to_string(), status: 199 })
    );
    assert_eq!(
        check_status("u", 404),
        Err(DownloadError::Network { url: "u".to_string(), status: 404 })
    );
}

#[test]
fn error_messages() {
    assert_eq!(
        DownloadError::InvalidUrl { url: "http://x/y".to_string() }.message(),
        "http://x/y may not contain a file"
    );
    assert_eq!(
        DownloadError::UnsupportedExtension { url: "http://x/y.bmp".to_string() }.message(),
        "Failed to get file extension for http://x/y.bmp, skipping download"
    );
    assert_eq!(
        DownloadError::Network { url: "http://x/y.png".to_string(), status: 404 }.message(),
        "Failed to download post http://x/y.png | 404"
    );
    assert_eq!(
        DownloadError::Network { url: "u".to_string(), status: 0 }.message(),
        "Failed to download post u | 0"
    );
}
