use lazy_regex::Regex;
use reddit_downloader::downloader::{without_separators, RedditPost};
use reddit_downloader::orchestrator::output_folder;
use reddit_downloader::url::{
    ends_in_file_suffix, file_extension, is_gifv_page, rewrite_address,
};
use unicode_segmentation::UnicodeSegmentation;

/// All strings over `alphabet` with at most `max_len` characters.
fn words(alphabet: &[char], max_len: usize) -> Vec<String> {
    let mut all = vec![String::new()];
    let mut last = vec![String::new()];
    for _ in 0..max_len {
        let mut next = Vec::new();
        for word in &last {
            for c in alphabet {
                let mut longer = word.clone();
                longer.push(*c);
                next.push(longer);
            }
        }
        all.extend(next.iter().cloned());
        last = next;
    }
    all
}

fn as_chars(s: &str) -> Vec<char> {
    s.chars().collect()
}

fn as_text(v: &[char]) -> String {
    v.iter().collect()
}

fn imgur_candidates() -> Vec<String> {
    let fronts = ["", "x", "\n", "https://i.imgur.com/a.gifv "];
    let hosts = [
        "https://i.imgur.com/",
        "https://iXimgurYcom/",
        "https://i\nimgur.com/",
        "https://i.imgur\ncom/",
        "http://i.imgur.com/",
        "https://i.imgur.com",
        "https://i.imgur.co/",
        "",
    ];
    let tails = ["gifv", ".gifv", "gif", "gifvx", "", ".gifv.png", "gifvgifv", ".mp4"];
    let mut all = Vec::new();
    for front in fronts {
        for host in hosts {
            for middle in words(&['a', '\n', '.', 'g'], 3) {
                for tail in tails {
                    all.push(format!("{front}{host}{middle}{tail}"));
                }
            }
        }
    }
    all
}

#[test]
fn file_suffix_agrees_with_the_pattern() {
    let pattern = Regex::new(r"\.[a-zA-Z0-9]+$").unwrap();
    let mut matching = 0;
    for word in words(&['a', 'Z', '5', '.', '/', '\n', '\u{e9}', '_'], 5) {
        let expected = pattern.is_match(&word);
        assert_eq!(ends_in_file_suffix(&as_chars(&word)), expected, "{word:?}");
        if expected {
            matching += 1;
        }
    }
    assert!(matching > 0);
}

#[test]
fn gifv_page_is_the_host_with_the_extension() {
    let mut pages = 0;
    let candidates = imgur_candidates();
    for url in &candidates {
        let expected = url.starts_with("https://i.imgur.com/") && url.ends_with(".gifv");
        assert_eq!(is_gifv_page(&as_chars(url)), expected, "{url:?}");
        if expected {
            pages += 1;
        }
    }
    assert!(pages > 0);
    assert!(pages < candidates.len());
}

#[test]
fn rewriting_changes_the_extension_alone() {
    for url in imgur_candidates() {
        let expected = match url.strip_suffix(".gifv") {
            Some(front) if url.starts_with("https://i.imgur.com/") => format!("{front}.mp4"),
            _ => url.clone(),
        };
        assert_eq!(as_text(&rewrite_address(&as_chars(&url))), expected, "{url:?}");
    }
}

#[test]
fn extension_agrees_with_splitting_at_dots() {
    for word in words(&['a', '.', '/', 'p'], 6) {
        let expected = word.split('.').last().unwrap_or("jpg");
        assert_eq!(as_text(&file_extension(&as_chars(&word))), expected, "{word:?}");
    }
}

#[test]
fn stripping_agrees_with_str_replace() {
    for word in words(&['a', '\\', '/', ':', ' ', '\u{e9}'], 5) {
        assert_eq!(without_separators(&word), word.replace(['\\', '/', ':'], ""), "{word:?}");
    }
}

#[test]
fn file_name_agrees_with_taking_fifty_graphemes() {
    let titles = [
        String::new(),
        "plain".to_string(),
        "a/b\\c:d".repeat(20),
        "e\u{301}".repeat(70),
        "\u{1F1F7}\u{1F1FA}".repeat(60),
        "\r\n".repeat(55),
        format!("{}/{}", "x".repeat(49), "\u{1F468}\u{200D}\u{1F469}\u{200D}\u{1F467}tail"),
        "\u{d55c}\u{ae00} title: part/2 \u{0928}\u{093f}".repeat(9),
    ];
    for title in titles {
        let stripped = title.replace(['\\', '/', ':'], "");
        let expected: String = stripped.graphemes(true).take(50).collect();
        let name = RedditPost::new("https://example.com/a.png", &title).parse_filename();
        assert_eq!(name, expected, "{title:?}");
        assert!(name.graphemes(true).count() <= 50);
    }
}

#[test]
fn folder_agrees_with_replacing_separators() {
    for word in words(&['a', '/', ' ', '\\', '-'], 5) {
        let expected = format!("posts-{}", word.replace(['/', ' ', '\\'], "-"));
        assert_eq!(output_folder("", &Some(word.clone())), expected, "{word:?}");
        if !word.is_empty() {
            let expected = format!("posts{}", word.replace('/', "-"));
            assert_eq!(output_folder(&word, &Some("q".to_string())), expected, "{word:?}");
        }
    }
}
