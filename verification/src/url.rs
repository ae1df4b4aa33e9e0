//! What the downloader reads off a media address: whether it names a file,
//! whether it is an Imgur `gifv` page, and which extension it ends in.

use crate::text::{
    ends_with, has_tail, is_at, occurs_at, push_all, push_str, spells, to_chars,
};
use vstd::prelude::*;

verus! {

/// An ASCII letter or digit.
pub open spec fn is_ascii_alphanumeric(c: char) -> bool {
    ||| 'a' <= c <= 'z'
    ||| 'A' <= c <= 'Z'
    ||| '0' <= c <= '9'
}

/// From the dot at index `dot` on, `url` is a dot and then one or more ASCII
/// letters and digits, up to its end.
pub open spec fn file_suffix_at(url: Seq<char>, dot: int) -> bool {
    &&& 0 <= dot < url.len() - 1
    &&& url[dot] == '.'
    &&& forall|j: int| dot < j < url.len() ==> is_ascii_alphanumeric(#[trigger] url[j])
}

/// `url` looks as if it pointed at a file: it ends in a dot followed by one
/// or more ASCII letters and digits.
pub open spec fn has_file_suffix(url: Seq<char>) -> bool {
    exists|dot: int| file_suffix_at(url, dot)
}

/// Whether `c` is an ASCII letter or digit.
pub fn is_alphanumeric(c: char) -> (yes: bool)
    ensures
        yes == is_ascii_alphanumeric(c),
{
    ('a' <= c && c <= 'z') || ('A' <= c && c <= 'Z') || ('0' <= c && c <= '9')
}

/// Whether `url` ends in a dot followed by one or more ASCII letters and
/// digits.
pub fn ends_in_file_suffix(url: &[char]) -> (yes: bool)
    ensures
        yes == has_file_suffix(url@),
{
    let mut start: usize = url.len();
    while start > 0 && is_alphanumeric(url[start - 1])
        invariant
            start <= url.len(),
            forall|j: int| start <= j < url.len() ==> is_ascii_alphanumeric(#[trigger] url@[j]),
        decreases start,
    {
        start -= 1;
    }
    let yes = 0 < start && start < url.len() && url[start - 1] == '.';
    proof {
        if yes {
            assert(file_suffix_at(url@, start - 1));
        } else if has_file_suffix(url@) {
            let dot = choose|dot: int| file_suffix_at(url@, dot);
            if dot + 1 < start {
                assert(is_ascii_alphanumeric(url@[start - 1]));
            } else if dot + 1 > start {
                assert(is_ascii_alphanumeric(url@[dot]));
            }
        }
    }
    yes
}

/// `url` is the address of an Imgur `gifv` page: it starts with
/// `https://i.imgur.com/` and ends in `.gifv`.
pub open spec fn is_imgur_gifv(url: Seq<char>) -> bool {
    occurs_at(url, 0, "https://i.imgur.com/"@) && ends_with(url, ".gifv"@)
}

/// The address that is fetched for `url`: an Imgur `gifv` page serves a
/// video, so its extension `gifv` gives way to `mp4`; any other address
/// stays as it is.
pub open spec fn fetch_address(url: Seq<char>) -> Seq<char> {
    if is_imgur_gifv(url) {
        url.take(url.len() - 4) + "mp4"@
    } else {
        url
    }
}

/// Whether `url` is the address of an Imgur `gifv` page.
pub fn is_gifv_page(url: &[char]) -> (yes: bool)
    ensures
        yes == is_imgur_gifv(url@),
{
    let host = to_chars("https://i.imgur.com/");
    let tail = to_chars(".gifv");
    is_at(url, 0, host.as_slice()) && has_tail(url, tail.as_slice())
}

/// The address that is fetched for `url`.
pub fn rewrite_address(url: &[char]) -> (address: Vec<char>)
    ensures
        address@ == fetch_address(url@),
{
    let mut address: Vec<char> = Vec::new();
    if is_gifv_page(url) {
        proof {
            reveal_strlit(".gifv");
        }
        let kept: usize = url.len() - 4;
        let mut i: usize = 0;
        while i < kept
            invariant
                i <= kept <= url.len(),
                address@ == url@.take(i as int),
            decreases kept - i,
        {
            address.push(url[i]);
            i += 1;
        }
        push_str(&mut address, "mp4");
    } else {
        push_all(&mut address, url);
    }
    address
}

/// The index at which the extension of `url` starts: behind its last dot, or
/// at its start where it holds no dot.
pub open spec fn extension_start(url: Seq<char>) -> int
    decreases url.len(),
{
    if url.len() == 0 {
        0
    } else if url.last() == '.' {
        url.len() as int
    } else {
        extension_start(url.drop_last())
    }
}

/// The extension of `url`: what follows its last dot, or all of it where it
/// holds no dot.
pub open spec fn extension_of(url: Seq<char>) -> Seq<char> {
    url.skip(extension_start(url))
}

/// The extensions of the media that are downloaded.
pub open spec fn is_media_extension(extension: Seq<char>) -> bool {
    ||| extension == "png"@
    ||| extension == "jpg"@
    ||| extension == "jpeg"@
    ||| extension == "gif"@
    ||| extension == "mp4"@
}

/// The extension starts inside `url`, holds no dot, and stands directly
/// behind a dot unless it is all of `url`.
pub proof fn lemma_extension_start(url: Seq<char>)
    ensures
        0 <= extension_start(url) <= url.len(),
        forall|j: int| extension_start(url) <= j < url.len() ==> #[trigger] url[j] != '.',
        extension_start(url) == 0 || url[extension_start(url) - 1] == '.',
    decreases url.len(),
{
    if url.len() > 0 && url.last() != '.' {
        let front = url.drop_last();
        lemma_extension_start(front);
        assert forall|j: int| extension_start(url) <= j < url.len() implies #[trigger] url[j]
            != '.' by {
            if j < front.len() {
                assert(front[j] == url[j]);
            }
        }
    }
}

/// Copies the extension of `url`.
pub fn file_extension(url: &[char]) -> (extension: Vec<char>)
    ensures
        extension@ == extension_of(url@),
{
    let mut start: usize = url.len();
    assert(url@.take(start as int) =~= url@);
    while start > 0 && url[start - 1] != '.'
        invariant
            start <= url.len(),
            extension_start(url@) == extension_start(url@.take(start as int)),
        decreases start,
    {
        assert(url@.take(start as int).drop_last() =~= url@.take(start - 1));
        start -= 1;
    }
    let mut extension: Vec<char> = Vec::new();
    let mut i: usize = start;
    while i < url.len()
        invariant
            start <= i <= url.len(),
            extension@ == url@.subrange(start as int, i as int),
        decreases url.len() - i,
    {
        extension.push(url[i]);
        i += 1;
    }
    assert(url@.subrange(start as int, url@.len() as int) =~= url@.skip(start as int));
    extension
}

/// Whether media with this extension are downloaded.
pub fn is_allowed_extension(extension: &[char]) -> (yes: bool)
    ensures
        yes == is_media_extension(extension@),
{
    spells(extension, "png") || spells(extension, "jpg") || spells(extension, "jpeg") || spells(
        extension,
        "gif",
    ) || spells(extension, "mp4")
}

/// Behind a dot, a text without dots is the extension.
pub proof fn lemma_extension_behind_dot(front: Seq<char>, tail: Seq<char>)
    requires
        forall|i: int| 0 <= i < tail.len() ==> #[trigger] tail[i] != '.',
    ensures
        extension_of(front + seq!['.'] + tail) == tail,
{
    let whole = front + seq!['.'] + tail;
    assert(extension_start(whole) == front.len() + 1) by {
        lemma_extension_start_behind_dot(front, tail);
    }
    assert(whole.skip(front.len() as int + 1) =~= tail);
}

/// Behind a dot, a text without dots starts the extension.
proof fn lemma_extension_start_behind_dot(front: Seq<char>, tail: Seq<char>)
    requires
        forall|i: int| 0 <= i < tail.len() ==> #[trigger] tail[i] != '.',
    ensures
        extension_start(front + seq!['.'] + tail) == front.len() + 1,
    decreases tail.len(),
{
    let whole = front + seq!['.'] + tail;
    if tail.len() == 0 {
        assert(whole.last() == '.');
    } else {
        assert(whole.last() == tail[tail.len() - 1]);
        assert(whole.drop_last() =~= front + seq!['.'] + tail.drop_last());
        lemma_extension_start_behind_dot(front, tail.drop_last());
    }
}

/// The address `https://i.imgur.com/`, then any text, then `.gifv`, is
/// fetched as a video: it names a file, it is an Imgur `gifv` page, the
/// address that is fetched is the same but for its extension, which is
/// `mp4`, a media extension.
pub proof fn law_imgur_gifv_becomes_mp4(stem: Seq<char>)
    ensures
        ({
            let url = "https://i.imgur.com/"@ + stem + ".gifv"@;
            let address = "https://i.imgur.com/"@ + stem + ".mp4"@;
            &&& has_file_suffix(url)
            &&& is_imgur_gifv(url)
            &&& fetch_address(url) == address
            &&& extension_of(address) == "mp4"@
            &&& is_media_extension(extension_of(address))
        }),
{
    reveal_strlit("https://i.imgur.com/");
    reveal_strlit(".gifv");
    reveal_strlit(".mp4");
    reveal_strlit("mp4");
    let host = "https://i.imgur.com/"@;
    let front = host + stem;
    let url = front + ".gifv"@;
    let address = front + ".mp4"@;

    assert(file_suffix_at(url, front.len() as int));
    assert(url.subrange(0, 20) =~= host);
    assert(url.subrange(url.len() - 5, url.len() as int) =~= ".gifv"@);
    assert(url.take(url.len() - 4) + "mp4"@ =~= address);
    assert(address =~= front + seq!['.'] + "mp4"@);
    lemma_extension_behind_dot(front, "mp4"@);
}

} // verus!
