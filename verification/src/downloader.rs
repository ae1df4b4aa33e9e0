//! The media fetcher's decisions for one post: whether its address is
//! fetched at all, under which address, and into which file.
//!
//! Nothing here touches the network or the disk. A post is turned into a
//! [`DownloadTask`] or refused with a [`DownloadError`]; the caller fetches
//! the task's address, hands the status of the answer to [`check_status`] and
//! writes the body to the task's file.

use crate::graphemes::{grapheme_clusters, join_leading, leading, split_graphemes};
use crate::text::{
    decimal, ends_with, from_chars, has_tail, push_all, push_decimal, push_str, to_chars,
};
use crate::url::{
    ends_in_file_suffix, extension_of, fetch_address, file_extension, has_file_suffix,
    is_allowed_extension, is_media_extension, rewrite_address,
};
use vstd::prelude::*;
use vstd::seq_lib::lemma_flatten_concat;

verus! {

/// The most user-perceived characters that a file name takes from a title.
pub const MAX_NAME_GRAPHEMES: usize = 50;

/// The characters that part directories or drives in a path.
pub open spec fn is_separator(c: char) -> bool {
    c == '\\' || c == '/' || c == ':'
}

/// What stays of a title when the separators are taken out.
pub open spec fn keeps_char() -> spec_fn(char) -> bool {
    |c: char| !is_separator(c)
}

/// `title` without its separators.
pub open spec fn strip_separators(title: Seq<char>) -> Seq<char> {
    title.filter(keeps_char())
}

/// The file name that a title suggests: the title without its separators,
/// cut after its first fifty user-perceived characters.
pub open spec fn sanitized_name(title: Seq<char>) -> Seq<char> {
    leading(grapheme_clusters(strip_separators(title)), MAX_NAME_GRAPHEMES as nat)
}

/// The name of the file: `stem`, followed by a dot and the extension unless
/// it ends with the extension already.
pub open spec fn file_name_for(stem: Seq<char>, extension: Seq<char>) -> Seq<char> {
    if ends_with(stem, extension) {
        stem
    } else {
        stem + "."@ + extension
    }
}

/// The statuses that stand for success: 200 to 299.
pub open spec fn is_success(status: u16) -> bool {
    200 <= status <= 299
}

/// Why a post's media is not downloaded.
#[derive(Clone, Debug, PartialEq, Eq)]
pub enum DownloadError {
    /// The address does not end in a dot and a file extension.
    InvalidUrl { url: String },
    /// The address that would be fetched does not end in a media extension.
    UnsupportedExtension { url: String },
    /// The server answered the fetch with a status that is no success.
    Network { url: String, status: u16 },
}

/// A [`DownloadError`] over plain sequences.
pub enum DownloadErrorView {
    InvalidUrl { url: Seq<char> },
    UnsupportedExtension { url: Seq<char> },
    Network { url: Seq<char>, status: u16 },
}

impl View for DownloadError {
    type V = DownloadErrorView;

    open spec fn view(&self) -> DownloadErrorView {
        match self {
            DownloadError::InvalidUrl { url } => DownloadErrorView::InvalidUrl { url: url@ },
            DownloadError::UnsupportedExtension { url } => DownloadErrorView::UnsupportedExtension {
                url: url@,
            },
            DownloadError::Network { url, status } => DownloadErrorView::Network {
                url: url@,
                status: *status,
            },
        }
    }
}

/// The text that reports an error.
pub open spec fn error_message(error: DownloadErrorView) -> Seq<char> {
    match error {
        DownloadErrorView::InvalidUrl { url } => url + " may not contain a file"@,
        DownloadErrorView::UnsupportedExtension { url } => "Failed to get file extension for "@
            + url + ", skipping download"@,
        DownloadErrorView::Network { url, status } => "Failed to download post "@ + url + " | "@
            + decimal(status as nat),
    }
}

impl DownloadError {
    /// The text that reports this error.
    pub fn message(&self) -> (text: String)
        ensures
            text@ == error_message(self@),
    {
        let mut text: Vec<char> = Vec::new();
        match self {
            DownloadError::InvalidUrl { url } => {
                push_str(&mut text, url.as_str());
                push_str(&mut text, " may not contain a file");
            },
            DownloadError::UnsupportedExtension { url } => {
                push_str(&mut text, "Failed to get file extension for ");
                push_str(&mut text, url.as_str());
                push_str(&mut text, ", skipping download");
            },
            DownloadError::Network { url, status } => {
                push_str(&mut text, "Failed to download post ");
                push_str(&mut text, url.as_str());
                push_str(&mut text, " | ");
                push_decimal(&mut text, *status as u32);
            },
        }
        assert(text@ =~= error_message(self@));
        from_chars(text.as_slice())
    }
}

/// One download that is due: the address to fetch and the file to write.
#[derive(Clone, Debug, PartialEq, Eq)]
pub struct DownloadTask {
    /// The address that is fetched.
    pub url: String,
    /// The directory that the file goes to.
    pub directory: String,
    /// The name of the file inside the directory.
    pub file_name: String,
}

/// A [`DownloadTask`] over plain sequences.
pub struct DownloadTaskView {
    pub url: Seq<char>,
    pub directory: Seq<char>,
    pub file_name: Seq<char>,
}

impl View for DownloadTask {
    type V = DownloadTaskView;

    open spec fn view(&self) -> DownloadTaskView {
        DownloadTaskView { url: self.url@, directory: self.directory@, file_name: self.file_name@ }
    }
}

/// The outcome of planning over plain sequences.
pub open spec fn outcome_view(outcome: Result<DownloadTask, DownloadError>) -> Result<
    DownloadTaskView,
    DownloadErrorView,
> {
    match outcome {
        Ok(task) => Ok(task@),
        Err(error) => Err(error@),
    }
}

/// What becomes of a post with the address `url` and the title `title` when
/// its media is to go to `directory`.
///
/// An address without a file suffix is invalid. Else the address that is
/// fetched must end in a media extension. The file is named after the title.
pub open spec fn planned(url: Seq<char>, title: Seq<char>, directory: Seq<char>) -> Result<
    DownloadTaskView,
    DownloadErrorView,
> {
    let address = fetch_address(url);
    let extension = extension_of(address);
    if !has_file_suffix(url) {
        Err(DownloadErrorView::InvalidUrl { url })
    } else if !is_media_extension(extension) {
        Err(DownloadErrorView::UnsupportedExtension { url: address })
    } else {
        Ok(
            DownloadTaskView {
                url: address,
                directory,
                file_name: file_name_for(sanitized_name(title), extension),
            },
        )
    }
}

/// Copies `title` without its separators.
pub fn without_separators(title: &str) -> (stripped: String)
    ensures
        stripped@ == strip_separators(title@),
        forall|i: int| 0 <= i < stripped@.len() ==> !is_separator(#[trigger] stripped@[i]),
{
    let mut stripped = String::new();
    assert(title@.take(0).filter(keeps_char()) =~= Seq::<char>::empty()) by {
        reveal(Seq::filter);
    }
    for c in it: title.chars()
        invariant
            it.seq() == title@,
            stripped@ == title@.take(it.index()).filter(keeps_char()),
    {
        proof {
            let before = title@.take(it.index());
            assert(title@.take(it.index() + 1) =~= before.push(c));
            before.lemma_filter_push(c, keeps_char());
        }
        if c != '\\' && c != '/' && c != ':' {
            stripped.push(c);
        }
    }
    proof {
        assert(title@.take(title@.len() as int) =~= title@);
        assert forall|i: int| 0 <= i < stripped@.len() implies !is_separator(
            #[trigger] stripped@[i],
        ) by {
            title@.lemma_filter_pred(keeps_char(), i);
        }
    }
    stripped
}

/// A title without separators is left as it is.
pub proof fn lemma_clean_title_is_kept(title: Seq<char>)
    requires
        forall|i: int| 0 <= i < title.len() ==> !is_separator(#[trigger] title[i]),
    ensures
        strip_separators(title) == title,
    decreases title.len(),
{
    reveal(Seq::filter);
    if title.len() > 0 {
        let front = title.drop_last();
        assert forall|i: int| 0 <= i < front.len() implies !is_separator(#[trigger] front[i]) by {
            assert(front[i] == title[i]);
        }
        lemma_clean_title_is_kept(front);
        assert(!is_separator(title[title.len() - 1]));
        assert(front.push(title.last()) =~= title);
    }
}

/// The first clusters, put together, are the start of all of them put
/// together.
pub proof fn lemma_leading_is_prefix(clusters: Seq<Seq<char>>, limit: nat)
    ensures
        leading(clusters, limit).is_prefix_of(clusters.flatten()),
{
    if limit < clusters.len() {
        let head = clusters.take(limit as int);
        let tail = clusters.skip(limit as int);
        assert(head + tail =~= clusters);
        lemma_flatten_concat(head, tail);
        assert(head.flatten() =~= clusters.flatten().take(head.flatten().len() as int));
    }
}

/// A post's media: where it is, and what the post is called.
pub struct RedditPost<'a> {
    url: &'a str,
    filename: &'a str,
}

impl<'a> RedditPost<'a> {
    /// The address of the media.
    pub closed spec fn url(&self) -> Seq<char> {
        self.url@
    }

    /// The title that the file is named after.
    pub closed spec fn filename(&self) -> Seq<char> {
        self.filename@
    }

    /// A post with its media at `url`, to be stored under a name made from
    /// `filename`.
    pub fn new(url: &'a str, filename: &'a str) -> (post: Self)
        ensures
            post.url() == url@,
            post.filename() == filename@,
    {
        Self { url, filename }
    }

    /// The address to fetch, or the refusal of an address that does not look
    /// like a file.
    pub fn parse_url(&self) -> (parsed: Result<String, DownloadError>)
        ensures
            match parsed {
                Ok(address) => has_file_suffix(self.url()) && address@ == fetch_address(
                    self.url(),
                ),
                Err(error) => !has_file_suffix(self.url()) && error@
                    == (DownloadErrorView::InvalidUrl { url: self.url() }),
            },
    {
        let chars = to_chars(self.url);
        if !ends_in_file_suffix(chars.as_slice()) {
            return Err(DownloadError::InvalidUrl { url: self.url.to_owned() });
        }
        let address = rewrite_address(chars.as_slice());
        Ok(from_chars(address.as_slice()))
    }

    /// The file name that the title suggests: the first fifty clusters of
    /// the title without its separators. The clusters of a text spell the
    /// text, so the name is a start of the title without its separators, all
    /// of it where that has no more than fifty clusters, and holds no
    /// separator.
    pub fn parse_filename(&self) -> (name: String)
        ensures
            name@ == sanitized_name(self.filename()),
            grapheme_clusters(strip_separators(self.filename())).flatten() == strip_separators(
                self.filename(),
            ),
            grapheme_clusters(strip_separators(self.filename())).len() <= MAX_NAME_GRAPHEMES
                ==> name@ == strip_separators(self.filename()),
            name@.is_prefix_of(strip_separators(self.filename())),
            forall|i: int| 0 <= i < name@.len() ==> !is_separator(#[trigger] name@[i]),
    {
        let stripped = without_separators(self.filename);
        let clusters = split_graphemes(stripped.as_str());
        let name = join_leading(&clusters, MAX_NAME_GRAPHEMES);
        proof {
            lemma_leading_is_prefix(clusters.deep_view(), MAX_NAME_GRAPHEMES as nat);
            assert forall|i: int| 0 <= i < name@.len() implies !is_separator(
                #[trigger] name@[i],
            ) by {
                assert(name@[i] == stripped@[i]);
            }
        }
        name
    }

    /// Decides what becomes of the post when its media is to go to
    /// `directory`: the task to carry out, or the reason why there is none.
    /// The name of a task's file ends with the extension of the address that
    /// is fetched and holds no separator, so the file stays in `directory`.
    pub fn plan_download(&self, directory: &str) -> (outcome: Result<DownloadTask, DownloadError>)
        ensures
            outcome_view(outcome) == planned(self.url(), self.filename(), directory@),
            outcome matches Ok(task) ==> ends_with(task.file_name@, extension_of(task.url@)),
            outcome matches Ok(task) ==> forall|i: int|
                0 <= i < task.file_name@.len() ==> !is_separator(#[trigger] task.file_name@[i]),
    {
        let address = match self.parse_url() {
            Ok(address) => address,
            Err(error) => {
                return Err(error);
            },
        };
        let chars = to_chars(address.as_str());
        let extension = file_extension(chars.as_slice());
        if !is_allowed_extension(extension.as_slice()) {
            return Err(DownloadError::UnsupportedExtension { url: address });
        }
        let stem = self.parse_filename();
        let stem_chars = to_chars(stem.as_str());
        let mut name: Vec<char> = Vec::new();
        push_all(&mut name, stem_chars.as_slice());
        if !has_tail(stem_chars.as_slice(), extension.as_slice()) {
            name.push('.');
            push_all(&mut name, extension.as_slice());
        }
        proof {
            reveal_strlit(".");
            assert(name@ =~= file_name_for(stem@, extension@));
            assert(name@.subrange(name@.len() - extension@.len(), name@.len() as int)
                =~= extension@);
            lemma_media_extension_has_no_separator(extension@);
        }
        Ok(
            DownloadTask {
                url: address,
                directory: directory.to_owned(),
                file_name: from_chars(name.as_slice()),
            },
        )
    }
}

/// A media extension holds no separator.
pub proof fn lemma_media_extension_has_no_separator(extension: Seq<char>)
    requires
        is_media_extension(extension),
    ensures
        forall|i: int| 0 <= i < extension.len() ==> !is_separator(#[trigger] extension[i]),
{
    reveal_strlit("png");
    reveal_strlit("jpg");
    reveal_strlit("jpeg");
    reveal_strlit("gif");
    reveal_strlit("mp4");
}

/// Judges the status with which the server answered the fetch of `url`:
/// 200 to 299 are a success, any other status is a network error that
/// carries it.
pub fn check_status(url: &str, status: u16) -> (checked: Result<(), DownloadError>)
    ensures
        match checked {
            Ok(_) => is_success(status),
            Err(error) => !is_success(status) && error@ == (DownloadErrorView::Network {
                url: url@,
                status,
            }),
        },
{
    if 200 <= status && status <= 299 {
        Ok(())
    } else {
        Err(DownloadError::Network { url: url.to_owned(), status })
    }
}

} // verus!
