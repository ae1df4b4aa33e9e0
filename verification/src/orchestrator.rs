//! The download orchestrator's decisions: where the media of a run goes, and
//! what becomes of each of its posts.
//!
//! Every post is planned by itself. A post that cannot be downloaded yields
//! an error in its own place and leaves the others as they are, so a run
//! always has as many outcomes as posts.

use crate::downloader::{outcome_view, planned, DownloadError, DownloadTask, RedditPost};
use crate::text::{from_chars, push_str};
use crate::types::Data;
use vstd::prelude::*;

verus! {

/// The characters of a search query that cannot stand in a directory's name.
pub open spec fn is_query_separator(c: char) -> bool {
    c == '/' || c == ' ' || c == '\\'
}

/// A feed's path with a hyphen in place of each slash.
pub open spec fn dashed_target(target: Seq<char>) -> Seq<char> {
    target.map_values(|c: char| if c == '/' { '-' } else { c })
}

/// A search query with a hyphen in place of each slash, space and backslash.
pub open spec fn dashed_query(query: Seq<char>) -> Seq<char> {
    query.map_values(|c: char| if is_query_separator(c) { '-' } else { c })
}

/// The text of a query that may be missing.
pub open spec fn query_text(query: Option<String>) -> Seq<char> {
    match query {
        Some(q) => q@,
        None => Seq::<char>::empty(),
    }
}

/// The name of the directory for the media of a run: `posts`, followed for a
/// feed by its path with hyphens for slashes, so that `/r/name` gives
/// `posts-r-name`, and for a search, whose path is empty, by a hyphen and the
/// query with hyphens for slashes, spaces and backslashes.
pub open spec fn folder_name(target: Seq<char>, query: Option<String>) -> Seq<char> {
    if target.len() > 0 {
        "posts"@ + dashed_target(target)
    } else {
        "posts-"@ + dashed_query(query_text(query))
    }
}

/// Names the directory for the media of a run on the feed `target`, or on
/// the search for `query` where `target` is empty.
pub fn output_folder(target: &str, query: &Option<String>) -> (folder: String)
    ensures
        folder@ == folder_name(target@, *query),
{
    let mut folder: Vec<char> = Vec::new();
    if !target.is_empty() {
        push_str(&mut folder, "posts");
        let ghost head = folder@;
        for c in it: target.chars()
            invariant
                it.seq() == target@,
                folder@ == head + dashed_target(target@.take(it.index())),
        {
            if c == '/' {
                folder.push('-');
            } else {
                folder.push(c);
            }
            assert(target@.take(it.index() + 1) =~= target@.take(it.index()).push(c));
            assert(folder@ =~= head + dashed_target(target@.take(it.index() + 1)));
        }
        assert(target@.take(target@.len() as int) =~= target@);
    } else {
        push_str(&mut folder, "posts-");
        match query {
            Some(q) => {
                let ghost head = folder@;
                for c in it: q.as_str().chars()
                    invariant
                        it.seq() == q@,
                        folder@ == head + dashed_query(q@.take(it.index())),
                {
                    if c == '/' || c == ' ' || c == '\\' {
                        folder.push('-');
                    } else {
                        folder.push(c);
                    }
                    assert(q@.take(it.index() + 1) =~= q@.take(it.index()).push(c));
                    assert(folder@ =~= head + dashed_query(q@.take(it.index() + 1)));
                }
                assert(q@.take(q@.len() as int) =~= q@);
            },
            None => {
                assert(folder@ =~= "posts-"@ + dashed_query(Seq::<char>::empty()));
            },
        }
    }
    from_chars(folder.as_slice())
}

/// Plans the download of every post's media into `directory`: for each post,
/// in the order of `posts`, the task to carry out or the reason why there is
/// none. No post's outcome depends on another post.
pub fn plan_downloads(posts: &Vec<Data>, directory: &str) -> (outcomes: Vec<
    Result<DownloadTask, DownloadError>,
>)
    ensures
        outcomes.len() == posts.len(),
        forall|i: int|
            0 <= i < posts.len() ==> outcome_view(#[trigger] outcomes[i]) == planned(
                posts[i].url@,
                posts[i].title@,
                directory@,
            ),
{
    let mut outcomes: Vec<Result<DownloadTask, DownloadError>> = Vec::new();
    let mut i: usize = 0;
    while i < posts.len()
        invariant
            i <= posts.len(),
            outcomes.len() == i,
            forall|k: int|
                0 <= k < i ==> outcome_view(#[trigger] outcomes[k]) == planned(
                    posts[k].url@,
                    posts[k].title@,
                    directory@,
                ),
        decreases posts.len() - i,
    {
        let post = RedditPost::new(posts[i].url.as_str(), posts[i].title.as_str());
        let outcome = post.plan_download(directory);
        outcomes.push(outcome);
        i += 1;
    }
    outcomes
}

} // verus!
