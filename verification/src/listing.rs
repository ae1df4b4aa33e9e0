//! The listing client's side of a run: which feed is asked for, in how many
//! calls, and under which address each call is made.

use crate::arg_parser::Args;
use crate::text::{decimal, from_chars, push_decimal, push_str};
use vstd::prelude::*;

verus! {

/// The most posts that the provider hands out in answer to one call.
pub const PAGE_SIZE: u32 = 100;

/// The name under which the client presents itself to the provider.
pub const USER_AGENT: &'static str = "RedditDownloader/1.0 by u/RedditorDownloader";

/// The seconds after which a call to the provider is given up.
pub const REQUEST_TIMEOUT_SECS: u64 = 30;

/// The number of listing calls that a run for `limit` posts makes at most.
pub open spec fn rounds_for(limit: nat) -> nat {
    if limit > PAGE_SIZE {
        ((limit + PAGE_SIZE - 1) / (PAGE_SIZE as int)) as nat
    } else {
        1
    }
}

/// The number of listing calls that a run for `limit` posts makes at most:
/// one for each page or part of a page, and one where no post is asked for.
pub fn number_of_calls(limit: u32) -> (rounds: u32)
    ensures
        rounds == rounds_for(limit as nat),
        rounds >= 1,
        (rounds - 1) * PAGE_SIZE < limit || limit == 0,
        limit <= rounds * PAGE_SIZE,
{
    if limit > PAGE_SIZE {
        (limit - 1) / PAGE_SIZE + 1
    } else {
        1
    }
}

/// The feed that the three selectors stand for: the empty path for a search,
/// `/u/` and the name for a user, `/r/` and the name for a subreddit.
pub open spec fn target_path(
    subreddit: Option<String>,
    username: Option<String>,
    query: Option<String>,
) -> Option<Seq<char>> {
    if query is Some {
        Some(Seq::<char>::empty())
    } else if username is Some && subreddit is None {
        Some("/u/"@ + username->0@)
    } else if username is None && subreddit is Some {
        Some("/r/"@ + subreddit->0@)
    } else {
        None
    }
}

/// Picks the feed: a search wherever a query is given, else the user's or the
/// subreddit's posts. With no query, a user and a subreddit together, or
/// neither of them, are refused with the message `Invalid arguments`.
pub fn get_subreddit(
    subreddit: &Option<String>,
    username: &Option<String>,
    query: &Option<String>,
) -> (target: Result<String, String>)
    ensures
        match target {
            Ok(path) => target_path(*subreddit, *username, *query) == Some(path@),
            Err(message) => target_path(*subreddit, *username, *query) is None && message@
                == "Invalid arguments"@,
        },
{
    match (username, subreddit, query) {
        (_, _, Some(_)) => Ok(String::new()),
        (Some(name), None, _) => {
            let mut path: Vec<char> = Vec::new();
            push_str(&mut path, "/u/");
            push_str(&mut path, name.as_str());
            Ok(from_chars(path.as_slice()))
        },
        (None, Some(name), _) => {
            let mut path: Vec<char> = Vec::new();
            push_str(&mut path, "/r/");
            push_str(&mut path, name.as_str());
            Ok(from_chars(path.as_slice()))
        },
        _ => Err("Invalid arguments".to_owned()),
    }
}

/// The listing kind that a call asks for: `search` wherever a query is given.
pub open spec fn effective_listing(listing: Seq<char>, query: Option<String>) -> Seq<char> {
    if query is Some {
        "search"@
    } else {
        listing
    }
}

/// The part of the address that carries the query.
pub open spec fn query_part(query: Option<String>) -> Seq<char> {
    match query {
        Some(q) => "&q="@ + q@,
        None => Seq::<char>::empty(),
    }
}

/// The part of the address that carries the cursor; the empty cursor, which
/// stands for the start of the feed, leaves no trace.
pub open spec fn after_part(after: Seq<char>) -> Seq<char> {
    if after.len() == 0 {
        Seq::<char>::empty()
    } else {
        "&after="@ + after
    }
}

/// The address of one listing call.
pub open spec fn listing_url(
    target: Seq<char>,
    listing: Seq<char>,
    time: Seq<char>,
    query: Option<String>,
    limit: nat,
    after: Seq<char>,
) -> Seq<char> {
    "https://www.reddit.com"@ + target + "/"@ + effective_listing(listing, query) + ".json?limit="@
        + decimal(limit) + "&t="@ + time + query_part(query) + after_part(after)
}

/// Builds the address of the call that asks the feed `target` for `limit`
/// posts after the cursor `after`.
pub fn request_url(args: &Args, target: &str, limit: u32, after: &str) -> (url: String)
    ensures
        url@ == listing_url(target@, args.listing@, args.time@, args.query, limit as nat, after@),
{
    let mut url: Vec<char> = Vec::new();
    push_str(&mut url, "https://www.reddit.com");
    push_str(&mut url, target);
    push_str(&mut url, "/");
    if args.query.is_some() {
        push_str(&mut url, "search");
    } else {
        push_str(&mut url, args.listing.as_str());
    }
    push_str(&mut url, ".json?limit=");
    push_decimal(&mut url, limit);
    push_str(&mut url, "&t=");
    push_str(&mut url, args.time.as_str());
    match &args.query {
        Some(q) => {
            push_str(&mut url, "&q=");
            push_str(&mut url, q.as_str());
        },
        None => {},
    }
    if !after.is_empty() {
        push_str(&mut url, "&after=");
        push_str(&mut url, after);
    }
    assert(url@ =~= listing_url(
        target@,
        args.listing@,
        args.time@,
        args.query,
        limit as nat,
        after@,
    ));
    from_chars(url.as_slice())
}

} // verus!
