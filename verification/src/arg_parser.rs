//! The run's configuration and the validation of its enumerated values.

use crate::text::{from_chars, push_str, spells, to_chars};
use vstd::prelude::*;

verus! {

/// What to list and what to do with it.
///
/// At most one of `username`, `subreddit` and `query` is meant to be set; the
/// listing module decides what a combination stands for.
pub struct Args {
    /// The Reddit user whose posts are listed.
    pub username: Option<String>,
    /// The subreddit whose posts are listed.
    pub subreddit: Option<String>,
    /// How many posts to fetch in all.
    pub limit: u32,
    /// A search query; it is not scoped to a subreddit.
    pub query: Option<String>,
    /// The listing kind: see [`is_listing_kind`].
    pub listing: String,
    /// The time window: see [`is_time_window`].
    pub time: String,
    /// The path of the result file.
    pub output: String,
    /// Whether the media of the listed posts is downloaded.
    pub download: bool,
}

/// The listing kinds that the provider knows.
pub open spec fn is_listing_kind(value: Seq<char>) -> bool {
    ||| value == "controversial"@
    ||| value == "best"@
    ||| value == "hot"@
    ||| value == "new"@
    ||| value == "random"@
    ||| value == "rising"@
    ||| value == "top"@
}

/// The time windows that the provider knows.
pub open spec fn is_time_window(value: Seq<char>) -> bool {
    ||| value == "hour"@
    ||| value == "day"@
    ||| value == "week"@
    ||| value == "month"@
    ||| value == "year"@
    ||| value == "all"@
}

/// The message for a listing kind that the provider does not know.
pub open spec fn listing_error(value: Seq<char>) -> Seq<char> {
    "Invalid listing type: "@ + value
        + ", must be one of: controversial, best, hot, new, random, rising, top"@
}

/// The message for a time window that the provider does not know.
pub open spec fn time_error(value: Seq<char>) -> Seq<char> {
    "Invalid time period: "@ + value + ", must be one of: hour, day, week, month, year, all"@
}

/// Accepts a listing kind and hands it back, or says which kinds there are.
pub fn parser_listing(value: &str) -> (parsed: Result<String, String>)
    ensures
        match parsed {
            Ok(kind) => is_listing_kind(value@) && kind@ == value@,
            Err(message) => !is_listing_kind(value@) && message@ == listing_error(value@),
        },
{
    let chars = to_chars(value);
    let word = chars.as_slice();
    if spells(word, "controversial") || spells(word, "best") || spells(word, "hot") || spells(
        word,
        "new",
    ) || spells(word, "random") || spells(word, "rising") || spells(word, "top") {
        Ok(value.to_owned())
    } else {
        let mut message: Vec<char> = Vec::new();
        push_str(&mut message, "Invalid listing type: ");
        push_str(&mut message, value);
        push_str(
            &mut message,
            ", must be one of: controversial, best, hot, new, random, rising, top",
        );
        assert(message@ =~= listing_error(value@));
        Err(from_chars(message.as_slice()))
    }
}

/// Accepts a time window and hands it back, or says which windows there are.
pub fn parser_time(value: &str) -> (parsed: Result<String, String>)
    ensures
        match parsed {
            Ok(window) => is_time_window(value@) && window@ == value@,
            Err(message) => !is_time_window(value@) && message@ == time_error(value@),
        },
{
    let chars = to_chars(value);
    let word = chars.as_slice();
    if spells(word, "hour") || spells(word, "day") || spells(word, "week") || spells(
        word,
        "month",
    ) || spells(word, "year") || spells(word, "all") {
        Ok(value.to_owned())
    } else {
        let mut message: Vec<char> = Vec::new();
        push_str(&mut message, "Invalid time period: ");
        push_str(&mut message, value);
        push_str(&mut message, ", must be one of: hour, day, week, month, year, all");
        assert(message@ =~= time_error(value@));
        Err(from_chars(message.as_slice()))
    }
}

} // verus!
