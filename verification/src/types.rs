//! The posts of a listing, and the envelope in which the provider sends them.

use vstd::prelude::*;

verus! {

/// The posts of one page, or of a whole run, in the order of the feed.
pub struct RedditResponseData(pub Vec<Data>);

/// One post of a listing.
///
/// The library reads `title`, `url` and `name`; everything else is carried
/// through as it came. The two numbers that the provider sends as fractions
/// are held by their IEEE 754 bit patterns.
#[derive(Clone, Debug, PartialEq, Eq)]
pub struct Data {
    /// The title, as shown to readers.
    pub title: String,
    /// Where the post's media is.
    pub url: String,
    pub domain: String,
    pub permalink: String,
    pub subreddit: String,
    /// The post's unique name, which also serves as the cursor behind it.
    pub name: String,
    /// The bit pattern of the share of upvotes among the votes.
    pub upvote_ratio: u64,
    /// The bit pattern of the time of creation, in seconds since the epoch.
    pub created_utc: u64,
    pub total_awards_received: i32,
    pub score: i32,
    pub ups: i32,
    pub downs: i32,
    pub num_comments: i32,
    pub is_video: bool,
    pub id: String,
    pub over_18: bool,
}

/// One entry of the envelope's list.
pub struct Children {
    pub data: Data,
}

/// The inner part of the envelope.
pub struct TopData {
    pub children: Vec<Children>,
}

/// The envelope of one page: `{ data: { children: [ { data: post }, .. ] } }`.
pub struct RedditResponse {
    pub data: TopData,
}

/// The posts that the entries of an envelope's list hold, in order.
pub open spec fn posts_of(children: Seq<Children>) -> Seq<Data> {
    children.map_values(|child: Children| child.data)
}

impl RedditResponse {
    /// Takes the posts out of the envelope, in the order in which they came.
    pub fn into_posts(self) -> (posts: RedditResponseData)
        ensures
            posts.0@ == posts_of(self.data.children@),
    {
        let mut posts: Vec<Data> = Vec::new();
        let ghost all = self.data.children@;
        for child in it: self.data.children
            invariant
                it.seq() == all,
                posts@ == posts_of(all.take(it.index())),
        {
            assert(all.take(it.index() + 1) =~= all.take(it.index()).push(child));
            posts.push(child.data);
            assert(posts@ =~= posts_of(all.take(it.index() + 1)));
        }
        assert(all.take(all.len() as int) =~= all);
        RedditResponseData(posts)
    }
}

} // verus!
