//! User-perceived characters: splitting a text into its extended grapheme
//! clusters, and putting the first few of them together again.

use unicode_segmentation::UnicodeSegmentation;
use vstd::prelude::*;
use vstd::string::StringExecFns;

verus! {

/// The extended grapheme clusters of `text`, in order, as
/// `unicode_segmentation` finds them.
pub uninterp spec fn grapheme_clusters(text: Seq<char>) -> Seq<Seq<char>>;

/// `UnicodeSegmentation::graphemes` of `unicode_segmentation`, for extended
/// clusters, each cluster copied into a string of its own.
///
/// Not proved: that these are the clusters of the text, and that, put one
/// behind the other, they spell the text. The iterator hands out consecutive
/// slices of the text, the first from its start, the last up to its end.
#[verifier::external_body]
pub(crate) fn split_graphemes(text: &str) -> (clusters: Vec<String>)
    ensures
        clusters.deep_view() == grapheme_clusters(text@),
        clusters.deep_view().flatten() == text@,
{
    text.graphemes(true).map(|cluster| cluster.to_string()).collect()
}

/// The first `limit` of `clusters`, or all of them where they are fewer, put
/// one behind the other.
pub open spec fn leading(clusters: Seq<Seq<char>>, limit: nat) -> Seq<char> {
    if limit < clusters.len() {
        clusters.take(limit as int).flatten()
    } else {
        clusters.flatten()
    }
}

/// Joins the first `limit` of `clusters`, or all of them where they are
/// fewer, into one string.
pub fn join_leading(clusters: &Vec<String>, limit: usize) -> (joined: String)
    ensures
        joined@ == leading(clusters.deep_view(), limit as nat),
{
    let count: usize = if limit < clusters.len() {
        limit
    } else {
        clusters.len()
    };
    let mut joined = String::new();
    let mut i: usize = 0;
    assert(clusters.deep_view().take(0).flatten() =~= Seq::<char>::empty());
    while i < count
        invariant
            i <= count <= clusters.len(),
            joined@ == clusters.deep_view().take(i as int).flatten(),
        decreases count - i,
    {
        proof {
            let all = clusters.deep_view();
            assert(all.take(i + 1) =~= all.take(i as int).push(all[i as int]));
            all.take(i as int).lemma_flatten_push(all[i as int]);
        }
        joined.append(clusters[i].as_str());
        i += 1;
    }
    assert(clusters.deep_view().take(clusters.len() as int) =~= clusters.deep_view());
    joined
}

} // verus!
