//! The pagination engine: how many listing calls a run makes, what each of
//! them asks for, and what is kept of the answers.
//!
//! The engine makes no call itself. Its owner asks it for the next request,
//! performs the call, and hands the answer back; this goes on until the
//! engine has no more requests. What it has collected by then is the run's
//! result.

use crate::listing::{number_of_calls, rounds_for, PAGE_SIZE};
use crate::types::Data;
use vstd::prelude::*;

verus! {

/// Why a listing call gave no page.
#[derive(Clone, Copy, Debug, PartialEq, Eq, Structural)]
pub enum ListingError {
    /// No connection, no answer in time, or an answer that reports a failure.
    Network,
    /// An answer that is not the envelope of a page.
    Decode,
}

/// What one listing call asks for.
#[derive(Clone, Debug, PartialEq, Eq)]
pub struct PageRequest {
    /// The most posts that the answer should hold.
    pub limit: u32,
    /// The cursor: the name of the post behind which the page starts, empty
    /// for the start of the feed.
    pub after: String,
}

/// A run's progress.
pub struct Paginator {
    rounds: u32,
    calls: u32,
    remaining: u32,
    after: String,
    posts: Vec<Data>,
    ended: bool,
    failure: Option<ListingError>,
}

/// A [`Paginator`] over plain values.
pub struct PaginatorView {
    /// The calls that the run makes at most.
    pub rounds: nat,
    /// The calls that have been answered.
    pub calls: nat,
    /// The posts that are still wanted.
    pub remaining: nat,
    /// The cursor for the next call.
    pub after: Seq<char>,
    /// The posts collected so far.
    pub posts: Seq<Data>,
    /// Whether an empty page has ended the feed.
    pub ended: bool,
    /// The failure that has ended the run, if any.
    pub failure: Option<ListingError>,
}

impl PaginatorView {
    /// The state in which a run for `limit` posts starts.
    pub open spec fn start(limit: nat) -> PaginatorView {
        PaginatorView {
            rounds: rounds_for(limit),
            calls: 0,
            remaining: limit,
            after: Seq::<char>::empty(),
            posts: Seq::<Data>::empty(),
            ended: false,
            failure: None,
        }
    }

    /// Whether the run goes on with another call. The first call is always
    /// made; after it the run goes on while the feed has not ended, no call
    /// has failed, posts are still wanted and calls are left.
    pub open spec fn wants_call(self) -> bool {
        &&& !self.ended
        &&& self.failure is None
        &&& self.calls < self.rounds
        &&& (self.calls == 0 || self.remaining > 0)
    }

    /// The number of posts that the next call asks for: those still wanted,
    /// but no more than a page holds.
    pub open spec fn request_limit(self) -> nat {
        if self.remaining < PAGE_SIZE {
            self.remaining
        } else {
            PAGE_SIZE as nat
        }
    }

    /// The state after the page `page` has answered the call that was due.
    /// An empty page ends the feed. Any other page is kept whole, its last
    /// post's name becomes the cursor, and as many posts fewer are wanted,
    /// none where the page holds more than were wanted. Where no call was
    /// due, nothing changes.
    pub open spec fn absorb(self, page: Seq<Data>) -> PaginatorView {
        if !self.wants_call() {
            self
        } else if page.len() == 0 {
            PaginatorView { calls: self.calls + 1, ended: true, ..self }
        } else {
            PaginatorView {
                calls: self.calls + 1,
                remaining: if page.len() >= self.remaining {
                    0
                } else {
                    (self.remaining - page.len()) as nat
                },
                after: page.last().name@,
                posts: self.posts + page,
                ..self
            }
        }
    }

    /// The state after the call that was due has failed with `error`. Where
    /// no call was due, nothing changes.
    pub open spec fn fail(self, error: ListingError) -> PaginatorView {
        if !self.wants_call() {
            self
        } else {
            PaginatorView { calls: self.calls + 1, failure: Some(error), ..self }
        }
    }

    /// The state after `reply` has answered the call that was due.
    pub open spec fn step(self, reply: Result<Seq<Data>, ListingError>) -> PaginatorView {
        match reply {
            Ok(page) => self.absorb(page),
            Err(error) => self.fail(error),
        }
    }

    /// What the run comes to: the posts collected, or the failure that ended
    /// it.
    pub open spec fn outcome(self) -> Result<Seq<Data>, ListingError> {
        match self.failure {
            Some(error) => Err(error),
            None => Ok(self.posts),
        }
    }
}

impl View for Paginator {
    type V = PaginatorView;

    closed spec fn view(&self) -> PaginatorView {
        PaginatorView {
            rounds: self.rounds as nat,
            calls: self.calls as nat,
            remaining: self.remaining as nat,
            after: self.after@,
            posts: self.posts@,
            ended: self.ended,
            failure: self.failure,
        }
    }
}

/// A reply over plain values.
pub open spec fn reply_view(reply: Result<Vec<Data>, ListingError>) -> Result<
    Seq<Data>,
    ListingError,
> {
    match reply {
        Ok(page) => Ok(page@),
        Err(error) => Err(error),
    }
}

impl Paginator {
    /// Starts a run that is to collect `limit` posts.
    pub fn new(limit: u32) -> (engine: Self)
        ensures
            engine@ == PaginatorView::start(limit as nat),
    {
        Paginator {
            rounds: number_of_calls(limit),
            calls: 0,
            remaining: limit,
            after: String::new(),
            posts: Vec::new(),
            ended: false,
            failure: None,
        }
    }

    /// The call that is due, or `None` when the run is over.
    pub fn next_request(&self) -> (request: Option<PageRequest>)
        ensures
            match request {
                Some(request) => {
                    &&& self@.wants_call()
                    &&& request.limit == self@.request_limit()
                    &&& request.after@ == self@.after
                },
                None => !self@.wants_call(),
            },
    {
        if !self.ended && self.failure.is_none() && self.calls < self.rounds && (self.calls == 0
            || self.remaining > 0) {
            let limit: u32 = if self.remaining < PAGE_SIZE {
                self.remaining
            } else {
                PAGE_SIZE
            };
            Some(PageRequest { limit, after: self.after.clone() })
        } else {
            None
        }
    }

    /// Takes in the answer to the call that was due.
    pub fn record(&mut self, reply: Result<Vec<Data>, ListingError>)
        ensures
            final(self)@ == old(self)@.step(reply_view(reply)),
    {
        let due = !self.ended && self.failure.is_none() && self.calls < self.rounds && (self.calls
            == 0 || self.remaining > 0);
        if !due {
            return ;
        }
        self.calls = self.calls + 1;
        match reply {
            Err(error) => {
                self.failure = Some(error);
            },
            Ok(page) => {
                let mut page = page;
                let count: usize = page.len();
                if count == 0 {
                    self.ended = true;
                } else {
                    self.after = page[count - 1].name.clone();
                    if count >= self.remaining as usize {
                        self.remaining = 0;
                    } else {
                        self.remaining = self.remaining - count as u32;
                    }
                    self.posts.append(&mut page);
                }
            },
        }
    }

    /// The calls that have been answered.
    pub fn calls(&self) -> (calls: u32)
        ensures
            calls == self@.calls,
    {
        self.calls
    }

    /// The calls that the run makes at most.
    pub fn rounds(&self) -> (rounds: u32)
        ensures
            rounds == self@.rounds,
    {
        self.rounds
    }

    /// The posts that are still wanted.
    pub fn remaining(&self) -> (remaining: u32)
        ensures
            remaining == self@.remaining,
    {
        self.remaining
    }

    /// Ends the run and hands out what it has come to.
    pub fn finish(self) -> (outcome: Result<Vec<Data>, ListingError>)
        ensures
            reply_view(outcome) == self@.outcome(),
    {
        match self.failure {
            Some(error) => Err(error),
            None => Ok(self.posts),
        }
    }
}

/// The state of a run for `limit` posts after `answered` answers, where
/// `feed(k)` is the page that answers call `k`, counted from zero. Answers
/// that come when no call is due change nothing, so from the end of the run
/// on the state stays what it is.
pub open spec fn state_after(
    limit: nat,
    feed: spec_fn(nat) -> Seq<Data>,
    answered: nat,
) -> PaginatorView
    decreases answered,
{
    if answered == 0 {
        PaginatorView::start(limit)
    } else {
        state_after(limit, feed, (answered - 1) as nat).absorb(feed((answered - 1) as nat))
    }
}

/// The state in which a run for `limit` posts ends when its calls are
/// answered by `feed`.
pub open spec fn final_state(limit: nat, feed: spec_fn(nat) -> Seq<Data>) -> PaginatorView {
    state_after(limit, feed, rounds_for(limit))
}

/// No page of `feed` holds more posts than the call that it answers asked
/// for.
pub open spec fn conforms(limit: nat, feed: spec_fn(nat) -> Seq<Data>) -> bool {
    forall|k: nat|
        k < rounds_for(limit) ==> feed(k).len() <= (#[trigger] state_after(
            limit,
            feed,
            k,
        )).request_limit()
}

/// The first `count` pages of `feed`, one behind the other.
pub open spec fn pages_up_to(feed: spec_fn(nat) -> Seq<Data>, count: nat) -> Seq<Data>
    decreases count,
{
    if count == 0 {
        Seq::<Data>::empty()
    } else {
        pages_up_to(feed, (count - 1) as nat) + feed((count - 1) as nat)
    }
}

/// Once no call is due, further answers change nothing.
proof fn lemma_stays(limit: nat, feed: spec_fn(nat) -> Seq<Data>, from: nat, to: nat)
    requires
        from <= to,
        !state_after(limit, feed, from).wants_call(),
    ensures
        state_after(limit, feed, to) == state_after(limit, feed, from),
    decreases to,
{
    if from < to {
        lemma_stays(limit, feed, from, (to - 1) as nat);
    }
}

/// While calls are due, each answer is counted, and the bound on the calls
/// stays what it was at the start.
proof fn lemma_counts(limit: nat, feed: spec_fn(nat) -> Seq<Data>, answered: nat)
    ensures
        state_after(limit, feed, answered).rounds == rounds_for(limit),
        state_after(limit, feed, answered).calls <= answered,
        state_after(limit, feed, answered).failure is None,
        answered > 0 ==> state_after(limit, feed, answered).calls >= 1,
        state_after(limit, feed, answered).wants_call() ==> state_after(
            limit,
            feed,
            answered,
        ).calls == answered,
    decreases answered,
{
    if answered > 0 {
        lemma_counts(limit, feed, (answered - 1) as nat);
    }
}

/// As long as the pages are not empty and hold no more than was asked for,
/// every answer is taken in, the posts collected and the posts still wanted
/// add up to the limit, and posts are still wanted while calls are left.
proof fn lemma_progress(limit: nat, feed: spec_fn(nat) -> Seq<Data>, answered: nat)
    requires
        conforms(limit, feed),
        answered <= rounds_for(limit),
        forall|k: nat| k < answered ==> (#[trigger] feed(k)).len() > 0,
    ensures
        ({
            let state = state_after(limit, feed, answered);
            &&& state.calls == answered
            &&& !state.ended
            &&& state.failure is None
            &&& state.rounds == rounds_for(limit)
            &&& state.posts == pages_up_to(feed, answered)
            &&& state.posts.len() + state.remaining == limit
            &&& state.remaining + PAGE_SIZE * answered >= limit
        }),
    decreases answered,
{
    if answered > 0 {
        let before = (answered - 1) as nat;
        lemma_progress(limit, feed, before);
        let state = state_after(limit, feed, before);
        assert(feed(before).len() > 0);
        assert(feed(before).len() <= state.request_limit());
        assert(state.wants_call());
    }
}

/// A run for no more posts than a page holds makes exactly one call: a call
/// is due at the start, and whatever answers it, none is due after it.
pub proof fn law_single_call(limit: nat, reply: Result<Seq<Data>, ListingError>)
    requires
        limit <= PAGE_SIZE,
    ensures
        PaginatorView::start(limit).wants_call(),
        PaginatorView::start(limit).step(reply).calls == 1,
        !PaginatorView::start(limit).step(reply).wants_call(),
{
}

/// Every run ends: after as many answers as the run has rounds, no call is
/// due, and no more calls than rounds have been made.
pub proof fn law_run_ends(limit: nat, feed: spec_fn(nat) -> Seq<Data>)
    ensures
        !final_state(limit, feed).wants_call(),
        1 <= final_state(limit, feed).calls <= rounds_for(limit),
{
    lemma_counts(limit, feed, rounds_for(limit));
}

/// A run for more posts than a page holds, answered by pages that hold no
/// more than was asked for, makes one call for each page or part of a page
/// of its limit, unless an empty page comes first: then the call that the
/// empty page answers is the last. Either way the run hands out the pages
/// before the first empty one, and never more posts than its limit.
///
/// `leading` is the number of pages before the first empty one, counted up
/// to the number of rounds.
pub proof fn law_call_count(limit: nat, feed: spec_fn(nat) -> Seq<Data>, leading: nat)
    requires
        limit > PAGE_SIZE,
        conforms(limit, feed),
        leading <= rounds_for(limit),
        forall|k: nat| k < leading ==> (#[trigger] feed(k)).len() > 0,
        leading < rounds_for(limit) ==> feed(leading).len() == 0,
    ensures
        rounds_for(limit) == (limit + PAGE_SIZE - 1) / (PAGE_SIZE as int),
        final_state(limit, feed).calls == if leading < rounds_for(limit) {
            leading + 1
        } else {
            rounds_for(limit)
        },
        final_state(limit, feed).outcome() == Ok::<Seq<Data>, ListingError>(
            pages_up_to(feed, leading),
        ),
        pages_up_to(feed, leading).len() <= limit,
{
    lemma_progress(limit, feed, leading);
    if leading < rounds_for(limit) {
        let state = state_after(limit, feed, leading);
        assert(state.wants_call());
        let ended = state_after(limit, feed, leading + 1);
        assert(ended == state.absorb(feed(leading)));
        lemma_stays(limit, feed, leading + 1, rounds_for(limit));
    }
}

/// The first call of a run starts at the start of the feed, and every later
/// call starts behind the last post of the page that answered the call
/// before it.
///
/// `call` counts the calls from zero; the law speaks of the runs in which
/// that call is made.
pub proof fn law_cursor(limit: nat, feed: spec_fn(nat) -> Seq<Data>, call: nat)
    requires
        state_after(limit, feed, call).wants_call(),
    ensures
        state_after(limit, feed, call).calls == call,
        call == 0 ==> state_after(limit, feed, call).after == Seq::<char>::empty(),
        call > 0 ==> feed((call - 1) as nat).len() > 0 && state_after(limit, feed, call).after
            == feed((call - 1) as nat).last().name@,
{
    lemma_counts(limit, feed, call);
    if call > 0 {
        let before = state_after(limit, feed, (call - 1) as nat);
        if !before.wants_call() {
            lemma_stays(limit, feed, (call - 1) as nat, call);
        }
    }
}

/// Every post of `feed` has a name, and no two of its posts have the same
/// name.
pub open spec fn names_unique(feed: spec_fn(nat) -> Seq<Data>) -> bool {
    &&& forall|a: nat, i: int|
        0 <= i < feed(a).len() ==> (#[trigger] feed(a)[i]).name@.len() > 0
    &&& forall|a: nat, i: int, b: nat, j: int|
        0 <= i < feed(a).len() && 0 <= j < feed(b).len() && (a != b || i != j) ==> (
        #[trigger] feed(a)[i]).name@ != (#[trigger] feed(b)[j]).name@
}

/// On a feed whose posts have names of their own, no cursor is used twice:
/// two calls of one run never start at the same place.
///
/// `first` and `second` count the calls from zero; the law speaks of the runs
/// in which the later of them is made.
pub proof fn law_cursor_never_reused(
    limit: nat,
    feed: spec_fn(nat) -> Seq<Data>,
    first: nat,
    second: nat,
)
    requires
        names_unique(feed),
        first < second,
        state_after(limit, feed, second).wants_call(),
    ensures
        state_after(limit, feed, first).wants_call(),
        state_after(limit, feed, first).after != state_after(limit, feed, second).after,
{
    if !state_after(limit, feed, first).wants_call() {
        lemma_stays(limit, feed, first, second);
    }
    law_cursor(limit, feed, first);
    law_cursor(limit, feed, second);
    let later = feed((second - 1) as nat);
    assert(later[later.len() - 1].name@.len() > 0);
    if first > 0 {
        let earlier = feed((first - 1) as nat);
        assert(earlier[earlier.len() - 1].name@ != later[later.len() - 1].name@);
    }
}

} // verus!
