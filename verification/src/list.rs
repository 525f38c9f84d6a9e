//! The incrementally materialized story list.
//!
//! `HnStoryList` owns the ordered identifier list, the sequence of stories
//! materialized so far, and a write cursor. It is mutated only by the
//! append-and-advance step, which takes the outcome of the remote fetch as a
//! plain value; the caller performs the fetch itself, so a slow response is
//! never inside the list's critical section.

use vstd::prelude::*;

use crate::source::{FetchError, Story};
use crate::story::{HnStory, HnStoryType};

verus! {

/// Why a list operation did not produce a story.
#[derive(Debug, Clone, Copy, PartialEq, Eq, Structural)]
pub enum HnError {
    /// The remote fetch for the current identifier failed; nothing changed.
    Fetch(FetchError),
    /// An insertion index beyond the end of the materialized sequence.
    IndexOutOfRange,
    /// An advance was requested on a list that is already filled.
    Exhausted,
}

/// An ordered identifier list together with the stories materialized so far.
#[derive(Debug)]
pub struct HnStoryList {
    /// The ranked identifiers, fixed at construction.
    pub storyidlist: Vec<u64>,
    /// The stories materialized so far, in position order.
    pub storylist: Vec<HnStory>,
    /// The index of the next identifier awaiting materialization.
    pub story_writer: usize,
    /// How many identifiers this list will ever materialize.
    pub story_maxlen: usize,
}

/// The story built from a fetched record `d` for position `pos`: absent text
/// is replaced by its fallback, and the position is recorded in the story.
pub open spec fn materialized_from(it: HnStory, pos: int, d: Story) -> bool {
    &&& it.id == pos
    &&& it.author@ == "Unknown"@
    &&& it.title@ == match d.title {
        Some(t) => t@,
        None => "Untitled"@,
    }
    &&& it.url matches Some(u) && u@ == match d.url {
        Some(u2) => u2@,
        None => "http://example.com"@,
    }
    &&& it.hntype == HnStoryType::Story
}

/// A failed advance: the list is exactly as it was.
pub open spec fn advance_failed(pre: HnStoryList, post: HnStoryList) -> bool {
    post == pre
}

/// A successful advance: the story built from `d` at the old cursor position
/// is appended, the cursor moves one step, and nothing else changes.
pub open spec fn advance_succeeded(
    pre: HnStoryList,
    post: HnStoryList,
    it: HnStory,
    d: Story,
) -> bool {
    &&& materialized_from(it, pre.story_writer as int, d)
    &&& post.storylist@ == pre.storylist@.push(it)
    &&& post.story_writer == pre.story_writer + 1
    &&& post.storyidlist == pre.storyidlist
    &&& post.story_maxlen == pre.story_maxlen
}

impl HnStoryList {
    /// Well-formedness: the cursor never passes the limit, the limit never
    /// passes the identifier count, exactly the first `story_writer`
    /// positions are materialized, and each story records its own position.
    pub open spec fn valid(self) -> bool {
        &&& self.story_writer <= self.story_maxlen <= self.storyidlist@.len()
        &&& self.storylist@.len() == self.story_writer
        &&& forall|i: int|
            0 <= i < self.storylist@.len() ==> (#[trigger] self.storylist@[i]).id == i
    }

    /// Filled: the cursor has reached the limit and no further fetch is due.
    pub open spec fn spec_is_filled(self) -> bool {
        self.story_writer == self.story_maxlen
    }

    /// Builds a list that will materialize at most `limit` of the given
    /// identifiers, starting with nothing materialized. A caller whose
    /// identifier fetch failed passes an empty list and a limit of 0, which
    /// yields an immediately filled, inert list.
    pub fn new(storyidlist: Vec<u64>, limit: usize) -> (r: Self)
        ensures
            r.valid(),
            r.storyidlist == storyidlist,
            r.story_maxlen == if limit <= storyidlist@.len() {
                limit as int
            } else {
                storyidlist@.len() as int
            },
            r.story_writer == 0,
            r.storylist@ == Seq::<HnStory>::empty(),
    {
        let maxlen = if limit <= storyidlist.len() {
            limit
        } else {
            storyidlist.len()
        };
        HnStoryList { storyidlist, storylist: Vec::new(), story_writer: 0, story_maxlen: maxlen }
    }

    /// Whether every identifier this list will ever materialize has been.
    pub fn is_filled(&self) -> (r: bool)
        ensures
            r == self.spec_is_filled(),
    {
        self.story_writer == self.story_maxlen
    }

    /// The identifier the next advance will materialize, or `Exhausted` on a
    /// filled list.
    pub fn next_story_id(&self) -> (r: Result<u64, HnError>)
        requires
            self.valid(),
        ensures
            self.spec_is_filled() ==> r == Err::<u64, HnError>(HnError::Exhausted),
            !self.spec_is_filled() ==> r == Ok::<u64, HnError>(
                self.storyidlist@[self.story_writer as int],
            ),
    {
        if self.story_writer >= self.story_maxlen {
            Err(HnError::Exhausted)
        } else {
            Ok(self.storyidlist[self.story_writer])
        }
    }

    /// Inserts a story at `index`. Fails with `IndexOutOfRange`, changing
    /// nothing, when `index` lies beyond the materialized sequence. In normal
    /// operation the advance step is the only caller and always passes the
    /// current cursor, so the insertion is an append.
    pub fn add_story_at_index(&mut self, index: usize, story: HnStory) -> (r: Result<
        (),
        HnError,
    >)
        ensures
            index > old(self).storylist@.len() ==> r == Err::<(), HnError>(
                HnError::IndexOutOfRange,
            ) && *final(self) == *old(self),
            index <= old(self).storylist@.len() ==> {
                &&& r == Ok::<(), HnError>(())
                &&& final(self).storylist@ == old(self).storylist@.insert(index as int, story)
                &&& final(self).storyidlist == old(self).storyidlist
                &&& final(self).story_writer == old(self).story_writer
                &&& final(self).story_maxlen == old(self).story_maxlen
            },
    {
        if index > self.storylist.len() {
            return Err(HnError::IndexOutOfRange);
        }
        self.storylist.insert(index, story);
        Ok(())
    }

    /// One materialization step. The caller has fetched the record for the
    /// identifier at the cursor (`next_story_id`) and hands in the outcome.
    ///
    /// On a filled list the step fails with `Exhausted` and changes nothing.
    /// On a failed fetch it propagates the failure and changes nothing, so a
    /// retry targets the same position. On a fetched record it appends the
    /// story built from the record at the cursor position, advances the
    /// cursor, and returns an equal copy of the appended story.
    pub fn update_story_details(&mut self, fetched: Result<Story, FetchError>) -> (r: Result<
        HnStory,
        HnError,
    >)
        requires
            old(self).valid(),
        ensures
            final(self).valid(),
            old(self).spec_is_filled() ==> r == Err::<HnStory, HnError>(HnError::Exhausted)
                && advance_failed(*old(self), *final(self)),
            !old(self).spec_is_filled() ==> match fetched {
                Err(e) => r == Err::<HnStory, HnError>(HnError::Fetch(e)) && advance_failed(
                    *old(self),
                    *final(self),
                ),
                Ok(d) => r matches Ok(it) && advance_succeeded(*old(self), *final(self), it, d),
            },
    {
        if self.story_writer >= self.story_maxlen {
            return Err(HnError::Exhausted);
        }
        let d = match fetched {
            Ok(d) => d,
            Err(e) => {
                return Err(HnError::Fetch(e));
            },
        };
        let title = match d.title {
            Some(t) => t,
            None => "Untitled".to_owned(),
        };
        let url = match d.url {
            Some(u) => u,
            None => "http://example.com".to_owned(),
        };
        let hnstory = HnStory {
            id: self.story_writer,
            author: "Unknown".to_owned(),
            title,
            url: Some(url),
            hntype: HnStoryType::Story,
        };
        let delivered = hnstory.clone();
        let index = self.story_writer;
        proof {
            assert(old(self).storylist@.insert(index as int, hnstory) =~= old(
                self,
            ).storylist@.push(hnstory));
        }
        match self.add_story_at_index(index, hnstory) {
            Ok(()) => {},
            Err(e) => {
                return Err(e);
            },
        }
        self.story_writer = self.story_writer + 1;
        Ok(delivered)
    }

    /// A read-only snapshot of the stories materialized so far, in position
    /// order. The snapshot is fixed at call time: later advances do not show
    /// through it.
    pub fn iter(&self) -> (r: HnStoryListIter)
        ensures
            r.index == 0,
            r.storylist@ == self.storylist@,
    {
        let mut snapshot: Vec<HnStory> = Vec::new();
        let mut i: usize = 0;
        while i < self.storylist.len()
            invariant
                i <= self.storylist@.len(),
                snapshot@ == self.storylist@.subrange(0, i as int),
            decreases self.storylist@.len() - i,
        {
            snapshot.push(self.storylist[i].clone());
            proof {
                assert(snapshot@ =~= self.storylist@.subrange(0, i + 1));
            }
            i = i + 1;
        }
        proof {
            assert(snapshot@ =~= self.storylist@);
        }
        HnStoryListIter { index: 0, storylist: snapshot }
    }
}

/// A forward cursor over a snapshot of the materialized stories.
pub struct HnStoryListIter {
    /// The next position to yield.
    pub index: usize,
    /// The snapshot taken when the cursor was made.
    pub storylist: Vec<HnStory>,
}

impl HnStoryListIter {
    /// Yields the story at the cursor and moves forward; `None` past the end.
    pub fn next(&mut self) -> (r: Option<HnStory>)
        ensures
            old(self).index < old(self).storylist@.len() ==> {
                &&& r == Some(old(self).storylist@[old(self).index as int])
                &&& final(self).index == old(self).index + 1
                &&& final(self).storylist == old(self).storylist
            },
            old(self).index >= old(self).storylist@.len() ==> r == None::<HnStory> && *final(self)
                == *old(self),
    {
        if self.index < self.storylist.len() {
            let story = self.storylist[self.index].clone();
            self.index = self.index + 1;
            Some(story)
        } else {
            None
        }
    }
}

/// What the background updater does after one advance attempt.
#[derive(Debug)]
pub enum UpdaterAction {
    /// A story was materialized; hand it to the consumer.
    Deliver(HnStory),
    /// The fetch failed; try the same identifier again next round.
    Retry,
    /// The list is filled; no further work is useful.
    Stop,
}

/// One round of the background updater, after the caller has fetched the
/// record for the identifier at the cursor: stop on a filled list, deliver
/// the story appended by a successful advance, and retry the same position
/// after a failed fetch. The caller performs the delivery itself and also
/// stops when the consumer is gone.
pub fn updater_step(list: &mut HnStoryList, fetched: Result<Story, FetchError>) -> (r:
    UpdaterAction)
    requires
        old(list).valid(),
    ensures
        final(list).valid(),
        old(list).spec_is_filled() ==> (r matches UpdaterAction::Stop && advance_failed(
            *old(list),
            *final(list),
        )),
        !old(list).spec_is_filled() ==> match fetched {
            Err(_) => r matches UpdaterAction::Retry && advance_failed(*old(list), *final(list)),
            Ok(d) => r matches UpdaterAction::Deliver(it) && advance_succeeded(
                *old(list),
                *final(list),
                it,
                d,
            ),
        },
{
    if list.is_filled() {
        return UpdaterAction::Stop;
    }
    match list.update_story_details(fetched) {
        Ok(it) => UpdaterAction::Deliver(it),
        Err(_) => UpdaterAction::Retry,
    }
}

/// In every well-formed list the materialized count equals the cursor, the
/// cursor never passes the limit, and the limit never passes the identifier
/// count.
pub proof fn lemma_cursor_counts(l: HnStoryList)
    requires
        l.valid(),
    ensures
        l.storylist@.len() == l.story_writer,
        l.story_writer <= l.story_maxlen,
        l.story_maxlen <= l.storyidlist@.len(),
{
}

/// In every well-formed list each materialized story sits at the position it
/// records: `storylist[i].id == i`.
pub proof fn lemma_positions_match_index(l: HnStoryList)
    requires
        l.valid(),
    ensures
        forall|i: int| 0 <= i < l.storylist@.len() ==> (#[trigger] l.storylist@[i]).id == i,
{
}

/// A failed advance leaves the cursor where it was, so a later successful
/// advance materializes its story at the very position the failed attempt
/// targeted.
pub proof fn lemma_retry_same_position(
    pre: HnStoryList,
    mid: HnStoryList,
    post: HnStoryList,
    it: HnStory,
    d: Story,
)
    requires
        advance_failed(pre, mid),
        advance_succeeded(mid, post, it, d),
    ensures
        it.id == pre.story_writer,
        materialized_from(it, pre.story_writer as int, d),
{
}

/// A list populated from fresh through successive successful advances holds
/// exactly the delivered stories, in delivery order, and the story delivered
/// in round `k` was built at position `k` from the record fetched in round
/// `k`: what the consumer receives is the identifier prefix, mapped through
/// fetch, in index order.
pub proof fn lemma_population_in_order(
    states: Seq<HnStoryList>,
    items: Seq<HnStory>,
    details: Seq<Story>,
)
    requires
        states.len() == items.len() + 1,
        details.len() == items.len(),
        states[0].story_writer == 0,
        states[0].storylist@ == Seq::<HnStory>::empty(),
        forall|k: int|
            0 <= k < items.len() ==> advance_succeeded(
                states[k],
                states[k + 1],
                #[trigger] items[k],
                details[k],
            ),
    ensures
        states.last().storylist@ == items,
        states.last().story_writer == items.len(),
        forall|k: int|
            0 <= k < items.len() ==> materialized_from(#[trigger] items[k], k, details[k]),
    decreases items.len(),
{
    if items.len() == 0 {
        assert(states.last().storylist@ =~= items);
    } else {
        let n = items.len() as int;
        assert forall|k: int| 0 <= k < n - 1 implies advance_succeeded(
            states.drop_last()[k],
            states.drop_last()[k + 1],
            #[trigger] items.drop_last()[k],
            details.drop_last()[k],
        ) by {
            assert(items.drop_last()[k] == items[k]);
            assert(advance_succeeded(states[k], states[k + 1], items[k], details[k]));
        }
        lemma_population_in_order(states.drop_last(), items.drop_last(), details.drop_last());
        assert(states.drop_last().last() == states[n - 1]);
        assert(advance_succeeded(states[n - 1], states[n], items[n - 1], details[n - 1]));
        assert(states.last().storylist@ =~= items);
    }
}

/// Delivery order equals identifier order: a filled well-formed list has
/// materialized exactly its limit of stories, their recorded positions are
/// `0, 1, ...` in order, and those positions are strictly increasing, so the
/// stories were delivered in the order of their identifiers.
pub proof fn lemma_delivery_order(l: HnStoryList)
    requires
        l.valid(),
        l.spec_is_filled(),
    ensures
        l.storylist@.len() == l.story_maxlen,
        forall|i: int| 0 <= i < l.storylist@.len() ==> (#[trigger] l.storylist@[i]).id == i,
        forall|i: int, j: int|
            0 <= i < j < l.storylist@.len() ==> (#[trigger] l.storylist@[i]).id < (
            #[trigger] l.storylist@[j]).id,
{
}

} // verus!
