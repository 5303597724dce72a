//! One sweep: which of the items found are sent out, how the answers of
//! the destinations are gathered, and what goes on record.
//!
//! An item is attempted at most once.  The record of an attempt is written
//! whatever the destinations answered, and an item with a record is never
//! attempted again.

use vstd::prelude::*;
use crate::ledger::{lemma_filter_push, records_for, Outcome, PublishedPost, PublishedPostsStorage};
use crate::feed::FetchError;
use crate::post::Post;
use crate::time::Timestamp;

verus! {

/// Seconds to wait after an item was sent out, before the next is.
pub const SECONDS_BETWEEN_ITEMS: u64 = 2;

/// What a sweep found and did.
#[derive(Debug, Clone, Copy, PartialEq, Eq, Structural)]
pub struct SweepSummary {
    /// Items that the feeds reported as new.
    pub new_items_found: usize,
    /// Items that at least one destination accepted.
    pub items_published: usize,
}

/// What to do with an item that a feed reported as new.
#[derive(Debug, Clone, Copy, PartialEq, Eq, Structural)]
pub enum ItemPlan {
    /// An attempt is on record: leave the item alone.
    AlreadyPublished,
    /// Nothing is sent in a dry run.
    DryRun,
    /// Send the item to the feed's destinations and record the attempt.
    Dispatch,
}

/// What to do with an item, given whether an attempt is on record.
pub open spec fn item_plan(on_record: bool, dry_run: bool) -> ItemPlan {
    if on_record {
        ItemPlan::AlreadyPublished
    } else if dry_run {
        ItemPlan::DryRun
    } else {
        ItemPlan::Dispatch
    }
}

/// What a destination answered: its confirmation, or why it failed.
pub type Answer = Result<String, String>;

/// The outcome that goes on record for destination `id` answering `answer`.
pub open spec fn outcome_of(id: String, answer: Answer) -> (Seq<char>, bool, Seq<char>) {
    match answer {
        Ok(confirmation) => (id@, true, confirmation@),
        Err(reason) => (id@, false, reason@),
    }
}

/// What an outcome says.
pub open spec fn outcome_text(outcome: Outcome) -> (Seq<char>, bool, Seq<char>) {
    (outcome.0@, outcome.1, outcome.2@)
}

/// How many of the outcomes are successes.
pub open spec fn successes(outcomes: Seq<Outcome>) -> nat {
    outcomes.filter(|o: Outcome| o.1).len()
}

impl SweepSummary {
    /// Nothing found, nothing published.
    pub fn new() -> (summary: SweepSummary)
        ensures
            summary.new_items_found == 0,
            summary.items_published == 0,
    {
        SweepSummary { new_items_found: 0, items_published: 0 }
    }

    /// Counts `count` items that a feed reported as new.  The counter stops
    /// at the largest number it can hold.
    pub fn found(&mut self, count: usize)
        ensures
            final(self).items_published == old(self).items_published,
            final(self).new_items_found == if old(self).new_items_found + count > usize::MAX {
                usize::MAX as int
            } else {
                old(self).new_items_found + count
            },
    {
        self.new_items_found = if count > usize::MAX - self.new_items_found {
            usize::MAX
        } else {
            self.new_items_found + count
        };
    }

    /// Counts an item as published if a destination accepted it.  The
    /// counter stops at the largest number it can hold.
    pub fn settled(&mut self, accepted: bool)
        ensures
            final(self).new_items_found == old(self).new_items_found,
            final(self).items_published == if accepted && old(self).items_published < usize::MAX {
                old(self).items_published + 1
            } else {
                old(self).items_published as int
            },
    {
        if accepted && self.items_published < usize::MAX {
            self.items_published = self.items_published + 1;
        }
    }
}

/// What to do with what the check of a feed gave.
#[derive(Debug, Clone, Copy, PartialEq, Eq, Structural)]
pub enum FeedPlan {
    /// The fetch failed: nothing to do but to say so.  Other feeds go on.
    Failed,
    /// The feed has nothing new.
    NothingNew,
    /// The feed has new items, which count as found, but the feed is not
    /// known any more: they cannot be sent out.
    UnknownFeed,
    /// The feed has new items, which count as found, but no destination.
    NoDestinations,
    /// The feed has new items and destinations: publish the items.
    Publish,
}

/// What to do with what the check of a feed gave, given how many new items
/// it found, if it did not fail, and how many destinations the feed has, if
/// it is known.
pub open spec fn feed_plan(found: Option<nat>, destinations: Option<nat>) -> FeedPlan {
    match found {
        None => FeedPlan::Failed,
        Some(items) => if items == 0 {
            FeedPlan::NothingNew
        } else {
            match destinations {
                None => FeedPlan::UnknownFeed,
                Some(count) => if count == 0 {
                    FeedPlan::NoDestinations
                } else {
                    FeedPlan::Publish
                },
            }
        },
    }
}

/// How many items a fetch found, if it did not fail.
pub open spec fn found_count(fetched: Result<Vec<Post>, FetchError>) -> Option<nat> {
    match fetched {
        Ok(posts) => Some(posts@.len()),
        Err(_) => None,
    }
}

/// The number of the destinations, if there are any to speak of.
pub open spec fn destination_count(destinations: Option<&[String]>) -> Option<nat> {
    match destinations {
        Some(ids) => Some(ids@.len()),
        None => None,
    }
}

/// Decides what to do with what the check of a feed gave.  `destinations`
/// are those of the feed, `None` where the feed is not known.
pub fn plan_feed(fetched: &Result<Vec<Post>, FetchError>, destinations: Option<&[String]>) -> (plan: FeedPlan)
    ensures
        plan == feed_plan(found_count(*fetched), destination_count(destinations)),
{
    match fetched {
        Err(_) => FeedPlan::Failed,
        Ok(posts) => if posts.len() == 0 {
            FeedPlan::NothingNew
        } else {
            match destinations {
                None => FeedPlan::UnknownFeed,
                Some(ids) => if ids.len() == 0 {
                    FeedPlan::NoDestinations
                } else {
                    FeedPlan::Publish
                },
            }
        },
    }
}

/// Decides what to do with an item that a feed reported as new.
pub fn plan_item(ledger: &PublishedPostsStorage, post: &Post, dry_run: bool) -> (plan: ItemPlan)
    ensures
        plan == item_plan(ledger.holds(post.guid@, post.feed_id@), dry_run),
{
    if ledger.is_published(post) {
        ItemPlan::AlreadyPublished
    } else if dry_run {
        ItemPlan::DryRun
    } else {
        ItemPlan::Dispatch
    }
}

/// The fan-out of one item: goes through the destinations in their order
/// and gathers one outcome for each, whatever the others answered.
pub struct Dispatch {
    ids: Vec<String>,
    outcomes: Vec<Outcome>,
    accepted: usize,
}

impl Dispatch {
    #[verifier::type_invariant]
    spec fn well_formed(self) -> bool {
        &&& self.outcomes@.len() <= self.ids@.len()
        &&& forall|i: int| 0 <= i < self.outcomes@.len() ==> (#[trigger] self.outcomes@[i]).0@ == self.ids@[i]@
        &&& self.accepted == successes(self.outcomes@)
    }

    /// The destinations, in the order in which they are served.
    pub closed spec fn ids(&self) -> Seq<String> {
        self.ids@
    }

    /// The outcomes gathered so far, one for each destination served.
    pub closed spec fn outcomes(&self) -> Seq<Outcome> {
        self.outcomes@
    }

    /// A fan-out to `ids` of which no destination has been served.
    pub fn begin(ids: Vec<String>) -> (dispatch: Dispatch)
        ensures
            dispatch.ids() == ids@,
            dispatch.outcomes().len() == 0,
    {
        let outcomes: Vec<Outcome> = Vec::new();
        assert(successes(outcomes@) == 0) by {
            reveal(Seq::filter);
        }
        Dispatch { ids, outcomes, accepted: 0 }
    }

    /// The destination to serve next; `None` once each has its outcome.
    pub fn next(&self) -> (id: Option<&str>)
        ensures
            self.outcomes().len() <= self.ids().len(),
            id is None <==> self.outcomes().len() == self.ids().len(),
            id matches Some(next) ==> next@ == self.ids()[self.outcomes().len() as int]@,
    {
        proof {
            use_type_invariant(self);
        }
        if self.outcomes.len() < self.ids.len() {
            Some(self.ids[self.outcomes.len()].as_str())
        } else {
            None
        }
    }

    /// Takes the answer of the destination that was to be served next.
    /// Where each destination has its outcome already, the answer is
    /// dropped.
    pub fn record(self, answer: Answer) -> (next: Dispatch)
        ensures
            next.ids() == self.ids(),
            self.outcomes().len() >= self.ids().len() ==> next.outcomes() == self.outcomes(),
            self.outcomes().len() < self.ids().len() ==> next.outcomes().len() == self.outcomes().len() + 1
                && next.outcomes().drop_last() == self.outcomes() && outcome_text(next.outcomes().last())
                == outcome_of(self.ids()[self.outcomes().len() as int], answer),
    {
        proof {
            use_type_invariant(&self);
        }
        let Dispatch { ids, outcomes, accepted } = self;
        if outcomes.len() >= ids.len() {
            return Dispatch { ids, outcomes, accepted };
        }
        let id = ids[outcomes.len()].clone();
        let ghost before = outcomes@;
        let outcome: Outcome = match answer {
            Ok(confirmation) => (id, true, confirmation),
            Err(reason) => (id, false, reason),
        };
        let accepted: usize = if outcome.1 {
            accepted + 1
        } else {
            accepted
        };
        let mut outcomes = outcomes;
        outcomes.push(outcome);
        proof {
            lemma_filter_push(before, outcome, |o: Outcome| o.1);
            assert(outcomes@.drop_last() == before);
        }
        Dispatch { ids, outcomes, accepted }
    }

    /// Whether a destination accepted the item.
    pub fn any_accepted(&self) -> (accepted: bool)
        ensures
            accepted <==> successes(self.outcomes()) > 0,
    {
        proof {
            use_type_invariant(self);
        }
        self.accepted > 0
    }

    /// Puts the attempt on record, dated `now`, with the outcomes gathered
    /// so far, and says whether a destination accepted the item.  The
    /// record is written whatever the destinations answered.
    pub fn finish(self, ledger: &mut PublishedPostsStorage, post: &Post, now: Timestamp) -> (accepted: bool)
        ensures
            final(ledger).posts@.len() == old(ledger).posts@.len() + 1,
            final(ledger).posts@.drop_last() == old(ledger).posts@,
            final(ledger).posts@.last().records(post, self.outcomes()),
            final(ledger).posts@.last().dated(now),
            accepted <==> successes(self.outcomes()) > 0,
            self.outcomes().len() <= self.ids().len(),
            forall|i: int|
                0 <= i < self.outcomes().len() ==> (#[trigger] self.outcomes()[i]).0@ == self.ids()[i]@,
    {
        proof {
            use_type_invariant(&self);
        }
        let accepted = self.accepted > 0;
        ledger.mark_published_at(post, self.outcomes, now);
        accepted
    }
}

/// Some record of the sequence belongs to the item exactly if the records
/// of the item are not none.
proof fn lemma_holds_seq(records: Seq<PublishedPost>, guid: Seq<char>, feed_id: Seq<char>)
    ensures
        (exists|i: int| 0 <= i < records.len() && (#[trigger] records[i]).is_for(guid, feed_id))
            <==> records_for(records, guid, feed_id).len() > 0,
    decreases records.len(),
{
    if records.len() == 0 {
        reveal(Seq::filter);
    } else {
        lemma_records_grow(records.drop_last(), records.last(), guid, feed_id);
        assert(records.drop_last().push(records.last()) == records);
        lemma_holds_seq(records.drop_last(), guid, feed_id);
        if exists|i: int| 0 <= i < records.len() && (#[trigger] records[i]).is_for(guid, feed_id) {
            let i = choose|i: int| 0 <= i < records.len() && (#[trigger] records[i]).is_for(guid, feed_id);
            if i < records.len() - 1 {
                assert(records.drop_last()[i].is_for(guid, feed_id));
            }
        }
        if records_for(records, guid, feed_id).len() > 0 {
            if !records.last().is_for(guid, feed_id) {
                let i = choose|i: int|
                    0 <= i < records.drop_last().len() && (#[trigger] records.drop_last()[i]).is_for(
                        guid,
                        feed_id,
                    );
                assert(records[i].is_for(guid, feed_id));
            } else {
                assert(records[records.len() - 1].is_for(guid, feed_id));
            }
        }
    }
}

/// Appending a record adds it to the records of its item and to no others.
pub proof fn lemma_records_grow(records: Seq<PublishedPost>, record: PublishedPost, guid: Seq<char>, feed_id: Seq<char>)
    ensures
        records_for(records.push(record), guid, feed_id) == if record.is_for(guid, feed_id) {
            records_for(records, guid, feed_id).push(record)
        } else {
            records_for(records, guid, feed_id)
        },
{
    lemma_filter_push(records, record, |r: PublishedPost| r.is_for(guid, feed_id));
}

/// An item is attempted once: after an attempt for an item without a record
/// was put on record, the ledger holds exactly one record of the item, and
/// the item's plan from then on is to leave it alone, so that going
/// through the publish path again changes nothing.
pub proof fn law_item_is_attempted_once(
    before: PublishedPostsStorage,
    after: PublishedPostsStorage,
    post: Post,
    outcomes: Seq<Outcome>,
    dry_run: bool,
)
    requires
        item_plan(before.holds(post.guid@, post.feed_id@), false) == ItemPlan::Dispatch,
        after.posts@.len() == before.posts@.len() + 1,
        after.posts@.drop_last() == before.posts@,
        after.posts@.last().records(&post, outcomes),
    ensures
        records_for(after.posts@, post.guid@, post.feed_id@).len() == 1,
        after.holds(post.guid@, post.feed_id@),
        item_plan(after.holds(post.guid@, post.feed_id@), dry_run) == ItemPlan::AlreadyPublished,
{
    lemma_holds_seq(before.posts@, post.guid@, post.feed_id@);
    lemma_records_grow(before.posts@, after.posts@.last(), post.guid@, post.feed_id@);
    assert(before.posts@.push(after.posts@.last()) == after.posts@);
    assert(after.posts@[after.posts@.len() - 1].is_for(post.guid@, post.feed_id@));
}

/// The record of an attempt holds one outcome for each destination that
/// answered, under the destination's id and in the destinations' order: a
/// destination that failed has its outcome like the others.
pub proof fn law_every_answer_is_recorded(record: PublishedPost, post: Post, ids: Seq<String>, outcomes: Seq<Outcome>)
    requires
        record.records(&post, outcomes),
        outcomes.len() == ids.len(),
        forall|i: int| 0 <= i < outcomes.len() ==> (#[trigger] outcomes[i]).0@ == ids[i]@,
    ensures
        record.publisher_results@.len() == ids.len(),
        forall|i: int|
            0 <= i < ids.len() ==> (#[trigger] record.publisher_results@[i]).publisher_id@ == ids[i]@
                && record.publisher_results@[i].success == outcomes[i].1,
{
}

} // verus!
