//! The record of what was handed to which destination.
//!
//! Once an item has a record it is never sent again, whatever its
//! destinations answered.

use vstd::prelude::*;
use crate::post::Post;
use crate::text::same_text;
use crate::time::{current_time, Timestamp};

verus! {

/// One publish attempt: the item and what each destination answered.
#[derive(Debug, Clone)]
pub struct PublishedPost {
    pub post_guid: String,
    pub feed_id: String,
    /// When the attempt was recorded.
    pub published_at: Timestamp,
    pub publisher_results: Vec<PublisherResult>,
}

/// What one destination answered.
#[derive(Debug, Clone)]
pub struct PublisherResult {
    pub publisher_id: String,
    pub success: bool,
    pub message: String,
    pub published_at: Timestamp,
}

/// What one destination answered, as the dispatcher reports it: the
/// destination's id, whether it accepted the item, and its message.
pub type Outcome = (String, bool, String);

impl PublisherResult {
    /// The result says what `outcome` says.
    pub open spec fn reports(&self, outcome: Outcome) -> bool {
        &&& self.publisher_id@ == outcome.0@
        &&& self.success == outcome.1
        &&& self.message@ == outcome.2@
    }
}

impl PublishedPost {
    /// The record belongs to the item `guid` of feed `feed_id`.
    pub open spec fn is_for(&self, guid: Seq<char>, feed_id: Seq<char>) -> bool {
        self.post_guid@ == guid && self.feed_id@ == feed_id
    }

    /// The record belongs to `post` and holds `outcomes`, one result for
    /// each, in their order.
    pub open spec fn records(&self, post: &Post, outcomes: Seq<Outcome>) -> bool {
        &&& self.is_for(post.guid@, post.feed_id@)
        &&& self.publisher_results@.len() == outcomes.len()
        &&& forall|i: int|
            0 <= i < outcomes.len() ==> (#[trigger] self.publisher_results@[i]).reports(outcomes[i])
    }

    /// The record and each of its results are dated `now`.
    pub open spec fn dated(&self, now: Timestamp) -> bool {
        &&& self.published_at == now
        &&& forall|i: int|
            0 <= i < self.publisher_results@.len() ==> (
            #[trigger] self.publisher_results@[i]).published_at == now
    }

    /// An empty record for `post`, dated by the system clock.
    pub fn new(post: &Post) -> (record: PublishedPost)
        ensures
            record.records(post, Seq::empty()),
    {
        PublishedPost::new_at(post, current_time())
    }

    /// An empty record for `post`, dated `now`.
    pub fn new_at(post: &Post, now: Timestamp) -> (record: PublishedPost)
        ensures
            record.records(post, Seq::empty()),
            record.dated(now),
    {
        PublishedPost {
            post_guid: post.guid.clone(),
            feed_id: post.feed_id.clone(),
            published_at: now,
            publisher_results: Vec::new(),
        }
    }

    /// Appends one destination's answer, dated by the system clock.
    pub fn add_result(&mut self, publisher_id: String, success: bool, message: String)
        ensures
            final(self).post_guid == old(self).post_guid,
            final(self).feed_id == old(self).feed_id,
            final(self).published_at == old(self).published_at,
            final(self).publisher_results@.len() == old(self).publisher_results@.len() + 1,
            final(self).publisher_results@.drop_last() == old(self).publisher_results@,
            final(self).publisher_results@.last().reports((publisher_id, success, message)),
    {
        self.add_result_at(publisher_id, success, message, current_time());
    }

    /// Appends one destination's answer, dated `now`.
    pub fn add_result_at(
        &mut self,
        publisher_id: String,
        success: bool,
        message: String,
        now: Timestamp,
    )
        ensures
            final(self).post_guid == old(self).post_guid,
            final(self).feed_id == old(self).feed_id,
            final(self).published_at == old(self).published_at,
            final(self).publisher_results@ == old(self).publisher_results@.push(
                PublisherResult { publisher_id, success, message, published_at: now },
            ),
    {
        self.publisher_results.push(
            PublisherResult { publisher_id, success, message, published_at: now },
        );
    }
}

/// Every publish attempt made so far, oldest first.
#[derive(Debug, Clone)]
pub struct PublishedPostsStorage {
    pub posts: Vec<PublishedPost>,
}

impl Default for PublishedPostsStorage {
    fn default() -> (ledger: PublishedPostsStorage)
        ensures
            ledger.posts@.len() == 0,
    {
        PublishedPostsStorage { posts: Vec::new() }
    }
}

/// The records of `records` that belong to item `guid` of feed `feed_id`.
pub open spec fn records_for(records: Seq<PublishedPost>, guid: Seq<char>, feed_id: Seq<char>) -> Seq<
    PublishedPost,
> {
    records.filter(|r: PublishedPost| r.is_for(guid, feed_id))
}

/// The records of `records` that belong to feed `feed_id`.
pub open spec fn records_of_feed(records: Seq<PublishedPost>, feed_id: Seq<char>) -> Seq<PublishedPost> {
    records.filter(|r: PublishedPost| r.feed_id@ == feed_id)
}

/// The records of `records` made later than `days` whole days before `now`;
/// all of them where the calendar does not go back that far.
pub open spec fn records_within(records: Seq<PublishedPost>, now: Timestamp, days: u64) -> Seq<
    PublishedPost,
> {
    records.filter(|r: PublishedPost| r.published_at.within_days_of(now, days))
}

/// Filtering a sequence extended by one element filters the sequence and
/// then decides on the element.
pub proof fn lemma_filter_push<A>(s: Seq<A>, x: A, keep: spec_fn(A) -> bool)
    ensures
        s.push(x).filter(keep) == if keep(x) {
            s.filter(keep).push(x)
        } else {
            s.filter(keep)
        },
{
    reveal(Seq::filter);
    assert(s.push(x).drop_last() == s);
}

impl PublishedPostsStorage {
    /// An attempt for item `guid` of feed `feed_id` is on record.
    pub open spec fn holds(&self, guid: Seq<char>, feed_id: Seq<char>) -> bool {
        exists|i: int| 0 <= i < self.posts@.len() && (#[trigger] self.posts@[i]).is_for(guid, feed_id)
    }

    /// An empty ledger.
    pub fn new() -> (ledger: PublishedPostsStorage)
        ensures
            ledger.posts@.len() == 0,
    {
        PublishedPostsStorage { posts: Vec::new() }
    }

    /// Whether an attempt for `post` is on record.
    pub fn is_published(&self, post: &Post) -> (published: bool)
        ensures
            published == self.holds(post.guid@, post.feed_id@),
    {
        let mut i: usize = 0;
        while i < self.posts.len()
            invariant
                i <= self.posts@.len(),
                forall|k: int| 0 <= k < i ==> !(#[trigger] self.posts@[k]).is_for(post.guid@, post.feed_id@),
            decreases self.posts@.len() - i,
        {
            let record = &self.posts[i];
            if record.post_guid == post.guid && record.feed_id == post.feed_id {
                return true;
            }
            i += 1;
        }
        false
    }

    /// Appends the record of one attempt for `post`, dated by the system
    /// clock.  The record is appended whatever the destinations answered.
    pub fn mark_published(&mut self, post: &Post, results: Vec<Outcome>)
        ensures
            final(self).posts@.len() == old(self).posts@.len() + 1,
            final(self).posts@.drop_last() == old(self).posts@,
            final(self).posts@.last().records(post, results@),
    {
        let mut record = PublishedPost::new(post);
        let mut i: usize = 0;
        while i < results.len()
            invariant
                i <= results@.len(),
                record.records(post, results@.take(i as int)),
            decreases results@.len() - i,
        {
            let outcome = &results[i];
            record.add_result(outcome.0.clone(), outcome.1, outcome.2.clone());
            assert(record.records(post, results@.take(i + 1))) by {
                assert forall|k: int| 0 <= k < i + 1 implies (#[trigger] record.publisher_results@[k]).reports(
                    results@.take(i + 1)[k],
                ) by {
                    if k < i {
                        assert(record.publisher_results@[k] == record.publisher_results@.drop_last()[k]);
                        assert(results@.take(i as int)[k] == results@[k]);
                    }
                }
            }
            i += 1;
        }
        assert(results@.take(i as int) == results@);
        self.posts.push(record);
        assert(self.posts@.drop_last() == old(self).posts@);
    }

    /// Appends the record of one attempt for `post`, dated `now`.  The
    /// record is appended whatever the destinations answered.
    pub fn mark_published_at(&mut self, post: &Post, results: Vec<Outcome>, now: Timestamp)
        ensures
            final(self).posts@.len() == old(self).posts@.len() + 1,
            final(self).posts@.drop_last() == old(self).posts@,
            final(self).posts@.last().records(post, results@),
            final(self).posts@.last().dated(now),
    {
        let mut record = PublishedPost::new_at(post, now);
        let mut i: usize = 0;
        while i < results.len()
            invariant
                i <= results@.len(),
                record.records(post, results@.take(i as int)),
                record.dated(now),
            decreases results@.len() - i,
        {
            let outcome = &results[i];
            record.add_result_at(outcome.0.clone(), outcome.1, outcome.2.clone(), now);
            i += 1;
        }
        assert(results@.take(i as int) == results@);
        self.posts.push(record);
        assert(self.posts@.drop_last() == old(self).posts@);
    }

    /// How many attempts are on record for feed `feed_id`.
    pub fn get_published_count(&self, feed_id: &str) -> (count: usize)
        ensures
            count == records_of_feed(self.posts@, feed_id@).len(),
    {
        let mut count: usize = 0;
        let mut i: usize = 0;
        let ghost keep = |r: PublishedPost| r.feed_id@ == feed_id@;
        assert(self.posts@.take(0).filter(keep).len() == 0) by {
            reveal(Seq::filter);
        }
        while i < self.posts.len()
            invariant
                i <= self.posts@.len(),
                count <= i,
                keep == |r: PublishedPost| r.feed_id@ == feed_id@,
                count == self.posts@.take(i as int).filter(keep).len(),
            decreases self.posts@.len() - i,
        {
            proof {
                lemma_filter_push(self.posts@.take(i as int), self.posts@[i as int], keep);
                assert(self.posts@.take(i + 1) == self.posts@.take(i as int).push(self.posts@[i as int]));
            }
            if same_text(self.posts[i].feed_id.as_str(), feed_id) {
                count += 1;
            }
            i += 1;
        }
        assert(self.posts@.take(i as int) == self.posts@);
        count
    }

    /// Drops the records made `days_to_keep` whole days before the system
    /// clock's instant, or earlier.  The records that stay keep their order.
    pub fn cleanup_old_posts(&mut self, days_to_keep: u64)
        ensures
            exists|now: Timestamp|
                final(self).posts@ == #[trigger] records_within(old(self).posts@, now, days_to_keep),
    {
        let now = current_time();
        self.cleanup_older_than(days_to_keep, now);
    }

    /// Drops the records made `days_to_keep` whole days before `now`, or
    /// earlier.  The records that stay keep their order.
    pub fn cleanup_older_than(&mut self, days_to_keep: u64, now: Timestamp)
        ensures
            final(self).posts@ == records_within(old(self).posts@, now, days_to_keep),
    {
        let ghost keep = |r: PublishedPost| r.published_at.within_days_of(now, days_to_keep);
        let cutoff = now.cutoff(days_to_keep);
        let ghost before = self.posts@;
        let mut kept: usize = 0;
        let ghost mut seen: int = 0;
        assert(before.take(0).filter(keep) == Seq::<PublishedPost>::empty()) by {
            reveal(Seq::filter);
        }
        while kept < self.posts.len()
            invariant
                keep == |r: PublishedPost| r.published_at.within_days_of(now, days_to_keep),
                cutoff == now.days_back(days_to_keep),
                kept <= self.posts@.len(),
                seen == kept + (before.len() - self.posts@.len()),
                0 <= seen <= before.len(),
                self.posts@.take(kept as int) == before.take(seen).filter(keep),
                self.posts@.skip(kept as int) == before.skip(seen),
            decreases self.posts@.len() - kept,
        {
            proof {
                lemma_filter_push(before.take(seen), before[seen], keep);
                assert(before.take(seen + 1) == before.take(seen).push(before[seen]));
                assert(self.posts@[kept as int] == self.posts@.skip(kept as int)[0]);
                assert(before[seen] == before.skip(seen)[0]);
            }
            let ghost current = self.posts@;
            if self.posts[kept].published_at.is_after(&cutoff) {
                assert(current.take(kept + 1) == current.take(kept as int).push(current[kept as int]));
                assert(current.skip(kept + 1) == before.skip(seen + 1)) by {
                    assert(current.skip(kept + 1) == current.skip(kept as int).skip(1));
                    assert(before.skip(seen + 1) == before.skip(seen).skip(1));
                }
                kept += 1;
            } else {
                self.posts.remove(kept);
                assert(self.posts@.take(kept as int) == current.take(kept as int));
                assert(self.posts@.skip(kept as int) == before.skip(seen + 1)) by {
                    assert(self.posts@.skip(kept as int) == current.skip(kept as int).skip(1));
                    assert(before.skip(seen + 1) == before.skip(seen).skip(1));
                }
            }
            proof {
                seen = seen + 1;
            }
        }
        assert(self.posts@.take(kept as int) == self.posts@);
        assert(before.take(seen) == before);
    }
}

} // verus!
