//! All feeds of an installation.

use vstd::prelude::*;
use crate::config::{FeedConfig, YouTubeGlobalConfig};
use crate::feed::{Feed, FeedCacheMetadata};
use crate::storage::FeedCacheStorage;
use crate::text::same_text;
use crate::time::Timestamp;

verus! {

/// The feeds, in the order in which they were configured.
pub struct FeedManager {
    feeds: Vec<Feed>,
}

/// A copy of the service-wide video settings.
pub fn copy_youtube_config(config: &Option<YouTubeGlobalConfig>) -> (copy: Option<YouTubeGlobalConfig>)
    ensures
        copy == *config,
{
    match config {
        Some(c) => Some(
            YouTubeGlobalConfig { api_key: c.api_key.clone(), default_max_results: c.default_max_results },
        ),
        None => None,
    }
}

/// The feed made of `config`, with the cache entry that `cache` holds for
/// it, if any.
pub open spec fn restored(
    config: FeedConfig,
    youtube_config: Option<YouTubeGlobalConfig>,
    cache: Map<Seq<char>, FeedCacheMetadata>,
) -> Feed {
    Feed {
        config,
        last_checked: None,
        last_post_date: None,
        cache_metadata: if cache.dom().contains(config.id@) {
            cache[config.id@]
        } else {
            FeedCacheMetadata { etag: None, last_modified: None, last_content_hash: None }
        },
        youtube_config,
    }
}

/// The cache entries of the feeds, by feed id.
pub open spec fn snapshot(feeds: Seq<Feed>) -> Map<Seq<char>, FeedCacheMetadata>
    decreases feeds.len(),
{
    if feeds.len() == 0 {
        Map::empty()
    } else {
        snapshot(feeds.drop_last()).insert(feeds.last().config.id@, feeds.last().cache_metadata)
    }
}

/// The feeds that are enabled.
pub open spec fn enabled(feeds: Seq<Feed>) -> Seq<Feed> {
    feeds.filter(|f: Feed| f.config.enabled)
}

impl FeedManager {
    /// The feeds, in the order in which they were configured.
    pub closed spec fn feeds(&self) -> Seq<Feed> {
        self.feeds@
    }

    /// Position of the first feed with this id.
    pub open spec fn position(&self, id: Seq<char>, at: int) -> bool {
        &&& 0 <= at < self.feeds().len()
        &&& self.feeds()[at].config.id@ == id
        &&& forall|k: int| 0 <= k < at ==> (#[trigger] self.feeds()[k]).config.id@ != id
    }

    /// No feed has this id.
    pub open spec fn unknown(&self, id: Seq<char>) -> bool {
        forall|k: int| 0 <= k < self.feeds().len() ==> (#[trigger] self.feeds()[k]).config.id@ != id
    }

    /// Position of the first feed at or after `from` that is due at `now`.
    pub open spec fn next_due_at(&self, from: int, default_interval_minutes: u64, now: Timestamp, at: int) -> bool {
        &&& from <= at < self.feeds().len()
        &&& self.feeds()[at].due(default_interval_minutes, now)
        &&& forall|k: int| from <= k < at ==> !(#[trigger] self.feeds()[k]).due(default_interval_minutes, now)
    }

    /// A registry without feeds.
    pub fn new() -> (manager: FeedManager)
        ensures
            manager.feeds().len() == 0,
    {
        FeedManager { feeds: Vec::new() }
    }

    /// Registers a feed that was never checked.
    pub fn add_feed(&mut self, config: FeedConfig, youtube_config: Option<YouTubeGlobalConfig>)
        ensures
            final(self).feeds() == old(self).feeds().push(
                restored(config, youtube_config, Map::empty()),
            ),
    {
        let feed = Feed::new(config, youtube_config);
        self.feeds.push(feed);
    }

    /// Replaces the feeds by those configured, none of them checked yet.
    pub fn load_feeds(&mut self, configs: Vec<FeedConfig>, youtube_config: Option<YouTubeGlobalConfig>)
        ensures
            final(self).feeds() == configs@.map_values(
                |c: FeedConfig| restored(c, youtube_config, Map::empty()),
            ),
    {
        let ghost wanted = configs@.map_values(|c: FeedConfig| restored(c, youtube_config, Map::empty()));
        let mut configs = configs;
        self.feeds.clear();
        let ghost mut done: int = 0;
        while configs.len() > 0
            invariant
                0 <= done <= wanted.len(),
                wanted.len() == done + configs@.len(),
                self.feeds@ == wanted.take(done),
                forall|k: int|
                    0 <= k < configs@.len() ==> restored(#[trigger] configs@[k], youtube_config, Map::empty())
                        == wanted[done + k],
            decreases configs@.len(),
        {
            let config = configs.remove(0);
            self.add_feed(config, copy_youtube_config(&youtube_config));
            proof {
                assert(wanted.take(done + 1) == wanted.take(done).push(wanted[done]));
                done = done + 1;
            }
        }
        assert(wanted.take(done) == wanted);
    }

    /// Replaces the feeds by those configured, none of them checked yet,
    /// each with what an earlier run remembered of its source.
    pub fn load_feeds_with_cache(
        &mut self,
        configs: Vec<FeedConfig>,
        youtube_config: Option<YouTubeGlobalConfig>,
        cache: &FeedCacheStorage,
    )
        ensures
            final(self).feeds() == configs@.map_values(|c: FeedConfig| restored(c, youtube_config, cache@)),
    {
        let ghost wanted = configs@.map_values(|c: FeedConfig| restored(c, youtube_config, cache@));
        let mut configs = configs;
        self.feeds.clear();
        let ghost mut done: int = 0;
        while configs.len() > 0
            invariant
                0 <= done <= wanted.len(),
                wanted.len() == done + configs@.len(),
                self.feeds@ == wanted.take(done),
                forall|k: int|
                    0 <= k < configs@.len() ==> restored(#[trigger] configs@[k], youtube_config, cache@)
                        == wanted[done + k],
            decreases configs@.len(),
        {
            let config = configs.remove(0);
            let remembered = match cache.get(config.id.as_str()) {
                Some(entry) => entry.duplicate(),
                None => FeedCacheMetadata::default(),
            };
            let feed = Feed::new_with_cache(config, remembered, copy_youtube_config(&youtube_config));
            self.feeds.push(feed);
            proof {
                assert(wanted.take(done + 1) == wanted.take(done).push(wanted[done]));
                done = done + 1;
            }
        }
        assert(wanted.take(done) == wanted);
    }

    /// What each feed remembers of its source, to be kept for the next run.
    pub fn get_cache_metadata(&self) -> (cache: FeedCacheStorage)
        ensures
            cache@ == snapshot(self.feeds()),
    {
        let mut cache = FeedCacheStorage::default();
        let mut i: usize = 0;
        while i < self.feeds.len()
            invariant
                i <= self.feeds@.len(),
                cache@ == snapshot(self.feeds@.take(i as int)),
            decreases self.feeds@.len() - i,
        {
            let feed = &self.feeds[i];
            cache.insert(feed.config.id.clone(), feed.cache_metadata.duplicate());
            proof {
                assert(self.feeds@.take(i + 1).drop_last() == self.feeds@.take(i as int));
            }
            i += 1;
        }
        assert(self.feeds@.take(i as int) == self.feeds@);
        cache
    }

    /// The first feed at or after position `from` that is due at `now`.
    /// A sweep checks that feed and goes on behind it.
    pub fn next_due(&self, from: usize, default_interval_minutes: u64, now: Timestamp) -> (next: Option<usize>)
        ensures
            next matches Some(at) ==> self.next_due_at(from as int, default_interval_minutes, now, at as int),
            next is None ==> forall|k: int|
                from <= k < self.feeds().len() ==> !(#[trigger] self.feeds()[k]).due(
                    default_interval_minutes,
                    now,
                ),
    {
        let mut i: usize = from;
        while i < self.feeds.len()
            invariant
                from <= i,
                forall|k: int|
                    from <= k < i && k < self.feeds@.len() ==> !(#[trigger] self.feeds@[k]).due(
                        default_interval_minutes,
                        now,
                    ),
            decreases self.feeds@.len() - i,
        {
            if self.feeds[i].should_check_at(default_interval_minutes, now) {
                return Some(i);
            }
            i += 1;
        }
        None
    }

    /// The positions of the feeds that are due at `now`, in their order:
    /// the feeds that a sweep checks.
    pub fn check_all_feeds(&self, default_interval_minutes: u64, now: Timestamp) -> (due: Vec<usize>)
        ensures
            forall|k: int| 0 <= k < due@.len() ==> (#[trigger] due@[k]) < self.feeds().len(),
            forall|k: int, l: int| 0 <= k < l < due@.len() ==> #[trigger] due@[k] < #[trigger] due@[l],
            forall|at: int|
                0 <= at < self.feeds().len() ==> (#[trigger] self.feeds()[at]).due(
                    default_interval_minutes,
                    now,
                ) == due@.contains(at as usize),
    {
        let mut due: Vec<usize> = Vec::new();
        let mut i: usize = 0;
        while i < self.feeds.len()
            invariant
                i <= self.feeds@.len(),
                forall|k: int| 0 <= k < due@.len() ==> (#[trigger] due@[k]) < i,
                forall|k: int, l: int| 0 <= k < l < due@.len() ==> #[trigger] due@[k] < #[trigger] due@[l],
                forall|at: int|
                    0 <= at < i ==> (#[trigger] self.feeds@[at]).due(default_interval_minutes, now)
                        == due@.contains(at as usize),
            decreases self.feeds@.len() - i,
        {
            let ghost before = due@;
            if self.feeds[i].should_check_at(default_interval_minutes, now) {
                due.push(i);
                assert(due@[due@.len() - 1] == i);
                assert forall|at: int| 0 <= at < i + 1 implies (#[trigger] self.feeds@[at]).due(
                    default_interval_minutes,
                    now,
                ) == due@.contains(at as usize) by {
                    if at < i {
                        if before.contains(at as usize) {
                            let k = choose|k: int| 0 <= k < before.len() && before[k] == at as usize;
                            assert(due@[k] == at as usize);
                        }
                        if due@.contains(at as usize) {
                            let k = choose|k: int| 0 <= k < due@.len() && due@[k] == at as usize;
                            assert(before[k] == at as usize);
                        }
                    }
                }
            } else {
                assert(!due@.contains(i)) by {
                    if due@.contains(i) {
                        let k = choose|k: int| 0 <= k < due@.len() && due@[k] == i;
                        assert(due@[k] < i);
                    }
                }
            }
            i += 1;
        }
        due
    }

    /// How many feeds there are.
    pub fn len(&self) -> (count: usize)
        ensures
            count == self.feeds().len(),
    {
        self.feeds.len()
    }

    /// The feed at position `at`, if there are that many.
    pub fn feed_at(&self, at: usize) -> (feed: Option<&Feed>)
        ensures
            feed is Some <==> at < self.feeds().len(),
            feed matches Some(found) ==> *found == self.feeds()[at as int],
    {
        if at < self.feeds.len() {
            Some(&self.feeds[at])
        } else {
            None
        }
    }

    /// The feed at position `at`, if there are that many, to be changed in
    /// place.
    pub fn feed_at_mut(&mut self, at: usize) -> (feed: Option<&mut Feed>)
        ensures
            feed is Some <==> at < old(self).feeds().len(),
            feed matches Some(found) ==> *found == old(self).feeds()[at as int] && final(self).feeds()
                == old(self).feeds().update(at as int, *final(found)),
            feed is None ==> final(self).feeds() == old(self).feeds(),
    {
        if at < self.feeds.len() {
            Some(&mut self.feeds[at])
        } else {
            None
        }
    }

    /// Position of the first feed with this id.
    pub fn find(&self, id: &str) -> (found: Option<usize>)
        ensures
            found matches Some(at) ==> self.position(id@, at as int),
            found is None ==> self.unknown(id@),
    {
        let mut i: usize = 0;
        while i < self.feeds.len()
            invariant
                i <= self.feeds@.len(),
                forall|k: int| 0 <= k < i ==> (#[trigger] self.feeds@[k]).config.id@ != id@,
            decreases self.feeds@.len() - i,
        {
            if same_text(self.feeds[i].config.id.as_str(), id) {
                return Some(i);
            }
            i += 1;
        }
        None
    }

    /// The first feed with this id.
    pub fn get_feed(&self, id: &str) -> (feed: Option<&Feed>)
        ensures
            feed matches Some(found) ==> exists|at: int| #[trigger]
                self.position(id@, at) && *found == self.feeds()[at],
            feed is None ==> self.unknown(id@),
    {
        match self.find(id) {
            Some(at) => Some(&self.feeds[at]),
            None => None,
        }
    }

    /// The first feed with this id, to be changed in place.
    pub fn get_feed_mut(&mut self, id: &str) -> (feed: Option<&mut Feed>)
        ensures
            feed matches Some(found) ==> exists|at: int| #[trigger]
                old(self).position(id@, at) && *found == old(self).feeds()[at] && final(self).feeds() == old(
                    self,
                ).feeds().update(at, *final(found)),
            feed is None ==> old(self).unknown(id@) && final(self).feeds() == old(self).feeds(),
    {
        match self.find(id) {
            Some(at) => Some(&mut self.feeds[at]),
            None => None,
        }
    }

    /// Id, name and whether it is enabled, for each feed.
    pub fn list_feeds(&self) -> (list: Vec<(&str, &str, bool)>)
        ensures
            list@.len() == self.feeds().len(),
            forall|i: int|
                0 <= i < list@.len() ==> {
                    &&& (#[trigger] list@[i]).0@ == self.feeds()[i].config.id@
                    &&& list@[i].1@ == self.feeds()[i].config.name@
                    &&& list@[i].2 == self.feeds()[i].config.enabled
                },
    {
        let mut list: Vec<(&str, &str, bool)> = Vec::new();
        let mut i: usize = 0;
        while i < self.feeds.len()
            invariant
                i <= self.feeds@.len(),
                list@.len() == i,
                forall|k: int|
                    0 <= k < i ==> {
                        &&& (#[trigger] list@[k]).0@ == self.feeds@[k].config.id@
                        &&& list@[k].1@ == self.feeds@[k].config.name@
                        &&& list@[k].2 == self.feeds@[k].config.enabled
                    },
            decreases self.feeds@.len() - i,
        {
            let feed = &self.feeds[i];
            list.push((feed.config.id.as_str(), feed.config.name.as_str(), feed.config.enabled));
            i += 1;
        }
        list
    }

    /// How many feeds are enabled.
    pub fn get_enabled_feeds_count(&self) -> (count: usize)
        ensures
            count == enabled(self.feeds()).len(),
    {
        let ghost keep = |f: Feed| f.config.enabled;
        let mut count: usize = 0;
        let mut i: usize = 0;
        assert(self.feeds@.take(0).filter(keep).len() == 0) by {
            reveal(Seq::filter);
        }
        while i < self.feeds.len()
            invariant
                i <= self.feeds@.len(),
                count <= i,
                keep == |f: Feed| f.config.enabled,
                count == self.feeds@.take(i as int).filter(keep).len(),
            decreases self.feeds@.len() - i,
        {
            proof {
                crate::ledger::lemma_filter_push(self.feeds@.take(i as int), self.feeds@[i as int], keep);
                assert(self.feeds@.take(i + 1) == self.feeds@.take(i as int).push(self.feeds@[i as int]));
            }
            if self.feeds[i].config.enabled {
                count += 1;
            }
            i += 1;
        }
        assert(self.feeds@.take(i as int) == self.feeds@);
        count
    }
}

} // verus!
