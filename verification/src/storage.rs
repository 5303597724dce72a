//! What is kept between runs, and where.

use vstd::prelude::*;
use crate::feed::FeedCacheMetadata;
use crate::assoc::{assoc_find, assoc_map};
use crate::publishers::threads::{contains_text, occurs};
use crate::text::join;

verus! {

/// What each feed remembered of its source, by feed id.  Where an id
/// occurs more than once, the entry that comes last counts.
#[derive(Debug, Clone)]
pub struct FeedCacheStorage {
    pub feeds: Vec<(String, FeedCacheMetadata)>,
}

impl View for FeedCacheStorage {
    type V = Map<Seq<char>, FeedCacheMetadata>;

    open spec fn view(&self) -> Map<Seq<char>, FeedCacheMetadata> {
        assoc_map(self.feeds@)
    }
}

impl Default for FeedCacheStorage {
    fn default() -> (cache: FeedCacheStorage)
        ensures
            cache@ == Map::<Seq<char>, FeedCacheMetadata>::empty(),
    {
        FeedCacheStorage { feeds: Vec::new() }
    }
}

impl FeedCacheStorage {
    /// The entry of feed `id`, if there is one.
    pub fn get(&self, id: &str) -> (entry: Option<&FeedCacheMetadata>)
        ensures
            entry is Some == self@.dom().contains(id@),
            entry matches Some(found) ==> *found == self@[id@],
    {
        match assoc_find(&self.feeds, id) {
            Some(at) => Some(&self.feeds[at].1),
            None => None,
        }
    }

    /// Sets the entry of feed `id`.
    pub fn insert(&mut self, id: String, entry: FeedCacheMetadata)
        ensures
            final(self)@ == old(self)@.insert(id@, entry),
    {
        self.feeds.push((id, entry));
        assert(self.feeds@.drop_last() == old(self).feeds@);
    }
}

/// Name of the file that holds the feed cache.
pub open spec fn feed_cache_file_name() -> Seq<char> {
    "feed_cache.json"@
}

/// Knows where the state of an installation is kept.
#[derive(Debug, Clone)]
pub struct StorageManager {
    data_dir: String,
    published_posts_file: String,
    feed_cache_file: String,
}

impl StorageManager {
    /// Directory that holds the state.
    pub closed spec fn spec_data_dir(&self) -> Seq<char> {
        self.data_dir@
    }

    /// Name of the ledger's file inside the directory.
    pub closed spec fn spec_published_posts_file(&self) -> Seq<char> {
        self.published_posts_file@
    }

    /// Name of the feed cache's file inside the directory.
    pub closed spec fn spec_feed_cache_file(&self) -> Seq<char> {
        self.feed_cache_file@
    }

    /// State kept in `data_dir`: the ledger in `published_posts_file`, the
    /// feed cache in `feed_cache.json`.
    pub fn new(data_dir: String, published_posts_file: String) -> (manager: StorageManager)
        ensures
            manager.spec_data_dir() == data_dir@,
            manager.spec_published_posts_file() == published_posts_file@,
            manager.spec_feed_cache_file() == feed_cache_file_name(),
    {
        StorageManager { data_dir, published_posts_file, feed_cache_file: "feed_cache.json".to_owned() }
    }

    /// Name of the backup of the ledger that is made at the moment that
    /// `stamp` names.
    pub fn backup_name(&self, stamp: &str) -> (name: String)
        ensures
            name@ == self.spec_published_posts_file() + ".backup."@ + stamp@,
    {
        let marked = join(self.published_posts_file.as_str(), ".backup.");
        join(marked.as_str(), stamp)
    }

    /// Whether a file of this name is a backup.
    pub fn is_backup_name(name: &str) -> (backup: bool)
        ensures
            backup == occurs(name@, ".backup."@),
    {
        contains_text(name, ".backup.")
    }

    /// Directory that holds the state.
    pub fn data_dir(&self) -> (dir: &str)
        ensures
            dir@ == self.spec_data_dir(),
    {
        self.data_dir.as_str()
    }

    /// Name of the ledger's file inside the directory.
    pub fn published_posts_file(&self) -> (name: &str)
        ensures
            name@ == self.spec_published_posts_file(),
    {
        self.published_posts_file.as_str()
    }

    /// Name of the feed cache's file inside the directory.
    pub fn feed_cache_file(&self) -> (name: &str)
        ensures
            name@ == self.spec_feed_cache_file(),
    {
        self.feed_cache_file.as_str()
    }
}

} // verus!
