//! Items found in feeds.

use vstd::prelude::*;
use crate::syndication::{FeedEntry, RssItem, RssItemText};
use crate::text::{copy_opt, opt_text};
use crate::time::{current_time, instant, parse_rfc2822, rfc2822_instant, Timestamp};

verus! {

/// One item of a feed.  Within its feed the `guid` identifies it.
#[derive(Debug, Clone, PartialEq)]
pub struct Post {
    pub guid: String,
    pub title: String,
    pub description: Option<String>,
    pub link: String,
    pub published: Timestamp,
    pub feed_id: String,
}

/// The characters and instant of a [`Post`].
pub struct PostText {
    pub guid: Seq<char>,
    pub title: Seq<char>,
    pub description: Option<Seq<char>>,
    pub link: Seq<char>,
    pub published: Timestamp,
    pub feed_id: Seq<char>,
}

impl View for Post {
    type V = PostText;

    open spec fn view(&self) -> PostText {
        PostText {
            guid: self.guid@,
            title: self.title@,
            description: opt_text(self.description),
            link: self.link@,
            published: self.published,
            feed_id: self.feed_id@,
        }
    }
}

/// A text if it is present and not empty.
pub open spec fn non_empty(text: Option<Seq<char>>) -> Option<Seq<char>> {
    match text {
        Some(t) => if t.len() > 0 {
            Some(t)
        } else {
            None
        },
        None => None,
    }
}

impl RssItemText {
    /// The instant that the item's RFC 2822 date names; `now` where the
    /// date is missing or malformed.
    pub open spec fn published_at(&self, now: Timestamp) -> Timestamp {
        match self.pub_date {
            Some(d) => match instant(rfc2822_instant(d)) {
                Some(t) => t,
                None => now,
            },
            None => now,
        }
    }

    /// The item has a guid, a title and a link, none of them empty.
    pub open spec fn complete(&self) -> bool {
        &&& self.guid matches Some(g) && g.len() > 0
        &&& self.title matches Some(t) && t.len() > 0
        &&& self.link matches Some(l) && l.len() > 0
    }

    /// The post that a complete item becomes in feed `feed_id` when read at
    /// `now`.
    pub open spec fn as_post(&self, feed_id: Seq<char>, now: Timestamp) -> PostText {
        self.as_post_dated(feed_id, self.published_at(now))
    }

    /// The post that a complete item becomes in feed `feed_id` when it is
    /// dated `published`.
    pub open spec fn as_post_dated(&self, feed_id: Seq<char>, published: Timestamp) -> PostText {
        PostText {
            guid: self.guid->0,
            title: self.title->0,
            description: non_empty(self.description),
            link: self.link->0,
            published,
            feed_id,
        }
    }
}

impl FeedEntry {
    /// The body of the entry's content if it has one that is not empty,
    /// else its summary.
    pub open spec fn description_text(&self) -> Option<Seq<char>> {
        let body = match self.content {
            Some(content) => non_empty(opt_text(content.body)),
            None => None,
        };
        match body {
            Some(c) => Some(c),
            None => non_empty(opt_text(self.summary)),
        }
    }

    /// The entry's publication instant, else its last update, else `now`.
    pub open spec fn published_at(&self, now: Timestamp) -> Timestamp {
        match self.published {
            Some(t) => t,
            None => match self.updated {
                Some(t) => t,
                None => now,
            },
        }
    }

    /// The entry has an id, a title and a first link, none of them empty.
    pub open spec fn complete(&self) -> bool {
        &&& self.id@.len() > 0
        &&& self.title matches Some(t) && t@.len() > 0
        &&& self.links@.len() > 0 && self.links@[0]@.len() > 0
    }

    /// The post that a complete entry becomes in feed `feed_id` when read
    /// at `now`: its link is the first of the entry's links.
    pub open spec fn as_post(&self, feed_id: Seq<char>, now: Timestamp) -> PostText {
        PostText {
            guid: self.id@,
            title: self.title->0@,
            description: self.description_text(),
            link: self.links@[0]@,
            published: self.published_at(now),
            feed_id,
        }
    }
}

impl Post {
    pub fn new(
        guid: String,
        title: String,
        description: Option<String>,
        link: String,
        published: Timestamp,
        feed_id: String,
    ) -> (post: Post)
        ensures
            post.guid == guid,
            post.title == title,
            post.description == description,
            post.link == link,
            post.published == published,
            post.feed_id == feed_id,
    {
        Post { guid, title, description, link, published, feed_id }
    }

    /// A copy of the post.
    pub fn duplicate(&self) -> (copy: Post)
        ensures
            copy == *self,
    {
        Post {
            guid: self.guid.clone(),
            title: self.title.clone(),
            description: copy_opt(&self.description),
            link: self.link.clone(),
            published: self.published,
            feed_id: self.feed_id.clone(),
        }
    }

    /// Turns an RSS item into a post of feed `feed_id`, dated by the system
    /// clock where the item carries no readable date.  An item that lacks a
    /// guid, a title or a link, or has an empty one, gives `None`.
    pub fn from_rss_item(item: &RssItem, feed_id: String) -> (post: Option<Post>)
        ensures
            post is Some <==> item@.complete(),
            post matches Some(p) ==> exists|now: Timestamp| p@ == item@.as_post(feed_id@, now),
    {
        let now = current_time();
        Post::from_rss_item_at(item, feed_id, now)
    }

    /// Turns an RSS item into a post of feed `feed_id`; `now` dates an item
    /// that carries no readable date.  An item that lacks a guid, a title or
    /// a link, or has an empty one, gives `None`.
    pub fn from_rss_item_at(item: &RssItem, feed_id: String, now: Timestamp) -> (post: Option<Post>)
        ensures
            post is Some <==> item@.complete(),
            post matches Some(p) ==> p@ == item@.as_post(feed_id@, now),
    {
        let read = match &item.pub_date {
            Some(d) => parse_rfc2822(d.as_str()),
            None => None,
        };
        Post::from_rss_item_dated(item, feed_id, read, now)
    }

    /// Turns an RSS item into a post of feed `feed_id`, given the instant
    /// that was read out of its date; `now` dates an item out of whose date
    /// none was read.  An item that lacks a guid, a title or a link, or has
    /// an empty one, gives `None`.
    pub fn from_rss_item_dated(item: &RssItem, feed_id: String, read: Option<Timestamp>, now: Timestamp) -> (post: Option<
        Post,
    >)
        ensures
            post is Some <==> item@.complete(),
            post matches Some(p) ==> p@ == item@.as_post_dated(
                feed_id@,
                match read {
                    Some(at) => at,
                    None => now,
                },
            ),
    {
        let guid = match &item.guid {
            Some(g) => g.clone(),
            None => {
                return None;
            },
        };
        let title = match &item.title {
            Some(t) => t.clone(),
            None => {
                return None;
            },
        };
        let link = match &item.link {
            Some(l) => l.clone(),
            None => {
                return None;
            },
        };
        let description = Post::extract_rss_description(item);
        let published = match read {
            Some(at) => at,
            None => now,
        };
        if !guid.as_str().is_empty() && !title.as_str().is_empty() && !link.as_str().is_empty() {
            Some(Post::new(guid, title, description, link, published, feed_id))
        } else {
            None
        }
    }

    /// The item's description, unless it is missing or empty.
    pub fn extract_rss_description(item: &RssItem) -> (description: Option<String>)
        ensures
            opt_text(description) == non_empty(item@.description),
    {
        match &item.description {
            Some(d) => if !d.as_str().is_empty() {
                Some(d.clone())
            } else {
                None
            },
            None => None,
        }
    }

    /// Turns a feed entry into a post of feed `feed_id`, dated by the system
    /// clock where the entry carries no date.  An entry that lacks an id, a
    /// title or a link gives `None`.
    pub fn from_feed_item(item: &FeedEntry, feed_id: String) -> (post: Option<Post>)
        ensures
            post is Some <==> item.complete(),
            post matches Some(p) ==> exists|now: Timestamp| p@ == item.as_post(feed_id@, now),
    {
        let now = current_time();
        Post::from_feed_item_at(item, feed_id, now)
    }

    /// Turns a feed entry into a post of feed `feed_id`; `now` dates an
    /// entry that carries no date.  An entry that lacks an id, a title or a
    /// link gives `None`.
    pub fn from_feed_item_at(item: &FeedEntry, feed_id: String, now: Timestamp) -> (post: Option<Post>)
        ensures
            post is Some <==> item.complete(),
            post matches Some(p) ==> p@ == item.as_post(feed_id@, now),
    {
        let title = match &item.title {
            Some(t) => t.clone(),
            None => {
                return None;
            },
        };
        if item.links.len() == 0 {
            return None;
        }
        let link = item.links[0].clone();
        let guid = item.id.clone();
        let description = Post::extract_description(item);
        let published = match item.published {
            Some(t) => t,
            None => match item.updated {
                Some(t) => t,
                None => now,
            },
        };
        if !guid.as_str().is_empty() && !title.as_str().is_empty() && !link.as_str().is_empty() {
            Some(Post::new(guid, title, description, link, published, feed_id))
        } else {
            None
        }
    }

    /// The entry's content if it has any, else its summary, else nothing.
    pub fn extract_description(item: &FeedEntry) -> (description: Option<String>)
        ensures
            opt_text(description) == item.description_text(),
    {
        if let Some(content) = &item.content {
            if let Some(body) = &content.body {
                if !body.as_str().is_empty() {
                    return Some(body.clone());
                }
            }
        }
        if let Some(summary) = &item.summary {
            if !summary.as_str().is_empty() {
                return Some(summary.clone());
            }
        }
        None
    }
}

} // verus!
