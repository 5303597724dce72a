//! What a syndication document holds, as far as this crate reads it, and
//! the fingerprint that tells whether a document changed.

use vstd::prelude::*;
use crate::shape::{numbers_plain, shallow};
use crate::time::Timestamp;
use crate::text::opt_text;

verus! {

/// One `<item>` of an RSS channel.
#[derive(Debug, Clone)]
pub struct RssItem {
    pub title: Option<String>,
    pub link: Option<String>,
    /// The value of the item's `<guid>`.
    pub guid: Option<String>,
    pub description: Option<String>,
    /// The publication date as written in the document.
    pub pub_date: Option<String>,
}

/// The characters of an [`RssItem`].
pub struct RssItemText {
    pub title: Option<Seq<char>>,
    pub link: Option<Seq<char>>,
    pub guid: Option<Seq<char>>,
    pub description: Option<Seq<char>>,
    pub pub_date: Option<Seq<char>>,
}

impl View for RssItem {
    type V = RssItemText;

    open spec fn view(&self) -> RssItemText {
        RssItemText {
            title: opt_text(self.title),
            link: opt_text(self.link),
            guid: opt_text(self.guid),
            description: opt_text(self.description),
            pub_date: opt_text(self.pub_date),
        }
    }
}

/// The content element of an entry.
#[derive(Debug, Clone)]
pub struct EntryContent {
    pub body: Option<String>,
}

/// One entry of a feed in any of the formats that the generic reader knows.
#[derive(Debug, Clone)]
pub struct FeedEntry {
    pub id: String,
    pub title: Option<String>,
    /// Targets of the entry's links, in document order.
    pub links: Vec<String>,
    pub content: Option<EntryContent>,
    pub summary: Option<String>,
    pub published: Option<Timestamp>,
    pub updated: Option<Timestamp>,
}

/// The characters of each item of a parsed channel.
pub open spec fn item_texts(items: Option<Vec<RssItem>>) -> Option<Seq<RssItemText>> {
    match items {
        Some(v) => Some(v@.map_values(|i: RssItem| i@)),
        None => None,
    }
}

/// The items that the `rss` crate reads out of a document, in document
/// order, or `None` where it rejects the document.
pub uninterp spec fn rss_channel_items(body: Seq<char>) -> Option<Seq<RssItemText>>;

/// The MD5 digest of a text's UTF-8 bytes in lower-case hexadecimal.
pub uninterp spec fn md5_hex(body: Seq<char>) -> Seq<char>;

/// Reads a document as an RSS channel with `rss::Channel`'s `FromStr`.
/// The crate follows the nesting of elements with its own stack, so only a
/// document is admitted whose elements are nested no deeper than the
/// limit.  Trusted: the items are those that the crate reads, each with the
/// title, link, guid value, description and publication date that its
/// accessors give; this depends on the document alone.
#[verifier::external_body]
pub(crate) fn parse_rss_channel(body: &str) -> (items: Option<Vec<RssItem>>)
    requires
        shallow(body@),
    ensures
        item_texts(items) == rss_channel_items(body@),
{
    let channel = body.parse::<rss::Channel>().ok()?;
    Some(channel.items().iter().map(|i| RssItem {
        title: i.title().map(str::to_string),
        link: i.link().map(str::to_string),
        guid: i.guid().map(|g| g.value().to_string()),
        description: i.description().map(str::to_string),
        pub_date: i.pub_date().map(str::to_string),
    }).collect())
}

/// Reads a document with `feed_rs::parser::parse`.  The reader takes the
/// numbers of play times to fit into 64 bits and to be written in the ten
/// digits, so only a document is admitted whose numbers are plain, which is
/// in UTF-8 and declares no entities of its own; and only one whose
/// elements are nested no deeper than the limit.  The reader invents a
/// random id for an entry that has neither id nor link, so nothing is
/// promised of the result.
#[verifier::external_body]
pub(crate) fn parse_generic_feed(body: &str) -> (entries: Option<Vec<FeedEntry>>)
    requires
        shallow(body@),
        numbers_plain(body@),
{
    let feed = feed_rs::parser::parse(body.as_bytes()).ok()?;
    Some(feed.entries.into_iter().map(|e| FeedEntry {
        id: e.id,
        title: e.title.map(|t| t.content),
        links: e.links.into_iter().map(|l| l.href).collect(),
        content: e.content.map(|c| EntryContent { body: c.body }),
        summary: e.summary.map(|s| s.content),
        published: e.published.map(|d| Timestamp::new(d.timestamp(), d.timestamp_subsec_nanos())),
        updated: e.updated.map(|d| Timestamp::new(d.timestamp(), d.timestamp_subsec_nanos())),
    }).collect())
}

/// Fingerprints a document with `md5::compute`, printed in lower-case
/// hexadecimal.  Trusted: the result is the digest of the text, which
/// depends on the text alone.
#[verifier::external_body]
pub(crate) fn content_fingerprint(body: &str) -> (hex: String)
    ensures
        hex@ == md5_hex(body@),
{
    format!("{:x}", md5::compute(body))
}

} // verus!
