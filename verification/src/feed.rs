//! One feed: when it is due, how a failed fetch is retried, how an answer
//! of its source is read, and which of the items found are new.

use vstd::prelude::*;
use crate::config::{FeedConfig, FeedTypeConfig, YouTubeGlobalConfig};
use crate::post::{Post, PostText};
use crate::selection::{
    after_watermark, index_of_newest, is_fresh, keep_after_watermark, latest, lemma_newest_index,
    lemma_newest_two_members, newest_index, newest_two, oldest_first, put_oldest_first, raised,
    take_newest_two,
    texts,
};
use crate::syndication::{
    content_fingerprint, md5_hex, parse_generic_feed, parse_rss_channel, rss_channel_items, FeedEntry,
    RssItem, RssItemText,
};
use crate::shape::{measure, numbers_plain, shallow};
use crate::text::{copy_opt, opt_text, same_text};
use crate::time::{current_time, Timestamp};
use crate::youtube::{YouTubeConfig, DEFAULT_MAX_RESULTS};

verus! {

/// Why a fetch failed.
#[derive(Debug, Clone)]
pub enum FetchError {
    /// The feed is declared as a syndication feed but configured as another.
    InvalidRssConfig,
    /// The feed is declared as a video feed but configured as another.
    InvalidYoutubeConfig,
    /// A video feed is configured, the video service is not.
    MissingYoutubeConfig,
    /// The feed's declared type is none that is known.
    UnknownFeedType(String),
    /// The request did not get an answer.
    Network(String),
    /// The source answered with a status that is neither success nor
    /// "not modified".
    HttpStatus(u16),
    /// The document is in none of the formats that can be read.
    Unparseable,
    /// A video feed names neither playlist nor channel nor user.
    MissingVideoSource,
    /// The video service knows no such channel.
    ChannelNotFound(String),
    /// The video service knows no channel of such a user.
    UserNotFound(String),
    /// The video service refused the request.
    VideoApi { status: u16, body: String },
    /// A video's publication date is no RFC 3339 date.
    BadPublicationDate(String),
}

impl FetchError {
    /// The failure may pass: the source did not answer, or refused.  A
    /// document that cannot be read and a feed that is configured wrongly
    /// stay as they are until somebody mends them.
    pub open spec fn transient(&self) -> bool {
        match self {
            FetchError::Network(_) => true,
            FetchError::HttpStatus(_) => true,
            FetchError::ChannelNotFound(_) => true,
            FetchError::UserNotFound(_) => true,
            FetchError::VideoApi { .. } => true,
            _ => false,
        }
    }

    /// Whether trying again may help.
    pub fn is_transient(&self) -> (transient: bool)
        ensures
            transient == self.transient(),
    {
        match self {
            FetchError::Network(_) => true,
            FetchError::HttpStatus(_) => true,
            FetchError::ChannelNotFound(_) => true,
            FetchError::UserNotFound(_) => true,
            FetchError::VideoApi { .. } => true,
            _ => false,
        }
    }
}

/// Nanoseconds in a minute.
pub const NANOS_PER_MINUTE: u64 = 60_000_000_000;

/// Status with which a source says that the document did not change.
pub const NOT_MODIFIED: u16 = 304;

/// Retries of a failed fetch where the feed configures none.
pub const DEFAULT_MAX_RETRIES: u32 = 3;

/// Seconds to wait before the first retry where the feed configures none.
pub const DEFAULT_RETRY_DELAY_SECONDS: u64 = 2;

/// The status is one of success, `200..=299`.
pub open spec fn is_success(status: u16) -> bool {
    200 <= status < 300
}

/// Whether the status is one of success.
pub fn status_is_success(status: u16) -> (success: bool)
    ensures
        success == is_success(status),
{
    200 <= status && status < 300
}

/// Two to the power `n`.
pub open spec fn pow2(n: nat) -> nat
    decreases n,
{
    if n == 0 {
        1
    } else {
        2 * pow2((n - 1) as nat)
    }
}

/// Seconds to wait after failed attempt number `attempt`, counted from
/// zero: the base delay doubled with every attempt, and no more than a
/// `u64` holds.
pub open spec fn backoff(base_delay: u64, attempt: u32) -> int {
    let exact = base_delay * pow2(attempt as nat);
    if exact > u64::MAX {
        u64::MAX as int
    } else {
        exact
    }
}

/// Seconds to wait after failed attempt number `attempt`, counted from zero.
pub fn backoff_delay(base_delay: u64, attempt: u32) -> (delay: u64)
    ensures
        delay == backoff(base_delay, attempt),
{
    let mut delay: u64 = base_delay;
    let mut done: u32 = 0;
    assert(base_delay * pow2(0) == base_delay) by {
        assert(pow2(0) == 1);
    }
    while done < attempt
        invariant
            done <= attempt,
            delay == backoff(base_delay, done),
        decreases attempt - done,
    {
        proof {
            assert(pow2((done + 1) as nat) == 2 * pow2(done as nat));
            assert(base_delay * pow2((done + 1) as nat) == 2 * (base_delay * pow2(done as nat)))
                by (nonlinear_arith)
                requires
                    pow2((done + 1) as nat) == 2 * pow2(done as nat),
            ;
        }
        delay = if delay > u64::MAX / 2 {
            u64::MAX
        } else {
            delay * 2
        };
        done += 1;
    }
    delay
}

/// What to do after a failed attempt.
#[derive(Debug, Clone, Copy, PartialEq, Eq, Structural)]
pub enum RetryDecision {
    /// Report the failure.
    GiveUp,
    /// Wait this many seconds, then try again.
    RetryAfter(u64),
}

/// What to do after failed attempt number `attempt`, counted from zero, of
/// a feed that allows `max_retries` retries: give up once the retries are
/// used up or where trying again cannot help, else wait and retry.
pub open spec fn retry_decision(max_retries: u32, base_delay: u64, attempt: u32, transient: bool) -> RetryDecision {
    if attempt >= max_retries || !transient {
        RetryDecision::GiveUp
    } else {
        RetryDecision::RetryAfter(backoff(base_delay, attempt) as u64)
    }
}

/// How many attempts a source that keeps failing in a passing way gets from
/// attempt number `attempt` on.
pub open spec fn attempts_from(max_retries: u32, base_delay: u64, attempt: u32) -> nat
    decreases max_retries - attempt,
{
    match retry_decision(max_retries, base_delay, attempt, true) {
        RetryDecision::GiveUp => 1,
        RetryDecision::RetryAfter(_) => 1 + attempts_from(max_retries, base_delay, (attempt + 1) as u32),
    }
}

/// A source that always fails in a passing way is tried once and then
/// retried `max_retries` times: after failed attempt `k < max_retries` the
/// wait is the base delay times two to the `k`, and the failure of attempt
/// `max_retries` is final.
pub proof fn law_retries_end(max_retries: u32, base_delay: u64)
    ensures
        attempts_from(max_retries, base_delay, 0) == max_retries + 1,
        forall|k: u32|
            k < max_retries ==> #[trigger] retry_decision(max_retries, base_delay, k, true)
                == RetryDecision::RetryAfter(backoff(base_delay, k) as u64),
        retry_decision(max_retries, base_delay, max_retries, true) == RetryDecision::GiveUp,
{
    lemma_attempts_from(max_retries, base_delay, 0);
}

proof fn lemma_attempts_from(max_retries: u32, base_delay: u64, attempt: u32)
    requires
        attempt <= max_retries,
    ensures
        attempts_from(max_retries, base_delay, attempt) == max_retries - attempt + 1,
    decreases max_retries - attempt,
{
    if attempt < max_retries {
        lemma_attempts_from(max_retries, base_delay, (attempt + 1) as u32);
    }
}

/// What a feed remembers of its source's last answer.
#[derive(Debug, Clone)]
pub struct FeedCacheMetadata {
    /// Validator token of the last document.
    pub etag: Option<String>,
    /// Modification date of the last document, as the source wrote it.
    pub last_modified: Option<String>,
    /// Fingerprint of the last document.
    pub last_content_hash: Option<String>,
}

/// The characters of a [`FeedCacheMetadata`].
pub struct CacheText {
    pub etag: Option<Seq<char>>,
    pub last_modified: Option<Seq<char>>,
    pub fingerprint: Option<Seq<char>>,
}

impl View for FeedCacheMetadata {
    type V = CacheText;

    open spec fn view(&self) -> CacheText {
        CacheText {
            etag: opt_text(self.etag),
            last_modified: opt_text(self.last_modified),
            fingerprint: opt_text(self.last_content_hash),
        }
    }
}

impl Default for FeedCacheMetadata {
    fn default() -> (cache: FeedCacheMetadata)
        ensures
            cache.etag is None,
            cache.last_modified is None,
            cache.last_content_hash is None,
    {
        FeedCacheMetadata { etag: None, last_modified: None, last_content_hash: None }
    }
}

impl FeedCacheMetadata {
    /// A copy of the cache entry.
    pub fn duplicate(&self) -> (copy: FeedCacheMetadata)
        ensures
            copy == *self,
    {
        FeedCacheMetadata {
            etag: copy_opt(&self.etag),
            last_modified: copy_opt(&self.last_modified),
            last_content_hash: copy_opt(&self.last_content_hash),
        }
    }
}

/// One feed and what is known of it.
#[derive(Debug, Clone)]
pub struct Feed {
    pub config: FeedConfig,
    /// When the source last answered.
    pub last_checked: Option<Timestamp>,
    /// The most recent publication instant seen so far.
    pub last_post_date: Option<Timestamp>,
    pub cache_metadata: FeedCacheMetadata,
    pub youtube_config: Option<YouTubeGlobalConfig>,
}

/// What to ask of a feed's source.
#[derive(Debug, Clone)]
pub enum FetchRequest {
    /// Get the document at `url`, unless it is still the one that the
    /// validator token and the modification date describe.
    Syndication { url: String, if_none_match: Option<String>, if_modified_since: Option<String> },
    /// List the videos that the configuration describes.
    VideoChannel(YouTubeConfig),
}

/// What a syndication source answered.
#[derive(Debug, Clone)]
pub struct SyndicationResponse {
    pub status: u16,
    /// The answer's validator token, if it has a readable one.
    pub etag: Option<String>,
    /// The answer's modification date, if it has a readable one.
    pub last_modified: Option<String>,
    /// The document; of no account unless the status is one of success.
    pub body: String,
}

/// The characters of a [`SyndicationResponse`].
pub struct ResponseText {
    pub status: u16,
    pub etag: Option<Seq<char>>,
    pub last_modified: Option<Seq<char>>,
    pub body: Seq<char>,
}

impl View for SyndicationResponse {
    type V = ResponseText;

    open spec fn view(&self) -> ResponseText {
        ResponseText {
            status: self.status,
            etag: opt_text(self.etag),
            last_modified: opt_text(self.last_modified),
            body: self.body@,
        }
    }
}

/// What a feed knows of its source: the part of a [`Feed`] that a check
/// changes.
pub struct TrackerState {
    pub cache: CacheText,
    pub last_checked: Option<Timestamp>,
    pub watermark: Option<Timestamp>,
}

/// A document after parsing.
#[derive(Debug, Clone)]
pub enum ParsedBody {
    /// An RSS channel's items.
    Rss(Vec<RssItem>),
    /// The entries of a feed in another format.
    Generic(Vec<FeedEntry>),
    /// Nothing that can be read.
    Unreadable,
}

/// `new` where the source sent one, else `old`.
pub open spec fn replaced(old: Option<Seq<char>>, new: Option<Seq<char>>) -> Option<Seq<char>> {
    match new {
        Some(_) => new,
        None => old,
    }
}

/// The posts of the complete items of a channel, in document order.
pub open spec fn rss_candidates(items: Seq<RssItemText>, feed_id: Seq<char>, now: Timestamp) -> Seq<
    PostText,
> {
    items.filter(|i: RssItemText| i.complete()).map_values(|i: RssItemText| i.as_post(feed_id, now))
}

/// The posts of the complete entries of a feed, in document order.
pub open spec fn entry_candidates(entries: Seq<FeedEntry>, feed_id: Seq<char>, now: Timestamp) -> Seq<
    PostText,
> {
    entries.filter(|e: FeedEntry| e.complete()).map_values(|e: FeedEntry| e.as_post(feed_id, now))
}

/// Which of the posts found in a syndication document are handed on: of
/// those published after the watermark the two most recent, the most recent
/// first.
pub open spec fn syndication_selection(found: Seq<PostText>, watermark: Option<Timestamp>) -> Seq<
    PostText,
> {
    newest_two(after_watermark(found, watermark))
}

/// Which of the videos found are handed on: the two most recent whatever
/// the watermark, the older of them first.
pub open spec fn video_selection(found: Seq<PostText>) -> Seq<PostText> {
    oldest_first(newest_two(found))
}

impl Feed {
    /// A feed that was never checked.
    pub fn new(config: FeedConfig, youtube_config: Option<YouTubeGlobalConfig>) -> (feed: Feed)
        ensures
            feed.config == config,
            feed.youtube_config == youtube_config,
            feed.last_checked is None,
            feed.last_post_date is None,
            feed.cache_metadata.etag is None,
            feed.cache_metadata.last_modified is None,
            feed.cache_metadata.last_content_hash is None,
    {
        Feed {
            config,
            last_checked: None,
            last_post_date: None,
            cache_metadata: FeedCacheMetadata::default(),
            youtube_config,
        }
    }

    /// A feed that was not checked in this run, with what an earlier run
    /// remembered of its source.
    pub fn new_with_cache(
        config: FeedConfig,
        cache_metadata: FeedCacheMetadata,
        youtube_config: Option<YouTubeGlobalConfig>,
    ) -> (feed: Feed)
        ensures
            feed.config == config,
            feed.youtube_config == youtube_config,
            feed.last_checked is None,
            feed.last_post_date is None,
            feed.cache_metadata == cache_metadata,
    {
        Feed { config, last_checked: None, last_post_date: None, cache_metadata, youtube_config }
    }

    /// The interval between two checks: the feed's own, else the default.
    pub open spec fn interval_minutes(&self, default_interval_minutes: u64) -> u64 {
        match self.config.check_interval_minutes {
            Some(minutes) => minutes,
            None => default_interval_minutes,
        }
    }

    /// The feed is due at `now`: it is enabled, and it was never checked or
    /// the whole interval has passed since it was.  A feed whose last check
    /// lies after `now` is not due, however short its interval.  Where the
    /// time that has passed cannot be told, because one of the instants lies
    /// outside the calendar, the feed is due.
    pub open spec fn due(&self, default_interval_minutes: u64, now: Timestamp) -> bool {
        &&& self.config.enabled
        &&& match self.last_checked {
            None => true,
            Some(then) => match now.since(then) {
                Some(nanos) => nanos >= self.interval_minutes(default_interval_minutes) * NANOS_PER_MINUTE,
                None => true,
            },
        }
    }

    /// Whether the feed is due by the system clock.
    pub fn should_check(&self, default_interval_minutes: u64) -> (due: bool)
        ensures
            exists|now: Timestamp| due == #[trigger] self.due(default_interval_minutes, now),
            !self.config.enabled ==> !due,
            self.config.enabled && self.last_checked is None ==> due,
    {
        let now = current_time();
        let due = self.should_check_at(default_interval_minutes, now);
        assert(due == self.due(default_interval_minutes, now));
        due
    }

    /// Whether the feed is due at `now`.
    pub fn should_check_at(&self, default_interval_minutes: u64, now: Timestamp) -> (due: bool)
        ensures
            due == self.due(default_interval_minutes, now),
            self.last_checked is Some && now.plain() && self.last_checked->0.plain() ==> due == (
            self.config.enabled && now.nanos_since(self.last_checked->0) >= self.interval_minutes(
                default_interval_minutes,
            ) * NANOS_PER_MINUTE),
    {
        if !self.config.enabled {
            return false;
        }
        let interval: u64 = match self.config.check_interval_minutes {
            Some(minutes) => minutes,
            None => default_interval_minutes,
        };
        match self.last_checked {
            None => true,
            Some(then) => match now.elapsed_since(&then) {
                Some(nanos) => nanos >= (interval as i128) * 60_000_000_000,
                None => true,
            },
        }
    }

    /// The destinations of the feed's items.
    pub fn get_publishers(&self) -> (ids: &[String])
        ensures
            ids@ == self.config.publishers@,
    {
        self.config.publishers.as_slice()
    }

    /// Retries that the feed allows.
    pub open spec fn max_retries(&self) -> u32 {
        match self.config.max_retries {
            Some(n) => n,
            None => DEFAULT_MAX_RETRIES,
        }
    }

    /// Seconds before the feed's first retry.
    pub open spec fn retry_delay(&self) -> u64 {
        match self.config.retry_delay_seconds {
            Some(n) => n,
            None => DEFAULT_RETRY_DELAY_SECONDS,
        }
    }

    /// What to do after attempt number `attempt`, counted from zero, failed
    /// with `error`.
    pub fn after_failed_attempt(&self, attempt: u32, error: &FetchError) -> (decision: RetryDecision)
        ensures
            decision == retry_decision(self.max_retries(), self.retry_delay(), attempt, error.transient()),
    {
        let max_retries: u32 = match self.config.max_retries {
            Some(n) => n,
            None => DEFAULT_MAX_RETRIES,
        };
        let base_delay: u64 = match self.config.retry_delay_seconds {
            Some(n) => n,
            None => DEFAULT_RETRY_DELAY_SECONDS,
        };
        if attempt >= max_retries || !error.is_transient() {
            RetryDecision::GiveUp
        } else {
            RetryDecision::RetryAfter(backoff_delay(base_delay, attempt))
        }
    }

    /// How many videos a video feed asks for: its own number, else the
    /// service-wide one, else ten.
    pub open spec fn effective_max_results(own: Option<u64>, global: Option<u64>) -> u64 {
        match own {
            Some(n) => n,
            None => match global {
                Some(n) => n,
                None => DEFAULT_MAX_RESULTS,
            },
        }
    }

    /// The request that a check of this feed starts with.
    pub open spec fn planned(&self) -> Result<FetchRequest, FetchError> {
        if self.config.feed_type@ == "Rss"@ {
            match self.config.config {
                FeedTypeConfig::Rss { url } => Ok(
                    FetchRequest::Syndication {
                        url,
                        if_none_match: self.cache_metadata.etag,
                        if_modified_since: self.cache_metadata.last_modified,
                    },
                ),
                _ => Err(FetchError::InvalidRssConfig),
            }
        } else if self.config.feed_type@ == "Youtube"@ {
            match self.config.config {
                FeedTypeConfig::Youtube { channel_id, playlist_id, username, max_results } => match self.youtube_config {
                    Some(global) => Ok(
                        FetchRequest::VideoChannel(
                            YouTubeConfig {
                                api_key: global.api_key,
                                channel_id,
                                playlist_id,
                                username,
                                max_results: Some(
                                    Feed::effective_max_results(max_results, global.default_max_results),
                                ),
                            },
                        ),
                    ),
                    None => Err(FetchError::MissingYoutubeConfig),
                },
                _ => Err(FetchError::InvalidYoutubeConfig),
            }
        } else {
            Err(FetchError::UnknownFeedType(self.config.feed_type))
        }
    }

    /// Works out what to ask of the feed's source.  A feed whose declared
    /// type is unknown or does not fit its configuration is refused, and so
    /// is a video feed where the video service is not configured.
    pub fn plan_fetch(&self) -> (request: Result<FetchRequest, FetchError>)
        ensures
            request == self.planned(),
    {
        if same_text(self.config.feed_type.as_str(), "Rss") {
            match &self.config.config {
                FeedTypeConfig::Rss { url } => Ok(
                    FetchRequest::Syndication {
                        url: url.clone(),
                        if_none_match: copy_opt(&self.cache_metadata.etag),
                        if_modified_since: copy_opt(&self.cache_metadata.last_modified),
                    },
                ),
                _ => Err(FetchError::InvalidRssConfig),
            }
        } else if same_text(self.config.feed_type.as_str(), "Youtube") {
            match &self.config.config {
                FeedTypeConfig::Youtube { channel_id, playlist_id, username, max_results } => {
                    match &self.youtube_config {
                        Some(global) => {
                            let effective: u64 = match max_results {
                                Some(n) => *n,
                                None => match global.default_max_results {
                                    Some(n) => n,
                                    None => DEFAULT_MAX_RESULTS,
                                },
                            };
                            Ok(
                                FetchRequest::VideoChannel(
                                    YouTubeConfig {
                                        api_key: global.api_key.clone(),
                                        channel_id: copy_opt(channel_id),
                                        playlist_id: copy_opt(playlist_id),
                                        username: copy_opt(username),
                                        max_results: Some(effective),
                                    },
                                ),
                            )
                        },
                        None => Err(FetchError::MissingYoutubeConfig),
                    }
                },
                _ => Err(FetchError::InvalidYoutubeConfig),
            }
        } else {
            Err(FetchError::UnknownFeedType(self.config.feed_type.clone()))
        }
    }
}

/// Filtering and mapping a sequence extended by one element.
pub proof fn lemma_candidates_push<A, B>(s: Seq<A>, x: A, keep: spec_fn(A) -> bool, f: spec_fn(A) -> B)
    ensures
        s.push(x).filter(keep).map_values(f) == if keep(x) {
            s.filter(keep).map_values(f).push(f(x))
        } else {
            s.filter(keep).map_values(f)
        },
{
    crate::ledger::lemma_filter_push(s, x, keep);
    if keep(x) {
        assert(s.filter(keep).push(x).map_values(f) =~= s.filter(keep).map_values(f).push(f(x)));
    }
}

/// What the items of a channel say.
pub open spec fn rss_texts(items: Seq<RssItem>) -> Seq<RssItemText> {
    items.map_values(|i: RssItem| i@)
}

/// What reading a parsed document does to a feed whose watermark is
/// `watermark`: the posts handed on, or the failure, and the new watermark.
pub open spec fn ingested(
    parsed: ParsedBody,
    feed_id: Seq<char>,
    watermark: Option<Timestamp>,
    now: Timestamp,
) -> (Result<Seq<PostText>, FetchError>, Option<Timestamp>) {
    match parsed {
        ParsedBody::Rss(items) => {
            let found = rss_candidates(rss_texts(items@), feed_id, now);
            (Ok(syndication_selection(found, watermark)), raised(watermark, latest(found)))
        },
        ParsedBody::Generic(entries) => {
            let found = entry_candidates(entries@, feed_id, now);
            (Ok(syndication_selection(found, watermark)), raised(watermark, latest(found)))
        },
        ParsedBody::Unreadable => (Err(FetchError::Unparseable), watermark),
    }
}

/// What a result says: the texts of its posts, or its failure.
pub open spec fn outcome_texts(outcome: Result<Vec<Post>, FetchError>) -> Result<Seq<PostText>, FetchError> {
    match outcome {
        Ok(posts) => Ok(texts(posts@)),
        Err(error) => Err(error),
    }
}

/// Reads a document: as an RSS channel where it is one, else in whichever
/// other format fits.  A document is handed to a reader only where a scan
/// has shown that the reader can take it: one whose elements are nested too
/// deep, or that holds what the scan does not understand, is not read at
/// all, and one whose numbers are not plain is read as an RSS channel only.
pub fn read_document(body: &str) -> (parsed: ParsedBody)
    ensures
        parsed.reads(body@),
{
    let shape = measure(body);
    if !shape.shallow {
        return ParsedBody::Unreadable;
    }
    match parse_rss_channel(body) {
        Some(items) => ParsedBody::Rss(items),
        None => if shape.plain_numbers {
            match parse_generic_feed(body) {
                Some(entries) => ParsedBody::Generic(entries),
                None => ParsedBody::Unreadable,
            }
        } else {
            ParsedBody::Unreadable
        },
    }
}

impl Feed {
    /// Everything but the watermark is the same in `self` and `other`.
    pub open spec fn same_but_watermark(&self, other: &Feed) -> bool {
        &&& self.config == other.config
        &&& self.last_checked == other.last_checked
        &&& self.cache_metadata == other.cache_metadata
        &&& self.youtube_config == other.youtube_config
    }

    /// Everything but the time of the last check and the cache entry is the
    /// same in `self` and `other`.
    pub open spec fn same_source(&self, other: &Feed) -> bool {
        &&& self.config == other.config
        &&& self.youtube_config == other.youtube_config
    }

    /// Raises the watermark to the most recent of the posts found, and
    /// hands on the two most recent that are later than the watermark was.
    pub fn select_new(&mut self, found: Vec<Post>) -> (chosen: Vec<Post>)
        ensures
            texts(chosen@) == syndication_selection(texts(found@), old(self).last_post_date),
            final(self).last_post_date == raised(old(self).last_post_date, latest(texts(found@))),
            final(self).same_but_watermark(old(self)),
    {
        let watermark = self.last_post_date;
        if found.len() > 0 {
            let newest = found[index_of_newest(&found)].published;
            self.last_post_date = match watermark {
                Some(mark) => Some(mark.later_of(newest)),
                None => Some(newest),
            };
        }
        take_newest_two(keep_after_watermark(found, watermark))
    }

    /// Reads the items of an RSS channel at `now`: raises the watermark and
    /// hands on the new posts.
    pub fn parse_rss_posts(&mut self, items: &Vec<RssItem>, now: Timestamp) -> (chosen: Vec<Post>)
        ensures
            (Ok::<Seq<PostText>, FetchError>(texts(chosen@)), final(self).last_post_date) == ingested(
                ParsedBody::Rss(*items),
                old(self).config.id@,
                old(self).last_post_date,
                now,
            ),
            final(self).same_but_watermark(old(self)),
    {
        let ghost all = rss_texts(items@);
        let ghost keep = |i: RssItemText| i.complete();
        let ghost to_post = |i: RssItemText| i.as_post(self.config.id@, now);
        let mut found: Vec<Post> = Vec::new();
        let mut i: usize = 0;
        assert(texts(found@) =~= all.take(0).filter(keep).map_values(to_post)) by {
            reveal(Seq::filter);
        }
        while i < items.len()
            invariant
                i <= items@.len(),
                all == rss_texts(items@),
                keep == |i: RssItemText| i.complete(),
                to_post == |i: RssItemText| i.as_post(self.config.id@, now),
                texts(found@) == all.take(i as int).filter(keep).map_values(to_post),
            decreases items@.len() - i,
        {
            proof {
                lemma_candidates_push(all.take(i as int), all[i as int], keep, to_post);
                assert(all.take(i + 1) == all.take(i as int).push(all[i as int]));
            }
            if let Some(post) = Post::from_rss_item_at(&items[i], self.config.id.clone(), now) {
                let ghost before = found@;
                found.push(post);
                assert(texts(found@) =~= texts(before).push(post@));
            }
            i += 1;
        }
        assert(all.take(i as int) == all);
        self.select_new(found)
    }

    /// Reads the entries of a feed at `now`: raises the watermark and hands
    /// on the new posts.
    pub fn parse_feed_rs_posts(&mut self, entries: &Vec<FeedEntry>, now: Timestamp) -> (chosen: Vec<Post>)
        ensures
            (Ok::<Seq<PostText>, FetchError>(texts(chosen@)), final(self).last_post_date) == ingested(
                ParsedBody::Generic(*entries),
                old(self).config.id@,
                old(self).last_post_date,
                now,
            ),
            final(self).same_but_watermark(old(self)),
    {
        let ghost keep = |e: FeedEntry| e.complete();
        let ghost to_post = |e: FeedEntry| e.as_post(self.config.id@, now);
        let mut found: Vec<Post> = Vec::new();
        let mut i: usize = 0;
        assert(texts(found@) =~= entries@.take(0).filter(keep).map_values(to_post)) by {
            reveal(Seq::filter);
        }
        while i < entries.len()
            invariant
                i <= entries@.len(),
                keep == |e: FeedEntry| e.complete(),
                to_post == |e: FeedEntry| e.as_post(self.config.id@, now),
                texts(found@) == entries@.take(i as int).filter(keep).map_values(to_post),
            decreases entries@.len() - i,
        {
            proof {
                lemma_candidates_push(entries@.take(i as int), entries@[i as int], keep, to_post);
                assert(entries@.take(i + 1) == entries@.take(i as int).push(entries@[i as int]));
            }
            if let Some(post) = Post::from_feed_item_at(&entries[i], self.config.id.clone(), now) {
                let ghost before = found@;
                found.push(post);
                assert(texts(found@) =~= texts(before).push(post@));
            }
            i += 1;
        }
        assert(entries@.take(i as int) == entries@);
        self.select_new(found)
    }

    /// Takes the videos found, sets the watermark to the most recent of
    /// them, and hands on the two most recent, the older first.  The
    /// watermark keeps no video back.
    pub fn process_youtube_posts(&mut self, posts: Vec<Post>) -> (chosen: Vec<Post>)
        ensures
            texts(chosen@) == video_selection(texts(posts@)),
            final(self).last_post_date == if posts@.len() == 0 {
                old(self).last_post_date
            } else {
                latest(texts(posts@))
            },
            final(self).same_but_watermark(old(self)),
    {
        if posts.len() == 0 {
            assert(texts(posts@) =~= video_selection(texts(posts@)));
            return posts;
        }
        self.last_post_date = Some(posts[index_of_newest(&posts)].published);
        put_oldest_first(take_newest_two(posts))
    }

    /// Reads a parsed document at `now`: raises the watermark and hands on
    /// the new posts.  A document that could not be parsed is a failure and
    /// leaves the feed as it is.
    pub fn ingest(&mut self, parsed: &ParsedBody, now: Timestamp) -> (outcome: Result<Vec<Post>, FetchError>)
        ensures
            (outcome_texts(outcome), final(self).last_post_date) == ingested(
                *parsed,
                old(self).config.id@,
                old(self).last_post_date,
                now,
            ),
            final(self).same_but_watermark(old(self)),
    {
        match parsed {
            ParsedBody::Rss(items) => Ok(self.parse_rss_posts(items, now)),
            ParsedBody::Generic(entries) => Ok(self.parse_feed_rs_posts(entries, now)),
            ParsedBody::Unreadable => Err(FetchError::Unparseable),
        }
    }

    /// What the feed knows of its source.
    pub open spec fn state(&self) -> TrackerState {
        TrackerState {
            cache: self.cache_metadata@,
            last_checked: self.last_checked,
            watermark: self.last_post_date,
        }
    }

    /// Deals with an answer as far as that can be done without reading its
    /// document, given the document's fingerprint.
    ///
    /// * "Not modified": nothing is new; only the time of the last check
    ///   moves.
    /// * Any other status that is not a success: the fetch failed, and the
    ///   feed stays as it was.
    /// * Success with a document whose fingerprint is on record: the
    ///   document is not read again and nothing is new; validator token and
    ///   modification date are taken from the answer.
    /// * Else `None` says that the document is to be read, and the feed
    ///   stays as it was until that has succeeded.
    pub fn settle(&mut self, response: &SyndicationResponse, fingerprint: &str, now: Timestamp) -> (done: Option<
        Result<Vec<Post>, FetchError>,
    >)
        ensures
            final(self).same_source(old(self)),
            match settled_with(old(self).state(), response@, fingerprint@, now) {
                Some(end) => done matches Some(outcome) && (final(self).state(), outcome_texts(outcome))
                    == end,
                None => done is None && *final(self) == *old(self),
            },
    {
        if response.status == NOT_MODIFIED {
            self.last_checked = Some(now);
            let nothing: Vec<Post> = Vec::new();
            assert(texts(nothing@) =~= Seq::<PostText>::empty());
            return Some(Ok(nothing));
        }
        if !status_is_success(response.status) {
            return Some(Err(FetchError::HttpStatus(response.status)));
        }
        let known = match &self.cache_metadata.last_content_hash {
            Some(recorded) => same_text(recorded.as_str(), fingerprint),
            None => false,
        };
        if !known {
            return None;
        }
        if let Some(etag) = &response.etag {
            self.cache_metadata.etag = Some(etag.clone());
        }
        if let Some(last_modified) = &response.last_modified {
            self.cache_metadata.last_modified = Some(last_modified.clone());
        }
        self.last_checked = Some(now);
        let nothing: Vec<Post> = Vec::new();
        assert(texts(nothing@) =~= Seq::<PostText>::empty());
        Some(Ok(nothing))
    }

    /// Records that the document of an answer was read at `now`: validator
    /// token and modification date are taken from the answer, and the
    /// fingerprint is the document's.
    pub fn open(&mut self, response: &SyndicationResponse, fingerprint: String, now: Timestamp)
        ensures
            final(self).same_source(old(self)),
            final(self).state() == opened(old(self).state(), response@, fingerprint@, now),
    {
        if let Some(etag) = &response.etag {
            self.cache_metadata.etag = Some(etag.clone());
        }
        if let Some(last_modified) = &response.last_modified {
            self.cache_metadata.last_modified = Some(last_modified.clone());
        }
        self.cache_metadata.last_content_hash = Some(fingerprint);
        self.last_checked = Some(now);
    }

    /// Takes in what the source answered at `now`: deals with the answer
    /// without reading its document where that can be done, and else reads
    /// the document, as an RSS channel where it is one, else in whichever
    /// other format fits.  A document that cannot be read fails the fetch.
    /// A fetch that fails leaves the feed as it was.
    pub fn accept_response(&mut self, response: &SyndicationResponse, now: Timestamp) -> (outcome: Result<
        Vec<Post>,
        FetchError,
    >)
        ensures
            final(self).same_source(old(self)),
            outcome is Err ==> final(self).state() == old(self).state(),
            settled(old(self).state(), response@, now) matches Some(end) ==> (
            final(self).state(),
            outcome_texts(outcome),
        ) == end,
            settled(old(self).state(), response@, now) is None ==> exists|parsed: ParsedBody| #[trigger]
                parsed.reads(response.body@) && (final(self).state(), outcome_texts(outcome)) == read(
                    old(self).state(),
                    old(self).config.id@,
                    response@,
                    parsed,
                    now,
                ),
    {
        let fingerprint = content_fingerprint(response.body.as_str());
        match self.settle(response, fingerprint.as_str(), now) {
            Some(outcome) => outcome,
            None => {
                let parsed = read_document(response.body.as_str());
                assert(parsed.reads(response.body@));
                if let ParsedBody::Unreadable = parsed {
                    return Err(FetchError::Unparseable);
                }
                self.open(response, fingerprint, now);
                self.ingest(&parsed, now)
            },
        }
    }

    /// What to do after attempt number `attempt`, counted from zero, ended
    /// with `outcome`: a success ends the fetch, and so does a failure once
    /// the retries are used up or where trying again cannot help; else the
    /// next attempt follows after a wait.
    pub fn fetch_posts(&self, attempt: u32, outcome: Result<Vec<Post>, FetchError>) -> (step: FetchStep)
        ensures
            step == match outcome {
                Ok(posts) => FetchStep::Done(Ok(posts)),
                Err(error) => match retry_decision(
                    self.max_retries(),
                    self.retry_delay(),
                    attempt,
                    error.transient(),
                ) {
                    RetryDecision::GiveUp => FetchStep::Done(Err(error)),
                    RetryDecision::RetryAfter(delay) => FetchStep::RetryAfter(delay),
                },
            },
    {
        match outcome {
            Ok(posts) => FetchStep::Done(Ok(posts)),
            Err(error) => match self.after_failed_attempt(attempt, &error) {
                RetryDecision::GiveUp => FetchStep::Done(Err(error)),
                RetryDecision::RetryAfter(delay) => FetchStep::RetryAfter(delay),
            },
        }
    }
}

/// What to do after an attempt to fetch.
#[derive(Debug)]
pub enum FetchStep {
    /// The fetch is over, with this result.
    Done(Result<Vec<Post>, FetchError>),
    /// Wait this many seconds, then try again.
    RetryAfter(u64),
}

impl ParsedBody {
    /// `self` is what reading the document `body` may give.  A document
    /// that is not fit for the readers is unreadable.  Of the others, an
    /// RSS channel gives its items; one that is no RSS channel gives no RSS
    /// channel, and is unreadable unless its numbers are plain.
    pub open spec fn reads(&self, body: Seq<char>) -> bool {
        if !shallow(body) {
            *self is Unreadable
        } else {
            match rss_channel_items(body) {
                Some(items) => *self matches ParsedBody::Rss(read) && rss_texts(read@) == items,
                None => !(*self is Rss) && (!numbers_plain(body) ==> *self is Unreadable),
            }
        }
    }
}

/// The cache entry after an answer with a success status, before the
/// document is looked at: validator token and modification date are the
/// answer's where it has them.
pub open spec fn with_validators(cache: CacheText, response: ResponseText) -> CacheText {
    CacheText {
        etag: replaced(cache.etag, response.etag),
        last_modified: replaced(cache.last_modified, response.last_modified),
        fingerprint: cache.fingerprint,
    }
}

/// Where an answer is dealt with without reading its document: what the
/// feed knows afterwards, and what the fetch gives.  `None` where the
/// document has to be read.
pub open spec fn settled(state: TrackerState, response: ResponseText, now: Timestamp) -> Option<
    (TrackerState, Result<Seq<PostText>, FetchError>),
> {
    settled_with(state, response, md5_hex(response.body), now)
}

/// What a feed knows once it is settled that the document of an answer has
/// to be read: the answer's validators, the document's fingerprint, and
/// the time of the check.
pub open spec fn opened(state: TrackerState, response: ResponseText, fingerprint: Seq<char>, now: Timestamp) -> TrackerState {
    TrackerState {
        cache: CacheText {
            etag: replaced(state.cache.etag, response.etag),
            last_modified: replaced(state.cache.last_modified, response.last_modified),
            fingerprint: Some(fingerprint),
        },
        last_checked: Some(now),
        watermark: state.watermark,
    }
}

/// Where an answer whose document has the given fingerprint is dealt with
/// without reading the document: what the feed knows afterwards, and what
/// the fetch gives.  `None` where the document has to be read.
pub open spec fn settled_with(
    state: TrackerState,
    response: ResponseText,
    fingerprint: Seq<char>,
    now: Timestamp,
) -> Option<(TrackerState, Result<Seq<PostText>, FetchError>)> {
    if response.status == NOT_MODIFIED {
        Some(
            (
                TrackerState { cache: state.cache, last_checked: Some(now), watermark: state.watermark },
                Ok(Seq::empty()),
            ),
        )
    } else if !is_success(response.status) {
        Some((state, Err(FetchError::HttpStatus(response.status))))
    } else if state.cache.fingerprint == Some(fingerprint) {
        Some(
            (
                TrackerState {
                    cache: with_validators(state.cache, response),
                    last_checked: Some(now),
                    watermark: state.watermark,
                },
                Ok(Seq::empty()),
            ),
        )
    } else {
        None
    }
}

/// Where the document of an answer is read as `parsed`: what the feed
/// knows afterwards, and what the fetch gives.  A document that cannot be
/// read fails the fetch and leaves what the feed knows as it was.
pub open spec fn read(
    state: TrackerState,
    feed_id: Seq<char>,
    response: ResponseText,
    parsed: ParsedBody,
    now: Timestamp,
) -> (TrackerState, Result<Seq<PostText>, FetchError>) {
    match parsed {
        ParsedBody::Unreadable => (state, Err(FetchError::Unparseable)),
        _ => {
            let (outcome, watermark) = ingested(parsed, feed_id, state.watermark, now);
            let before = opened(state, response, md5_hex(response.body), now);
            (TrackerState { cache: before.cache, last_checked: before.last_checked, watermark }, outcome)
        },
    }
}

/// What an answer does to a feed, where its document, if it is read, reads
/// as `parsed`.
pub open spec fn after_response(
    state: TrackerState,
    feed_id: Seq<char>,
    response: ResponseText,
    parsed: ParsedBody,
    now: Timestamp,
) -> (TrackerState, Result<Seq<PostText>, FetchError>) {
    match settled(state, response, now) {
        Some(end) => end,
        None => read(state, feed_id, response, parsed, now),
    }
}

/// A document that comes a second time is not read again: where two
/// answers in a row are successes with the same document, whatever their
/// validator tokens, and the first fetch succeeded, the second gives no
/// post and leaves fingerprint and watermark as the first left them.
pub proof fn law_unchanged_document_is_skipped(
    state: TrackerState,
    feed_id: Seq<char>,
    first: ResponseText,
    parsed: ParsedBody,
    then: Timestamp,
    second: ResponseText,
    now: Timestamp,
)
    requires
        is_success(first.status),
        is_success(second.status),
        first.body == second.body,
        after_response(state, feed_id, first, parsed, then).1 is Ok,
    ensures
        ({
            let between = after_response(state, feed_id, first, parsed, then).0;
            &&& settled(between, second, now) matches Some((after, outcome))
            &&& outcome == Ok::<Seq<PostText>, FetchError>(Seq::empty())
            &&& after.cache.fingerprint == between.cache.fingerprint
            &&& after.watermark == between.watermark
        }),
{
}

/// A fetch that fails leaves what the feed knows as it was: validator
/// token, modification date, fingerprint, time of the last check and
/// watermark.  So a document that could not be read is read again when it
/// comes the next time.
pub proof fn law_failed_fetch_changes_nothing(
    state: TrackerState,
    feed_id: Seq<char>,
    response: ResponseText,
    parsed: ParsedBody,
    now: Timestamp,
)
    requires
        after_response(state, feed_id, response, parsed, now).1 is Err,
    ensures
        after_response(state, feed_id, response, parsed, now).0 == state,
{
}

/// Of the videos found, the two most recent are handed on, the older of
/// them first, whatever the watermark: the later of the two is as recent as
/// any video found, and at most one video found is more recent than the
/// earlier of the two.
pub proof fn law_videos_two_newest_older_first(found: Seq<PostText>)
    requires
        found.len() >= 2,
    ensures
        video_selection(found).len() == 2,
        !video_selection(found)[1].published.lt(video_selection(found)[0].published),
        forall|k: int|
            0 <= k < found.len() ==> !video_selection(found)[1].published.lt((#[trigger] found[k]).published),
        forall|k: int, l: int|
            0 <= k < l < found.len() ==> !(video_selection(found)[0].published.lt(
                (#[trigger] found[k]).published,
            ) && video_selection(found)[0].published.lt((#[trigger] found[l]).published)),
        exists|k: int, l: int|
            0 <= k < found.len() && 0 <= l < found.len() && k != l && video_selection(found)[0] == found[k]
                && video_selection(found)[1] == found[l],
{
    lemma_newest_index(found);
    let first = newest_index(found);
    let rest = found.remove(first);
    lemma_newest_index(rest);
    let second = newest_index(rest);
    let other = if second < first {
        second
    } else {
        second + 1
    };
    assert(found[other] == rest[second]);
    assert forall|k: int| 0 <= k < found.len() && k != first implies !found[other].published.lt(
        (#[trigger] found[k]).published,
    ) by {
        let at = if k < first {
            k
        } else {
            k - 1
        };
        assert(rest[at] == found[k]);
    }
    let chosen = video_selection(found);
    if found[other].published.lt(found[first].published) {
        assert(chosen[0] == found[other] && chosen[1] == found[first]);
    } else {
        assert(chosen[0] == found[first] && chosen[1] == found[other]);
        assert(found[first].published == found[other].published);
    }
}

/// The watermark never moves back.
pub proof fn law_watermark_never_moves_back(watermark: Option<Timestamp>, found: Seq<PostText>)
    ensures
        watermark matches Some(before) ==> (raised(watermark, latest(found)) matches Some(after)
            && before.le(after)),
{
}

/// The watermark is at or after every post that a fetch has found, whether
/// the post was handed on or not.
pub proof fn law_watermark_covers_what_was_found(watermark: Option<Timestamp>, found: Seq<PostText>, i: int)
    requires
        0 <= i < found.len(),
    ensures
        raised(watermark, latest(found)) matches Some(after) && found[i].published.le(after),
{
    lemma_newest_index(found);
}

/// What one fetch has found, a later fetch does not hand on: every post
/// that the later fetch hands on was published after every post that the
/// earlier fetch found.
pub proof fn law_found_posts_stay_out(
    watermark: Option<Timestamp>,
    earlier: Seq<PostText>,
    later: Seq<PostText>,
    i: int,
    j: int,
)
    requires
        0 <= i < earlier.len(),
        0 <= j < syndication_selection(later, raised(watermark, latest(earlier))).len(),
    ensures
        earlier[i].published.lt(
            syndication_selection(later, raised(watermark, latest(earlier)))[j].published,
        ),
{
    let mark = raised(watermark, latest(earlier));
    law_watermark_covers_what_was_found(watermark, earlier, i);
    let fresh = after_watermark(later, mark);
    let keep = |p: PostText| is_fresh(p, mark);
    lemma_newest_two_members(fresh, j);
    let k = choose|k: int| 0 <= k < fresh.len() && fresh[k] == newest_two(fresh)[j];
    assert(fresh == later.filter(keep));
    later.lemma_filter_pred(keep, k);
    assert(keep(fresh[k]));
}

} // verus!
