use populatrs::config::{FeedConfig, FeedTypeConfig, YouTubeGlobalConfig};
use populatrs::feed::{
    backoff_delay, Feed, FeedCacheMetadata, FetchError, FetchRequest, ParsedBody, RetryDecision,
    SyndicationResponse,
};
use populatrs::post::Post;
use populatrs::selection::{sort_newest_first, take_newest_two};
use populatrs::syndication::{EntryContent, FeedEntry, RssItem};
use populatrs::time::Timestamp;
use populatrs::feed::FetchStep;

fn rss_config(id: &str) -> FeedConfig {
    FeedConfig {
        id: id.to_string(),
        feed_type: "Rss".to_string(),
        config: FeedTypeConfig::Rss { url: "https://example.com/feed.xml".to_string() },
        name: "Example".to_string(),
        enabled: true,
        publishers: vec!["p1".to_string(), "p2".to_string()],
        check_interval_minutes: None,
        max_retries: None,
        retry_delay_seconds: None,
    }
}

fn rss_feed() -> Feed {
    Feed::new(rss_config("feed-1"), None)
}

fn item(guid: &str, date: &str) -> String {
    format!(
        "<item><title>Title {g}</title><link>https://example.com/{g}</link><guid>{g}</guid>\
         <pubDate>{d}</pubDate><description>About {g}</description></item>",
        g = guid,
        d = date
    )
}

fn channel(items: &[String]) -> String {
    format!(
        "<?xml version=\"1.0\"?><rss version=\"2.0\"><channel><title>T</title>\
         <link>https://example.com</link><description>D</description>{}</channel></rss>",
        items.concat()
    )
}

fn ok(body: &str, etag: Option<&str>) -> SyndicationResponse {
    SyndicationResponse {
        status: 200,
        etag: etag.map(|e| e.to_string()),
        last_modified: None,
        body: body.to_string(),
    }
}

// Mon, 01 Jan 2024 10:00:00 GMT
const T1: i64 = 1_704_103_200;
const D1: &str = "Mon, 01 Jan 2024 10:00:00 GMT";
const D2: &str = "Tue, 02 Jan 2024 10:00:00 GMT";
const D3: &str = "Wed, 03 Jan 2024 10:00:00 GMT";
const D4: &str = "Thu, 04 Jan 2024 10:00:00 GMT";
const DAY: i64 = 86_400;

fn video(guid: &str, secs: i64) -> Post {
    Post::new(
        guid.to_string(),
        format!("Video {}", guid),
        Some(String::new()),
        format!("https://www.youtube.com/watch?v={}", guid),
        Timestamp::new(secs, 0),
        "youtube".to_string(),
    )
}

fn guids(posts: &[Post]) -> Vec<&str> {
    posts.iter().map(|p| p.guid.as_str()).collect()
}

#[test]
fn a_new_feed_is_due() {
    let feed = rss_feed();
    assert!(feed.should_check(60));
    assert!(feed.should_check_at(60, Timestamp::new(0, 0)));
}

#[test]
fn a_disabled_feed_is_never_due() {
    let mut config = rss_config("f");
    config.enabled = false;
    let feed = Feed::new(config, None);
    assert!(!feed.should_check(0));
    assert!(!feed.should_check_at(0, Timestamp::new(1_000_000, 0)));
}

#[test]
fn a_feed_is_due_once_its_interval_has_passed() {
    let mut feed = rss_feed();
    feed.last_checked = Some(Timestamp::new(1_700_000_000, 0));
    assert!(!feed.should_check_at(60, Timestamp::new(1_700_000_000 + 59 * 60 + 59, 0)));
    assert!(feed.should_check_at(60, Timestamp::new(1_700_000_000 + 60 * 60, 0)));
    // the feed's own interval wins over the default
    feed.config.check_interval_minutes = Some(5);
    assert!(feed.should_check_at(60, Timestamp::new(1_700_000_000 + 5 * 60, 0)));
    assert!(!feed.should_check_at(1, Timestamp::new(1_700_000_000 + 4 * 60, 0)));
    // an interval of nothing is over at once, but not before the last check
    feed.config.check_interval_minutes = Some(0);
    assert!(feed.should_check_at(60, Timestamp::new(1_700_000_000, 0)));
    assert!(!feed.should_check_at(60, Timestamp::new(1_700_000_000 - 30, 0)));
    assert!(!feed.should_check_at(60, Timestamp::new(1_699_999_999, 999_999_999)));
    // the whole interval has to pass, to the nanosecond
    feed.config.check_interval_minutes = Some(1);
    feed.last_checked = Some(Timestamp::new(1_700_000_000, 500));
    assert!(!feed.should_check_at(60, Timestamp::new(1_700_000_060, 499)));
    assert!(feed.should_check_at(60, Timestamp::new(1_700_000_060, 500)));
    feed.last_checked = Some(Timestamp::new(1_700_000_000, 0));
    // a feed checked a moment ago by the clock is not due within the hour
    feed.config.check_interval_minutes = None;
    feed.last_checked = Some(Timestamp::new(chrono::Utc::now().timestamp(), 0));
    assert!(!feed.should_check(60));
}

#[test]
fn publishers_of_a_feed() {
    let feed = rss_feed();
    assert_eq!(feed.get_publishers(), &["p1".to_string(), "p2".to_string()]);
}

#[test]
fn backoff_doubles() {
    assert_eq!(backoff_delay(1, 0), 1);
    assert_eq!(backoff_delay(1, 1), 2);
    assert_eq!(backoff_delay(2, 3), 16);
    assert_eq!(backoff_delay(3, 2), 12);
    assert_eq!(backoff_delay(0, 40), 0);
    assert_eq!(backoff_delay(1, 63), 1u64 << 63);
    assert_eq!(backoff_delay(1, 64), u64::MAX);
    assert_eq!(backoff_delay(u64::MAX, 1), u64::MAX);
    assert_eq!(backoff_delay(5, u32::MAX), u64::MAX);
}

#[test]
fn a_source_that_always_fails_gets_three_attempts() {
    let mut config = rss_config("f");
    config.max_retries = Some(2);
    config.retry_delay_seconds = Some(1);
    let feed = Feed::new(config, None);
    let error = FetchError::Network("connection refused".to_string());

    let mut attempts = 0;
    let mut delays = Vec::new();
    let mut attempt: u32 = 0;
    loop {
        attempts += 1;
        match feed.after_failed_attempt(attempt, &error) {
            RetryDecision::GiveUp => break,
            RetryDecision::RetryAfter(delay) => {
                delays.push(delay);
                attempt += 1;
            }
        }
    }
    assert_eq!(attempts, 3);
    assert_eq!(delays, vec![1, 2]);
}

#[test]
fn retry_defaults() {
    let feed = rss_feed();
    let error = FetchError::HttpStatus(503);
    assert_eq!(feed.after_failed_attempt(0, &error), RetryDecision::RetryAfter(2));
    assert_eq!(feed.after_failed_attempt(1, &error), RetryDecision::RetryAfter(4));
    assert_eq!(feed.after_failed_attempt(2, &error), RetryDecision::RetryAfter(8));
    assert_eq!(feed.after_failed_attempt(3, &error), RetryDecision::GiveUp);
    assert_eq!(feed.after_failed_attempt(4, &error), RetryDecision::GiveUp);
}

#[test]
fn failures_that_will_not_pass_are_not_retried() {
    let feed = rss_feed();
    assert_eq!(feed.after_failed_attempt(0, &FetchError::Unparseable), RetryDecision::GiveUp);
    assert_eq!(feed.after_failed_attempt(0, &FetchError::InvalidRssConfig), RetryDecision::GiveUp);
    assert_eq!(feed.after_failed_attempt(0, &FetchError::MissingYoutubeConfig), RetryDecision::GiveUp);
    assert_eq!(
        feed.after_failed_attempt(0, &FetchError::UnknownFeedType("x".to_string())),
        RetryDecision::GiveUp
    );
    assert!(FetchError::Network(String::new()).is_transient());
    assert!(FetchError::VideoApi { status: 500, body: String::new() }.is_transient());
    assert!(!FetchError::BadPublicationDate("x".to_string()).is_transient());
    assert!(!FetchError::MissingVideoSource.is_transient());
}

#[test]
fn a_syndication_feed_asks_with_its_validators() {
    let feed = Feed::new_with_cache(
        rss_config("f"),
        FeedCacheMetadata {
            etag: Some("\"v1\"".to_string()),
            last_modified: Some("Mon, 01 Jan 2024 00:00:00 GMT".to_string()),
            last_content_hash: None,
        },
        None,
    );
    match feed.plan_fetch() {
        Ok(FetchRequest::Syndication { url, if_none_match, if_modified_since }) => {
            assert_eq!(url, "https://example.com/feed.xml");
            assert_eq!(if_none_match.as_deref(), Some("\"v1\""));
            assert_eq!(if_modified_since.as_deref(), Some("Mon, 01 Jan 2024 00:00:00 GMT"));
        }
        other => panic!("unexpected {:?}", other),
    }
}

#[test]
fn a_video_feed_asks_with_the_effective_number() {
    let mut config = rss_config("v");
    config.feed_type = "Youtube".to_string();
    config.config = FeedTypeConfig::Youtube {
        channel_id: Some("chan".to_string()),
        playlist_id: None,
        username: None,
        max_results: None,
    };
    let global = YouTubeGlobalConfig { api_key: "key".to_string(), default_max_results: Some(7) };
    match Feed::new(config.clone(), Some(global)).plan_fetch() {
        Ok(FetchRequest::VideoChannel(video)) => {
            assert_eq!(video.api_key, "key");
            assert_eq!(video.channel_id.as_deref(), Some("chan"));
            assert_eq!(video.max_results, Some(7));
        }
        other => panic!("unexpected {:?}", other),
    }
    let bare = YouTubeGlobalConfig { api_key: "key".to_string(), default_max_results: None };
    match Feed::new(config.clone(), Some(bare)).plan_fetch() {
        Ok(FetchRequest::VideoChannel(video)) => assert_eq!(video.max_results, Some(10)),
        other => panic!("unexpected {:?}", other),
    }
    assert!(matches!(Feed::new(config, None).plan_fetch(), Err(FetchError::MissingYoutubeConfig)));
}

#[test]
fn a_feed_that_is_configured_wrongly_is_refused() {
    let mut config = rss_config("f");
    config.feed_type = "Youtube".to_string();
    let global = YouTubeGlobalConfig { api_key: "key".to_string(), default_max_results: None };
    assert!(matches!(
        Feed::new(config.clone(), Some(global)).plan_fetch(),
        Err(FetchError::InvalidYoutubeConfig)
    ));
    config.feed_type = "Atom".to_string();
    assert!(matches!(
        Feed::new(config.clone(), None).plan_fetch(),
        Err(FetchError::UnknownFeedType(ref t)) if t == "Atom"
    ));
    config.feed_type = "Rss".to_string();
    config.config = FeedTypeConfig::Youtube {
        channel_id: None,
        playlist_id: None,
        username: None,
        max_results: None,
    };
    assert!(matches!(Feed::new(config, None).plan_fetch(), Err(FetchError::InvalidRssConfig)));
}

#[test]
fn not_modified_only_moves_the_clock() {
    let mut feed = rss_feed();
    feed.last_post_date = Some(Timestamp::new(5, 0));
    feed.cache_metadata.etag = Some("e".to_string());
    let now = Timestamp::new(100, 0);
    let response = SyndicationResponse {
        status: 304,
        etag: Some("other".to_string()),
        last_modified: None,
        body: String::new(),
    };
    let posts = feed.accept_response(&response, now).unwrap();
    assert!(posts.is_empty());
    assert_eq!(feed.last_checked, Some(now));
    assert_eq!(feed.last_post_date, Some(Timestamp::new(5, 0)));
    assert_eq!(feed.cache_metadata.etag.as_deref(), Some("e"));
    assert!(feed.cache_metadata.last_content_hash.is_none());
}

#[test]
fn an_error_status_changes_nothing() {
    let mut feed = rss_feed();
    let response = SyndicationResponse {
        status: 500,
        etag: Some("e".to_string()),
        last_modified: Some("m".to_string()),
        body: channel(&[item("a", D1)]),
    };
    match feed.accept_response(&response, Timestamp::new(100, 0)) {
        Err(FetchError::HttpStatus(500)) => {}
        other => panic!("unexpected {:?}", other),
    }
    assert!(feed.last_checked.is_none());
    assert!(feed.cache_metadata.etag.is_none());
    assert!(feed.cache_metadata.last_modified.is_none());
    assert!(feed.cache_metadata.last_content_hash.is_none());
    assert!(matches!(
        feed.accept_response(&SyndicationResponse { status: 404, etag: None, last_modified: None, body: String::new() }, Timestamp::new(1, 0)),
        Err(FetchError::HttpStatus(404))
    ));
}

#[test]
fn the_fingerprint_is_the_md5_of_the_document() {
    let mut feed = rss_feed();
    let body = channel(&[]);
    let posts = feed.accept_response(&ok(&body, Some("tag")), Timestamp::new(7, 0)).unwrap();
    assert!(posts.is_empty());
    let digest = format!("{:x}", md5::compute(&body));
    assert_eq!(digest.len(), 32);
    assert_eq!(feed.cache_metadata.last_content_hash, Some(digest));
    assert_eq!(feed.cache_metadata.etag.as_deref(), Some("tag"));
    assert_eq!(feed.last_checked, Some(Timestamp::new(7, 0)));

    let mut by_hand = rss_feed();
    by_hand.open(&ok("hello", None), "5d41402abc4b2a76b9719d911017c592".to_string(), Timestamp::new(1, 0));
    assert!(matches!(
        by_hand.settle(&ok("hello", None), "5d41402abc4b2a76b9719d911017c592", Timestamp::new(2, 0)),
        Some(Ok(_))
    ));
}

#[test]
fn a_document_that_cannot_be_read_changes_nothing() {
    let mut feed = rss_feed();
    feed.cache_metadata.etag = Some("old".to_string());
    feed.cache_metadata.last_content_hash = Some("older".to_string());
    feed.last_checked = Some(Timestamp::new(3, 0));
    feed.last_post_date = Some(Timestamp::new(2, 0));
    let broken = SyndicationResponse {
        status: 200,
        etag: Some("new".to_string()),
        last_modified: Some("today".to_string()),
        body: "hello".to_string(),
    };
    for now in [10, 20] {
        // the same document fails the second time as it did the first: it is not taken for unchanged
        let outcome = feed.accept_response(&broken, Timestamp::new(now, 0));
        assert!(matches!(outcome, Err(FetchError::Unparseable)));
        assert_eq!(feed.cache_metadata.etag.as_deref(), Some("old"));
        assert!(feed.cache_metadata.last_modified.is_none());
        assert_eq!(feed.cache_metadata.last_content_hash.as_deref(), Some("older"));
        assert_eq!(feed.last_checked, Some(Timestamp::new(3, 0)));
        assert_eq!(feed.last_post_date, Some(Timestamp::new(2, 0)));
    }
}

#[test]
fn an_unchanged_document_is_not_read_again() {
    let mut feed = rss_feed();
    let body = channel(&[item("a", D1)]);
    let first = feed.accept_response(&ok(&body, Some("one")), Timestamp::new(10, 0)).unwrap();
    assert_eq!(guids(&first), vec!["a"]);
    let fingerprint = feed.cache_metadata.last_content_hash.clone();
    assert!(fingerprint.is_some());
    let watermark = feed.last_post_date;

    let second = feed.accept_response(&ok(&body, Some("two")), Timestamp::new(20, 0)).unwrap();
    assert!(second.is_empty());
    assert_eq!(feed.cache_metadata.last_content_hash, fingerprint);
    assert_eq!(feed.cache_metadata.etag.as_deref(), Some("two"));
    assert_eq!(feed.last_post_date, watermark);
    assert_eq!(feed.last_checked, Some(Timestamp::new(20, 0)));
}

#[test]
fn rss_items_become_posts() {
    let mut feed = rss_feed();
    let body = channel(&[item("a", D1)]);
    let posts = feed.accept_response(&ok(&body, None), Timestamp::new(10, 0)).unwrap();
    assert_eq!(posts.len(), 1);
    assert_eq!(
        posts[0],
        Post::new(
            "a".to_string(),
            "Title a".to_string(),
            Some("About a".to_string()),
            "https://example.com/a".to_string(),
            Timestamp::new(T1, 0),
            "feed-1".to_string(),
        )
    );
    assert_eq!(feed.last_post_date, Some(Timestamp::new(T1, 0)));
}

#[test]
fn the_two_newest_are_handed_on_newest_first() {
    let mut feed = rss_feed();
    let body = channel(&[item("b", D2), item("d", D4), item("a", D1), item("c", D3)]);
    let posts = feed.accept_response(&ok(&body, None), Timestamp::new(10, 0)).unwrap();
    assert_eq!(guids(&posts), vec!["d", "c"]);
    assert_eq!(feed.last_post_date, Some(Timestamp::new(T1 + 3 * DAY, 0)));
}

#[test]
fn what_was_seen_is_filtered_out_later() {
    let mut feed = rss_feed();
    let second = feed.accept_response(&ok(&channel(&[item("t2", D2)]), None), Timestamp::new(1, 0)).unwrap();
    assert_eq!(guids(&second), vec!["t2"]);
    let third = feed
        .accept_response(&ok(&channel(&[item("t3", D3), item("t2", D2)]), None), Timestamp::new(2, 0))
        .unwrap();
    assert_eq!(guids(&third), vec!["t3"]);
    assert_eq!(feed.last_post_date, Some(Timestamp::new(T1 + 2 * DAY, 0)));
    // an item from before the watermark is not handed on, and the watermark stays
    let late = feed.accept_response(&ok(&channel(&[item("t1", D1)]), None), Timestamp::new(3, 0)).unwrap();
    assert!(late.is_empty());
    assert_eq!(feed.last_post_date, Some(Timestamp::new(T1 + 2 * DAY, 0)));
    // nor is an item at the watermark
    let same = feed.accept_response(&ok(&channel(&[item("again", D3)]), None), Timestamp::new(4, 0)).unwrap();
    assert!(same.is_empty());
}

#[test]
fn the_watermark_counts_items_that_are_not_handed_on() {
    let mut feed = rss_feed();
    let posts = feed
        .accept_response(
            &ok(&channel(&[item("a", D1), item("b", D2), item("c", D3)]), None),
            Timestamp::new(1, 0),
        )
        .unwrap();
    assert_eq!(guids(&posts), vec!["c", "b"]);
    // "a" was capped away, but lies before the watermark now
    let next = feed
        .accept_response(&ok(&channel(&[item("a", D1), item("d", D4)]), None), Timestamp::new(2, 0))
        .unwrap();
    assert_eq!(guids(&next), vec!["d"]);
}

#[test]
fn incomplete_items_are_dropped_and_bad_dates_mean_now() {
    let mut feed = rss_feed();
    let now = Timestamp::new(1_700_000_000, 5);
    let some = |t: &str| Some(t.to_string());
    let items = vec![
        RssItem { title: None, link: some("https://e/1"), guid: some("g1"), description: None, pub_date: None },
        RssItem { title: some(""), link: some("https://e/2"), guid: some("g2"), description: None, pub_date: None },
        RssItem { title: some("No link"), link: None, guid: some("g3"), description: None, pub_date: None },
        RssItem { title: some("Empty link"), link: some(""), guid: some("g4"), description: None, pub_date: None },
        RssItem { title: some("No guid"), link: some("https://e/5"), guid: None, description: None, pub_date: None },
        RssItem { title: some("Empty guid"), link: some("https://e/6"), guid: some(""), description: None, pub_date: None },
        RssItem { title: some("Kept"), link: some("https://e/7"), guid: some("g7"), description: some(""), pub_date: some("yesterday") },
    ];
    let posts = feed.parse_rss_posts(&items, now);
    assert_eq!(posts.len(), 1);
    assert_eq!(posts[0].guid, "g7");
    assert_eq!(posts[0].title, "Kept");
    assert_eq!(posts[0].link, "https://e/7");
    assert_eq!(posts[0].description, None);
    assert_eq!(posts[0].published, now);
    assert_eq!(feed.last_post_date, Some(now));
}

#[test]
fn an_item_without_a_title_is_dropped() {
    let item = RssItem {
        title: None,
        link: Some("https://e/1".to_string()),
        guid: Some("g".to_string()),
        description: None,
        pub_date: Some("Mon, 01 Jan 2024 00:00:00 GMT".to_string()),
    };
    assert!(Post::from_rss_item(&item, "f1".to_string()).is_none());
    assert!(Post::from_rss_item_at(&item, "f1".to_string(), Timestamp::new(0, 0)).is_none());
    let mut feed = rss_feed();
    let body = "<?xml version=\"1.0\"?><rss version=\"2.0\"><channel><title>T</title>\
        <link>https://example.com</link><description>D</description>\
        <item><link>https://example.com/a</link><guid>a</guid></item>\
        <item><title>B</title><link>https://example.com/b</link></item>\
        <item><title>C</title><link>https://example.com/c</link><guid>c</guid></item>\
        </channel></rss>";
    let posts = feed.accept_response(&ok(body, None), Timestamp::new(5, 0)).unwrap();
    assert_eq!(guids(&posts), vec!["c"]);
}

#[test]
fn posts_from_rss_items() {
    let full = RssItem {
        title: Some("T".to_string()),
        link: Some("L".to_string()),
        guid: Some("G".to_string()),
        description: Some("D".to_string()),
        pub_date: Some("Tue, 02 Jan 2024 12:00:00 +0200".to_string()),
    };
    let post = Post::from_rss_item_at(&full, "f".to_string(), Timestamp::new(0, 0)).unwrap();
    assert_eq!(post.published, Timestamp::new(T1 + DAY, 0));
    assert_eq!(post.description.as_deref(), Some("D"));
    assert_eq!(Post::extract_rss_description(&full).as_deref(), Some("D"));
    let by_clock = Post::from_rss_item(&RssItem { pub_date: None, ..full.clone() }, "f".to_string()).unwrap();
    assert!(Post::from_rss_item(&RssItem { guid: None, ..full.clone() }, "f".to_string()).is_none());
    assert!(by_clock.published.secs > 1_577_836_800);
    assert_eq!(by_clock.feed_id, "f");
    assert!(Post::from_rss_item(&RssItem { link: Some(String::new()), ..full }, "f".to_string()).is_none());
}

#[test]
fn other_formats_are_read_as_a_fallback() {
    let mut feed = rss_feed();
    let atom = "<?xml version=\"1.0\" encoding=\"utf-8\"?>\
        <feed xmlns=\"http://www.w3.org/2005/Atom\"><title>T</title><id>urn:feed</id>\
        <updated>2024-01-03T00:00:00Z</updated>\
        <entry><title>First</title><id>e1</id><link href=\"https://example.com/e1\"/>\
        <updated>2024-01-02T00:00:00Z</updated><summary>sum one</summary></entry>\
        <entry><title>Second</title><id>e2</id><link href=\"https://example.com/e2\"/>\
        <published>2024-01-03T00:00:00Z</published><updated>2024-01-05T00:00:00Z</updated>\
        <content type=\"text\">body two</content><summary>sum two</summary></entry>\
        </feed>";
    let posts = feed.accept_response(&ok(atom, None), Timestamp::new(1, 0)).unwrap();
    assert_eq!(guids(&posts), vec!["e2", "e1"]);
    assert_eq!(posts[0].title, "Second");
    assert_eq!(posts[0].link, "https://example.com/e2");
    assert_eq!(posts[0].description.as_deref(), Some("body two"));
    assert_eq!(posts[0].published, Timestamp::new(1_704_067_200 + 2 * DAY, 0));
    assert_eq!(posts[0].feed_id, "feed-1");
    assert_eq!(posts[1].description.as_deref(), Some("sum one"));
    assert_eq!(posts[1].published, Timestamp::new(1_704_067_200 + DAY, 0));
}

#[test]
fn posts_from_feed_entries() {
    let entry = FeedEntry {
        id: "id".to_string(),
        title: Some("T".to_string()),
        links: vec!["L".to_string(), "second".to_string()],
        content: Some(EntryContent { body: Some(String::new()) }),
        summary: Some("S".to_string()),
        published: None,
        updated: Some(Timestamp::new(50, 0)),
    };
    let post = Post::from_feed_item_at(&entry, "f".to_string(), Timestamp::new(99, 0)).unwrap();
    assert_eq!(post.link, "L");
    assert_eq!(post.description.as_deref(), Some("S"));
    let bodied = FeedEntry { content: Some(EntryContent { body: Some("B".to_string()) }), ..entry.clone() };
    assert_eq!(Post::extract_description(&bodied).as_deref(), Some("B"));
    let bodiless = FeedEntry { content: Some(EntryContent { body: None }), ..entry.clone() };
    assert_eq!(Post::extract_description(&bodiless).as_deref(), Some("S"));
    assert_eq!(post.published, Timestamp::new(50, 0));
    assert_eq!(Post::extract_description(&entry).as_deref(), Some("S"));
    let undated = FeedEntry { updated: None, summary: None, ..entry.clone() };
    let post = Post::from_feed_item_at(&undated, "f".to_string(), Timestamp::new(99, 0)).unwrap();
    assert_eq!(post.published, Timestamp::new(99, 0));
    assert_eq!(post.description, None);
    assert!(Post::from_feed_item(&undated, "f".to_string()).is_some());
    assert!(Post::from_feed_item_at(&FeedEntry { title: None, ..entry.clone() }, "f".to_string(), Timestamp::new(0, 0)).is_none());
    assert!(Post::from_feed_item_at(&FeedEntry { links: vec![], ..entry.clone() }, "f".to_string(), Timestamp::new(0, 0)).is_none());
    assert!(Post::from_feed_item_at(&FeedEntry { links: vec![String::new(), "L".to_string()], ..entry.clone() }, "f".to_string(), Timestamp::new(0, 0)).is_none());
    assert!(Post::from_feed_item_at(&FeedEntry { id: String::new(), ..entry }, "f".to_string(), Timestamp::new(0, 0)).is_none());
}

#[test]
fn ingest_reports_what_cannot_be_read() {
    let mut feed = rss_feed();
    feed.last_post_date = Some(Timestamp::new(3, 0));
    assert!(matches!(feed.ingest(&ParsedBody::Unreadable, Timestamp::new(1, 0)), Err(FetchError::Unparseable)));
    assert_eq!(feed.last_post_date, Some(Timestamp::new(3, 0)));
    let nothing = feed.ingest(&ParsedBody::Rss(vec![]), Timestamp::new(1, 0)).unwrap();
    assert!(nothing.is_empty());
    assert_eq!(feed.last_post_date, Some(Timestamp::new(3, 0)));
    let entries = feed.parse_feed_rs_posts(&vec![], Timestamp::new(1, 0));
    assert!(entries.is_empty());
}

#[test]
fn videos_are_capped_at_two_and_sent_older_first() {
    let mut feed = rss_feed();
    // a watermark later than every video keeps none of them back
    feed.last_post_date = Some(Timestamp::new(1_000_000, 0));
    let videos = vec![video("v3", 300), video("v1", 100), video("v5", 500), video("v2", 200), video("v4", 400)];
    let chosen = feed.process_youtube_posts(videos);
    assert_eq!(guids(&chosen), vec!["v4", "v5"]);
    assert_eq!(feed.last_post_date, Some(Timestamp::new(500, 0)));
}

#[test]
fn few_videos_and_ties() {
    let mut feed = rss_feed();
    assert!(feed.process_youtube_posts(vec![]).is_empty());
    assert!(feed.last_post_date.is_none());
    assert_eq!(guids(&feed.process_youtube_posts(vec![video("only", 5)])), vec!["only"]);
    assert_eq!(feed.last_post_date, Some(Timestamp::new(5, 0)));
    // same instant: the order found is kept
    assert_eq!(
        guids(&feed.process_youtube_posts(vec![video("x", 7), video("y", 7), video("z", 1)])),
        vec!["x", "y"]
    );
}

#[test]
fn sorting_is_stable_and_newest_first() {
    let sorted = sort_newest_first(vec![video("a", 2), video("b", 5), video("c", 2), video("d", 9), video("e", 5)]);
    assert_eq!(guids(&sorted), vec!["d", "b", "e", "a", "c"]);
    assert_eq!(guids(&take_newest_two(vec![video("a", 2), video("b", 5), video("c", 5)])), vec!["b", "c"]);
    assert!(sort_newest_first(vec![]).is_empty());
}

#[test]
fn an_answer_is_settled_by_its_fingerprint() {
    let mut feed = rss_feed();
    feed.cache_metadata.last_content_hash = Some("abc".to_string());
    feed.last_post_date = Some(Timestamp::new(9, 0));
    let response = SyndicationResponse {
        status: 200,
        etag: Some("e2".to_string()),
        last_modified: Some("m2".to_string()),
        body: "whatever".to_string(),
    };
    // the fingerprint on record: nothing to read
    let done = feed.settle(&response, "abc", Timestamp::new(50, 0));
    assert!(matches!(done, Some(Ok(ref posts)) if posts.is_empty()));
    assert_eq!(feed.cache_metadata.etag.as_deref(), Some("e2"));
    assert_eq!(feed.cache_metadata.last_modified.as_deref(), Some("m2"));
    assert_eq!(feed.cache_metadata.last_content_hash.as_deref(), Some("abc"));
    assert_eq!(feed.last_checked, Some(Timestamp::new(50, 0)));
    assert_eq!(feed.last_post_date, Some(Timestamp::new(9, 0)));
    // another fingerprint: the document is to be read, and nothing changes until it has been
    let later = SyndicationResponse { etag: Some("e3".to_string()), ..response.clone() };
    let done = feed.settle(&later, "xyz", Timestamp::new(55, 0));
    assert!(done.is_none());
    assert_eq!(feed.cache_metadata.etag.as_deref(), Some("e2"));
    assert_eq!(feed.cache_metadata.last_content_hash.as_deref(), Some("abc"));
    assert_eq!(feed.last_checked, Some(Timestamp::new(50, 0)));
    feed.open(&later, "xyz".to_string(), Timestamp::new(60, 0));
    assert_eq!(feed.cache_metadata.etag.as_deref(), Some("e3"));
    assert_eq!(feed.cache_metadata.last_modified.as_deref(), Some("m2"));
    assert_eq!(feed.cache_metadata.last_content_hash.as_deref(), Some("xyz"));
    assert_eq!(feed.last_checked, Some(Timestamp::new(60, 0)));
    assert_eq!(feed.last_post_date, Some(Timestamp::new(9, 0)));
    // statuses come before fingerprints
    let gone = SyndicationResponse { status: 410, ..response.clone() };
    assert!(matches!(feed.settle(&gone, "xyz", Timestamp::new(70, 0)), Some(Err(FetchError::HttpStatus(410)))));
    assert_eq!(feed.last_checked, Some(Timestamp::new(60, 0)));
    let same = SyndicationResponse { status: 304, ..response };
    assert!(matches!(feed.settle(&same, "new", Timestamp::new(80, 0)), Some(Ok(_))));
    assert_eq!(feed.cache_metadata.last_content_hash.as_deref(), Some("xyz"));
    assert_eq!(feed.last_checked, Some(Timestamp::new(80, 0)));
}

#[test]
fn attempts_end_or_go_on() {
    let mut config = rss_config("f");
    config.max_retries = Some(1);
    config.retry_delay_seconds = Some(3);
    let feed = Feed::new(config, None);
    assert!(matches!(feed.fetch_posts(0, Ok(vec![video("a", 1)])), FetchStep::Done(Ok(ref p)) if p.len() == 1));
    assert!(matches!(feed.fetch_posts(5, Ok(vec![])), FetchStep::Done(Ok(_))));
    assert!(matches!(feed.fetch_posts(0, Err(FetchError::HttpStatus(502))), FetchStep::RetryAfter(3)));
    assert!(matches!(
        feed.fetch_posts(1, Err(FetchError::HttpStatus(502))),
        FetchStep::Done(Err(FetchError::HttpStatus(502)))
    ));
    assert!(matches!(
        feed.fetch_posts(0, Err(FetchError::Unparseable)),
        FetchStep::Done(Err(FetchError::Unparseable))
    ));
}

#[test]
fn items_are_dated_by_what_was_read() {
    let full = RssItem {
        title: Some("T".to_string()),
        link: Some("L".to_string()),
        guid: None,
        description: None,
        pub_date: Some("ignored here".to_string()),
    };
    assert!(Post::from_rss_item_dated(&full, "f".to_string(), Some(Timestamp::new(5, 6)), Timestamp::new(9, 9)).is_none());
    let full = RssItem { guid: Some("G".to_string()), ..full };
    let read = Post::from_rss_item_dated(&full, "f".to_string(), Some(Timestamp::new(5, 6)), Timestamp::new(9, 9)).unwrap();
    assert_eq!(read.published, Timestamp::new(5, 6));
    assert_eq!(read.guid, "G");
    let unread = Post::from_rss_item_dated(&full, "f".to_string(), None, Timestamp::new(9, 9)).unwrap();
    assert_eq!(unread.published, Timestamp::new(9, 9));
}

#[test]
fn documents_are_scanned_before_they_are_read() {
    let mut feed = rss_feed();
    // elements nested deeper than the limit
    let deep = format!(
        "<rss version=\"2.0\"><channel><title>T</title><link>l</link><description>d</description>{}{}</channel></rss>",
        "<m:a>".repeat(200),
        "</m:a>".repeat(200)
    );
    assert!(matches!(feed.accept_response(&ok(&deep, None), Timestamp::new(1, 0)), Err(FetchError::Unparseable)));
    // a hundred levels are fine
    let fine = format!(
        "<rss version=\"2.0\"><channel><title>T</title><link>l</link><description>d</description>{}{}{}</channel></rss>",
        "<m:a>".repeat(100),
        "</m:a>".repeat(100),
        item("a", D1)
    );
    assert_eq!(guids(&feed.accept_response(&ok(&fine, None), Timestamp::new(2, 0)).unwrap()), vec!["a"]);
    // a document type is more than the scan understands
    let typed = format!("<!DOCTYPE rss [<!ENTITY n \"1\">]>{}", channel(&[item("b", D2)]));
    assert!(matches!(feed.accept_response(&ok(&typed, None), Timestamp::new(3, 0)), Err(FetchError::Unparseable)));
    // so is another encoding than UTF-8
    let latin = channel(&[item("c", D3)]).replace("<?xml version=\"1.0\"?>", "<?xml version=\"1.0\" encoding=\"ISO-8859-1\"?>");
    assert!(matches!(feed.accept_response(&ok(&latin, None), Timestamp::new(4, 0)), Err(FetchError::Unparseable)));
    let utf8 = channel(&[item("c", D3)]).replace("<?xml version=\"1.0\"?>", "<?xml version=\"1.0\" encoding=\"UTF-8\"?>");
    assert_eq!(guids(&feed.accept_response(&ok(&utf8, None), Timestamp::new(5, 0)).unwrap()), vec!["c"]);
}

#[test]
fn other_formats_need_plain_numbers() {
    let entry = |time: &str| {
        format!(
            "<?xml version=\"1.0\" encoding=\"utf-8\"?>\
             <feed xmlns=\"http://www.w3.org/2005/Atom\" xmlns:media=\"http://search.yahoo.com/mrss/\">\
             <title>T</title><id>urn:feed</id><updated>2024-01-03T00:00:00Z</updated>\
             <entry><title>First</title><id>e1</id><link href=\"https://example.com/e1\"/>\
             <updated>2024-01-02T00:00:00Z</updated>\
             <media:group><media:thumbnail url=\"https://example.com/t.png\" time=\"{}\"/></media:group>\
             </entry></feed>",
            time
        )
    };
    let mut feed = rss_feed();
    assert_eq!(guids(&feed.accept_response(&ok(&entry("12:05:35"), None), Timestamp::new(1, 0)).unwrap()), vec!["e1"]);
    for time in ["99999999999999999999", "1234567890123456:00:00", "\u{0663}", "&#1635;", "&#x663;"] {
        let mut feed = rss_feed();
        let outcome = feed.accept_response(&ok(&entry(time), None), Timestamp::new(1, 0));
        assert!(matches!(outcome, Err(FetchError::Unparseable)), "time {}", time);
    }
    // an RSS channel is read whatever its numbers
    let mut feed = rss_feed();
    let body = channel(&[item("12345678901234567890123", D1)]);
    assert_eq!(guids(&feed.accept_response(&ok(&body, None), Timestamp::new(1, 0)).unwrap()), vec!["12345678901234567890123"]);
}
