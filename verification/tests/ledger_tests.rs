use populatrs::ledger::{PublishedPost, PublishedPostsStorage};
use populatrs::post::Post;
use populatrs::feed::FetchError;
use populatrs::sweep::{plan_feed, plan_item, Dispatch, FeedPlan, ItemPlan, SweepSummary};
use populatrs::time::Timestamp;

fn post(guid: &str, feed: &str) -> Post {
    Post::new(
        guid.to_string(),
        format!("title of {}", guid),
        None,
        format!("https://example.com/{}", guid),
        Timestamp::new(1_700_000_000, 0),
        feed.to_string(),
    )
}

#[test]
fn publish_path_records_an_item_once() {
    let mut ledger = PublishedPostsStorage::new();
    let item = post("a", "feed");
    let now = Timestamp::new(1_700_000_100, 0);

    assert_eq!(plan_item(&ledger, &item, false), ItemPlan::Dispatch);
    let mut fan_out = Dispatch::begin(vec!["one".to_string()]);
    assert_eq!(fan_out.next(), Some("one"));
    fan_out = fan_out.record(Ok("sent".to_string()));
    assert!(fan_out.finish(&mut ledger, &item, now));
    assert_eq!(ledger.posts.len(), 1);

    // the second pass leaves the item alone
    assert_eq!(plan_item(&ledger, &item, false), ItemPlan::AlreadyPublished);
    assert_eq!(plan_item(&ledger, &item, true), ItemPlan::AlreadyPublished);
    assert_eq!(ledger.posts.len(), 1);
    assert!(ledger.is_published(&item));
}

#[test]
fn an_attempt_that_failed_everywhere_is_never_repeated() {
    let mut ledger = PublishedPostsStorage::new();
    let item = post("a", "feed");
    let mut fan_out = Dispatch::begin(vec!["one".to_string(), "two".to_string()]);
    fan_out = fan_out.record(Err("no".to_string()));
    fan_out = fan_out.record(Err("no again".to_string()));
    assert!(!fan_out.any_accepted());
    assert!(!fan_out.finish(&mut ledger, &item, Timestamp::new(5, 0)));
    assert_eq!(ledger.posts.len(), 1);
    assert_eq!(plan_item(&ledger, &item, false), ItemPlan::AlreadyPublished);
}

#[test]
fn dry_run_sends_nothing() {
    let ledger = PublishedPostsStorage::new();
    assert_eq!(plan_item(&ledger, &post("a", "feed"), true), ItemPlan::DryRun);
}

#[test]
fn identity_is_guid_and_feed() {
    let mut ledger = PublishedPostsStorage::new();
    ledger.mark_published_at(&post("a", "feed"), vec![], Timestamp::new(1, 0));
    assert!(ledger.is_published(&post("a", "feed")));
    assert!(!ledger.is_published(&post("a", "other")));
    assert!(!ledger.is_published(&post("b", "feed")));
}

#[test]
fn partial_fan_out_keeps_every_outcome() {
    let mut ledger = PublishedPostsStorage::new();
    let item = post("a", "feed");
    let now = Timestamp::new(1_700_000_100, 42);
    let ids = vec!["first".to_string(), "second".to_string(), "third".to_string()];

    let mut fan_out = Dispatch::begin(ids);
    assert_eq!(fan_out.next(), Some("first"));
    fan_out = fan_out.record(Ok("ok 1".to_string()));
    assert_eq!(fan_out.next(), Some("second"));
    fan_out = fan_out.record(Err("boom".to_string()));
    assert_eq!(fan_out.next(), Some("third"));
    fan_out = fan_out.record(Ok("ok 3".to_string()));
    assert_eq!(fan_out.next(), None);
    assert!(fan_out.any_accepted());
    assert!(fan_out.finish(&mut ledger, &item, now));

    assert_eq!(ledger.posts.len(), 1);
    let record = &ledger.posts[0];
    assert_eq!(record.post_guid, "a");
    assert_eq!(record.feed_id, "feed");
    assert_eq!(record.published_at, now);
    assert_eq!(record.publisher_results.len(), 3);
    let ids: Vec<&str> = record.publisher_results.iter().map(|r| r.publisher_id.as_str()).collect();
    assert_eq!(ids, vec!["first", "second", "third"]);
    let flags: Vec<bool> = record.publisher_results.iter().map(|r| r.success).collect();
    assert_eq!(flags, vec![true, false, true]);
    let messages: Vec<&str> = record.publisher_results.iter().map(|r| r.message.as_str()).collect();
    assert_eq!(messages, vec!["ok 1", "boom", "ok 3"]);
    assert!(record.publisher_results.iter().all(|r| r.published_at == now));
}

#[test]
fn an_answer_too_many_is_dropped() {
    let mut fan_out = Dispatch::begin(vec!["only".to_string()]);
    fan_out = fan_out.record(Err("no".to_string()));
    fan_out = fan_out.record(Ok("late".to_string()));
    assert!(!fan_out.any_accepted());
    let mut ledger = PublishedPostsStorage::new();
    fan_out.finish(&mut ledger, &post("a", "f"), Timestamp::new(0, 0));
    assert_eq!(ledger.posts[0].publisher_results.len(), 1);
}

#[test]
fn a_fan_out_to_nobody_still_records() {
    let mut ledger = PublishedPostsStorage::new();
    let fan_out = Dispatch::begin(vec![]);
    assert_eq!(fan_out.next(), None);
    assert!(!fan_out.finish(&mut ledger, &post("a", "f"), Timestamp::new(0, 0)));
    assert_eq!(ledger.posts.len(), 1);
    assert!(ledger.posts[0].publisher_results.is_empty());
}

#[test]
fn mark_published_uses_the_clock() {
    let mut ledger = PublishedPostsStorage::default();
    let item = post("a", "feed");
    ledger.mark_published(
        &item,
        vec![("p".to_string(), true, "fine".to_string()), ("q".to_string(), false, "bad".to_string())],
    );
    assert_eq!(ledger.posts.len(), 1);
    assert_eq!(ledger.posts[0].publisher_results.len(), 2);
    assert_eq!(ledger.posts[0].publisher_results[1].publisher_id, "q");
    assert!(!ledger.posts[0].publisher_results[1].success);
    assert_eq!(ledger.posts[0].publisher_results[1].message, "bad");
    // dated after 2020
    assert!(ledger.posts[0].published_at.secs > 1_577_836_800);
    assert!(ledger.is_published(&item));
}

#[test]
fn records_are_built_step_by_step() {
    let item = post("a", "feed");
    let mut record = PublishedPost::new_at(&item, Timestamp::new(9, 9));
    assert_eq!(record.post_guid, "a");
    assert_eq!(record.feed_id, "feed");
    assert!(record.publisher_results.is_empty());
    record.add_result_at("p".to_string(), true, "m".to_string(), Timestamp::new(10, 0));
    record.add_result("q".to_string(), false, "n".to_string());
    assert_eq!(record.publisher_results.len(), 2);
    assert_eq!(record.publisher_results[0].published_at, Timestamp::new(10, 0));
    assert_eq!(record.publisher_results[1].message, "n");
    let fresh = PublishedPost::new(&item);
    assert_eq!(fresh.post_guid, "a");
}

#[test]
fn counts_by_feed() {
    let mut ledger = PublishedPostsStorage::new();
    ledger.mark_published_at(&post("a", "one"), vec![], Timestamp::new(1, 0));
    ledger.mark_published_at(&post("b", "two"), vec![], Timestamp::new(2, 0));
    ledger.mark_published_at(&post("c", "one"), vec![], Timestamp::new(3, 0));
    assert_eq!(ledger.get_published_count("one"), 2);
    assert_eq!(ledger.get_published_count("two"), 1);
    assert_eq!(ledger.get_published_count("three"), 0);
}

#[test]
fn cleanup_drops_old_records_and_keeps_order() {
    let day: i64 = 86_400;
    let now = Timestamp::new(1_700_000_000, 0);
    let mut ledger = PublishedPostsStorage::new();
    ledger.mark_published_at(&post("old", "f"), vec![], Timestamp::new(1_700_000_000 - 31 * day, 0));
    ledger.mark_published_at(&post("edge", "f"), vec![], Timestamp::new(1_700_000_000 - 30 * day, 0));
    ledger.mark_published_at(&post("new", "f"), vec![], Timestamp::new(1_700_000_000 - 29 * day, 0));
    ledger.mark_published_at(&post("older", "f"), vec![], Timestamp::new(1_700_000_000 - 90 * day, 0));
    ledger.mark_published_at(&post("newest", "f"), vec![], Timestamp::new(1_700_000_000 - 1, 0));
    ledger.cleanup_older_than(30, now);
    let kept: Vec<&str> = ledger.posts.iter().map(|r| r.post_guid.as_str()).collect();
    assert_eq!(kept, vec!["new", "newest"]);
}

#[test]
fn cleanup_by_the_clock() {
    let mut ledger = PublishedPostsStorage::new();
    ledger.mark_published_at(&post("ancient", "f"), vec![], Timestamp::new(0, 0));
    ledger.mark_published(&post("now", "f"), vec![]);
    ledger.cleanup_old_posts(30);
    let kept: Vec<&str> = ledger.posts.iter().map(|r| r.post_guid.as_str()).collect();
    assert_eq!(kept, vec!["now"]);
}

#[test]
fn summary_counts() {
    let mut summary = SweepSummary::new();
    summary.found(2);
    summary.found(3);
    summary.settled(true);
    summary.settled(false);
    summary.settled(true);
    assert_eq!(summary, SweepSummary { new_items_found: 5, items_published: 2 });
    summary.found(usize::MAX);
    assert_eq!(summary.new_items_found, usize::MAX);
}

#[test]
fn what_a_check_gave_decides_what_is_done() {
    let ids = vec!["one".to_string()];
    let none: Vec<String> = vec![];
    let found = Ok(vec![post("a", "f")]);
    assert_eq!(plan_feed(&Err(FetchError::Unparseable), Some(&ids[..])), FeedPlan::Failed);
    assert_eq!(plan_feed(&Err(FetchError::HttpStatus(500)), None), FeedPlan::Failed);
    assert_eq!(plan_feed(&Ok(vec![]), Some(&ids[..])), FeedPlan::NothingNew);
    assert_eq!(plan_feed(&Ok(vec![]), None), FeedPlan::NothingNew);
    assert_eq!(plan_feed(&found, None), FeedPlan::UnknownFeed);
    assert_eq!(plan_feed(&found, Some(&none[..])), FeedPlan::NoDestinations);
    assert_eq!(plan_feed(&found, Some(&ids[..])), FeedPlan::Publish);
}
