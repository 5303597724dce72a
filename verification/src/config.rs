//! Configuration of feeds, destinations, schedule and storage.

use vstd::prelude::*;
use crate::assoc::{assoc_find, assoc_map};
use crate::text::{join, same_text};

verus! {

/// The whole configuration of one installation.
#[derive(Debug, Clone)]
pub struct AppConfig {
    pub feeds: Vec<FeedConfig>,
    /// Destinations by id, in the order in which they were declared.
    pub publishers: Vec<(String, PublisherConfig)>,
    pub youtube: Option<YouTubeGlobalConfig>,
    pub schedule: ScheduleConfig,
    pub storage: StorageConfig,
}

/// Settings shared by every video-channel feed.
#[derive(Debug, Clone)]
pub struct YouTubeGlobalConfig {
    pub api_key: String,
    pub default_max_results: Option<u64>,
}

/// One feed to poll.
#[derive(Debug, Clone)]
pub struct FeedConfig {
    pub id: String,
    /// `"Rss"` or `"Youtube"`.
    pub feed_type: String,
    pub config: FeedTypeConfig,
    pub name: String,
    pub enabled: bool,
    /// Ids of the destinations that receive this feed's items.
    pub publishers: Vec<String>,
    pub check_interval_minutes: Option<u64>,
    pub max_retries: Option<u32>,
    pub retry_delay_seconds: Option<u64>,
}

/// What a feed needs to know about its source.
#[derive(Debug, Clone)]
pub enum FeedTypeConfig {
    Rss { url: String },
    Youtube {
        channel_id: Option<String>,
        playlist_id: Option<String>,
        username: Option<String>,
        max_results: Option<u64>,
    },
}

/// One destination.
#[derive(Debug, Clone)]
pub enum PublisherConfig {
    Telegram {
        bot_token: String,
        chat_id: String,
        parse_mode: Option<String>,
        message_thread_id: Option<String>,
        template: Option<String>,
    },
    X {
        client_id: String,
        client_secret: String,
        access_token: Option<String>,
        refresh_token: Option<String>,
        redirect_uri: Option<String>,
        template: Option<String>,
    },
    Mastodon { server_url: String, access_token: String, template: Option<String> },
    LinkedIn {
        client_id: String,
        client_secret: String,
        access_token: Option<String>,
        refresh_token: Option<String>,
        user_id: Option<String>,
        redirect_uri: Option<String>,
        template: Option<String>,
    },
    OpenObserve {
        url: String,
        organization: String,
        stream_name: String,
        access_token: String,
        template: Option<String>,
    },
    Matrix { homeserver_url: String, access_token: String, room_id: String, template: Option<String> },
    Bluesky { handle: String, password: String, pds_url: Option<String>, template: Option<String> },
    Threads { access_token: String, user_id: String, template: Option<String> },
    Discord { webhook_url: String, template: Option<String> },
}

/// How often feeds are polled when they name no interval of their own.
#[derive(Debug, Clone)]
pub struct ScheduleConfig {
    pub default_interval_minutes: u64,
    pub timezone: String,
}

/// Where state is kept between runs.
#[derive(Debug, Clone)]
pub struct StorageConfig {
    pub data_dir: String,
    pub published_posts_file: String,
}

impl Default for AppConfig {
    fn default() -> (config: AppConfig)
        ensures
            config.feeds@.len() == 0,
            config.publishers@.len() == 0,
            config.youtube is None,
            config.schedule.default_interval_minutes == 60,
            config.schedule.timezone@ == "UTC"@,
            config.storage.data_dir@ == "./data"@,
            config.storage.published_posts_file@ == "published_posts.json"@,
    {
        AppConfig {
            feeds: Vec::new(),
            publishers: Vec::new(),
            youtube: None,
            schedule: ScheduleConfig {
                default_interval_minutes: 60,
                timezone: "UTC".to_owned(),
            },
            storage: StorageConfig {
                data_dir: "./data".to_owned(),
                published_posts_file: "published_posts.json".to_owned(),
            },
        }
    }
}

/// Why a configuration is refused.
#[derive(Debug, Clone)]
pub enum ConfigError {
    /// No feed is configured.
    NoFeeds,
    /// No destination is configured.
    NoPublishers,
    /// A feed names a destination that is not configured.
    UnknownPublisher { feed_id: String, publisher_id: String },
}

/// What a fault of the configuration is called.
pub open spec fn config_error_text(error: ConfigError) -> Seq<char> {
    match error {
        ConfigError::NoFeeds => "No feeds configured"@,
        ConfigError::NoPublishers => "No publishers configured"@,
        ConfigError::UnknownPublisher { feed_id, publisher_id } => "Feed '"@ + feed_id@
            + "' references non-existent publisher '"@ + publisher_id@ + "'"@,
    }
}

impl ConfigError {
    /// What the fault is called.
    pub fn describe(&self) -> (text: String)
        ensures
            text@ == config_error_text(*self),
    {
        match self {
            ConfigError::NoFeeds => "No feeds configured".to_owned(),
            ConfigError::NoPublishers => "No publishers configured".to_owned(),
            ConfigError::UnknownPublisher { feed_id, publisher_id } => {
                let a = join("Feed '", feed_id.as_str());
                let b = join(a.as_str(), "' references non-existent publisher '");
                let c = join(b.as_str(), publisher_id.as_str());
                join(c.as_str(), "'")
            },
        }
    }
}

/// Some destination of `table` has the id `id`.
pub open spec fn has_publisher(table: Seq<(String, PublisherConfig)>, id: Seq<char>) -> bool {
    exists|i: int| 0 <= i < table.len() && (#[trigger] table[i]).0@ == id
}

impl AppConfig {
    /// Destination number `p` of feed number `f` is not configured.
    pub open spec fn dangling(&self, f: int, p: int) -> bool {
        &&& 0 <= f < self.feeds@.len()
        &&& 0 <= p < self.feeds@[f].publishers@.len()
        &&& !has_publisher(self.publishers@, self.feeds@[f].publishers@[p]@)
    }

    /// No reference of a feed before `(f, p)`, in reading order, dangles.
    pub open spec fn sound_before(&self, f: int, p: int) -> bool {
        forall|g: int, q: int| (g < f || (g == f && q < p)) ==> !#[trigger] self.dangling(g, q)
    }

    /// Every destination that a feed names is configured.
    pub open spec fn references_resolve(&self) -> bool {
        forall|f: int, p: int| !#[trigger] self.dangling(f, p)
    }

    /// Whether a destination with this id is configured.
    pub fn knows_publisher(&self, id: &str) -> (known: bool)
        ensures
            known == has_publisher(self.publishers@, id@),
    {
        let mut i: usize = 0;
        while i < self.publishers.len()
            invariant
                i <= self.publishers@.len(),
                forall|k: int| 0 <= k < i ==> (#[trigger] self.publishers@[k]).0@ != id@,
            decreases self.publishers@.len() - i,
        {
            if same_text(self.publishers[i].0.as_str(), id) {
                return true;
            }
            i += 1;
        }
        false
    }
}

/// The kinds of destination that keep tokens in the configuration.
#[derive(Debug, Clone, Copy, PartialEq, Eq, Structural)]
pub enum TokenOwner {
    X,
    LinkedIn,
}

/// A destination's configuration with new tokens, where the destination
/// is of the kind that owns them; else as it was.
pub open spec fn with_tokens(
    config: PublisherConfig,
    owner: TokenOwner,
    access: String,
    refresh: Option<String>,
) -> PublisherConfig {
    match (owner, config) {
        (
            TokenOwner::X,
            PublisherConfig::X { client_id, client_secret, access_token, refresh_token, redirect_uri, template },
        ) => PublisherConfig::X {
            client_id,
            client_secret,
            access_token: Some(access),
            refresh_token: refresh,
            redirect_uri,
            template,
        },
        (
            TokenOwner::LinkedIn,
            PublisherConfig::LinkedIn {
                client_id,
                client_secret,
                access_token,
                refresh_token,
                user_id,
                redirect_uri,
                template,
            },
        ) => PublisherConfig::LinkedIn {
            client_id,
            client_secret,
            access_token: Some(access),
            refresh_token: refresh,
            user_id,
            redirect_uri,
            template,
        },
        (_, other) => other,
    }
}

impl AppConfig {
    /// Writes new tokens into the configuration of destination
    /// `publisher_id`, where there is such a destination and it is of the
    /// kind that owns the tokens.  Of several destinations with the id,
    /// the last is meant.  Nothing else changes.
    pub fn store_tokens(
        &mut self,
        publisher_id: &str,
        owner: TokenOwner,
        access_token: String,
        refresh_token: Option<String>,
    )
        ensures
            final(self).feeds == old(self).feeds,
            final(self).youtube == old(self).youtube,
            final(self).schedule == old(self).schedule,
            final(self).storage == old(self).storage,
            final(self).publishers@.len() == old(self).publishers@.len(),
            forall|i: int|
                0 <= i < old(self).publishers@.len() ==> (#[trigger] final(self).publishers@[i]).0 == old(
                    self,
                ).publishers@[i].0,
            !assoc_map(old(self).publishers@).dom().contains(publisher_id@) ==> final(self).publishers@
                == old(self).publishers@,
            assoc_map(old(self).publishers@).dom().contains(publisher_id@) ==> assoc_map(
                final(self).publishers@,
            ) == assoc_map(old(self).publishers@).insert(
                publisher_id@,
                with_tokens(assoc_map(old(self).publishers@)[publisher_id@], owner, access_token, refresh_token),
            ),
    {
        match assoc_find(&self.publishers, publisher_id) {
            Some(at) => {
                let ghost before = self.publishers@;
                let entry = self.publishers.remove(at);
                let updated = match (owner, entry.1) {
                    (
                        TokenOwner::X,
                        PublisherConfig::X {
                            client_id,
                            client_secret,
                            access_token: _,
                            refresh_token: _,
                            redirect_uri,
                            template,
                        },
                    ) => PublisherConfig::X {
                        client_id,
                        client_secret,
                        access_token: Some(access_token),
                        refresh_token,
                        redirect_uri,
                        template,
                    },
                    (
                        TokenOwner::LinkedIn,
                        PublisherConfig::LinkedIn {
                            client_id,
                            client_secret,
                            access_token: _,
                            refresh_token: _,
                            user_id,
                            redirect_uri,
                            template,
                        },
                    ) => PublisherConfig::LinkedIn {
                        client_id,
                        client_secret,
                        access_token: Some(access_token),
                        refresh_token,
                        user_id,
                        redirect_uri,
                        template,
                    },
                    (_, other) => other,
                };
                self.publishers.insert(at, (entry.0, updated));
                proof {
                    assert(self.publishers@ =~= before.update(at as int, (before[at as int].0, updated)));
                    crate::assoc::lemma_assoc_update(before, at as int, updated);
                }
            },
            None => {},
        }
    }
}

/// Checks that a configuration can be run: it has a feed, it has a
/// destination, and every destination that a feed names exists.  The first
/// fault found, in that order and then in reading order of the feeds,
/// is reported.
pub fn validate_config(config: &AppConfig) -> (checked: Result<(), ConfigError>)
    ensures
        checked is Ok <==> config.feeds@.len() > 0 && config.publishers@.len() > 0
            && config.references_resolve(),
        config.feeds@.len() == 0 ==> checked == Err::<(), ConfigError>(ConfigError::NoFeeds),
        config.feeds@.len() > 0 && config.publishers@.len() == 0 ==> checked == Err::<
            (),
            ConfigError,
        >(ConfigError::NoPublishers),
        config.feeds@.len() > 0 && config.publishers@.len() > 0 && !config.references_resolve()
            ==> exists|f: int, p: int|
            {
                &&& #[trigger] config.dangling(f, p)
                &&& config.sound_before(f, p)
                &&& checked matches Err(ConfigError::UnknownPublisher { feed_id, publisher_id })
                &&& feed_id == config.feeds@[f].id
                &&& publisher_id == config.feeds@[f].publishers@[p]
            },
{
    if config.feeds.len() == 0 {
        return Err(ConfigError::NoFeeds);
    }
    if config.publishers.len() == 0 {
        return Err(ConfigError::NoPublishers);
    }
    let mut f: usize = 0;
    while f < config.feeds.len()
        invariant
            f <= config.feeds@.len(),
            config.publishers@.len() > 0,
            config.sound_before(f as int, 0),
        decreases config.feeds@.len() - f,
    {
        let feed = &config.feeds[f];
        let mut p: usize = 0;
        while p < feed.publishers.len()
            invariant
                f < config.feeds@.len(),
                config.publishers@.len() > 0,
                *feed == config.feeds@[f as int],
                p <= feed.publishers@.len(),
                config.sound_before(f as int, p as int),
            decreases feed.publishers@.len() - p,
        {
            if !config.knows_publisher(feed.publishers[p].as_str()) {
                assert(config.dangling(f as int, p as int));
                return Err(
                    ConfigError::UnknownPublisher {
                        feed_id: feed.id.clone(),
                        publisher_id: feed.publishers[p].clone(),
                    },
                );
            }
            assert(!config.dangling(f as int, p as int));
            p += 1;
        }
        assert forall|g: int, q: int| (g < f + 1 || (g == f + 1 && q < 0)) implies !#[trigger] config.dangling(g, q) by {
            if g == f && q >= p {
                assert(!config.dangling(g, q));
            }
        }
        f += 1;
    }
    assert forall|g: int, q: int| !#[trigger] config.dangling(g, q) by {
        if g < config.feeds@.len() {
            assert(g < f || (g == f && q < 0));
        }
    }
    Ok(())
}

/// The display name of a destination's kind.
pub open spec fn publisher_type_name(config: &PublisherConfig) -> Seq<char> {
    match config {
        PublisherConfig::Telegram { .. } => "Telegram"@,
        PublisherConfig::X { .. } => "X/Twitter"@,
        PublisherConfig::Mastodon { .. } => "Mastodon"@,
        PublisherConfig::LinkedIn { .. } => "LinkedIn"@,
        PublisherConfig::OpenObserve { .. } => "OpenObserve"@,
        PublisherConfig::Matrix { .. } => "Matrix"@,
        PublisherConfig::Bluesky { .. } => "Bluesky"@,
        PublisherConfig::Threads { .. } => "Threads"@,
        PublisherConfig::Discord { .. } => "Discord"@,
    }
}

/// The display name of a destination's kind.
pub fn get_publisher_type_name(config: &PublisherConfig) -> (name: &'static str)
    ensures
        name@ == publisher_type_name(config),
{
    match config {
        PublisherConfig::Telegram { .. } => "Telegram",
        PublisherConfig::X { .. } => "X/Twitter",
        PublisherConfig::Mastodon { .. } => "Mastodon",
        PublisherConfig::LinkedIn { .. } => "LinkedIn",
        PublisherConfig::OpenObserve { .. } => "OpenObserve",
        PublisherConfig::Matrix { .. } => "Matrix",
        PublisherConfig::Bluesky { .. } => "Bluesky",
        PublisherConfig::Threads { .. } => "Threads",
        PublisherConfig::Discord { .. } => "Discord",
    }
}

} // verus!
