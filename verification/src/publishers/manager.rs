//! The destinations of an installation, by id.

use vstd::prelude::*;
use crate::assoc::{assoc_find, assoc_map};
use crate::config::PublisherConfig;
use crate::oauth::PublishError;
use crate::publishers::bluesky::BlueskyPublisher;
use crate::publishers::linkedin::LinkedInPublisher;
use crate::publishers::mastodon::MastodonPublisher;
use crate::publishers::matrix::MatrixPublisher;
use crate::publishers::openobserve::OpenObservePublisher;
use crate::publishers::telegram::TelegramPublisher;
use crate::publishers::threads::ThreadsPublisher;
use crate::publishers::x::XPublisher;
use crate::publishers::Publisher;
use crate::template::TemplateRenderer;
use crate::text::copy_opt;

verus! {

/// A destination of any kind.
pub enum AnyPublisher {
    Telegram(TelegramPublisher),
    X(XPublisher),
    Mastodon(MastodonPublisher),
    LinkedIn(LinkedInPublisher),
    OpenObserve(OpenObservePublisher),
    Matrix(MatrixPublisher),
    Bluesky(BlueskyPublisher),
    Threads(ThreadsPublisher),
}

impl AnyPublisher {
    /// The template that the destination renders posts with.
    pub open spec fn template_text(&self) -> Seq<char> {
        match self {
            AnyPublisher::Telegram(p) => p.template@,
            AnyPublisher::X(p) => p.template@,
            AnyPublisher::Mastodon(p) => p.template@,
            AnyPublisher::LinkedIn(p) => p.template@,
            AnyPublisher::OpenObserve(p) => p.template@,
            AnyPublisher::Matrix(p) => p.template@,
            AnyPublisher::Bluesky(p) => p.template@,
            AnyPublisher::Threads(p) => p.template@,
        }
    }
}

impl Publisher for AnyPublisher {
    open spec fn kind_text(&self) -> Seq<char> {
        match self {
            AnyPublisher::Telegram(p) => p.kind_text(),
            AnyPublisher::X(p) => p.kind_text(),
            AnyPublisher::Mastodon(p) => p.kind_text(),
            AnyPublisher::LinkedIn(p) => p.kind_text(),
            AnyPublisher::OpenObserve(p) => p.kind_text(),
            AnyPublisher::Matrix(p) => p.kind_text(),
            AnyPublisher::Bluesky(p) => p.kind_text(),
            AnyPublisher::Threads(p) => p.kind_text(),
        }
    }

    open spec fn id_text(&self) -> Seq<char> {
        match self {
            AnyPublisher::Telegram(p) => p.id_text(),
            AnyPublisher::X(p) => p.id_text(),
            AnyPublisher::Mastodon(p) => p.id_text(),
            AnyPublisher::LinkedIn(p) => p.id_text(),
            AnyPublisher::OpenObserve(p) => p.id_text(),
            AnyPublisher::Matrix(p) => p.id_text(),
            AnyPublisher::Bluesky(p) => p.id_text(),
            AnyPublisher::Threads(p) => p.id_text(),
        }
    }

    fn get_type(&self) -> (name: &'static str) {
        match self {
            AnyPublisher::Telegram(p) => p.get_type(),
            AnyPublisher::X(p) => p.get_type(),
            AnyPublisher::Mastodon(p) => p.get_type(),
            AnyPublisher::LinkedIn(p) => p.get_type(),
            AnyPublisher::OpenObserve(p) => p.get_type(),
            AnyPublisher::Matrix(p) => p.get_type(),
            AnyPublisher::Bluesky(p) => p.get_type(),
            AnyPublisher::Threads(p) => p.get_type(),
        }
    }

    fn get_id(&self) -> (id: &str) {
        match self {
            AnyPublisher::Telegram(p) => p.get_id(),
            AnyPublisher::X(p) => p.get_id(),
            AnyPublisher::Mastodon(p) => p.get_id(),
            AnyPublisher::LinkedIn(p) => p.get_id(),
            AnyPublisher::OpenObserve(p) => p.get_id(),
            AnyPublisher::Matrix(p) => p.get_id(),
            AnyPublisher::Bluesky(p) => p.get_id(),
            AnyPublisher::Threads(p) => p.get_id(),
        }
    }
}

/// The kind of destination that a configuration describes, under the name
/// that its default template goes by.
pub open spec fn kind_of(config: &PublisherConfig) -> Seq<char> {
    match config {
        PublisherConfig::Telegram { .. } => "telegram"@,
        PublisherConfig::X { .. } => "x"@,
        PublisherConfig::Mastodon { .. } => "mastodon"@,
        PublisherConfig::LinkedIn { .. } => "linkedin"@,
        PublisherConfig::OpenObserve { .. } => "openobserve"@,
        PublisherConfig::Matrix { .. } => "matrix"@,
        PublisherConfig::Bluesky { .. } => "bluesky"@,
        PublisherConfig::Threads { .. } => "threads"@,
        PublisherConfig::Discord { .. } => "discord"@,
    }
}

/// The template that a configuration names.
pub open spec fn configured_template(config: &PublisherConfig) -> Option<String> {
    match config {
        PublisherConfig::Telegram { template, .. } => *template,
        PublisherConfig::X { template, .. } => *template,
        PublisherConfig::Mastodon { template, .. } => *template,
        PublisherConfig::LinkedIn { template, .. } => *template,
        PublisherConfig::OpenObserve { template, .. } => *template,
        PublisherConfig::Matrix { template, .. } => *template,
        PublisherConfig::Bluesky { template, .. } => *template,
        PublisherConfig::Threads { template, .. } => *template,
        PublisherConfig::Discord { template, .. } => *template,
    }
}

/// The template that a destination uses: the configured one, else the
/// default of its kind.
pub open spec fn chosen_template(config: &PublisherConfig) -> Seq<char> {
    match configured_template(config) {
        Some(template) => template@,
        None => TemplateRenderer::default_template(kind_of(config)),
    }
}

/// The configured text, `default` where none is configured.
pub open spec fn or_default(configured: Option<String>, default: Seq<char>) -> Seq<char> {
    match configured {
        Some(text) => text@,
        None => default,
    }
}

/// `publisher` is the destination that `config` describes under `id`.
pub open spec fn describes(
    publisher: &AnyPublisher,
    id: String,
    config: &PublisherConfig,
    config_path: Option<String>,
) -> bool {
    &&& publisher.id_text() == id@
    &&& publisher.kind_text() == kind_of(config)
    &&& publisher.template_text() == chosen_template(config)
    &&& match (publisher, config) {
        (
            AnyPublisher::Telegram(p),
            PublisherConfig::Telegram { bot_token, chat_id, parse_mode, message_thread_id, .. },
        ) => p.bot_token == *bot_token && p.chat_id == *chat_id && p.parse_mode == *parse_mode
            && p.message_thread_id == *message_thread_id,
        (
            AnyPublisher::X(p),
            PublisherConfig::X { client_id, client_secret, access_token, refresh_token, redirect_uri, .. },
        ) => p.client_id == *client_id && p.client_secret == *client_secret && p.credential.access_token
            == *access_token && p.credential.refresh_token == *refresh_token && p.config_file_path
            == config_path && p.redirect_uri@ == or_default(*redirect_uri, crate::publishers::x::default_redirect()),
        (AnyPublisher::Mastodon(p), PublisherConfig::Mastodon { server_url, access_token, .. }) => p.server_url
            == *server_url && p.access_token == *access_token,
        (
            AnyPublisher::LinkedIn(p),
            PublisherConfig::LinkedIn {
                client_id,
                client_secret,
                access_token,
                refresh_token,
                user_id,
                redirect_uri,
                ..
            },
        ) => p.client_id == *client_id && p.client_secret == *client_secret && p.credential.access_token
            == *access_token && p.credential.refresh_token == *refresh_token && p.user_id == *user_id
            && p.config_file_path == config_path && p.redirect_uri@ == or_default(
            *redirect_uri,
            crate::publishers::linkedin::default_redirect(),
        ),
        (
            AnyPublisher::OpenObserve(p),
            PublisherConfig::OpenObserve { url, organization, stream_name, access_token, .. },
        ) => p.url == *url && p.organization == *organization && p.stream_name == *stream_name
            && p.access_token == *access_token,
        (
            AnyPublisher::Matrix(p),
            PublisherConfig::Matrix { homeserver_url, access_token, room_id, .. },
        ) => p.homeserver_url == *homeserver_url && p.access_token == *access_token && p.room_id
            == *room_id,
        (AnyPublisher::Bluesky(p), PublisherConfig::Bluesky { handle, password, pds_url, .. }) => p.handle
            == *handle && p.password == *password && p.pds_url@ == or_default(
            *pds_url,
            crate::publishers::bluesky::default_server(),
        ),
        (AnyPublisher::Threads(p), PublisherConfig::Threads { access_token, user_id, .. }) => p.access_token
            == *access_token && p.user_id == *user_id,
        _ => false,
    }
}

fn template_for(template: &Option<String>, kind: &str) -> (chosen: String)
    ensures
        chosen@ == match *template {
            Some(t) => t@,
            None => TemplateRenderer::default_template(kind@),
        },
{
    match template {
        Some(t) => t.clone(),
        None => TemplateRenderer::get_default_template(kind),
    }
}

/// Makes the destination that `config` describes under `id`, with no
/// place to store new tokens.
pub fn create_publisher(id: String, config: &PublisherConfig) -> (publisher: Result<AnyPublisher, PublishError>)
    ensures
        publisher is Err <==> config is Discord,
        publisher matches Err(error) ==> error is Unsupported,
        publisher matches Ok(made) ==> describes(&made, id, config, None),
{
    create_publisher_with_config_path(id, config, None)
}

/// Makes the destination that `config` describes under `id`; new tokens of
/// the destination are stored in the configuration at `config_path`.  A
/// Discord destination cannot be made.
pub fn create_publisher_with_config_path(
    id: String,
    config: &PublisherConfig,
    config_path: Option<String>,
) -> (publisher: Result<AnyPublisher, PublishError>)
    ensures
        publisher is Err <==> config is Discord,
        publisher matches Err(error) ==> error is Unsupported,
        publisher matches Ok(made) ==> describes(&made, id, config, config_path),
{
    match config {
        PublisherConfig::Telegram { bot_token, chat_id, parse_mode, message_thread_id, template } => Ok(
            AnyPublisher::Telegram(
                TelegramPublisher::new(
                    id,
                    bot_token.clone(),
                    chat_id.clone(),
                    copy_opt(parse_mode),
                    copy_opt(message_thread_id),
                    template_for(template, "telegram"),
                ),
            ),
        ),
        PublisherConfig::X { client_id, client_secret, access_token, refresh_token, redirect_uri, template } => Ok(
            AnyPublisher::X(
                XPublisher::new(
                    id,
                    client_id.clone(),
                    client_secret.clone(),
                    copy_opt(access_token),
                    copy_opt(refresh_token),
                    copy_opt(redirect_uri),
                    template_for(template, "x"),
                    config_path,
                ),
            ),
        ),
        PublisherConfig::Mastodon { server_url, access_token, template } => Ok(
            AnyPublisher::Mastodon(
                MastodonPublisher::new(
                    id,
                    server_url.clone(),
                    access_token.clone(),
                    template_for(template, "mastodon"),
                ),
            ),
        ),
        PublisherConfig::LinkedIn {
            client_id,
            client_secret,
            access_token,
            refresh_token,
            user_id,
            redirect_uri,
            template,
        } => Ok(
            AnyPublisher::LinkedIn(
                LinkedInPublisher::new(
                    id,
                    client_id.clone(),
                    client_secret.clone(),
                    copy_opt(access_token),
                    copy_opt(refresh_token),
                    copy_opt(user_id),
                    copy_opt(redirect_uri),
                    template_for(template, "linkedin"),
                    config_path,
                ),
            ),
        ),
        PublisherConfig::OpenObserve { url, organization, stream_name, access_token, template } => Ok(
            AnyPublisher::OpenObserve(
                OpenObservePublisher::new(
                    id,
                    url.clone(),
                    organization.clone(),
                    stream_name.clone(),
                    access_token.clone(),
                    template_for(template, "openobserve"),
                ),
            ),
        ),
        PublisherConfig::Matrix { homeserver_url, access_token, room_id, template } => Ok(
            AnyPublisher::Matrix(
                MatrixPublisher::new(
                    id,
                    homeserver_url.clone(),
                    access_token.clone(),
                    room_id.clone(),
                    template_for(template, "matrix"),
                ),
            ),
        ),
        PublisherConfig::Bluesky { handle, password, pds_url, template } => Ok(
            AnyPublisher::Bluesky(
                BlueskyPublisher::new(
                    id,
                    handle.clone(),
                    password.clone(),
                    copy_opt(pds_url),
                    template_for(template, "bluesky"),
                ),
            ),
        ),
        PublisherConfig::Threads { access_token, user_id, template } => Ok(
            AnyPublisher::Threads(
                ThreadsPublisher::new(
                    id,
                    access_token.clone(),
                    user_id.clone(),
                    template_for(template, "threads"),
                ),
            ),
        ),
        PublisherConfig::Discord { .. } => Err(PublishError::Unsupported),
    }
}

/// The destinations by id.  Where an id was added more than once, the
/// destination added last counts.
pub struct PublisherManager {
    pub publishers: Vec<(String, AnyPublisher)>,
    pub config_path: Option<String>,
}

impl View for PublisherManager {
    type V = Map<Seq<char>, AnyPublisher>;

    open spec fn view(&self) -> Map<Seq<char>, AnyPublisher> {
        assoc_map(self.publishers@)
    }
}

impl PublisherManager {
    /// No destinations, and no place to store new tokens.
    pub fn new() -> (manager: PublisherManager)
        ensures
            manager@ == Map::<Seq<char>, AnyPublisher>::empty(),
            manager.config_path is None,
    {
        PublisherManager { publishers: Vec::new(), config_path: None }
    }

    /// No destinations; new tokens are stored in the configuration at
    /// `config_path`.
    pub fn new_with_config_path(config_path: String) -> (manager: PublisherManager)
        ensures
            manager@ == Map::<Seq<char>, AnyPublisher>::empty(),
            manager.config_path == Some(config_path),
    {
        PublisherManager { publishers: Vec::new(), config_path: Some(config_path) }
    }

    /// Makes the destination that `config` describes and keeps it under
    /// `id`.  Where it cannot be made, nothing changes.
    pub fn add_publisher(&mut self, id: String, config: &PublisherConfig) -> (added: Result<(), PublishError>)
        ensures
            final(self).config_path == old(self).config_path,
            added is Err <==> config is Discord,
            added is Err ==> final(self)@ == old(self)@,
            added is Ok ==> final(self)@.dom() == old(self)@.dom().insert(id@) && describes(
                &final(self)@[id@],
                id,
                config,
                old(self).config_path,
            ) && forall|other: Seq<char>|
                other != id@ && old(self)@.dom().contains(other) ==> #[trigger] final(self)@[other] == old(
                    self,
                )@[other],
    {
        match create_publisher_with_config_path(id.clone(), config, copy_opt(&self.config_path)) {
            Ok(publisher) => {
                self.publishers.push((id, publisher));
                assert(self.publishers@.drop_last() == old(self).publishers@);
                Ok(())
            },
            Err(error) => Err(error),
        }
    }

    /// The destination kept under `id`; a failure that says so where
    /// there is none.
    pub fn lookup(&self, id: &str) -> (found: Result<&AnyPublisher, PublishError>)
        ensures
            found is Ok <==> self@.dom().contains(id@),
            found matches Ok(publisher) ==> *publisher == self@[id@],
            found matches Err(error) ==> (error matches PublishError::NotFound(missing) && missing@ == id@),
    {
        match assoc_find(&self.publishers, id) {
            Some(at) => Ok(&self.publishers[at].1),
            None => Err(PublishError::NotFound(id.to_owned())),
        }
    }

    /// Plans the fan-out of a post: for each of the destinations named, in
    /// their order, the position of the destination among those kept, or the
    /// failure that says that there is none.  A destination that is missing
    /// leaves the places of the others as they are.
    pub fn publish_to_all(&self, publisher_ids: &Vec<String>) -> (places: Vec<Result<usize, PublishError>>)
        ensures
            places@.len() == publisher_ids@.len(),
            forall|i: int|
                0 <= i < places@.len() ==> match #[trigger] places@[i] {
                    Ok(at) => at < self.publishers@.len() && self@.dom().contains(publisher_ids@[i]@)
                        && self.publishers@[at as int].1 == self@[publisher_ids@[i]@],
                    Err(error) => !self@.dom().contains(publisher_ids@[i]@) && (
                    error matches PublishError::NotFound(missing) && missing@ == publisher_ids@[i]@),
                },
    {
        let mut places: Vec<Result<usize, PublishError>> = Vec::new();
        let mut i: usize = 0;
        while i < publisher_ids.len()
            invariant
                i <= publisher_ids@.len(),
                places@.len() == i,
                forall|k: int|
                    0 <= k < i ==> match #[trigger] places@[k] {
                        Ok(at) => at < self.publishers@.len() && self@.dom().contains(publisher_ids@[k]@)
                            && self.publishers@[at as int].1 == self@[publisher_ids@[k]@],
                        Err(error) => !self@.dom().contains(publisher_ids@[k]@) && (
                        error matches PublishError::NotFound(missing) && missing@ == publisher_ids@[k]@),
                    },
            decreases publisher_ids@.len() - i,
        {
            let place = match assoc_find(&self.publishers, publisher_ids[i].as_str()) {
                Some(at) => Ok(at),
                None => Err(PublishError::NotFound(publisher_ids[i].clone())),
            };
            places.push(place);
            i += 1;
        }
        places
    }

    /// The destination kept under `id`.
    pub fn get_publisher(&self, id: &str) -> (found: Option<&AnyPublisher>)
        ensures
            found is Some <==> self@.dom().contains(id@),
            found matches Some(publisher) ==> *publisher == self@[id@],
    {
        match assoc_find(&self.publishers, id) {
            Some(at) => Some(&self.publishers[at].1),
            None => None,
        }
    }

    /// The destination kept under `id`, to be changed in place.
    pub fn get_publisher_mut(&mut self, id: &str) -> (found: Option<&mut AnyPublisher>)
        ensures
            found is Some <==> old(self)@.dom().contains(id@),
            found matches Some(publisher) ==> *publisher == old(self)@[id@],
            found is None ==> *final(self) == *old(self),
    {
        match assoc_find(&self.publishers, id) {
            Some(at) => Some(&mut self.publishers[at].1),
            None => None,
        }
    }

    /// Id and kind of every destination that was added, in the order in
    /// which they were added.
    pub fn list_publishers(&self) -> (list: Vec<(&str, &str)>)
        ensures
            list@.len() == self.publishers@.len(),
            forall|i: int|
                0 <= i < list@.len() ==> (#[trigger] list@[i]).0@ == self.publishers@[i].0@ && list@[i].1@
                    == self.publishers@[i].1.kind_text(),
    {
        let mut list: Vec<(&str, &str)> = Vec::new();
        let mut i: usize = 0;
        while i < self.publishers.len()
            invariant
                i <= self.publishers@.len(),
                list@.len() == i,
                forall|k: int|
                    0 <= k < i ==> (#[trigger] list@[k]).0@ == self.publishers@[k].0@ && list@[k].1@
                        == self.publishers@[k].1.kind_text(),
            decreases self.publishers@.len() - i,
        {
            let entry = &self.publishers[i];
            list.push((entry.0.as_str(), entry.1.get_type()));
            i += 1;
        }
        list
    }
}

} // verus!
