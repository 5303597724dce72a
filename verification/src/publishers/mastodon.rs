//! Mastodon.

use vstd::prelude::*;
use crate::oauth::PublishError;
use crate::post::Post;
use crate::publishers::{
    confirm_shown, is_verdict, post_rendering, prepared_text, render_post, shown_confirmation, verdict,
    Publisher,
};
use crate::template::{TemplateFault, TemplateRenderer};

verus! {

pub struct MastodonPublisher {
    pub id: String,
    pub server_url: String,
    pub access_token: String,
    pub template: String,
    pub renderer: TemplateRenderer,
}

impl MastodonPublisher {
    pub fn new(id: String, server_url: String, access_token: String, template: String) -> (publisher: Self)
        ensures
            publisher.id == id,
            publisher.server_url == server_url,
            publisher.access_token == access_token,
            publisher.template == template,
    {
        MastodonPublisher { id, server_url, access_token, template, renderer: TemplateRenderer::new() }
    }

    /// The status to post.
    pub fn prepare(&self, post: &Post) -> (text: Result<String, PublishError>)
        ensures
            prepared_text(text) == match post_rendering(self.template@, post@) {
                Ok(t) => Ok::<Seq<char>, Option<TemplateFault>>(t),
                Err(fault) => Err(Some(fault)),
            },
    {
        render_post(&self.renderer, self.template.as_str(), post)
    }

    /// Reads the server's answer.
    pub fn confirm(status: u16, body: &str) -> (result: Result<String, PublishError>)
        ensures
            is_verdict(
                result,
                verdict(status, shown_confirmation("Published to Mastodon: "@, body@, "/id"@)),
                status,
                body@,
            ),
    {
        confirm_shown("Published to Mastodon: ", status, body, "/id")
    }
}

impl Publisher for MastodonPublisher {
    open spec fn kind_text(&self) -> Seq<char> {
        "mastodon"@
    }

    open spec fn id_text(&self) -> Seq<char> {
        self.id@
    }

    fn get_type(&self) -> (name: &'static str) {
        "mastodon"
    }

    fn get_id(&self) -> (id: &str) {
        self.id.as_str()
    }
}

} // verus!
