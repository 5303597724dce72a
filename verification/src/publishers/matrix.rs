//! Matrix.

use vstd::prelude::*;
use crate::oauth::PublishError;
use crate::post::{Post, PostText};
use crate::publishers::{
    confirm_shown, description_of, is_verdict, post_rendering, prepared_text, render_post,
    shown_confirmation, verdict, Publisher,
};
use crate::template::{TemplateFault, TemplateRenderer};
use crate::text::join;

verus! {

pub struct MatrixPublisher {
    pub id: String,
    pub homeserver_url: String,
    pub access_token: String,
    pub room_id: String,
    pub template: String,
    pub renderer: TemplateRenderer,
}

/// The message as plain text: title, description and link, an empty line
/// between each two.
pub open spec fn plain_text(post: PostText) -> Seq<char> {
    post.title + "\n\n"@ + description_of(post) + "\n\n"@ + post.link
}

impl MatrixPublisher {
    pub fn new(
        id: String,
        homeserver_url: String,
        access_token: String,
        room_id: String,
        template: String,
    ) -> (publisher: Self)
        ensures
            publisher.id == id,
            publisher.homeserver_url == homeserver_url,
            publisher.access_token == access_token,
            publisher.room_id == room_id,
            publisher.template == template,
    {
        MatrixPublisher { id, homeserver_url, access_token, room_id, template, renderer: TemplateRenderer::new() }
    }

    /// The formatted message.
    pub fn prepare(&self, post: &Post) -> (text: Result<String, PublishError>)
        ensures
            prepared_text(text) == match post_rendering(self.template@, post@) {
                Ok(t) => Ok::<Seq<char>, Option<TemplateFault>>(t),
                Err(fault) => Err(Some(fault)),
            },
    {
        render_post(&self.renderer, self.template.as_str(), post)
    }

    /// The message as plain text.
    pub fn plain_body(post: &Post) -> (text: String)
        ensures
            text@ == plain_text(post@),
    {
        let a = join(post.title.as_str(), "\n\n");
        let b = match &post.description {
            Some(d) => join(a.as_str(), d.as_str()),
            None => {
                assert(a@ + Seq::<char>::empty() =~= a@);
                a
            },
        };
        let c = join(b.as_str(), "\n\n");
        join(c.as_str(), post.link.as_str())
    }

    /// Reads the server's answer.
    pub fn confirm(status: u16, body: &str) -> (result: Result<String, PublishError>)
        ensures
            is_verdict(
                result,
                verdict(status, shown_confirmation("Published to Matrix: "@, body@, "/event_id"@)),
                status,
                body@,
            ),
    {
        confirm_shown("Published to Matrix: ", status, body, "/event_id")
    }
}

impl Publisher for MatrixPublisher {
    open spec fn kind_text(&self) -> Seq<char> {
        "matrix"@
    }

    open spec fn id_text(&self) -> Seq<char> {
        self.id@
    }

    fn get_type(&self) -> (name: &'static str) {
        "matrix"
    }

    fn get_id(&self) -> (id: &str) {
        self.id.as_str()
    }
}

} // verus!
