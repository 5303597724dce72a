//! OpenObserve.

use vstd::prelude::*;
use crate::feed::{is_success, status_is_success};
use crate::oauth::PublishError;
use crate::post::Post;
use crate::publishers::{post_rendering, prepared_text, render_post, Publisher};
use crate::template::{TemplateFault, TemplateRenderer};
use crate::text::join;

verus! {

pub struct OpenObservePublisher {
    pub id: String,
    pub url: String,
    pub organization: String,
    pub stream_name: String,
    pub access_token: String,
    pub template: String,
    pub renderer: TemplateRenderer,
}

impl OpenObservePublisher {
    pub fn new(
        id: String,
        url: String,
        organization: String,
        stream_name: String,
        access_token: String,
        template: String,
    ) -> (publisher: Self)
        ensures
            publisher.id == id,
            publisher.url == url,
            publisher.organization == organization,
            publisher.stream_name == stream_name,
            publisher.access_token == access_token,
            publisher.template == template,
    {
        OpenObservePublisher {
            id,
            url,
            organization,
            stream_name,
            access_token,
            template,
            renderer: TemplateRenderer::new(),
        }
    }

    /// The formatted message of the log entry.
    pub fn prepare(&self, post: &Post) -> (text: Result<String, PublishError>)
        ensures
            prepared_text(text) == match post_rendering(self.template@, post@) {
                Ok(t) => Ok::<Seq<char>, Option<TemplateFault>>(t),
                Err(fault) => Err(Some(fault)),
            },
    {
        render_post(&self.renderer, self.template.as_str(), post)
    }

    /// Reads the service's answer: an accepted entry is confirmed under the
    /// post's guid.
    pub fn confirm(status: u16, body: &str, post: &Post) -> (result: Result<String, PublishError>)
        ensures
            is_success(status) ==> (result matches Ok(text) && text@ == "Published to OpenObserve: "@
                + post.guid@),
            !is_success(status) ==> (result matches Err(PublishError::Rejected { status: s, body: b })
                && s == status && b@ == body@),
    {
        if status_is_success(status) {
            Ok(join("Published to OpenObserve: ", post.guid.as_str()))
        } else {
            Err(PublishError::Rejected { status, body: body.to_owned() })
        }
    }
}

impl Publisher for OpenObservePublisher {
    open spec fn kind_text(&self) -> Seq<char> {
        "openobserve"@
    }

    open spec fn id_text(&self) -> Seq<char> {
        self.id@
    }

    fn get_type(&self) -> (name: &'static str) {
        "openobserve"
    }

    fn get_id(&self) -> (id: &str) {
        self.id.as_str()
    }
}

} // verus!
