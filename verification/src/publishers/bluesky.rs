//! Bluesky.

use vstd::prelude::*;
use crate::feed::{is_success, status_is_success};
use crate::json::{json_text, json_text_at};
use crate::oauth::PublishError;
use crate::post::Post;
use crate::publishers::{
    confirm_named, fitted_post, is_verdict, named_confirmation, prepared_text, render_to_fit, verdict,
    Publisher,
};
use crate::template::TemplateRenderer;

verus! {

/// The longest text that Bluesky takes, in bytes.
pub const MAX_TEXT_BYTES: usize = 300;

/// What is kept of a longer text, before the ellipsis.
pub const KEPT_TEXT_BYTES: usize = 297;

/// The server that is asked where none is configured.
pub open spec fn default_server() -> Seq<char> {
    "https://bsky.social"@
}

/// What a link looks like.
pub open spec fn link_pattern() -> Seq<char> {
    "https?://[^\\s]+"@
}

/// A link inside a text: the bytes at which it starts and ends, and the
/// link itself.
pub type LinkSpan = (usize, usize, String);

/// What the `regex` crate finds of a pattern in a text, from left to
/// right: for each match the bytes at which it starts and ends and the text
/// matched.  `None` where the pattern is not well formed.
pub uninterp spec fn regex_matches(pattern: Seq<char>, text: Seq<char>) -> Option<
    Seq<(usize, usize, Seq<char>)>,
>;

/// What each span of a list says.
pub open spec fn span_texts(spans: Option<Vec<LinkSpan>>) -> Option<Seq<(usize, usize, Seq<char>)>> {
    match spans {
        Some(found) => Some(found@.map_values(|s: LinkSpan| (s.0, s.1, s.2@))),
        None => None,
    }
}

/// Finds the matches of a pattern with `regex::Regex::new` and
/// `Regex::find_iter`.  Trusted: the matches are the crate's, in its
/// order, which depends on pattern and text alone.
#[verifier::external_body]
fn find_matches(pattern: &str, text: &str) -> (spans: Option<Vec<LinkSpan>>)
    ensures
        span_texts(spans) == regex_matches(pattern@, text@),
{
    let regex = regex::Regex::new(pattern).ok()?;
    Some(regex.find_iter(text).map(|m| (m.start(), m.end(), m.as_str().to_string())).collect())
}

pub struct BlueskyPublisher {
    pub id: String,
    pub handle: String,
    pub password: String,
    pub pds_url: String,
    pub template: String,
    pub renderer: TemplateRenderer,
}

impl BlueskyPublisher {
    pub fn new(id: String, handle: String, password: String, pds_url: Option<String>, template: String) -> (publisher: Self)
        ensures
            publisher.id == id,
            publisher.handle == handle,
            publisher.password == password,
            publisher.pds_url@ == match pds_url {
                Some(url) => url@,
                None => default_server(),
            },
            publisher.template == template,
    {
        BlueskyPublisher {
            id,
            handle,
            password,
            pds_url: match pds_url {
                Some(url) => url,
                None => "https://bsky.social".to_owned(),
            },
            template,
            renderer: TemplateRenderer::new(),
        }
    }

    /// The text to post: of a text of more than 300 bytes the first 297
    /// and an ellipsis.
    pub fn prepare(&self, post: &Post) -> (text: Result<String, PublishError>)
        ensures
            prepared_text(text) == fitted_post(self.template@, post@, MAX_TEXT_BYTES, KEPT_TEXT_BYTES),
            text matches Err(e) ==> e is Template || e is SplitCharacter,
    {
        render_to_fit(&self.renderer, self.template.as_str(), post, MAX_TEXT_BYTES, KEPT_TEXT_BYTES)
    }

    /// The links of a text, from left to right.
    pub fn extract_url_facets(text: &str) -> (links: Vec<LinkSpan>)
        ensures
            Some(links@.map_values(|s: LinkSpan| (s.0, s.1, s.2@))) == match regex_matches(
                link_pattern(),
                text@,
            ) {
                Some(found) => Some(found),
                None => Some(Seq::empty()),
            },
    {
        match find_matches("https?://[^\\s]+", text) {
            Some(found) => found,
            None => {
                let nothing: Vec<LinkSpan> = Vec::new();
                assert(nothing@.map_values(|s: LinkSpan| (s.0, s.1, s.2@)) =~= Seq::empty());
                nothing
            },
        }
    }

    /// What opening a session gives, read from the server's answer: the
    /// access token and the account's identifier.
    pub open spec fn session(status: u16, body: Seq<char>) -> Result<(Seq<char>, Seq<char>), SessionFault> {
        if !is_success(status) {
            Err(SessionFault::Rejected)
        } else {
            match (json_text_at(body, "/accessJwt"@), json_text_at(body, "/did"@)) {
                (Some(Some(token)), Some(Some(did))) => Ok((token, did)),
                (None, _) => Err(SessionFault::Unreadable),
                _ => Err(SessionFault::Incomplete),
            }
        }
    }

    /// Reads the server's answer to the opening of a session.
    pub fn authenticate(status: u16, body: &str) -> (session: Result<(String, String), PublishError>)
        ensures
            match BlueskyPublisher::session(status, body@) {
                Ok((token, did)) => session matches Ok(s) && s.0@ == token && s.1@ == did,
                Err(SessionFault::Rejected) => session matches Err(
                    PublishError::Rejected { status: s, body: b },
                ) && s == status && b@ == body@,
                Err(SessionFault::Unreadable) => session matches Err(PublishError::Unreadable),
                Err(SessionFault::Incomplete) => session matches Err(PublishError::Incomplete),
            },
    {
        if !status_is_success(status) {
            return Err(PublishError::Rejected { status, body: body.to_owned() });
        }
        match json_text(body, "/accessJwt") {
            None => Err(PublishError::Unreadable),
            Some(None) => Err(PublishError::Incomplete),
            Some(Some(token)) => match json_text(body, "/did") {
                Some(Some(did)) => Ok((token, did)),
                _ => Err(PublishError::Incomplete),
            },
        }
    }

    /// Reads the server's answer to the post.
    pub fn confirm(status: u16, body: &str) -> (result: Result<String, PublishError>)
        ensures
            is_verdict(
                result,
                verdict(status, named_confirmation("Published to Bluesky: "@, body@, "/uri"@)),
                status,
                body@,
            ),
    {
        confirm_named("Published to Bluesky: ", status, body, "/uri")
    }
}

/// The ways in which opening a session fails.
pub enum SessionFault {
    Rejected,
    Unreadable,
    Incomplete,
}

impl Publisher for BlueskyPublisher {
    open spec fn kind_text(&self) -> Seq<char> {
        "bluesky"@
    }

    open spec fn id_text(&self) -> Seq<char> {
        self.id@
    }

    fn get_type(&self) -> (name: &'static str) {
        "bluesky"
    }

    fn get_id(&self) -> (id: &str) {
        self.id.as_str()
    }
}

} // verus!
