//! Threads.
//!
//! A post is made in two calls: one creates a container, the other
//! publishes it.  The service may need a moment before it knows the
//! container, so the second call is made after a wait, and once more after
//! a longer wait where the service says that there is no such container.

use vstd::prelude::*;
use crate::feed::{is_success, status_is_success};
use crate::json::{json_text, json_text_at};
use crate::oauth::PublishError;
use crate::post::Post;
use crate::publishers::{
    confirm_named, fitted_post, is_verdict, named_confirmation, prepared_text, render_to_fit, verdict,
    Publisher,
};
use crate::template::{stands_at, TemplateRenderer};
use crate::text::to_chars;

verus! {

/// The longest text that Threads takes, in bytes.
pub const MAX_TEXT_BYTES: usize = 500;

/// What is kept of a longer text, before the ellipsis.
pub const KEPT_TEXT_BYTES: usize = 497;

/// Milliseconds to wait between creating a container and publishing it.
pub const CONTAINER_WAIT_MS: u64 = 2000;

/// Milliseconds to wait before publishing a container for the second time.
pub const RETRY_WAIT_MS: u64 = 3000;

pub struct ThreadsPublisher {
    pub id: String,
    pub access_token: String,
    pub user_id: String,
    pub template: String,
    pub renderer: TemplateRenderer,
}

/// What to do after the service answered the publishing of a container.
#[derive(Debug)]
pub enum ThreadsStep {
    /// The post is over, with this result.
    Finish(Result<String, PublishError>),
    /// Wait this many milliseconds, then publish the container again.
    RetryAfter(u64),
}

/// `needle` occurs in `text`.
pub open spec fn occurs(text: Seq<char>, needle: Seq<char>) -> bool {
    exists|at: int|
        0 <= at && at + needle.len() <= text.len() && #[trigger] text.skip(at).take(needle.len() as int)
            == needle
}

/// The service says that it does not know the container.
pub open spec fn container_unknown(body: Seq<char>) -> bool {
    occurs(body, "does not exist"@) || occurs(body, "No se encuentra"@)
}

/// Whether `needle` occurs in `text`.
pub fn contains_text(text: &str, needle: &str) -> (found: bool)
    ensures
        found == occurs(text@, needle@),
{
    let chars = to_chars(text);
    let pattern = to_chars(needle);
    let n: usize = chars.len();
    let mut at: usize = 0;
    loop
        invariant
            n == chars@.len(),
            chars@ == text@,
            pattern@ == needle@,
            at <= n,
            forall|k: int|
                0 <= k < at && k + pattern@.len() <= chars@.len() ==> #[trigger] chars@.skip(k).take(
                    pattern@.len() as int,
                ) != pattern@,
        ensures
            at == n,
            !occurs(text@, needle@),
        decreases n - at,
    {
        if stands_at(&chars, at, &pattern) {
            assert(chars@.skip(at as int).take(pattern@.len() as int) == pattern@);
            assert(occurs(text@, needle@));
            return true;
        }
        if at == n {
            break;
        }
        at += 1;
    }
    false
}

impl ThreadsPublisher {
    pub fn new(id: String, access_token: String, user_id: String, template: String) -> (publisher: Self)
        ensures
            publisher.id == id,
            publisher.access_token == access_token,
            publisher.user_id == user_id,
            publisher.template == template,
    {
        ThreadsPublisher { id, access_token, user_id, template, renderer: TemplateRenderer::new() }
    }

    /// The text to post: of a text of more than 500 bytes the first 497
    /// and an ellipsis.
    pub fn prepare(&self, post: &Post) -> (text: Result<String, PublishError>)
        ensures
            prepared_text(text) == fitted_post(self.template@, post@, MAX_TEXT_BYTES, KEPT_TEXT_BYTES),
            text matches Err(e) ==> e is Template || e is SplitCharacter,
    {
        render_to_fit(&self.renderer, self.template.as_str(), post, MAX_TEXT_BYTES, KEPT_TEXT_BYTES)
    }

    /// The container that was created, read from the service's answer.
    pub fn container_created(status: u16, body: &str) -> (container: Result<String, PublishError>)
        ensures
            !is_success(status) ==> (container matches Err(PublishError::Rejected { status: s, body: b })
                && s == status && b@ == body@),
            is_success(status) ==> match json_text_at(body@, "/id"@) {
                Some(Some(id)) => container matches Ok(c) && c@ == id,
                Some(None) => container matches Err(PublishError::Incomplete),
                None => container matches Err(PublishError::Unreadable),
            },
    {
        if !status_is_success(status) {
            return Err(PublishError::Rejected { status, body: body.to_owned() });
        }
        match json_text(body, "/id") {
            Some(Some(id)) => Ok(id),
            Some(None) => Err(PublishError::Incomplete),
            None => Err(PublishError::Unreadable),
        }
    }

    /// What to do after the service answered the publishing of a
    /// container.  A success ends the post.  Where the service does not
    /// know the container and the call was the first, the call is made
    /// again after a wait.  Every other answer ends the post as a failure.
    pub fn container_published(status: u16, body: &str, retried: bool) -> (step: ThreadsStep)
        ensures
            is_success(status) && !retried ==> (step matches ThreadsStep::Finish(result) && is_verdict(
                result,
                verdict(status, named_confirmation("Published to Threads: "@, body@, "/id"@)),
                status,
                body@,
            )),
            is_success(status) && retried ==> (step matches ThreadsStep::Finish(result) && is_verdict(
                result,
                verdict(status, named_confirmation("Published to Threads (retry): "@, body@, "/id"@)),
                status,
                body@,
            )),
            !is_success(status) && !retried && container_unknown(body@) ==> step matches ThreadsStep::RetryAfter(
                RETRY_WAIT_MS,
            ),
            !is_success(status) && !retried && !container_unknown(body@) ==> (
            step matches ThreadsStep::Finish(Err(PublishError::Rejected { status: s, body: b })) && s
                == status && b@ == body@),
            !is_success(status) && retried ==> (step matches ThreadsStep::Finish(
                Err(PublishError::RejectedAfterRetry { status: s, body: b }),
            ) && s == status && b@ == body@),
    {
        if status_is_success(status) {
            if retried {
                ThreadsStep::Finish(confirm_named("Published to Threads (retry): ", status, body, "/id"))
            } else {
                ThreadsStep::Finish(confirm_named("Published to Threads: ", status, body, "/id"))
            }
        } else if retried {
            ThreadsStep::Finish(Err(PublishError::RejectedAfterRetry { status, body: body.to_owned() }))
        } else if contains_text(body, "does not exist") || contains_text(body, "No se encuentra") {
            ThreadsStep::RetryAfter(RETRY_WAIT_MS)
        } else {
            ThreadsStep::Finish(Err(PublishError::Rejected { status, body: body.to_owned() }))
        }
    }
}

impl Publisher for ThreadsPublisher {
    open spec fn kind_text(&self) -> Seq<char> {
        "threads"@
    }

    open spec fn id_text(&self) -> Seq<char> {
        self.id@
    }

    fn get_type(&self) -> (name: &'static str) {
        "threads"
    }

    fn get_id(&self) -> (id: &str) {
        self.id.as_str()
    }
}

} // verus!
