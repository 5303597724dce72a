//! The destinations: what each of them is sent, and how its answer is read.
//!
//! The calls themselves are made by the caller.  What stands here is what
//! surrounds them: the text of a post, cut to what the destination takes,
//! and the reading of the destination's answer.

use vstd::prelude::*;
use vstd::string::StringSliceAdditionalSpecFns;
use vstd::utf8::{decode_utf8, encode_utf8};
use crate::feed::{is_success, status_is_success};
use crate::json::{json_shown, json_shown_at, json_text, json_text_at};
use crate::oauth::PublishError;
use crate::post::{Post, PostText};
use crate::template::{
    byte_len, ellipsis, rendering, TemplateContext, TemplateFault, TemplateRenderer,
};
use crate::text::join;

pub mod bluesky;
pub mod linkedin;
pub mod manager;
pub mod mastodon;
pub mod matrix;
pub mod openobserve;
pub mod telegram;
pub mod threads;
pub mod x;

verus! {

/// What every destination can say of itself.
pub trait Publisher {
    /// The kind of the destination.
    spec fn kind_text(&self) -> Seq<char>;

    /// The id under which the destination is configured.
    spec fn id_text(&self) -> Seq<char>;

    /// The kind of the destination.
    fn get_type(&self) -> (name: &'static str)
        ensures
            name@ == self.kind_text(),
    ;

    /// The id under which the destination is configured.
    fn get_id(&self) -> (id: &str)
        ensures
            id@ == self.id_text(),
    ;
}

/// The description of a post; empty where it has none.
pub open spec fn description_of(post: PostText) -> Seq<char> {
    match post.description {
        Some(d) => d,
        None => Seq::empty(),
    }
}

/// The text that `template` makes of `post`.
pub open spec fn post_rendering(template: Seq<char>, post: PostText) -> Result<Seq<char>, TemplateFault> {
    rendering(template, post.title, description_of(post), post.link)
}

/// What a template can refer to, taken from a post.
pub fn context_of(post: &Post) -> (context: TemplateContext)
    ensures
        context.title@ == post@.title,
        context.description@ == description_of(post@),
        context.url@ == post@.link,
{
    TemplateContext {
        title: post.title.clone(),
        description: match &post.description {
            Some(d) => d.clone(),
            None => String::new(),
        },
        url: post.link.clone(),
    }
}

/// What a result of preparing a text says: the text, or the fault of the
/// template where that is why there is none.
pub open spec fn prepared_text(text: Result<String, PublishError>) -> Result<Seq<char>, Option<TemplateFault>> {
    match text {
        Ok(t) => Ok(t@),
        Err(PublishError::Template(e)) => Err(Some(e@)),
        Err(_) => Err(None),
    }
}

/// Renders a post with a template.
pub fn render_post(renderer: &TemplateRenderer, template: &str, post: &Post) -> (text: Result<
    String,
    PublishError,
>)
    ensures
        prepared_text(text) == match post_rendering(template@, post@) {
            Ok(t) => Ok::<Seq<char>, Option<TemplateFault>>(t),
            Err(fault) => Err(Some(fault)),
        },
{
    let context = context_of(post);
    match renderer.render(template, &context) {
        Ok(text) => Ok(text),
        Err(error) => Err(PublishError::Template(error)),
    }
}

/// A text of more than `limit` bytes cut to its first `keep` bytes, with an
/// ellipsis in place of the rest; `None` where that would cut a character
/// in two.  A text of no more than `limit` bytes stays as it is.
pub open spec fn fitted(text: Seq<char>, limit: usize, keep: usize) -> Option<Seq<char>> {
    if byte_len(text) <= limit {
        Some(text)
    } else if keep <= encode_utf8(text).len() && vstd::utf8::is_char_boundary(
        encode_utf8(text),
        keep as int,
    ) {
        Some(decode_utf8(encode_utf8(text).subrange(0, keep as int)) + ellipsis())
    } else {
        None
    }
}

/// Cuts a text that is longer than `limit` bytes to its first `keep` bytes
/// and an ellipsis.  A cut that would fall inside a character is refused.
pub fn cut_to_fit(text: String, limit: usize, keep: usize) -> (cut: Result<String, PublishError>)
    ensures
        match fitted(text@, limit, keep) {
            Some(t) => cut matches Ok(c) && c@ == t,
            None => cut matches Err(PublishError::SplitCharacter),
        },
{
    broadcast use vstd::utf8::encode_utf8_decode_utf8;

    let whole = text.as_str();
    if whole.len() <= limit {
        return Ok(text);
    }
    let bytes = whole.as_bytes();
    if keep > bytes.len() || !whole.is_char_boundary(keep) {
        return Err(PublishError::SplitCharacter);
    }
    let (kept, _) = whole.split_at(keep);
    assert(kept@ == decode_utf8(encode_utf8(kept@)));
    Ok(join(kept, "..."))
}

/// How a confirmation is worded where the destination's answer names the
/// new entry in a text: `prefix` and that text, `unknown` where the answer
/// has none at `pointer`.  `None` where the answer is no JSON.
pub open spec fn named_confirmation(prefix: Seq<char>, body: Seq<char>, pointer: Seq<char>) -> Option<Seq<char>> {
    worded(prefix, json_text_at(body, pointer))
}

/// How a confirmation is worded, given the name that was found for the
/// new entry: `prefix` and the name, `unknown` where none was found.
/// `None` where the answer could not be read.
pub open spec fn worded(prefix: Seq<char>, found: Option<Option<Seq<char>>>) -> Option<Seq<char>> {
    match found {
        Some(Some(name)) => Some(prefix + name),
        Some(None) => Some(prefix + "unknown"@),
        None => None,
    }
}

/// How a confirmation is worded where the destination's answer names the
/// new entry in any value: `prefix` and the value at `pointer` as it is
/// written in JSON.  `None` where the answer is no JSON.
pub open spec fn shown_confirmation(prefix: Seq<char>, body: Seq<char>, pointer: Seq<char>) -> Option<Seq<char>> {
    worded(
        prefix,
        match json_shown_at(body, pointer) {
            Some(shown) => Some(Some(shown)),
            None => None,
        },
    )
}

/// What a destination's answer to a call comes to, where an accepted call
/// is confirmed by `confirmed`.
pub open spec fn verdict(status: u16, confirmed: Option<Seq<char>>) -> Result<Seq<char>, Verdict> {
    if !is_success(status) {
        Err(Verdict::Rejected)
    } else {
        match confirmed {
            Some(text) => Ok(text),
            None => Err(Verdict::Unreadable),
        }
    }
}

/// The ways in which a call fails at its answer.
pub enum Verdict {
    Rejected,
    Unreadable,
}

/// `result` is what `wanted` asks for: the confirmation, or the failure
/// with the status and the answer of the destination.
pub open spec fn is_verdict(
    result: Result<String, PublishError>,
    wanted: Result<Seq<char>, Verdict>,
    status: u16,
    body: Seq<char>,
) -> bool {
    match wanted {
        Ok(text) => result matches Ok(t) && t@ == text,
        Err(Verdict::Rejected) => result matches Err(PublishError::Rejected { status: s, body: b }) && s
            == status && b@ == body,
        Err(Verdict::Unreadable) => result matches Err(PublishError::Unreadable),
    }
}

/// What a destination's answer comes to, given the name that was found in
/// it for the new entry: a failure with status and answer where the status
/// is no success, a failure where the answer could not be read, and else the
/// confirmation, `prefix` and the name, `unknown` where none was found.
pub fn confirm_with(prefix: &str, status: u16, body: &str, found: Option<Option<String>>) -> (result: Result<
    String,
    PublishError,
>)
    ensures
        is_verdict(result, verdict(status, worded(prefix@, crate::json::found_text(found))), status, body@),
{
    if !status_is_success(status) {
        return Err(PublishError::Rejected { status, body: body.to_owned() });
    }
    match found {
        Some(Some(name)) => Ok(join(prefix, name.as_str())),
        Some(None) => Ok(join(prefix, "unknown")),
        None => Err(PublishError::Unreadable),
    }
}

/// Reads a destination's answer that names the new entry in a text.
pub fn confirm_named(prefix: &str, status: u16, body: &str, pointer: &str) -> (result: Result<
    String,
    PublishError,
>)
    ensures
        is_verdict(result, verdict(status, named_confirmation(prefix@, body@, pointer@)), status, body@),
{
    confirm_with(prefix, status, body, json_text(body, pointer))
}

/// Reads a destination's answer that names the new entry in any value.
pub fn confirm_shown(prefix: &str, status: u16, body: &str, pointer: &str) -> (result: Result<
    String,
    PublishError,
>)
    ensures
        is_verdict(result, verdict(status, shown_confirmation(prefix@, body@, pointer@)), status, body@),
{
    let found = match json_shown(body, pointer) {
        Some(shown) => Some(Some(shown)),
        None => None,
    };
    confirm_with(prefix, status, body, found)
}

/// The text that a destination is sent: the post rendered with the
/// template and cut to fit.
pub open spec fn fitted_post(template: Seq<char>, post: PostText, limit: usize, keep: usize) -> Result<
    Seq<char>,
    Option<TemplateFault>,
> {
    match post_rendering(template, post) {
        Ok(text) => match fitted(text, limit, keep) {
            Some(cut) => Ok(cut),
            None => Err(None),
        },
        Err(fault) => Err(Some(fault)),
    }
}

/// Renders a post and cuts the text to fit.
pub fn render_to_fit(
    renderer: &TemplateRenderer,
    template: &str,
    post: &Post,
    limit: usize,
    keep: usize,
) -> (text: Result<String, PublishError>)
    ensures
        prepared_text(text) == fitted_post(template@, post@, limit, keep),
        text matches Err(e) ==> e is Template || e is SplitCharacter,
{
    match render_post(renderer, template, post) {
        Ok(text) => cut_to_fit(text, limit, keep),
        Err(error) => Err(error),
    }
}

} // verus!
