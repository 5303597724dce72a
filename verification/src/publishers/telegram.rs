//! Telegram.

use vstd::prelude::*;
use crate::oauth::PublishError;
use crate::post::Post;
use crate::publishers::{
    confirm_shown, is_verdict, post_rendering, render_post, shown_confirmation, verdict, Publisher,
};
use crate::template::{byte_len, TemplateRenderer};
use crate::text::{i64_parsed, parse_i64};

verus! {

/// The longest message that Telegram takes, in bytes.
pub const MAX_MESSAGE_BYTES: usize = 4096;

/// A number names a topic where it is positive.
pub open spec fn usable(number: Option<i64>) -> Option<i64> {
    match number {
        Some(n) => if n > 0 {
            Some(n)
        } else {
            None
        },
        None => None,
    }
}

pub struct TelegramPublisher {
    pub id: String,
    pub bot_token: String,
    pub chat_id: String,
    pub parse_mode: Option<String>,
    pub message_thread_id: Option<String>,
    pub template: String,
    pub renderer: TemplateRenderer,
}

impl TelegramPublisher {
    pub fn new(
        id: String,
        bot_token: String,
        chat_id: String,
        parse_mode: Option<String>,
        message_thread_id: Option<String>,
        template: String,
    ) -> (publisher: Self)
        ensures
            publisher.id == id,
            publisher.bot_token == bot_token,
            publisher.chat_id == chat_id,
            publisher.parse_mode == parse_mode,
            publisher.message_thread_id == message_thread_id,
            publisher.template == template,
    {
        TelegramPublisher {
            id,
            bot_token,
            chat_id,
            parse_mode,
            message_thread_id,
            template,
            renderer: TemplateRenderer::new(),
        }
    }

    /// The message to send.  A message of more than 4096 bytes is refused.
    pub fn prepare(&self, post: &Post) -> (text: Result<String, PublishError>)
        ensures
            match post_rendering(self.template@, post@) {
                Ok(t) => if byte_len(t) > MAX_MESSAGE_BYTES {
                    text matches Err(PublishError::TooLong { length, limit }) && length == byte_len(t)
                        && limit == MAX_MESSAGE_BYTES
                } else {
                    text matches Ok(message) && message@ == t
                },
                Err(fault) => text matches Err(PublishError::Template(e)) && e@ == fault,
            },
    {
        match render_post(&self.renderer, self.template.as_str(), post) {
            Ok(message) => {
                let length = message.as_str().len();
                if length > MAX_MESSAGE_BYTES {
                    Err(PublishError::TooLong { length, limit: MAX_MESSAGE_BYTES })
                } else {
                    Ok(message)
                }
            },
            Err(error) => Err(error),
        }
    }

    /// The topic to post to: the configured thread id where it is a
    /// positive number.
    pub open spec fn topic(&self) -> Option<i64> {
        match self.message_thread_id {
            Some(text) => usable(i64_parsed(text@)),
            None => None,
        }
    }

    /// The topic that a number names, if it names one.
    pub fn usable_topic(number: Option<i64>) -> (topic: Option<i64>)
        ensures
            topic == usable(number),
    {
        match number {
            Some(n) => if n > 0 {
                Some(n)
            } else {
                None
            },
            None => None,
        }
    }

    /// The topic to post to, if a usable one is configured.
    pub fn thread_id(&self) -> (topic: Option<i64>)
        ensures
            topic == self.topic(),
    {
        match &self.message_thread_id {
            Some(text) => TelegramPublisher::usable_topic(parse_i64(text.as_str())),
            None => None,
        }
    }

    /// Reads the service's answer.
    pub fn confirm(status: u16, body: &str) -> (result: Result<String, PublishError>)
        ensures
            is_verdict(
                result,
                verdict(
                    status,
                    shown_confirmation("Published to Telegram: "@, body@, "/result/message_id"@),
                ),
                status,
                body@,
            ),
    {
        confirm_shown("Published to Telegram: ", status, body, "/result/message_id")
    }
}

impl Publisher for TelegramPublisher {
    open spec fn kind_text(&self) -> Seq<char> {
        "telegram"@
    }

    open spec fn id_text(&self) -> Seq<char> {
        self.id@
    }

    fn get_type(&self) -> (name: &'static str) {
        "telegram"
    }

    fn get_id(&self) -> (id: &str) {
        self.id.as_str()
    }
}

} // verus!
