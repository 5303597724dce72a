//! The life of the bearer tokens of a destination.
//!
//! A destination keeps an access token and a refresh token.  A publish call
//! uses the access token at hand; where there is none, or where the
//! destination turns the call down as unauthorized, the refresh token is
//! exchanged for a new access token, the new tokens are stored, and the
//! call is made again: once, and no more.

use vstd::prelude::*;
use crate::feed::{is_success, status_is_success};
use crate::json::{json_text, json_text_at, json_u64, json_u64_at};
use crate::template::TemplateError;
use crate::text::{copy_opt, join, opt_text, to_decimal, decimal};

verus! {

/// Status with which a destination turns a call down as unauthorized.
pub const UNAUTHORIZED: u16 = 401;

/// The tokens of one destination.
#[derive(Debug, Clone)]
pub struct Credential {
    pub access_token: Option<String>,
    pub refresh_token: Option<String>,
}

/// What a token exchange granted.
#[derive(Debug, Clone)]
pub struct TokenGrant {
    pub access_token: String,
    /// The new refresh token, where the destination issued one.
    pub refresh_token: Option<String>,
}

/// Why no token could be had.
#[derive(Debug, Clone)]
pub enum TokenError {
    /// There is no refresh token to exchange.
    NoRefreshToken,
    /// The exchange did not get an answer.
    Network(String),
    /// The destination refused the exchange.
    Rejected { status: u16, body: String },
    /// The destination's answer is no JSON.
    Unreadable,
    /// The destination's answer names no access token.
    NoAccessToken,
}

/// Why an item was not published.
#[derive(Debug, Clone)]
pub enum PublishError {
    /// The text could not be rendered.
    Template(TemplateError),
    /// The text is longer than the destination takes.
    TooLong { length: usize, limit: usize },
    /// The text would have to be cut inside a character.
    SplitCharacter,
    /// The destination's answer is no JSON.
    Unreadable,
    /// The destination's answer lacks what it was asked for.
    Incomplete,
    /// The destination turned down the call that was made again after a
    /// wait.
    RejectedAfterRetry { status: u16, body: String },
    /// No such destination is configured.
    NotFound(String),
    /// Destinations of this kind cannot be served.
    Unsupported,
    /// No access token was at hand and none could be had.
    Token(TokenError),
    /// The call did not get an answer.
    Network(String),
    /// The destination turned the call down.
    Rejected { status: u16, body: String },
    /// The destination turned the call down as unauthorized, and no new
    /// token could be had.
    RefreshFailed(TokenError),
    /// The destination turned down the call that was made with the new
    /// token.
    RejectedAfterRefresh { status: u16, body: String },
    /// Something was reported that was not asked for.
    OutOfTurn,
}

/// What a failure of a token exchange is called in a record.
pub open spec fn token_error_text(error: TokenError) -> Seq<char> {
    match error {
        TokenError::NoRefreshToken => "No refresh token available"@,
        TokenError::Network(why) => "Token exchange failed: "@ + why@,
        TokenError::Rejected { status, body } => "Failed to refresh token: "@ + decimal(status as nat)
            + " - "@ + body@,
        TokenError::Unreadable => "Token answer is not JSON"@,
        TokenError::NoAccessToken => "No access_token in response"@,
    }
}

/// What a failure to publish is called in a record.
pub open spec fn publish_error_text(error: PublishError) -> Seq<char> {
    match error {
        PublishError::Template(TemplateError::Parse(why)) => "Failed to parse template: "@ + why@,
        PublishError::Template(TemplateError::Render(why)) => "Failed to render template: "@ + why@,
        PublishError::TooLong { length, limit } => "Message too long: "@ + decimal(length as nat)
            + " bytes (max "@ + decimal(limit as nat) + ")"@,
        PublishError::SplitCharacter => "Message cannot be cut inside a character"@,
        PublishError::Unreadable => "Answer is not JSON"@,
        PublishError::Incomplete => "Answer is incomplete"@,
        PublishError::RejectedAfterRetry { status, body } => "Failed to publish after retry: "@ + decimal(
            status as nat,
        ) + " - "@ + body@,
        PublishError::NotFound(id) => "Publisher not found: "@ + id@,
        PublishError::Unsupported => "Publisher type is not supported"@,
        PublishError::Token(error) => token_error_text(error),
        PublishError::Network(why) => "Request failed: "@ + why@,
        PublishError::Rejected { status, body } => "Failed to publish: "@ + decimal(status as nat)
            + " - "@ + body@,
        PublishError::RefreshFailed(error) => "Failed to publish - token refresh failed: "@
            + token_error_text(error),
        PublishError::RejectedAfterRefresh { status, body } => "Failed to publish after token refresh: "@
            + decimal(status as nat) + " - "@ + body@,
        PublishError::OutOfTurn => "Publish call out of turn"@,
    }
}

/// `prefix`, the status in decimal, a dash, and `body`.
fn status_line(prefix: &str, status: u16, body: &str) -> (line: String)
    ensures
        line@ == prefix@ + decimal(status as nat) + " - "@ + body@,
{
    let number = to_decimal(status as u64);
    let a = join(prefix, number.as_str());
    let b = join(a.as_str(), " - ");
    join(b.as_str(), body)
}

impl TokenError {
    /// What the failure is called in a record.
    pub fn describe(&self) -> (text: String)
        ensures
            text@ == token_error_text(*self),
    {
        match self {
            TokenError::NoRefreshToken => "No refresh token available".to_owned(),
            TokenError::Network(why) => join("Token exchange failed: ", why.as_str()),
            TokenError::Rejected { status, body } => status_line(
                "Failed to refresh token: ",
                *status,
                body.as_str(),
            ),
            TokenError::Unreadable => "Token answer is not JSON".to_owned(),
            TokenError::NoAccessToken => "No access_token in response".to_owned(),
        }
    }
}

impl PublishError {
    /// What the failure is called in a record.
    pub fn describe(&self) -> (text: String)
        ensures
            text@ == publish_error_text(*self),
    {
        match self {
            PublishError::Template(TemplateError::Parse(why)) => join(
                "Failed to parse template: ",
                why.as_str(),
            ),
            PublishError::Template(TemplateError::Render(why)) => join(
                "Failed to render template: ",
                why.as_str(),
            ),
            PublishError::TooLong { length, limit } => {
                let a = join("Message too long: ", to_decimal(*length as u64).as_str());
                let b = join(a.as_str(), " bytes (max ");
                let c = join(b.as_str(), to_decimal(*limit as u64).as_str());
                join(c.as_str(), ")")
            },
            PublishError::SplitCharacter => "Message cannot be cut inside a character".to_owned(),
            PublishError::Unreadable => "Answer is not JSON".to_owned(),
            PublishError::Incomplete => "Answer is incomplete".to_owned(),
            PublishError::RejectedAfterRetry { status, body } => status_line(
                "Failed to publish after retry: ",
                *status,
                body.as_str(),
            ),
            PublishError::NotFound(id) => join("Publisher not found: ", id.as_str()),
            PublishError::Unsupported => "Publisher type is not supported".to_owned(),
            PublishError::Token(error) => error.describe(),
            PublishError::Network(why) => join("Request failed: ", why.as_str()),
            PublishError::Rejected { status, body } => status_line(
                "Failed to publish: ",
                *status,
                body.as_str(),
            ),
            PublishError::RefreshFailed(error) => join(
                "Failed to publish - token refresh failed: ",
                error.describe().as_str(),
            ),
            PublishError::RejectedAfterRefresh { status, body } => status_line(
                "Failed to publish after token refresh: ",
                *status,
                body.as_str(),
            ),
            PublishError::OutOfTurn => "Publish call out of turn".to_owned(),
        }
    }
}

/// Where a publish call stands.
#[derive(Debug, Clone, Copy, PartialEq, Eq, Structural)]
pub enum Phase {
    /// Nothing has happened yet.
    Start,
    /// No access token was at hand: a token exchange is under way.
    FirstRefresh,
    /// The call is under way.
    FirstSend,
    /// The call was turned down as unauthorized: a token exchange is under
    /// way.
    RetryRefresh,
    /// The call is under way for the second time, with the new token.
    RetrySend,
    /// The call is over.
    Done,
}

/// What happened.
#[derive(Debug)]
pub enum OAuthEvent {
    /// An item is to be published.
    Begin,
    /// The token exchange that was asked for ended.
    Exchanged(Result<TokenGrant, TokenError>),
    /// The destination answered the call that was asked for.
    Answered { status: u16, body: String },
}

/// A destination's answer to a call that it accepted.
#[derive(Debug, Clone)]
pub struct Confirmation {
    /// The call was the second, made with a new token.
    pub after_refresh: bool,
    pub body: String,
}

/// What to do next.
#[derive(Debug)]
pub enum OAuthAction {
    /// Exchange this refresh token for a new access token.
    Refresh { refresh_token: String },
    /// Make the call with this access token.  Where `persist` holds
    /// credentials, store them first; a failure to store them is no reason
    /// not to make the call.
    Send { token: String, persist: Option<Credential> },
    /// The call is over, with this result.
    Finish(Result<Confirmation, PublishError>),
}

/// The credentials after a grant: the new access token, and the new
/// refresh token where one was issued, else the old.
pub open spec fn granted(credential: Credential, grant: TokenGrant) -> Credential {
    Credential {
        access_token: Some(grant.access_token),
        refresh_token: match grant.refresh_token {
            Some(token) => Some(token),
            None => credential.refresh_token,
        },
    }
}

/// What to do once a token is needed and none is at hand: exchange the
/// refresh token, and move to `exchanging`; without a refresh token the
/// call is over with the failure that `wrap` makes of that.
pub open spec fn start_refresh(credential: Credential, exchanging: Phase, after_rejection: bool) -> (
    Credential,
    Phase,
    OAuthAction,
) {
    match credential.refresh_token {
        Some(refresh_token) => (credential, exchanging, OAuthAction::Refresh { refresh_token }),
        None => (
            credential,
            Phase::Done,
            OAuthAction::Finish(
                Err(
                    if after_rejection {
                        PublishError::RefreshFailed(TokenError::NoRefreshToken)
                    } else {
                        PublishError::Token(TokenError::NoRefreshToken)
                    },
                ),
            ),
        ),
    }
}

/// One step of a publish call: from the credentials, the phase and what
/// happened to the new credentials, the new phase and what to do next.
pub open spec fn oauth_step(credential: Credential, phase: Phase, event: OAuthEvent) -> (
    Credential,
    Phase,
    OAuthAction,
) {
    match (phase, event) {
        (Phase::Start, OAuthEvent::Begin) => match credential.access_token {
            Some(token) => (credential, Phase::FirstSend, OAuthAction::Send { token, persist: None }),
            None => start_refresh(credential, Phase::FirstRefresh, false),
        },
        (Phase::FirstRefresh, OAuthEvent::Exchanged(Ok(grant))) => (
            granted(credential, grant),
            Phase::FirstSend,
            OAuthAction::Send {
                token: grant.access_token,
                persist: Some(granted(credential, grant)),
            },
        ),
        (Phase::FirstRefresh, OAuthEvent::Exchanged(Err(error))) => (
            credential,
            Phase::Done,
            OAuthAction::Finish(Err(PublishError::Token(error))),
        ),
        (Phase::FirstSend, OAuthEvent::Answered { status, body }) => if is_success(status) {
            (
                credential,
                Phase::Done,
                OAuthAction::Finish(Ok(Confirmation { after_refresh: false, body })),
            )
        } else if status == UNAUTHORIZED {
            start_refresh(credential, Phase::RetryRefresh, true)
        } else {
            (credential, Phase::Done, OAuthAction::Finish(Err(PublishError::Rejected { status, body })))
        },
        (Phase::RetryRefresh, OAuthEvent::Exchanged(Ok(grant))) => (
            granted(credential, grant),
            Phase::RetrySend,
            OAuthAction::Send {
                token: grant.access_token,
                persist: Some(granted(credential, grant)),
            },
        ),
        (Phase::RetryRefresh, OAuthEvent::Exchanged(Err(error))) => (
            credential,
            Phase::Done,
            OAuthAction::Finish(Err(PublishError::RefreshFailed(error))),
        ),
        (Phase::RetrySend, OAuthEvent::Answered { status, body }) => if is_success(status) {
            (
                credential,
                Phase::Done,
                OAuthAction::Finish(Ok(Confirmation { after_refresh: true, body })),
            )
        } else {
            (
                credential,
                Phase::Done,
                OAuthAction::Finish(Err(PublishError::RejectedAfterRefresh { status, body })),
            )
        },
        _ => (credential, Phase::Done, OAuthAction::Finish(Err(PublishError::OutOfTurn))),
    }
}

/// What a token exchange granted, read from the destination's answer: the
/// failure where the status is no success, where the answer is no JSON, or
/// where it names no access token.
pub open spec fn grant_read(status: u16, body: Seq<char>) -> Result<
    (Seq<char>, Option<Seq<char>>),
    TokenErrorKind,
> {
    grant_of(status, json_text_at(body, "/access_token"@), json_text_at(body, "/refresh_token"@))
}

/// What a token exchange granted, given the status of the destination's
/// answer and what the answer holds as access token and as refresh token.
pub open spec fn grant_of(
    status: u16,
    access: Option<Option<Seq<char>>>,
    refresh: Option<Option<Seq<char>>>,
) -> Result<(Seq<char>, Option<Seq<char>>), TokenErrorKind> {
    if !is_success(status) {
        Err(TokenErrorKind::Rejected)
    } else {
        match access {
            None => Err(TokenErrorKind::Unreadable),
            Some(None) => Err(TokenErrorKind::NoAccessToken),
            Some(Some(access)) => Ok(
                (
                    access,
                    match refresh {
                        Some(Some(refresh)) => Some(refresh),
                        _ => None,
                    },
                ),
            ),
        }
    }
}

/// What to do for a token before a call.
#[derive(Debug, Clone)]
pub enum TokenPlan {
    /// Use this access token.
    Use(String),
    /// There is no access token: exchange this refresh token first.
    Refresh(String),
    /// There is no token of either kind.
    Missing,
}

/// The ways in which reading a grant fails.
pub enum TokenErrorKind {
    Rejected,
    Unreadable,
    NoAccessToken,
}

impl TokenGrant {
    /// What a token exchange granted, given the destination's answer and
    /// what was found in it as access token and as refresh token.
    pub fn from_answer(
        status: u16,
        body: &str,
        access: Option<Option<String>>,
        refresh: Option<Option<String>>,
    ) -> (grant: Result<TokenGrant, TokenError>)
        ensures
            match grant_of(status, crate::json::found_text(access), crate::json::found_text(refresh)) {
                Ok((access, refresh)) => grant matches Ok(g) && g.access_token@ == access && opt_text(
                    g.refresh_token,
                ) == refresh,
                Err(TokenErrorKind::Rejected) => grant matches Err(
                    TokenError::Rejected { status: code, body: text },
                ) && code == status && text@ == body@,
                Err(TokenErrorKind::Unreadable) => grant == Err::<TokenGrant, TokenError>(
                    TokenError::Unreadable,
                ),
                Err(TokenErrorKind::NoAccessToken) => grant == Err::<TokenGrant, TokenError>(
                    TokenError::NoAccessToken,
                ),
            },
    {
        if !status_is_success(status) {
            return Err(TokenError::Rejected { status, body: body.to_owned() });
        }
        match access {
            None => Err(TokenError::Unreadable),
            Some(None) => Err(TokenError::NoAccessToken),
            Some(Some(access_token)) => {
                let refresh_token = match refresh {
                    Some(Some(refresh)) => Some(refresh),
                    _ => None,
                };
                Ok(TokenGrant { access_token, refresh_token })
            },
        }
    }

    /// Reads what a token exchange granted from the destination's answer.
    pub fn read(status: u16, body: &str) -> (grant: Result<TokenGrant, TokenError>)
        ensures
            match grant_read(status, body@) {
                Ok((access, refresh)) => grant matches Ok(g) && g.access_token@ == access && opt_text(
                    g.refresh_token,
                ) == refresh,
                Err(TokenErrorKind::Rejected) => grant matches Err(
                    TokenError::Rejected { status: code, body: text },
                ) && code == status && text@ == body@,
                Err(TokenErrorKind::Unreadable) => grant == Err::<TokenGrant, TokenError>(
                    TokenError::Unreadable,
                ),
                Err(TokenErrorKind::NoAccessToken) => grant == Err::<TokenGrant, TokenError>(
                    TokenError::NoAccessToken,
                ),
            },
    {
        let access = json_text(body, "/access_token");
        let refresh = json_text(body, "/refresh_token");
        TokenGrant::from_answer(status, body, access, refresh)
    }
}

/// For how many seconds a grant is good: what the answer says, else
/// `default`.
pub open spec fn lifetime_read(body: Seq<char>, default: u64) -> u64 {
    match json_u64_at(body, "/expires_in"@) {
        Some(Some(seconds)) => seconds,
        _ => default,
    }
}

impl TokenGrant {
    /// For how many seconds the grant of an answer is good; `default`
    /// where the answer does not say.
    pub fn lifetime(body: &str, default: u64) -> (seconds: u64)
        ensures
            seconds == lifetime_read(body@, default),
    {
        match json_u64(body, "/expires_in") {
            Some(Some(seconds)) => seconds,
            _ => default,
        }
    }
}

impl Credential {
    /// Takes in the answer to a token exchange.  Where it grants tokens,
    /// they replace the old ones, the refresh token only where a new one was
    /// issued, and the tokens now in force come back; else nothing changes.
    pub fn refresh_access_token(&mut self, status: u16, body: &str) -> (tokens: Result<
        (String, Option<String>),
        TokenError,
    >)
        ensures
            grant_read(status, body@) is Err ==> tokens is Err && *final(self) == *old(self),
            grant_read(status, body@) matches Ok((access, refresh)) ==> {
                &&& tokens matches Ok(now)
                &&& now.0@ == access
                &&& final(self).access_token == Some(now.0)
                &&& final(self).refresh_token == now.1
                &&& opt_text(now.1) == match refresh {
                    Some(new) => Some(new),
                    None => opt_text(old(self).refresh_token),
                }
            },
    {
        match TokenGrant::read(status, body) {
            Ok(grant) => {
                self.accept(grant);
                match &self.access_token {
                    Some(access) => Ok((access.clone(), copy_opt(&self.refresh_token))),
                    None => Err(TokenError::NoAccessToken),
                }
            },
            Err(error) => Err(error),
        }
    }

    pub fn new(access_token: Option<String>, refresh_token: Option<String>) -> (credential: Credential)
        ensures
            credential.access_token == access_token,
            credential.refresh_token == refresh_token,
    {
        Credential { access_token, refresh_token }
    }

    /// What to do for a token before a call: use the access token at
    /// hand, else exchange the refresh token.
    pub fn get_valid_access_token(&self) -> (plan: TokenPlan)
        ensures
            plan == match (self.access_token, self.refresh_token) {
                (Some(token), _) => TokenPlan::Use(token),
                (None, Some(token)) => TokenPlan::Refresh(token),
                (None, None) => TokenPlan::Missing,
            },
    {
        match &self.access_token {
            Some(token) => TokenPlan::Use(token.clone()),
            None => match &self.refresh_token {
                Some(token) => TokenPlan::Refresh(token.clone()),
                None => TokenPlan::Missing,
            },
        }
    }

    /// A copy of the credentials.
    pub fn duplicate(&self) -> (copy: Credential)
        ensures
            copy == *self,
    {
        Credential {
            access_token: copy_opt(&self.access_token),
            refresh_token: copy_opt(&self.refresh_token),
        }
    }

    /// Takes a grant in: the new access token replaces the old, and so does
    /// the new refresh token where one was issued.
    pub fn accept(&mut self, grant: TokenGrant)
        ensures
            *final(self) == granted(*old(self), grant),
    {
        self.access_token = Some(grant.access_token);
        if let Some(token) = grant.refresh_token {
            self.refresh_token = Some(token);
        }
    }

    fn refresh(&self, exchanging: Phase, after_rejection: bool) -> (next: (Phase, OAuthAction))
        ensures
            (*self, next.0, next.1) == start_refresh(*self, exchanging, after_rejection),
    {
        match &self.refresh_token {
            Some(token) => (exchanging, OAuthAction::Refresh { refresh_token: token.clone() }),
            None => (
                Phase::Done,
                OAuthAction::Finish(
                    Err(
                        if after_rejection {
                            PublishError::RefreshFailed(TokenError::NoRefreshToken)
                        } else {
                            PublishError::Token(TokenError::NoRefreshToken)
                        },
                    ),
                ),
            ),
        }
    }

    /// One step of a publish call: takes in what happened and says what to
    /// do next.
    pub fn step(&mut self, phase: Phase, event: OAuthEvent) -> (next: (Phase, OAuthAction))
        ensures
            (*final(self), next.0, next.1) == oauth_step(*old(self), phase, event),
    {
        match (phase, event) {
            (Phase::Start, OAuthEvent::Begin) => match &self.access_token {
                Some(token) => (Phase::FirstSend, OAuthAction::Send { token: token.clone(), persist: None }),
                None => self.refresh(Phase::FirstRefresh, false),
            },
            (Phase::FirstRefresh, OAuthEvent::Exchanged(Ok(grant))) => {
                let token = grant.access_token.clone();
                self.accept(grant);
                (Phase::FirstSend, OAuthAction::Send { token, persist: Some(self.duplicate()) })
            },
            (Phase::FirstRefresh, OAuthEvent::Exchanged(Err(error))) => (
                Phase::Done,
                OAuthAction::Finish(Err(PublishError::Token(error))),
            ),
            (Phase::FirstSend, OAuthEvent::Answered { status, body }) => {
                if status_is_success(status) {
                    (Phase::Done, OAuthAction::Finish(Ok(Confirmation { after_refresh: false, body })))
                } else if status == UNAUTHORIZED {
                    self.refresh(Phase::RetryRefresh, true)
                } else {
                    (Phase::Done, OAuthAction::Finish(Err(PublishError::Rejected { status, body })))
                }
            },
            (Phase::RetryRefresh, OAuthEvent::Exchanged(Ok(grant))) => {
                let token = grant.access_token.clone();
                self.accept(grant);
                (Phase::RetrySend, OAuthAction::Send { token, persist: Some(self.duplicate()) })
            },
            (Phase::RetryRefresh, OAuthEvent::Exchanged(Err(error))) => (
                Phase::Done,
                OAuthAction::Finish(Err(PublishError::RefreshFailed(error))),
            ),
            (Phase::RetrySend, OAuthEvent::Answered { status, body }) => {
                if status_is_success(status) {
                    (Phase::Done, OAuthAction::Finish(Ok(Confirmation { after_refresh: true, body })))
                } else {
                    (
                        Phase::Done,
                        OAuthAction::Finish(Err(PublishError::RejectedAfterRefresh { status, body })),
                    )
                }
            },
            _ => (Phase::Done, OAuthAction::Finish(Err(PublishError::OutOfTurn))),
        }
    }
}

/// A call that is turned down as unauthorized is made again once, with a
/// new token: the refresh token is exchanged, the new credentials are
/// handed out to be stored, and the call goes out with the new access
/// token.  What the destination answers then is final: the call is over,
/// as a success where it was accepted and as a failure where it was not,
/// whatever the status.
pub proof fn law_unauthorized_call_is_retried_once(
    credential: Credential,
    token: String,
    refresh_token: String,
    first_body: String,
    grant: TokenGrant,
    status: u16,
    second_body: String,
)
    requires
        credential.access_token == Some(token),
        credential.refresh_token == Some(refresh_token),
    ensures
        ({
            let begun = oauth_step(credential, Phase::Start, OAuthEvent::Begin);
            let rejected = oauth_step(
                begun.0,
                begun.1,
                OAuthEvent::Answered { status: UNAUTHORIZED, body: first_body },
            );
            let renewed = oauth_step(rejected.0, rejected.1, OAuthEvent::Exchanged(Ok(grant)));
            let ended = oauth_step(
                renewed.0,
                renewed.1,
                OAuthEvent::Answered { status, body: second_body },
            );
            &&& begun.2 == OAuthAction::Send { token, persist: None }
            &&& rejected.2 == OAuthAction::Refresh { refresh_token }
            &&& renewed.0 == granted(credential, grant)
            &&& renewed.2 == OAuthAction::Send {
                token: grant.access_token,
                persist: Some(granted(credential, grant)),
            }
            &&& ended.0 == renewed.0
            &&& ended.1 == Phase::Done
            &&& is_success(status) ==> ended.2 == OAuthAction::Finish(
                Ok(Confirmation { after_refresh: true, body: second_body }),
            )
            &&& !is_success(status) ==> ended.2 == OAuthAction::Finish(
                Err(PublishError::RejectedAfterRefresh { status, body: second_body }),
            )
        }),
{
}

/// A call ends after five steps at most, whatever happens: one token
/// exchange before the first call, the first call, one token exchange
/// after it, the second call, and nothing after that.
pub proof fn law_call_ends(
    credential: Credential,
    first: OAuthEvent,
    second: OAuthEvent,
    third: OAuthEvent,
    fourth: OAuthEvent,
    fifth: OAuthEvent,
)
    ensures
        ({
            let a = oauth_step(credential, Phase::Start, first);
            let b = oauth_step(a.0, a.1, second);
            let c = oauth_step(b.0, b.1, third);
            let d = oauth_step(c.0, c.1, fourth);
            let e = oauth_step(d.0, d.1, fifth);
            e.1 == Phase::Done && e.2 is Finish
        }),
{
    let a = oauth_step(credential, Phase::Start, first);
    let b = oauth_step(a.0, a.1, second);
    let c = oauth_step(b.0, b.1, third);
    let d = oauth_step(c.0, c.1, fourth);
    assert(a.1 == Phase::FirstRefresh || a.1 == Phase::FirstSend || a.1 == Phase::Done);
    assert(b.1 == Phase::FirstSend || b.1 == Phase::RetryRefresh || b.1 == Phase::Done);
    assert(c.1 == Phase::RetryRefresh || c.1 == Phase::RetrySend || c.1 == Phase::Done);
    assert(d.1 == Phase::RetrySend || d.1 == Phase::Done);
}

} // verus!
