//! LinkedIn.

use vstd::prelude::*;
use crate::feed::{is_success, status_is_success};
use crate::json::{json_text, json_text_at};
use crate::oauth::{
    grant_read, lifetime_read, oauth_step, Confirmation, Credential, OAuthAction, OAuthEvent, Phase,
    PublishError, TokenError, TokenGrant, TokenPlan,
};
use crate::assoc::assoc_map;
use crate::config::{with_tokens, AppConfig, TokenOwner};
use crate::post::Post;
use crate::publishers::{
    named_confirmation, post_rendering, prepared_text, render_post, Publisher,
};
use crate::template::{TemplateFault, TemplateRenderer};
use crate::text::{copy_opt, join, opt_text, to_chars};
use crate::web::{pair_texts, random_identifier, url_with_pairs, url_with_query, QueryPair};

verus! {

/// Where the user is sent back to where nothing else is configured.
pub open spec fn default_redirect() -> Seq<char> {
    "https://127.0.0.1"@
}

/// The character is one of the ten digits.
pub open spec fn is_digit(c: char) -> bool {
    '0' <= c <= '9'
}

/// Every character of the text is a digit.
pub open spec fn all_digits(text: Seq<char>) -> bool {
    forall|i: int| 0 <= i < text.len() ==> is_digit(#[trigger] text[i])
}

/// The author that a configured user id names: an organization where the
/// id is made of digits, else a person.
pub open spec fn configured_author(user_id: Seq<char>) -> Seq<char> {
    if all_digits(user_id) {
        "urn:li:organization:"@ + user_id
    } else {
        "urn:li:person:"@ + user_id
    }
}

pub struct LinkedInPublisher {
    pub id: String,
    pub client_id: String,
    pub client_secret: String,
    pub credential: Credential,
    pub user_id: Option<String>,
    pub redirect_uri: String,
    pub template: String,
    pub renderer: TemplateRenderer,
    pub config_file_path: Option<String>,
}

/// The ways in which the lookup of the own profile fails.
pub enum ProfileFault {
    Rejected,
    Unreadable,
    Incomplete,
}

impl LinkedInPublisher {
    pub fn new(
        id: String,
        client_id: String,
        client_secret: String,
        access_token: Option<String>,
        refresh_token: Option<String>,
        user_id: Option<String>,
        redirect_uri: Option<String>,
        template: String,
        config_file_path: Option<String>,
    ) -> (publisher: Self)
        ensures
            publisher.id == id,
            publisher.client_id == client_id,
            publisher.client_secret == client_secret,
            publisher.credential.access_token == access_token,
            publisher.credential.refresh_token == refresh_token,
            publisher.user_id == user_id,
            publisher.redirect_uri@ == match redirect_uri {
                Some(uri) => uri@,
                None => default_redirect(),
            },
            publisher.template == template,
            publisher.config_file_path == config_file_path,
    {
        LinkedInPublisher {
            id,
            client_id,
            client_secret,
            credential: Credential::new(access_token, refresh_token),
            user_id,
            redirect_uri: match redirect_uri {
                Some(uri) => uri,
                None => "https://127.0.0.1".to_owned(),
            },
            template,
            renderer: TemplateRenderer::new(),
            config_file_path,
        }
    }

    /// What the address of the authorization page carries in its query.
    pub open spec fn auth_query(&self, state: Seq<char>) -> Seq<(Seq<char>, Seq<char>)> {
        seq![
            ("response_type"@, "code"@),
            ("client_id"@, self.client_id@),
            ("redirect_uri"@, self.redirect_uri@),
            ("scope"@, "w_member_social openid profile email"@),
            ("state"@, state),
        ]
    }

    /// The address of the authorization page for the given state.
    pub fn auth_url_for(&self, state: &str) -> (address: String)
        ensures
            address@ == match url_with_pairs(
                "https://www.linkedin.com/oauth/v2/authorization"@,
                self.auth_query(state@),
            ) {
                Some(address) => address,
                None => "https://www.linkedin.com/oauth/v2/authorization"@,
            },
    {
        let mut pairs: Vec<QueryPair> = Vec::new();
        pairs.push(("response_type".to_owned(), "code".to_owned()));
        pairs.push(("client_id".to_owned(), self.client_id.clone()));
        pairs.push(("redirect_uri".to_owned(), self.redirect_uri.clone()));
        pairs.push(("scope".to_owned(), "w_member_social openid profile email".to_owned()));
        pairs.push(("state".to_owned(), state.to_owned()));
        assert(pair_texts(pairs@) =~= self.auth_query(state@));
        match url_with_query("https://www.linkedin.com/oauth/v2/authorization", &pairs) {
            Some(address) => address,
            None => "https://www.linkedin.com/oauth/v2/authorization".to_owned(),
        }
    }

    /// The address of the authorization page.  Where no state is given, a
    /// random one is drawn.
    pub fn generate_auth_url(&self, state: Option<String>) -> (address: String)
        ensures
            exists|used: Seq<char>|
                (state matches Some(given) ==> used == given@) && address@ == match #[trigger] url_with_pairs(
                    "https://www.linkedin.com/oauth/v2/authorization"@,
                    self.auth_query(used),
                ) {
                    Some(address) => address,
                    None => "https://www.linkedin.com/oauth/v2/authorization"@,
                },
    {
        let state = match state {
            Some(given) => given,
            None => random_identifier(),
        };
        self.auth_url_for(state.as_str())
    }

    /// The commentary to post.
    pub fn prepare(&self, post: &Post) -> (text: Result<String, PublishError>)
        ensures
            prepared_text(text) == match post_rendering(self.template@, post@) {
                Ok(t) => Ok::<Seq<char>, Option<TemplateFault>>(t),
                Err(fault) => Err(Some(fault)),
            },
    {
        render_post(&self.renderer, self.template.as_str(), post)
    }

    /// Whether every character of the text is a digit.
    pub fn is_all_digits(text: &str) -> (all: bool)
        ensures
            all == all_digits(text@),
    {
        let chars = to_chars(text);
        let mut i: usize = 0;
        while i < chars.len()
            invariant
                i <= chars@.len(),
                chars@ == text@,
                forall|k: int| 0 <= k < i ==> is_digit(#[trigger] chars@[k]),
            decreases chars@.len() - i,
        {
            let c = chars[i];
            if !('0' <= c && c <= '9') {
                assert(!is_digit(text@[i as int]));
                return false;
            }
            i += 1;
        }
        true
    }

    /// The author under which posts appear, where a user id is configured;
    /// else the own profile has to be looked up.
    pub fn author_urn(&self) -> (author: Option<String>)
        ensures
            match self.user_id {
                Some(user_id) => author matches Some(urn) && urn@ == configured_author(user_id@),
                None => author is None,
            },
    {
        match &self.user_id {
            Some(user_id) => if LinkedInPublisher::is_all_digits(user_id.as_str()) {
                Some(join("urn:li:organization:", user_id.as_str()))
            } else {
                Some(join("urn:li:person:", user_id.as_str()))
            },
            None => None,
        }
    }

    /// The author that a lookup of the own profile names.
    pub open spec fn profile_author(status: u16, body: Seq<char>) -> Result<Seq<char>, ProfileFault> {
        if !is_success(status) {
            Err(ProfileFault::Rejected)
        } else {
            match json_text_at(body, "/id"@) {
                Some(Some(id)) => Ok("urn:li:person:"@ + id),
                Some(None) => Err(ProfileFault::Incomplete),
                None => Err(ProfileFault::Unreadable),
            }
        }
    }

    /// Reads the answer to the lookup of the own profile.
    pub fn get_user_profile(status: u16, body: &str) -> (author: Result<String, PublishError>)
        ensures
            match LinkedInPublisher::profile_author(status, body@) {
                Ok(urn) => author matches Ok(a) && a@ == urn,
                Err(ProfileFault::Rejected) => author matches Err(
                    PublishError::Rejected { status: s, body: b },
                ) && s == status && b@ == body@,
                Err(ProfileFault::Incomplete) => author matches Err(PublishError::Incomplete),
                Err(ProfileFault::Unreadable) => author matches Err(PublishError::Unreadable),
            },
    {
        if !status_is_success(status) {
            return Err(PublishError::Rejected { status, body: body.to_owned() });
        }
        match json_text(body, "/id") {
            Some(Some(id)) => Ok(join("urn:li:person:", id.as_str())),
            Some(None) => Err(PublishError::Incomplete),
            None => Err(PublishError::Unreadable),
        }
    }

    /// Takes in the answer to the exchange of an authorization code: the
    /// tokens granted replace the old ones, and come back with the seconds
    /// for which the access token is good, 3600 where the answer does not
    /// say.
    pub fn exchange_code_for_tokens(&mut self, status: u16, body: &str) -> (tokens: Result<
        (String, Option<String>, u64),
        TokenError,
    >)
        ensures
            grant_read(status, body@) is Err ==> tokens is Err && final(self).credential == old(
                self,
            ).credential,
            grant_read(status, body@) matches Ok((access, refresh)) ==> {
                &&& tokens matches Ok(granted)
                &&& granted.0@ == access
                &&& opt_text(granted.1) == refresh
                &&& granted.2 == lifetime_read(body@, 3600)
                &&& final(self).credential.access_token matches Some(kept) && kept@ == access
                &&& opt_text(final(self).credential.refresh_token) == match refresh {
                    Some(new) => Some(new),
                    None => opt_text(old(self).credential.refresh_token),
                }
            },
    {
        match TokenGrant::read(status, body) {
            Ok(grant) => {
                let access = grant.access_token.clone();
                let refresh = copy_opt(&grant.refresh_token);
                self.credential.accept(grant);
                Ok((access, refresh, TokenGrant::lifetime(body, 3600)))
            },
            Err(error) => Err(error),
        }
    }

    /// What to do for a token before a call: use the access token at
    /// hand, else exchange the refresh token.
    pub fn get_valid_access_token(&self) -> (plan: TokenPlan)
        ensures
            plan == match (self.credential.access_token, self.credential.refresh_token) {
                (Some(token), _) => TokenPlan::Use(token),
                (None, Some(token)) => TokenPlan::Refresh(token),
                (None, None) => TokenPlan::Missing,
            },
    {
        self.credential.get_valid_access_token()
    }

    /// Takes in the answer to the exchange of the refresh token.  Where it
    /// grants tokens, they replace the old ones, the refresh token only
    /// where a new one was issued, and the tokens now in force come back;
    /// else nothing changes.
    pub fn refresh_access_token(&mut self, status: u16, body: &str) -> (tokens: Result<
        (String, Option<String>),
        TokenError,
    >)
        ensures
            grant_read(status, body@) is Err ==> tokens is Err && final(self).credential == old(
                self,
            ).credential,
            grant_read(status, body@) matches Ok((access, refresh)) ==> {
                &&& tokens matches Ok(now)
                &&& now.0@ == access
                &&& final(self).credential.access_token == Some(now.0)
                &&& final(self).credential.refresh_token == now.1
                &&& opt_text(now.1) == match refresh {
                    Some(new) => Some(new),
                    None => opt_text(old(self).credential.refresh_token),
                }
            },
    {
        self.credential.refresh_access_token(status, body)
    }

    /// Writes tokens into the configuration of this destination, where
    /// the configuration has a destination of this kind under this id.
    pub fn save_tokens_to_config(&self, config: &mut AppConfig, access_token: String, refresh_token: Option<String>)
        ensures
            final(config).feeds == old(config).feeds,
            final(config).youtube == old(config).youtube,
            final(config).schedule == old(config).schedule,
            final(config).storage == old(config).storage,
            !assoc_map(old(config).publishers@).dom().contains(self.id@) ==> final(config).publishers@
                == old(config).publishers@,
            assoc_map(old(config).publishers@).dom().contains(self.id@) ==> assoc_map(
                final(config).publishers@,
            ) == assoc_map(old(config).publishers@).insert(
                self.id@,
                with_tokens(
                    assoc_map(old(config).publishers@)[self.id@],
                    TokenOwner::LinkedIn,
                    access_token,
                    refresh_token,
                ),
            ),
    {
        config.store_tokens(self.id.as_str(), TokenOwner::LinkedIn, access_token, refresh_token);
    }

    /// One step of a publish call: takes in what happened and says what to
    /// do next.
    pub fn step(&mut self, phase: Phase, event: OAuthEvent) -> (next: (Phase, OAuthAction))
        ensures
            (final(self).credential, next.0, next.1) == oauth_step(old(self).credential, phase, event),
            final(self).id == old(self).id,
            final(self).client_id == old(self).client_id,
            final(self).client_secret == old(self).client_secret,
            final(self).user_id == old(self).user_id,
            final(self).redirect_uri == old(self).redirect_uri,
            final(self).template == old(self).template,
            final(self).config_file_path == old(self).config_file_path,
    {
        self.credential.step(phase, event)
    }

    /// How an accepted call is confirmed.
    pub open spec fn confirmed(confirmation: Confirmation) -> Option<Seq<char>> {
        named_confirmation(
            if confirmation.after_refresh {
                "Published to LinkedIn (after token refresh): "@
            } else {
                "Published to LinkedIn: "@
            },
            confirmation.body@,
            "/id"@,
        )
    }

    /// Words the confirmation of an accepted call.  An answer that is no
    /// JSON is a failure.
    pub fn confirm(confirmation: &Confirmation) -> (result: Result<String, PublishError>)
        ensures
            match LinkedInPublisher::confirmed(*confirmation) {
                Some(text) => result matches Ok(t) && t@ == text,
                None => result matches Err(PublishError::Unreadable),
            },
    {
        let prefix = if confirmation.after_refresh {
            "Published to LinkedIn (after token refresh): "
        } else {
            "Published to LinkedIn: "
        };
        match json_text(confirmation.body.as_str(), "/id") {
            Some(Some(name)) => Ok(join(prefix, name.as_str())),
            Some(None) => Ok(join(prefix, "unknown")),
            None => Err(PublishError::Unreadable),
        }
    }
}

impl Publisher for LinkedInPublisher {
    open spec fn kind_text(&self) -> Seq<char> {
        "linkedin"@
    }

    open spec fn id_text(&self) -> Seq<char> {
        self.id@
    }

    fn get_type(&self) -> (name: &'static str) {
        "linkedin"
    }

    fn get_id(&self) -> (id: &str) {
        self.id.as_str()
    }
}

} // verus!
