//! X.

use vstd::prelude::*;
use crate::oauth::{
    grant_read, lifetime_read, oauth_step, Confirmation, Credential, OAuthAction, OAuthEvent, Phase,
    PublishError, TokenError, TokenGrant, TokenPlan,
};
use crate::assoc::assoc_map;
use crate::config::{with_tokens, AppConfig, TokenOwner};
use crate::json::json_text;
use crate::post::Post;
use crate::publishers::{fitted_post, named_confirmation, prepared_text, render_to_fit, Publisher};
use crate::template::TemplateRenderer;
use crate::text::{copy_opt, join, opt_text};
use crate::web::{
    base64_standard, encode_base64, pair_texts, random_identifier, url_with_pairs, url_with_query,
    QueryPair,
};

verus! {

/// The longest text that X takes, in bytes.
pub const MAX_TEXT_BYTES: usize = 280;

/// What is kept of a longer text, before the ellipsis.
pub const KEPT_TEXT_BYTES: usize = 277;

/// Where the user is sent back to where nothing else is configured.
pub open spec fn default_redirect() -> Seq<char> {
    "https://127.0.0.1"@
}

pub struct XPublisher {
    pub id: String,
    pub client_id: String,
    pub client_secret: String,
    pub credential: Credential,
    pub redirect_uri: String,
    pub template: String,
    pub renderer: TemplateRenderer,
    pub config_file_path: Option<String>,
}

impl XPublisher {
    pub fn new(
        id: String,
        client_id: String,
        client_secret: String,
        access_token: Option<String>,
        refresh_token: Option<String>,
        redirect_uri: Option<String>,
        template: String,
        config_file_path: Option<String>,
    ) -> (publisher: Self)
        ensures
            publisher.id == id,
            publisher.client_id == client_id,
            publisher.client_secret == client_secret,
            publisher.credential.access_token == access_token,
            publisher.credential.refresh_token == refresh_token,
            publisher.redirect_uri@ == match redirect_uri {
                Some(uri) => uri@,
                None => default_redirect(),
            },
            publisher.template == template,
            publisher.config_file_path == config_file_path,
    {
        XPublisher {
            id,
            client_id,
            client_secret,
            credential: Credential::new(access_token, refresh_token),
            redirect_uri: match redirect_uri {
                Some(uri) => uri,
                None => "https://127.0.0.1".to_owned(),
            },
            template,
            renderer: TemplateRenderer::new(),
            config_file_path,
        }
    }

    /// What the address of the authorization page carries in its query.
    pub open spec fn auth_query(&self, state: Seq<char>) -> Seq<(Seq<char>, Seq<char>)> {
        seq![
            ("response_type"@, "code"@),
            ("client_id"@, self.client_id@),
            ("redirect_uri"@, self.redirect_uri@),
            ("scope"@, "tweet.read tweet.write users.read offline.access"@),
            ("state"@, state),
            ("code_challenge"@, "challenge"@),
            ("code_challenge_method"@, "plain"@),
        ]
    }

    /// The address of the authorization page for the given state, and the
    /// code verifier that goes with it.
    pub fn auth_url_for(&self, state: &str) -> (page: (String, String))
        ensures
            page.1@ == "challenge"@,
            page.0@ == match url_with_pairs(
                "https://twitter.com/i/oauth2/authorize"@,
                self.auth_query(state@),
            ) {
                Some(address) => address,
                None => "https://twitter.com/i/oauth2/authorize"@,
            },
    {
        let mut pairs: Vec<QueryPair> = Vec::new();
        pairs.push(("response_type".to_owned(), "code".to_owned()));
        pairs.push(("client_id".to_owned(), self.client_id.clone()));
        pairs.push(("redirect_uri".to_owned(), self.redirect_uri.clone()));
        pairs.push(("scope".to_owned(), "tweet.read tweet.write users.read offline.access".to_owned()));
        pairs.push(("state".to_owned(), state.to_owned()));
        pairs.push(("code_challenge".to_owned(), "challenge".to_owned()));
        pairs.push(("code_challenge_method".to_owned(), "plain".to_owned()));
        assert(pair_texts(pairs@) =~= self.auth_query(state@));
        let address = match url_with_query("https://twitter.com/i/oauth2/authorize", &pairs) {
            Some(address) => address,
            None => "https://twitter.com/i/oauth2/authorize".to_owned(),
        };
        (address, "challenge".to_owned())
    }

    /// The address of the authorization page, and the code verifier that
    /// goes with it.  Where no state is given, a random one is drawn.
    pub fn generate_auth_url(&self, state: Option<String>) -> (page: (String, String))
        ensures
            page.1@ == "challenge"@,
            exists|used: Seq<char>|
                (state matches Some(given) ==> used == given@) && page.0@ == match #[trigger] url_with_pairs(
                    "https://twitter.com/i/oauth2/authorize"@,
                    self.auth_query(used),
                ) {
                    Some(address) => address,
                    None => "https://twitter.com/i/oauth2/authorize"@,
                },
    {
        let state = match state {
            Some(given) => given,
            None => random_identifier(),
        };
        self.auth_url_for(state.as_str())
    }

    /// What the token endpoint is shown to prove who is asking.
    pub fn authorization_header(&self) -> (header: String)
        ensures
            header@ == "Basic "@ + base64_standard(self.client_id@ + ":"@ + self.client_secret@),
    {
        let a = join(self.client_id.as_str(), ":");
        let b = join(a.as_str(), self.client_secret.as_str());
        join("Basic ", encode_base64(b.as_str()).as_str())
    }

    /// The text to post: of a text of more than 280 bytes the first 277
    /// and an ellipsis.
    pub fn prepare(&self, post: &Post) -> (text: Result<String, PublishError>)
        ensures
            prepared_text(text) == fitted_post(self.template@, post@, MAX_TEXT_BYTES, KEPT_TEXT_BYTES),
            text matches Err(e) ==> e is Template || e is SplitCharacter,
    {
        render_to_fit(&self.renderer, self.template.as_str(), post, MAX_TEXT_BYTES, KEPT_TEXT_BYTES)
    }

    /// Takes in the answer to the exchange of an authorization code: the
    /// tokens granted replace the old ones, and come back with the seconds
    /// for which the access token is good, 7200 where the answer does not
    /// say.
    pub fn exchange_code_for_tokens(&mut self, status: u16, body: &str) -> (tokens: Result<
        (String, Option<String>, u64),
        TokenError,
    >)
        ensures
            grant_read(status, body@) is Err ==> tokens is Err && final(self).credential == old(
                self,
            ).credential,
            grant_read(status, body@) matches Ok((access, refresh)) ==> {
                &&& tokens matches Ok(granted)
                &&& granted.0@ == access
                &&& opt_text(granted.1) == refresh
                &&& granted.2 == lifetime_read(body@, 7200)
                &&& final(self).credential.access_token matches Some(kept) && kept@ == access
                &&& opt_text(final(self).credential.refresh_token) == match refresh {
                    Some(new) => Some(new),
                    None => opt_text(old(self).credential.refresh_token),
                }
            },
    {
        match TokenGrant::read(status, body) {
            Ok(grant) => {
                let access = grant.access_token.clone();
                let refresh = copy_opt(&grant.refresh_token);
                self.credential.accept(grant);
                Ok((access, refresh, TokenGrant::lifetime(body, 7200)))
            },
            Err(error) => Err(error),
        }
    }

    /// What to do for a token before a call: use the access token at
    /// hand, else exchange the refresh token.
    pub fn get_valid_access_token(&self) -> (plan: TokenPlan)
        ensures
            plan == match (self.credential.access_token, self.credential.refresh_token) {
                (Some(token), _) => TokenPlan::Use(token),
                (None, Some(token)) => TokenPlan::Refresh(token),
                (None, None) => TokenPlan::Missing,
            },
    {
        self.credential.get_valid_access_token()
    }

    /// Takes in the answer to the exchange of the refresh token.  Where it
    /// grants tokens, they replace the old ones, the refresh token only
    /// where a new one was issued, and the tokens now in force come back;
    /// else nothing changes.
    pub fn refresh_access_token(&mut self, status: u16, body: &str) -> (tokens: Result<
        (String, Option<String>),
        TokenError,
    >)
        ensures
            grant_read(status, body@) is Err ==> tokens is Err && final(self).credential == old(
                self,
            ).credential,
            grant_read(status, body@) matches Ok((access, refresh)) ==> {
                &&& tokens matches Ok(now)
                &&& now.0@ == access
                &&& final(self).credential.access_token == Some(now.0)
                &&& final(self).credential.refresh_token == now.1
                &&& opt_text(now.1) == match refresh {
                    Some(new) => Some(new),
                    None => opt_text(old(self).credential.refresh_token),
                }
            },
    {
        self.credential.refresh_access_token(status, body)
    }

    /// Writes tokens into the configuration of this destination, where
    /// the configuration has a destination of this kind under this id.
    pub fn save_tokens_to_config(&self, config: &mut AppConfig, access_token: String, refresh_token: Option<String>)
        ensures
            final(config).feeds == old(config).feeds,
            final(config).youtube == old(config).youtube,
            final(config).schedule == old(config).schedule,
            final(config).storage == old(config).storage,
            !assoc_map(old(config).publishers@).dom().contains(self.id@) ==> final(config).publishers@
                == old(config).publishers@,
            assoc_map(old(config).publishers@).dom().contains(self.id@) ==> assoc_map(
                final(config).publishers@,
            ) == assoc_map(old(config).publishers@).insert(
                self.id@,
                with_tokens(
                    assoc_map(old(config).publishers@)[self.id@],
                    TokenOwner::X,
                    access_token,
                    refresh_token,
                ),
            ),
    {
        config.store_tokens(self.id.as_str(), TokenOwner::X, access_token, refresh_token);
    }

    /// One step of a publish call: takes in what happened and says what to
    /// do next.
    pub fn step(&mut self, phase: Phase, event: OAuthEvent) -> (next: (Phase, OAuthAction))
        ensures
            (final(self).credential, next.0, next.1) == oauth_step(old(self).credential, phase, event),
            final(self).id == old(self).id,
            final(self).client_id == old(self).client_id,
            final(self).client_secret == old(self).client_secret,
            final(self).redirect_uri == old(self).redirect_uri,
            final(self).template == old(self).template,
            final(self).config_file_path == old(self).config_file_path,
    {
        self.credential.step(phase, event)
    }

    /// How an accepted call is confirmed.
    pub open spec fn confirmed(confirmation: Confirmation) -> Option<Seq<char>> {
        named_confirmation(
            if confirmation.after_refresh {
                "Published to X (after token refresh): "@
            } else {
                "Published to X: "@
            },
            confirmation.body@,
            "/data/id"@,
        )
    }

    /// Words the confirmation of an accepted call.  An answer that is no
    /// JSON is a failure.
    pub fn confirm(confirmation: &Confirmation) -> (result: Result<String, PublishError>)
        ensures
            match XPublisher::confirmed(*confirmation) {
                Some(text) => result matches Ok(t) && t@ == text,
                None => result matches Err(PublishError::Unreadable),
            },
    {
        let prefix = if confirmation.after_refresh {
            "Published to X (after token refresh): "
        } else {
            "Published to X: "
        };
        match json_text(confirmation.body.as_str(), "/data/id") {
            Some(Some(name)) => Ok(join(prefix, name.as_str())),
            Some(None) => Ok(join(prefix, "unknown")),
            None => Err(PublishError::Unreadable),
        }
    }
}

impl Publisher for XPublisher {
    open spec fn kind_text(&self) -> Seq<char> {
        "x"@
    }

    open spec fn id_text(&self) -> Seq<char> {
        self.id@
    }

    fn get_type(&self) -> (name: &'static str) {
        "x"
    }

    fn get_id(&self) -> (id: &str) {
        self.id.as_str()
    }
}

} // verus!
