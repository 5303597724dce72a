use populatrs::oauth::{
    Credential, OAuthAction, OAuthEvent, Phase, PublishError, TokenError, TokenGrant,
};
use populatrs::oauth::TokenPlan;

fn grant(access: &str, refresh: Option<&str>) -> TokenGrant {
    TokenGrant { access_token: access.to_string(), refresh_token: refresh.map(|r| r.to_string()) }
}

#[test]
fn a_token_at_hand_is_used() {
    let mut credential = Credential::new(Some("old".to_string()), Some("r1".to_string()));
    let (phase, action) = credential.step(Phase::Start, OAuthEvent::Begin);
    assert_eq!(phase, Phase::FirstSend);
    match action {
        OAuthAction::Send { token, persist } => {
            assert_eq!(token, "old");
            assert!(persist.is_none());
        }
        other => panic!("unexpected {:?}", other),
    }
    let (phase, action) =
        credential.step(phase, OAuthEvent::Answered { status: 201, body: "{}".to_string() });
    assert_eq!(phase, Phase::Done);
    match action {
        OAuthAction::Finish(Ok(confirmation)) => {
            assert!(!confirmation.after_refresh);
            assert_eq!(confirmation.body, "{}");
        }
        other => panic!("unexpected {:?}", other),
    }
}

#[test]
fn unauthorized_then_success_after_one_refresh() {
    let mut credential = Credential::new(Some("old".to_string()), Some("r1".to_string()));
    let (phase, _) = credential.step(Phase::Start, OAuthEvent::Begin);
    let (phase, action) =
        credential.step(phase, OAuthEvent::Answered { status: 401, body: "expired".to_string() });
    assert_eq!(phase, Phase::RetryRefresh);
    match action {
        OAuthAction::Refresh { refresh_token } => assert_eq!(refresh_token, "r1"),
        other => panic!("unexpected {:?}", other),
    }
    let (phase, action) = credential.step(phase, OAuthEvent::Exchanged(Ok(grant("new", Some("r2")))));
    assert_eq!(phase, Phase::RetrySend);
    match action {
        OAuthAction::Send { token, persist } => {
            assert_eq!(token, "new");
            let stored = persist.expect("new credentials are to be stored");
            assert_eq!(stored.access_token.as_deref(), Some("new"));
            assert_eq!(stored.refresh_token.as_deref(), Some("r2"));
        }
        other => panic!("unexpected {:?}", other),
    }
    assert_eq!(credential.access_token.as_deref(), Some("new"));
    assert_eq!(credential.refresh_token.as_deref(), Some("r2"));
    let (phase, action) =
        credential.step(phase, OAuthEvent::Answered { status: 200, body: "done".to_string() });
    assert_eq!(phase, Phase::Done);
    match action {
        OAuthAction::Finish(Ok(confirmation)) => {
            assert!(confirmation.after_refresh);
            assert_eq!(confirmation.body, "done");
        }
        other => panic!("unexpected {:?}", other),
    }
}

#[test]
fn unauthorized_twice_is_final() {
    let mut credential = Credential::new(Some("old".to_string()), Some("r1".to_string()));
    let (phase, _) = credential.step(Phase::Start, OAuthEvent::Begin);
    let (phase, _) = credential.step(phase, OAuthEvent::Answered { status: 401, body: "a".to_string() });
    let (phase, _) = credential.step(phase, OAuthEvent::Exchanged(Ok(grant("new", None))));
    // the refresh token stays where none was issued
    assert_eq!(credential.refresh_token.as_deref(), Some("r1"));
    let (phase, action) =
        credential.step(phase, OAuthEvent::Answered { status: 401, body: "b".to_string() });
    assert_eq!(phase, Phase::Done);
    match action {
        OAuthAction::Finish(Err(PublishError::RejectedAfterRefresh { status, body })) => {
            assert_eq!(status, 401);
            assert_eq!(body, "b");
        }
        other => panic!("unexpected {:?}", other),
    }
    // nothing more is asked for
    let (phase, action) = credential.step(phase, OAuthEvent::Begin);
    assert_eq!(phase, Phase::Done);
    assert!(matches!(action, OAuthAction::Finish(Err(PublishError::OutOfTurn))));
}

#[test]
fn no_token_at_hand_refreshes_first() {
    let mut credential = Credential::new(None, Some("r1".to_string()));
    let (phase, action) = credential.step(Phase::Start, OAuthEvent::Begin);
    assert_eq!(phase, Phase::FirstRefresh);
    assert!(matches!(action, OAuthAction::Refresh { ref refresh_token } if refresh_token == "r1"));
    let (phase, action) = credential.step(phase, OAuthEvent::Exchanged(Ok(grant("fresh", None))));
    assert_eq!(phase, Phase::FirstSend);
    match action {
        OAuthAction::Send { token, persist } => {
            assert_eq!(token, "fresh");
            assert!(persist.is_some());
        }
        other => panic!("unexpected {:?}", other),
    }
}

#[test]
fn no_tokens_at_all_fails() {
    let mut credential = Credential::new(None, None);
    let (phase, action) = credential.step(Phase::Start, OAuthEvent::Begin);
    assert_eq!(phase, Phase::Done);
    assert!(matches!(action, OAuthAction::Finish(Err(PublishError::Token(TokenError::NoRefreshToken)))));
}

#[test]
fn a_failed_first_refresh_fails_the_call() {
    let mut credential = Credential::new(None, Some("r".to_string()));
    let (phase, _) = credential.step(Phase::Start, OAuthEvent::Begin);
    let (phase, action) = credential.step(phase, OAuthEvent::Exchanged(Err(TokenError::NoAccessToken)));
    assert_eq!(phase, Phase::Done);
    assert!(matches!(action, OAuthAction::Finish(Err(PublishError::Token(TokenError::NoAccessToken)))));
    assert!(credential.access_token.is_none());
}

#[test]
fn a_failed_refresh_after_rejection_fails_the_call() {
    let mut credential = Credential::new(Some("t".to_string()), Some("r".to_string()));
    let (phase, _) = credential.step(Phase::Start, OAuthEvent::Begin);
    let (phase, _) = credential.step(phase, OAuthEvent::Answered { status: 401, body: String::new() });
    let (phase, action) = credential.step(
        phase,
        OAuthEvent::Exchanged(Err(TokenError::Rejected { status: 400, body: "bad".to_string() })),
    );
    assert_eq!(phase, Phase::Done);
    match action {
        OAuthAction::Finish(Err(PublishError::RefreshFailed(TokenError::Rejected { status, body }))) => {
            assert_eq!(status, 400);
            assert_eq!(body, "bad");
        }
        other => panic!("unexpected {:?}", other),
    }
    assert_eq!(credential.access_token.as_deref(), Some("t"));
}

#[test]
fn unauthorized_without_refresh_token_fails() {
    let mut credential = Credential::new(Some("t".to_string()), None);
    let (phase, _) = credential.step(Phase::Start, OAuthEvent::Begin);
    let (phase, action) = credential.step(phase, OAuthEvent::Answered { status: 401, body: String::new() });
    assert_eq!(phase, Phase::Done);
    assert!(matches!(
        action,
        OAuthAction::Finish(Err(PublishError::RefreshFailed(TokenError::NoRefreshToken)))
    ));
}

#[test]
fn other_rejections_are_final_at_once() {
    let mut credential = Credential::new(Some("t".to_string()), Some("r".to_string()));
    let (phase, _) = credential.step(Phase::Start, OAuthEvent::Begin);
    let (phase, action) =
        credential.step(phase, OAuthEvent::Answered { status: 403, body: "forbidden".to_string() });
    assert_eq!(phase, Phase::Done);
    match action {
        OAuthAction::Finish(Err(PublishError::Rejected { status, body })) => {
            assert_eq!(status, 403);
            assert_eq!(body, "forbidden");
        }
        other => panic!("unexpected {:?}", other),
    }
}

#[test]
fn grants_are_read_from_json() {
    let full = TokenGrant::read(200, "{\"access_token\":\"A\",\"refresh_token\":\"R\",\"expires_in\":3600}").unwrap();
    assert_eq!(full.access_token, "A");
    assert_eq!(full.refresh_token.as_deref(), Some("R"));
    let bare = TokenGrant::read(200, "{\"access_token\":\"A\"}").unwrap();
    assert_eq!(bare.access_token, "A");
    assert!(bare.refresh_token.is_none());
    assert!(matches!(TokenGrant::read(200, "{\"token\":\"A\"}"), Err(TokenError::NoAccessToken)));
    assert!(matches!(TokenGrant::read(200, "{\"access_token\":5}"), Err(TokenError::NoAccessToken)));
    assert!(matches!(TokenGrant::read(200, "not json"), Err(TokenError::Unreadable)));
    match TokenGrant::read(400, "{\"access_token\":\"A\"}") {
        Err(TokenError::Rejected { status, body }) => {
            assert_eq!(status, 400);
            assert_eq!(body, "{\"access_token\":\"A\"}");
        }
        other => panic!("unexpected {:?}", other),
    }
}

#[test]
fn failures_are_described() {
    assert_eq!(TokenError::NoRefreshToken.describe(), "No refresh token available");
    assert_eq!(
        TokenError::Rejected { status: 400, body: "bad".to_string() }.describe(),
        "Failed to refresh token: 400 - bad"
    );
    assert_eq!(
        PublishError::Rejected { status: 503, body: "down".to_string() }.describe(),
        "Failed to publish: 503 - down"
    );
    assert_eq!(
        PublishError::RejectedAfterRefresh { status: 401, body: "no".to_string() }.describe(),
        "Failed to publish after token refresh: 401 - no"
    );
    assert_eq!(
        PublishError::RefreshFailed(TokenError::NoRefreshToken).describe(),
        "Failed to publish - token refresh failed: No refresh token available"
    );
    assert_eq!(PublishError::NotFound("ghost".to_string()).describe(), "Publisher not found: ghost");
    assert_eq!(
        PublishError::TooLong { length: 5000, limit: 4096 }.describe(),
        "Message too long: 5000 bytes (max 4096)"
    );
    assert_eq!(
        PublishError::RejectedAfterRetry { status: 0, body: String::new() }.describe(),
        "Failed to publish after retry: 0 - "
    );
}

#[test]
fn an_exchange_answer_renews_the_credential() {
    let mut credential = Credential::new(Some("old".to_string()), Some("r1".to_string()));
    let (access, refresh) = credential.refresh_access_token(200, "{\"access_token\":\"new\"}").unwrap();
    assert_eq!(access, "new");
    assert_eq!(refresh.as_deref(), Some("r1"));
    assert_eq!(credential.access_token.as_deref(), Some("new"));
    assert_eq!(credential.refresh_token.as_deref(), Some("r1"));
    let (_, refresh) = credential
        .refresh_access_token(200, "{\"access_token\":\"newer\",\"refresh_token\":\"r2\"}")
        .unwrap();
    assert_eq!(refresh.as_deref(), Some("r2"));
    assert_eq!(credential.refresh_token.as_deref(), Some("r2"));
    assert!(matches!(
        credential.refresh_access_token(401, "{\"access_token\":\"x\"}"),
        Err(TokenError::Rejected { status: 401, .. })
    ));
    assert!(matches!(credential.refresh_access_token(200, "{}"), Err(TokenError::NoAccessToken)));
    assert_eq!(credential.access_token.as_deref(), Some("newer"));
    let copy = credential.duplicate();
    assert_eq!(copy.access_token, credential.access_token);
    assert_eq!(copy.refresh_token, credential.refresh_token);
}

#[test]
fn lifetimes_are_read_or_defaulted() {
    assert_eq!(TokenGrant::lifetime("{\"expires_in\":60}", 3600), 60);
    assert_eq!(TokenGrant::lifetime("{\"expires_in\":\"60\"}", 3600), 3600);
    assert_eq!(TokenGrant::lifetime("{\"expires_in\":-5}", 3600), 3600);
    assert_eq!(TokenGrant::lifetime("{}", 7200), 7200);
    assert_eq!(TokenGrant::lifetime("nonsense", 7200), 7200);
}

#[test]
fn grants_from_what_was_found() {
    let some = |t: &str| Some(Some(t.to_string()));
    let grant = TokenGrant::from_answer(200, "body", some("a"), some("r")).unwrap();
    assert_eq!((grant.access_token.as_str(), grant.refresh_token.as_deref()), ("a", Some("r")));
    assert!(TokenGrant::from_answer(200, "body", some("a"), Some(None)).unwrap().refresh_token.is_none());
    assert!(TokenGrant::from_answer(200, "body", some("a"), None).unwrap().refresh_token.is_none());
    assert!(matches!(TokenGrant::from_answer(200, "body", Some(None), some("r")), Err(TokenError::NoAccessToken)));
    assert!(matches!(TokenGrant::from_answer(200, "body", None, None), Err(TokenError::Unreadable)));
    assert!(matches!(
        TokenGrant::from_answer(500, "body", some("a"), some("r")),
        Err(TokenError::Rejected { status: 500, ref body }) if body == "body"
    ));
}

#[test]
fn token_plans() {
    let both = Credential::new(Some("a".to_string()), Some("r".to_string()));
    assert!(matches!(both.get_valid_access_token(), TokenPlan::Use(ref t) if t == "a"));
    let refresh_only = Credential::new(None, Some("r".to_string()));
    assert!(matches!(refresh_only.get_valid_access_token(), TokenPlan::Refresh(ref t) if t == "r"));
    assert!(matches!(Credential::new(None, None).get_valid_access_token(), TokenPlan::Missing));
}
