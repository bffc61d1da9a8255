use sq_streamhook::auth::{
    app_token_request_body, authorize_url, code_exchange_body, new_authorization_state,
    oauth_header, refresh_request_body, status_is_success, validation_header, AppAccessToken,
    AppTokenAction, AppTokenEvent, AppTokenRefresh, ClientCredentials, UserAccessToken,
    UserTokenAction, UserTokenEvent, UserTokenRefresh,
};

fn creds() -> ClientCredentials {
    ClientCredentials { client_id: "cid".to_string(), client_secret: "sec".to_string() }
}

fn user_token(access: &str, refresh: &str) -> UserAccessToken {
    UserAccessToken {
        access_token: access.to_string(),
        expires_in: 3600,
        refresh_token: refresh.to_string(),
        scope: vec!["chat:read".to_string()],
        token_type: "bearer".to_string(),
    }
}

#[test]
fn status_classes() {
    assert!(status_is_success(200));
    assert!(status_is_success(204));
    assert!(status_is_success(299));
    assert!(!status_is_success(199));
    assert!(!status_is_success(300));
    assert!(!status_is_success(401));
}

#[test]
fn request_texts() {
    assert_eq!(oauth_header("tok"), "OAuth tok");
    assert_eq!(
        app_token_request_body(&creds()),
        "client_id=cid&client_secret=sec&grant_type=client_credentials"
    );
    assert_eq!(
        refresh_request_body(&creds(), "r1"),
        "client_id=cid&client_secret=sec&grant_type=refresh_token&refresh_token=r1"
    );
    assert_eq!(
        code_exchange_body(&creds(), "c0de"),
        "client_id=cid&client_secret=sec&code=c0de&grant_type=authorization_code&redirect_uri=http://localhost:3000"
    );
}

#[test]
fn authorize_url_text() {
    assert_eq!(
        authorize_url("cid", "abc"),
        "https://id.twitch.tv/oauth2/authorize?response_type=code&client_id=cid&redirect_uri=http://localhost:3000&scope=user%3Aread%3Achat+user%3Awrite%3Achat+user%3Abot+moderator%3Aread%3Achatters&state=abc"
    );
}

#[test]
fn authorization_state_is_sixteen_alphanumerics() {
    let state = new_authorization_state();
    assert_eq!(state.chars().count(), 16);
    assert!(state.chars().all(|c| c.is_ascii_alphanumeric()));
}

#[test]
fn validation_header_needs_a_token() {
    assert_eq!(validation_header(&None), None);
    assert_eq!(validation_header(&Some("t".to_string())), Some("OAuth t".to_string()));
}

fn app_step(s: AppTokenRefresh, e: AppTokenEvent) -> (AppTokenRefresh, AppTokenAction) {
    assert!(s.accepts(&e));
    s.step(e)
}

#[test]
fn app_flow_keeps_valid_token() {
    let (s, a) = app_step(AppTokenRefresh::Start, AppTokenEvent::Begin);
    assert_eq!(s, AppTokenRefresh::Validating);
    assert!(matches!(a, AppTokenAction::ValidateStored));
    let (s, a) = app_step(s, AppTokenEvent::Validated(true));
    assert_eq!(s, AppTokenRefresh::Done);
    assert!(matches!(a, AppTokenAction::Finish));
    assert!(!s.accepts(&AppTokenEvent::Stored));
}

#[test]
fn app_flow_replaces_invalid_token() {
    let (s, _) = app_step(AppTokenRefresh::Start, AppTokenEvent::Begin);
    let (s, a) = app_step(s, AppTokenEvent::Validated(false));
    assert!(matches!(a, AppTokenAction::RequestToken));
    let token = AppAccessToken {
        access_token: "new".to_string(),
        expires_in: 10,
        token_type: "bearer".to_string(),
    };
    let (s, a) = app_step(s, AppTokenEvent::Received(token));
    match a {
        AppTokenAction::StoreToken { access_token } => assert_eq!(access_token, "new"),
        _ => panic!("expected a store"),
    }
    let (s, a) = app_step(s, AppTokenEvent::Stored);
    assert_eq!(s, AppTokenRefresh::Done);
    assert!(matches!(a, AppTokenAction::Finish));
}

#[test]
fn app_flow_refuses_out_of_order_events() {
    assert!(!AppTokenRefresh::Start.accepts(&AppTokenEvent::Stored));
    assert!(!AppTokenRefresh::Validating.accepts(&AppTokenEvent::Begin));
}

fn user_step(s: UserTokenRefresh, e: UserTokenEvent) -> (UserTokenRefresh, UserTokenAction) {
    assert!(s.accepts(&e));
    s.step(e)
}

#[test]
fn user_flow_keeps_valid_token() {
    let (s, _) = user_step(UserTokenRefresh::Start, UserTokenEvent::Begin);
    let (s, a) = user_step(s, UserTokenEvent::Validated(true));
    assert_eq!(s, UserTokenRefresh::Done);
    assert!(matches!(a, UserTokenAction::Finish));
}

#[test]
fn user_flow_uses_refresh_token() {
    let (s, _) = user_step(UserTokenRefresh::Start, UserTokenEvent::Begin);
    let (s, a) = user_step(s, UserTokenEvent::Validated(false));
    assert!(matches!(a, UserTokenAction::LoadRefreshToken));
    let (s, a) = user_step(s, UserTokenEvent::RefreshTokenLoaded(Some("r1".to_string())));
    match a {
        UserTokenAction::RequestRefresh { refresh_token } => assert_eq!(refresh_token, "r1"),
        _ => panic!("expected a refresh request"),
    }
    let (s, a) = user_step(s, UserTokenEvent::Refreshed(user_token("a2", "r2")));
    match a {
        UserTokenAction::StoreTokens { access_token, refresh_token } => {
            assert_eq!(access_token, "a2");
            assert_eq!(refresh_token, "r2");
        }
        _ => panic!("expected a store"),
    }
    let (s, a) = user_step(s, UserTokenEvent::Stored);
    assert_eq!(s, UserTokenRefresh::Done);
    assert!(matches!(a, UserTokenAction::Finish));
}

#[test]
fn user_flow_authorizes_without_refresh_token() {
    let (s, _) = user_step(UserTokenRefresh::Start, UserTokenEvent::Begin);
    let (s, _) = user_step(s, UserTokenEvent::Validated(false));
    let (s, a) = user_step(s, UserTokenEvent::RefreshTokenLoaded(None));
    assert_eq!(s, UserTokenRefresh::AwaitingCode);
    match a {
        UserTokenAction::Authorize { state } => {
            assert_eq!(state.len(), 16);
            assert!(state.chars().all(|c| c.is_ascii_alphanumeric()));
        }
        _ => panic!("expected an authorization"),
    }
    let (s, a) = user_step(s, UserTokenEvent::CodeReceived("c0de".to_string()));
    match a {
        UserTokenAction::ExchangeCode { code } => assert_eq!(code, "c0de"),
        _ => panic!("expected a code exchange"),
    }
    let (s, a) = user_step(s, UserTokenEvent::Exchanged(user_token("a3", "r3")));
    match a {
        UserTokenAction::StoreTokens { access_token, refresh_token } => {
            assert_eq!(access_token, "a3");
            assert_eq!(refresh_token, "r3");
        }
        _ => panic!("expected a store"),
    }
    let (s, _) = user_step(s, UserTokenEvent::Stored);
    assert_eq!(s, UserTokenRefresh::Done);
}
