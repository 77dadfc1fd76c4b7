use snowflake_api::responses::{
    AuthErrorResponseData, AuthResponse, BaseRestResponse, LoginResponseData,
    RenewSessionResponseData, SessionInfo,
};
use snowflake_api::session::{
    close_outcome, tokens_from_login, tokens_from_renew, AuthError, AuthToken, AuthTokens,
    AuthType, Expiry, SessionBuilder, TokenAction, TokenState,
};
use snowflake_api::requests::LoginBody;

fn login_reply(token: &str, master: &str, validity: i64) -> AuthResponse {
    AuthResponse::Login(BaseRestResponse {
        code: None,
        message: None,
        success: true,
        data: LoginResponseData {
            session_id: 1,
            token: token.to_string(),
            master_token: master.to_string(),
            server_version: "8".to_string(),
            parameters: vec![],
            session_info: SessionInfo {
                database_name: None,
                schema_name: None,
                warehouse_name: None,
                role_name: "PUBLIC".to_string(),
            },
            master_validity_in_seconds: validity,
            validity_in_seconds: validity,
        },
    })
}

fn renew_reply(token: &str, master: &str) -> AuthResponse {
    AuthResponse::Renew(BaseRestResponse {
        code: None,
        message: None,
        success: true,
        data: RenewSessionResponseData {
            session_token: token.to_string(),
            validity_in_seconds_s_t: 3600,
            master_token: master.to_string(),
            validity_in_seconds_m_t: 14400,
            session_id: 1,
        },
    })
}

fn error_reply(code: &str, message: &str) -> AuthResponse {
    AuthResponse::Error(BaseRestResponse {
        code: Some(code.to_string()),
        message: Some(message.to_string()),
        success: false,
        data: AuthErrorResponseData { authn_method: "PASSWORD".to_string() },
    })
}

#[test]
fn negative_validity_never_expires() {
    let t = AuthToken::new("abc", -1);
    assert_eq!(t.valid_for_secs, u64::MAX);
    assert!(!t.is_expired());
    assert!(!t.is_expired_after(1_000_000));
}

#[test]
fn zero_validity_is_expired() {
    let t = AuthToken::new("abc", 0);
    assert!(t.is_expired());
    assert!(t.is_expired_after(0));
}

#[test]
fn validity_is_compared_in_seconds() {
    let t = AuthToken::new("abc", 60);
    assert!(!t.is_expired_after(59));
    assert!(t.is_expired_after(60));
}

#[test]
fn auth_header_quotes_token() {
    let t = AuthToken::new("tok", 10);
    assert_eq!(t.auth_header(), "Snowflake Token=\"tok\"");
}

#[test]
fn sequence_counts_up_from_one() {
    let mut state = TokenState::new();
    assert_eq!(state.next_action(state.expiry()), TokenAction::Login);
    state.install(tokens_from_login(login_reply("s", "m", 3600)).unwrap());
    let mut seen = vec![];
    for _ in 0..5 {
        assert_eq!(state.next_action(state.expiry()), TokenAction::Reuse);
        let parts = state.issue().unwrap();
        assert_eq!(parts.session_token_auth_header, "Snowflake Token=\"s\"");
        seen.push(parts.sequence_id);
    }
    assert_eq!(seen, vec![1, 2, 3, 4, 5]);
}

#[test]
fn renewal_keeps_sequence() {
    let mut state = TokenState::new();
    state.install(tokens_from_login(login_reply("s", "m", 3600)).unwrap());
    state.issue().unwrap();
    state.issue().unwrap();
    assert_eq!(state.next_action(Expiry::SessionExpired), TokenAction::Renew);
    let old = state.tokens.as_ref().unwrap();
    let (header, body) = old.renew_request();
    assert_eq!(header, "Snowflake Token=\"m\"");
    assert_eq!(body.old_session_token, "s");
    assert_eq!(body.request_type, "RENEW");
    let fresh = tokens_from_renew(old, renew_reply("s2", "m2")).unwrap();
    assert_eq!(fresh.sequence_id, 2);
    let parts = state.advance(Expiry::SessionExpired, Some(fresh)).unwrap();
    assert_eq!(parts.sequence_id, 3);
    assert_eq!(parts.session_token_auth_header, "Snowflake Token=\"s2\"");
}

#[test]
fn master_expiry_logs_in_again() {
    let mut state = TokenState::new();
    state.install(tokens_from_login(login_reply("s", "m", 3600)).unwrap());
    state.issue().unwrap();
    state.issue().unwrap();
    assert_eq!(state.next_action(Expiry::MasterExpired), TokenAction::Login);
    let fresh = tokens_from_login(login_reply("t", "n", 3600)).unwrap();
    let parts = state.advance(Expiry::MasterExpired, Some(fresh)).unwrap();
    assert_eq!(parts.sequence_id, 1);
    assert_eq!(parts.session_token_auth_header, "Snowflake Token=\"t\"");
}

#[test]
fn expired_master_token_is_seen() {
    let tokens = tokens_from_login(login_reply("s", "m", 0)).unwrap();
    assert_eq!(tokens.expiry(), Expiry::MasterExpired);
    assert_eq!(AuthTokens::expiry_from(false, true), Expiry::SessionExpired);
    assert_eq!(AuthTokens::expiry_from(true, true), Expiry::MasterExpired);
    assert_eq!(AuthTokens::expiry_from(false, false), Expiry::Fresh);
}

#[test]
fn advance_counts_from_login() {
    let mut state = TokenState::new();
    assert!(matches!(state.advance(Expiry::Fresh, None), Err(AuthError::TokenFetchFailed)));
    let fresh = tokens_from_login(login_reply("s", "m", 3600)).unwrap();
    assert_eq!(state.advance(Expiry::Fresh, Some(fresh)).unwrap().sequence_id, 1);
    assert_eq!(state.advance(Expiry::Fresh, None).unwrap().sequence_id, 2);
    assert_eq!(state.advance(Expiry::Fresh, None).unwrap().sequence_id, 3);
}

#[test]
fn issue_without_tokens_fails() {
    let mut state = TokenState::new();
    assert!(matches!(state.issue(), Err(AuthError::TokenFetchFailed)));
}

#[test]
fn login_error_reply_is_auth_failed() {
    match tokens_from_login(error_reply("390100", "Incorrect username or password")) {
        Err(AuthError::AuthFailed(code, message)) => {
            assert_eq!(code, "390100");
            assert_eq!(message, "Incorrect username or password");
        }
        other => panic!("unexpected {:?}", other),
    }
}

#[test]
fn login_reply_of_wrong_shape_is_unexpected() {
    assert!(matches!(tokens_from_login(renew_reply("a", "b")), Err(AuthError::UnexpectedResponse)));
}

#[test]
fn close_reply_outcomes() {
    let closed = AuthResponse::Close(BaseRestResponse { code: None, message: None, success: true, data: None });
    assert!(close_outcome(closed).is_ok());
    assert!(matches!(close_outcome(error_reply("1", "x")), Err(AuthError::AuthFailed(_, _))));
    assert!(matches!(close_outcome(login_reply("a", "b", 1)), Err(AuthError::UnexpectedResponse)));
}

#[test]
fn builder_uppercases_username_and_sets_params() {
    let session = SessionBuilder::new("acc", "jane")
        .warehouse(Some("wh"))
        .database(None)
        .schema(Some("public"))
        .role(Some("analyst"))
        .build_password("pw");
    assert_eq!(session.username, "JANE");
    assert_eq!(session.account_identifier, "ACC");
    let params = session.login_query_params();
    assert_eq!(
        params,
        vec![
            ("warehouse".to_string(), "wh".to_string()),
            ("schemaName".to_string(), "public".to_string()),
            ("roleName".to_string(), "analyst".to_string()),
        ]
    );
    assert!(session.close_auth_header().is_none());
}

#[test]
fn password_login_body() {
    let session = SessionBuilder::new("acc", "jane").build_password("pw");
    match session.login_body() {
        Ok(LoginBody::Password(body)) => {
            assert_eq!(body.data.password, "pw");
            let c = body.data.login_request_common;
            assert_eq!(c.client_app_id, "Go");
            assert_eq!(c.client_app_version, "1.6.22");
            assert_eq!(c.account_name, "ACC");
            assert_eq!(c.login_name, "JANE");
            assert!(c.session_parameters.client_validate_default_parameters);
            assert_eq!(c.client_environment.ocsp_mode, "FAIL_OPEN");
        }
        _ => panic!("expected a password body"),
    }
}

#[test]
fn oauth_login_body() {
    let session = SessionBuilder::new("acc", "jane").build_oauth("access");
    match session.login_body() {
        Ok(LoginBody::OAuth(body)) => {
            assert_eq!(body.data.authenticator, "OAUTH");
            assert_eq!(body.data.token, "access");
        }
        _ => panic!("expected an OAuth body"),
    }
}

#[test]
fn bad_pem_fails_cert_login_body() {
    let session = SessionBuilder::new("acc", "jane").build_cert("not a key");
    assert!(matches!(session.auth_type, AuthType::Certificate(_)));
    assert_eq!(session.full_identifier(), "ACC.JANE");
    assert!(matches!(session.login_body(), Err(AuthError::JwtError(_))));
}

#[test]
fn many_calls_log_in_once() {
    let mut state = TokenState::new();
    let mut logins = 0;
    let mut ids = vec![];
    for _ in 0..10 {
        let e = state.expiry();
        let fresh = match state.next_action(e) {
            TokenAction::Login => {
                logins += 1;
                Some(tokens_from_login(login_reply("s", "m", 3600)).unwrap())
            }
            TokenAction::Renew => panic!("tokens are fresh"),
            TokenAction::Reuse => None,
        };
        ids.push(state.advance(e, fresh).unwrap().sequence_id);
    }
    assert_eq!(logins, 1);
    assert_eq!(ids, (1..=10).collect::<Vec<u64>>());
}

#[test]
fn advance_holds_the_fresh_login_pair() {
    let mut state = TokenState::new();
    state.install(tokens_from_login(login_reply("old", "oldm", 3600)).unwrap());
    let fresh = tokens_from_login(login_reply("new", "newm", 3600)).unwrap();
    state.advance(Expiry::MasterExpired, Some(fresh)).unwrap();
    let held = state.tokens.as_ref().unwrap();
    assert_eq!(held.session_token.token, "new");
    assert_eq!(held.master_token.token, "newm");
    state.advance(Expiry::Fresh, None).unwrap();
    let held = state.tokens.as_ref().unwrap();
    assert_eq!(held.session_token.token, "new");
    assert_eq!(held.master_token.token, "newm");
}
