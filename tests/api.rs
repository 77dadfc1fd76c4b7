use snowflake_api::api::{exec_request, AuthArgs, AuthType, PasswordArgs, SnowflakeApi};
use snowflake_api::session::AuthParts;

#[test]
fn construction_makes_no_session() {
    let api = SnowflakeApi::with_password_auth("acme", Some("wh"), None, None, "jane", None, "pw");
    assert_eq!(api.account_identifier, "ACME");
    assert_eq!(api.max_parallel_uploads, 4);
    assert_eq!(api.max_file_size_threshold, 64_000_000);
    assert!(api.session.tokens.tokens.is_none());
}

#[test]
fn tunables_can_be_set() {
    let mut api = SnowflakeApi::with_certificate_auth("acme", None, None, None, "jane", None, "pem");
    api.set_max_parallel_uploads(8);
    api.set_file_size_threshold(100);
    assert_eq!(api.max_parallel_uploads, 8);
    assert_eq!(api.max_file_size_threshold, 100);
}

#[test]
fn auth_args_pick_scheme() {
    let args = AuthArgs {
        account_identifier: "acme".to_string(),
        warehouse: None,
        database: Some("db".to_string()),
        schema: None,
        username: "jane".to_string(),
        role: None,
        auth_type: AuthType::Password(PasswordArgs { password: "pw".to_string() }),
    };
    let api = SnowflakeApi::from_auth_args(&args);
    assert_eq!(api.session.username, "JANE");
    assert_eq!(api.session.object_details.database.as_deref(), Some("db"));
}

#[test]
fn exec_request_carries_sequence() {
    let parts = AuthParts { session_token_auth_header: "h".to_string(), sequence_id: 1 };
    let body = exec_request("select 1", &parts);
    assert_eq!(body.sql_text, "select 1");
    assert_eq!(body.sequence_id, 1);
    assert!(!body.async_exec);
    assert!(!body.is_internal);
}
