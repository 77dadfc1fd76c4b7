use vstd::prelude::*;

verus! {

/// Body of a statement execution request.
#[derive(Debug)]
pub struct ExecRequest {
    pub sql_text: String,
    pub async_exec: bool,
    pub sequence_id: u64,
    pub is_internal: bool,
}

/// Fields that every login body carries.
#[derive(Debug)]
pub struct LoginRequestCommon {
    pub client_app_id: String,
    pub client_app_version: String,
    pub svn_revision: String,
    pub account_name: String,
    pub login_name: String,
    pub session_parameters: SessionParameters,
    pub client_environment: ClientEnvironment,
}

#[derive(Debug)]
pub struct SessionParameters {
    pub client_validate_default_parameters: bool,
}

#[derive(Debug)]
pub struct ClientEnvironment {
    pub application: String,
    pub os: String,
    pub os_version: String,
    pub ocsp_mode: String,
}

#[derive(Debug)]
pub struct PasswordRequestData {
    pub login_request_common: LoginRequestCommon,
    pub password: String,
}

#[derive(Debug)]
pub struct OAuthRequestData {
    pub login_request_common: LoginRequestCommon,
    pub authenticator: String,
    pub token: String,
}

#[derive(Debug)]
pub struct CertRequestData {
    pub login_request_common: LoginRequestCommon,
    pub authenticator: String,
    pub token: String,
}

/// The `{ data: ... }` envelope of a login body.
#[derive(Debug)]
pub struct LoginRequest<T> {
    pub data: T,
}

pub type PasswordLoginRequest = LoginRequest<PasswordRequestData>;

pub type OAuthLoginRequest = LoginRequest<OAuthRequestData>;

pub type CertLoginRequest = LoginRequest<CertRequestData>;

/// A login body for one of the authentication schemes.
#[derive(Debug)]
pub enum LoginBody {
    Password(PasswordLoginRequest),
    OAuth(OAuthLoginRequest),
    Cert(CertLoginRequest),
}

/// Body of a session token renewal.
#[derive(Debug)]
pub struct RenewSessionRequest {
    pub old_session_token: String,
    pub request_type: String,
}

} // verus!
