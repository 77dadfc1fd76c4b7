use std::collections::HashMap;

use vstd::prelude::*;

verus! {

#[verifier::external_type_specification]
#[verifier::external_body]
pub struct ExJsonValue(serde_json::Value);

/// Reply to a statement execution. The variants overlap in their fields, so a
/// decoder tries them in the order written here (see [`ExecVariant`]).
#[derive(Debug)]
pub enum ExecResponse {
    PutGet(PutGetExecResponse),
    AsyncQuery(AsyncQueryResponse),
    MultiStatementQuery(MultiStatementQueryResponse),
    Query(QueryExecResponse),
    Error(ExecErrorResponse),
}

/// Reply to a login, renewal or close request; decoded in the order written here.
#[derive(Debug)]
pub enum AuthResponse {
    Login(LoginResponse),
    Auth(AuthenticatorResponse),
    Renew(RenewSessionResponse),
    Close(CloseSessionResponse),
    Error(AuthErrorResponse),
}

/// The envelope that every reply shares.
#[derive(Debug)]
pub struct BaseRestResponse<D> {
    pub code: Option<String>,
    pub message: Option<String>,
    pub success: bool,
    pub data: D,
}

pub type MultiStatementQueryResponse = BaseRestResponse<MultiStatementQueryResponseData>;

pub type AsyncQueryResponse = BaseRestResponse<AsyncQueryResponseData>;

pub type PutGetExecResponse = BaseRestResponse<PutGetResponseData>;

pub type QueryExecResponse = BaseRestResponse<QueryExecResponseData>;

pub type ExecErrorResponse = BaseRestResponse<ExecErrorResponseData>;

pub type AuthErrorResponse = BaseRestResponse<AuthErrorResponseData>;

pub type AuthenticatorResponse = BaseRestResponse<AuthenticatorResponseData>;

pub type LoginResponse = BaseRestResponse<LoginResponseData>;

pub type RenewSessionResponse = BaseRestResponse<RenewSessionResponseData>;

/// `data` is null on a successful close.
pub type CloseSessionResponse = BaseRestResponse<Option<()>>;

#[derive(Debug)]
pub struct ExecErrorResponseData {
    pub age: i64,
    pub error_code: String,
    pub internal_error: bool,
    pub line: Option<i64>,
    pub pos: Option<i64>,
    pub query_id: String,
    pub sql_state: String,
}

#[derive(Debug)]
pub struct AuthErrorResponseData {
    pub authn_method: String,
}

#[derive(Debug)]
pub struct NameValueParameter {
    pub name: String,
    pub value: serde_json::Value,
}

#[derive(Debug)]
pub struct LoginResponseData {
    pub session_id: i64,
    pub token: String,
    pub master_token: String,
    pub server_version: String,
    pub parameters: Vec<NameValueParameter>,
    pub session_info: SessionInfo,
    pub master_validity_in_seconds: i64,
    pub validity_in_seconds: i64,
}

#[derive(Debug)]
pub struct SessionInfo {
    pub database_name: Option<String>,
    pub schema_name: Option<String>,
    pub warehouse_name: Option<String>,
    pub role_name: String,
}

#[derive(Debug)]
pub struct AuthenticatorResponseData {
    pub token_url: String,
    pub sso_url: String,
    pub proof_key: String,
}

#[derive(Debug)]
pub struct RenewSessionResponseData {
    pub session_token: String,
    pub validity_in_seconds_s_t: i64,
    pub master_token: String,
    pub validity_in_seconds_m_t: i64,
    pub session_id: i64,
}

#[derive(Debug)]
pub struct QueryExecResponseData {
    pub parameters: Vec<NameValueParameter>,
    pub rowtype: Vec<ExecResponseRowType>,
    /// JSON rows, sent for statements other than SELECT.
    pub rowset: Option<serde_json::Value>,
    /// Base64 of a columnar IPC stream, sent for SELECT.
    pub rowset_base64: Option<String>,
    pub total: i64,
    pub returned: i64,
    pub query_id: String,
    pub database_provider: Option<String>,
    pub final_database_name: Option<String>,
    pub final_schema_name: Option<String>,
    pub final_warehouse_name: Option<String>,
    pub final_role_name: String,
    pub number_of_binds: Option<i32>,
    pub statement_type_id: i64,
    pub version: i64,
    /// Remote parts of the result, in result order.
    pub chunks: Vec<ExecResponseChunk>,
    pub qrmk: Option<String>,
    /// Headers to send with every chunk request.
    pub chunk_headers: HashMap<String, String>,
}

#[derive(Debug)]
pub struct ExecResponseRowType {
    pub name: String,
    pub byte_length: Option<i64>,
    pub length: Option<i64>,
    pub type_: SnowflakeType,
    pub scale: Option<i64>,
    pub precision: Option<i64>,
    pub nullable: bool,
}

#[derive(Debug, Clone, Copy, PartialEq, Eq)]
pub enum SnowflakeType {
    Fixed,
    Real,
    Text,
    Date,
    Variant,
    TimestampLtz,
    TimestampNtz,
    TimestampTz,
    Object,
    Binary,
    Time,
    Boolean,
    Array,
}

#[derive(Debug)]
pub struct ExecResponseChunk {
    pub url: String,
    pub row_count: i32,
    pub uncompressed_size: i64,
}

/// The staging descriptor of a PUT or GET.
#[derive(Debug)]
pub struct PutGetResponseData {
    pub command: CommandType,
    pub local_location: Option<String>,
    pub src_locations: Vec<String>,
    /// Suggested upload parallelism.
    pub parallel: i32,
    /// Size above which a file is uploaded on its own.
    pub threshold: i64,
    pub auto_compress: bool,
    pub overwrite: bool,
    pub source_compression: String,
    pub stage_info: PutGetStageInfo,
    pub encryption_material: EncryptionMaterialVariant,
    pub presigned_urls: Vec<String>,
    pub parameters: Vec<NameValueParameter>,
    pub statement_type_id: Option<i64>,
}

#[derive(Debug, Clone, Copy, PartialEq, Eq)]
pub enum CommandType {
    Upload,
    Download,
}

#[derive(Debug)]
pub enum PutGetStageInfo {
    Aws(AwsPutGetStageInfo),
    Azure(AzurePutGetStageInfo),
    Gcs(GcsPutGetStageInfo),
}

#[derive(Debug)]
pub struct AwsPutGetStageInfo {
    pub location_type: String,
    pub location: String,
    pub region: String,
    pub creds: AwsCredentials,
    pub end_point: Option<String>,
}

#[derive(Debug)]
pub struct AwsCredentials {
    pub aws_key_id: String,
    pub aws_secret_key: String,
    pub aws_token: String,
    pub aws_id: String,
    pub aws_key: String,
}

#[derive(Debug)]
pub struct GcsPutGetStageInfo {
    pub location_type: String,
    pub location: String,
    pub storage_account: String,
    pub creds: GcsCredentials,
    pub presigned_url: String,
}

#[derive(Debug)]
pub struct GcsCredentials {
    pub gcs_access_token: String,
}

#[derive(Debug)]
pub struct AzurePutGetStageInfo {
    pub location_type: String,
    pub location: String,
    pub storage_account: String,
    pub creds: AzureCredentials,
}

#[derive(Debug)]
pub struct AzureCredentials {
    pub azure_sas_token: String,
}

#[derive(Debug)]
pub enum EncryptionMaterialVariant {
    Single(PutGetEncryptionMaterial),
    Multiple(Vec<PutGetEncryptionMaterial>),
}

#[derive(Debug)]
pub struct PutGetEncryptionMaterial {
    pub query_stage_master_key: String,
    pub query_id: String,
    pub smk_id: i64,
}

#[derive(Debug)]
pub struct AsyncQueryResponseData {
    pub query_id: String,
    pub get_result_url: String,
    pub query_aborts_after_secs: i64,
    pub progress_desc: Option<String>,
}

#[derive(Debug)]
pub struct MultiStatementQueryResponseData {
    pub query_id: String,
    pub result_ids: String,
    pub result_types: String,
}

/// A statement error reply in its standalone form.
#[derive(Debug)]
pub struct ErrorResponse {
    pub code: String,
    pub data: Data,
    pub headers: Option<String>,
    pub message: String,
    pub success: bool,
}

#[derive(Debug)]
pub struct Data {
    pub age: u64,
    pub error_code: String,
    pub internal_error: bool,
    pub line: Option<i64>,
    pub pos: Option<i64>,
    pub query_id: String,
    pub sql_state: String,
    pub type_: Option<String>,
}

/// The shapes of an execution reply, in the order a decoder tries them.
#[derive(Debug, Clone, Copy, PartialEq, Eq, Structural)]
pub enum ExecVariant {
    PutGet,
    AsyncQuery,
    MultiStatementQuery,
    Query,
    Error,
}

/// Which shapes a reply body fits, one flag per [`ExecVariant`].
#[derive(Debug, Clone, Copy)]
pub struct ExecShapes {
    pub put_get: bool,
    pub async_query: bool,
    pub multi_statement: bool,
    pub query: bool,
    pub error: bool,
}

/// The first shape, in decoding order, that the flags admit.
pub open spec fn first_exec_variant(s: ExecShapes) -> Option<ExecVariant> {
    if s.put_get {
        Some(ExecVariant::PutGet)
    } else if s.async_query {
        Some(ExecVariant::AsyncQuery)
    } else if s.multi_statement {
        Some(ExecVariant::MultiStatementQuery)
    } else if s.query {
        Some(ExecVariant::Query)
    } else if s.error {
        Some(ExecVariant::Error)
    } else {
        None
    }
}

/// Picks the variant that an execution reply decodes as; `None` when it fits none.
pub fn select_exec_variant(s: ExecShapes) -> (r: Option<ExecVariant>)
    ensures
        r == first_exec_variant(s),
{
    if s.put_get {
        Some(ExecVariant::PutGet)
    } else if s.async_query {
        Some(ExecVariant::AsyncQuery)
    } else if s.multi_statement {
        Some(ExecVariant::MultiStatementQuery)
    } else if s.query {
        Some(ExecVariant::Query)
    } else if s.error {
        Some(ExecVariant::Error)
    } else {
        None
    }
}

/// The shapes of an authentication reply, in the order a decoder tries them.
#[derive(Debug, Clone, Copy, PartialEq, Eq, Structural)]
pub enum AuthVariant {
    Login,
    Auth,
    Renew,
    Close,
    Error,
}

/// Which shapes a reply body fits, one flag per [`AuthVariant`].
#[derive(Debug, Clone, Copy)]
pub struct AuthShapes {
    pub login: bool,
    pub auth: bool,
    pub renew: bool,
    pub close: bool,
    pub error: bool,
}

pub open spec fn first_auth_variant(s: AuthShapes) -> Option<AuthVariant> {
    if s.login {
        Some(AuthVariant::Login)
    } else if s.auth {
        Some(AuthVariant::Auth)
    } else if s.renew {
        Some(AuthVariant::Renew)
    } else if s.close {
        Some(AuthVariant::Close)
    } else if s.error {
        Some(AuthVariant::Error)
    } else {
        None
    }
}

/// Picks the variant that an authentication reply decodes as; `None` when it fits none.
pub fn select_auth_variant(s: AuthShapes) -> (r: Option<AuthVariant>)
    ensures
        r == first_auth_variant(s),
{
    if s.login {
        Some(AuthVariant::Login)
    } else if s.auth {
        Some(AuthVariant::Auth)
    } else if s.renew {
        Some(AuthVariant::Renew)
    } else if s.close {
        Some(AuthVariant::Close)
    } else if s.error {
        Some(AuthVariant::Error)
    } else {
        None
    }
}

/// A reply that fits the PUT/GET shape decodes as PUT/GET, whatever other
/// shapes (a query's row types, say) it also fits.
pub proof fn lemma_put_get_shape_wins(s: ExecShapes)
    requires
        s.put_get,
    ensures
        first_exec_variant(s) == Some(ExecVariant::PutGet),
{
}

} // verus!
