use vstd::prelude::*;
use vstd::string::StringExecFns;

use crate::put::{DEFAULT_FILE_SIZE_THRESHOLD, DEFAULT_MAX_PARALLEL_UPLOADS};
use crate::requests::ExecRequest;
use crate::session::{opt_view, upper_of, AuthParts, Session, SessionBuilder, to_upper};

verus! {

/// Everything needed to open a session.
#[derive(Debug)]
pub struct AuthArgs {
    pub account_identifier: String,
    pub warehouse: Option<String>,
    pub database: Option<String>,
    pub schema: Option<String>,
    pub username: String,
    pub role: Option<String>,
    pub auth_type: AuthType,
}

#[derive(Debug)]
pub enum AuthType {
    Password(PasswordArgs),
    Certificate(CertificateArgs),
}

#[derive(Debug)]
pub struct PasswordArgs {
    pub password: String,
}

#[derive(Debug)]
pub struct CertificateArgs {
    pub private_key_pem: String,
}

/// The client's session and settings. Created without a request: the first
/// statement logs in.
#[derive(Debug)]
pub struct SnowflakeApi {
    pub session: Session,
    /// Upper-cased account identifier, the host prefix of the service.
    pub account_identifier: String,
    pub max_parallel_uploads: usize,
    pub max_file_size_threshold: i64,
}

fn as_str_opt(o: &Option<String>) -> (r: Option<&str>)
    ensures
        match r {
            Some(s) => o matches Some(x) && s@ == x@,
            None => o is None,
        },
{
    match o {
        Some(s) => Some(s.as_str()),
        None => None,
    }
}

impl SnowflakeApi {
    pub fn new(session: Session, account_identifier: String) -> (r: SnowflakeApi)
        ensures
            r.session == session,
            r.account_identifier == account_identifier,
            r.max_parallel_uploads == DEFAULT_MAX_PARALLEL_UPLOADS,
            r.max_file_size_threshold == DEFAULT_FILE_SIZE_THRESHOLD,
    {
        SnowflakeApi {
            session,
            account_identifier,
            max_parallel_uploads: DEFAULT_MAX_PARALLEL_UPLOADS,
            max_file_size_threshold: DEFAULT_FILE_SIZE_THRESHOLD,
        }
    }

    /// A client that logs in with a password.
    pub fn with_password_auth(
        account_identifier: &str,
        warehouse: Option<&str>,
        database: Option<&str>,
        schema: Option<&str>,
        username: &str,
        role: Option<&str>,
        password: &str,
    ) -> (r: SnowflakeApi)
        ensures
            r.account_identifier@ == upper_of(account_identifier@),
            r.session.account_identifier@ == upper_of(account_identifier@),
            r.session.username@ == upper_of(username@),
            r.session.auth_type matches crate::session::AuthType::Password(p) && p@ == password@,
            r.session.tokens.tokens is None,
            r.max_parallel_uploads == DEFAULT_MAX_PARALLEL_UPLOADS,
            r.max_file_size_threshold == DEFAULT_FILE_SIZE_THRESHOLD,
    {
        let builder = SessionBuilder::new(account_identifier, username).warehouse(warehouse).database(
            database,
        ).schema(schema).role(role);
        let session = builder.build_password(password);
        Self::new(session, to_upper(account_identifier))
    }

    /// A client that logs in with a keypair JWT.
    pub fn with_certificate_auth(
        account_identifier: &str,
        warehouse: Option<&str>,
        database: Option<&str>,
        schema: Option<&str>,
        username: &str,
        role: Option<&str>,
        private_key_pem: &str,
    ) -> (r: SnowflakeApi)
        ensures
            r.account_identifier@ == upper_of(account_identifier@),
            r.session.account_identifier@ == upper_of(account_identifier@),
            r.session.username@ == upper_of(username@),
            r.session.auth_type matches crate::session::AuthType::Certificate(k) && k@ == private_key_pem@,
            r.session.tokens.tokens is None,
            r.max_parallel_uploads == DEFAULT_MAX_PARALLEL_UPLOADS,
            r.max_file_size_threshold == DEFAULT_FILE_SIZE_THRESHOLD,
    {
        let builder = SessionBuilder::new(account_identifier, username).warehouse(warehouse).database(
            database,
        ).schema(schema).role(role);
        let session = builder.build_cert(private_key_pem);
        Self::new(session, to_upper(account_identifier))
    }

    /// A client for the arguments, with the scheme they name.
    pub fn from_auth_args(auth: &AuthArgs) -> (r: SnowflakeApi)
        ensures
            r.account_identifier@ == upper_of(auth.account_identifier@),
            r.session.account_identifier@ == upper_of(auth.account_identifier@),
            r.session.username@ == upper_of(auth.username@),
            opt_view(r.session.object_details.warehouse) == opt_view(auth.warehouse),
            opt_view(r.session.object_details.database) == opt_view(auth.database),
            opt_view(r.session.object_details.schema) == opt_view(auth.schema),
            opt_view(r.session.role) == opt_view(auth.role),
            match auth.auth_type {
                AuthType::Password(p) => r.session.auth_type matches crate::session::AuthType::Password(x)
                    && x@ == p.password@,
                AuthType::Certificate(c) => r.session.auth_type matches crate::session::AuthType::Certificate(x)
                    && x@ == c.private_key_pem@,
            },
            r.session.tokens.tokens is None,
            r.max_parallel_uploads == DEFAULT_MAX_PARALLEL_UPLOADS,
            r.max_file_size_threshold == DEFAULT_FILE_SIZE_THRESHOLD,
    {
        let builder = SessionBuilder::new(auth.account_identifier.as_str(), auth.username.as_str())
            .warehouse(as_str_opt(&auth.warehouse))
            .database(as_str_opt(&auth.database))
            .schema(as_str_opt(&auth.schema))
            .role(as_str_opt(&auth.role));
        let session = match &auth.auth_type {
            AuthType::Password(p) => builder.build_password(p.password.as_str()),
            AuthType::Certificate(c) => builder.build_cert(c.private_key_pem.as_str()),
        };
        Self::new(session, to_upper(auth.account_identifier.as_str()))
    }

    /// Sets how many small files are uploaded at once.
    pub fn set_max_parallel_uploads(&mut self, max_parallel_uploads: usize)
        ensures
            final(self).max_parallel_uploads == max_parallel_uploads,
            final(self).max_file_size_threshold == old(self).max_file_size_threshold,
            final(self).session == old(self).session,
            final(self).account_identifier == old(self).account_identifier,
    {
        self.max_parallel_uploads = max_parallel_uploads;
    }

    /// Sets the size above which files are uploaded one at a time.
    pub fn set_file_size_threshold(&mut self, max_file_size_threshold: i64)
        ensures
            final(self).max_file_size_threshold == max_file_size_threshold,
            final(self).max_parallel_uploads == old(self).max_parallel_uploads,
            final(self).session == old(self).session,
            final(self).account_identifier == old(self).account_identifier,
    {
        self.max_file_size_threshold = max_file_size_threshold;
    }
}

/// The body that runs `sql_text` synchronously under the given sequence number.
pub fn exec_request(sql_text: &str, parts: &AuthParts) -> (r: ExecRequest)
    ensures
        r.sql_text@ == sql_text@,
        !r.async_exec,
        r.sequence_id == parts.sequence_id,
        !r.is_internal,
{
    ExecRequest {
        sql_text: String::from_str(sql_text),
        async_exec: false,
        sequence_id: parts.sequence_id,
        is_internal: false,
    }
}

} // verus!
