use vstd::prelude::*;
use vstd::string::StringExecFns;

use crate::connection::{pairs_view, ConnectionError};
use crate::jwt::{generate_jwt_token, is_keypair_jwt_for, pem_key_ders_of, JwtError};
use crate::requests::{
    CertLoginRequest, CertRequestData, ClientEnvironment, LoginBody, LoginRequestCommon,
    OAuthLoginRequest, OAuthRequestData, PasswordLoginRequest, PasswordRequestData,
    RenewSessionRequest, SessionParameters,
};
use crate::responses::AuthResponse;

verus! {

#[verifier::external_type_specification]
#[verifier::external_body]
pub struct ExInstant(std::time::Instant);

/// Relies on `std::time::Instant::now`: a reading of the monotonic clock.
#[verifier::external_body]
fn instant_now() -> std::time::Instant {
    std::time::Instant::now()
}

/// Relies on `std::time::Instant::elapsed`: whole seconds passed since `start`.
#[verifier::external_body]
fn whole_seconds_since(start: &std::time::Instant) -> u64 {
    start.elapsed().as_secs()
}

/// The lifetime, in seconds, that a server-reported validity gives a token:
/// a negative validity never expires.
pub open spec fn validity_secs(validity_in_seconds: i64) -> u64 {
    if validity_in_seconds < 0 {
        u64::MAX
    } else {
        validity_in_seconds as u64
    }
}

/// The `Authorization` header value that carries a token.
pub open spec fn auth_header_of(token: Seq<char>) -> Seq<char> {
    "Snowflake Token=\""@ + token + "\""@
}

/// A bearer token with the instant it was issued and how long it stays valid.
#[derive(Debug)]
pub struct AuthToken {
    pub token: String,
    pub valid_for_secs: u64,
    pub issued_on: std::time::Instant,
}

impl AuthToken {
    pub fn new(token: &str, validity_in_seconds: i64) -> (r: AuthToken)
        ensures
            r.token@ == token@,
            r.valid_for_secs == validity_secs(validity_in_seconds),
    {
        let valid_for_secs: u64 = if validity_in_seconds < 0 {
            u64::MAX
        } else {
            validity_in_seconds as u64
        };
        AuthToken { token: String::from_str(token), valid_for_secs, issued_on: instant_now() }
    }

    /// Whether a token that has lived `elapsed_secs` whole seconds is expired.
    pub fn is_expired_after(&self, elapsed_secs: u64) -> (r: bool)
        ensures
            r == (elapsed_secs >= self.valid_for_secs),
    {
        elapsed_secs >= self.valid_for_secs
    }

    /// Whether the token is expired now, by the monotonic clock.
    pub fn is_expired(&self) -> (r: bool)
        ensures
            self.valid_for_secs == 0 ==> r,
    {
        self.is_expired_after(whole_seconds_since(&self.issued_on))
    }

    pub fn auth_header(&self) -> (r: String)
        ensures
            r@ == auth_header_of(self.token@),
    {
        let mut r = String::from_str("Snowflake Token=\"");
        r.append(self.token.as_str());
        r.append("\"");
        r
    }
}

/// The upper-case form of a string, by Unicode case mapping.
pub uninterp spec fn upper_of(s: Seq<char>) -> Seq<char>;

/// Relies on `str::to_uppercase`: the result depends on the characters alone.
#[verifier::external_body]
pub(crate) fn to_upper(s: &str) -> (r: String)
    ensures
        r@ == upper_of(s@),
{
    s.to_uppercase()
}

pub open spec fn opt_view(o: Option<String>) -> Option<Seq<char>> {
    match o {
        Some(s) => Some(s@),
        None => None,
    }
}

pub open spec fn opt_str_view(o: Option<&str>) -> Option<Seq<char>> {
    match o {
        Some(s) => Some(s@),
        None => None,
    }
}

/// The text of an optional field of a server reply, empty when absent.
pub open spec fn or_empty(o: Option<String>) -> Seq<char> {
    match o {
        Some(s) => s@,
        None => Seq::empty(),
    }
}

pub(crate) fn to_owned_opt(o: Option<&str>) -> (r: Option<String>)
    ensures
        opt_view(r) == opt_str_view(o),
{
    match o {
        Some(s) => Some(String::from_str(s)),
        None => None,
    }
}

pub(crate) fn clone_opt(o: &Option<String>) -> (r: Option<String>)
    ensures
        opt_view(r) == opt_view(*o),
{
    match o {
        Some(s) => Some(s.clone()),
        None => None,
    }
}

pub(crate) fn text_or_empty(o: Option<String>) -> (r: String)
    ensures
        r@ == or_empty(o),
{
    match o {
        Some(s) => s,
        None => String::new(),
    }
}

/// Failures of the session layer.
#[derive(Debug)]
pub enum AuthError {
    JwtError(JwtError),
    RequestError(ConnectionError),
    MissingEnvArgument(String),
    MissingPassword,
    MissingCertificate,
    UnexpectedResponse,
    /// The server rejected a login or renewal: its code and message.
    AuthFailed(String, String),
    OutOfOrderRenew,
    TokenFetchFailed,
    CertAuthNotEnabled,
    AuthTypeUnset,
}

/// The token pair of an open session and the last sequence number issued in it.
#[derive(Debug)]
pub struct AuthTokens {
    pub session_token: AuthToken,
    pub master_token: AuthToken,
    /// The server expects the statements of a session to carry increasing numbers.
    pub sequence_id: u64,
}

/// What a statement needs from the session: its auth header and sequence number.
#[derive(Debug, Clone)]
pub struct AuthParts {
    pub session_token_auth_header: String,
    pub sequence_id: u64,
}

/// How the tokens stood when a caller asked for them.
#[derive(Debug, Clone, Copy, PartialEq, Eq, Structural)]
pub enum Expiry {
    Fresh,
    SessionExpired,
    MasterExpired,
}

/// What the session does before it hands out a sequence number.
#[derive(Debug, Clone, Copy, PartialEq, Eq, Structural)]
pub enum TokenAction {
    /// Start a new session: there are no tokens, or the master token expired.
    Login,
    /// Exchange the master token for a new pair, keeping the sequence.
    Renew,
    /// Use the tokens held.
    Reuse,
}

/// The action for a session that holds tokens or not, at the given expiry.
pub open spec fn action_for(has_tokens: bool, e: Expiry) -> TokenAction {
    if !has_tokens {
        TokenAction::Login
    } else {
        match e {
            Expiry::MasterExpired => TokenAction::Login,
            Expiry::SessionExpired => TokenAction::Renew,
            Expiry::Fresh => TokenAction::Reuse,
        }
    }
}

/// The sequence number handed out by a call, given the last one issued in the
/// current session (`None` without a session): a new session starts at 1.
pub open spec fn sequence_after(current: Option<nat>, e: Expiry) -> nat {
    match action_for(current is Some, e) {
        TokenAction::Login => 1,
        _ => current.unwrap() + 1,
    }
}

/// The sequence numbers handed out by a run of calls, one per expiry reading.
pub open spec fn run_sequence_ids(current: Option<nat>, es: Seq<Expiry>) -> Seq<nat>
    decreases es.len(),
{
    if es.len() == 0 {
        Seq::empty()
    } else {
        let id = sequence_after(current, es[0]);
        seq![id] + run_sequence_ids(Some(id), es.drop_first())
    }
}

/// How many calls of a run perform the given action.
pub open spec fn run_action_count(current: Option<nat>, es: Seq<Expiry>, a: TokenAction) -> nat
    decreases es.len(),
{
    if es.len() == 0 {
        0
    } else {
        let here: nat = if action_for(current is Some, es[0]) == a {
            1
        } else {
            0
        };
        here + run_action_count(Some(sequence_after(current, es[0])), es.drop_first(), a)
    }
}

pub open spec fn expiry_of(master_expired: bool, session_expired: bool) -> Expiry {
    if master_expired {
        Expiry::MasterExpired
    } else if session_expired {
        Expiry::SessionExpired
    } else {
        Expiry::Fresh
    }
}

impl AuthTokens {
    /// Classifies a pair by which of its tokens expired; the master token decides first.
    pub fn expiry_from(master_expired: bool, session_expired: bool) -> (r: Expiry)
        ensures
            r == expiry_of(master_expired, session_expired),
    {
        if master_expired {
            Expiry::MasterExpired
        } else if session_expired {
            Expiry::SessionExpired
        } else {
            Expiry::Fresh
        }
    }

    /// How the pair stands now, by the monotonic clock.
    pub fn expiry(&self) -> (r: Expiry)
        ensures
            self.master_token.valid_for_secs == 0 ==> r == Expiry::MasterExpired,
    {
        let master_expired = self.master_token.is_expired();
        let session_expired = self.session_token.is_expired();
        Self::expiry_from(master_expired, session_expired)
    }

    /// The header and body that ask to renew this pair.
    pub fn renew_request(&self) -> (r: (String, RenewSessionRequest))
        ensures
            r.0@ == auth_header_of(self.master_token.token@),
            r.1.old_session_token@ == self.session_token.token@,
            r.1.request_type@ == "RENEW"@,
    {
        let body = RenewSessionRequest {
            old_session_token: self.session_token.token.clone(),
            request_type: String::from_str("RENEW"),
        };
        (self.master_token.auth_header(), body)
    }
}

/// The tokens of a session, if one is open. Callers serialize access to it.
#[derive(Debug)]
pub struct TokenState {
    pub tokens: Option<AuthTokens>,
}

impl TokenState {
    /// The last sequence number issued in the open session.
    pub open spec fn sequence(&self) -> Option<nat> {
        match self.tokens {
            Some(t) => Some(t.sequence_id as nat),
            None => None,
        }
    }

    pub fn new() -> (r: TokenState)
        ensures
            r.tokens is None,
    {
        TokenState { tokens: None }
    }

    /// How the held tokens stand now; `Fresh` when none are held.
    pub fn expiry(&self) -> (r: Expiry)
        ensures
            self.tokens is None ==> r == Expiry::Fresh,
    {
        match &self.tokens {
            Some(t) => t.expiry(),
            None => Expiry::Fresh,
        }
    }

    pub fn next_action(&self, e: Expiry) -> (r: TokenAction)
        ensures
            r == action_for(self.tokens is Some, e),
    {
        match &self.tokens {
            None => TokenAction::Login,
            Some(_) => match e {
                Expiry::MasterExpired => TokenAction::Login,
                Expiry::SessionExpired => TokenAction::Renew,
                Expiry::Fresh => TokenAction::Reuse,
            },
        }
    }

    /// Holds a pair that a login or a renewal produced.
    pub fn install(&mut self, tokens: AuthTokens)
        ensures
            final(self).tokens == Some(tokens),
    {
        self.tokens = Some(tokens);
    }

    /// Gives up the held pair, leaving the session closed.
    pub fn take(&mut self) -> (r: Option<AuthTokens>)
        ensures
            r == old(self).tokens,
            final(self).tokens is None,
    {
        self.tokens.take()
    }

    /// Advances the sequence and hands out the auth header and the new number.
    /// Fails without tokens, or when the sequence has no next number.
    pub fn issue(&mut self) -> (r: Result<AuthParts, AuthError>)
        ensures
            match old(self).tokens {
                None => r matches Err(AuthError::TokenFetchFailed) && final(self).tokens is None,
                Some(t) => if t.sequence_id < u64::MAX {
                    &&& r matches Ok(p)
                    &&& p.sequence_id == t.sequence_id + 1
                    &&& p.session_token_auth_header@ == auth_header_of(t.session_token.token@)
                    &&& final(self).tokens matches Some(n)
                    &&& n.sequence_id == t.sequence_id + 1
                    &&& n.session_token == t.session_token
                    &&& n.master_token == t.master_token
                } else {
                    r matches Err(AuthError::TokenFetchFailed) && final(self).tokens == old(self).tokens
                },
            },
    {
        match &mut self.tokens {
            None => Err(AuthError::TokenFetchFailed),
            Some(t) => {
                if t.sequence_id == u64::MAX {
                    return Err(AuthError::TokenFetchFailed);
                }
                t.sequence_id = t.sequence_id + 1;
                Ok(AuthParts {
                    session_token_auth_header: t.session_token.auth_header(),
                    sequence_id: t.sequence_id,
                })
            },
        }
    }
}

/// Whether a step at expiry `e` can hand out a number: one is needed after a
/// login or renewal, and the sequence must have a next number.
pub open spec fn step_succeeds(current: Option<nat>, e: Expiry, has_fresh: bool) -> bool {
    match action_for(current is Some, e) {
        TokenAction::Login => has_fresh,
        TokenAction::Renew => has_fresh && current.unwrap() < u64::MAX,
        TokenAction::Reuse => current.unwrap() < u64::MAX,
    }
}

impl TokenState {
    /// Completes one call for tokens: given the expiry reading `e` and, after
    /// a login or renewal, the pair it produced, holds the right pair and hands
    /// out the next sequence number. A login starts the sequence anew; a
    /// renewal keeps it.
    pub fn advance(&mut self, e: Expiry, fresh: Option<AuthTokens>) -> (r: Result<AuthParts, AuthError>)
        ensures
            r is Ok <==> step_succeeds(old(self).sequence(), e, fresh is Some),
            r matches Ok(p) ==> p.sequence_id == sequence_after(old(self).sequence(), e)
                && final(self).sequence() == Some(p.sequence_id as nat),
            r matches Ok(p) ==> match action_for(old(self).tokens is Some, e) {
                TokenAction::Reuse => old(self).tokens matches Some(t)
                    && p.session_token_auth_header@ == auth_header_of(t.session_token.token@)
                    && (final(self).tokens matches Some(n) && n.session_token == t.session_token
                        && n.master_token == t.master_token),
                _ => fresh matches Some(t)
                    && p.session_token_auth_header@ == auth_header_of(t.session_token.token@)
                    && (final(self).tokens matches Some(n) && n.session_token == t.session_token
                        && n.master_token == t.master_token),
            },
    {
        let action = self.next_action(e);
        match action {
            TokenAction::Login | TokenAction::Renew => {
                let keep: u64 = match (&self.tokens, action) {
                    (Some(t), TokenAction::Renew) => t.sequence_id,
                    _ => 0,
                };
                match fresh {
                    None => Err(AuthError::TokenFetchFailed),
                    Some(t) => {
                        self.tokens = Some(
                            AuthTokens {
                                session_token: t.session_token,
                                master_token: t.master_token,
                                sequence_id: keep,
                            },
                        );
                        self.issue()
                    },
                }
            },
            TokenAction::Reuse => self.issue(),
        }
    }
}

/// The tokens that a login reply yields: a new session at sequence 0.
pub fn tokens_from_login(resp: AuthResponse) -> (r: Result<AuthTokens, AuthError>)
    ensures
        match resp {
            AuthResponse::Login(lr) => r matches Ok(t) && t.sequence_id == 0
                && t.session_token.token@ == lr.data.token@
                && t.session_token.valid_for_secs == validity_secs(lr.data.validity_in_seconds)
                && t.master_token.token@ == lr.data.master_token@
                && t.master_token.valid_for_secs == validity_secs(lr.data.master_validity_in_seconds),
            AuthResponse::Error(e) => r matches Err(AuthError::AuthFailed(c, m))
                && c@ == or_empty(e.code) && m@ == or_empty(e.message),
            _ => r matches Err(AuthError::UnexpectedResponse),
        },
{
    match resp {
        AuthResponse::Login(lr) => {
            let session_token = AuthToken::new(lr.data.token.as_str(), lr.data.validity_in_seconds);
            let master_token = AuthToken::new(
                lr.data.master_token.as_str(),
                lr.data.master_validity_in_seconds,
            );
            Ok(AuthTokens { session_token, master_token, sequence_id: 0 })
        },
        AuthResponse::Error(e) => Err(
            AuthError::AuthFailed(text_or_empty(e.code), text_or_empty(e.message)),
        ),
        _ => Err(AuthError::UnexpectedResponse),
    }
}

/// The tokens that a renewal reply yields; the sequence of `old` goes on.
pub fn tokens_from_renew(old: &AuthTokens, resp: AuthResponse) -> (r: Result<AuthTokens, AuthError>)
    ensures
        match resp {
            AuthResponse::Renew(rs) => r matches Ok(t) && t.sequence_id == old.sequence_id
                && t.session_token.token@ == rs.data.session_token@
                && t.session_token.valid_for_secs == validity_secs(rs.data.validity_in_seconds_s_t)
                && t.master_token.token@ == rs.data.master_token@
                && t.master_token.valid_for_secs == validity_secs(rs.data.validity_in_seconds_m_t),
            AuthResponse::Error(e) => r matches Err(AuthError::AuthFailed(c, m))
                && c@ == or_empty(e.code) && m@ == or_empty(e.message),
            _ => r matches Err(AuthError::UnexpectedResponse),
        },
{
    match resp {
        AuthResponse::Renew(rs) => {
            let session_token = AuthToken::new(
                rs.data.session_token.as_str(),
                rs.data.validity_in_seconds_s_t,
            );
            let master_token = AuthToken::new(
                rs.data.master_token.as_str(),
                rs.data.validity_in_seconds_m_t,
            );
            Ok(AuthTokens { session_token, master_token, sequence_id: old.sequence_id })
        },
        AuthResponse::Error(e) => Err(
            AuthError::AuthFailed(text_or_empty(e.code), text_or_empty(e.message)),
        ),
        _ => Err(AuthError::UnexpectedResponse),
    }
}

/// The outcome of a close request, from its reply.
pub fn close_outcome(resp: AuthResponse) -> (r: Result<(), AuthError>)
    ensures
        match resp {
            AuthResponse::Close(_) => r is Ok,
            AuthResponse::Error(e) => r matches Err(AuthError::AuthFailed(c, m))
                && c@ == or_empty(e.code) && m@ == or_empty(e.message),
            _ => r matches Err(AuthError::UnexpectedResponse),
        },
{
    match resp {
        AuthResponse::Close(_) => Ok(()),
        AuthResponse::Error(e) => Err(
            AuthError::AuthFailed(text_or_empty(e.code), text_or_empty(e.message)),
        ),
        _ => Err(AuthError::UnexpectedResponse),
    }
}


/// Whether every reading of a run found the tokens valid.
pub open spec fn all_fresh(es: Seq<Expiry>) -> bool {
    forall|i: int| 0 <= i < es.len() ==> es[i] == Expiry::Fresh
}

/// With tokens held and never expiring, calls reuse them and count on from `k`.
pub proof fn lemma_fresh_run_from(k: nat, es: Seq<Expiry>)
    requires
        all_fresh(es),
    ensures
        run_sequence_ids(Some(k), es).len() == es.len(),
        forall|i: int|
            0 <= i < es.len() ==> #[trigger] run_sequence_ids(Some(k), es)[i] == k + i + 1,
        run_action_count(Some(k), es, TokenAction::Login) == 0,
        run_action_count(Some(k), es, TokenAction::Renew) == 0,
    decreases es.len(),
{
    if es.len() > 0 {
        let rest = es.drop_first();
        assert(all_fresh(rest)) by {
            assert forall|i: int| 0 <= i < rest.len() implies rest[i] == Expiry::Fresh by {
                assert(rest[i] == es[i + 1]);
            }
        }
        lemma_fresh_run_from(k + 1, rest);
        let ids = run_sequence_ids(Some(k), es);
        assert(ids == seq![(k + 1) as nat] + run_sequence_ids(Some(k + 1), rest));
        assert forall|i: int| 0 <= i < es.len() implies #[trigger] ids[i] == k + i + 1 by {
            if i > 0 {
                assert(ids[i] == run_sequence_ids(Some(k + 1), rest)[i - 1]);
            }
        }
    }
}

/// Serialized calls on a new session whose tokens stay valid hand out the
/// sequence numbers 1, 2, ..., N in order. Each call is one
/// [`TokenState::advance`], which hands out `sequence_after` of the state it
/// finds and leaves that number as the state's sequence.
pub proof fn lemma_sequence_ids_count_up(es: Seq<Expiry>)
    requires
        all_fresh(es),
    ensures
        run_sequence_ids(None, es).len() == es.len(),
        forall|i: int| 0 <= i < es.len() ==> #[trigger] run_sequence_ids(None, es)[i] == i + 1,
{
    if es.len() > 0 {
        let rest = es.drop_first();
        assert(all_fresh(rest)) by {
            assert forall|i: int| 0 <= i < rest.len() implies rest[i] == Expiry::Fresh by {
                assert(rest[i] == es[i + 1]);
            }
        }
        lemma_fresh_run_from(1, rest);
        let ids = run_sequence_ids(None, es);
        assert(ids == seq![1nat] + run_sequence_ids(Some(1), rest));
        assert forall|i: int| 0 <= i < es.len() implies #[trigger] ids[i] == i + 1 by {
            if i > 0 {
                assert(ids[i] == run_sequence_ids(Some(1), rest)[i - 1]);
            }
        }
    }
}

/// Any number of calls on a new session whose tokens stay valid log in once.
pub proof fn lemma_single_login(es: Seq<Expiry>)
    requires
        all_fresh(es),
        es.len() > 0,
    ensures
        run_action_count(None, es, TokenAction::Login) == 1,
        run_action_count(None, es, TokenAction::Renew) == 0,
{
    let rest = es.drop_first();
    assert(all_fresh(rest)) by {
        assert forall|i: int| 0 <= i < rest.len() implies rest[i] == Expiry::Fresh by {
            assert(rest[i] == es[i + 1]);
        }
    }
    lemma_fresh_run_from(1, rest);
}

/// After only the session token expired, the next call renews once and the
/// sequence goes on from where it stood.
pub proof fn lemma_renewal_keeps_sequence(k: nat, es: Seq<Expiry>)
    requires
        es.len() > 0,
        es[0] == Expiry::SessionExpired,
        all_fresh(es.drop_first()),
    ensures
        action_for(true, es[0]) == TokenAction::Renew,
        run_action_count(Some(k), es, TokenAction::Renew) == 1,
        run_action_count(Some(k), es, TokenAction::Login) == 0,
        forall|i: int|
            0 <= i < es.len() ==> #[trigger] run_sequence_ids(Some(k), es)[i] == k + i + 1,
{
    let rest = es.drop_first();
    lemma_fresh_run_from(k + 1, rest);
    let ids = run_sequence_ids(Some(k), es);
    assert(ids == seq![(k + 1) as nat] + run_sequence_ids(Some(k + 1), rest));
    assert forall|i: int| 0 <= i < es.len() implies #[trigger] ids[i] == k + i + 1 by {
        if i > 0 {
            assert(ids[i] == run_sequence_ids(Some(k + 1), rest)[i - 1]);
        }
    }
}

/// After the master token expired, the next call logs in anew and the sequence
/// starts again at 1.
pub proof fn lemma_master_expiry_relogs(k: nat, es: Seq<Expiry>)
    requires
        es.len() > 0,
        es[0] == Expiry::MasterExpired,
        all_fresh(es.drop_first()),
    ensures
        action_for(true, es[0]) == TokenAction::Login,
        run_action_count(Some(k), es, TokenAction::Login) == 1,
        forall|i: int| 0 <= i < es.len() ==> #[trigger] run_sequence_ids(Some(k), es)[i] == i + 1,
{
    let rest = es.drop_first();
    lemma_fresh_run_from(1, rest);
    let ids = run_sequence_ids(Some(k), es);
    assert(ids == seq![1nat] + run_sequence_ids(Some(1), rest));
    assert forall|i: int| 0 <= i < es.len() implies #[trigger] ids[i] == i + 1 by {
        if i > 0 {
            assert(ids[i] == run_sequence_ids(Some(1), rest)[i - 1]);
        }
    }
}


/// How a session authenticates.
#[derive(Debug)]
pub enum AuthType {
    /// A PKCS#8 PEM private key, for a keypair JWT.
    Certificate(String),
    Password(String),
    /// An OAuth access token.
    OAuth(String),
}

/// Warehouse, database and schema a session opens with.
#[derive(Debug, Default)]
pub struct SessionObjectDetails {
    pub warehouse: Option<String>,
    pub database: Option<String>,
    pub schema: Option<String>,
}

/// Collects what a session needs before it is opened.
#[derive(Debug)]
pub struct SessionBuilder {
    pub account_identifier: String,
    pub object_details: SessionObjectDetails,
    pub username: String,
    pub role: Option<String>,
}

impl SessionBuilder {
    /// A builder for `username` on `account_identifier`, both upper-cased.
    pub fn new(account_identifier: &str, username: &str) -> (r: SessionBuilder)
        ensures
            r.account_identifier@ == upper_of(account_identifier@),
            r.username@ == upper_of(username@),
            r.object_details.warehouse is None,
            r.object_details.database is None,
            r.object_details.schema is None,
            r.role is None,
    {
        SessionBuilder {
            account_identifier: to_upper(account_identifier),
            object_details: SessionObjectDetails { warehouse: None, database: None, schema: None },
            username: to_upper(username),
            role: None,
        }
    }

    pub fn warehouse(self, warehouse: Option<&str>) -> (r: SessionBuilder)
        ensures
            opt_view(r.object_details.warehouse) == opt_str_view(warehouse),
            r.object_details.database == self.object_details.database,
            r.object_details.schema == self.object_details.schema,
            r.account_identifier == self.account_identifier,
            r.username == self.username,
            r.role == self.role,
    {
        let mut b = self;
        b.object_details.warehouse = to_owned_opt(warehouse);
        b
    }

    pub fn database(self, database: Option<&str>) -> (r: SessionBuilder)
        ensures
            opt_view(r.object_details.database) == opt_str_view(database),
            r.object_details.warehouse == self.object_details.warehouse,
            r.object_details.schema == self.object_details.schema,
            r.account_identifier == self.account_identifier,
            r.username == self.username,
            r.role == self.role,
    {
        let mut b = self;
        b.object_details.database = to_owned_opt(database);
        b
    }

    pub fn schema(self, schema: Option<&str>) -> (r: SessionBuilder)
        ensures
            opt_view(r.object_details.schema) == opt_str_view(schema),
            r.object_details.warehouse == self.object_details.warehouse,
            r.object_details.database == self.object_details.database,
            r.account_identifier == self.account_identifier,
            r.username == self.username,
            r.role == self.role,
    {
        let mut b = self;
        b.object_details.schema = to_owned_opt(schema);
        b
    }

    pub fn role(self, role: Option<&str>) -> (r: SessionBuilder)
        ensures
            opt_view(r.role) == opt_str_view(role),
            r.object_details == self.object_details,
            r.account_identifier == self.account_identifier,
            r.username == self.username,
    {
        let mut b = self;
        b.role = to_owned_opt(role);
        b
    }

    fn build(&self, auth_type: AuthType) -> (r: Session)
        ensures
            r.auth_type == auth_type,
            r.account_identifier@ == self.account_identifier@,
            r.username@ == self.username@,
            opt_view(r.role) == opt_view(self.role),
            opt_view(r.object_details.warehouse) == opt_view(self.object_details.warehouse),
            opt_view(r.object_details.database) == opt_view(self.object_details.database),
            opt_view(r.object_details.schema) == opt_view(self.object_details.schema),
            r.tokens.tokens is None,
    {
        Session {
            auth_type,
            account_identifier: self.account_identifier.clone(),
            username: self.username.clone(),
            role: clone_opt(&self.role),
            object_details: SessionObjectDetails {
                warehouse: clone_opt(&self.object_details.warehouse),
                database: clone_opt(&self.object_details.database),
                schema: clone_opt(&self.object_details.schema),
            },
            tokens: TokenState::new(),
        }
    }

    /// A closed session that will log in with an OAuth access token.
    pub fn build_oauth(&self, oauth_access_token: &str) -> (r: Session)
        ensures
            r.auth_type matches AuthType::OAuth(t) && t@ == oauth_access_token@,
            r.account_identifier@ == self.account_identifier@,
            r.username@ == self.username@,
            opt_view(r.role) == opt_view(self.role),
            opt_view(r.object_details.warehouse) == opt_view(self.object_details.warehouse),
            opt_view(r.object_details.database) == opt_view(self.object_details.database),
            opt_view(r.object_details.schema) == opt_view(self.object_details.schema),
            r.tokens.tokens is None,
    {
        self.build(AuthType::OAuth(String::from_str(oauth_access_token)))
    }

    /// A closed session that will log in with a password.
    pub fn build_password(&self, password: &str) -> (r: Session)
        ensures
            r.auth_type matches AuthType::Password(p) && p@ == password@,
            r.account_identifier@ == self.account_identifier@,
            r.username@ == self.username@,
            opt_view(r.role) == opt_view(self.role),
            opt_view(r.object_details.warehouse) == opt_view(self.object_details.warehouse),
            opt_view(r.object_details.database) == opt_view(self.object_details.database),
            opt_view(r.object_details.schema) == opt_view(self.object_details.schema),
            r.tokens.tokens is None,
    {
        self.build(AuthType::Password(String::from_str(password)))
    }

    /// A closed session that will log in with a keypair JWT.
    pub fn build_cert(&self, private_key_pem: &str) -> (r: Session)
        ensures
            r.auth_type matches AuthType::Certificate(k) && k@ == private_key_pem@,
            r.account_identifier@ == self.account_identifier@,
            r.username@ == self.username@,
            opt_view(r.role) == opt_view(self.role),
            opt_view(r.object_details.warehouse) == opt_view(self.object_details.warehouse),
            opt_view(r.object_details.database) == opt_view(self.object_details.database),
            opt_view(r.object_details.schema) == opt_view(self.object_details.schema),
            r.tokens.tokens is None,
    {
        self.build(AuthType::Certificate(String::from_str(private_key_pem)))
    }
}

/// A session's configuration and its tokens. Created closed: the first call
/// that needs tokens logs in.
#[derive(Debug)]
pub struct Session {
    pub auth_type: AuthType,
    pub account_identifier: String,
    pub username: String,
    pub role: Option<String>,
    pub object_details: SessionObjectDetails,
    pub tokens: TokenState,
}

/// One query parameter when its value is present.
pub open spec fn opt_param(name: Seq<char>, value: Option<Seq<char>>) -> Seq<(Seq<char>, Seq<char>)> {
    match value {
        Some(v) => seq![(name, v)],
        None => Seq::empty(),
    }
}

/// The login query parameters: those of warehouse, database, schema and role that are set.
pub open spec fn login_params_of(s: Session) -> Seq<(Seq<char>, Seq<char>)> {
    opt_param("warehouse"@, opt_view(s.object_details.warehouse)) + opt_param(
        "databaseName"@,
        opt_view(s.object_details.database),
    ) + opt_param("schemaName"@, opt_view(s.object_details.schema)) + opt_param(
        "roleName"@,
        opt_view(s.role),
    )
}

/// The fields common to every login body of this session.
pub open spec fn is_login_common_of(c: LoginRequestCommon, s: Session) -> bool {
    &&& c.client_app_id@ == "Go"@
    &&& c.client_app_version@ == "1.6.22"@
    &&& c.svn_revision@ == Seq::<char>::empty()
    &&& c.account_name@ == s.account_identifier@
    &&& c.login_name@ == s.username@
    &&& c.session_parameters.client_validate_default_parameters
    &&& c.client_environment.application@ == "Rust"@
    &&& c.client_environment.os@ == "darwin"@
    &&& c.client_environment.os_version@ == "gc-arm64"@
    &&& c.client_environment.ocsp_mode@ == "FAIL_OPEN"@
}

/// `ACCOUNT.USERNAME`, the identity a keypair JWT names.
pub open spec fn full_identifier_of(s: Session) -> Seq<char> {
    s.account_identifier@ + "."@ + s.username@
}

fn push_param(v: &mut Vec<(String, String)>, name: &str, value: &Option<String>)
    ensures
        pairs_view(final(v)@) == pairs_view(old(v)@) + opt_param(name@, opt_view(*value)),
{
    let ghost before = pairs_view(v@);
    if let Some(x) = value {
        v.push((String::from_str(name), x.clone()));
        assert(pairs_view(v@) =~= before + opt_param(name@, opt_view(*value)));
    } else {
        assert(pairs_view(v@) =~= before + opt_param(name@, opt_view(*value)));
    }
}

impl Session {
    /// Query parameters of the login request.
    pub fn login_query_params(&self) -> (r: Vec<(String, String)>)
        ensures
            pairs_view(r@) == login_params_of(*self),
    {
        let mut v: Vec<(String, String)> = Vec::new();
        assert(pairs_view(v@) =~= Seq::empty());
        push_param(&mut v, "warehouse", &self.object_details.warehouse);
        push_param(&mut v, "databaseName", &self.object_details.database);
        push_param(&mut v, "schemaName", &self.object_details.schema);
        push_param(&mut v, "roleName", &self.role);
        assert(pairs_view(v@) =~= login_params_of(*self));
        v
    }

    pub fn login_request_common(&self) -> (r: LoginRequestCommon)
        ensures
            is_login_common_of(r, *self),
    {
        LoginRequestCommon {
            client_app_id: String::from_str("Go"),
            client_app_version: String::from_str("1.6.22"),
            svn_revision: String::new(),
            account_name: self.account_identifier.clone(),
            login_name: self.username.clone(),
            session_parameters: SessionParameters { client_validate_default_parameters: true },
            client_environment: ClientEnvironment {
                application: String::from_str("Rust"),
                os: String::from_str("darwin"),
                os_version: String::from_str("gc-arm64"),
                ocsp_mode: String::from_str("FAIL_OPEN"),
            },
        }
    }

    pub fn full_identifier(&self) -> (r: String)
        ensures
            r@ == full_identifier_of(*self),
    {
        let mut r = self.account_identifier.clone();
        r.append(".");
        r.append(self.username.as_str());
        r
    }

    /// The login body for the session's scheme. A keypair session signs a JWT
    /// now, and fails where that fails.
    pub fn login_body(&self) -> (r: Result<LoginBody, AuthError>)
        ensures
            match self.auth_type {
                AuthType::Password(p) => r matches Ok(LoginBody::Password(b))
                    && is_login_common_of(b.data.login_request_common, *self)
                    && b.data.password@ == p@,
                AuthType::OAuth(t) => r matches Ok(LoginBody::OAuth(b))
                    && is_login_common_of(b.data.login_request_common, *self)
                    && b.data.authenticator@ == "OAUTH"@ && b.data.token@ == t@,
                AuthType::Certificate(pem) => (match r {
                    Ok(LoginBody::Cert(b)) => is_login_common_of(b.data.login_request_common, *self)
                        && b.data.authenticator@ == "SNOWFLAKE_JWT"@
                        && (pem_key_ders_of(pem@) matches Some((p, q))
                        && is_keypair_jwt_for(b.data.token@, full_identifier_of(*self), p, q)),
                    Ok(_) => false,
                    Err(e) => e is JwtError,
                }) && (pem_key_ders_of(pem@) is None ==> r is Err),
            },
    {
        match &self.auth_type {
            AuthType::Password(p) => Ok(
                LoginBody::Password(
                    PasswordLoginRequest {
                        data: PasswordRequestData {
                            login_request_common: self.login_request_common(),
                            password: p.clone(),
                        },
                    },
                ),
            ),
            AuthType::OAuth(t) => Ok(
                LoginBody::OAuth(
                    OAuthLoginRequest {
                        data: OAuthRequestData {
                            login_request_common: self.login_request_common(),
                            authenticator: String::from_str("OAUTH"),
                            token: t.clone(),
                        },
                    },
                ),
            ),
            AuthType::Certificate(pem) => {
                let id = self.full_identifier();
                match generate_jwt_token(pem.as_str(), id.as_str()) {
                    Ok(token) => Ok(
                        LoginBody::Cert(
                            CertLoginRequest {
                                data: CertRequestData {
                                    login_request_common: self.login_request_common(),
                                    authenticator: String::from_str("SNOWFLAKE_JWT"),
                                    token,
                                },
                            },
                        ),
                    ),
                    Err(e) => Err(AuthError::JwtError(e)),
                }
            },
        }
    }

    /// The auth header of a close request; `None` when no session is open,
    /// and then there is nothing to close.
    pub fn close_auth_header(&self) -> (r: Option<String>)
        ensures
            match self.tokens.tokens {
                Some(t) => r matches Some(h) && h@ == auth_header_of(t.session_token.token@),
                None => r is None,
            },
    {
        match &self.tokens.tokens {
            Some(t) => Some(t.session_token.auth_header()),
            None => None,
        }
    }
}

} // verus!
