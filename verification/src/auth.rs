//! Signing in: the grant flows by which a token is obtained, each as the
//! requests to make and the decisions to take on what comes back.

pub mod code;
pub mod device;
pub mod password;
pub mod scopes;

use crate::auth::code::{code_can_start, code_flow, start_failure, CodeFlow, CodeModel};
use crate::auth::device::{device_code_form, device_code_request};
use crate::auth::password::{password_exchange, password_request};
use crate::errors::{AuthError, Step};
use crate::helpers::{AuthFlow, ClientConfig};
use crate::msgraph_api::{is_success, status_is_success, Reply, ReplyModel};
use crate::text::str_eq;
use crate::web::{json_string_member, string_member};
use crate::wire::{
    is_auth_url, is_device_authorization_url, is_token_url, json_parse, parse_json,
    pkce_challenge_of, url_parsed,
};
use vstd::prelude::*;
use vstd::string::StringExecFns;

verus! {

/// The outcome of one sign-in attempt: the configuration it was made with,
/// and the token if there is one. No token means that the attempt failed.
#[derive(Debug, Clone)]
pub struct AuthResult {
    pub credential: ClientConfig,
    pub auth_token: Option<String>,
}

impl AuthResult {
    /// The outcome of an attempt made with `credential` that brought
    /// `auth_token`.
    pub fn new(credential: ClientConfig, auth_token: Option<String>) -> (r: Self)
        ensures
            r == (AuthResult { credential, auth_token }),
    {
        AuthResult { credential, auth_token }
    }
}

/// The outcome of an attempt made with `credential` that ended in `token`.
pub fn process_raw_auth_result(credential: &ClientConfig, token: Result<String, AuthError>) -> (r:
    AuthResult)
    ensures
        r.credential == *credential,
        r.auth_token == match token {
            Ok(t) => Some(t),
            Err(e) => None,
        },
{
    AuthResult::new(
        credential.snapshot(),
        match token {
            Ok(t) => Some(t),
            Err(e) => None,
        },
    )
}

/// The endpoint `name` of the identity provider for the tenant `tenant`.
pub open spec fn endpoint(tenant: Seq<char>, name: Seq<char>) -> Seq<char> {
    "https://login.microsoftonline.com/"@ + tenant + "/oauth2/v2.0/"@ + name
}

/// The endpoints of the identity provider for one tenant.
#[derive(Debug, Clone)]
pub struct OAuthEndpoints {
    /// Where the operator is sent to authorize a request.
    pub authorize: String,
    /// Where codes, device codes and passwords are exchanged for tokens.
    pub token: String,
    /// Where a device flow starts.
    pub device_code: String,
}

/// The endpoint `name` for the tenant `tenant_id`.
fn endpoint_of(tenant_id: &str, name: &str) -> (r: String)
    ensures
        r@ == endpoint(tenant_id@, name@),
{
    String::from_str("https://login.microsoftonline.com/").concat(tenant_id).concat(
        "/oauth2/v2.0/",
    ).concat(name)
}

/// Each endpoint of the tenant `tenant` is an absolute URL.
pub open spec fn endpoints_valid(tenant: Seq<char>) -> bool {
    &&& url_parsed(endpoint(tenant, "authorize"@)) is Some
    &&& url_parsed(endpoint(tenant, "token"@)) is Some
    &&& url_parsed(endpoint(tenant, "devicecode"@)) is Some
}

impl OAuthEndpoints {
    /// Whether each of the endpoints is an absolute URL.
    pub fn are_valid(&self) -> (r: bool)
        ensures
            r == (url_parsed(self.authorize@) is Some && url_parsed(self.token@) is Some
                && url_parsed(self.device_code@) is Some),
    {
        is_auth_url(self.authorize.as_str()) && is_token_url(self.token.as_str())
            && is_device_authorization_url(self.device_code.as_str())
    }

    /// The endpoints for the tenant `tenant_id`.
    pub fn for_tenant(tenant_id: &str) -> (r: Self)
        ensures
            r.authorize@ == endpoint(tenant_id@, "authorize"@),
            r.token@ == endpoint(tenant_id@, "token"@),
            r.device_code@ == endpoint(tenant_id@, "devicecode"@),
    {
        OAuthEndpoints {
            authorize: endpoint_of(tenant_id, "authorize"),
            token: endpoint_of(tenant_id, "token"),
            device_code: endpoint_of(tenant_id, "devicecode"),
        }
    }
}

/// A POST request with a form for a body, for the caller to send.
#[derive(Debug, Clone)]
pub struct FormRequest {
    pub url: String,
    /// Names and values of the form, in order.
    pub fields: Vec<(String, String)>,
}

/// A form request as plain text.
pub struct FormModel {
    pub url: Seq<char>,
    pub fields: Seq<(Seq<char>, Seq<char>)>,
}

impl View for FormRequest {
    type V = FormModel;

    open spec fn view(&self) -> FormModel {
        FormModel { url: self.url@, fields: self.fields.deep_view() }
    }
}

/// The fields by which a client identifies itself in the body of a request:
/// its id, and its secret where it has one.
pub open spec fn client_fields(client_id: Seq<char>, client_secret: Seq<char>) -> Seq<
    (Seq<char>, Seq<char>),
> {
    if client_secret.len() == 0 {
        seq![("client_id"@, client_id)]
    } else {
        seq![("client_id"@, client_id), ("client_secret"@, client_secret)]
    }
}

/// Appends the fields by which the client of `config` identifies itself.
pub fn push_client_fields(fields: &mut Vec<(String, String)>, config: &ClientConfig)
    ensures
        final(fields).deep_view() == old(fields).deep_view() + client_fields(
            config.client_id@,
            config.client_secret@,
        ),
{
    let ghost before = fields.deep_view();
    fields.push((String::from_str("client_id"), config.client_id.clone()));
    proof {
        assert(fields.deep_view() =~= before.push(("client_id"@, config.client_id@)));
    }
    if !config.client_secret.as_str().is_empty() {
        let ghost with_id = fields.deep_view();
        fields.push((String::from_str("client_secret"), config.client_secret.clone()));
        proof {
            assert(fields.deep_view() =~= with_id.push(("client_secret"@, config.client_secret@)));
        }
    }
    proof {
        assert(fields.deep_view() =~= before + client_fields(
            config.client_id@,
            config.client_secret@,
        ));
    }
}

/// What the token endpoint says in answer to an exchange or a poll.
#[derive(Debug, Clone)]
pub enum TokenReply {
    /// The token is granted.
    Token(String),
    /// The operator has not answered yet.
    Pending,
    /// The polls come too fast.
    SlowDown,
    /// The operator refused.
    Denied,
    /// The device code has expired.
    Expired,
    /// The endpoint answered with another error, or with a failure that it
    /// does not explain.
    Rejected,
    /// The endpoint reports success and sends no token.
    Malformed,
    /// The endpoint could not be reached.
    Unreachable,
}

/// A `TokenReply` as plain text.
pub enum TokenVerdict {
    Token(Seq<char>),
    Pending,
    SlowDown,
    Denied,
    Expired,
    Rejected,
    Malformed,
    Unreachable,
}

impl View for TokenReply {
    type V = TokenVerdict;

    open spec fn view(&self) -> TokenVerdict {
        match self {
            TokenReply::Token(t) => TokenVerdict::Token(t@),
            TokenReply::Pending => TokenVerdict::Pending,
            TokenReply::SlowDown => TokenVerdict::SlowDown,
            TokenReply::Denied => TokenVerdict::Denied,
            TokenReply::Expired => TokenVerdict::Expired,
            TokenReply::Rejected => TokenVerdict::Rejected,
            TokenReply::Malformed => TokenVerdict::Malformed,
            TokenReply::Unreachable => TokenVerdict::Unreachable,
        }
    }
}

/// What an error code of the token endpoint means.
pub open spec fn error_verdict(code: Seq<char>) -> TokenVerdict {
    if code == "authorization_pending"@ {
        TokenVerdict::Pending
    } else if code == "slow_down"@ {
        TokenVerdict::SlowDown
    } else if code == "access_denied"@ {
        TokenVerdict::Denied
    } else if code == "expired_token"@ {
        TokenVerdict::Expired
    } else {
        TokenVerdict::Rejected
    }
}

/// What an answer of the token endpoint means. A success carries the token
/// in the string `access_token` of its JSON body; a failure carries its code
/// in the string `error`.
pub open spec fn token_verdict(reply: ReplyModel) -> TokenVerdict {
    match reply {
        ReplyModel::Unreachable => TokenVerdict::Unreachable,
        ReplyModel::Http { status, body } => if is_success(status) {
            match json_parse(body) {
                Some(doc) => match json_string_member(doc, "access_token"@) {
                    Some(token) => TokenVerdict::Token(token),
                    None => TokenVerdict::Malformed,
                },
                None => TokenVerdict::Malformed,
            }
        } else {
            match json_parse(body) {
                Some(doc) => match json_string_member(doc, "error"@) {
                    Some(code) => error_verdict(code),
                    None => TokenVerdict::Rejected,
                },
                None => TokenVerdict::Rejected,
            }
        },
    }
}

/// Reads an answer of the token endpoint.
pub fn read_token_reply(reply: &Reply) -> (r: TokenReply)
    ensures
        r@ == token_verdict(reply@),
{
    match reply {
        Reply::Unreachable => TokenReply::Unreachable,
        Reply::Http { status, body } => {
            let doc = parse_json(body.as_str());
            if status_is_success(*status) {
                match doc {
                    Some(doc) => match string_member(&doc, "access_token") {
                        Some(token) => TokenReply::Token(token),
                        None => TokenReply::Malformed,
                    },
                    None => TokenReply::Malformed,
                }
            } else {
                match doc {
                    Some(doc) => match string_member(&doc, "error") {
                        Some(code) => {
                            if str_eq(code.as_str(), "authorization_pending") {
                                TokenReply::Pending
                            } else if str_eq(code.as_str(), "slow_down") {
                                TokenReply::SlowDown
                            } else if str_eq(code.as_str(), "access_denied") {
                                TokenReply::Denied
                            } else if str_eq(code.as_str(), "expired_token") {
                                TokenReply::Expired
                            } else {
                                TokenReply::Rejected
                            }
                        },
                        None => TokenReply::Rejected,
                    },
                    None => TokenReply::Rejected,
                }
            }
        },
    }
}

/// The end of an exchange that is made once: the token, or a failure that
/// names the step `step`. Every error code of the endpoint counts as a
/// rejection of that step, those that only a poll can meet among them.
pub open spec fn exchange_result(verdict: TokenVerdict, step: Step) -> Result<Seq<char>, AuthError> {
    match verdict {
        TokenVerdict::Token(t) => Ok(t),
        TokenVerdict::Malformed => Err(AuthError::Malformed(step)),
        TokenVerdict::Unreachable => Err(AuthError::Transport(step)),
        _ => Err(AuthError::Rejected(step)),
    }
}

/// Reads the answer to an exchange that is made once.
pub fn conclude_exchange(reply: &Reply, step: Step) -> (r: Result<String, AuthError>)
    ensures
        match r {
            Ok(t) => exchange_result(token_verdict(reply@), step) == Ok::<Seq<char>, AuthError>(t@),
            Err(e) => exchange_result(token_verdict(reply@), step) == Err::<Seq<char>, AuthError>(
                e,
            ),
        },
{
    match read_token_reply(reply) {
        TokenReply::Token(t) => Ok(t),
        TokenReply::Malformed => Err(AuthError::Malformed(step)),
        TokenReply::Unreachable => Err(AuthError::Transport(step)),
        _ => Err(AuthError::Rejected(step)),
    }
}

/// An exchange that is made once fails with the step it belongs to: where
/// there is no token, the failure is a transport failure, a rejection or a
/// malformed answer of `step` and of no other.
pub proof fn lemma_exchange_names_its_step(verdict: TokenVerdict, step: Step)
    ensures
        match exchange_result(verdict, step) {
            Ok(t) => verdict == TokenVerdict::Token(t),
            Err(e) => e == AuthError::Transport(step) || e == AuthError::Rejected(step) || e
                == AuthError::Malformed(step),
        },
        verdict is Unreachable <==> exchange_result(verdict, step) == Err::<Seq<char>, AuthError>(
            AuthError::Transport(step),
        ),
        verdict is Malformed <==> exchange_result(verdict, step) == Err::<Seq<char>, AuthError>(
            AuthError::Malformed(step),
        ),
{
}

/// A sign-in that has been started: the flow that was chosen, with the
/// request or the state that it begins with.
pub enum Flow {
    /// The device flow, with the request for a device code.
    Device(FormRequest),
    /// The code flow, waiting for the operator to come back.
    Code(CodeFlow),
    /// The password flow, with its one exchange.
    Password(FormRequest),
}

/// What `authenticate` answers for the device flow.
pub open spec fn device_start(config: ClientConfig, r: Result<Flow, AuthError>) -> bool {
    match r {
        Ok(Flow::Device(request)) => device_code_form(config) == Ok::<FormModel, AuthError>(
            request@,
        ),
        Ok(_) => false,
        Err(e) => device_code_form(config) == Err::<FormModel, AuthError>(e),
    }
}

/// What `authenticate` answers for the code flow: wherever the flow can
/// start, a flow whose URL carries the challenge of its own verifier,
/// whatever verifier and state were drawn.
pub open spec fn code_start(config: ClientConfig, r: Result<Flow, AuthError>) -> bool {
    &&& r is Ok <==> code_can_start(config)
    &&& match r {
        Ok(Flow::Code(flow)) => flow@.challenge == pkce_challenge_of(flow@.verifier) && code_flow(
            config,
            flow@.challenge,
            flow@.verifier,
            flow@.state,
        ) == Ok::<CodeModel, AuthError>(flow@),
        Ok(_) => false,
        Err(e) => e == start_failure(config),
    }
}

/// What `authenticate` answers for the password flow.
pub open spec fn password_start(
    config: ClientConfig,
    username: Option<Seq<char>>,
    password: Option<Seq<char>>,
    r: Result<Flow, AuthError>,
) -> bool {
    match r {
        Ok(Flow::Password(request)) => password_exchange(config, username, password) == Ok::<
            FormModel,
            AuthError,
        >(request@),
        Ok(_) => false,
        Err(e) => password_exchange(config, username, password) == Err::<FormModel, AuthError>(e),
    }
}

/// Starts the flow that `config` names. The client credentials flow is not
/// provided and fails at once; every other flow needs the endpoints of the
/// tenant to be URLs; the password flow needs `username` and `password`,
/// the other flows ignore them. Nothing has been sent when this returns.
pub fn authenticate(
    config: &ClientConfig,
    username: Option<String>,
    password: Option<String>,
) -> (r: Result<Flow, AuthError>)
    ensures
        match config.auth_flow {
            AuthFlow::Client => r matches Err(e) && e == AuthError::UnsupportedFlow,
            _ => if !endpoints_valid(config.tenant_id@) {
                r matches Err(e) && e == AuthError::InvalidEndpoint
            } else {
                match config.auth_flow {
                    AuthFlow::Device => device_start(*config, r),
                    AuthFlow::Code => code_start(*config, r),
                    _ => password_start(*config, username.deep_view(), password.deep_view(), r),
                }
            },
        },
{
    match config.auth_flow {
        AuthFlow::Client => {
            return Err(AuthError::UnsupportedFlow);
        },
        _ => {},
    }
    if !OAuthEndpoints::for_tenant(config.tenant_id.as_str()).are_valid() {
        return Err(AuthError::InvalidEndpoint);
    }
    match config.auth_flow {
        AuthFlow::Device => match device_code_request(config) {
            Ok(request) => Ok(Flow::Device(request)),
            Err(e) => Err(e),
        },
        AuthFlow::Code => match CodeFlow::start(config) {
            Ok(flow) => Ok(Flow::Code(flow)),
            Err(e) => Err(e),
        },
        AuthFlow::Client => Err(AuthError::UnsupportedFlow),
        AuthFlow::Password => match password_request(config, username, password) {
            Ok(request) => Ok(Flow::Password(request)),
            Err(e) => Err(e),
        },
    }
}

} // verus!
