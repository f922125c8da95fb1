//! The directory API as this crate sees it: requests to send, replies to
//! read, and one client per version of the API.

pub mod me;
pub mod users;
pub mod v1;

use crate::errors::ApiError;
use crate::helpers::QueryConfig;
use crate::msgraph_api::v1::client::ApiClientV1;
use crate::web::copy_pairs;
use vstd::prelude::*;

verus! {

/// A version of the directory API.
#[derive(Debug, Copy, Clone, PartialEq, Eq, PartialOrd, Ord, Structural)]
pub enum ApiVersion {
    V1,
    Beta,
}

/// A GET request for the caller to send.
#[derive(Debug, Clone)]
pub struct Request {
    pub url: String,
    /// Header names and values, in the order in which they are set.
    pub headers: Vec<(String, String)>,
}

/// A request as plain text.
pub struct RequestModel {
    pub url: Seq<char>,
    pub headers: Seq<(Seq<char>, Seq<char>)>,
}

impl View for Request {
    type V = RequestModel;

    open spec fn view(&self) -> RequestModel {
        RequestModel { url: self.url@, headers: self.headers.deep_view() }
    }
}

/// What came back for a request.
#[derive(Debug, Clone)]
pub enum Reply {
    /// No answer arrived: the connection failed.
    Unreachable,
    /// The server answered.
    Http { status: u16, body: String },
}

/// A reply as plain text.
pub enum ReplyModel {
    Unreachable,
    Http { status: u16, body: Seq<char> },
}

impl View for Reply {
    type V = ReplyModel;

    open spec fn view(&self) -> ReplyModel {
        match self {
            Reply::Unreachable => ReplyModel::Unreachable,
            Reply::Http { status, body } => ReplyModel::Http { status: *status, body: body@ },
        }
    }
}

/// The status codes that report success: 200 to 299.
pub open spec fn is_success(status: u16) -> bool {
    200 <= status <= 299
}

/// Whether `status` reports success.
pub fn status_is_success(status: u16) -> (r: bool)
    ensures
        r == is_success(status),
{
    200 <= status && status <= 299
}

/// The header that presents `token` as a bearer token.
pub open spec fn bearer(token: Seq<char>) -> (Seq<char>, Seq<char>) {
    ("Authorization"@, "Bearer "@ + token)
}

/// What every version of the API client offers.
pub trait ApiClient {
    /// The access token, as text.
    spec fn token(&self) -> Seq<char>;

    /// The base path, as text.
    spec fn base_path(&self) -> Seq<char>;

    /// The access token that the client presents.
    fn get_token(&self) -> (r: &str)
        ensures
            r@ == self.token(),
    ;

    /// The URL under which the resources of this version live.
    fn get_base_path(&self) -> (r: &str)
        ensures
            r@ == self.base_path(),
    ;

    /// The query parameters that stand for `query_config`.
    fn query_config_to_params(&self, query_config: &QueryConfig) -> (r: Vec<(String, String)>)
        ensures
            r.deep_view() == query_config.spec_params(),
    ;
}

/// The client for `api_version` that presents `token`. Only version 1 has a
/// client.
pub fn create_api_client(api_version: ApiVersion, token: String) -> (r: Result<
    ApiClientV1,
    ApiError,
>)
    ensures
        match r {
            Ok(client) => api_version == ApiVersion::V1 && client.token == token
                && client.base_path@ == "https://graph.microsoft.com/v1.0"@,
            Err(e) => api_version == ApiVersion::Beta && e == ApiError::UnsupportedVersion,
        },
{
    match api_version {
        ApiVersion::V1 => Ok(ApiClientV1::new(token)),
        ApiVersion::Beta => Err(ApiError::UnsupportedVersion),
    }
}

/// The probe for a client at `base` that presents `token`: the cheapest
/// authenticated request there is, for the signed-in user.
pub open spec fn probe_of(base: Seq<char>, token: Seq<char>) -> RequestModel {
    RequestModel { url: base + "/me"@, headers: seq![bearer(token)] }
}

/// Whether the answer to the probe shows the token to be accepted: a success
/// status says yes, any other status says no, and no answer at all is a
/// failure of its own.
pub open spec fn probe_verdict(reply: ReplyModel) -> Result<bool, ApiError> {
    match reply {
        ReplyModel::Unreachable => Err(ApiError::Transport),
        ReplyModel::Http { status, body } => Ok(is_success(status)),
    }
}

/// A single request to the API, preceded by the probe. It asks for the probe
/// first, for the request itself only once the token has been accepted, and
/// ends with the body of a successful answer or with the failure.
pub struct GatedCall {
    state: CallState,
}

/// The states of a gated call.
enum CallState {
    Probe { probe: Request, request: Request },
    Call { request: Request },
    Done(Result<String, ApiError>),
}

/// The states of a gated call.
pub enum CallModel {
    /// The probe is due.
    Probe { probe: RequestModel, request: RequestModel },
    /// The request is due.
    Call { request: RequestModel },
    /// The call is over.
    Done(Result<Seq<char>, ApiError>),
}

impl View for GatedCall {
    type V = CallModel;

    closed spec fn view(&self) -> CallModel {
        match self.state {
            CallState::Probe { probe, request } => CallModel::Probe {
                probe: probe@,
                request: request@,
            },
            CallState::Call { request } => CallModel::Call { request: request@ },
            CallState::Done(r) => CallModel::Done(
                match r {
                    Ok(body) => Ok(body@),
                    Err(e) => Err(e),
                },
            ),
        }
    }
}

/// The state of a call after `reply` has been fed to it. The request is made
/// only after the probe was answered with success; a call that is over stays
/// as it is.
pub open spec fn call_step(c: CallModel, reply: ReplyModel) -> CallModel {
    match c {
        CallModel::Probe { probe, request } => match probe_verdict(reply) {
            Err(e) => CallModel::Done(Err(e)),
            Ok(false) => CallModel::Done(Err(ApiError::TokenNotValid)),
            Ok(true) => CallModel::Call { request },
        },
        CallModel::Call { request } => match reply {
            ReplyModel::Unreachable => CallModel::Done(Err(ApiError::Transport)),
            ReplyModel::Http { status, body } => if is_success(status) {
                CallModel::Done(Ok(body))
            } else {
                CallModel::Done(Err(ApiError::RequestFailed))
            },
        },
        CallModel::Done(r) => c,
    }
}

/// The request that is due in state `c`; none once the call is over.
pub open spec fn call_due(c: CallModel) -> Option<RequestModel> {
    match c {
        CallModel::Probe { probe, request } => Some(probe),
        CallModel::Call { request } => Some(request),
        CallModel::Done(r) => None,
    }
}

impl GatedCall {
    /// A call that makes `request` once `probe` has been answered with
    /// success.
    pub fn start(probe: Request, request: Request) -> (r: GatedCall)
        ensures
            r@ == (CallModel::Probe { probe: probe@, request: request@ }),
    {
        GatedCall { state: CallState::Probe { probe, request } }
    }

    /// The request to send now; `None` once the call is over.
    pub fn next_request(&self) -> (r: Option<Request>)
        ensures
            match r {
                Some(q) => call_due(self@) == Some(q@),
                None => call_due(self@) is None,
            },
    {
        match &self.state {
            CallState::Probe { probe, request } => Some(
                Request { url: probe.url.clone(), headers: copy_pairs(&probe.headers) },
            ),
            CallState::Call { request } => Some(
                Request { url: request.url.clone(), headers: copy_pairs(&request.headers) },
            ),
            CallState::Done(r) => None,
        }
    }

    /// Feeds the reply to the request that was due.
    pub fn step(self, reply: Reply) -> (r: GatedCall)
        ensures
            r@ == call_step(self@, reply@),
    {
        let state = match self.state {
            CallState::Probe { probe, request } => match reply {
                Reply::Unreachable => CallState::Done(Err(ApiError::Transport)),
                Reply::Http { status, body } => if status_is_success(status) {
                    CallState::Call { request }
                } else {
                    CallState::Done(Err(ApiError::TokenNotValid))
                },
            },
            CallState::Call { request } => match reply {
                Reply::Unreachable => CallState::Done(Err(ApiError::Transport)),
                Reply::Http { status, body } => if status_is_success(status) {
                    CallState::Done(Ok(body))
                } else {
                    CallState::Done(Err(ApiError::RequestFailed))
                },
            },
            CallState::Done(r) => CallState::Done(r),
        };
        GatedCall { state }
    }

    /// The body that the call brought back, or why it failed; `None` while
    /// the call is not over.
    pub fn finish(self) -> (r: Option<Result<String, ApiError>>)
        ensures
            match r {
                Some(Ok(body)) => self@ == CallModel::Done(Ok(body@)),
                Some(Err(e)) => self@ == CallModel::Done(Err(e)),
                None => !(self@ is Done),
            },
    {
        match self.state {
            CallState::Done(r) => Some(r),
            _ => None,
        }
    }
}

/// No request is made of the API before the probe has been answered with
/// success: whatever else comes back for the probe ends the call with a
/// failure, and a refusal ends it with `TokenNotValid`.
pub proof fn lemma_probe_gates(probe: RequestModel, request: RequestModel, reply: ReplyModel)
    ensures
        ({
            let next = call_step(CallModel::Probe { probe, request }, reply);
            match reply {
                ReplyModel::Http { status, body } => if is_success(status) {
                    call_due(next) == Some(request)
                } else {
                    next == CallModel::Done(Err(ApiError::TokenNotValid))
                },
                ReplyModel::Unreachable => next == CallModel::Done(Err(ApiError::Transport)),
            }
        }),
{
}

} // verus!
