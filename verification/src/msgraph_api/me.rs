//! The profile of the signed-in user.

use crate::errors::ApiError;
use crate::msgraph_api::{bearer, probe_of, ApiClient, CallModel, GatedCall, RequestModel};
use crate::wire::{json_of, json_parse, parse_json, without_member, Json};
use vstd::prelude::*;

verus! {

/// The profile that the body of an answer holds: the JSON document without
/// the member `@odata.context`, which describes the answer and not the user.
pub open spec fn profile_of(body: Seq<char>) -> Result<Json, ApiError> {
    match json_parse(body) {
        Some(doc) => Ok(doc.without("@odata.context"@)),
        None => Err(ApiError::MalformedBody),
    }
}

/// Reads the body of an answer to a profile request.
pub fn me_profile(body: &str) -> (r: Result<serde_json::Value, ApiError>)
    ensures
        match r {
            Ok(profile) => profile_of(body@) == Ok::<Json, ApiError>(json_of(profile)),
            Err(e) => profile_of(body@) == Err::<Json, ApiError>(e),
        },
{
    match parse_json(body) {
        Some(doc) => Ok(without_member(doc, "@odata.context")),
        None => Err(ApiError::MalformedBody),
    }
}

/// The call that retrieves the profile, for a client at `base` with `token`,
/// where `url` is the URL of the profile.
pub open spec fn me_call(base: Seq<char>, token: Seq<char>, url: Option<Seq<char>>) -> Result<
    CallModel,
    ApiError,
> {
    match url {
        Some(url) => Ok(
            CallModel::Probe {
                probe: probe_of(base, token),
                request: RequestModel { url, headers: seq![bearer(token)] },
            },
        ),
        None => Err(ApiError::InvalidUrl),
    }
}

/// The signed-in user, as every version of the API client offers it.
pub trait MeApi: ApiClient {
    /// The URL of the profile for the query parameters `params`; `None`
    /// where none can be built.
    spec fn me_url(&self, params: Seq<(Seq<char>, Seq<char>)>) -> Option<Seq<char>>;

    /// The call that retrieves the profile of the signed-in user. Its body is
    /// read by `me_profile`.
    fn get_me(&self, params: Option<Vec<(String, String)>>) -> (r: Result<GatedCall, ApiError>)
        ensures
            match r {
                Ok(call) => me_call(
                    self.base_path(),
                    self.token(),
                    self.me_url(crate::msgraph_api::users::given(params)),
                ) == Ok::<CallModel, ApiError>(call@),
                Err(e) => me_call(
                    self.base_path(),
                    self.token(),
                    self.me_url(crate::msgraph_api::users::given(params)),
                ) == Err::<CallModel, ApiError>(e),
            },
    ;
}

} // verus!
