//! The profile of the signed-in user, as version 1.0 of the API offers it.

use crate::errors::ApiError;
use crate::msgraph_api::me::MeApi;
use crate::msgraph_api::users::or_empty;
use crate::msgraph_api::v1::client::{add_default_select, with_default_select, ApiClientV1};
use crate::msgraph_api::{GatedCall, Request};
use crate::web::{build_url, built_url};
use vstd::prelude::*;
use vstd::string::StringExecFns;

verus! {

impl MeApi for ApiClientV1 {
    /// The profile lives at `/me`; the default `$select` is added where the
    /// parameters name none.
    open spec fn me_url(&self, params: Seq<(Seq<char>, Seq<char>)>) -> Option<Seq<char>> {
        built_url(self.base_path@ + "/me"@, with_default_select(params))
    }

    fn get_me(&self, params: Option<Vec<(String, String)>>) -> (r: Result<GatedCall, ApiError>) {
        let pairs = add_default_select(or_empty(params));
        let base = self.base_path.clone().concat("/me");
        match build_url(base.as_str(), &pairs) {
            Some(url) => Ok(
                GatedCall::start(self.probe(), Request { url, headers: self.auth_headers() }),
            ),
            None => Err(ApiError::InvalidUrl),
        }
    }
}

} // verus!
