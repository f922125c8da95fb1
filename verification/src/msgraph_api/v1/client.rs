//! The client for version 1.0 and the probe that tells whether its token is
//! accepted.

use crate::errors::ApiError;
use crate::helpers::QueryConfig;
use crate::msgraph_api::{
    bearer, probe_of, probe_verdict, status_is_success, ApiClient, Reply, Request,
};
use vstd::prelude::*;
use vstd::string::StringExecFns;

verus! {

/// A client for version 1.0 of the API: where it lives and the token to
/// present.
#[derive(Debug, Clone)]
pub struct ApiClientV1 {
    pub base_path: String,
    pub token: String,
}

impl ApiClientV1 {
    /// A client for version 1.0 that presents `token`.
    pub fn new(token: String) -> (r: Self)
        ensures
            r.token == token,
            r.base_path@ == "https://graph.microsoft.com/v1.0"@,
    {
        ApiClientV1 { base_path: String::from_str("https://graph.microsoft.com/v1.0"), token }
    }

    /// The headers of every request: the bearer token.
    pub fn auth_headers(&self) -> (r: Vec<(String, String)>)
        ensures
            r.deep_view() == seq![bearer(self.token@)],
    {
        let mut r: Vec<(String, String)> = Vec::new();
        r.push(
            (String::from_str("Authorization"), String::from_str("Bearer ").concat(
                self.token.as_str(),
            )),
        );
        proof {
            assert(r.deep_view() =~= seq![bearer(self.token@)]);
        }
        r
    }

    /// The cheapest authenticated request there is: the signed-in user.
    pub fn probe(&self) -> (r: Request)
        ensures
            r@ == probe_of(self.base_path@, self.token@),
    {
        Request { url: self.base_path.clone().concat("/me"), headers: self.auth_headers() }
    }

    /// Reads the answer to the probe.
    pub fn check_access_token_validity(&self, reply: &Reply) -> (r: Result<bool, ApiError>)
        ensures
            r == probe_verdict(reply@),
    {
        match reply {
            Reply::Unreachable => Err(ApiError::Transport),
            Reply::Http { status, body } => Ok(status_is_success(*status)),
        }
    }
}

impl ApiClient for ApiClientV1 {
    open spec fn token(&self) -> Seq<char> {
        self.token@
    }

    open spec fn base_path(&self) -> Seq<char> {
        self.base_path@
    }

    fn get_token(&self) -> (r: &str) {
        self.token.as_str()
    }

    fn get_base_path(&self) -> (r: &str) {
        self.base_path.as_str()
    }

    fn query_config_to_params(&self, query_config: &QueryConfig) -> (r: Vec<(String, String)>) {
        query_config.params()
    }
}

/// The properties that are asked for where the query names none.
pub const DEFAULT_SELECT: &'static str =
    "id,businessPhones,displayName,givenName,jobTitle,mail,mobilePhone,officeLocation,surname,userPrincipalName,onPremisesDistinguishedName,onPremisesDomainName,onPremisesLastSyncDateTime,onPremisesSecurityIdentifier,onPremisesSamAccountName,onPremisesSyncEnabled,onPremisesUserPrincipalName,passwordPolicies";

/// Whether one of the pairs is named `key`.
pub open spec fn has_key(pairs: Seq<(Seq<char>, Seq<char>)>, key: Seq<char>) -> bool {
    exists|i: int| 0 <= i < pairs.len() && (#[trigger] pairs[i]).0 == key
}

/// `params`, with the default `$select` at the end where it has none.
pub open spec fn with_default_select(params: Seq<(Seq<char>, Seq<char>)>) -> Seq<
    (Seq<char>, Seq<char>),
> {
    if has_key(params, "$select"@) {
        params
    } else {
        params.push(("$select"@, DEFAULT_SELECT@))
    }
}

/// Adds the default `$select` to `params` where it has none.
pub fn add_default_select(params: Vec<(String, String)>) -> (r: Vec<(String, String)>)
    ensures
        r.deep_view() == with_default_select(params.deep_view()),
{
    let ghost given = params.deep_view();
    let mut all = params;
    let mut i: usize = 0;
    while i < all.len()
        invariant
            i <= all.len(),
            given == all.deep_view(),
            given == params.deep_view(),
            forall|k: int| 0 <= k < i ==> (#[trigger] given[k]).0 != "$select"@,
        decreases all.len() - i,
    {
        proof {
            assert(given[i as int].0 == all@[i as int].0@);
        }
        if *all[i].0.as_str() == *"$select" {
            proof {
                assert(has_key(given, "$select"@));
            }
            return all;
        }
        i += 1;
    }
    all.push((String::from_str("$select"), String::from_str(DEFAULT_SELECT)));
    proof {
        assert(all.deep_view() =~= given.push(("$select"@, DEFAULT_SELECT@)));
    }
    all
}

} // verus!
