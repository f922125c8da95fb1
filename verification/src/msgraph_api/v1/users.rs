//! The users of the tenant, as version 1.0 of the API offers them.

use crate::errors::ApiError;
use crate::helpers::{query_params, TOP_MAX, TOP_MIN};
use crate::msgraph_api::users::{count_headers, or_empty, UsersApi, UsersWalk};
use crate::msgraph_api::v1::client::{add_default_select, with_default_select, ApiClientV1};
use crate::msgraph_api::{GatedCall, Request};
use crate::text::{digits_of, lemma_digits_round_trip, number_of};
use crate::web::{build_url, built_url, first_value};
use vstd::prelude::*;
use vstd::string::StringExecFns;

verus! {

impl UsersApi for ApiClientV1 {
    /// The count lives at `/users/$count` and takes the parameters as given.
    open spec fn users_count_url(&self, params: Seq<(Seq<char>, Seq<char>)>) -> Option<Seq<char>> {
        built_url(self.base_path@ + "/users/$count"@, params)
    }

    /// The collection lives at `/users`; the default `$select` is added
    /// where the parameters name none.
    open spec fn users_url(&self, params: Seq<(Seq<char>, Seq<char>)>) -> Option<Seq<char>> {
        built_url(self.base_path@ + "/users"@, with_default_select(params))
    }

    fn get_users_count(&self, params: Option<Vec<(String, String)>>) -> (r: Result<
        GatedCall,
        ApiError,
    >) {
        let pairs = or_empty(params);
        let base = self.base_path.clone().concat("/users/$count");
        match build_url(base.as_str(), &pairs) {
            Some(url) => {
                let mut headers = self.auth_headers();
                let ghost before = headers.deep_view();
                headers.push((String::from_str("ConsistencyLevel"), String::from_str("eventual")));
                proof {
                    assert(headers.deep_view() =~= before.push(
                        ("ConsistencyLevel"@, "eventual"@),
                    ));
                    assert(headers.deep_view() =~= count_headers(self.token@));
                }
                Ok(GatedCall::start(self.probe(), Request { url, headers }))
            },
            None => Err(ApiError::InvalidUrl),
        }
    }

    fn get_users(&self, params: Option<Vec<(String, String)>>, pages: u16) -> (r: Result<
        UsersWalk,
        ApiError,
    >) {
        let pairs = add_default_select(or_empty(params));
        let base = self.base_path.clone().concat("/users");
        match build_url(base.as_str(), &pairs) {
            Some(first) => Ok(UsersWalk::begin(self.probe(), first, pages)),
            None => Err(ApiError::InvalidUrl),
        }
    }
}

/// Every page size that the API accepts reaches it unchanged: the
/// parameters of the first request hold exactly one `$top`, its value is the
/// decimal numeral of `top`, and that numeral reads back as `top`.
pub proof fn lemma_top_is_sent(select: Option<Seq<char>>, skiptoken: Option<Seq<char>>, top: u16)
    requires
        TOP_MIN <= top <= TOP_MAX,
    ensures
        ({
            let sent = with_default_select(query_params(select, skiptoken, top));
            &&& first_value(sent, "$top"@) == Some(digits_of(top as nat))
            &&& forall|i: int, j: int|
                0 <= i < sent.len() && 0 <= j < sent.len() && (#[trigger] sent[i]).0 == "$top"@ && (
                #[trigger] sent[j]).0 == "$top"@ ==> i == j
            &&& number_of(digits_of(top as nat)) == top
        }),
{
    reveal_strlit("$top");
    reveal_strlit("$select");
    reveal_strlit("$skiptoken");
    lemma_digits_round_trip(top as nat);
    let params = query_params(select, skiptoken, top);
    let sent = with_default_select(params);
    let value = digits_of(top as nat);
    assert("$top"@ != "$select"@) by {
        assert("$top"@.len() != "$select"@.len());
    }
    assert("$top"@ != "$skiptoken"@) by {
        assert("$top"@.len() != "$skiptoken"@.len());
    }
    lemma_first_value_skips(sent, "$top"@, params.len() - 1);
}

/// Where none of the first `n` pairs is named `key`, the first value of
/// `key` is found among the rest.
proof fn lemma_first_value_skips(pairs: Seq<(Seq<char>, Seq<char>)>, key: Seq<char>, n: int)
    requires
        0 <= n <= pairs.len(),
        forall|i: int| 0 <= i < n ==> (#[trigger] pairs[i]).0 != key,
    ensures
        first_value(pairs, key) == first_value(pairs.skip(n), key),
    decreases n,
{
    if n == 0 {
        assert(pairs.skip(0) =~= pairs);
    } else {
        let rest = pairs.skip(1);
        assert forall|i: int| 0 <= i < n - 1 implies (#[trigger] rest[i]).0 != key by {
            assert(rest[i] == pairs[i + 1]);
        }
        lemma_first_value_skips(rest, key, n - 1);
        assert(rest.skip(n - 1) =~= pairs.skip(n));
    }
}

} // verus!
