//! The authorization code flow with PKCE: the operator is sent to an
//! authorization URL, comes back with a redirect that carries a code, and the
//! code is exchanged for a token together with the verifier whose challenge
//! the URL carried.

use crate::auth::scopes::{parse_scopes, scope_list, scope_parameter};
use crate::auth::{
    client_fields, endpoint, push_client_fields, FormModel, FormRequest, OAuthEndpoints,
};
use crate::constants::REDIRECT_URI;
use crate::errors::{AuthError, ConfigError};
use crate::helpers::ClientConfig;
use crate::text::{join, str_eq};
use crate::web::{build_url, built_url, find_value, first_value, read_query, url_query_text};
use crate::wire::{
    byte_len, new_pkce, new_state, pair_cost, pairs_cost, pkce_challenge_of, url_parsed,
    PKCE_BYTES, STATE_BYTES,
};
use vstd::prelude::*;
use vstd::string::StringExecFns;

verus! {

/// A code verifier and the challenge that stands for it.
#[derive(Debug)]
pub struct Pkce {
    pub challenge: String,
    pub verifier: String,
}

/// The parameters of an authorization URL: what is asked for, by whom, the
/// state to echo, the challenge and how it was derived, where to come back
/// to, and the scopes.
pub open spec fn authorization_pairs(
    client_id: Seq<char>,
    state: Seq<char>,
    challenge: Seq<char>,
    scopes: Seq<Seq<char>>,
) -> Seq<(Seq<char>, Seq<char>)> {
    seq![
        ("response_type"@, "code"@),
        ("client_id"@, client_id),
        ("state"@, state),
        ("code_challenge"@, challenge),
        ("code_challenge_method"@, "S256"@),
        ("redirect_uri"@, REDIRECT_URI@),
        ("scope"@, join(scopes, ' ')),
    ]
}

/// A code flow as plain text.
pub struct CodeModel {
    /// The URL that the operator visits.
    pub url: Seq<char>,
    /// The state that the redirect must echo.
    pub state: Seq<char>,
    /// The challenge that the URL carries.
    pub challenge: Seq<char>,
    /// The verifier that is sent with the code.
    pub verifier: Seq<char>,
    /// Who signs in.
    pub config: ClientConfig,
}

/// The code flow for `config` with the given secrets, or the reason why it
/// cannot start.
pub open spec fn code_flow(
    config: ClientConfig,
    challenge: Seq<char>,
    verifier: Seq<char>,
    state: Seq<char>,
) -> Result<CodeModel, AuthError> {
    if scope_list(config.scopes@).len() == 0 {
        Err(AuthError::Config(ConfigError::EmptyScopes))
    } else {
        match built_url(
            endpoint(config.tenant_id@, "authorize"@),
            authorization_pairs(config.client_id@, state, challenge, scope_list(config.scopes@)),
        ) {
            Some(url) => Ok(CodeModel { url, state, challenge, verifier, config }),
            None => Err(AuthError::InvalidEndpoint),
        }
    }
}

/// Most bytes by which a pair makes a query grow whose value is `bytes`
/// bytes long.
pub open spec fn sized_cost(name: Seq<char>, bytes: nat) -> nat {
    3 * byte_len(name) + 3 * bytes + 2
}

/// Most bytes by which the parameters of an authorization URL make it grow,
/// for any state and challenge of the sizes that are drawn.
pub open spec fn authorization_cost(client_id: Seq<char>, scopes: Seq<Seq<char>>) -> nat {
    pair_cost("response_type"@, "code"@) + pair_cost("client_id"@, client_id) + sized_cost(
        "state"@,
        STATE_BYTES as nat,
    ) + sized_cost("code_challenge"@, PKCE_BYTES as nat) + pair_cost(
        "code_challenge_method"@,
        "S256"@,
    ) + pair_cost("redirect_uri"@, REDIRECT_URI@) + pair_cost("scope"@, join(scopes, ' '))
}

/// A code flow for `config` can start: it names a scope, the authorization
/// endpoint of its tenant is an absolute URL, and that URL can take the
/// parameters.
pub open spec fn code_can_start(config: ClientConfig) -> bool {
    &&& scope_list(config.scopes@).len() > 0
    &&& url_parsed(endpoint(config.tenant_id@, "authorize"@)) is Some
    &&& byte_len(url_parsed(endpoint(config.tenant_id@, "authorize"@))->0) + 1
        + authorization_cost(config.client_id@, scope_list(config.scopes@)) <= u32::MAX
}

/// The parameters of an authorization URL cost what their sizes say,
/// whatever the state and the challenge are.
pub proof fn lemma_authorization_cost(
    client_id: Seq<char>,
    state: Seq<char>,
    challenge: Seq<char>,
    scopes: Seq<Seq<char>>,
)
    requires
        byte_len(state) == STATE_BYTES,
        byte_len(challenge) == PKCE_BYTES,
    ensures
        pairs_cost(authorization_pairs(client_id, state, challenge, scopes)) == authorization_cost(
            client_id,
            scopes,
        ),
{
    let p = authorization_pairs(client_id, state, challenge, scopes);
    let p6 = p.drop_last();
    let p5 = p6.drop_last();
    let p4 = p5.drop_last();
    let p3 = p4.drop_last();
    let p2 = p3.drop_last();
    let p1 = p2.drop_last();
    let p0 = p1.drop_last();
    assert(p0.len() == 0);
    assert(pairs_cost(p0) == 0);
    assert(pairs_cost(p1) == pairs_cost(p0) + pair_cost(p1.last().0, p1.last().1));
    assert(pairs_cost(p2) == pairs_cost(p1) + pair_cost(p2.last().0, p2.last().1));
    assert(pairs_cost(p3) == pairs_cost(p2) + pair_cost(p3.last().0, p3.last().1));
    assert(pairs_cost(p4) == pairs_cost(p3) + pair_cost(p4.last().0, p4.last().1));
    assert(pairs_cost(p5) == pairs_cost(p4) + pair_cost(p5.last().0, p5.last().1));
    assert(pairs_cost(p6) == pairs_cost(p5) + pair_cost(p6.last().0, p6.last().1));
    assert(pairs_cost(p) == pairs_cost(p6) + pair_cost(p.last().0, p.last().1));
    assert(p1.last() == p[0]);
    assert(p2.last() == p[1]);
    assert(p3.last() == p[2]);
    assert(p4.last() == p[3]);
    assert(p5.last() == p[4]);
    assert(p6.last() == p[5]);
    assert(p.last() == p[6]);
}

/// Why a code flow for `config` does not start, where it does not: the
/// scopes are looked at first, and what is left is that no authorization URL
/// can be built.
pub open spec fn start_failure(config: ClientConfig) -> AuthError {
    if scope_list(config.scopes@).len() == 0 {
        AuthError::Config(ConfigError::EmptyScopes)
    } else {
        AuthError::InvalidEndpoint
    }
}

/// The code that a pasted redirect carries for a flow that sent `state`. The
/// redirect must be an absolute URL, carry a `code`, and echo the state.
pub open spec fn redirect_code(redirect: Seq<char>, state: Seq<char>) -> Result<
    Seq<char>,
    AuthError,
> {
    match url_query_text(redirect) {
        None => Err(AuthError::RedirectUnreadable),
        Some(pairs) => match first_value(pairs, "code"@) {
            None => Err(AuthError::RedirectWithoutCode),
            Some(code) => if first_value(pairs, "state"@) == Some(state) {
                Ok(code)
            } else {
                Err(AuthError::StateMismatch)
            },
        },
    }
}

/// The request that exchanges `code` for a token.
pub open spec fn code_exchange(m: CodeModel, code: Seq<char>) -> FormModel {
    FormModel {
        url: endpoint(m.config.tenant_id@, "token"@),
        fields: seq![
            ("grant_type"@, "authorization_code"@),
            ("code"@, code),
            ("code_verifier"@, m.verifier),
            ("redirect_uri"@, REDIRECT_URI@),
        ] + client_fields(m.config.client_id@, m.config.client_secret@),
    }
}

/// What becomes of a flow when the operator pastes `redirect`: the exchange
/// of the code that it carries, or the reason why there is none.
pub open spec fn redeemed(m: CodeModel, redirect: Seq<char>) -> Result<FormModel, AuthError> {
    match redirect_code(redirect, m.state) {
        Ok(code) => Ok(code_exchange(m, code)),
        Err(e) => Err(e),
    }
}

/// A code flow that waits for the operator to come back. It is used up by
/// the redirect, so its verifier goes into one exchange at most.
pub struct CodeFlow {
    url: String,
    state: String,
    challenge: String,
    verifier: String,
    config: ClientConfig,
}

impl View for CodeFlow {
    type V = CodeModel;

    closed spec fn view(&self) -> CodeModel {
        CodeModel {
            url: self.url@,
            state: self.state@,
            challenge: self.challenge@,
            verifier: self.verifier@,
            config: self.config,
        }
    }
}

impl CodeFlow {
    /// The flow for `config` with a fresh random verifier and state. It
    /// starts wherever it can, whatever is drawn, and the challenge in its
    /// URL is the one that belongs to its verifier.
    pub fn start(config: &ClientConfig) -> (r: Result<CodeFlow, AuthError>)
        ensures
            r is Ok <==> code_can_start(*config),
            match r {
                Ok(flow) => flow@.challenge == pkce_challenge_of(flow@.verifier) && code_flow(
                    *config,
                    flow@.challenge,
                    flow@.verifier,
                    flow@.state,
                ) == Ok::<CodeModel, AuthError>(flow@),
                Err(e) => e == start_failure(*config),
            },
    {
        let pkce = new_pkce();
        let state = new_state();
        proof {
            lemma_authorization_cost(
                config.client_id@,
                state@,
                pkce.challenge@,
                scope_list(config.scopes@),
            );
        }
        CodeFlow::begin(config, pkce, state)
    }

    /// The flow for `config` with the given verifier, challenge and state.
    pub fn begin(config: &ClientConfig, pkce: Pkce, state: String) -> (r: Result<
        CodeFlow,
        AuthError,
    >)
        ensures
            match r {
                Ok(flow) => code_flow(*config, pkce.challenge@, pkce.verifier@, state@) == Ok::<
                    CodeModel,
                    AuthError,
                >(flow@),
                Err(e) => code_flow(*config, pkce.challenge@, pkce.verifier@, state@) == Err::<
                    CodeModel,
                    AuthError,
                >(e),
            },
    {
        let scopes = match parse_scopes(config.scopes.as_str()) {
            Ok(s) => s,
            Err(e) => {
                return Err(AuthError::Config(e));
            },
        };
        let mut pairs: Vec<(String, String)> = Vec::new();
        pairs.push((String::from_str("response_type"), String::from_str("code")));
        pairs.push((String::from_str("client_id"), config.client_id.clone()));
        pairs.push((String::from_str("state"), state.clone()));
        pairs.push((String::from_str("code_challenge"), pkce.challenge.clone()));
        pairs.push((String::from_str("code_challenge_method"), String::from_str("S256")));
        pairs.push((String::from_str("redirect_uri"), String::from_str(REDIRECT_URI)));
        pairs.push((String::from_str("scope"), scope_parameter(&scopes)));
        proof {
            assert(pairs.deep_view() =~= authorization_pairs(
                config.client_id@,
                state@,
                pkce.challenge@,
                scope_list(config.scopes@),
            ));
        }
        let endpoints = OAuthEndpoints::for_tenant(config.tenant_id.as_str());
        match build_url(endpoints.authorize.as_str(), &pairs) {
            Some(url) => Ok(
                CodeFlow {
                    url,
                    state,
                    challenge: pkce.challenge,
                    verifier: pkce.verifier,
                    config: config.snapshot(),
                },
            ),
            None => Err(AuthError::InvalidEndpoint),
        }
    }

    /// The URL that the operator visits.
    pub fn authorization_url(&self) -> (r: &str)
        ensures
            r@ == self@.url,
    {
        self.url.as_str()
    }

    /// The state that the redirect must echo.
    pub fn state(&self) -> (r: &str)
        ensures
            r@ == self@.state,
    {
        self.state.as_str()
    }

    /// Takes the redirect that the operator pasted and gives the request that
    /// exchanges its code for a token. Fails, with nothing to send, where the
    /// redirect carries no code or does not echo the state.
    pub fn redeem(self, redirect: &str) -> (r: Result<FormRequest, AuthError>)
        ensures
            match r {
                Ok(request) => redeemed(self@, redirect@) == Ok::<FormModel, AuthError>(request@),
                Err(e) => redeemed(self@, redirect@) == Err::<FormModel, AuthError>(e),
            },
    {
        let pairs = match read_query(redirect) {
            Some(p) => p,
            None => {
                return Err(AuthError::RedirectUnreadable);
            },
        };
        let code = match find_value(&pairs, "code") {
            Some(c) => c,
            None => {
                return Err(AuthError::RedirectWithoutCode);
            },
        };
        let echoed = match find_value(&pairs, "state") {
            Some(s) => str_eq(s.as_str(), self.state.as_str()),
            None => false,
        };
        if !echoed {
            return Err(AuthError::StateMismatch);
        }
        let mut fields: Vec<(String, String)> = Vec::new();
        fields.push((String::from_str("grant_type"), String::from_str("authorization_code")));
        fields.push((String::from_str("code"), code));
        fields.push((String::from_str("code_verifier"), self.verifier));
        fields.push((String::from_str("redirect_uri"), String::from_str(REDIRECT_URI)));
        proof {
            assert(fields.deep_view() =~= seq![
                ("grant_type"@, "authorization_code"@),
                ("code"@, code@),
                ("code_verifier"@, self.verifier@),
                ("redirect_uri"@, REDIRECT_URI@),
            ]);
        }
        push_client_fields(&mut fields, &self.config);
        let endpoints = OAuthEndpoints::for_tenant(self.config.tenant_id.as_str());
        Ok(FormRequest { url: endpoints.token, fields })
    }
}

/// A redirect without a `code` gives no exchange, whatever else it carries:
/// the flow fails with `RedirectWithoutCode`.
pub proof fn lemma_redirect_needs_code(m: CodeModel, redirect: Seq<char>)
    requires
        url_query_text(redirect) is Some,
        first_value(url_query_text(redirect)->0, "code"@) is None,
    ensures
        redeemed(m, redirect) == Err::<FormModel, AuthError>(AuthError::RedirectWithoutCode),
{
}

/// A code is exchanged only where the redirect echoes the state that was
/// sent, and then the exchange carries that code and the verifier of the
/// flow.
pub proof fn lemma_exchange_needs_state(m: CodeModel, redirect: Seq<char>)
    requires
        redeemed(m, redirect) is Ok,
    ensures
        url_query_text(redirect) is Some,
        first_value(url_query_text(redirect)->0, "state"@) == Some(m.state),
        first_value(url_query_text(redirect)->0, "code"@) is Some,
        first_value(redeemed(m, redirect)->Ok_0.fields, "code"@) == first_value(
            url_query_text(redirect)->0,
            "code"@,
        ),
        first_value(redeemed(m, redirect)->Ok_0.fields, "code_verifier"@) == Some(m.verifier),
{
    reveal_strlit("grant_type");
    reveal_strlit("code");
    reveal_strlit("code_verifier");
    let pairs = url_query_text(redirect)->0;
    let code = first_value(pairs, "code"@)->0;
    let fields = code_exchange(m, code).fields;
    assert("grant_type"@ != "code"@) by {
        assert("grant_type"@.len() != "code"@.len());
    }
    assert("grant_type"@ != "code_verifier"@) by {
        assert("grant_type"@.len() != "code_verifier"@.len());
    }
    assert("code"@ != "code_verifier"@) by {
        assert("code"@.len() != "code_verifier"@.len());
    }
    assert(fields[0] == ("grant_type"@, "authorization_code"@));
    assert(fields[1] == ("code"@, code));
    assert(fields[2] == ("code_verifier"@, m.verifier));
    assert(fields.skip(1)[0] == fields[1]);
    assert(fields.skip(1).skip(1)[0] == fields[2]);
    assert(first_value(fields.skip(1), "code"@) == Some(code));
    assert(first_value(fields, "code"@) == Some(code));
    assert(first_value(fields.skip(1).skip(1), "code_verifier"@) == Some(m.verifier));
    assert(first_value(fields.skip(1), "code_verifier"@) == Some(m.verifier));
}

} // verus!
