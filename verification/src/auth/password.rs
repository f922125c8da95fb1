//! The resource owner password flow: one exchange of a user name and a
//! password for a token, with no interactive step.

use crate::auth::scopes::{parse_scopes, scope_list, scope_parameter};
use crate::auth::{
    client_fields, endpoint, push_client_fields, FormModel, FormRequest, OAuthEndpoints,
};
use crate::errors::{AuthError, ConfigError};
use crate::helpers::ClientConfig;
use crate::text::join;
use vstd::prelude::*;
use vstd::string::StringExecFns;

verus! {

/// The request that exchanges a user name and a password for a token, or the
/// reason why the configuration does not allow it. The user name is looked
/// at first, then the password, then the scopes.
pub open spec fn password_exchange(
    config: ClientConfig,
    username: Option<Seq<char>>,
    password: Option<Seq<char>>,
) -> Result<FormModel, AuthError> {
    if username is None {
        Err(AuthError::Config(ConfigError::MissingUsername))
    } else if password is None {
        Err(AuthError::Config(ConfigError::MissingPassword))
    } else if scope_list(config.scopes@).len() == 0 {
        Err(AuthError::Config(ConfigError::EmptyScopes))
    } else {
        Ok(
            FormModel {
                url: endpoint(config.tenant_id@, "token"@),
                fields: seq![
                    ("grant_type"@, "password"@),
                    ("username"@, username->0),
                    ("password"@, password->0),
                    ("scope"@, join(scope_list(config.scopes@), ' ')),
                ] + client_fields(config.client_id@, config.client_secret@),
            },
        )
    }
}

/// The request of the password flow. Fails before anything is sent where the
/// user name, the password or the scopes are missing.
pub fn password_request(
    config: &ClientConfig,
    username: Option<String>,
    password: Option<String>,
) -> (r: Result<FormRequest, AuthError>)
    ensures
        match r {
            Ok(request) => password_exchange(*config, username.deep_view(), password.deep_view())
                == Ok::<FormModel, AuthError>(request@),
            Err(e) => password_exchange(*config, username.deep_view(), password.deep_view())
                == Err::<FormModel, AuthError>(e),
        },
{
    let username = match username {
        Some(u) => u,
        None => {
            return Err(AuthError::Config(ConfigError::MissingUsername));
        },
    };
    let password = match password {
        Some(p) => p,
        None => {
            return Err(AuthError::Config(ConfigError::MissingPassword));
        },
    };
    let scopes = match parse_scopes(config.scopes.as_str()) {
        Ok(s) => s,
        Err(e) => {
            return Err(AuthError::Config(e));
        },
    };
    let mut fields: Vec<(String, String)> = Vec::new();
    fields.push((String::from_str("grant_type"), String::from_str("password")));
    fields.push((String::from_str("username"), username));
    fields.push((String::from_str("password"), password));
    fields.push((String::from_str("scope"), scope_parameter(&scopes)));
    proof {
        assert(fields.deep_view() =~= seq![
            ("grant_type"@, "password"@),
            ("username"@, username@),
            ("password"@, password@),
            ("scope"@, join(scope_list(config.scopes@), ' ')),
        ]);
    }
    push_client_fields(&mut fields, config);
    let endpoints = OAuthEndpoints::for_tenant(config.tenant_id.as_str());
    Ok(FormRequest { url: endpoints.token, fields })
}

} // verus!
