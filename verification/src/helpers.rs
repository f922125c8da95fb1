//! The values that describe one run: what the operator asked for, who signs
//! in and how, and how a collection is to be queried.

use crate::constants::DEFAULT_CLIENT_ID;
use crate::errors::ConfigError;
use crate::msgraph_api::ApiVersion;
use crate::text::{decimal, digits_of, numeral_value, parse_usize};
use vstd::prelude::*;
use vstd::string::StringExecFns;

verus! {

/// Smallest page size that the API accepts.
pub const TOP_MIN: u16 = 1;

/// Largest page size that the API accepts.
pub const TOP_MAX: u16 = 999;

/// The grant by which a token is obtained.
#[derive(Debug, Copy, Clone, PartialEq, Eq, PartialOrd, Ord, Structural)]
pub enum AuthFlow {
    /// Device authorization flow.
    Device,
    /// Authorization code flow with PKCE.
    Code,
    /// Client credentials flow.
    Client,
    /// Resource owner password credentials flow.
    Password,
}

/// The resource that a `get` command retrieves.
#[derive(Debug, Copy, Clone, PartialEq, Eq, PartialOrd, Ord, Structural)]
pub enum Resource {
    /// The profile of the signed-in user.
    Me,
    /// The users of the tenant.
    Users,
    /// The number of users of the tenant.
    UsersCount,
}

/// What the operator passed on the command line.
#[derive(Debug, Clone)]
pub struct Cli {
    /// Client to sign in as; the default client where absent.
    pub client_id: Option<String>,
    /// Secret of the client; none where absent.
    pub client_secret: Option<String>,
    /// Tenant to sign in to.
    pub tenant_id: String,
    /// Scopes to ask for, separated by commas.
    pub scopes: String,
    /// Flow to sign in by.
    pub flow: AuthFlow,
    /// A token to use in place of signing in.
    pub access_token: Option<String>,
    /// User name for the password flow.
    pub username: Option<String>,
    /// Password for the password flow.
    pub password: Option<String>,
    /// Version of the API to talk to.
    pub api_version: ApiVersion,
    /// Name of the user agent to present.
    pub user_agent: String,
    /// Proxy for requests to the API.
    pub proxy: Option<String>,
    /// Whether to accept any certificate.
    pub ignore_ssl: bool,
    /// Where results are written.
    pub out_dir: String,
    /// What to do.
    pub command: Commands,
}

impl Cli {
    /// The configuration of the sign-in that these arguments describe: as
    /// given, with the default client where none is named and no secret
    /// where none is given.
    pub fn client_config(&self) -> (r: ClientConfig)
        ensures
            r.client_id@ == (match self.client_id {
                Some(id) => id@,
                None => DEFAULT_CLIENT_ID@,
            }),
            r.client_secret@ == (match self.client_secret {
                Some(secret) => secret@,
                None => Seq::<char>::empty(),
            }),
            r.tenant_id == self.tenant_id,
            r.auth_flow == self.flow,
            r.access_token == self.access_token,
            r.scopes == self.scopes,
            r.user_agent == self.user_agent,
    {
        ClientConfig::new(
            match &self.client_id {
                Some(id) => id.clone(),
                None => String::from_str(DEFAULT_CLIENT_ID),
            },
            match &self.client_secret {
                Some(secret) => secret.clone(),
                None => String::new(),
            },
            self.tenant_id.clone(),
            self.flow,
            match &self.access_token {
                Some(t) => Some(t.clone()),
                None => None,
            },
            self.scopes.clone(),
            self.user_agent.clone(),
        )
    }
}

/// The arguments of a `get` command.
#[derive(Debug, Clone)]
pub struct GetArgs {
    /// Properties to return.
    pub select: Option<String>,
    /// Page size.
    pub top: u16,
    /// Cursor at which an earlier run stopped.
    pub skiptoken: Option<String>,
    /// Most pages to retrieve; 0 for all.
    pub pages: u16,
    /// What to retrieve.
    pub resource: Resource,
}

impl GetArgs {
    /// The query that these arguments describe.
    pub fn query_config(&self) -> (r: Result<QueryConfig, ConfigError>)
        ensures
            match r {
                Ok(q) => TOP_MIN <= self.top <= TOP_MAX && q == (QueryConfig {
                    select: self.select,
                    skiptoken: self.skiptoken,
                    top: self.top,
                }),
                Err(e) => !(TOP_MIN <= self.top <= TOP_MAX) && e == ConfigError::TopOutOfRange,
            },
    {
        QueryConfig::new(
            match &self.select {
                Some(s) => Some(s.clone()),
                None => None,
            },
            match &self.skiptoken {
                Some(s) => Some(s.clone()),
                None => None,
            },
            self.top,
        )
    }
}

/// What the operator asks the program to do.
#[derive(Debug, Clone)]
pub enum Commands {
    /// Retrieve a resource of the tenant.
    Get(GetArgs),
}

/// Who signs in, by which flow and for which scopes, and the token once
/// there is one.
#[derive(Debug, Clone)]
pub struct ClientConfig {
    pub client_id: String,
    /// Empty for a public client.
    pub client_secret: String,
    pub tenant_id: String,
    pub auth_flow: AuthFlow,
    /// Absent until a sign-in succeeds or the operator supplies one.
    pub access_token: Option<String>,
    /// Scopes to ask for, separated by commas.
    pub scopes: String,
    pub user_agent: String,
}

impl ClientConfig {
    /// A configuration with the given parts.
    pub fn new(
        client_id: String,
        client_secret: String,
        tenant_id: String,
        auth_flow: AuthFlow,
        access_token: Option<String>,
        scopes: String,
        user_agent: String,
    ) -> (r: Self)
        ensures
            r == (ClientConfig {
                client_id,
                client_secret,
                tenant_id,
                auth_flow,
                access_token,
                scopes,
                user_agent,
            }),
    {
        Self { client_id, client_secret, tenant_id, auth_flow, access_token, scopes, user_agent }
    }

    /// Whether a token is there: one that the operator supplied or one that a
    /// sign-in brought.
    pub fn has_token(&self) -> (r: bool)
        ensures
            r == (self.access_token is Some),
    {
        match &self.access_token {
            Some(t) => true,
            None => false,
        }
    }

    /// Takes the token of a sign-in attempt. A token that is already there
    /// stays: it is set once and not derived again.
    pub fn accept(&mut self, token: &Option<String>)
        ensures
            *final(self) == (ClientConfig {
                access_token: if old(self).access_token is Some {
                    old(self).access_token
                } else {
                    *token
                },
                ..*old(self)
            }),
    {
        if self.access_token.is_none() {
            self.access_token = match token {
                Some(t) => Some(t.clone()),
                None => None,
            };
        }
    }

    /// A copy of this configuration.
    pub fn snapshot(&self) -> (r: Self)
        ensures
            r == *self,
    {
        Self {
            client_id: self.client_id.clone(),
            client_secret: self.client_secret.clone(),
            tenant_id: self.tenant_id.clone(),
            auth_flow: self.auth_flow,
            access_token: match &self.access_token {
                Some(t) => Some(t.clone()),
                None => None,
            },
            scopes: self.scopes.clone(),
            user_agent: self.user_agent.clone(),
        }
    }
}

/// How a collection is queried: the properties to return, the cursor to
/// resume at, and the page size.
#[derive(Debug, Clone)]
pub struct QueryConfig {
    pub select: Option<String>,
    pub skiptoken: Option<String>,
    pub top: u16,
}

/// `top` brought into the range of page sizes that the API accepts.
pub open spec fn clamped_top(top: u16) -> u16 {
    if top < TOP_MIN {
        TOP_MIN
    } else if top > TOP_MAX {
        TOP_MAX
    } else {
        top
    }
}

/// The query parameters that stand for a query with the given parts:
/// `$select` and `$skiptoken` where given, then `$top`, which is always there.
pub open spec fn query_params(
    select: Option<Seq<char>>,
    skiptoken: Option<Seq<char>>,
    top: u16,
) -> Seq<(Seq<char>, Seq<char>)> {
    let first = match select {
        Some(s) => seq![("$select"@, s)],
        None => seq![],
    };
    let second = match skiptoken {
        Some(s) => seq![("$skiptoken"@, s)],
        None => seq![],
    };
    first + second + seq![("$top"@, digits_of(clamped_top(top) as nat))]
}

impl QueryConfig {
    /// The page size is one that the API accepts.
    pub open spec fn wf(&self) -> bool {
        TOP_MIN <= self.top <= TOP_MAX
    }

    /// A query with the given parts. Fails where `top` is not a page size
    /// that the API accepts.
    pub fn new(select: Option<String>, skiptoken: Option<String>, top: u16) -> (r: Result<
        Self,
        ConfigError,
    >)
        ensures
            match r {
                Ok(q) => TOP_MIN <= top <= TOP_MAX && q == (QueryConfig { select, skiptoken, top })
                    && q.wf(),
                Err(e) => !(TOP_MIN <= top <= TOP_MAX) && e == ConfigError::TopOutOfRange,
            },
    {
        if TOP_MIN <= top && top <= TOP_MAX {
            Ok(Self { select, skiptoken, top })
        } else {
            Err(ConfigError::TopOutOfRange)
        }
    }

    /// The query parameters that stand for this query.
    pub open spec fn spec_params(&self) -> Seq<(Seq<char>, Seq<char>)> {
        query_params(self.select.deep_view(), self.skiptoken.deep_view(), self.top)
    }

    /// The query parameters that stand for this query.
    pub fn params(&self) -> (r: Vec<(String, String)>)
        ensures
            r.deep_view() == self.spec_params(),
    {
        let mut r: Vec<(String, String)> = Vec::new();
        if let Some(select) = &self.select {
            r.push((String::from_str("$select"), select.clone()));
        }
        if let Some(skiptoken) = &self.skiptoken {
            r.push((String::from_str("$skiptoken"), skiptoken.clone()));
        }
        let top: u16 = if self.top < TOP_MIN {
            TOP_MIN
        } else if self.top > TOP_MAX {
            TOP_MAX
        } else {
            self.top
        };
        r.push((String::from_str("$top"), decimal(top as u64)));
        proof {
            assert(r.deep_view() =~= self.spec_params());
        }
        r
    }
}

/// What `top_in_range` answers for the argument text `s`.
pub open spec fn top_in_range_spec(s: Seq<char>) -> Result<u16, Seq<char>> {
    match numeral_value(s, usize::MAX as nat) {
        None => Err("`"@ + s + "` isn't a valid top value"@),
        Some(n) => if TOP_MIN <= n <= TOP_MAX {
            Ok(n as u16)
        } else {
            Err("top not in range 1-999"@)
        },
    }
}

/// Reads a page size from an argument: a decimal number from 1 to 999.
/// The error is the message for the operator.
pub fn top_in_range(s: &str) -> (r: Result<u16, String>)
    ensures
        match r {
            Ok(n) => top_in_range_spec(s@) == Ok::<u16, Seq<char>>(n),
            Err(msg) => top_in_range_spec(s@) == Err::<u16, Seq<char>>(msg@),
        },
{
    match parse_usize(s) {
        None => {
            let msg = String::from_str("`").concat(s).concat("` isn't a valid top value");
            Err(msg)
        },
        Some(n) => {
            if 1 <= n && n <= 999 {
                Ok(n as u16)
            } else {
                Err(String::from_str("top not in range 1-999"))
            }
        },
    }
}

/// The name of the file that holds the users retrieved at `stamp`.
pub fn users_file_name(stamp: &str) -> (r: String)
    ensures
        r@ == stamp@ + "_users.json"@,
{
    String::from_str(stamp).concat("_users.json")
}

/// The name of the file that holds the sign-in results exported at `stamp`.
pub fn export_file_name(stamp: &str) -> (r: String)
    ensures
        r@ == "revelio_result_"@ + stamp@ + ".json"@,
{
    String::from_str("revelio_result_").concat(stamp).concat(".json")
}

} // verus!
