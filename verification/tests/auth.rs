use revelio::auth::code::{CodeFlow, Pkce};
use revelio::auth::device::{
    device_code_request, device_prompt, read_device_grant, DeviceGrant, DevicePolling,
};
use revelio::auth::password::password_request;
use revelio::auth::scopes::{has_scope, parse_scopes, scope_parameter};
use revelio::auth::{
    authenticate, conclude_exchange, process_raw_auth_result, read_token_reply, AuthResult, Flow,
    FormRequest, OAuthEndpoints, TokenReply,
};
use revelio::constants::{user_agent, DEFAULT_CLIENT_ID, DEFAULT_SCOPES, REDIRECT_URI, USER_AGENTS_KEYS};
use revelio::errors::{AuthError, ConfigError, Step};
use revelio::helpers::{
    export_file_name, users_file_name, AuthFlow, Cli, ClientConfig, Commands, GetArgs, Resource,
};
use revelio::msgraph_api::{ApiVersion, Reply};

fn config(flow: AuthFlow, secret: &str, scopes: &str) -> ClientConfig {
    ClientConfig::new(
        "client-1".to_string(),
        secret.to_string(),
        "contoso".to_string(),
        flow,
        None,
        scopes.to_string(),
        "win_chrome_win10".to_string(),
    )
}

fn pair(k: &str, v: &str) -> (String, String) {
    (k.to_string(), v.to_string())
}

fn http(status: u16, body: &str) -> Reply {
    Reply::Http { status, body: body.to_string() }
}

fn error(code: &str) -> Reply {
    http(400, &format!("{{\"error\":\"{}\",\"error_description\":\"x\"}}", code))
}

fn token(t: &str) -> Reply {
    http(200, &format!("{{\"token_type\":\"Bearer\",\"access_token\":\"{}\",\"expires_in\":3600}}", t))
}

fn grant(interval: u64, expires_in: u64) -> DeviceGrant {
    DeviceGrant {
        device_code: "DEV".to_string(),
        user_code: "ABCD-EFGH".to_string(),
        verification_uri: "https://microsoft.com/devicelogin".to_string(),
        expires_in,
        interval,
    }
}

fn poll_all(p: DevicePolling, replies: Vec<Reply>) -> (DevicePolling, Vec<u64>) {
    poll_with_latency(p, replies.into_iter().map(|r| (r, 0)).collect())
}

fn poll_with_latency(mut p: DevicePolling, replies: Vec<(Reply, u64)>) -> (DevicePolling, Vec<u64>) {
    let mut waits = Vec::new();
    let mut clock: u64 = 0;
    for (reply, latency) in replies {
        match p.next_poll() {
            Some(poll) => {
                waits.push(poll.wait_secs);
                clock = clock.saturating_add(poll.wait_secs).saturating_add(latency);
            }
            None => break,
        }
        p = p.step(&reply, clock);
    }
    (p, waits)
}

fn field<'a>(request: &'a FormRequest, name: &str) -> Option<&'a str> {
    request.fields.iter().find(|(k, _)| k == name).map(|(_, v)| v.as_str())
}

#[test]
fn scopes_are_split_trimmed_and_deduplicated() {
    assert_eq!(parse_scopes("a,b,c"), Ok(vec!["a".to_string(), "b".to_string(), "c".to_string()]));
    assert_eq!(
        parse_scopes(" openid , profile,openid,\temail\n, profile "),
        Ok(vec!["openid".to_string(), "profile".to_string(), "email".to_string()])
    );
    assert_eq!(parse_scopes("a,,b,"), Ok(vec!["a".to_string(), "b".to_string()]));
    assert_eq!(parse_scopes("User.Read"), Ok(vec!["User.Read".to_string()]));
    assert_eq!(parse_scopes("a b, a b"), Ok(vec!["a b".to_string()]));
}

#[test]
fn default_scopes_are_five() {
    assert_eq!(
        parse_scopes(DEFAULT_SCOPES),
        Ok(vec![
            "openid".to_string(),
            "profile".to_string(),
            "email".to_string(),
            "User.Read".to_string(),
            "User.ReadBasic.All".to_string(),
        ])
    );
}

#[test]
fn scopes_keep_case_apart() {
    assert_eq!(parse_scopes("a,A"), Ok(vec!["a".to_string(), "A".to_string()]));
}

#[test]
fn no_scope_is_a_config_error() {
    for text in ["", " ", ",", " , ,\t,"] {
        assert_eq!(parse_scopes(text), Err(ConfigError::EmptyScopes));
    }
}

#[test]
fn scope_parameter_joins_with_spaces() {
    assert_eq!(scope_parameter(&vec!["a".to_string(), "b".to_string(), "c".to_string()]), "a b c");
    assert_eq!(scope_parameter(&vec!["a".to_string()]), "a");
    assert_eq!(scope_parameter(&Vec::new()), "");
    assert!(has_scope(&vec!["a".to_string(), "b".to_string()], &"b".to_string()));
    assert!(!has_scope(&vec!["a".to_string(), "b".to_string()], &"c".to_string()));
}

#[test]
fn endpoints_are_templated_by_tenant() {
    let e = OAuthEndpoints::for_tenant("contoso");
    assert_eq!(e.authorize, "https://login.microsoftonline.com/contoso/oauth2/v2.0/authorize");
    assert_eq!(e.token, "https://login.microsoftonline.com/contoso/oauth2/v2.0/token");
    assert_eq!(e.device_code, "https://login.microsoftonline.com/contoso/oauth2/v2.0/devicecode");
}

#[test]
fn token_replies_are_told_apart() {
    assert!(matches!(read_token_reply(&token("T1")), TokenReply::Token(t) if t == "T1"));
    assert!(matches!(read_token_reply(&error("authorization_pending")), TokenReply::Pending));
    assert!(matches!(read_token_reply(&error("slow_down")), TokenReply::SlowDown));
    assert!(matches!(read_token_reply(&error("access_denied")), TokenReply::Denied));
    assert!(matches!(read_token_reply(&error("expired_token")), TokenReply::Expired));
    assert!(matches!(read_token_reply(&error("invalid_grant")), TokenReply::Rejected));
    assert!(matches!(read_token_reply(&http(500, "<html>")), TokenReply::Rejected));
    assert!(matches!(read_token_reply(&http(400, "{\"error\":5}")), TokenReply::Rejected));
    assert!(matches!(read_token_reply(&http(200, "{}")), TokenReply::Malformed));
    assert!(matches!(read_token_reply(&http(200, "nope")), TokenReply::Malformed));
    assert!(matches!(read_token_reply(&http(200, "{\"access_token\":7}")), TokenReply::Malformed));
    assert!(matches!(read_token_reply(&Reply::Unreachable), TokenReply::Unreachable));
}

#[test]
fn success_status_decides_how_a_body_is_read() {
    let both = "{\"access_token\":\"T\",\"error\":\"access_denied\"}";
    assert!(matches!(read_token_reply(&http(200, both)), TokenReply::Token(t) if t == "T"));
    assert!(matches!(read_token_reply(&http(400, both)), TokenReply::Denied));
}

#[test]
fn exchange_ends_with_token_or_typed_failure() {
    let step = Step::PasswordExchange;
    assert_eq!(conclude_exchange(&token("T1"), step), Ok("T1".to_string()));
    assert_eq!(conclude_exchange(&error("invalid_grant"), step), Err(AuthError::Rejected(step)));
    assert_eq!(conclude_exchange(&error("access_denied"), step), Err(AuthError::Rejected(step)));
    assert_eq!(
        conclude_exchange(&error("access_denied"), Step::CodeExchange),
        Err(AuthError::Rejected(Step::CodeExchange))
    );
    assert_eq!(conclude_exchange(&error("slow_down"), step), Err(AuthError::Rejected(step)));
    assert_eq!(conclude_exchange(&error("expired_token"), step), Err(AuthError::Rejected(step)));
    assert_eq!(conclude_exchange(&http(503, "busy"), step), Err(AuthError::Rejected(step)));
    assert_eq!(
        conclude_exchange(&error("authorization_pending"), step),
        Err(AuthError::Rejected(step))
    );
    assert_eq!(conclude_exchange(&http(200, "{}"), step), Err(AuthError::Malformed(step)));
    assert_eq!(conclude_exchange(&Reply::Unreachable, step), Err(AuthError::Transport(step)));
    assert_eq!(
        conclude_exchange(&Reply::Unreachable, Step::CodeExchange),
        Err(AuthError::Transport(Step::CodeExchange))
    );
}

#[test]
fn password_request_has_the_grant_shape() {
    let c = config(AuthFlow::Password, "", "openid, profile");
    let r = password_request(&c, Some("alice".to_string()), Some("s3cret".to_string())).unwrap();
    assert_eq!(r.url, "https://login.microsoftonline.com/contoso/oauth2/v2.0/token");
    assert_eq!(
        r.fields,
        vec![
            pair("grant_type", "password"),
            pair("username", "alice"),
            pair("password", "s3cret"),
            pair("scope", "openid profile"),
            pair("client_id", "client-1"),
        ]
    );
}

#[test]
fn confidential_client_sends_its_secret() {
    let c = config(AuthFlow::Password, "hush", "openid");
    let r = password_request(&c, Some("alice".to_string()), Some("pw".to_string())).unwrap();
    assert_eq!(
        r.fields[4..].to_vec(),
        vec![pair("client_id", "client-1"), pair("client_secret", "hush")]
    );
}

#[test]
fn password_flow_needs_username_and_password() {
    let c = config(AuthFlow::Password, "", "openid");
    assert_eq!(
        password_request(&c, None, Some("pw".to_string())).err(),
        Some(AuthError::Config(ConfigError::MissingUsername))
    );
    assert_eq!(
        password_request(&c, Some("alice".to_string()), None).err(),
        Some(AuthError::Config(ConfigError::MissingPassword))
    );
    assert_eq!(
        password_request(&c, None, None).err(),
        Some(AuthError::Config(ConfigError::MissingUsername))
    );
    let c = config(AuthFlow::Password, "", " , ");
    assert_eq!(
        password_request(&c, Some("alice".to_string()), Some("pw".to_string())).err(),
        Some(AuthError::Config(ConfigError::EmptyScopes))
    );
}

#[test]
fn device_code_request_has_the_grant_shape() {
    let c = config(AuthFlow::Device, "", DEFAULT_SCOPES);
    let r = device_code_request(&c).unwrap();
    assert_eq!(r.url, "https://login.microsoftonline.com/contoso/oauth2/v2.0/devicecode");
    assert_eq!(
        r.fields,
        vec![
            pair("scope", "openid profile email User.Read User.ReadBasic.All"),
            pair("client_id", "client-1"),
        ]
    );
    assert_eq!(
        device_code_request(&config(AuthFlow::Device, "", "")).err(),
        Some(AuthError::Config(ConfigError::EmptyScopes))
    );
}

#[test]
fn device_grant_is_read_from_the_body() {
    let body = "{\"user_code\":\"ABCD-EFGH\",\"device_code\":\"DEV\",\"verification_uri\":\"https://microsoft.com/devicelogin\",\"expires_in\":900,\"interval\":7,\"message\":\"go\"}";
    let g = read_device_grant(&http(200, body)).unwrap();
    assert_eq!(g.device_code, "DEV");
    assert_eq!(g.user_code, "ABCD-EFGH");
    assert_eq!(g.verification_uri, "https://microsoft.com/devicelogin");
    assert_eq!(g.expires_in, 900);
    assert_eq!(g.interval, 7);
}

#[test]
fn device_grant_defaults_the_interval() {
    let body = "{\"user_code\":\"U\",\"device_code\":\"D\",\"verification_uri\":\"https://v\",\"expires_in\":900}";
    assert_eq!(read_device_grant(&http(200, body)).unwrap().interval, 5);
}

#[test]
fn device_grant_failures_name_the_step() {
    let step = Step::DeviceCode;
    assert_eq!(read_device_grant(&Reply::Unreachable).err(), Some(AuthError::Transport(step)));
    assert_eq!(read_device_grant(&error("invalid_client")).err(), Some(AuthError::Rejected(step)));
    assert_eq!(read_device_grant(&http(200, "nope")).err(), Some(AuthError::Malformed(step)));
    for body in [
        "{\"device_code\":\"D\",\"verification_uri\":\"https://v\",\"expires_in\":900}",
        "{\"user_code\":\"U\",\"verification_uri\":\"https://v\",\"expires_in\":900}",
        "{\"user_code\":\"U\",\"device_code\":\"D\",\"expires_in\":900}",
        "{\"user_code\":\"U\",\"device_code\":\"D\",\"verification_uri\":\"https://v\"}",
        "{\"user_code\":\"U\",\"device_code\":\"D\",\"verification_uri\":\"https://v\",\"expires_in\":-1}",
        "{\"user_code\":\"U\",\"device_code\":\"D\",\"verification_uri\":\"https://v\",\"expires_in\":\"900\"}",
    ] {
        assert_eq!(read_device_grant(&http(200, body)).err(), Some(AuthError::Malformed(step)));
    }
}

#[test]
fn device_prompt_names_code_and_place() {
    assert_eq!(
        device_prompt(&grant(5, 900)),
        "Use the code ABCD-EFGH at https://microsoft.com/devicelogin to authenticate your account"
    );
}

#[test]
fn poll_request_has_the_grant_shape() {
    let p = DevicePolling::begin(&config(AuthFlow::Device, "hush", "openid"), &grant(5, 900));
    let poll = p.next_poll().unwrap();
    assert_eq!(poll.wait_secs, 0);
    assert_eq!(poll.request.url, "https://login.microsoftonline.com/contoso/oauth2/v2.0/token");
    assert_eq!(
        poll.request.fields,
        vec![
            pair("grant_type", "urn:ietf:params:oauth:grant-type:device_code"),
            pair("device_code", "DEV"),
            pair("client_id", "client-1"),
            pair("client_secret", "hush"),
        ]
    );
}

#[test]
fn pending_pending_success_polls_three_times() {
    let p = DevicePolling::begin(&config(AuthFlow::Device, "", "openid"), &grant(5, 900));
    let replies = vec![
        error("authorization_pending"),
        error("authorization_pending"),
        token("T-final"),
        token("never asked for"),
    ];
    let (p, waits) = poll_all(p, replies);
    assert_eq!(waits, vec![0, 5, 5]);
    assert!(p.next_poll().is_none());
    assert_eq!(p.finish(), Some(Ok("T-final".to_string())));
}

#[test]
fn expired_token_stops_polling_at_once() {
    for before in 0..3usize {
        let p = DevicePolling::begin(&config(AuthFlow::Device, "", "openid"), &grant(5, 900));
        let mut replies: Vec<Reply> = (0..before).map(|_| error("authorization_pending")).collect();
        replies.push(error("expired_token"));
        replies.push(token("too late"));
        let (p, waits) = poll_all(p, replies);
        assert_eq!(waits.len(), before + 1);
        assert!(p.next_poll().is_none());
        assert_eq!(p.finish(), Some(Err(AuthError::DeviceCodeExpired)));
    }
}

#[test]
fn access_denied_stops_polling_at_once() {
    let p = DevicePolling::begin(&config(AuthFlow::Device, "", "openid"), &grant(5, 900));
    let (p, waits) = poll_all(p, vec![error("authorization_pending"), error("access_denied"), token("x")]);
    assert_eq!(waits, vec![0, 5]);
    assert_eq!(p.finish(), Some(Err(AuthError::AccessDenied)));
}

#[test]
fn slow_down_adds_five_seconds_for_good() {
    let p = DevicePolling::begin(&config(AuthFlow::Device, "", "openid"), &grant(5, 900));
    let replies = vec![
        error("authorization_pending"),
        error("slow_down"),
        error("authorization_pending"),
        error("slow_down"),
        token("T"),
    ];
    let (p, waits) = poll_all(p, replies);
    assert_eq!(waits, vec![0, 5, 10, 10, 15]);
    assert_eq!(p.finish(), Some(Ok("T".to_string())));
}

#[test]
fn polling_stops_when_the_code_has_run_out() {
    let p = DevicePolling::begin(&config(AuthFlow::Device, "", "openid"), &grant(5, 12));
    let replies: Vec<Reply> = (0..10).map(|_| error("authorization_pending")).collect();
    let (p, waits) = poll_all(p, replies);
    assert_eq!(waits, vec![0, 5, 5]);
    assert_eq!(p.finish(), Some(Err(AuthError::TimedOut)));
}

#[test]
fn poll_at_the_last_second_is_still_made() {
    let p = DevicePolling::begin(&config(AuthFlow::Device, "", "openid"), &grant(5, 10));
    let replies: Vec<Reply> = (0..10).map(|_| error("authorization_pending")).collect();
    let (p, waits) = poll_all(p, replies);
    assert_eq!(waits, vec![0, 5, 5]);
    assert_eq!(p.finish(), Some(Err(AuthError::TimedOut)));
    let p = DevicePolling::begin(&config(AuthFlow::Device, "", "openid"), &grant(5, 0));
    let (p, waits) = poll_all(p, vec![error("authorization_pending"), token("x")]);
    assert_eq!(waits, vec![0]);
    assert_eq!(p.finish(), Some(Err(AuthError::TimedOut)));
}

#[test]
fn interval_of_zero_is_kept() {
    let p = DevicePolling::begin(&config(AuthFlow::Device, "", "openid"), &grant(0, 3));
    let mut replies: Vec<Reply> = (0..10).map(|_| error("authorization_pending")).collect();
    replies.push(token("T"));
    let (p, waits) = poll_all(p, replies);
    assert_eq!(waits, vec![0; 11]);
    assert_eq!(p.finish(), Some(Ok("T".to_string())));
}

#[test]
fn interval_of_zero_still_ends_with_the_code() {
    let p = DevicePolling::begin(&config(AuthFlow::Device, "", "openid"), &grant(0, 3));
    let replies: Vec<(Reply, u64)> = (0..10).map(|_| (error("authorization_pending"), 1)).collect();
    let (p, waits) = poll_with_latency(p, replies);
    assert_eq!(waits, vec![0, 0, 0, 0]);
    assert_eq!(p.finish(), Some(Err(AuthError::TimedOut)));
}

#[test]
fn time_that_requests_take_counts() {
    let p = DevicePolling::begin(&config(AuthFlow::Device, "", "openid"), &grant(5, 12));
    let replies: Vec<(Reply, u64)> = (0..10).map(|_| (error("authorization_pending"), 3)).collect();
    let (p, waits) = poll_with_latency(p, replies);
    assert_eq!(waits, vec![0, 5]);
    assert_eq!(p.finish(), Some(Err(AuthError::TimedOut)));
}

#[test]
fn clock_that_stands_still_does_not_speed_polls_up() {
    let mut p = DevicePolling::begin(&config(AuthFlow::Device, "", "openid"), &grant(5, 12));
    let mut waits = Vec::new();
    for _ in 0..10 {
        match p.next_poll() {
            Some(poll) => waits.push(poll.wait_secs),
            None => break,
        }
        p = p.step(&error("authorization_pending"), 0);
    }
    assert_eq!(waits, vec![0, 5, 5]);
    assert_eq!(p.finish(), Some(Err(AuthError::TimedOut)));
}

#[test]
fn answer_after_the_code_ran_out_ends_the_flow() {
    let p = DevicePolling::begin(&config(AuthFlow::Device, "", "openid"), &grant(5, 900));
    let p = p.step(&error("authorization_pending"), 901);
    assert!(p.next_poll().is_none());
    assert_eq!(p.finish(), Some(Err(AuthError::TimedOut)));
    let p = DevicePolling::begin(&config(AuthFlow::Device, "", "openid"), &grant(5, 900));
    let p = p.step(&token("T"), 901);
    assert_eq!(p.finish(), Some(Ok("T".to_string())));
}

#[test]
fn huge_interval_times_out() {
    let p = DevicePolling::begin(&config(AuthFlow::Device, "", "openid"), &grant(u64::MAX, u64::MAX));
    let (p, waits) = poll_all(p, vec![error("slow_down"), token("x")]);
    assert_eq!(waits, vec![0]);
    assert_eq!(p.finish(), Some(Err(AuthError::TimedOut)));
    let p = DevicePolling::begin(&config(AuthFlow::Device, "", "openid"), &grant(u64::MAX, u64::MAX));
    let (p, waits) = poll_all(p, vec![error("authorization_pending"), token("T")]);
    assert_eq!(waits, vec![0, u64::MAX]);
    assert_eq!(p.finish(), Some(Ok("T".to_string())));
}

#[test]
fn poll_failures_name_the_step() {
    let step = Step::DevicePoll;
    for (reply, expected) in [
        (Reply::Unreachable, AuthError::Transport(step)),
        (error("invalid_grant"), AuthError::Rejected(step)),
        (http(200, "{}"), AuthError::Malformed(step)),
    ] {
        let p = DevicePolling::begin(&config(AuthFlow::Device, "", "openid"), &grant(5, 900));
        let (p, waits) = poll_all(p, vec![reply, token("x")]);
        assert_eq!(waits, vec![0]);
        assert_eq!(p.finish(), Some(Err(expected)));
    }
}

#[test]
fn unfinished_polling_has_no_result() {
    let p = DevicePolling::begin(&config(AuthFlow::Device, "", "openid"), &grant(5, 900));
    assert!(p.finish().is_none());
}

#[test]
fn authorization_url_carries_what_the_flow_needs() {
    let c = config(AuthFlow::Code, "", "openid, profile");
    let pkce = Pkce { challenge: "CH".to_string(), verifier: "VER".to_string() };
    let flow = CodeFlow::begin(&c, pkce, "st ate".to_string()).unwrap();
    assert_eq!(flow.state(), "st ate");
    assert_eq!(
        flow.authorization_url(),
        "https://login.microsoftonline.com/contoso/oauth2/v2.0/authorize?response_type=code&client_id=client-1&state=st+ate&code_challenge=CH&code_challenge_method=S256&redirect_uri=https%3A%2F%2Flogin.microsoftonline.com%2Fcommon%2Foauth2%2Fnativeclient&scope=openid+profile"
    );
}

#[test]
fn code_flow_needs_scopes() {
    let c = config(AuthFlow::Code, "", "");
    let pkce = Pkce { challenge: "CH".to_string(), verifier: "VER".to_string() };
    assert_eq!(
        CodeFlow::begin(&c, pkce, "s".to_string()).err(),
        Some(AuthError::Config(ConfigError::EmptyScopes))
    );
    assert_eq!(CodeFlow::start(&c).err(), Some(AuthError::Config(ConfigError::EmptyScopes)));
}

#[test]
fn redirect_with_code_and_state_gives_the_exchange() {
    let c = config(AuthFlow::Code, "hush", "openid");
    let pkce = Pkce { challenge: "CH".to_string(), verifier: "VER".to_string() };
    let flow = CodeFlow::begin(&c, pkce, "S1".to_string()).unwrap();
    let redirect = format!("{}?code=C%2F0de&state=S1&session_state=zz", REDIRECT_URI);
    let r = flow.redeem(&redirect).unwrap();
    assert_eq!(r.url, "https://login.microsoftonline.com/contoso/oauth2/v2.0/token");
    assert_eq!(
        r.fields,
        vec![
            pair("grant_type", "authorization_code"),
            pair("code", "C/0de"),
            pair("code_verifier", "VER"),
            pair("redirect_uri", REDIRECT_URI),
            pair("client_id", "client-1"),
            pair("client_secret", "hush"),
        ]
    );
}

#[test]
fn redirect_without_code_is_a_parse_error() {
    let c = config(AuthFlow::Code, "", "openid");
    for redirect in [
        format!("{}?state=S1", REDIRECT_URI),
        format!("{}", REDIRECT_URI),
        format!("{}?error=access_denied&state=S1", REDIRECT_URI),
        format!("{}?Code=abc&state=S1", REDIRECT_URI),
        format!("{}#code=abc&state=S1", REDIRECT_URI),
    ] {
        let pkce = Pkce { challenge: "CH".to_string(), verifier: "VER".to_string() };
        let flow = CodeFlow::begin(&c, pkce, "S1".to_string()).unwrap();
        assert_eq!(flow.redeem(&redirect).err(), Some(AuthError::RedirectWithoutCode));
    }
}

#[test]
fn redirect_that_is_no_url_is_unreadable() {
    let c = config(AuthFlow::Code, "", "openid");
    for redirect in ["", "code=abc&state=S1", "/nativeclient?code=abc&state=S1"] {
        let pkce = Pkce { challenge: "CH".to_string(), verifier: "VER".to_string() };
        let flow = CodeFlow::begin(&c, pkce, "S1".to_string()).unwrap();
        assert_eq!(flow.redeem(redirect).err(), Some(AuthError::RedirectUnreadable));
    }
}

#[test]
fn redirect_must_echo_the_state() {
    let c = config(AuthFlow::Code, "", "openid");
    for redirect in [
        format!("{}?code=abc&state=other", REDIRECT_URI),
        format!("{}?code=abc", REDIRECT_URI),
        format!("{}?code=abc&state=", REDIRECT_URI),
        format!("{}?code=abc&state=other&state=S1", REDIRECT_URI),
    ] {
        let pkce = Pkce { challenge: "CH".to_string(), verifier: "VER".to_string() };
        let flow = CodeFlow::begin(&c, pkce, "S1".to_string()).unwrap();
        assert_eq!(flow.redeem(&redirect).err(), Some(AuthError::StateMismatch));
    }
}

#[test]
fn first_code_of_a_redirect_counts() {
    let c = config(AuthFlow::Code, "", "openid");
    let pkce = Pkce { challenge: "CH".to_string(), verifier: "VER".to_string() };
    let flow = CodeFlow::begin(&c, pkce, "S1".to_string()).unwrap();
    let r = flow.redeem(&format!("{}?code=one&code=two&state=S1", REDIRECT_URI)).unwrap();
    assert_eq!(field(&r, "code"), Some("one"));
}

#[test]
fn started_flow_sends_the_challenge_of_its_verifier() {
    let c = config(AuthFlow::Code, "", "openid");
    let flow = CodeFlow::start(&c).unwrap();
    let url = reqwest::Url::parse(flow.authorization_url()).unwrap();
    let sent: Vec<(String, String)> = url.query_pairs().into_owned().collect();
    let get = |name: &str| sent.iter().find(|(k, _)| k == name).map(|(_, v)| v.clone()).unwrap();
    assert_eq!(get("state"), flow.state());
    assert_eq!(get("code_challenge_method"), "S256");
    assert_eq!(get("client_id"), "client-1");
    assert_eq!(get("scope"), "openid");
    let challenge = get("code_challenge");
    let redirect = format!("{}?code=abc&state={}", REDIRECT_URI, flow.state());
    let exchange = flow.redeem(&redirect).unwrap();
    let verifier = field(&exchange, "code_verifier").unwrap().to_string();
    assert_ne!(verifier, challenge);
    let expected = oauth2::PkceCodeChallenge::from_code_verifier_sha256(
        &oauth2::PkceCodeVerifier::new(verifier),
    );
    assert_eq!(challenge, expected.as_str());
}

#[test]
fn every_flow_gets_fresh_secrets() {
    let c = config(AuthFlow::Code, "", "openid");
    let one = CodeFlow::start(&c).unwrap();
    let two = CodeFlow::start(&c).unwrap();
    assert!(!one.state().is_empty());
    assert_ne!(one.state(), two.state());
    assert_ne!(one.authorization_url(), two.authorization_url());
}

#[test]
fn authenticate_dispatches_on_the_flow() {
    let device = authenticate(&config(AuthFlow::Device, "", "openid"), None, None).unwrap();
    assert!(matches!(device, Flow::Device(r) if r.url.ends_with("/devicecode")));
    let code = authenticate(&config(AuthFlow::Code, "", "openid"), None, None).unwrap();
    assert!(matches!(code, Flow::Code(f) if f.authorization_url().contains("/authorize?")));
    let password = authenticate(
        &config(AuthFlow::Password, "", "openid"),
        Some("alice".to_string()),
        Some("pw".to_string()),
    )
    .unwrap();
    assert!(matches!(password, Flow::Password(r) if r.url.ends_with("/token")));
}

#[test]
fn client_credentials_flow_is_not_supported() {
    let r = authenticate(
        &config(AuthFlow::Client, "hush", "openid"),
        Some("alice".to_string()),
        Some("pw".to_string()),
    );
    assert_eq!(r.err(), Some(AuthError::UnsupportedFlow));
}

#[test]
fn authenticate_reports_config_errors() {
    let r = authenticate(&config(AuthFlow::Password, "", "openid"), None, None);
    assert_eq!(r.err(), Some(AuthError::Config(ConfigError::MissingUsername)));
    let r = authenticate(&config(AuthFlow::Device, "", ","), None, None);
    assert_eq!(r.err(), Some(AuthError::Config(ConfigError::EmptyScopes)));
}

#[test]
fn auth_result_holds_what_it_is_given() {
    let c = config(AuthFlow::Device, "", "openid");
    let r = AuthResult::new(c.snapshot(), Some("T".to_string()));
    assert_eq!(r.auth_token.as_deref(), Some("T"));
    assert_eq!(r.credential.client_id, "client-1");
    assert_eq!(r.credential.tenant_id, "contoso");
    let r = process_raw_auth_result(&c, Ok("T2".to_string()));
    assert_eq!(r.auth_token.as_deref(), Some("T2"));
    assert_eq!(r.credential.scopes, "openid");
    let r = process_raw_auth_result(&c, Err(AuthError::TimedOut));
    assert_eq!(r.auth_token, None);
}

#[test]
fn token_is_set_once() {
    let mut c = config(AuthFlow::Device, "", "openid");
    assert!(!c.has_token());
    c.accept(&None);
    assert!(!c.has_token());
    c.accept(&Some("first".to_string()));
    assert!(c.has_token());
    c.accept(&Some("second".to_string()));
    assert_eq!(c.access_token.as_deref(), Some("first"));
    c.accept(&None);
    assert_eq!(c.access_token.as_deref(), Some("first"));
    assert_eq!(c.client_id, "client-1");
}

#[test]
fn client_config_keeps_its_parts() {
    let c = ClientConfig::new(
        "id".to_string(),
        "secret".to_string(),
        "tenant".to_string(),
        AuthFlow::Code,
        Some("tok".to_string()),
        "a,b".to_string(),
        "android".to_string(),
    );
    assert_eq!(c.client_id, "id");
    assert_eq!(c.client_secret, "secret");
    assert_eq!(c.tenant_id, "tenant");
    assert_eq!(c.auth_flow, AuthFlow::Code);
    assert_eq!(c.access_token.as_deref(), Some("tok"));
    assert_eq!(c.scopes, "a,b");
    assert_eq!(c.user_agent, "android");
    let copy = c.snapshot();
    assert_eq!(copy.client_id, "id");
    assert_eq!(copy.access_token.as_deref(), Some("tok"));
    assert_eq!(copy.auth_flow, AuthFlow::Code);
}

fn cli(client_id: Option<&str>, client_secret: Option<&str>, top: u16) -> Cli {
    Cli {
        client_id: client_id.map(str::to_string),
        client_secret: client_secret.map(str::to_string),
        tenant_id: "organizations".to_string(),
        scopes: DEFAULT_SCOPES.to_string(),
        flow: AuthFlow::Device,
        access_token: None,
        username: None,
        password: None,
        api_version: ApiVersion::V1,
        user_agent: "win_chrome_win10".to_string(),
        proxy: None,
        ignore_ssl: false,
        out_dir: ".".to_string(),
        command: Commands::Get(GetArgs {
            select: Some("id".to_string()),
            top,
            skiptoken: None,
            pages: 0,
            resource: Resource::Users,
        }),
    }
}

#[test]
fn cli_defaults_client_and_secret() {
    let c = cli(None, None, 500).client_config();
    assert_eq!(c.client_id, DEFAULT_CLIENT_ID);
    assert_eq!(c.client_secret, "");
    assert_eq!(c.tenant_id, "organizations");
    assert_eq!(c.scopes, DEFAULT_SCOPES);
    assert_eq!(c.auth_flow, AuthFlow::Device);
    assert_eq!(c.access_token, None);
    let c = cli(Some("mine"), Some("hush"), 500).client_config();
    assert_eq!(c.client_id, "mine");
    assert_eq!(c.client_secret, "hush");
}

#[test]
fn get_args_give_the_query() {
    let Commands::Get(args) = cli(None, None, 500).command;
    let q = args.query_config().unwrap();
    assert_eq!(q.top, 500);
    assert_eq!(q.select.as_deref(), Some("id"));
    assert_eq!(q.skiptoken, None);
    let Commands::Get(args) = cli(None, None, 0).command;
    assert_eq!(args.query_config().err(), Some(ConfigError::TopOutOfRange));
}

#[test]
fn user_agents_are_found_by_name() {
    for key in USER_AGENTS_KEYS {
        assert!(user_agent(key).unwrap().starts_with("Mozilla/5.0 ("));
    }
    assert_eq!(
        user_agent("win_ie11_win7"),
        Some("Mozilla/5.0 (Windows NT 6.1; Trident/7.0; rv:11.0) like Gecko")
    );
    assert_eq!(user_agent("netscape"), None);
    assert_eq!(user_agent(""), None);
}

#[test]
fn file_names_carry_the_stamp() {
    assert_eq!(users_file_name("20240102030405"), "20240102030405_users.json");
    assert_eq!(export_file_name("2024-01-02_03-04-05"), "revelio_result_2024-01-02_03-04-05.json");
}

#[test]
fn errors_describe_themselves() {
    assert_eq!(ConfigError::TopOutOfRange.describe(), "top not in range 1-999");
    assert_eq!(ConfigError::EmptyScopes.describe(), "At least one scope is required");
    assert_eq!(
        ConfigError::MissingUsername.describe(),
        "Username and password are required for password authentication flow"
    );
    assert_eq!(ConfigError::MissingPassword.describe(), ConfigError::MissingUsername.describe());
    assert_eq!(
        AuthError::Config(ConfigError::EmptyScopes).describe(),
        ConfigError::EmptyScopes.describe()
    );
    assert_eq!(AuthError::UnsupportedFlow.describe(), "This authentication flow is not supported");
    assert_eq!(AuthError::InvalidEndpoint.describe(), "The tenant has no valid authorization endpoint");
    assert_eq!(AuthError::RedirectUnreadable.describe(), "The redirect is not a URL");
    assert_eq!(AuthError::RedirectWithoutCode.describe(), "The redirect carries no authorization code");
    assert_eq!(AuthError::StateMismatch.describe(), "The redirect does not belong to this sign-in");
    assert_eq!(AuthError::AccessDenied.describe(), "Access was denied");
    assert_eq!(AuthError::DeviceCodeExpired.describe(), "The device code has expired");
    assert_eq!(
        AuthError::TimedOut.describe(),
        "The device code ran out before the sign-in was completed"
    );
    assert_eq!(
        AuthError::Transport(Step::DevicePoll).describe(),
        "The identity provider could not be reached: device poll"
    );
    assert_eq!(
        AuthError::Rejected(Step::PasswordExchange).describe(),
        "The identity provider refused the request: password exchange"
    );
    assert_eq!(
        AuthError::Malformed(Step::CodeExchange).describe(),
        "The identity provider sent a malformed response: code exchange"
    );
    assert_eq!(Step::DeviceCode.name(), "device code request");
}

#[test]
fn endpoints_of_a_tenant_are_urls() {
    assert!(OAuthEndpoints::for_tenant("contoso").are_valid());
    assert!(OAuthEndpoints::for_tenant("contoso.onmicrosoft.com").are_valid());
    assert!(OAuthEndpoints::for_tenant("").are_valid());
    assert!(OAuthEndpoints::for_tenant("a b/../c?d#e").are_valid());
}

#[test]
fn endpoints_that_are_no_urls_are_found() {
    let good = OAuthEndpoints::for_tenant("contoso");
    for bad in ["", "login.microsoftonline.com/token", "/oauth2/v2.0/token", "https://"] {
        let e = OAuthEndpoints {
            authorize: bad.to_string(),
            token: good.token.clone(),
            device_code: good.device_code.clone(),
        };
        assert!(!e.are_valid());
        let e = OAuthEndpoints {
            authorize: good.authorize.clone(),
            token: bad.to_string(),
            device_code: good.device_code.clone(),
        };
        assert!(!e.are_valid());
        let e = OAuthEndpoints {
            authorize: good.authorize.clone(),
            token: good.token.clone(),
            device_code: bad.to_string(),
        };
        assert!(!e.are_valid());
    }
}

#[test]
fn code_flow_starts_wherever_it_can() {
    for (tenant, scopes, id) in [
        ("contoso", "openid", "client-1".to_string()),
        ("", "a,b", String::new()),
        ("a b/é?x#y", " User.Read ", "x".repeat(100_000)),
    ] {
        let c = ClientConfig::new(
            id,
            String::new(),
            tenant.to_string(),
            AuthFlow::Code,
            None,
            scopes.to_string(),
            "android".to_string(),
        );
        for _ in 0..5 {
            let flow = CodeFlow::start(&c).unwrap();
            assert_eq!(flow.state().len(), 22);
            assert!(matches!(authenticate(&c, None, None), Ok(Flow::Code(_))));
        }
    }
}

#[test]
fn drawn_secrets_have_their_sizes() {
    let c = config(AuthFlow::Code, "", "openid");
    for _ in 0..5 {
        let flow = CodeFlow::start(&c).unwrap();
        let url = reqwest::Url::parse(flow.authorization_url()).unwrap();
        let challenge = url
            .query_pairs()
            .find(|(k, _)| k == "code_challenge")
            .map(|(_, v)| v.into_owned())
            .unwrap();
        assert_eq!(challenge.len(), 43);
        let state = flow.state().to_string();
        assert_eq!(state.len(), 22);
        let exchange = flow.redeem(&format!("{}?code=c&state={}", REDIRECT_URI, state)).unwrap();
        assert_eq!(field(&exchange, "code_verifier").unwrap().len(), 43);
    }
}
