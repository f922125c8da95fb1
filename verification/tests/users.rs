use revelio::errors::{ApiError, ConfigError};
use revelio::helpers::QueryConfig;
use revelio::msgraph_api::users::{users_count, FetchResult, Stop, UsersApi, UsersWalk};
use revelio::msgraph_api::v1::client::{ApiClientV1, DEFAULT_SELECT};
use revelio::msgraph_api::{create_api_client, ApiClient, ApiVersion, Reply, Request};
use revelio::web::{build_url, query_parameter, query_within_limits, read_query};

fn ok(body: &str) -> Reply {
    Reply::Http { status: 200, body: body.to_string() }
}

fn status(code: u16) -> Reply {
    Reply::Http { status: code, body: "{\"error\":{\"code\":\"InvalidAuthenticationToken\"}}".to_string() }
}

fn page(ids: &[u32], next: Option<&str>) -> Reply {
    let items: Vec<String> = ids.iter().map(|i| format!("{{\"id\":\"{}\"}}", i)).collect();
    let link = match next {
        Some(url) => format!(",\"@odata.nextLink\":\"{}\"", url),
        None => String::new(),
    };
    ok(&format!("{{\"value\":[{}]{}}}", items.join(","), link))
}

fn client() -> ApiClientV1 {
    ApiClientV1::new("tok".to_string())
}

fn walk(top: u16, skiptoken: Option<&str>, pages: u16) -> UsersWalk {
    let c = client();
    let q = QueryConfig::new(None, skiptoken.map(str::to_string), top).unwrap();
    c.get_users(Some(c.query_config_to_params(&q)), pages).unwrap()
}

fn feed(mut w: UsersWalk, replies: Vec<Reply>) -> (UsersWalk, usize) {
    let mut sent = 0;
    for reply in replies {
        if w.next_request().is_none() {
            break;
        }
        sent += 1;
        w = w.step(reply);
    }
    (w, sent)
}

fn result(w: UsersWalk) -> FetchResult {
    w.finish().expect("walk is over").expect("walk has a result")
}

fn ids(r: &FetchResult) -> Vec<String> {
    r.items.iter().map(|v| v["id"].as_str().unwrap().to_string()).collect()
}

fn query_of(request: &Request) -> Vec<(String, String)> {
    reqwest::Url::parse(&request.url).unwrap().query_pairs().into_owned().collect()
}

const NEXT_A: &str = "https://graph.microsoft.com/v1.0/users?$top=2&$skiptoken=AAA";
const NEXT_B: &str = "https://graph.microsoft.com/v1.0/users?$top=2&$skiptoken=BBB";

#[test]
fn query_config_accepts_1_to_999() {
    for top in [1u16, 2, 500, 998, 999] {
        let q = QueryConfig::new(None, None, top).unwrap();
        assert_eq!(q.top, top);
    }
}

#[test]
fn query_config_refuses_other_page_sizes() {
    for top in [0u16, 1000, 1001, u16::MAX] {
        assert_eq!(QueryConfig::new(None, None, top).err(), Some(ConfigError::TopOutOfRange));
    }
}

#[test]
fn query_config_keeps_its_parts() {
    let q = QueryConfig::new(Some("id,mail".to_string()), Some("tok".to_string()), 7).unwrap();
    assert_eq!(q.select.as_deref(), Some("id,mail"));
    assert_eq!(q.skiptoken.as_deref(), Some("tok"));
    assert_eq!(
        q.params(),
        vec![
            ("$select".to_string(), "id,mail".to_string()),
            ("$skiptoken".to_string(), "tok".to_string()),
            ("$top".to_string(), "7".to_string()),
        ]
    );
}

#[test]
fn params_clamp_a_page_size_out_of_range() {
    let low = QueryConfig { select: None, skiptoken: None, top: 0 };
    assert_eq!(low.params(), vec![("$top".to_string(), "1".to_string())]);
    let high = QueryConfig { select: None, skiptoken: None, top: 5000 };
    assert_eq!(high.params(), vec![("$top".to_string(), "999".to_string())]);
}

#[test]
fn every_page_size_reaches_the_first_request() {
    for top in [1u16, 9, 10, 123, 999] {
        let w = walk(top, None, 0);
        let w = w.step(ok("{}"));
        let request = w.next_request().unwrap();
        let tops: Vec<String> =
            query_of(&request).into_iter().filter(|(k, _)| k == "$top").map(|(_, v)| v).collect();
        assert_eq!(tops, vec![top.to_string()]);
    }
}

#[test]
fn first_request_is_the_probe() {
    let w = walk(2, None, 0);
    let probe = w.next_request().unwrap();
    assert_eq!(probe.url, "https://graph.microsoft.com/v1.0/me");
    assert_eq!(probe.headers, vec![("Authorization".to_string(), "Bearer tok".to_string())]);
    assert!(!w.is_done());
}

#[test]
fn first_page_request_carries_the_query() {
    let c = client();
    let q = QueryConfig::new(None, Some("S0".to_string()), 2).unwrap();
    let w = c.get_users(Some(c.query_config_to_params(&q)), 0).unwrap().step(ok("{}"));
    let request = w.next_request().unwrap();
    assert_eq!(
        request.url,
        format!(
            "https://graph.microsoft.com/v1.0/users?%24skiptoken=S0&%24top=2&%24select={}",
            DEFAULT_SELECT.replace(',', "%2C")
        )
    );
    assert_eq!(
        query_of(&request),
        vec![
            ("$skiptoken".to_string(), "S0".to_string()),
            ("$top".to_string(), "2".to_string()),
            ("$select".to_string(), DEFAULT_SELECT.to_string()),
        ]
    );
    assert_eq!(request.headers, vec![("Authorization".to_string(), "Bearer tok".to_string())]);
}

#[test]
fn a_given_select_is_kept() {
    let c = client();
    let q = QueryConfig::new(Some("id".to_string()), None, 5).unwrap();
    let w = c.get_users(Some(c.query_config_to_params(&q)), 0).unwrap().step(ok("{}"));
    assert_eq!(
        w.next_request().unwrap().url,
        "https://graph.microsoft.com/v1.0/users?%24select=id&%24top=5"
    );
}

#[test]
fn no_params_still_ask_for_the_default_select() {
    let w = client().get_users(None, 0).unwrap().step(ok("{}"));
    assert_eq!(
        query_of(&w.next_request().unwrap()),
        vec![("$select".to_string(), DEFAULT_SELECT.to_string())]
    );
}

#[test]
fn three_pages_give_five_items_and_no_cursor() {
    let replies = vec![
        ok("{}"),
        page(&[1, 2], Some(NEXT_A)),
        page(&[3, 4], Some(NEXT_B)),
        page(&[5], None),
    ];
    let (w, sent) = feed(walk(2, None, 0), replies);
    assert_eq!(sent, 4);
    assert!(w.is_done());
    assert!(w.next_request().is_none());
    let r = result(w);
    assert_eq!(r.items.len(), 5);
    assert_eq!(ids(&r), vec!["1", "2", "3", "4", "5"]);
    assert_eq!(r.pages, 3);
    assert_eq!(r.stop, Stop::Exhausted);
    assert_eq!(r.resume, None);
}

#[test]
fn next_link_is_requested_verbatim() {
    let w = walk(2, None, 0).step(ok("{}")).step(page(&[1, 2], Some(NEXT_A)));
    let request = w.next_request().unwrap();
    assert_eq!(request.url, NEXT_A);
    assert_eq!(request.headers, vec![("Authorization".to_string(), "Bearer tok".to_string())]);
}

#[test]
fn refusal_after_a_page_keeps_the_items_and_the_cursor() {
    let replies = vec![ok("{}"), page(&[1, 2], Some(NEXT_A)), status(401), page(&[9], None)];
    let (w, sent) = feed(walk(2, None, 0), replies);
    assert_eq!(sent, 3);
    let r = result(w);
    assert_eq!(ids(&r), vec!["1", "2"]);
    assert_eq!(r.pages, 1);
    assert_eq!(r.stop, Stop::TokenExpired);
    assert_eq!(r.resume.as_deref(), Some("AAA"));
}

#[test]
fn cursor_is_the_most_recent_one() {
    let replies =
        vec![ok("{}"), page(&[1, 2], Some(NEXT_A)), page(&[3, 4], Some(NEXT_B)), status(403)];
    let r = result(feed(walk(2, None, 0), replies).0);
    assert_eq!(ids(&r), vec!["1", "2", "3", "4"]);
    assert_eq!(r.stop, Stop::TokenExpired);
    assert_eq!(r.resume.as_deref(), Some("BBB"));
}

#[test]
fn cursor_is_decoded_from_the_link() {
    let link = "https://graph.microsoft.com/v1.0/users?%24top=2&%24skiptoken=a%2Bb%20c";
    let replies = vec![ok("{}"), page(&[1], Some(link)), status(401)];
    let r = result(feed(walk(2, None, 0), replies).0);
    assert_eq!(r.resume.as_deref(), Some("a+b c"));
}

#[test]
fn link_without_a_cursor_keeps_the_last_one() {
    let bare = "https://graph.microsoft.com/v1.0/users?$top=2";
    let replies = vec![ok("{}"), page(&[1], Some(NEXT_A)), page(&[2], Some(bare)), status(401)];
    let r = result(feed(walk(2, None, 0), replies).0);
    assert_eq!(ids(&r), vec!["1", "2"]);
    assert_eq!(r.resume.as_deref(), Some("AAA"));
    let replies = vec![ok("{}"), page(&[1], Some(bare)), status(401)];
    let r = result(feed(walk(2, None, 0), replies).0);
    assert_eq!(r.resume, None);
    assert_eq!(r.stop, Stop::TokenExpired);
}

#[test]
fn link_that_is_no_url_is_still_requested() {
    let replies = vec![ok("{}"), page(&[1], Some("not a url"))];
    let (w, _) = feed(walk(2, None, 0), replies);
    assert_eq!(w.next_request().unwrap().url, "not a url");
    let r = result(w.step(Reply::Unreachable));
    assert_eq!(ids(&r), vec!["1"]);
    assert_eq!(r.stop, Stop::Unreachable);
    assert_eq!(r.resume, None);
}

#[test]
fn refusal_on_the_first_page_is_an_error() {
    let replies = vec![ok("{}"), status(500), page(&[1], None)];
    let (w, sent) = feed(walk(2, None, 0), replies);
    assert_eq!(sent, 2);
    assert_eq!(w.finish().unwrap().err(), Some(ApiError::RequestFailed));
}

#[test]
fn no_answer_on_the_first_page_is_an_error() {
    let (w, _) = feed(walk(2, None, 0), vec![ok("{}"), Reply::Unreachable]);
    assert_eq!(w.finish().unwrap().err(), Some(ApiError::Transport));
}

#[test]
fn no_answer_after_a_page_keeps_the_items() {
    let replies = vec![ok("{}"), page(&[1, 2], Some(NEXT_A)), Reply::Unreachable];
    let r = result(feed(walk(2, None, 0), replies).0);
    assert_eq!(ids(&r), vec!["1", "2"]);
    assert_eq!(r.stop, Stop::Unreachable);
    assert_eq!(r.resume.as_deref(), Some("AAA"));
}

#[test]
fn body_that_is_no_json_on_the_first_page_is_an_error() {
    let (w, _) = feed(walk(2, None, 0), vec![ok("{}"), ok("<html>")]);
    assert_eq!(w.finish().unwrap().err(), Some(ApiError::MalformedBody));
}

#[test]
fn body_that_is_no_json_after_a_page_keeps_the_items() {
    let replies = vec![ok("{}"), page(&[1], Some(NEXT_A)), ok("{\"value\":[")];
    let r = result(feed(walk(2, None, 0), replies).0);
    assert_eq!(ids(&r), vec!["1"]);
    assert_eq!(r.stop, Stop::Unreadable);
    assert_eq!(r.resume.as_deref(), Some("AAA"));
}

#[test]
fn refused_probe_stops_before_any_page() {
    let (w, sent) = feed(walk(2, None, 0), vec![status(401), page(&[1], None)]);
    assert_eq!(sent, 1);
    assert!(w.next_request().is_none());
    assert_eq!(w.finish().unwrap().err(), Some(ApiError::TokenNotValid));
}

#[test]
fn unanswered_probe_is_a_transport_failure() {
    let (w, _) = feed(walk(2, None, 0), vec![Reply::Unreachable]);
    assert_eq!(w.finish().unwrap().err(), Some(ApiError::Transport));
}

#[test]
fn page_cap_bounds_the_requests() {
    let endless: Vec<Reply> = std::iter::once(ok("{}"))
        .chain((0..50u32).map(|i| page(&[2 * i, 2 * i + 1], Some(NEXT_A))))
        .collect();
    for cap in [1u16, 2, 3, 10] {
        let (w, sent) = feed(walk(2, None, cap), endless.clone());
        assert_eq!(sent, 1 + cap as usize);
        let r = result(w);
        assert_eq!(r.pages, cap as usize);
        assert_eq!(r.items.len(), 2 * cap as usize);
        assert_eq!(r.stop, Stop::PageCap);
        assert_eq!(r.resume, None);
    }
}

#[test]
fn no_page_cap_follows_every_link() {
    let mut replies: Vec<Reply> = vec![ok("{}")];
    replies.extend((0..20u32).map(|i| page(&[i], Some(NEXT_A))));
    replies.push(page(&[20], None));
    let (w, sent) = feed(walk(2, None, 0), replies);
    assert_eq!(sent, 22);
    let r = result(w);
    assert_eq!(r.pages, 21);
    assert_eq!(r.stop, Stop::Exhausted);
}

#[test]
fn empty_page_ends_the_walk() {
    let replies = vec![ok("{}"), page(&[1, 2], Some(NEXT_A)), page(&[], Some(NEXT_B))];
    let r = result(feed(walk(2, None, 0), replies).0);
    assert_eq!(ids(&r), vec!["1", "2"]);
    assert_eq!(r.pages, 1);
    assert_eq!(r.stop, Stop::EmptyPage);
    assert_eq!(r.resume, None);
}

#[test]
fn page_without_an_array_ends_the_walk() {
    for body in ["{}", "{\"value\":3}", "{\"value\":{\"a\":1}}", "[1,2]", "\"value\""] {
        let r = result(feed(walk(2, None, 0), vec![ok("{}"), ok(body)]).0);
        assert!(r.items.is_empty());
        assert_eq!(r.pages, 0);
        assert_eq!(r.stop, Stop::EmptyPage);
    }
}

#[test]
fn next_link_that_is_no_string_ends_the_walk() {
    let body = "{\"value\":[{\"id\":\"1\"}],\"@odata.nextLink\":5}";
    let r = result(feed(walk(2, None, 0), vec![ok("{}"), ok(body)]).0);
    assert_eq!(ids(&r), vec!["1"]);
    assert_eq!(r.stop, Stop::Exhausted);
}

#[test]
fn finished_walk_ignores_further_replies() {
    let w = walk(2, None, 0).step(ok("{}")).step(page(&[1], None));
    let w = w.step(page(&[2], None)).step(status(401));
    let r = result(w);
    assert_eq!(ids(&r), vec!["1"]);
    assert_eq!(r.stop, Stop::Exhausted);
}

#[test]
fn unfinished_walk_has_no_result() {
    assert!(walk(2, None, 0).finish().is_none());
    assert!(walk(2, None, 0).step(ok("{}")).finish().is_none());
}

#[test]
fn items_are_kept_as_they_came() {
    let body = "{\"value\":[{\"id\":\"1\",\"mail\":null,\"n\":[1,2.5,true]}]}";
    let r = result(feed(walk(2, None, 0), vec![ok("{}"), ok(body)]).0);
    let expected: serde_json::Value =
        serde_json::from_str("{\"id\":\"1\",\"mail\":null,\"n\":[1,2.5,true]}").unwrap();
    assert_eq!(r.items, vec![expected]);
}

#[test]
fn count_body_is_a_number() {
    assert_eq!(users_count("1532"), Ok(1532));
    assert_eq!(users_count("0"), Ok(0));
}

#[test]
fn count_body_that_is_no_number_is_malformed() {
    assert_eq!(users_count("abc"), Err(ApiError::MalformedBody));
    assert_eq!(users_count(""), Err(ApiError::MalformedBody));
    assert_eq!(users_count("15 32"), Err(ApiError::MalformedBody));
    assert_eq!(users_count("{\"error\":{}}"), Err(ApiError::MalformedBody));
}

#[test]
fn count_call_asks_for_eventual_consistency() {
    let c = client();
    let q = QueryConfig::new(None, None, 500).unwrap();
    let call = c.get_users_count(Some(c.query_config_to_params(&q))).unwrap();
    assert_eq!(call.next_request().unwrap().url, "https://graph.microsoft.com/v1.0/me");
    let call = call.step(ok("{}"));
    let request = call.next_request().unwrap();
    assert_eq!(request.url, "https://graph.microsoft.com/v1.0/users/$count?%24top=500");
    assert_eq!(
        request.headers,
        vec![
            ("Authorization".to_string(), "Bearer tok".to_string()),
            ("ConsistencyLevel".to_string(), "eventual".to_string()),
        ]
    );
    let call = call.step(ok("1532"));
    assert!(call.next_request().is_none());
    let body = call.finish().unwrap().unwrap();
    assert_eq!(users_count(&body), Ok(1532));
}

#[test]
fn count_call_is_gated_by_the_probe() {
    let call = client().get_users_count(None).unwrap().step(status(401));
    assert!(call.next_request().is_none());
    assert_eq!(call.finish().unwrap(), Err(ApiError::TokenNotValid));
    let call = client().get_users_count(None).unwrap().step(Reply::Unreachable);
    assert_eq!(call.finish().unwrap(), Err(ApiError::Transport));
}

#[test]
fn count_call_reports_a_refusal() {
    let call = client().get_users_count(None).unwrap().step(ok("{}")).step(status(403));
    assert_eq!(call.finish().unwrap(), Err(ApiError::RequestFailed));
    let call = client().get_users_count(None).unwrap().step(ok("{}")).step(Reply::Unreachable);
    assert_eq!(call.finish().unwrap(), Err(ApiError::Transport));
    let call = client().get_users_count(None).unwrap().step(ok("{}"));
    assert!(call.finish().is_none());
}

#[test]
fn long_query_is_taken() {
    let c = client();
    let select = "x".repeat(200_000);
    let q = QueryConfig::new(Some(select.clone()), None, 5).unwrap();
    let w = c.get_users(Some(c.query_config_to_params(&q)), 0).unwrap().step(ok("{}"));
    assert_eq!(
        w.next_request().unwrap().url,
        format!("https://graph.microsoft.com/v1.0/users?%24select={}&%24top=5", select)
    );
    let many: Vec<(String, String)> = (0..40).map(|i| (format!("k{}", i), "v".to_string())).collect();
    assert!(c.get_users(Some(many), 0).is_ok());
}

#[test]
fn query_fits_up_to_32_bit_offsets() {
    let none: Vec<(String, String)> = Vec::new();
    assert!(query_within_limits(0, &none));
    assert!(query_within_limits(4294967294, &none));
    assert!(!query_within_limits(4294967295, &none));
    assert!(!query_within_limits(usize::MAX, &none));
    let one = vec![("a".to_string(), "b".to_string())];
    assert!(query_within_limits(4294967286, &one));
    assert!(!query_within_limits(4294967287, &one));
    let two = vec![("a".to_string(), "b".to_string()), ("é".to_string(), String::new())];
    assert!(query_within_limits(4294967278, &two));
    assert!(!query_within_limits(4294967279, &two));
}

#[test]
fn built_url_is_the_serialization_with_the_pairs() {
    let pairs = vec![("a b".to_string(), "c&d".to_string()), ("é".to_string(), "=".to_string())];
    assert_eq!(
        build_url("HTTPS://Example.COM/x?y=1#frag", &pairs),
        Some("https://example.com/x?y=1&a+b=c%26d&%C3%A9=%3D#frag".to_string())
    );
    assert_eq!(build_url("https://example.com", &Vec::new()), Some("https://example.com/?".to_string()));
    assert_eq!(build_url("example.com/x", &pairs), None);
    assert_eq!(build_url("", &pairs), None);
}

#[test]
fn query_is_read_decoded_and_in_order() {
    assert_eq!(
        read_query("https://example.com/x?b=2&a=1&b=3&c&=d&e=%C3%A9+f#g=h"),
        Some(vec![
            ("b".to_string(), "2".to_string()),
            ("a".to_string(), "1".to_string()),
            ("b".to_string(), "3".to_string()),
            ("c".to_string(), String::new()),
            (String::new(), "d".to_string()),
            ("e".to_string(), "é f".to_string()),
        ])
    );
    assert_eq!(read_query("https://example.com/x"), Some(Vec::new()));
    assert_eq!(read_query("/x?a=1"), None);
    assert_eq!(query_parameter("https://example.com/x?b=2&a=1&b=3", "b"), Some("2".to_string()));
    assert_eq!(query_parameter("https://example.com/x?b=2", "a"), None);
    assert_eq!(query_parameter("x?b=2", "b"), None);
}

#[test]
fn base_path_that_is_no_url_gives_no_walk() {
    let c = ApiClientV1 { base_path: "graph".to_string(), token: "tok".to_string() };
    assert_eq!(c.get_users(None, 0).err(), Some(ApiError::InvalidUrl));
    assert_eq!(c.get_users_count(None).err(), Some(ApiError::InvalidUrl));
}

#[test]
fn only_version_1_has_a_client() {
    let c = create_api_client(ApiVersion::V1, "tok".to_string()).unwrap();
    assert_eq!(c.get_token(), "tok");
    assert_eq!(c.get_base_path(), "https://graph.microsoft.com/v1.0");
    assert_eq!(
        create_api_client(ApiVersion::Beta, "tok".to_string()).err(),
        Some(ApiError::UnsupportedVersion)
    );
}

#[test]
fn probe_verdict_follows_the_status() {
    let c = client();
    assert_eq!(c.check_access_token_validity(&ok("{}")), Ok(true));
    assert_eq!(c.check_access_token_validity(&Reply::Http { status: 299, body: String::new() }), Ok(true));
    assert_eq!(c.check_access_token_validity(&status(401)), Ok(false));
    assert_eq!(c.check_access_token_validity(&Reply::Http { status: 199, body: String::new() }), Ok(false));
    assert_eq!(c.check_access_token_validity(&Reply::Http { status: 300, body: String::new() }), Ok(false));
    assert_eq!(c.check_access_token_validity(&Reply::Unreachable), Err(ApiError::Transport));
}

#[test]
fn api_errors_describe_themselves() {
    assert_eq!(ApiError::TokenNotValid.describe(), "Access token is not valid");
    assert_eq!(ApiError::Transport.describe(), "The API could not be reached");
    assert_eq!(ApiError::RequestFailed.describe(), "The API refused the request");
    assert_eq!(ApiError::MalformedBody.describe(), "The API sent a malformed response");
    assert_eq!(ApiError::InvalidUrl.describe(), "The request URL is not valid");
    assert_eq!(ApiError::UnsupportedVersion.describe(), "This API version is not supported");
}
