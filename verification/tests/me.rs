use revelio::errors::ApiError;
use revelio::msgraph_api::me::{me_profile, MeApi};
use revelio::msgraph_api::v1::client::{ApiClientV1, DEFAULT_SELECT};
use revelio::msgraph_api::Reply;

fn ok(body: &str) -> Reply {
    Reply::Http { status: 200, body: body.to_string() }
}

#[test]
fn profile_drops_the_context() {
    let body = "{\"@odata.context\":\"https://graph.microsoft.com/v1.0/$metadata#users\",\"id\":\"7\",\"mail\":\"a@b.c\"}";
    let expected: serde_json::Value = serde_json::from_str("{\"id\":\"7\",\"mail\":\"a@b.c\"}").unwrap();
    assert_eq!(me_profile(body), Ok(expected));
}

#[test]
fn profile_without_context_is_unchanged() {
    let expected: serde_json::Value = serde_json::from_str("{\"id\":\"7\"}").unwrap();
    assert_eq!(me_profile("{\"id\":\"7\"}"), Ok(expected));
    let expected: serde_json::Value = serde_json::from_str("[1,2]").unwrap();
    assert_eq!(me_profile("[1,2]"), Ok(expected));
}

#[test]
fn profile_that_is_no_json_is_malformed() {
    assert_eq!(me_profile("<html>"), Err(ApiError::MalformedBody));
    assert_eq!(me_profile(""), Err(ApiError::MalformedBody));
}

#[test]
fn me_call_probes_then_asks() {
    let c = ApiClientV1::new("tok".to_string());
    let call = c.get_me(Some(vec![("$top".to_string(), "5".to_string())])).unwrap();
    let probe = call.next_request().unwrap();
    assert_eq!(probe.url, "https://graph.microsoft.com/v1.0/me");
    let call = call.step(ok("{}"));
    let request = call.next_request().unwrap();
    assert_eq!(
        request.url,
        format!(
            "https://graph.microsoft.com/v1.0/me?%24top=5&%24select={}",
            DEFAULT_SELECT.replace(',', "%2C")
        )
    );
    assert_eq!(request.headers, vec![("Authorization".to_string(), "Bearer tok".to_string())]);
    let call = call.step(ok("{\"id\":\"7\"}"));
    assert_eq!(call.finish().unwrap(), Ok("{\"id\":\"7\"}".to_string()));
}

#[test]
fn me_call_is_gated_by_the_probe() {
    let c = ApiClientV1::new("tok".to_string());
    let call = c.get_me(None).unwrap().step(Reply::Http { status: 401, body: String::new() });
    assert!(call.next_request().is_none());
    assert_eq!(call.finish().unwrap(), Err(ApiError::TokenNotValid));
}
