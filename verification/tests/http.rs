use keylime_agent::http::{delegated_certification_default, quotes_default, success_body, HttpError};

#[test]
fn test_keys_default() {
    let answer = quotes_default("GET");
    assert!((400..500).contains(&answer.error.code));
    let result: serde_json::Value = serde_json::from_str(&answer.error.body()).unwrap();
    assert_eq!(result.get("results"), Some(&serde_json::Value::Object(serde_json::Map::new())));
    assert_eq!(result.get("code").and_then(|c| c.as_u64()), Some(400));
    assert!(answer.allow.is_none());

    let answer = quotes_default("DELETE");
    assert!((400..500).contains(&answer.error.code));
    assert!(answer.allow.is_some());
    assert_eq!(answer.allow.as_deref().unwrap(), "GET");
    let result: serde_json::Value = serde_json::from_str(&answer.error.body()).unwrap();
    assert_eq!(result.get("results"), Some(&serde_json::Value::Object(serde_json::Map::new())));
    assert_eq!(result.get("code").and_then(|c| c.as_u64()), Some(405));
}

#[test]
fn quotes_scope_names_its_routes() {
    let answer = quotes_default("GET");
    assert_eq!(
        answer.error.message,
        "URI not supported, only /identity and /integrity are supported for GET in /quotes/ interface"
    );
    let answer = quotes_default("POST");
    assert_eq!(answer.error.message, "Method is not supported in /quotes/ interface");
}

#[test]
fn certification_scope_takes_post_only() {
    let answer = delegated_certification_default("POST");
    assert_eq!(answer.error.code, 400);
    assert_eq!(
        answer.error.message,
        "URI not supported, only /certify_app_key is supported for POST in /delegated_certification interface"
    );
    assert!(answer.allow.is_none());

    let answer = delegated_certification_default("GET");
    assert_eq!(answer.error.code, 405);
    assert_eq!(
        answer.error.message,
        "Method is not supported in /delegated_certification interface"
    );
    assert_eq!(answer.allow.as_deref(), Some("POST"));
}

#[test]
fn method_names_are_compared_as_they_are() {
    assert_eq!(quotes_default("get").error.code, 405);
    assert_eq!(delegated_certification_default("post").error.code, 405);
}

#[test]
fn refusals_join_prefix_and_detail() {
    let e = HttpError::with_detail(400, "Missing required field: ", "challenge_nonce");
    assert_eq!(e.code, 400);
    assert_eq!(e.message, "Missing required field: challenge_nonce");
    let e = HttpError::new(503, "x");
    assert_eq!((e.code, e.message.as_str()), (503, "x"));
}

#[test]
fn answers_are_wrapped_in_an_envelope() {
    assert_eq!(
        success_body("{\"quote\":\"r\"}"),
        "{\"code\":200,\"status\":\"OK\",\"results\":{\"quote\":\"r\"}}"
    );
    assert_eq!(
        HttpError::new(429, "Rate limit \"exceeded\"").body(),
        "{\"code\":429,\"status\":\"Rate limit \\\"exceeded\\\"\",\"results\":{}}"
    );
}
