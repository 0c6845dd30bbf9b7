use std::time::Duration;
use wusul::decimal::{render_signed, render_unsigned};
use wusul::error::WusulError;
use wusul::http_client::{query_pairs, HttpClient, Method};
use wusul::json::JsonValue;

fn test_client() -> HttpClient {
    HttpClient::new(
        "test_account".to_string(),
        "test_secret".to_string(),
        "https://api.wusul.io".to_string(),
        Duration::from_secs(30),
    )
    .unwrap()
}

fn members(list: Vec<(&str, JsonValue)>) -> JsonValue {
    JsonValue::Object(list.into_iter().map(|(key, value)| (key.to_string(), value)).collect())
}

fn pair(key: &str, value: &str) -> (String, String) {
    (key.to_string(), value.to_string())
}

fn headers_with(signature: &str) -> Vec<(String, String)> {
    vec![
        pair("X-ACCT-ID", "test_account"),
        pair("X-PAYLOAD-SIG", signature),
        pair("Content-Type", "application/json"),
    ]
}

#[test]
fn test_http_client_creation() {
    let client = HttpClient::new(
        "test_account".to_string(),
        "test_secret".to_string(),
        "https://api.wusul.io".to_string(),
        Duration::from_secs(30),
    );

    assert!(client.is_ok());
}

#[test]
fn test_http_client_urls() {
    let client = HttpClient::new(
        "test_account".to_string(),
        "test_secret".to_string(),
        "https://api.wusul.io".to_string(),
        Duration::from_secs(30),
    )
    .unwrap();

    assert_eq!(client.base_url(), "https://api.wusul.io");
    assert_eq!(client.account_id(), "test_account");
}

#[test]
fn http_client_is_created_from_any_texts() {
    let client = HttpClient::new(String::new(), String::new(), String::new(), Duration::ZERO)
        .unwrap();
    assert_eq!(client.account_id(), "");
    assert_eq!(client.base_url(), "");
    assert_eq!(client.timeout(), Duration::ZERO);
}

#[test]
fn get_signs_the_query_and_lists_its_scalars() {
    let params = members(vec![
        ("limit", JsonValue::UInt(10)),
        ("state", JsonValue::String("active".to_string())),
    ]);
    let request = test_client().get("/v1/access-passes", Some(&params)).unwrap();
    assert_eq!(request.method, Method::Get);
    assert_eq!(request.url, "https://api.wusul.io/v1/access-passes");
    assert_eq!(
        request.headers,
        headers_with("892af0a46d5b6b7feea8ab070be9d3d1172f52db4bc6d675abcdfd1ac038092c")
    );
    assert_eq!(request.query, vec![pair("limit", "10"), pair("state", "active")]);
    assert_eq!(request.body, None);
}

#[test]
fn get_without_parameters_signs_the_empty_object() {
    let request = test_client().get("/health", None).unwrap();
    assert_eq!(request.url, "https://api.wusul.io/health");
    assert_eq!(
        request.headers,
        headers_with("1a639c51a6760704e973d38e459427bf8c0c42d2bf0da27aaf69dd7474f1ab1d")
    );
    assert!(request.query.is_empty());
    assert_eq!(request.body, None);
}

#[test]
fn url_is_the_base_followed_by_the_path_as_given() {
    let client = HttpClient::new(
        "a".to_string(),
        "s".to_string(),
        "https://api.wusul.io/".to_string(),
        Duration::from_secs(1),
    )
    .unwrap();
    assert_eq!(client.get("/health", None).unwrap().url, "https://api.wusul.io//health");
    assert_eq!(client.delete("health").unwrap().url, "https://api.wusul.io/health");
    assert_eq!(client.post("", None).unwrap().url, "https://api.wusul.io/");
}

#[test]
fn query_pairs_render_scalars_and_drop_the_rest() {
    let params = members(vec![
        ("text", JsonValue::String("a b&c".to_string())),
        ("negative", JsonValue::Int(-42)),
        ("positive", JsonValue::Int(42)),
        ("large", JsonValue::UInt(u64::MAX)),
        ("yes", JsonValue::Bool(true)),
        ("no", JsonValue::Bool(false)),
        ("nothing", JsonValue::Null),
        ("list", JsonValue::Array(vec![JsonValue::UInt(1)])),
        ("nested", members(vec![("inner", JsonValue::UInt(1))])),
        ("last", JsonValue::String(String::new())),
    ]);
    assert_eq!(
        query_pairs(Some(&params)),
        vec![
            pair("text", "a b&c"),
            pair("negative", "-42"),
            pair("positive", "42"),
            pair("large", "18446744073709551615"),
            pair("yes", "true"),
            pair("no", "false"),
            pair("last", ""),
        ]
    );
}

#[test]
fn query_pairs_of_what_is_no_object_are_empty() {
    assert!(query_pairs(None).is_empty());
    assert!(query_pairs(Some(&JsonValue::empty_object())).is_empty());
    assert!(query_pairs(Some(&JsonValue::String("x".to_string()))).is_empty());
    assert!(query_pairs(Some(&JsonValue::UInt(3))).is_empty());
    assert!(query_pairs(Some(&JsonValue::Array(vec![JsonValue::Bool(true)]))).is_empty());
    assert!(query_pairs(Some(&JsonValue::Null)).is_empty());
}

#[test]
fn decimal_rendering_of_the_extremes() {
    assert_eq!(render_unsigned(0), "0");
    assert_eq!(render_unsigned(9), "9");
    assert_eq!(render_unsigned(10), "10");
    assert_eq!(render_unsigned(1234567890), "1234567890");
    assert_eq!(render_unsigned(u64::MAX), "18446744073709551615");
    assert_eq!(render_signed(0), "0");
    assert_eq!(render_signed(-1), "-1");
    assert_eq!(render_signed(-10), "-10");
    assert_eq!(render_signed(i64::MAX), "9223372036854775807");
    assert_eq!(render_signed(i64::MIN), "-9223372036854775808");
    for n in [0i64, 7, -7, 100, -100, 65535, i64::MIN + 1] {
        assert_eq!(render_signed(n), n.to_string());
    }
}

#[test]
fn post_carries_the_json_text_that_is_signed() {
    let data = members(vec![("key", JsonValue::String("value".to_string()))]);
    let request = test_client().post("/v1/access-passes", Some(&data)).unwrap();
    assert_eq!(request.method, Method::Post);
    assert_eq!(request.url, "https://api.wusul.io/v1/access-passes");
    assert_eq!(
        request.headers,
        headers_with("75c80dc69134ca9473b66ad578072ae687758c484c19d10a4c9978bc9f54422b")
    );
    assert!(request.query.is_empty());
    assert_eq!(request.body, Some("{\"key\":\"value\"}".to_string()));
}

#[test]
fn post_without_data_carries_the_empty_object() {
    let request = test_client().post("/v1/access-passes/pass_123/suspend", None).unwrap();
    assert_eq!(request.method, Method::Post);
    assert_eq!(
        request.headers,
        headers_with("1a639c51a6760704e973d38e459427bf8c0c42d2bf0da27aaf69dd7474f1ab1d")
    );
    assert_eq!(request.body, Some("{}".to_string()));
}

#[test]
fn patch_carries_the_json_text_that_is_signed() {
    let data = members(vec![("key", JsonValue::String("value".to_string()))]);
    let request = test_client().patch("/v1/access-passes/pass_123", Some(&data)).unwrap();
    assert_eq!(request.method, Method::Patch);
    assert_eq!(request.url, "https://api.wusul.io/v1/access-passes/pass_123");
    assert_eq!(
        request.headers,
        headers_with("75c80dc69134ca9473b66ad578072ae687758c484c19d10a4c9978bc9f54422b")
    );
    assert!(request.query.is_empty());
    assert_eq!(request.body, Some("{\"key\":\"value\"}".to_string()));
    let bare = test_client().patch("/v1/access-passes/pass_123", None).unwrap();
    assert_eq!(bare.body, Some("{}".to_string()));
}

#[test]
fn delete_has_no_body_and_signs_the_empty_object() {
    let request = test_client().delete("/v1/access-passes/pass_123").unwrap();
    assert_eq!(request.method, Method::Delete);
    assert_eq!(request.url, "https://api.wusul.io/v1/access-passes/pass_123");
    assert_eq!(
        request.headers,
        headers_with("1a639c51a6760704e973d38e459427bf8c0c42d2bf0da27aaf69dd7474f1ab1d")
    );
    assert!(request.query.is_empty());
    assert_eq!(request.body, None);
}

#[test]
fn success_statuses_hand_the_body_back() {
    let client = test_client();
    for status in [200u16, 201, 204, 299] {
        assert_eq!(client.handle_response(status, Ok("{\"ok\":true}".to_string())).unwrap(), "{\"ok\":true}");
    }
}

#[test]
fn status_404_is_not_found_with_the_body() {
    match test_client().handle_response(404, Ok("no such pass".to_string())) {
        Err(WusulError::NotFound(message)) => assert_eq!(message, "no such pass"),
        _ => panic!("Expected NotFound"),
    }
}

#[test]
fn status_429_is_rate_limited() {
    assert!(matches!(
        test_client().handle_response(429, Ok("slow down".to_string())),
        Err(WusulError::RateLimitExceeded)
    ));
}

#[test]
fn status_408_is_timeout() {
    assert!(matches!(
        test_client().handle_response(408, Ok("late".to_string())),
        Err(WusulError::Timeout)
    ));
}

#[test]
fn status_401_and_403_are_authentication_errors_with_the_body() {
    for status in [401u16, 403] {
        match test_client().handle_response(status, Ok("denied".to_string())) {
            Err(WusulError::AuthError(message)) => assert_eq!(message, "denied"),
            _ => panic!("Expected AuthError"),
        }
    }
}

#[test]
fn other_statuses_are_api_errors_with_status_and_body() {
    for code in [0u16, 100, 199, 300, 302, 400, 402, 405, 409, 418, 500, 503, 999, u16::MAX] {
        match test_client().handle_response(code, Ok("body text".to_string())) {
            Err(WusulError::ApiError { status, message }) => {
                assert_eq!(status, code);
                assert_eq!(message, "body text");
            },
            _ => panic!("Expected ApiError"),
        }
    }
}

#[test]
fn unreadable_body_of_a_success_is_a_transport_error() {
    let cause = reqwest::Client::new().get("not a url").build().unwrap_err();
    let shown = format!("{:?}", cause);
    match test_client().handle_response(200, Err(cause)) {
        Err(WusulError::HttpError(kept)) => assert_eq!(format!("{:?}", kept), shown),
        _ => panic!("Expected HttpError"),
    }
}

#[test]
fn unreadable_body_of_an_error_is_reported_as_unknown() {
    let client = test_client();
    let unreadable = || Err(reqwest::Client::new().get("not a url").build().unwrap_err());
    match client.handle_response(404, unreadable()) {
        Err(WusulError::NotFound(message)) => assert_eq!(message, "Unknown error"),
        _ => panic!("Expected NotFound"),
    }
    match client.handle_response(403, unreadable()) {
        Err(WusulError::AuthError(message)) => assert_eq!(message, "Unknown error"),
        _ => panic!("Expected AuthError"),
    }
    match client.handle_response(500, unreadable()) {
        Err(WusulError::ApiError { status, message }) => {
            assert_eq!(status, 500);
            assert_eq!(message, "Unknown error");
        },
        _ => panic!("Expected ApiError"),
    }
    assert!(matches!(client.handle_response(429, unreadable()), Err(WusulError::RateLimitExceeded)));
    assert!(matches!(client.handle_response(408, unreadable()), Err(WusulError::Timeout)));
}

#[test]
fn decoded_passes_a_value_on_and_wraps_a_failure() {
    let client = test_client();
    let good = client.decoded(serde_json::from_str::<Vec<u32>>("[1,2,3]"));
    assert_eq!(good.unwrap(), vec![1, 2, 3]);
    let bad = client.decoded(serde_json::from_str::<Vec<u32>>("[1,2"));
    assert!(matches!(bad, Err(WusulError::SerializationError(_))));
}

#[test]
fn outside_errors_convert_into_their_variants() {
    let cause = serde_json::from_str::<serde_json::Value>("nope").unwrap_err();
    assert!(matches!(WusulError::from(cause), WusulError::SerializationError(_)));
    let cause = reqwest::Client::new().get("not a url").build().unwrap_err();
    assert!(matches!(WusulError::from(cause), WusulError::HttpError(_)));
}
