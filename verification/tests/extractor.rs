use axum::body::Body;
use axum::http::request::Parts;
use axum::http::{HeaderValue, Request, StatusCode};
use serde_json::Value;
use user_info_middleware::{ErrorKind, ExtractUserInfo, ExtractionError, HEADER_X_USER_INFO};

const IDENTITY: &str = "eyJpc3MiOiJteS1pc3N1ZXIiLCJzdWIiOiJteS1zdWJqZWN0IiwiYXVkIjoibXktYXVkaWVuY2UiLCJuYW1lIjoibXktbmFtZSIsImlhdCI6MTUxNjIzOTAyMiwiZXhwIjoxNTE2MjM5MDIyLCJuYmYiOjE1MTYyMzkwMjIsImp0aSI6Im15LXVuaXF1ZS1pZCJ9";

fn identity_document() -> Value {
    let mut map = serde_json::Map::new();
    map.insert("iss".to_string(), Value::from("my-issuer"));
    map.insert("sub".to_string(), Value::from("my-subject"));
    map.insert("aud".to_string(), Value::from("my-audience"));
    map.insert("name".to_string(), Value::from("my-name"));
    map.insert("iat".to_string(), Value::from(1516239022));
    map.insert("exp".to_string(), Value::from(1516239022));
    map.insert("nbf".to_string(), Value::from(1516239022));
    map.insert("jti".to_string(), Value::from("my-unique-id"));
    Value::Object(map)
}

fn parts_with(name: &str, value: &str) -> Parts {
    let request = Request::builder()
        .header(name, value)
        .body(Body::empty())
        .unwrap();
    request.into_parts().0
}

fn parts_without_headers() -> Parts {
    let request = Request::builder().body(Body::empty()).unwrap();
    request.into_parts().0
}

fn rejection(err: &ExtractionError) -> (StatusCode, String) {
    (
        StatusCode::from_u16(err.status()).unwrap(),
        err.message().to_string(),
    )
}

#[test]
fn test_lib_extract_user_info_with_header_ok_one() {
    let request = Request::builder()
        .header("x-endpoint-api-userinfo", "eyJpc3MiOiJteS1pc3N1ZXIiLCJzdWIiOiJteS1zdWJqZWN0IiwiYXVkIjoibXktYXVkaWVuY2UiLCJuYW1lIjoibXktbmFtZSIsImlhdCI6MTUxNjIzOTAyMiwiZXhwIjoxNTE2MjM5MDIyLCJuYmYiOjE1MTYyMzkwMjIsImp0aSI6Im15LXVuaXF1ZS1pZCJ9")
        .body(Body::empty())
        .unwrap();

    let parts = request.into_parts();

    let user_info = ExtractUserInfo::from_request_parts(&parts.0);

    match user_info {
        Ok(user_info) => assert_eq!(user_info.0, identity_document()),
        Err(err) => assert!(false, "Expected a valid user info : {:?}", err),
    }
}

#[test]
fn test_lib_extract_user_info_with_header_ok_two() {
    let request = Request::builder()
        .header(
            "X-Endpoint-API-UserInfo",
            " eyJpc3MiOiJteS1pc3N1ZXIiLCJzdWIiOiJteS1zdWJqZWN0IiwiYXVkIjoibXktYXVkaWVuY2UiLCJuYW1lIjoibXktbmFtZSIsImlhdCI6MTUxNjIzOTAyMiwiZXhwIjoxNTE2MjM5MDIyLCJuYmYiOjE1MTYyMzkwMjIsImp0aSI6Im15LXVuaXF1ZS1pZCJ9 ",
        )
        .body(Body::empty())
        .unwrap();

    let parts = request.into_parts();

    let user_info = ExtractUserInfo::from_request_parts(&parts.0);

    match user_info {
        Ok(user_info) => assert_eq!(user_info.0, identity_document()),
        Err(err) => assert!(false, "Expected a valid user info : {:?}", err),
    }
}

#[test]
fn test_lib_extract_user_info_with_header_ko_not_base64() {
    let request = Request::builder()
        .header("X-Endpoint-api-UserInfo", "this-is-not-a-base64")
        .body(Body::empty())
        .unwrap();

    let parts = request.into_parts();

    let user_info = ExtractUserInfo::from_request_parts(&parts.0);

    match user_info {
        Ok(_) => assert!(false, "Expected an error"),
        Err(err) => assert_eq!(
            rejection(&err),
            (
                StatusCode::BAD_REQUEST,
                format!("Invalid {} : Not a valid base 64", HEADER_X_USER_INFO)
            )
        ),
    }
}

#[test]
fn test_lib_extract_user_info_with_header_ko_not_json() {
    let request = Request::builder()
        .header("x-EndPoint-api-UserInfo", "dGhpcy1pcy1ub3QtYS1qc29u")
        .body(Body::empty())
        .unwrap();

    let parts = request.into_parts();

    let user_info = ExtractUserInfo::from_request_parts(&parts.0);

    match user_info {
        Ok(_) => assert!(false, "Expected an error"),
        Err(err) => assert_eq!(
            rejection(&err),
            (
                StatusCode::BAD_REQUEST,
                format!("Invalid {} : Not a valid JSON", HEADER_X_USER_INFO)
            )
        ),
    }
}

#[test]
fn test_lib_extract_user_info_without_header() {
    let request = Request::builder().body(Body::empty()).unwrap();

    let parts = request.into_parts();

    let user_info = ExtractUserInfo::from_request_parts(&parts.0);

    match user_info {
        Ok(_) => assert!(false, "Expected an error"),
        Err(err) => assert_eq!(
            rejection(&err),
            (
                StatusCode::BAD_REQUEST,
                format!("Invalid {} : Not found", HEADER_X_USER_INFO)
            )
        ),
    }
}

#[test]
fn header_name_is_the_documented_one() {
    assert_eq!(HEADER_X_USER_INFO, "X-Endpoint-API-UserInfo");
}

#[test]
fn small_object_is_extracted() {
    // {"iss":"my-issuer","sub":"my-subject"}
    let parts = parts_with(
        HEADER_X_USER_INFO,
        "eyJpc3MiOiJteS1pc3N1ZXIiLCJzdWIiOiJteS1zdWJqZWN0In0=",
    );
    let mut map = serde_json::Map::new();
    map.insert("iss".to_string(), Value::from("my-issuer"));
    map.insert("sub".to_string(), Value::from("my-subject"));
    let info = ExtractUserInfo::from_request_parts(&parts).unwrap();
    assert_eq!(info.0, Value::Object(map));
}

#[test]
fn missing_header_message_is_exact() {
    let err = ExtractUserInfo::from_request_parts(&parts_without_headers()).unwrap_err();
    assert_eq!(err.kind(), ErrorKind::HeaderMissing);
    assert_eq!(err.message(), "Invalid X-Endpoint-API-UserInfo : Not found");
    assert_eq!(err.status(), 400);
    assert_eq!(err.cause(), "");
}

#[test]
fn other_headers_do_not_count() {
    let request = Request::builder()
        .header("x-endpoint-api-userinf", IDENTITY)
        .header("x-endpoint-api-userinfo2", IDENTITY)
        .header("authorization", IDENTITY)
        .body(Body::empty())
        .unwrap();
    let err = ExtractUserInfo::from_request_parts(&request.into_parts().0).unwrap_err();
    assert_eq!(err.kind(), ErrorKind::HeaderMissing);
}

#[test]
fn invalid_base64_message_is_exact() {
    let parts = parts_with(HEADER_X_USER_INFO, "this-is-not-a-base64");
    let err = ExtractUserInfo::from_request_parts(&parts).unwrap_err();
    assert_eq!(err.kind(), ErrorKind::InvalidBase64);
    assert_eq!(
        err.message(),
        "Invalid X-Endpoint-API-UserInfo : Not a valid base 64"
    );
    assert_eq!(err.status(), 400);
    assert!(!err.cause().is_empty());
}

#[test]
fn invalid_json_message_is_exact() {
    // base64 of this-is-not-a-json
    let parts = parts_with(HEADER_X_USER_INFO, "dGhpcy1pcy1ub3QtYS1qc29u");
    let err = ExtractUserInfo::from_request_parts(&parts).unwrap_err();
    assert_eq!(err.kind(), ErrorKind::InvalidJson);
    assert_eq!(
        err.message(),
        "Invalid X-Endpoint-API-UserInfo : Not a valid JSON"
    );
    assert_eq!(err.status(), 400);
    assert!(!err.cause().is_empty());
}

#[test]
fn url_safe_alphabet_is_refused() {
    // the standard encoding of these bytes is "+/+/"
    let err = ExtractUserInfo::from_header_value(b"-_-_").unwrap_err();
    assert_eq!(err.kind(), ErrorKind::InvalidBase64);
}

#[test]
fn missing_padding_is_refused() {
    // "e30=" is the encoding of {}
    assert_eq!(
        ExtractUserInfo::from_header_value(b"e30=").unwrap().0,
        Value::Object(serde_json::Map::new())
    );
    let err = ExtractUserInfo::from_header_value(b"e30").unwrap_err();
    assert_eq!(err.kind(), ErrorKind::InvalidBase64);
}

#[test]
fn wrong_length_is_refused() {
    let err = ExtractUserInfo::from_header_value(b"e30=e").unwrap_err();
    assert_eq!(err.kind(), ErrorKind::InvalidBase64);
}

#[test]
fn whitespace_inside_is_refused() {
    let err = ExtractUserInfo::from_header_value(b"e3 0=").unwrap_err();
    assert_eq!(err.kind(), ErrorKind::InvalidBase64);
    let err = ExtractUserInfo::from_header_value(b"e3\t0=").unwrap_err();
    assert_eq!(err.kind(), ErrorKind::InvalidBase64);
}

#[test]
fn bytes_beyond_ascii_are_refused() {
    let mut parts = parts_without_headers();
    parts.headers.insert(
        "x-endpoint-api-userinfo",
        HeaderValue::from_bytes(&[0x65, 0x33, 0x30, 0xff]).unwrap(),
    );
    let err = ExtractUserInfo::from_request_parts(&parts).unwrap_err();
    assert_eq!(err.kind(), ErrorKind::InvalidBase64);
}

#[test]
fn empty_value_is_invalid_json() {
    let parts = parts_with(HEADER_X_USER_INFO, "");
    let err = ExtractUserInfo::from_request_parts(&parts).unwrap_err();
    assert_eq!(err.kind(), ErrorKind::InvalidJson);
    assert_eq!(
        err.message(),
        "Invalid X-Endpoint-API-UserInfo : Not a valid JSON"
    );
}

#[test]
fn blank_value_is_invalid_json() {
    let err = ExtractUserInfo::from_header_value(b"   ").unwrap_err();
    assert_eq!(err.kind(), ErrorKind::InvalidJson);
    let err = ExtractUserInfo::from_header_value(b" \t ").unwrap_err();
    assert_eq!(err.kind(), ErrorKind::InvalidJson);
}

#[test]
fn truncated_document_is_invalid_json() {
    // base64 of {"iss":
    let err = ExtractUserInfo::from_header_value(b"eyJpc3MiOg==").unwrap_err();
    assert_eq!(err.kind(), ErrorKind::InvalidJson);
}

#[test]
fn trailing_text_is_invalid_json() {
    // base64 of {}x
    let err = ExtractUserInfo::from_header_value(b"e314").unwrap_err();
    assert_eq!(err.kind(), ErrorKind::InvalidJson);
}

#[test]
fn any_shape_of_document_is_accepted() {
    // [1,2]
    assert_eq!(
        ExtractUserInfo::from_header_value(b"WzEsMl0=").unwrap().0,
        Value::Array(vec![Value::from(1), Value::from(2)])
    );
    // "abc"
    assert_eq!(
        ExtractUserInfo::from_header_value(b"ImFiYyI=").unwrap().0,
        Value::from("abc")
    );
    // 42
    assert_eq!(
        ExtractUserInfo::from_header_value(b"NDI=").unwrap().0,
        Value::from(42)
    );
    // true
    assert_eq!(
        ExtractUserInfo::from_header_value(b"dHJ1ZQ==").unwrap().0,
        Value::Bool(true)
    );
    // null
    assert_eq!(
        ExtractUserInfo::from_header_value(b"bnVsbA==").unwrap().0,
        Value::Null
    );
}

#[test]
fn document_equals_direct_parse() {
    let text = br#"{"iss":"my-issuer","roles":["a","b"],"nested":{"n":1.5,"ok":false,"none":null}}"#;
    let direct: Value = serde_json::from_slice(text).unwrap();
    let encoded = "eyJpc3MiOiJteS1pc3N1ZXIiLCJyb2xlcyI6WyJhIiwiYiJdLCJuZXN0ZWQiOnsibiI6MS41LCJvayI6ZmFsc2UsIm5vbmUiOm51bGx9fQ==";
    let info = ExtractUserInfo::from_header_value(encoded.as_bytes()).unwrap();
    assert_eq!(info.0, direct);
}

#[test]
fn extraction_repeats() {
    let parts = parts_with(HEADER_X_USER_INFO, IDENTITY);
    let first = ExtractUserInfo::from_request_parts(&parts).unwrap();
    let second = ExtractUserInfo::from_request_parts(&parts).unwrap();
    assert_eq!(first.0, second.0);

    let bad = parts_with(HEADER_X_USER_INFO, "this-is-not-a-base64");
    let first = ExtractUserInfo::from_request_parts(&bad).unwrap_err();
    let second = ExtractUserInfo::from_request_parts(&bad).unwrap_err();
    assert_eq!(first.kind(), second.kind());
    assert_eq!(first.message(), second.message());
    assert_eq!(first, second);

    let none = parts_without_headers();
    let first = ExtractUserInfo::from_request_parts(&none).unwrap_err();
    let second = ExtractUserInfo::from_request_parts(&none).unwrap_err();
    assert_eq!(first, second);
}

#[test]
fn surrounding_whitespace_is_ignored() {
    let plain = ExtractUserInfo::from_header_value(IDENTITY.as_bytes()).unwrap();
    assert_eq!(plain.0, identity_document());
    let padded = format!("  {}  ", IDENTITY);
    let info = ExtractUserInfo::from_request_parts(&parts_with(HEADER_X_USER_INFO, &padded)).unwrap();
    assert_eq!(info.0, plain.0);
    let tabbed = format!("\t {}\t", IDENTITY);
    let info = ExtractUserInfo::from_header_value(tabbed.as_bytes()).unwrap();
    assert_eq!(info.0, plain.0);
    let lines = format!("\r\n{}\n", IDENTITY);
    let info = ExtractUserInfo::from_header_value(lines.as_bytes()).unwrap();
    assert_eq!(info.0, plain.0);
}

#[test]
fn header_name_case_is_ignored() {
    let expected = identity_document();
    for name in [
        "X-Endpoint-API-UserInfo",
        "x-endpoint-api-userinfo",
        "X-ENDPOINT-API-USERINFO",
        "x-EndPoint-api-UserInfo",
    ] {
        let info = ExtractUserInfo::from_request_parts(&parts_with(name, IDENTITY)).unwrap();
        assert_eq!(info.0, expected);
    }
}

#[test]
fn first_of_several_headers_decides() {
    let request = Request::builder()
        .header("accept", "*/*")
        .header(HEADER_X_USER_INFO, "this-is-not-a-base64")
        .header(HEADER_X_USER_INFO, IDENTITY)
        .body(Body::empty())
        .unwrap();
    let err = ExtractUserInfo::from_request_parts(&request.into_parts().0).unwrap_err();
    assert_eq!(err.kind(), ErrorKind::InvalidBase64);

    let request = Request::builder()
        .header(HEADER_X_USER_INFO, IDENTITY)
        .header("accept", "*/*")
        .header("X-ENDPOINT-API-USERINFO", "this-is-not-a-base64")
        .body(Body::empty())
        .unwrap();
    let info = ExtractUserInfo::from_request_parts(&request.into_parts().0).unwrap();
    assert_eq!(info.0, identity_document());
}

#[test]
fn identity_can_be_cloned() {
    let info = ExtractUserInfo::from_header_value(IDENTITY.as_bytes()).unwrap();
    let copy = info.clone();
    assert_eq!(copy.0, info.0);
    assert_eq!(copy.0, identity_document());
}
