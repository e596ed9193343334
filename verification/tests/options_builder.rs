use serde_json::{Number, Value};
use wasm_request::{get_options, request_init, Body, DataType, Headers, Method, RequestMode};

#[derive(Debug, PartialEq)]
struct Form {
    fields: Vec<(String, String)>,
}

fn pair(name: &str, value: &str) -> Option<(String, String)> {
    Some((name.to_string(), value.to_string()))
}

#[test]
fn without_a_payload_the_body_is_null() {
    let rq = get_options::<()>(
        "https://api.coingecko.com/api/v3/coins/1million-token",
        Method::Get,
        None,
        None,
        None,
    );
    assert_eq!(rq.url, "https://api.coingecko.com/api/v3/coins/1million-token");
    assert_eq!(rq.method, Method::Get);
    assert!(matches!(rq.body, Body::Null));
}

#[test]
fn without_a_payload_the_body_is_null_for_every_method() {
    for method in [
        Method::Get,
        Method::POST,
        Method::PUT,
        Method::PATCH,
        Method::DELETE,
        Method::OPTION,
        Method::TRACE,
        Method::CONNECT,
        Method::HEAD,
    ] {
        let rq = get_options::<Form>("/", method, None, None, Some("t".to_string()));
        assert!(matches!(rq.body, Body::Null));
        assert_eq!(rq.method, method);
    }
}

#[test]
fn without_headers_the_defaults_go_out() {
    let rq = get_options::<()>("/x", Method::Get, None, None, None);
    assert_eq!(rq.headers.len(), 2);
    assert_eq!(rq.headers.entry(0), pair("Content-Type", "application/json"));
    assert_eq!(rq.headers.entry(1), pair("Access-Control-Allow-Origin", "*"));
}

#[test]
fn without_headers_a_stored_token_goes_out_too() {
    let rq = get_options::<()>("/x", Method::Get, None, None, Some("abc".to_string()));
    assert_eq!(rq.headers.len(), 3);
    assert_eq!(rq.headers.entry(0), pair("Authorization", "abc"));
}

#[test]
fn the_callers_headers_go_out_as_they_are() {
    let mut own = Headers::new();
    own.append("Accept", "text/plain");
    let rq = get_options::<()>("/x", Method::Get, Some(own), None, Some("abc".to_string()));
    assert_eq!(rq.headers.len(), 1);
    assert_eq!(rq.headers.entry(0), pair("Accept", "text/plain"));
    assert!(!rq.headers.has("Authorization"));
    assert!(!rq.headers.has("Content-Type"));
}

#[test]
fn an_empty_set_of_the_callers_stays_empty() {
    let rq = get_options::<()>("/x", Method::Get, Some(Headers::new()), None, None);
    assert_eq!(rq.headers.len(), 0);
}

#[test]
fn a_json_payload_is_the_body_text() {
    let rq = get_options::<()>(
        "https://api.sport-example.com/login",
        Method::POST,
        None,
        Some(DataType::Json("{\"email\":\"test@example.com\"}".to_string())),
        None,
    );
    match rq.body {
        Body::Text(text) => assert_eq!(text, "{\"email\":\"test@example.com\"}"),
        other => panic!("{:?}", other),
    }
}

#[test]
fn a_serialised_value_comes_back_equal_from_the_body() {
    let mut user = serde_json::Map::new();
    user.insert("email".to_string(), Value::String("test@example.com".to_string()));
    user.insert("username".to_string(), Value::String("lee \"q\" \\ \n".to_string()));
    user.insert("age".to_string(), Value::Number(Number::from(41)));
    user.insert("debt".to_string(), Value::Number(Number::from(-7)));
    user.insert("admin".to_string(), Value::Bool(false));
    user.insert("nick".to_string(), Value::Null);
    user.insert(
        "tags".to_string(),
        Value::Array(vec![Value::String("a".to_string()), Value::Number(Number::from(2))]),
    );
    let value = Value::Object(user);
    let text = serde_json::to_string(&value).unwrap();
    let rq = get_options::<()>("/user", Method::POST, None, Some(DataType::Json(text.clone())), None);
    match rq.body {
        Body::Text(body) => {
            assert_eq!(body, text);
            let back: Value = serde_json::from_str(&body).unwrap();
            assert_eq!(back, value);
        }
        other => panic!("{:?}", other),
    }
}

#[test]
fn a_serialised_unit_is_the_text_null_and_not_an_empty_body() {
    let text = serde_json::to_string(&()).unwrap();
    assert_eq!(text, "null");
    let rq = get_options::<()>("/", Method::POST, None, Some(DataType::Json(text)), None);
    match rq.body {
        Body::Text(body) => assert_eq!(body, "null"),
        other => panic!("{:?}", other),
    }
}

#[test]
fn a_form_goes_through_untouched() {
    let form = Form {
        fields: vec![
            ("name".to_string(), "Lee".to_string()),
            ("email".to_string(), "test.example@gmail.com".to_string()),
        ],
    };
    let rq = get_options(
        "https://api.sport-example.com/user",
        Method::POST,
        None,
        Some(DataType::Form(form)),
        None,
    );
    match rq.body {
        Body::Form(form) => assert_eq!(
            form,
            Form {
                fields: vec![
                    ("name".to_string(), "Lee".to_string()),
                    ("email".to_string(), "test.example@gmail.com".to_string()),
                ],
            }
        ),
        other => panic!("{:?}", other),
    }
}

#[test]
fn a_form_does_not_touch_the_headers() {
    let mut own = Headers::new();
    own.append("Access-Control-Allow-Origin", "*");
    let rq = get_options("/user", Method::POST, Some(own), Some(DataType::Form(7u8)), None);
    assert_eq!(rq.headers.len(), 1);
    assert!(!rq.headers.has("Content-Type"));
    assert!(matches!(rq.body, Body::Form(7u8)));
}

#[test]
fn the_url_is_not_looked_into() {
    let rq = get_options::<()>("not a url", Method::Get, None, None, None);
    assert_eq!(rq.url, "not a url");
    let rq = get_options::<()>("", Method::Get, None, None, None);
    assert_eq!(rq.url, "");
}

#[test]
fn fetch_is_given_the_wire_verb_and_cors() {
    let rq = get_options::<()>("/x", Method::OPTION, None, None, Some("abc".to_string()));
    let init = request_init(rq);
    assert_eq!(init.url, "/x");
    assert_eq!(init.method, "OPTION");
    assert_eq!(init.mode, RequestMode::Cors);
    assert!(matches!(init.body, Body::Null));
    assert_eq!(init.headers.len(), 3);
    assert_eq!(init.headers.entry(0), pair("Authorization", "abc"));
}

#[test]
fn fetch_is_given_the_body_and_the_callers_headers() {
    let mut own = Headers::new();
    own.append("Accept", "text/plain");
    let rq = get_options::<()>(
        "/y",
        Method::PUT,
        Some(own),
        Some(DataType::Json("[1,2]".to_string())),
        None,
    );
    let init = request_init(rq);
    assert_eq!(init.method, "PUT");
    assert_eq!(init.mode, RequestMode::Cors);
    match init.body {
        Body::Text(body) => assert_eq!(body, "[1,2]"),
        other => panic!("{:?}", other),
    }
    assert_eq!(init.headers.len(), 1);
    assert_eq!(init.headers.entry(0), pair("Accept", "text/plain"));
}
