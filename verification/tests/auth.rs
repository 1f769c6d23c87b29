use axum::http::{HeaderMap, HeaderValue, Uri};
use clipd::auth::{check_token, query_param, query_param_in, tokens_match, AppState, TOKEN_HEADER};
use clipd::reply::AppError;

#[test]
fn tokens_match_only_on_equality() {
    assert!(tokens_match("secret", "secret"));
    assert!(!tokens_match("secret", "secreT"));
    assert!(!tokens_match("secret", "secretly"));
    assert!(!tokens_match("", "secret"));
}

#[test]
fn query_param_finds_key_anywhere() {
    let uri: Uri = "/set_clipboard?text=hi&token=abc".parse().unwrap();
    assert_eq!(query_param(&uri, "token").as_deref(), Some("abc"));
    assert_eq!(query_param(&uri, "text").as_deref(), Some("hi"));
    assert_eq!(query_param(&uri, "missing"), None);

    let bare: Uri = "/health".parse().unwrap();
    assert_eq!(query_param(&bare, "token"), None);
}

#[test]
fn the_first_pair_with_the_key_counts() {
    assert_eq!(query_param_in(Some("a=1&a=2"), "a").as_deref(), Some("1"));
    assert_eq!(query_param_in(Some("a&a=2"), "a").as_deref(), Some("2"));
    assert_eq!(query_param_in(Some("a=1=2&"), "a").as_deref(), Some("1=2"));
    assert_eq!(query_param_in(Some("a="), "a").as_deref(), Some(""));
    assert_eq!(query_param_in(Some("=x"), "").as_deref(), Some("x"));
    assert_eq!(query_param_in(Some("aa=1"), "a"), None);
    assert_eq!(query_param_in(Some(""), "a"), None);
    assert_eq!(query_param_in(None, "a"), None);
}

#[test]
fn query_values_stand_as_they_are() {
    let uri: Uri = "/?token=a%26b+c".parse().unwrap();
    assert_eq!(query_param(&uri, "token").as_deref(), Some("a%26b+c"));
}

fn state(token: Option<&str>) -> AppState {
    AppState {
        token: token.map(str::to_owned),
        notify: false,
    }
}

fn headers(token: Option<&'static [u8]>) -> HeaderMap {
    let mut headers = HeaderMap::new();
    headers.insert("host", HeaderValue::from_static("mac.local"));
    if let Some(token) = token {
        headers.insert("X-Clipd-Token", HeaderValue::from_bytes(token).unwrap());
    }
    headers
}

fn ask(secret: Option<&str>, header: Option<&'static [u8]>, target: &str) -> Result<(), AppError> {
    let uri: Uri = target.parse().unwrap();
    state(secret).authorize(&headers(header), &uri)
}

#[test]
fn without_a_secret_every_request_is_let_through() {
    assert!(ask(None, None, "/health").is_ok());
    assert!(ask(None, Some(b"wrong"), "/health?token=wrong").is_ok());
}

#[test]
fn the_secret_opens_in_the_header_or_the_query() {
    assert!(ask(Some("s3cret"), Some(b"s3cret"), "/health").is_ok());
    assert!(ask(Some("s3cret"), None, "/health?token=s3cret").is_ok());
    assert!(ask(Some("s3cret"), None, "/set_clipboard?text=hi&token=s3cret").is_ok());
    assert!(ask(Some("s3cret"), None, "/health").is_err());
    assert!(ask(Some("s3cret"), Some(b"S3CRET"), "/health").is_err());
    assert!(ask(Some("s3cret"), None, "/health?token=").is_err());
    assert!(ask(Some("s3cret"), None, "/health?token=x&token=s3cret").is_err());
}

#[test]
fn the_header_goes_before_the_query() {
    assert!(ask(Some("s3cret"), Some(b"s3cret"), "/?token=wrong").is_ok());
    assert!(ask(Some("s3cret"), Some(b"wrong"), "/?token=s3cret").is_err());
}

#[test]
fn a_header_that_is_no_text_does_not_count() {
    assert!(ask(Some("s3cret"), Some(b"\xff"), "/?token=s3cret").is_ok());
    assert!(ask(Some("s3cret"), Some(b"\xff"), "/").is_err());
    assert!(ask(Some("a\tb"), Some(b"a\tb"), "/").is_ok());
}

#[test]
fn the_first_header_counts() {
    let mut fields = headers(Some(b"s3cret"));
    fields.append(TOKEN_HEADER, HeaderValue::from_static("wrong"));
    let uri: Uri = "/".parse().unwrap();
    assert!(state(Some("s3cret")).authorize(&fields, &uri).is_ok());
    assert!(state(Some("wrong")).authorize(&fields, &uri).is_err());
}

#[test]
fn a_refused_request_is_told() {
    let Err(err) = ask(Some("s3cret"), None, "/health") else {
        panic!("expected a refusal");
    };
    assert_eq!(err.status, 401);
    assert_eq!(err.message, "bad or missing token");
    let reply = err.into_response();
    assert_eq!(reply.status, 401);
    assert_eq!(reply.content_type, "text/plain; charset=utf-8");
    assert_eq!(reply.body, b"bad or missing token\n");
}

#[test]
fn a_token_is_checked_against_the_secret() {
    assert!(check_token(None, None).is_ok());
    assert!(check_token(None, Some("x")).is_ok());
    assert!(check_token(Some("x"), Some("x")).is_ok());
    assert!(check_token(Some(""), Some("")).is_ok());
    assert!(check_token(Some("x"), None).is_err());
    assert!(check_token(Some("x"), Some("y")).is_err());
}
