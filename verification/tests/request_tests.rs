use helloweb::request::{Method, Request, RequestError};

#[test]
fn get_builds_a_get_request() {
    let req = Request::get("/index.html");
    assert_eq!(req.method, Method::Get);
    assert_eq!(req.url.as_deref(), Some("/index.html"));
    assert!(req.body.is_none());
}

#[test]
fn parse_simple_get() {
    let req = Request::parse("GET / HTTP/1.1").unwrap();
    assert_eq!(req.method, Method::Get);
    assert_eq!(req.url.as_deref(), Some("/"));
    assert!(req.body.is_none());
}

#[test]
fn parse_takes_second_token_as_target() {
    let req = Request::parse("GET /README.txt").unwrap();
    assert_eq!(req.url.as_deref(), Some("/README.txt"));
}

#[test]
fn parse_post_is_bad_method() {
    assert_eq!(Request::parse("POST /x").unwrap_err(), RequestError::BadMethod);
}

#[test]
fn parse_other_methods_are_bad_method() {
    assert_eq!(Request::parse("PUT /x").unwrap_err(), RequestError::BadMethod);
    assert_eq!(Request::parse("HEAD /x").unwrap_err(), RequestError::BadMethod);
    assert_eq!(Request::parse("DELETE /x").unwrap_err(), RequestError::BadMethod);
}

#[test]
fn parse_lone_get_is_bad_request() {
    assert_eq!(Request::parse("GET").unwrap_err(), RequestError::BadRequest);
}

#[test]
fn parse_empty_text_is_bad_method() {
    assert_eq!(Request::parse("").unwrap_err(), RequestError::BadMethod);
}

#[test]
fn parse_get_prefix_is_not_get() {
    assert_eq!(Request::parse("GETX /y").unwrap_err(), RequestError::BadMethod);
    assert_eq!(Request::parse("get /y").unwrap_err(), RequestError::BadMethod);
}

#[test]
fn parse_double_space_gives_empty_target() {
    let req = Request::parse("GET  /x").unwrap();
    assert_eq!(req.url.as_deref(), Some(""));
}

#[test]
fn parse_trailing_space_gives_empty_target() {
    let req = Request::parse("GET ").unwrap();
    assert_eq!(req.url.as_deref(), Some(""));
}
