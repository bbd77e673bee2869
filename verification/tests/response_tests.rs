use helloweb::handler::{FileHandler, RequestHandler, Resource};
use helloweb::listing::render_listing;
use helloweb::request::{Method, Request};
use helloweb::response::Response;
use helloweb::status::Status;

#[test]
fn status_codes_are_fixed() {
    assert_eq!(Status::Okay.code(), 200);
    assert_eq!(Status::BadRequest.code(), 400);
    assert_eq!(Status::NotFound.code(), 404);
    assert_eq!(Status::BadMethod.code(), 405);
    assert_eq!(Status::ServerError.code(), 500);
}

#[test]
fn status_from_code_round_trips() {
    let all = [
        Status::Okay,
        Status::BadRequest,
        Status::NotFound,
        Status::BadMethod,
        Status::ServerError,
    ];
    for s in all {
        assert_eq!(Status::from_code(s.code()), Some(s));
    }
    assert_eq!(Status::from_code(201), None);
    assert_eq!(Status::from_code(0), None);
}

#[test]
fn wire_round_trip_recovers_the_code() {
    let all = [
        Status::Okay,
        Status::BadRequest,
        Status::NotFound,
        Status::BadMethod,
        Status::ServerError,
    ];
    for s in all {
        let wire = Response::new(s, None).serialize();
        let code: u16 = wire.split(' ').nth(1).unwrap().parse().unwrap();
        assert_eq!(Status::from_code(code), Some(s));
    }
    let wire = Response::new(Status::Okay, Some(String::from("a body"))).serialize();
    let code: u16 = wire.split(' ').nth(1).unwrap().parse().unwrap();
    assert_eq!(code, 200);
}

#[test]
fn existing_file_is_served_verbatim() {
    let req = Request::get("/README.txt");
    let resp = FileHandler::new().handle(req, Resource::FileContent(String::from("hello\n")));
    assert_eq!(resp.status_code, Status::Okay);
    assert_eq!(resp.serialize(), "HTTP/1.1 200 ERROR\r\n\r\nhello\n");
}

#[test]
fn missing_target_is_not_found() {
    let req = Request::get("/no-such-file");
    let resp = FileHandler::new().handle(req, Resource::Absent);
    assert_eq!(resp.status_code, Status::NotFound);
    assert_eq!(resp.serialize(), "HTTP/1.1 404 ERROR\r\n\r\n404");
}

#[test]
fn post_request_is_bad_method() {
    let err = Request::parse("POST /x").unwrap_err();
    let resp = Response::for_error(err);
    assert_eq!(resp.status_code, Status::BadMethod);
    assert_eq!(resp.serialize(), "HTTP/1.1 405 ERROR\r\n\r\n405");
}

#[test]
fn get_without_target_is_bad_request() {
    let err = Request::parse("GET").unwrap_err();
    let resp = Response::for_error(err);
    assert_eq!(resp.status_code, Status::BadRequest);
    assert_eq!(resp.serialize(), "HTTP/1.1 400 ERROR\r\n\r\n400");
}

#[test]
fn handler_rejects_non_get_methods() {
    let req = Request { method: Method::Post, url: Some(String::from("/x")), body: None };
    let resp = FileHandler::new().handle(req, Resource::Absent);
    assert_eq!(resp.status_code, Status::BadMethod);
    assert!(resp.body.is_none());
}

#[test]
fn handler_rejects_get_without_target() {
    let req = Request { method: Method::Get, url: None, body: None };
    let resp = FileHandler::new().handle(req, Resource::Absent);
    assert_eq!(resp.status_code, Status::BadRequest);
    assert!(resp.body.is_none());
}

#[test]
fn unreadable_file_is_server_error() {
    let req = Request::get("/gone");
    let resp = FileHandler::new().handle(req, Resource::FileError);
    assert_eq!(resp.status_code, Status::ServerError);
    assert_eq!(resp.serialize(), "HTTP/1.1 500 ERROR\r\n\r\n500");
}

#[test]
fn unreadable_directory_is_server_error() {
    let req = Request::get("/dir");
    let resp = FileHandler::new().handle(req, Resource::DirectoryError);
    assert_eq!(resp.status_code, Status::ServerError);
    assert_eq!(resp.serialize(), "HTTP/1.1 500 ERROR\r\n\r\n500");
}

#[test]
fn directory_listing_is_rendered() {
    let req = Request::get("/dir");
    let entries = vec![String::from(".//dir/a.txt"), String::from(".//dir/b.txt")];
    let resp = FileHandler::new().handle(req, Resource::DirectoryEntries(entries));
    assert_eq!(resp.status_code, Status::Okay);
    let body = resp.body.clone().unwrap();
    assert!(body.contains("<a href='.//dir/..'>&lt;- parent directory</a>"));
    assert!(body.contains("<a href='.//dir/a.txt'>.//dir/a.txt</a><br/>"));
    assert!(body.contains("<a href='.//dir/b.txt'>.//dir/b.txt</a><br/>"));
    let expected = "<h1>Index of .//dir</h1>\n<hr/><a href='.//dir/..'>&lt;- parent directory</a><hr/>\n<a href='.//dir/a.txt'>.//dir/a.txt</a><br/><a href='.//dir/b.txt'>.//dir/b.txt</a><br/>\n<hr/><i>helloweb v0.1</i>";
    assert_eq!(body, expected);
}

#[test]
fn empty_directory_lists_only_frame() {
    let rendered = render_listing("./empty", &Vec::new());
    let expected = "<h1>Index of ./empty</h1>\n<hr/><a href='./empty/..'>&lt;- parent directory</a><hr/>\n\n<hr/><i>helloweb v0.1</i>";
    assert_eq!(rendered, expected);
}

#[test]
fn response_new_keeps_status_and_body() {
    let resp = Response::new(Status::Okay, Some(String::from("x")));
    assert_eq!(resp.status_code, Status::Okay);
    assert_eq!(resp.body.as_deref(), Some("x"));
    let resp = Response::new(Status::NotFound, None);
    assert_eq!(resp.status_code, Status::NotFound);
    assert!(resp.body.is_none());
}
