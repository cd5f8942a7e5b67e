use vicuna::{
    body, default_handler, header, status, Body, Context, Handler, HostHandler, Request, Response, SetStatus,
    WrappingHandler,
};

fn handler_resp<H: Handler>(handler: HostHandler<H>) -> Response {
    let request = Request::default();
    let context = Context::default();
    handler.call(request, context).unwrap()
}

#[test]
fn test_header() {
    let handler = default_handler().wrap_with(header("x-foo", "bar")).handler();
    let resp = handler_resp(handler);
    assert_eq!(resp.header("x-foo"), Some("bar".to_string()));
}

#[test]
fn test_status() {
    let handler = default_handler().wrap_with(status(201)).handler();
    let resp = handler_resp(handler);
    assert_eq!(resp.status, 201);
}

#[test]
fn test_body() {
    let handler = default_handler().wrap_with(body(Body::Text("foo".to_string()))).handler();
    let resp = handler_resp(handler);
    assert_eq!(resp.body, Body::Text("foo".to_string()));
}

#[test]
fn header_with_unencodable_value_is_skipped() {
    let handler = default_handler()
        .wrap_with(header("x-foo", "bar"))
        .wrap_with(header("x-bad", "line\nbreak"))
        .wrap_with(header("x-del", "a\u{7f}b"))
        .handler();
    let resp = handler_resp(handler);
    assert_eq!(resp.header("x-foo"), Some("bar".to_string()));
    assert_eq!(resp.header("x-bad"), None);
    assert_eq!(resp.header("x-del"), None);
    assert_eq!(resp.headers.len(), 1);
}

#[test]
fn header_accepts_tab_and_non_ascii_values() {
    let handler = default_handler()
        .wrap_with(header("x-tab", "a\tb"))
        .wrap_with(header("x-accent", "caf\u{e9}"))
        .handler();
    let resp = handler_resp(handler);
    assert_eq!(resp.header("x-tab"), Some("a\tb".to_string()));
    assert_eq!(resp.header("x-accent"), Some("caf\u{e9}".to_string()));
}

#[test]
fn headers_with_different_names_are_both_kept() {
    let handler = default_handler()
        .wrap_with(header("x-one", "1"))
        .wrap_with(header("x-two", "2"))
        .handler();
    let resp = handler_resp(handler);
    assert_eq!(resp.header("x-one"), Some("1".to_string()));
    assert_eq!(resp.header("x-two"), Some("2".to_string()));
    assert_eq!(resp.headers.len(), 2);
}

#[test]
fn header_applied_last_wins() {
    let handler = default_handler()
        .wrap_with(header("x-same", "first"))
        .wrap_with(header("x-same", "last"))
        .handler();
    let resp = handler_resp(handler);
    assert_eq!(resp.header("x-same"), Some("last".to_string()));
    assert_eq!(resp.headers.len(), 1);
}

#[test]
fn body_then_header_scenario() {
    let handler = default_handler()
        .wrap_with(body(Body::Text("Hello, world!".to_string())))
        .wrap_with(header("x-hello", "world"))
        .handler();
    let resp = handler_resp(handler);
    assert_eq!(resp.status, 200);
    assert_eq!(resp.body, Body::Text("Hello, world!".to_string()));
    assert_eq!(resp.header("x-hello"), Some("world".to_string()));
    assert_eq!(resp.headers.len(), 1);
}

#[test]
fn outer_status_overrides_inner_status() {
    let handler = default_handler().wrap_with(status(404)).wrap_with(status(201)).handler();
    let resp = handler_resp(handler);
    assert_eq!(resp.status, 201);
}

#[test]
fn status_layer_with_invalid_code_leaves_the_status() {
    let handler = default_handler().wrap_with(SetStatus { code: 700 }).handler();
    let resp = handler_resp(handler);
    assert_eq!(resp.status, 200);
}

#[test]
fn response_well_formedness() {
    let mut resp = Response::new(200, Body::Empty);
    assert!(resp.is_well_formed());
    resp.headers.push(vicuna::HeaderField { name: "x-a".to_string(), value: "1".to_string() });
    resp.headers.push(vicuna::HeaderField { name: "x-a".to_string(), value: "2".to_string() });
    assert!(!resp.is_well_formed());
    let mut bad_status = Response::new(200, Body::Empty);
    bad_status.status = 600;
    assert!(!bad_status.is_well_formed());
}
