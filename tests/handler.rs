use vicuna::{
    default_handler, header, Body, Context, Error, Handler, HostHandler, Middleware, Request, Response,
    WrappingHandler,
};

/// Answers with the request's body, without invoking the handler it wraps.
struct EchoBody;

impl Middleware for EchoBody {
    fn before(&self, request: &Request, _context: &Context) -> Option<Result<Response, Error>> {
        Some(Ok(Response::new(200, request.body.clone())))
    }

    fn after(&self, _request: &Request, _context: &Context, inner: Result<Response, Error>) -> Result<Response, Error> {
        inner
    }
}

/// Answers "Hello, world!", without invoking the handler it wraps.
struct HelloWorld;

impl Middleware for HelloWorld {
    fn before(&self, _request: &Request, _context: &Context) -> Option<Result<Response, Error>> {
        Some(Ok(Response::new(200, Body::Text("Hello, world!".to_string()))))
    }

    fn after(&self, _request: &Request, _context: &Context, inner: Result<Response, Error>) -> Result<Response, Error> {
        inner
    }
}

fn echo_body() -> EchoBody {
    EchoBody
}

fn hello_world() -> HelloWorld {
    HelloWorld
}

fn add_header() -> vicuna::SetHeader {
    header("x-hello", "world")
}

fn handler_resp<H: Handler>(handler: HostHandler<H>) -> Response {
    let request = Request::default();
    let context = Context::default();
    handler.call(request, context).unwrap()
}

#[test]
fn test_wrapping_handler_echo_body() {
    let handler = default_handler().wrap_with(echo_body()).handler();
    let resp = handler_resp(handler);
    assert_eq!(resp.status, 200);
    assert_eq!(resp.body, Body::default());
}

#[test]
fn test_wrapping_handler_hello_world() {
    let handler = default_handler().wrap_with(hello_world()).handler();
    let resp = handler_resp(handler);
    assert_eq!(resp.status, 200);
    assert_eq!(resp.body, Body::Text("Hello, world!".to_string()));
}

#[test]
fn test_wrapping_handler_chaining() {
    let handler = default_handler()
        .wrap_with(hello_world())
        .wrap_with(add_header())
        .handler();
    let resp = handler_resp(handler);
    assert_eq!(resp.status, 200);
    assert_eq!(resp.header("x-hello"), Some("world".to_string()));
    assert_eq!(resp.body, Body::Text("Hello, world!".to_string()));
}

#[test]
fn echo_body_answers_with_the_request_body() {
    let handler = default_handler().wrap_with(echo_body()).handler();
    let mut request = Request::default();
    request.body = Body::Binary(vec![1, 2, 3]);
    let resp = handler.call(request, Context::default()).unwrap();
    assert_eq!(resp.status, 200);
    assert_eq!(resp.body, Body::Binary(vec![1, 2, 3]));
}

/// A base handler that routes on the request's path.
struct Router;

impl Handler for Router {
    fn handle(&self, request: &Request, _context: &Context) -> Result<Response, Error> {
        if request.uri == "/health" {
            Ok(Response::new(200, Body::Text("ok".to_string())))
        } else {
            Ok(Response::new(404, Body::Empty))
        }
    }
}

#[test]
fn user_handler_reads_the_request() {
    let handler = Router.wrap_with(header("x-served-by", "router")).handler();
    let mut request = Request::default();
    request.uri = "/health".to_string();
    let resp = handler.call(request, Context::default()).unwrap();
    assert_eq!(resp.status, 200);
    assert_eq!(resp.body, Body::Text("ok".to_string()));
    assert_eq!(resp.header("x-served-by"), Some("router".to_string()));
    let missing = handler.call(Request::default(), Context::default()).unwrap();
    assert_eq!(missing.status, 404);
}
