use vstd::prelude::*;

use crate::error::{Error, HostError};
use crate::message::{default_response, Context, Request, Response, ResponseView};
use crate::middleware::{outcome_view, outcome_wf, Middleware, Outcome};

verus! {

/// A request handler: it answers a request and its context with a response or
/// an error.
pub trait Handler {
    /// What the handler gives to `request` in `context`. Nothing is known of
    /// the default, so an impl that is verified states its own.
    closed spec fn spec_handle(&self, request: Request, context: Context) -> Outcome {
        arbitrary()
    }

    /// Answers `request` in `context`.
    fn handle(&self, request: &Request, context: &Context) -> (r: Result<Response, Error>)
        ensures
            outcome_wf(r),
            outcome_view(r) == self.spec_handle(*request, *context),
    ;
}

/// The handler that ignores its input and answers with status 200, no headers
/// and an empty body.
#[derive(Debug)]
pub struct DefaultHandler;

impl Handler for DefaultHandler {
    open spec fn spec_handle(&self, request: Request, context: Context) -> Outcome {
        Ok(default_response())
    }

    fn handle(&self, request: &Request, context: &Context) -> (r: Result<Response, Error>) {
        Ok(Response::default())
    }
}

/// The default handler, a starting point for a chain of middleware.
pub fn default_handler() -> (h: DefaultHandler)
    ensures
        h == DefaultHandler,
{
    DefaultHandler
}

/// A handler wrapped in a layer of middleware.
#[derive(Debug)]
pub struct Wrapped<H, M> {
    pub inner: H,
    pub middleware: M,
}

impl<H: Handler, M: Middleware> Handler for Wrapped<H, M> {
    /// The layer's own answer if it gives one; otherwise its work on what the
    /// inner handler gives.
    open spec fn spec_handle(&self, request: Request, context: Context) -> Outcome {
        match self.middleware.spec_before(request, context) {
            Some(o) => o,
            None => self.middleware.spec_after(request, context, self.inner.spec_handle(request, context)),
        }
    }

    fn handle(&self, request: &Request, context: &Context) -> (r: Result<Response, Error>) {
        match self.middleware.before(request, context) {
            Some(answer) => answer,
            None => {
                let inner = self.inner.handle(request, context);
                self.middleware.after(request, context, inner)
            },
        }
    }
}

/// A handler whose failures take the form the hosting runtime expects.
#[derive(Debug)]
pub struct HostHandler<H> {
    pub inner: H,
}

/// The host's form of a handler's result.
pub open spec fn host_view(o: Outcome) -> Result<ResponseView, Seq<Seq<char>>> {
    match o {
        Ok(r) => Ok(r),
        Err(e) => Err(e.chain),
    }
}

/// The view of the host's result.
pub open spec fn host_result_view(r: Result<Response, HostError>) -> Result<ResponseView, Seq<Seq<char>>> {
    match r {
        Ok(resp) => Ok(resp@),
        Err(e) => Err(e@),
    }
}

/// Building a chain: wrapping a handler in middleware, and handing it to the
/// hosting runtime.
pub trait WrappingHandler: Sized {
    /// The handler wrapped in `middleware`, which becomes the outermost layer.
    fn wrap_with<M: Middleware>(self, middleware: M) -> (h: Wrapped<Self, M>)
        ensures
            h.inner == self,
            h.middleware == middleware,
    ;

    /// The handler with its failures put in the form the hosting runtime takes.
    fn handler(self) -> (h: HostHandler<Self>)
        ensures
            h.inner == self,
    ;
}

impl<H: Handler> WrappingHandler for H {
    fn wrap_with<M: Middleware>(self, middleware: M) -> (h: Wrapped<Self, M>) {
        Wrapped { inner: self, middleware }
    }

    fn handler(self) -> (h: HostHandler<Self>) {
        HostHandler { inner: self }
    }
}

impl<H: Handler> HostHandler<H> {
    /// Invokes the inner handler; a response is passed on as it is, a failure
    /// becomes a host error with the same messages and causes.
    pub fn call(&self, request: Request, context: Context) -> (r: Result<Response, HostError>)
        ensures
            r is Ok ==> r->Ok_0.wf(),
            host_result_view(r) == host_view(self.inner.spec_handle(request, context)),
    {
        match self.inner.handle(&request, &context) {
            Ok(resp) => Ok(resp),
            Err(e) => Err(HostError::from_error(&e)),
        }
    }
}

} // verus!
