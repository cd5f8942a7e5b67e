use vstd::prelude::*;

use crate::error::{Error, ErrorView};
use crate::message::{
    encodable_header_value, set_header_if_encodable, valid_status, Body, Context, Request, Response,
    ResponseView,
};

verus! {

/// What a handler gives back: a response, or the error it failed with.
pub type Outcome = Result<ResponseView, ErrorView>;

/// The view of a handler's result.
pub open spec fn outcome_view(r: Result<Response, Error>) -> Outcome {
    match r {
        Ok(resp) => Ok(resp@),
        Err(e) => Err(e@),
    }
}

/// A handler's result whose response, if any, is well formed.
pub open spec fn outcome_wf(r: Result<Response, Error>) -> bool {
    match r {
        Ok(resp) => resp.wf(),
        Err(_) => true,
    }
}

/// A layer wrapped around a handler.
///
/// On the way in the layer sees the request first, and may answer it itself:
/// the handler it wraps is then never invoked. Otherwise that handler is
/// invoked once, and on the way out the layer may change what it gave.
pub trait Middleware {
    /// The layer's own answer to a request, if it gives one. Nothing is known
    /// of the default, so an impl that is verified states its own.
    closed spec fn spec_before(&self, request: Request, context: Context) -> Option<Outcome> {
        arbitrary()
    }

    /// What the layer makes of `inner`, the result of the handler it wraps.
    /// Nothing is known of the default, so an impl that is verified states its
    /// own.
    closed spec fn spec_after(&self, request: Request, context: Context, inner: Outcome) -> Outcome {
        arbitrary()
    }

    /// Runs on the way in; `Some` answers the request without the inner
    /// handler.
    fn before(&self, request: &Request, context: &Context) -> (r: Option<Result<Response, Error>>)
        ensures
            r.is_some() == self.spec_before(*request, *context).is_some(),
            r.is_some() ==> outcome_wf(r.unwrap()) && outcome_view(r.unwrap()) == self.spec_before(
                *request,
                *context,
            ).unwrap(),
    ;

    /// Runs on the way out, on the result of the inner handler.
    fn after(&self, request: &Request, context: &Context, inner: Result<Response, Error>) -> (r: Result<
        Response,
        Error,
    >)
        requires
            outcome_wf(inner),
        ensures
            outcome_wf(r),
            outcome_view(r) == self.spec_after(*request, *context, outcome_view(inner)),
    ;
}

/// A layer that sets a response header, replacing any value it had; a value
/// that cannot be sent as a header is skipped.
#[derive(Debug)]
pub struct SetHeader {
    pub name: String,
    pub value: String,
}

/// A layer that sets the response status.
#[derive(Debug)]
pub struct SetStatus {
    pub code: u16,
}

/// A layer that sets the response body.
#[derive(Debug)]
pub struct SetBody {
    pub body: Body,
}

/// The response with header `name` set to `value`, if the value can be sent.
pub open spec fn with_header(r: ResponseView, name: Seq<char>, value: Seq<char>) -> ResponseView {
    if encodable_header_value(value) {
        ResponseView { headers: r.headers.insert(name, value), ..r }
    } else {
        r
    }
}

impl Middleware for SetHeader {
    open spec fn spec_before(&self, request: Request, context: Context) -> Option<Outcome> {
        None
    }

    open spec fn spec_after(&self, request: Request, context: Context, inner: Outcome) -> Outcome {
        match inner {
            Ok(r) => Ok(with_header(r, self.name@, self.value@)),
            Err(e) => Err(e),
        }
    }

    fn before(&self, request: &Request, context: &Context) -> (r: Option<Result<Response, Error>>) {
        None
    }

    fn after(&self, request: &Request, context: &Context, inner: Result<Response, Error>) -> (r: Result<
        Response,
        Error,
    >) {
        match inner {
            Ok(mut resp) => {
                set_header_if_encodable(&mut resp, self.name.as_str(), self.value.as_str());
                Ok(resp)
            },
            Err(e) => Err(e),
        }
    }
}

impl Middleware for SetStatus {
    open spec fn spec_before(&self, request: Request, context: Context) -> Option<Outcome> {
        None
    }

    /// A code outside the valid range leaves the response as it is; `status`
    /// never builds such a layer.
    open spec fn spec_after(&self, request: Request, context: Context, inner: Outcome) -> Outcome {
        match inner {
            Ok(r) => Ok(
                if valid_status(self.code) {
                    ResponseView { status: self.code, ..r }
                } else {
                    r
                },
            ),
            Err(e) => Err(e),
        }
    }

    fn before(&self, request: &Request, context: &Context) -> (r: Option<Result<Response, Error>>) {
        None
    }

    fn after(&self, request: &Request, context: &Context, inner: Result<Response, Error>) -> (r: Result<
        Response,
        Error,
    >) {
        match inner {
            Ok(mut resp) => {
                if 100 <= self.code && self.code <= 599 {
                    resp.status = self.code;
                }
                Ok(resp)
            },
            Err(e) => Err(e),
        }
    }
}

impl Middleware for SetBody {
    open spec fn spec_before(&self, request: Request, context: Context) -> Option<Outcome> {
        None
    }

    open spec fn spec_after(&self, request: Request, context: Context, inner: Outcome) -> Outcome {
        match inner {
            Ok(r) => Ok(ResponseView { body: self.body@, ..r }),
            Err(e) => Err(e),
        }
    }

    fn before(&self, request: &Request, context: &Context) -> (r: Option<Result<Response, Error>>) {
        None
    }

    fn after(&self, request: &Request, context: &Context, inner: Result<Response, Error>) -> (r: Result<
        Response,
        Error,
    >) {
        match inner {
            Ok(mut resp) => {
                resp.body = self.body.clone();
                Ok(resp)
            },
            Err(e) => Err(e),
        }
    }
}

/// A layer that sets the response header `name` to `value`, replacing any value
/// it had; a value that cannot be sent as a header is skipped.
pub fn header(name: &str, value: &str) -> (m: SetHeader)
    ensures
        m.name@ == name@,
        m.value@ == value@,
{
    SetHeader { name: String::from_str(name), value: String::from_str(value) }
}

/// A layer that sets the response status to `code`.
pub fn status(code: u16) -> (m: SetStatus)
    requires
        valid_status(code),
    ensures
        m.code == code,
{
    SetStatus { code }
}

/// A layer that sets the response body to `value`.
pub fn body(value: Body) -> (m: SetBody)
    ensures
        m.body@ == value@,
{
    SetBody { body: value }
}

} // verus!
