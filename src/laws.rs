use vstd::prelude::*;

use crate::error::ErrorView;
use crate::handler::{host_view, DefaultHandler, Handler, Wrapped};
use crate::message::{default_response, encodable_header_value, Context, Request, ResponseView};
use crate::middleware::{Middleware, Outcome, SetBody, SetHeader, SetStatus};

verus! {

/// The default handler, invoked directly, gives the default response to every
/// request and never fails.
pub proof fn lemma_default_handler_identity(h: DefaultHandler, request: Request, context: Context)
    ensures
        h.spec_handle(request, context) == Ok::<ResponseView, ErrorView>(default_response()),
{
}

/// With `a` applied first and `b` second: `b` sees the request first, and its
/// own answer, if it gives one, is the result; otherwise `a` sees it, and its
/// own answer, if any, goes out through `b`; otherwise the base handler is
/// invoked, and what it gives goes out through `a` and then through `b`.
pub proof fn lemma_onion_order<H: Handler, A: Middleware, B: Middleware>(
    h: Wrapped<Wrapped<H, A>, B>,
    request: Request,
    context: Context,
)
    ensures
        ({
            let a = h.inner.middleware;
            let b = h.middleware;
            let base = h.inner.inner.spec_handle(request, context);
            h.spec_handle(request, context) == match b.spec_before(request, context) {
                Some(o) => o,
                None => b.spec_after(
                    request,
                    context,
                    match a.spec_before(request, context) {
                        Some(o) => o,
                        None => a.spec_after(request, context, base),
                    },
                ),
            }
        }),
{
}

/// When neither layer answers on its own, the base handler's result goes out
/// through the inner layer first and the outer layer last.
pub proof fn lemma_onion_order_pass_through<H: Handler, A: Middleware, B: Middleware>(
    h: Wrapped<Wrapped<H, A>, B>,
    request: Request,
    context: Context,
)
    requires
        h.inner.middleware.spec_before(request, context) is None,
        h.middleware.spec_before(request, context) is None,
    ensures
        h.spec_handle(request, context) == h.middleware.spec_after(
            request,
            context,
            h.inner.middleware.spec_after(request, context, h.inner.inner.spec_handle(request, context)),
        ),
{
}

/// A layer that answers on its own gives the same result whatever handler it
/// wraps: the inner handler, and all it wraps, plays no part.
pub proof fn lemma_short_circuit<H: Handler, G: Handler, M: Middleware>(
    h: Wrapped<H, M>,
    g: Wrapped<G, M>,
    request: Request,
    context: Context,
)
    requires
        h.middleware == g.middleware,
        h.middleware.spec_before(request, context) is Some,
    ensures
        h.spec_handle(request, context) == g.spec_handle(request, context),
        h.spec_handle(request, context) == h.middleware.spec_before(request, context)->Some_0,
{
}

/// A layer that does not answer on its own and passes every failure on
/// unchanged.
pub open spec fn passes_failures<M: Middleware>(m: M, request: Request, context: Context) -> bool {
    &&& m.spec_before(request, context) is None
    &&& forall|e: ErrorView| #[trigger] m.spec_after(request, context, Err(e)) == Err::<ResponseView, ErrorView>(e)
}

/// The header, status and body layers pass failures on unchanged.
pub proof fn lemma_builtin_layers_pass_failures(
    h: SetHeader,
    s: SetStatus,
    b: SetBody,
    request: Request,
    context: Context,
)
    ensures
        passes_failures(h, request, context),
        passes_failures(s, request, context),
        passes_failures(b, request, context),
{
}

/// A failure of the inner handler comes out of a layer that passes failures
/// on as the same failure, and reaches the host with the same messages and
/// causes. As `H` may itself be wrapped, this holds through any number of
/// such layers.
pub proof fn lemma_failure_propagates<H: Handler, M: Middleware>(
    h: Wrapped<H, M>,
    e: ErrorView,
    request: Request,
    context: Context,
)
    requires
        h.inner.spec_handle(request, context) == Err::<ResponseView, ErrorView>(e),
        passes_failures(h.middleware, request, context),
    ensures
        h.spec_handle(request, context) == Err::<ResponseView, ErrorView>(e),
        host_view(h.spec_handle(request, context)) == Err::<ResponseView, Seq<Seq<char>>>(e.chain),
{
    assert(h.middleware.spec_after(request, context, Err(e)) == Err::<ResponseView, ErrorView>(e));
}

/// Two header layers both take effect: with different names the response has
/// both headers, with the same name the value of the outer layer, applied last,
/// is the one kept.
pub proof fn lemma_headers_compose<H: Handler>(
    h: Wrapped<Wrapped<H, SetHeader>, SetHeader>,
    base: ResponseView,
    request: Request,
    context: Context,
)
    requires
        h.inner.inner.spec_handle(request, context) == Ok::<ResponseView, ErrorView>(base),
        encodable_header_value(h.inner.middleware.value@),
        encodable_header_value(h.middleware.value@),
    ensures
        ({
            let (n1, v1) = (h.inner.middleware.name@, h.inner.middleware.value@);
            let (n2, v2) = (h.middleware.name@, h.middleware.value@);
            let o: Outcome = h.spec_handle(request, context);
            &&& o is Ok
            &&& o->Ok_0.headers == base.headers.insert(n1, v1).insert(n2, v2)
            &&& n1 != n2 ==> o->Ok_0.headers[n1] == v1 && o->Ok_0.headers[n2] == v2
            &&& n1 == n2 ==> o->Ok_0.headers[n1] == v2
        }),
{
}

} // verus!
