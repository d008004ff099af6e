//! What holds of services and of the hooks around them.

use vstd::prelude::*;

use super::{HookedService, ServerHook, Service, NO_SLAVE};
use crate::frame::{Exception, Request, RequestView, Response, ResponseView};

verus! {

/// The view of what a service returns is the view of the response, or the exception.
pub proof fn law_outcome(r: Result<Response, Exception>)
    ensures
        match r {
            Ok(rsp) => super::outcome(r) == Ok::<ResponseView, Exception>(rsp@),
            Err(e) => super::outcome(r) == Err::<ResponseView, Exception>(e),
        },
        NO_SLAVE == 255,
{
}

/// A request without a list always fits in memory, and one with a list when the list
/// does.
pub proof fn law_what_fits_in_memory(request: RequestView)
    ensures
        request.list_len() == match request {
            RequestView::WriteMultipleCoils(_, v) => v.len(),
            RequestView::WriteMultipleRegisters(_, v) => v.len(),
            RequestView::ReadWriteMultipleRegisters(_, _, _, v) => v.len(),
            _ => 0,
        },
        request.fits_memory() == match request {
            RequestView::WriteMultipleCoils(_, v) => v.len() <= isize::MAX,
            RequestView::WriteMultipleRegisters(_, v) => v.len() <= isize::MAX,
            RequestView::ReadWriteMultipleRegisters(_, _, _, v) => v.len() <= isize::MAX,
            _ => true,
        },
{
}

/// Where the hook answers a request itself, its answer is the result, and the service
/// behind it is left alone.
pub proof fn law_hook_answers_first<S: Service, H: ServerHook>(
    before: HookedService<S, H>,
    slave: u8,
    request: RequestView,
    after: HookedService<S, H>,
    result: Result<ResponseView, Exception>,
    answer: ResponseView,
)
    requires
        HookedService::<S, H>::serves(before, slave, request, after, result),
        forall|req: Request<'_>, early: Option<Response>|
            req@ == request && #[trigger] call_ensures(
                H::before_call,
                (&before.hook, slave, &req),
                early,
            ) ==> early is Some && early->Some_0@ == answer,
    ensures
        result == Ok::<ResponseView, Exception>(answer),
        after.inner == before.inner,
        after.hook == before.hook,
{
}

/// Where the hook has no answer of its own, the service behind it serves the request,
/// and the result is what the hook makes of the service's.
pub proof fn law_service_answers_behind_the_hook<S: Service, H: ServerHook>(
    before: HookedService<S, H>,
    slave: u8,
    request: RequestView,
    after: HookedService<S, H>,
    result: Result<ResponseView, Exception>,
)
    requires
        HookedService::<S, H>::serves(before, slave, request, after, result),
        forall|req: Request<'_>, early: Option<Response>|
            req@ == request && #[trigger] call_ensures(
                H::before_call,
                (&before.hook, slave, &req),
                early,
            ) ==> early is None,
    ensures
        after.hook == before.hook,
        exists|inner: Result<Response, Exception>, last: Result<Response, Exception>|
            {
                &&& S::serves(before.inner, slave, request, after.inner, super::outcome(inner))
                &&& #[trigger] call_ensures(H::after_call, (&before.hook, slave, inner), last)
                &&& result == super::outcome(last)
            },
{
}

/// A hook that has no answer of its own and passes results on leaves no trace: the
/// result is the service's.
pub proof fn law_silent_hook_changes_nothing<S: Service, H: ServerHook>(
    before: HookedService<S, H>,
    slave: u8,
    request: RequestView,
    after: HookedService<S, H>,
    result: Result<ResponseView, Exception>,
)
    requires
        HookedService::<S, H>::serves(before, slave, request, after, result),
        forall|req: Request<'_>, early: Option<Response>|
            req@ == request && #[trigger] call_ensures(
                H::before_call,
                (&before.hook, slave, &req),
                early,
            ) ==> early is None,
        forall|inner: Result<Response, Exception>, last: Result<Response, Exception>| #[trigger]
            call_ensures(H::after_call, (&before.hook, slave, inner), last) ==> last == inner,
    ensures
        S::serves(before.inner, slave, request, after.inner, result),
{
}

} // verus!
