//! Server side: services that answer requests, and hooks around them.

use vstd::prelude::*;

use crate::frame::{Exception, Request, RequestView, Response, ResponseView};

pub mod laws;

verus! {

/// The slave address that hooks see when a request came without one. It is
/// outside the range of slave addresses.
pub const NO_SLAVE: u8 = 0xFF;

/// The outcome of a service call, with the response as its view.
pub open spec fn outcome(r: Result<Response, Exception>) -> Result<ResponseView, Exception> {
    match r {
        Ok(rsp) => Ok(rsp@),
        Err(e) => Err(e),
    }
}

impl RequestView {
    /// How many values the request writes as a list.
    pub open spec fn list_len(self) -> nat {
        match self {
            RequestView::WriteMultipleCoils(_, v) => v.len(),
            RequestView::WriteMultipleRegisters(_, v) => v.len(),
            RequestView::ReadWriteMultipleRegisters(_, _, _, v) => v.len(),
            _ => 0,
        }
    }

    /// No list in memory is longer than `isize::MAX`.
    pub open spec fn fits_memory(self) -> bool {
        self.list_len() <= isize::MAX
    }
}

/// Something that answers Modbus requests.
///
/// A service is called with the slave address of the request, or with
/// [`NO_SLAVE`] where there is none.
pub trait Service: Sized {
    /// Whether a service in state `before` may answer the request with
    /// `result`, and be in state `after` then.
    spec fn serves(
        before: Self,
        slave: u8,
        request: RequestView,
        after: Self,
        result: Result<ResponseView, Exception>,
    ) -> bool;

    fn call(&mut self, slave: u8, request: Request<'_>) -> (r: Result<Response, Exception>)
        requires
            request@.fits_memory(),
        ensures
            Self::serves(*old(self), slave, request@, *final(self), outcome(r)),
    ;
}

/// Code that runs before and after a service. Both methods do nothing unless
/// they are implemented.
pub trait ServerHook {
    /// Called before the service. A response given here is the answer, and the
    /// service is not called.
    fn before_call(&self, slave: u8, request: &Request<'_>) -> (r: Option<Response>)
        default_ensures
            r is None,
    {
        None
    }

    /// Called with the result of the service. What it returns is the answer.
    fn after_call(&self, slave: u8, result: Result<Response, Exception>) -> (r: Result<
        Response,
        Exception,
    >)
        default_ensures
            r == result,
    {
        result
    }
}

/// A service with a hook around it.
pub struct HookedService<S, H> {
    pub inner: S,
    pub hook: H,
}

impl<S, H> HookedService<S, H> {
    /// Put a hook around a service.
    pub fn new(inner: S, hook: H) -> (r: Self)
        ensures
            r.inner == inner,
            r.hook == hook,
    {
        HookedService { inner, hook }
    }
}

impl<S: Clone, H: Clone> Clone for HookedService<S, H> {
    fn clone(&self) -> (r: Self)
        ensures
            cloned(self.inner, r.inner),
            cloned(self.hook, r.hook),
    {
        HookedService { inner: self.inner.clone(), hook: self.hook.clone() }
    }
}

impl<S: Service, H: ServerHook> Service for HookedService<S, H> {
    /// The hook is asked first. Where it answers, that is the answer, and the
    /// service is as it was. Otherwise the service answers, and what the hook
    /// makes of that is the answer.
    open spec fn serves(
        before: Self,
        slave: u8,
        request: RequestView,
        after: Self,
        result: Result<ResponseView, Exception>,
    ) -> bool {
        &&& after.hook == before.hook
        &&& exists|req: Request<'_>, early: Option<Response>|
            {
                &&& req@ == request
                &&& #[trigger] call_ensures(H::before_call, (&before.hook, slave, &req), early)
                &&& match early {
                    Some(rsp) => {
                        &&& after.inner == before.inner
                        &&& result == Ok::<ResponseView, Exception>(rsp@)
                    },
                    None => exists|
                        inner: Result<Response, Exception>,
                        last: Result<Response, Exception>,
                    |
                        {
                            &&& S::serves(before.inner, slave, request, after.inner, outcome(inner))
                            &&& #[trigger] call_ensures(
                                H::after_call,
                                (&before.hook, slave, inner),
                                last,
                            )
                            &&& result == outcome(last)
                        },
                }
            }
    }

    fn call(&mut self, slave: u8, request: Request<'_>) -> (r: Result<Response, Exception>) {
        let early = self.hook.before_call(slave, &request);
        if let Some(rsp) = early {
            return Ok(rsp);
        }
        let result = self.inner.call(slave, request);
        self.hook.after_call(slave, result)
    }
}

} // verus!
