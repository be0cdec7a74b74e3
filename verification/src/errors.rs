//! The library's error type and the error funnel: every failure inside a
//! handler is turned into a well-formed response here.  A distinguished
//! sentinel error is answered with the blocked-region page (401); every
//! other error with the generic error page (500); and when rendering the
//! error page itself fails, a fixed plain-text 500 body is returned, so a
//! response can always be produced.

use vstd::prelude::*;
use vstd::string::*;

use crate::render::render_status_page;
use crate::response::{
    Response, STATUS_INTERNAL_SERVER_ERROR, STATUS_NOT_FOUND, STATUS_UNAUTHORIZED,
};

verus! {

/// An error carried through the handlers: a plain message string.
#[derive(Debug, Clone)]
pub struct MyError {
    pub(crate) details: String,
}

impl View for MyError {
    type V = Seq<char>;

    closed spec fn view(&self) -> Seq<char> {
        self.details@
    }
}

/// Holds of the sentinel error that asks for the blocked-region page
/// instead of the generic 500 page.
pub open spec fn spec_is_blocked(e: MyError) -> bool {
    e@ == "terrorrussia"@
}

impl MyError {
    /// An error with the given message.
    pub fn new(details: String) -> (r: MyError)
        ensures
            r@ == details@,
    {
        MyError { details }
    }

    /// The sentinel error for the blocked-region condition.
    pub fn new_russia() -> (r: MyError)
        ensures
            r@ == "terrorrussia"@,
            spec_is_blocked(r),
    {
        MyError { details: String::from_str("terrorrussia") }
    }

    /// The error's message.
    pub fn details(&self) -> (r: &String)
        ensures
            r@ == self@,
    {
        &self.details
    }

    /// Whether this is the blocked-region sentinel.
    pub fn is_blocked(&self) -> (r: bool)
        ensures
            r == spec_is_blocked(*self),
    {
        let sentinel = String::from_str("terrorrussia");
        self.details == sentinel
    }
}

/// The fixed last-resort response: a plain-text 500 with no template
/// dependency, producible even when rendering is broken.
pub fn error_emergency_500() -> (r: Response)
    ensures
        r.status == STATUS_INTERNAL_SERVER_ERROR,
        r.location is None,
        r.cookie is None,
        r.body@ == "500 Internal Server Error"@,
{
    Response::with_body(
        STATUS_INTERNAL_SERVER_ERROR,
        String::from_str("500 Internal Server Error"),
    )
}

/// Turns the outcome of rendering the generic error page into the 500
/// response: the rendered body when rendering succeeded, the fixed
/// plain-text body when it failed.
pub fn error_500_from(rendered: Result<String, MyError>) -> (r: Response)
    ensures
        r.status == STATUS_INTERNAL_SERVER_ERROR,
        r.location is None,
        r.cookie is None,
        rendered matches Ok(body) ==> r.body@ == body@,
        rendered is Err ==> r.body@ == "500 Internal Server Error"@,
{
    match rendered {
        Ok(body) => Response::with_body(STATUS_INTERNAL_SERVER_ERROR, body),
        Err(_) => error_emergency_500(),
    }
}

/// Turns the outcome of rendering a status page into a response with the
/// given status, or passes the rendering failure on to the caller.
pub fn page_from(status: u16, rendered: Result<String, MyError>) -> (r: Result<Response, MyError>)
    ensures
        rendered matches Ok(body) ==> r matches Ok(resp) && resp.status == status
            && resp.location is None && resp.cookie is None && resp.body@ == body@,
        rendered matches Err(e) ==> r matches Err(e2) && e2@ == e@,
{
    match rendered {
        Ok(body) => Ok(Response::with_body(status, body)),
        Err(e) => Err(e),
    }
}

/// The generic 500 response: renders the error page with the caller's
/// authorization status; if that rendering fails, falls back to the fixed
/// plain-text body.
pub fn error_500(tera: &tera::Tera, authorized: bool) -> (r: Response)
    ensures
        r.status == STATUS_INTERNAL_SERVER_ERROR,
        r.location is None,
        r.cookie is None,
{
    error_500_from(render_status_page(tera, "500.html", authorized))
}

/// The blocked-region 401 response; when its page cannot be rendered, the
/// generic 500 path answers instead.
pub fn error_401_russia(tera: &tera::Tera, authorized: bool) -> (r: Response)
    ensures
        r.status == STATUS_UNAUTHORIZED || r.status == STATUS_INTERNAL_SERVER_ERROR,
        r.location is None,
        r.cookie is None,
{
    match page_from(STATUS_UNAUTHORIZED, render_status_page(tera, "401_russia.html", authorized)) {
        Ok(resp) => resp,
        Err(_) => error_500(tera, authorized),
    }
}

/// The error funnel: answers the blocked-region sentinel with the 401
/// page and every other error with the generic 500 page.
pub fn funnel(tera: &tera::Tera, authorized: bool, e: &MyError) -> (r: Response)
    ensures
        r.location is None,
        r.cookie is None,
        spec_is_blocked(*e) ==> (r.status == STATUS_UNAUTHORIZED
            || r.status == STATUS_INTERNAL_SERVER_ERROR),
        !spec_is_blocked(*e) ==> r.status == STATUS_INTERNAL_SERVER_ERROR,
{
    if e.is_blocked() {
        error_401_russia(tera, authorized)
    } else {
        error_500(tera, authorized)
    }
}

/// The 404 response: renders the not-found page with the caller's
/// authorization status; a rendering failure goes through the funnel.
pub fn error_404(tera: &tera::Tera, authorized: bool) -> (r: Response)
    ensures
        r.location is None,
        r.cookie is None,
        r.status == STATUS_NOT_FOUND || r.status == STATUS_UNAUTHORIZED
            || r.status == STATUS_INTERNAL_SERVER_ERROR,
{
    match page_from(STATUS_NOT_FOUND, render_status_page(tera, "404.html", authorized)) {
        Ok(resp) => resp,
        Err(e) => funnel(tera, authorized, &e),
    }
}

} // verus!
