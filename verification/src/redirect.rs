//! The plain-HTTP side of the server: every request is answered with a
//! permanent redirect to the same path on the HTTPS host.

use vstd::prelude::*;
use vstd::string::StringExecFns;

use crate::errors::error_emergency_500;
use crate::response::{Response, STATUS_INTERNAL_SERVER_ERROR, STATUS_PERMANENT_REDIRECT};

verus! {

/// The HTTPS address of a path on the given host.
pub fn https_location(host: &String, path_and_query: &String) -> (r: String)
    ensures
        r@ == "https://"@ + host@ + path_and_query@,
{
    String::from_str("https://").concat(host.as_str()).concat(path_and_query.as_str())
}

/// The catch-all answer of the plain-HTTP server: a permanent redirect
/// to the same path and query on the HTTPS host; when the request's path
/// cannot be read, the fixed plain-text 500 is returned instead.
pub fn redirect(host: &String, path_and_query: Option<String>) -> (r: Response)
    ensures
        path_and_query matches Some(p) ==> {
            &&& r.status == STATUS_PERMANENT_REDIRECT
            &&& r.location matches Some(l) && l@ == "https://"@ + host@ + p@
            &&& r.cookie is None
            &&& r.body@ == Seq::<char>::empty()
        },
        path_and_query is None ==> {
            &&& r.status == STATUS_INTERNAL_SERVER_ERROR
            &&& r.location is None
            &&& r.cookie is None
            &&& r.body@ == "500 Internal Server Error"@
        },
{
    match path_and_query {
        Some(p) => Response::redirect_to(STATUS_PERMANENT_REDIRECT, https_location(host, &p)),
        None => error_emergency_500(),
    }
}

} // verus!
