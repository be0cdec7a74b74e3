//! The library's model of an outgoing HTTP response: a status code, an
//! optional `Location` header, at most one cookie to set, and a body.
//! The web layer turns a `Response` into a real framework response.

use vstd::prelude::*;

verus! {

/// HTTP status "OK".
pub const STATUS_OK: u16 = 200;

/// HTTP status "See Other", used for the login and logout redirects.
pub const STATUS_SEE_OTHER: u16 = 303;

/// HTTP status "Permanent Redirect", used for the canonical-path redirects.
pub const STATUS_PERMANENT_REDIRECT: u16 = 308;

/// HTTP status "Unauthorized", used for the blocked-region page.
pub const STATUS_UNAUTHORIZED: u16 = 401;

/// HTTP status "Not Found".
pub const STATUS_NOT_FOUND: u16 = 404;

/// HTTP status "Internal Server Error".
pub const STATUS_INTERNAL_SERVER_ERROR: u16 = 500;

/// A cookie to be attached to an outgoing response: a name and a value.
#[derive(Debug, Clone, PartialEq)]
pub struct CookieSpec {
    pub name: String,
    pub value: String,
}

/// An outgoing response, reduced to the fields this library decides on.
#[derive(Debug, Clone, PartialEq)]
pub struct Response {
    pub status: u16,
    pub location: Option<String>,
    pub cookie: Option<CookieSpec>,
    pub body: String,
}

impl Response {
    /// A response with the given status and body, no `Location` header and
    /// no cookie.
    pub fn with_body(status: u16, body: String) -> (r: Response)
        ensures
            r.status == status,
            r.location is None,
            r.cookie is None,
            r.body@ == body@,
    {
        Response { status, location: None, cookie: None, body }
    }

    /// A redirect with the given status and target, no cookie and an empty
    /// body.
    pub fn redirect_to(status: u16, location: String) -> (r: Response)
        ensures
            r.status == status,
            r.location matches Some(l) && l@ == location@,
            r.cookie is None,
            r.body@ == Seq::<char>::empty(),
    {
        Response { status, location: Some(location), cookie: None, body: String::new() }
    }
}

} // verus!
