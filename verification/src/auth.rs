//! The authenticator: a single shared secret, validated at construction, and
//! an "auth" cookie whose value is either empty (not authenticated) or
//! exactly the secret (authenticated).  A request is authorized iff it
//! presents an "auth" cookie equal to the secret; a login attempt with
//! the secret sets the held cookie; logout instructs the client to
//! overwrite the cookie with an empty value.

use vstd::prelude::*;
use vstd::string::StrSliceExecFns;
use vstd::string::StringExecFns;
use vstd::utf8::is_ascii_chars;

use crate::errors::{funnel, page_from, MyError};
use crate::render::render_status_page;
use crate::response::{
    CookieSpec, Response, STATUS_INTERNAL_SERVER_ERROR, STATUS_OK, STATUS_SEE_OTHER,
    STATUS_UNAUTHORIZED,
};

verus! {

/// Holds of a token this library accepts as the shared secret: only
/// ASCII characters, and at least 32 of them.
pub open spec fn spec_valid_token(token: Seq<char>) -> bool {
    is_ascii_chars(token) && token.len() >= 32
}

/// Whether a login attempt with `supplied` succeeds against `secret`.
pub open spec fn spec_login_ok(secret: Seq<char>, supplied: Seq<char>) -> bool {
    supplied == secret
}

/// The held cookie value after a login attempt: set to the supplied
/// token when it equals the secret, unchanged otherwise.
pub open spec fn spec_cookie_after_login(
    cookie: Seq<char>,
    secret: Seq<char>,
    supplied: Seq<char>,
) -> Seq<char> {
    if supplied == secret {
        supplied
    } else {
        cookie
    }
}

/// A response cookie slot as a (name, value) pair of character sequences.
pub open spec fn spec_cookie_model(c: Option<CookieSpec>) -> Option<(Seq<char>, Seq<char>)> {
    match c {
        Some(k) => Some((k.name@, k.value@)),
        None => None,
    }
}

/// What logout does to a response's cookie slot: whatever was there
/// before, afterwards it holds the "auth" cookie with an empty value, so
/// the client discards its credential.
pub open spec fn spec_clear_auth_cookie(c: Option<(Seq<char>, Seq<char>)>) -> Option<
    (Seq<char>, Seq<char>),
> {
    Some(("auth"@, Seq::<char>::empty()))
}

/// Holds of a cookie slot carrying the cleared "auth" cookie.
pub open spec fn spec_cleared_cookie(c: Option<CookieSpec>) -> bool {
    spec_cookie_model(c) == spec_clear_auth_cookie(spec_cookie_model(c))
}

/// Law: logging in with the secret itself succeeds, and afterwards the
/// held cookie value is exactly the secret.
pub proof fn lemma_login_with_secret(secret: Seq<char>, cookie: Seq<char>)
    ensures
        spec_login_ok(secret, secret),
        spec_cookie_after_login(cookie, secret, secret) == secret,
{
}

/// Law: a login attempt with anything but the secret fails and leaves
/// the held cookie value unchanged.
pub proof fn lemma_login_wrong_token(secret: Seq<char>, cookie: Seq<char>, supplied: Seq<char>)
    requires
        supplied != secret,
    ensures
        !spec_login_ok(secret, supplied),
        spec_cookie_after_login(cookie, secret, supplied) == cookie,
{
}

/// Law: whatever token a login attempt supplies, the held cookie value
/// it leaves is either the value from before the attempt or the secret
/// itself — never anything in between.  A reader that runs before or
/// after a whole attempt therefore observes one of those two states.
pub proof fn lemma_login_no_torn_state(cookie: Seq<char>, secret: Seq<char>, supplied: Seq<char>)
    ensures
        spec_cookie_after_login(cookie, secret, supplied) == cookie || spec_cookie_after_login(
            cookie,
            secret,
            supplied,
        ) == secret,
{
}

/// Law: logout is idempotent — clearing the auth cookie of a response a
/// second time leaves exactly the cleared cookie that one clearing left.
pub proof fn lemma_logout_idempotent(c: Option<(Seq<char>, Seq<char>)>)
    ensures
        spec_clear_auth_cookie(spec_clear_auth_cookie(c)) == spec_clear_auth_cookie(c),
{
}

/// The authenticator: the validated shared secret and the current "auth"
/// cookie to be attached after a successful login.
pub struct Auth {
    token: String,
    cookie: CookieSpec,
}

impl Auth {
    /// The shared secret.
    pub closed spec fn spec_token(&self) -> Seq<char> {
        self.token@
    }

    /// The name of the held cookie.
    pub closed spec fn spec_cookie_name(&self) -> Seq<char> {
        self.cookie.name@
    }

    /// The current value of the held cookie.
    pub closed spec fn spec_cookie_value(&self) -> Seq<char> {
        self.cookie.value@
    }

    /// The authenticator's invariant: the secret is a valid token, the cookie is
    /// named "auth", and its value is empty or exactly the secret.
    pub open spec fn wf(&self) -> bool {
        &&& spec_valid_token(self.spec_token())
        &&& self.spec_cookie_name() == "auth"@
        &&& (self.spec_cookie_value() == Seq::<char>::empty() || self.spec_cookie_value()
            == self.spec_token())
    }

    /// Validates the shape of a shared secret: rejects tokens holding
    /// non-ASCII characters, and tokens shorter than 32 characters.
    pub fn check_token(token: &str) -> (r: Result<(), MyError>)
        ensures
            r is Ok <==> spec_valid_token(token@),
            r matches Err(e) ==> e@ == (if !is_ascii_chars(token@) {
                "Token should be ascii string"@
            } else {
                "Token length should be over 32"@
            }),
    {
        if !token.is_ascii() {
            return Err(MyError::new(String::from_str("Token should be ascii string")));
        }
        if token.unicode_len() < 32 {
            return Err(MyError::new(String::from_str("Token length should be over 32")));
        }
        Ok(())
    }

    /// Builds the authenticator from the configured secret, with the cookie not
    /// yet carrying a value; fails exactly when the secret is rejected
    /// by the token validator.
    pub fn new(token: String) -> (r: Result<Auth, MyError>)
        ensures
            r is Ok <==> spec_valid_token(token@),
            r matches Ok(a) ==> {
                &&& a.wf()
                &&& a.spec_token() == token@
                &&& a.spec_cookie_name() == "auth"@
                &&& a.spec_cookie_value() == Seq::<char>::empty()
            },
            r matches Err(e) ==> e@ == (if !is_ascii_chars(token@) {
                "Token should be ascii string"@
            } else {
                "Token length should be over 32"@
            }),
    {
        match Auth::check_token(token.as_str()) {
            Ok(_) => Ok(
                Auth {
                    token,
                    cookie: CookieSpec { name: String::from_str("auth"), value: String::new() },
                },
            ),
            Err(e) => Err(e),
        }
    }

    /// Whether a request carrying the given "auth" cookie value (if any)
    /// is authorized: true iff a cookie is present and its value equals
    /// the secret exactly.
    pub fn authorized(&self, auth_cookie: Option<&String>) -> (r: bool)
        ensures
            r == (auth_cookie matches Some(v) && v@ == self.spec_token()),
    {
        match auth_cookie {
            Some(value) => *value == self.token,
            None => false,
        }
    }

    /// A login attempt: when the supplied token equals the secret, sets
    /// the held cookie value to it and returns true; otherwise leaves
    /// everything unchanged and returns false.
    pub fn auth(&mut self, token: String) -> (r: bool)
        requires
            old(self).wf(),
        ensures
            r == spec_login_ok(old(self).spec_token(), token@),
            final(self).spec_token() == old(self).spec_token(),
            final(self).spec_cookie_name() == old(self).spec_cookie_name(),
            final(self).spec_cookie_value() == spec_cookie_after_login(
                old(self).spec_cookie_value(),
                old(self).spec_token(),
                token@,
            ),
            final(self).wf(),
    {
        if token == self.token {
            self.cookie.value = token;
            return true;
        }
        false
    }

    /// Instructs a response to overwrite the "auth" cookie with an empty
    /// value, so the client discards its credential; nothing else of the
    /// response changes.  Attaching the cookie to this library's response
    /// model cannot fail.
    pub fn deauth(&self, response: &mut Response) -> (r: Result<(), MyError>)
        ensures
            r is Ok,
            final(response).status == old(response).status,
            final(response).location == old(response).location,
            final(response).body == old(response).body,
            spec_cookie_model(final(response).cookie) == spec_clear_auth_cookie(
                spec_cookie_model(old(response).cookie),
            ),
            spec_cleared_cookie(final(response).cookie),
    {
        response.cookie = Some(
            CookieSpec { name: String::from_str("auth"), value: String::new() },
        );
        Ok(())
    }

    /// The cookie to attach to a response after a successful login.
    pub fn cookie(&self) -> (r: &CookieSpec)
        ensures
            r.name@ == self.spec_cookie_name(),
            r.value@ == self.spec_cookie_value(),
    {
        &self.cookie
    }
}

/// The login form: the single field `token`.
pub struct AuthFormData {
    token: String,
}

impl AuthFormData {
    /// The supplied token.
    pub closed spec fn spec_token(&self) -> Seq<char> {
        self.token@
    }

    /// A form carrying the given token.
    pub fn new(token: String) -> (r: AuthFormData)
        ensures
            r.spec_token() == token@,
    {
        AuthFormData { token }
    }
}

/// The login submission: always answers with a redirect to "/"; when the
/// supplied token equals the secret, the updated cookie is
/// attached, otherwise no cookie is set and the failure is silent.
pub fn auth_submit(auth: &mut Auth, form: AuthFormData) -> (r: Response)
    requires
        old(auth).wf(),
    ensures
        r.status == STATUS_SEE_OTHER,
        r.location matches Some(l) && l@ == "/"@,
        r.body@ == Seq::<char>::empty(),
        final(auth).spec_token() == old(auth).spec_token(),
        final(auth).spec_cookie_name() == old(auth).spec_cookie_name(),
        final(auth).spec_cookie_value() == spec_cookie_after_login(
            old(auth).spec_cookie_value(),
            old(auth).spec_token(),
            form.spec_token(),
        ),
        final(auth).wf(),
        spec_login_ok(old(auth).spec_token(), form.spec_token()) ==> (r.cookie matches Some(c)
            && c.name@ == final(auth).spec_cookie_name() && c.value@ == form.spec_token()),
        !spec_login_ok(old(auth).spec_token(), form.spec_token()) ==> r.cookie is None,
{
    let mut response = Response::redirect_to(STATUS_SEE_OTHER, String::from_str("/"));
    if auth.auth(form.token) {
        let current = auth.cookie();
        response.cookie = Some(
            CookieSpec { name: current.name.clone(), value: current.value.clone() },
        );
    }
    response
}

/// The auth-status page: renders it with the caller's authorization
/// status; a rendering failure goes through the error funnel.
pub fn auth(tera: &tera::Tera, authorized: bool) -> (r: Response)
    ensures
        r.location is None,
        r.cookie is None,
        r.status == STATUS_OK || r.status == STATUS_UNAUTHORIZED || r.status
            == STATUS_INTERNAL_SERVER_ERROR,
{
    match page_from(STATUS_OK, render_status_page(tera, "auth.html", authorized)) {
        Ok(resp) => resp,
        Err(e) => funnel(tera, authorized, &e),
    }
}

/// The logout response: a redirect to the referer when one was supplied,
/// else to "/", instructing the client to overwrite the "auth" cookie
/// with an empty value.
pub fn deauth(referer: Option<String>) -> (r: Response)
    ensures
        r.status == STATUS_SEE_OTHER,
        match referer {
            Some(u) => r.location matches Some(l) && l@ == u@,
            None => r.location matches Some(l) && l@ == "/"@,
        },
        spec_cleared_cookie(r.cookie),
        r.body@ == Seq::<char>::empty(),
{
    let url = match referer {
        Some(u) => u,
        None => String::from_str("/"),
    };
    let mut response = Response::redirect_to(STATUS_SEE_OTHER, url);
    response.cookie = Some(CookieSpec { name: String::from_str("auth"), value: String::new() });
    response
}

} // verus!
