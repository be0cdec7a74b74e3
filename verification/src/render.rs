//! The library's only tie to the template engine: the pages this library
//! answers with (the auth-status page and the error pages) carry exactly
//! one piece of context, the caller's authorization status, and are
//! rendered through the one wrapper below.

use vstd::prelude::*;

use crate::errors::MyError;

verus! {

#[verifier::external_type_specification]
#[verifier::external_body]
pub struct ExTera(tera::Tera);

/// Relies on tera::Tera::render: renders the named template with a
/// context holding the single key "authorized"; which body (or which
/// error) comes back depends on the templates loaded into the engine, so
/// nothing more is promised of the outcome.
#[verifier::external_body]
pub(crate) fn render_status_page(tera: &tera::Tera, name: &str, authorized: bool) -> (r: Result<
    String,
    MyError,
>) {
    let mut context = tera::Context::new();
    context.insert("authorized", &authorized);
    match tera.render(name, &context) {
        Ok(body) => Ok(body),
        Err(e) => Err(MyError { details: e.to_string() }),
    }
}

} // verus!
