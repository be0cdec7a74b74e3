//! The page handlers' decisions: the canonical-path redirects, and the
//! assembly of the article list from stored rows.  Reading the store and
//! rendering the article templates stay with the web layer; what it
//! hands over and gets back is decided here.

use vstd::prelude::*;
use vstd::string::StringExecFns;

use crate::errors::{error_404, funnel, spec_is_blocked, MyError};
use crate::post::{spec_post_matches_row, spec_row_ok, ColumnValue, Post};
use crate::response::{
    Response, STATUS_INTERNAL_SERVER_ERROR, STATUS_NOT_FOUND, STATUS_PERMANENT_REDIRECT,
    STATUS_UNAUTHORIZED,
};

verus! {

/// The canonical address of an article, for requests with a trailing
/// slash: a permanent redirect to "/articles/" followed by the link.
pub fn article_redirect(link: &String) -> (r: Response)
    ensures
        r.status == STATUS_PERMANENT_REDIRECT,
        r.location matches Some(l) && l@ == "/articles/"@ + link@,
        r.cookie is None,
        r.body@ == Seq::<char>::empty(),
{
    Response::redirect_to(
        STATUS_PERMANENT_REDIRECT,
        String::from_str("/articles/").concat(link.as_str()),
    )
}

/// The canonical address of a hidden article, for requests with a
/// trailing slash.
pub fn hidden_article_redirect(link: &String) -> (r: Response)
    ensures
        r.status == STATUS_PERMANENT_REDIRECT,
        r.location matches Some(l) && l@ == "/articles/hidden/"@ + link@,
        r.cookie is None,
        r.body@ == Seq::<char>::empty(),
{
    Response::redirect_to(
        STATUS_PERMANENT_REDIRECT,
        String::from_str("/articles/hidden/").concat(link.as_str()),
    )
}

/// The canonical address of the article list, for requests with a
/// trailing slash.
pub fn articles_redirect() -> (r: Response)
    ensures
        r.status == STATUS_PERMANENT_REDIRECT,
        r.location matches Some(l) && l@ == "/articles"@,
        r.cookie is None,
        r.body@ == Seq::<char>::empty(),
{
    Response::redirect_to(STATUS_PERMANENT_REDIRECT, String::from_str("/articles"))
}

/// The old post addresses: a permanent redirect to the article's
/// canonical address.
pub fn post_index(link: &String) -> (r: Response)
    ensures
        r.status == STATUS_PERMANENT_REDIRECT,
        r.location matches Some(l) && l@ == "/articles/"@ + link@,
        r.cookie is None,
        r.body@ == Seq::<char>::empty(),
{
    Response::redirect_to(
        STATUS_PERMANENT_REDIRECT,
        String::from_str("/articles/").concat(link.as_str()),
    )
}

/// The old post-list address: a permanent redirect to the article list.
pub fn posts() -> (r: Response)
    ensures
        r.status == STATUS_PERMANENT_REDIRECT,
        r.location matches Some(l) && l@ == "/articles"@,
        r.cookie is None,
        r.body@ == Seq::<char>::empty(),
{
    Response::redirect_to(STATUS_PERMANENT_REDIRECT, String::from_str("/articles"))
}

/// The article page's decision: the stored row found for the requested
/// link becomes the post the page shows; no row means the not-found
/// page, and an invalid row goes through the error funnel.
pub fn article_index(tera: &tera::Tera, authorized: bool, row: Option<&Vec<ColumnValue>>) -> (r:
    Result<Post, Response>)
    ensures
        (r matches Ok(p) && row matches Some(cols) && spec_post_matches_row(p, cols@)) || r is Err,
        row matches Some(cols) && spec_row_ok(cols@) ==> r is Ok,
        row is None ==> (r matches Err(resp) && resp.location is None && resp.cookie is None
            && (resp.status == STATUS_NOT_FOUND || resp.status == STATUS_UNAUTHORIZED
            || resp.status == STATUS_INTERNAL_SERVER_ERROR)),
        row matches Some(cols) && !spec_row_ok(cols@) ==> (r matches Err(resp) && resp.location
            is None && resp.cookie is None && resp.status == STATUS_INTERNAL_SERVER_ERROR),
{
    match row {
        None => Err(error_404(tera, authorized)),
        Some(cols) => match Post::from_row(cols) {
            Ok(p) => Ok(p),
            Err(e) => {
                proof {
                    reveal_strlit("terrorrussia");
                    reveal_strlit("Invalid column count in the row");
                    reveal_strlit("Invalid column type in the row");
                    assert(e@.len() != "terrorrussia"@.len());
                    assert(!spec_is_blocked(e));
                }
                Err(funnel(tera, authorized, &e))
            },
        },
    }
}

/// The hidden-article page decides as the article page does, on a row of
/// the hidden-article table.
pub fn hidden_article_index(tera: &tera::Tera, authorized: bool, row: Option<
    &Vec<ColumnValue>,
>) -> (r: Result<Post, Response>)
    ensures
        (r matches Ok(p) && row matches Some(cols) && spec_post_matches_row(p, cols@)) || r is Err,
        row matches Some(cols) && spec_row_ok(cols@) ==> r is Ok,
        row is None ==> (r matches Err(resp) && resp.location is None && resp.cookie is None
            && (resp.status == STATUS_NOT_FOUND || resp.status == STATUS_UNAUTHORIZED
            || resp.status == STATUS_INTERNAL_SERVER_ERROR)),
        row matches Some(cols) && !spec_row_ok(cols@) ==> (r matches Err(resp) && resp.location
            is None && resp.cookie is None && resp.status == STATUS_INTERNAL_SERVER_ERROR),
{
    article_index(tera, authorized, row)
}

/// The listing page's decision: the stored rows become the posts the
/// page shows, in order; an invalid row goes through the error funnel.
pub fn articles(tera: &tera::Tera, authorized: bool, rows: &Vec<Vec<ColumnValue>>) -> (r: Result<
    Vec<Post>,
    Response,
>)
    ensures
        (forall|i: int| 0 <= i < rows@.len() ==> spec_row_ok(#[trigger] rows@[i]@)) <==> r is Ok,
        r matches Ok(ps) ==> ps@.len() == rows@.len() && (forall|i: int|
            0 <= i < rows@.len() ==> spec_post_matches_row(#[trigger] ps@[i], rows@[i]@)),
        r matches Err(resp) ==> resp.location is None && resp.cookie is None && resp.status
            == STATUS_INTERNAL_SERVER_ERROR,
{
    match posts_from_rows(rows) {
        Ok(ps) => Ok(ps),
        Err(e) => {
            proof {
                reveal_strlit("terrorrussia");
                reveal_strlit("Invalid column count in the row");
                reveal_strlit("Invalid column type in the row");
                assert(e@.len() != "terrorrussia"@.len());
                assert(!spec_is_blocked(e));
            }
            Err(funnel(tera, authorized, &e))
        },
    }
}

/// The article list as the listing page shows it: one post for each
/// stored row, in the rows' order; the first invalid row makes the
/// whole list fail.
pub fn posts_from_rows(rows: &Vec<Vec<ColumnValue>>) -> (r: Result<Vec<Post>, MyError>)
    ensures
        r is Ok <==> (forall|i: int| 0 <= i < rows@.len() ==> spec_row_ok(#[trigger] rows@[i]@)),
        r matches Ok(ps) ==> {
            &&& ps@.len() == rows@.len()
            &&& forall|i: int|
                0 <= i < rows@.len() ==> spec_post_matches_row(#[trigger] ps@[i], rows@[i]@)
        },
        r matches Err(e) ==> (e@ == "Invalid column count in the row"@ || e@
            == "Invalid column type in the row"@),
{
    let mut posts: Vec<Post> = Vec::new();
    let mut idx: usize = 0;
    while idx < rows.len()
        invariant
            idx <= rows@.len(),
            posts@.len() == idx,
            forall|i: int| 0 <= i < idx ==> spec_row_ok(#[trigger] rows@[i]@),
            forall|i: int|
                0 <= i < idx ==> spec_post_matches_row(#[trigger] posts@[i], rows@[i]@),
        decreases rows@.len() - idx,
    {
        match Post::from_row(&rows[idx]) {
            Ok(p) => posts.push(p),
            Err(e) => return Err(e),
        }
        idx += 1;
    }
    Ok(posts)
}

} // verus!
