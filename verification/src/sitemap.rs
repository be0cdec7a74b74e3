//! The sitemap's contents: the site root, dated with the newest article
//! timestamp, followed by one entry per article row.  Reading the store
//! and rendering the XML stay with the web layer.

pub mod url;

use vstd::prelude::*;
use vstd::string::StringExecFns;

use crate::sitemap::url::{spec_url_matches, Url};

verus! {

/// The newest article timestamp: the larger of the stored maxima, or
/// zero when the store answered no row.
pub open spec fn spec_newest(row: Option<(i64, i64)>) -> i64 {
    match row {
        Some((date, lastmod)) => if date > lastmod {
            date
        } else {
            lastmod
        },
        None => 0,
    }
}

/// The sitemap's entries: first the site root, dated with the newest
/// article timestamp, then one entry per article row in the rows'
/// order, each dated with its last-modification timestamp or, when that
/// is zero, its publication timestamp.
pub fn sitemap_urls(host: &String, newest_row: Option<(i64, i64)>, rows: &Vec<(String, i64, i64)>) -> (r:
    Vec<Url>)
    ensures
        r@.len() == rows@.len() + 1,
        spec_url_matches(r@[0], "/"@, host@, spec_newest(newest_row)),
        forall|i: int|
            0 <= i < rows@.len() ==> spec_url_matches(
                #[trigger] r@[i + 1],
                "/articles/"@ + rows@[i].0@,
                host@,
                if rows@[i].2 == 0 {
                    rows@[i].1
                } else {
                    rows@[i].2
                },
            ),
{
    let newest: i64 = match newest_row {
        Some((date, lastmod)) => if date > lastmod {
            date
        } else {
            lastmod
        },
        None => 0,
    };
    let mut urls: Vec<Url> = Vec::new();
    urls.push(Url::from_link(String::from_str("/"), host.clone(), newest));
    let mut idx: usize = 0;
    while idx < rows.len()
        invariant
            idx <= rows@.len(),
            urls@.len() == idx + 1,
            spec_url_matches(urls@[0], "/"@, host@, spec_newest(newest_row)),
            forall|i: int|
                0 <= i < idx ==> spec_url_matches(
                    #[trigger] urls@[i + 1],
                    "/articles/"@ + rows@[i].0@,
                    host@,
                    if rows@[i].2 == 0 {
                        rows@[i].1
                    } else {
                        rows@[i].2
                    },
                ),
        decreases rows@.len() - idx,
    {
        let link = rows[idx].0.clone();
        let date = rows[idx].1;
        let lastmod = rows[idx].2;
        urls.push(Url::from_row(link, date, lastmod, host.clone()));
        idx += 1;
    }
    urls
}

} // verus!
