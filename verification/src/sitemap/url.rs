//! One entry of the sitemap: an absolute address and an optional
//! last-modification date, formatted as the sitemap's date format asks.

use vstd::prelude::*;
use vstd::string::StringExecFns;

use crate::post::PostDate;
use crate::redirect::https_location;

verus! {

/// The text of a sitemap date: year, month, day, hours and minutes of
/// the timestamp's UTC date, with the fixed "+00:00" offset.
pub uninterp spec fn sitemap_date_text(timestamp: i64) -> Seq<char>;

/// A sitemap entry's date, as seconds since the epoch; only timestamps
/// after the epoch stand for a date.
#[derive(Debug, PartialEq, Eq, Structural, Clone, Copy)]
pub struct SitemapDate(pub i64);

/// Relies on chrono's DateTime::from_timestamp and on formatting the
/// resulting UTC date with "%Y-%m-%dT%H:%M+00:00": the text depends on
/// the timestamp alone; nothing comes back only for timestamps that
/// chrono cannot represent as a date.
#[verifier::external_body]
fn format_sitemap_timestamp(timestamp: i64) -> (r: Option<String>)
    ensures
        r matches Some(s) ==> s@ == sitemap_date_text(timestamp),
{
    match chrono::DateTime::<chrono::Utc>::from_timestamp(timestamp, 0) {
        Some(date_time) => Some(date_time.format("%Y-%m-%dT%H:%M+00:00").to_string()),
        None => None,
    }
}

impl SitemapDate {
    /// A date from a stored timestamp: present exactly when the
    /// timestamp is after the epoch.
    pub fn from_timestamp(timestamp: i64) -> (r: Option<SitemapDate>)
        ensures
            timestamp > 0 <==> r is Some,
            r matches Some(d) ==> d.0 == timestamp,
    {
        match PostDate::from_timestamp(timestamp) {
            Some(d) => Some(SitemapDate(d.0)),
            None => None,
        }
    }

    /// The date's display text.
    pub fn text(&self) -> (r: Option<String>)
        ensures
            r matches Some(s) ==> s@ == sitemap_date_text(self.0),
    {
        format_sitemap_timestamp(self.0)
    }
}

/// A sitemap entry: the absolute address and the optional
/// last-modification date.
#[derive(Debug)]
pub struct Url {
    pub loc: String,
    pub lastmod: Option<SitemapDate>,
}

/// The entry that a site-relative link, a host and a last-modification
/// timestamp describe.
pub open spec fn spec_url_matches(u: Url, link: Seq<char>, host: Seq<char>, lastmod: i64) -> bool {
    &&& u.loc@ == "https://"@ + host + link
    &&& (if lastmod > 0 {
        u.lastmod matches Some(d) && d.0 == lastmod
    } else {
        u.lastmod is None
    })
}

impl Url {
    /// An entry for a site-relative link on the given host.
    pub fn from_link(link: String, host: String, lastmod: i64) -> (r: Url)
        ensures
            spec_url_matches(r, link@, host@, lastmod),
    {
        Url { loc: https_location(&host, &link), lastmod: SitemapDate::from_timestamp(lastmod) }
    }

    /// An entry for an article's stored row: the link becomes the
    /// article's address, and the publication date stands in when no
    /// last-modification date was stored.
    pub fn from_row(link: String, date: i64, lastmod: i64, host: String) -> (r: Url)
        ensures
            spec_url_matches(
                r,
                "/articles/"@ + link@,
                host@,
                if lastmod == 0 {
                    date
                } else {
                    lastmod
                },
            ),
    {
        let ts: i64 = if lastmod == 0 {
            date
        } else {
            lastmod
        };
        Url::from_link(String::from_str("/articles/").concat(link.as_str()), host, ts)
    }
}

} // verus!
