use blog::redirect::{https_location, redirect};
use blog::sitemap::sitemap_urls;
use blog::sitemap::url::{SitemapDate, Url};

// 2021-01-01 00:00:00 UTC
const TS_2021: i64 = 1609459200;

#[test]
fn sitemap_date_text_is_year_first_with_fixed_offset() {
    let d = SitemapDate(TS_2021);
    assert_eq!(d.text().unwrap(), "2021-01-01T00:00+00:00");
}

#[test]
fn sitemap_date_from_nonpositive_timestamp_is_absent() {
    assert_eq!(SitemapDate::from_timestamp(0), None);
    assert_eq!(SitemapDate::from_timestamp(-1), None);
    assert_eq!(SitemapDate::from_timestamp(TS_2021), Some(SitemapDate(TS_2021)));
}

#[test]
fn url_from_link_builds_the_absolute_address() {
    let u = Url::from_link("/".to_string(), "example.com".to_string(), TS_2021);
    assert_eq!(u.loc, "https://example.com/");
    assert_eq!(u.lastmod, Some(SitemapDate(TS_2021)));
}

#[test]
fn url_from_link_without_date_has_no_lastmod() {
    let u = Url::from_link("/".to_string(), "example.com".to_string(), 0);
    assert_eq!(u.lastmod, None);
}

#[test]
fn url_from_row_prefers_lastmod_and_falls_back_to_date() {
    let u = Url::from_row("a".to_string(), 5, 7, "example.com".to_string());
    assert_eq!(u.loc, "https://example.com/articles/a");
    assert_eq!(u.lastmod, Some(SitemapDate(7)));

    let u = Url::from_row("a".to_string(), 5, 0, "example.com".to_string());
    assert_eq!(u.lastmod, Some(SitemapDate(5)));
}

#[test]
fn sitemap_starts_with_the_root_dated_by_the_newest_article() {
    let host = "example.com".to_string();
    let rows = vec![("a".to_string(), 5, 0), ("b".to_string(), 5, 7)];
    let urls = sitemap_urls(&host, Some((10, 20)), &rows);
    assert_eq!(urls.len(), 3);
    assert_eq!(urls[0].loc, "https://example.com/");
    assert_eq!(urls[0].lastmod, Some(SitemapDate(20)));
    assert_eq!(urls[1].loc, "https://example.com/articles/a");
    assert_eq!(urls[1].lastmod, Some(SitemapDate(5)));
    assert_eq!(urls[2].loc, "https://example.com/articles/b");
    assert_eq!(urls[2].lastmod, Some(SitemapDate(7)));
}

#[test]
fn sitemap_of_an_empty_store_has_an_undated_root() {
    let host = "example.com".to_string();
    let urls = sitemap_urls(&host, None, &Vec::new());
    assert_eq!(urls.len(), 1);
    assert_eq!(urls[0].loc, "https://example.com/");
    assert_eq!(urls[0].lastmod, None);
}

#[test]
fn newest_is_the_larger_of_the_two_maxima() {
    let host = "h".to_string();
    let urls = sitemap_urls(&host, Some((30, 20)), &Vec::new());
    assert_eq!(urls[0].lastmod, Some(SitemapDate(30)));
}

#[test]
fn https_location_joins_host_and_path() {
    assert_eq!(
        https_location(&"example.com".to_string(), &"/a?b=c".to_string()),
        "https://example.com/a?b=c"
    );
}

#[test]
fn redirect_sends_the_request_to_the_https_host() {
    let r = redirect(&"example.com".to_string(), Some("/a?b=c".to_string()));
    assert_eq!(r.status, 308);
    assert_eq!(r.location.as_deref(), Some("https://example.com/a?b=c"));
    assert_eq!(r.body, "");
}

#[test]
fn redirect_without_a_readable_path_gives_the_fixed_500() {
    let r = redirect(&"example.com".to_string(), None);
    assert_eq!(r.status, 500);
    assert_eq!(r.body, "500 Internal Server Error");
    assert!(r.location.is_none());
}
