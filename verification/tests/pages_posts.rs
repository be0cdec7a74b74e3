use blog::pages::{
    article_index, article_redirect, articles, articles_redirect, hidden_article_index,
    hidden_article_redirect, post_index, posts, posts_from_rows,
};
use blog::post::{ColumnValue, Post, PostDate};

// 2021-01-01 00:00:00 UTC
const TS_2021: i64 = 1609459200;

fn full_row() -> Vec<ColumnValue> {
    vec![
        ColumnValue::Text("my-link".to_string()),
        ColumnValue::Text("My name".to_string()),
        ColumnValue::Text("Body text".to_string()),
        ColumnValue::Text("Teaser".to_string()),
        ColumnValue::Integer(TS_2021),
        ColumnValue::Integer(0),
        ColumnValue::Integer(0),
    ]
}

fn short_row() -> Vec<ColumnValue> {
    vec![
        ColumnValue::Text("hidden-link".to_string()),
        ColumnValue::Text("Hidden".to_string()),
        ColumnValue::Text("Hidden text".to_string()),
        ColumnValue::Integer(TS_2021),
        ColumnValue::Integer(TS_2021 + 60),
    ]
}

#[test]
fn full_row_becomes_a_post() {
    let p = Post::from_row(&full_row()).unwrap();
    assert_eq!(p.link, "my-link");
    assert_eq!(p.name, "My name");
    assert_eq!(p.text, "Body text");
    assert_eq!(p.short_text.as_deref(), Some("Teaser"));
    assert_eq!(p.date, Some(PostDate(TS_2021)));
    assert_eq!(p.lastmod, None);
}

#[test]
fn full_row_with_null_teaser_has_no_short_text() {
    let mut row = full_row();
    row[3] = ColumnValue::Null;
    let p = Post::from_row(&row).unwrap();
    assert_eq!(p.short_text, None);
}

#[test]
fn short_row_becomes_a_post_without_teaser() {
    let p = Post::from_row(&short_row()).unwrap();
    assert_eq!(p.link, "hidden-link");
    assert_eq!(p.short_text, None);
    assert_eq!(p.date, Some(PostDate(TS_2021)));
    assert_eq!(p.lastmod, Some(PostDate(TS_2021 + 60)));
}

#[test]
fn row_of_wrong_width_is_rejected_by_count() {
    let mut row = full_row();
    row.pop();
    let e = Post::from_row(&row).unwrap_err();
    assert_eq!(e.details().as_str(), "Invalid column count in the row");
}

#[test]
fn row_of_wrong_type_is_rejected_by_type() {
    let mut row = full_row();
    row[0] = ColumnValue::Integer(7);
    let e = Post::from_row(&row).unwrap_err();
    assert_eq!(e.details().as_str(), "Invalid column type in the row");
}

#[test]
fn nonpositive_timestamps_mean_no_date() {
    assert_eq!(PostDate::from_timestamp(0), None);
    assert_eq!(PostDate::from_timestamp(-5), None);
    assert_eq!(PostDate::from_timestamp(1), Some(PostDate(1)));
}

#[test]
fn post_date_text_is_day_first() {
    let d = PostDate(TS_2021);
    assert_eq!(d.text().unwrap(), "01.01.2021 00:00");
    let later = PostDate(TS_2021 + 3600 * 13 + 60 * 37);
    assert_eq!(later.text().unwrap(), "01.01.2021 13:37");
}

#[test]
fn posts_from_rows_keeps_the_order() {
    let rows = vec![full_row(), short_row()];
    let ps = posts_from_rows(&rows).unwrap();
    assert_eq!(ps.len(), 2);
    assert_eq!(ps[0].link, "my-link");
    assert_eq!(ps[1].link, "hidden-link");
}

#[test]
fn posts_from_rows_fails_on_an_invalid_row() {
    let rows = vec![full_row(), vec![ColumnValue::Null]];
    let e = posts_from_rows(&rows).unwrap_err();
    assert_eq!(e.details().as_str(), "Invalid column count in the row");
}

#[test]
fn posts_from_rows_accepts_the_empty_list() {
    let ps = posts_from_rows(&Vec::new()).unwrap();
    assert!(ps.is_empty());
}

#[test]
fn article_index_hands_the_found_post_over() {
    let tera = tera::Tera::new();
    let row = full_row();
    let p = article_index(&tera, false, Some(&row)).unwrap();
    assert_eq!(p.link, "my-link");
}

#[test]
fn article_index_answers_missing_rows_with_not_found() {
    let mut tera = tera::Tera::new();
    tera.add_raw_template("404.html", "E404 {{ authorized }}").unwrap();
    let resp = article_index(&tera, true, None).unwrap_err();
    assert_eq!(resp.status, 404);
    assert_eq!(resp.body, "E404 true");
}

#[test]
fn article_index_funnels_invalid_rows() {
    let mut tera = tera::Tera::new();
    tera.add_raw_template("500.html", "E500").unwrap();
    let row = vec![ColumnValue::Null];
    let resp = article_index(&tera, false, Some(&row)).unwrap_err();
    assert_eq!(resp.status, 500);
    assert_eq!(resp.body, "E500");
}

#[test]
fn hidden_article_index_decides_like_the_article_page() {
    let tera = tera::Tera::new();
    let row = short_row();
    let p = hidden_article_index(&tera, false, Some(&row)).unwrap();
    assert_eq!(p.link, "hidden-link");
}

#[test]
fn articles_hands_the_post_list_over() {
    let tera = tera::Tera::new();
    let rows = vec![full_row(), short_row()];
    let ps = articles(&tera, false, &rows).unwrap();
    assert_eq!(ps.len(), 2);
}

#[test]
fn articles_funnels_an_invalid_row() {
    let tera = tera::Tera::new();
    let rows = vec![vec![ColumnValue::Integer(1)]];
    let resp = articles(&tera, false, &rows).unwrap_err();
    assert_eq!(resp.status, 500);
    assert_eq!(resp.body, "500 Internal Server Error");
}

#[test]
fn canonical_redirects_point_at_the_article_paths() {
    let link = "some-post".to_string();
    let r = article_redirect(&link);
    assert_eq!(r.status, 308);
    assert_eq!(r.location.as_deref(), Some("/articles/some-post"));
    assert_eq!(r.body, "");
    assert!(r.cookie.is_none());

    let r = hidden_article_redirect(&link);
    assert_eq!(r.location.as_deref(), Some("/articles/hidden/some-post"));

    let r = articles_redirect();
    assert_eq!(r.status, 308);
    assert_eq!(r.location.as_deref(), Some("/articles"));

    let r = post_index(&link);
    assert_eq!(r.location.as_deref(), Some("/articles/some-post"));

    let r = posts();
    assert_eq!(r.location.as_deref(), Some("/articles"));
}
