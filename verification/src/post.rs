//! Articles as stored rows: a row is turned into a `Post`, with the two
//! timestamp columns becoming optional dates (a timestamp of zero or
//! less means "no date").  Rows come in two shapes: the full article
//! table (seven columns) and the reduced one (five columns, without a
//! short text).

use vstd::prelude::*;
use vstd::string::StringExecFns;

use crate::errors::MyError;

verus! {

/// One column of a stored row, as the storage layer hands it over.
#[derive(Debug)]
pub enum ColumnValue {
    Integer(i64),
    Text(String),
    Null,
}

/// The text of an article's date as readers see it: day, month, year,
/// hours and minutes of the timestamp's UTC date, in day-first order.
pub uninterp spec fn post_date_text(timestamp: i64) -> Seq<char>;

/// An article's date, as seconds since the epoch; only timestamps after
/// the epoch stand for a date.
#[derive(Debug, PartialEq, Eq, Structural, Clone, Copy)]
pub struct PostDate(pub i64);

/// Relies on chrono's DateTime::from_timestamp and on formatting the
/// resulting UTC date with "%d.%m.%Y %H:%M": the text depends on the
/// timestamp alone; nothing comes back only for timestamps that chrono
/// cannot represent as a date.
#[verifier::external_body]
fn format_post_timestamp(timestamp: i64) -> (r: Option<String>)
    ensures
        r matches Some(s) ==> s@ == post_date_text(timestamp),
{
    match chrono::DateTime::<chrono::Utc>::from_timestamp(timestamp, 0) {
        Some(date_time) => Some(date_time.format("%d.%m.%Y %H:%M").to_string()),
        None => None,
    }
}

impl PostDate {
    /// A date from a stored timestamp: present exactly when the
    /// timestamp is after the epoch.
    pub fn from_timestamp(timestamp: i64) -> (r: Option<PostDate>)
        ensures
            timestamp > 0 <==> r is Some,
            r matches Some(d) ==> d.0 == timestamp,
    {
        if timestamp > 0 {
            Some(PostDate(timestamp))
        } else {
            None
        }
    }

    /// The date's display text.
    pub fn text(&self) -> (r: Option<String>)
        ensures
            r matches Some(s) ==> s@ == post_date_text(self.0),
    {
        format_post_timestamp(self.0)
    }
}

/// An article: its link, title, body, optional teaser, and the optional
/// publication and last-modification dates.
#[derive(Debug)]
pub struct Post {
    pub link: String,
    pub name: String,
    pub text: String,
    pub short_text: Option<String>,
    pub date: Option<PostDate>,
    pub lastmod: Option<PostDate>,
}

/// The full row shape: link, name, text, an optional short text, the two
/// timestamps, and a trailing column this library does not read.
pub open spec fn spec_row_shape_full(row: Seq<ColumnValue>) -> bool {
    &&& row.len() == 7
    &&& row[0] is Text
    &&& row[1] is Text
    &&& row[2] is Text
    &&& (row[3] is Text || row[3] is Null)
    &&& row[4] is Integer
    &&& row[5] is Integer
}

/// The reduced row shape: link, name, text and the two timestamps.
pub open spec fn spec_row_shape_short(row: Seq<ColumnValue>) -> bool {
    &&& row.len() == 5
    &&& row[0] is Text
    &&& row[1] is Text
    &&& row[2] is Text
    &&& row[3] is Integer
    &&& row[4] is Integer
}

/// A row this library accepts.
pub open spec fn spec_row_ok(row: Seq<ColumnValue>) -> bool {
    spec_row_shape_full(row) || spec_row_shape_short(row)
}

/// An optional date as built from a stored timestamp.
pub open spec fn spec_date_of(d: Option<PostDate>, timestamp: i64) -> bool {
    if timestamp > 0 {
        d matches Some(x) && x.0 == timestamp
    } else {
        d is None
    }
}

/// An optional short text as read from its column.
pub open spec fn spec_short_text_of(t: Option<String>, c: ColumnValue) -> bool {
    match c {
        ColumnValue::Text(s) => t matches Some(x) && x@ == s@,
        ColumnValue::Null => t is None,
        ColumnValue::Integer(_) => false,
    }
}

/// The post that a row of either accepted shape describes.
pub open spec fn spec_post_matches_row(p: Post, row: Seq<ColumnValue>) -> bool {
    if spec_row_shape_full(row) {
        &&& p.link@ == row[0]->Text_0@
        &&& p.name@ == row[1]->Text_0@
        &&& p.text@ == row[2]->Text_0@
        &&& spec_short_text_of(p.short_text, row[3])
        &&& spec_date_of(p.date, row[4]->Integer_0)
        &&& spec_date_of(p.lastmod, row[5]->Integer_0)
    } else if spec_row_shape_short(row) {
        &&& p.link@ == row[0]->Text_0@
        &&& p.name@ == row[1]->Text_0@
        &&& p.text@ == row[2]->Text_0@
        &&& p.short_text is None
        &&& spec_date_of(p.date, row[3]->Integer_0)
        &&& spec_date_of(p.lastmod, row[4]->Integer_0)
    } else {
        false
    }
}

fn invalid_count_error() -> (r: MyError)
    ensures
        r@ == "Invalid column count in the row"@,
{
    MyError::new(String::from_str("Invalid column count in the row"))
}

fn invalid_type_error() -> (r: MyError)
    ensures
        r@ == "Invalid column type in the row"@,
{
    MyError::new(String::from_str("Invalid column type in the row"))
}

impl Post {
    /// Builds a post from a stored row, accepting exactly the two row
    /// shapes; a row of another width is rejected by its column count,
    /// one of the right width by the first column of the wrong type.
    pub fn from_row(row: &Vec<ColumnValue>) -> (r: Result<Post, MyError>)
        ensures
            r is Ok <==> spec_row_ok(row@),
            r matches Ok(p) ==> spec_post_matches_row(p, row@),
            r matches Err(e) ==> e@ == (if row@.len() != 7 && row@.len() != 5 {
                "Invalid column count in the row"@
            } else {
                "Invalid column type in the row"@
            }),
    {
        if row.len() == 7 {
            let link = match &row[0] {
                ColumnValue::Text(s) => s.clone(),
                _ => return Err(invalid_type_error()),
            };
            let name = match &row[1] {
                ColumnValue::Text(s) => s.clone(),
                _ => return Err(invalid_type_error()),
            };
            let text = match &row[2] {
                ColumnValue::Text(s) => s.clone(),
                _ => return Err(invalid_type_error()),
            };
            let short_text = match &row[3] {
                ColumnValue::Text(s) => Some(s.clone()),
                ColumnValue::Null => None,
                _ => return Err(invalid_type_error()),
            };
            let date_ts = match &row[4] {
                ColumnValue::Integer(i) => *i,
                _ => return Err(invalid_type_error()),
            };
            let lastmod_ts = match &row[5] {
                ColumnValue::Integer(i) => *i,
                _ => return Err(invalid_type_error()),
            };
            Ok(
                Post {
                    link,
                    name,
                    text,
                    short_text,
                    date: PostDate::from_timestamp(date_ts),
                    lastmod: PostDate::from_timestamp(lastmod_ts),
                },
            )
        } else if row.len() == 5 {
            let link = match &row[0] {
                ColumnValue::Text(s) => s.clone(),
                _ => return Err(invalid_type_error()),
            };
            let name = match &row[1] {
                ColumnValue::Text(s) => s.clone(),
                _ => return Err(invalid_type_error()),
            };
            let text = match &row[2] {
                ColumnValue::Text(s) => s.clone(),
                _ => return Err(invalid_type_error()),
            };
            let date_ts = match &row[3] {
                ColumnValue::Integer(i) => *i,
                _ => return Err(invalid_type_error()),
            };
            let lastmod_ts = match &row[4] {
                ColumnValue::Integer(i) => *i,
                _ => return Err(invalid_type_error()),
            };
            Ok(
                Post {
                    link,
                    name,
                    text,
                    short_text: None,
                    date: PostDate::from_timestamp(date_ts),
                    lastmod: PostDate::from_timestamp(lastmod_ts),
                },
            )
        } else {
            Err(invalid_count_error())
        }
    }
}

} // verus!
