//! The span of days for which transactions are asked: two calendar dates,
//! read and written by `chrono`.

use chrono::Datelike;
use vstd::prelude::*;

verus! {

/// A calendar date.
#[derive(Clone, Copy, Debug, PartialEq, Eq, Structural)]
pub struct Date {
    pub year: i32,
    pub month: u32,
    pub day: u32,
}

/// The span to ask for: the first day, and the last day as the text that the
/// provider of transactions takes.
#[derive(Clone, Debug, PartialEq, Eq)]
pub struct DateRange {
    pub from: Date,
    pub to: String,
}

/// Which end of a span is no date.
#[derive(Clone, Copy, Debug, PartialEq, Eq, Structural)]
pub enum RangeError {
    From,
    To,
}

/// The date that `chrono::NaiveDate::parse_from_str` reads from a text under
/// a format, as year, month and day, or `None` where it reports an error.
/// Nothing more is known of it here.
pub uninterp spec fn parsed_date(text: Seq<char>, format: Seq<char>) -> Option<(i32, u32, u32)>;

/// The text that `chrono::NaiveDate`'s `Display` writes for the date that
/// `NaiveDate::from_ymd_opt` makes of year, month and day, or `None` where
/// that makes none. Nothing more is known of it here.
pub uninterp spec fn written_date(year: i32, month: u32, day: u32) -> Option<Seq<char>>;

/// `chrono::NaiveDate::parse_from_str`, the date handed out as year, month
/// and day. The contract only gives the outcome its name.
#[verifier::external_body]
fn parse_date(text: &str, format: &str) -> (date: Option<(i32, u32, u32)>)
    ensures
        date == parsed_date(text@, format@),
{
    chrono::NaiveDate::parse_from_str(text, format).ok().map(|d| (d.year(), d.month(), d.day()))
}

/// `chrono::NaiveDate`'s `Display`, on the date that `NaiveDate::from_ymd_opt`
/// makes of year, month and day. The contract only gives the outcome its name.
#[verifier::external_body]
fn write_date(year: i32, month: u32, day: u32) -> (text: Option<String>)
    ensures
        text is Some <==> written_date(year, month, day) is Some,
        text matches Some(t) ==> written_date(year, month, day) == Some(t@),
{
    chrono::NaiveDate::from_ymd_opt(year, month, day).map(|d| d.to_string())
}

/// What two texts come to as a span.
pub ghost enum Span {
    BadFrom,
    BadTo,
    Range(Date, Seq<char>),
}

/// The span between two dates, from the dates that were read and the text
/// that was written for the second: the first that is none spoils the span.
pub open spec fn span_of(
    from: Option<(i32, u32, u32)>,
    to: Option<(i32, u32, u32)>,
    to_text: Option<Seq<char>>,
) -> Span {
    match (from, to, to_text) {
        (None, _, _) => Span::BadFrom,
        (Some(f), Some(_), Some(text)) => Span::Range(
            Date { year: f.0, month: f.1, day: f.2 },
            text,
        ),
        _ => Span::BadTo,
    }
}

/// The span that two dates of the form `2024-03-31` stand for.
pub open spec fn range_of(from: Seq<char>, to: Seq<char>) -> Span {
    let first = parsed_date(from, "%Y-%m-%d"@);
    let last = parsed_date(to, "%Y-%m-%d"@);
    span_of(
        first,
        last,
        match last {
            Some(t) => written_date(t.0, t.1, t.2),
            None => None,
        },
    )
}

/// The span between two dates that were read already.
pub fn span_between(from: Option<(i32, u32, u32)>, to: Option<(i32, u32, u32)>, to_text: Option<
    String,
>) -> (r: Result<DateRange, RangeError>)
    ensures
        match span_of(from, to, to_text.deep_view()) {
            Span::BadFrom => r == Err::<DateRange, RangeError>(RangeError::From),
            Span::BadTo => r == Err::<DateRange, RangeError>(RangeError::To),
            Span::Range(first, text) => r matches Ok(range) && range.from == first && range.to@
                == text,
        },
{
    match (from, to, to_text) {
        (None, _, _) => Err(RangeError::From),
        (Some(f), Some(_), Some(text)) => Ok(
            DateRange { from: Date { year: f.0, month: f.1, day: f.2 }, to: text },
        ),
        _ => Err(RangeError::To),
    }
}

/// Reads the two ends of a span, each of the form `2024-03-31`. The first end
/// is looked at first.
pub fn transaction_range(from: &str, to: &str) -> (r: Result<DateRange, RangeError>)
    ensures
        match range_of(from@, to@) {
            Span::BadFrom => r == Err::<DateRange, RangeError>(RangeError::From),
            Span::BadTo => r == Err::<DateRange, RangeError>(RangeError::To),
            Span::Range(first, text) => r matches Ok(range) && range.from == first && range.to@
                == text,
        },
{
    let first = parse_date(from, "%Y-%m-%d");
    let last = parse_date(to, "%Y-%m-%d");
    let text = match last {
        Some(t) => write_date(t.0, t.1, t.2),
        None => None,
    };
    span_between(first, last, text)
}

} // verus!
