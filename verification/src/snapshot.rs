//! The portfolio snapshot: the object that the API answered with, and the
//! date at which it was taken.

use crate::clock::{rfc3339, rfc3339_text, Timestamp};
use crate::error::ApplicationError;
use crate::json::{
    insert_string, json_object, json_object_text, json_string_text, member_text, object_members,
    object_text, parse_object,
};
use vstd::prelude::*;
use vstd::string::{StrSliceExecFns, StringExecFns};

verus! {

/// The member that holds the date at which the snapshot was taken.
pub const DATE: &'static str = "date";

/// The member of the snapshot that holds the portfolio.
pub const PORTFOLIO: &'static str = "portfolio";

/// The member of the portfolio that holds the totals.
pub const TOTALS: &'static str = "totals";

/// The currency of the first line of the summary.
pub const BTC: &'static str = "BTC";

/// The currency of the second line of the summary.
pub const USD: &'static str = "USD";

/// What the summary shows for a total that the snapshot does not have.
pub const NOT_AVAILABLE: &'static str = "N/A";

/// The text of the member `name` of the JSON object `text`; `None` where
/// `text` is no JSON object or the object has no such member.
pub open spec fn member_of(text: Seq<char>, name: Seq<char>) -> Option<Seq<char>> {
    match json_object(text) {
        Some(members) => if members.contains_key(name) {
            Some(members[name])
        } else {
            None
        },
        None => None,
    }
}

/// Whether the JSON text `text` is that of a number or of a string: whether
/// it begins with a digit, a minus sign or a quotation mark.
pub open spec fn is_amount(text: Seq<char>) -> bool {
    text.len() > 0 && (text[0] == '"' || text[0] == '-' || ('0' <= text[0] && text[0] <= '9'))
}

/// The total of `currency` in a snapshot with the members `members`: the
/// member `currency` of the member `totals` of the member `portfolio`, as
/// JSON text, where each of the three is there and the last is a number or
/// a string.
pub open spec fn total_of(members: Map<Seq<char>, Seq<char>>, currency: Seq<char>) -> Option<
    Seq<char>,
> {
    if members.contains_key(PORTFOLIO@) {
        match member_of(members[PORTFOLIO@], TOTALS@) {
            Some(totals) => match member_of(totals, currency) {
                Some(total) => if is_amount(total) {
                    Some(total)
                } else {
                    None
                },
                None => None,
            },
            None => None,
        }
    } else {
        None
    }
}

/// The summary line for `currency` with the total `total`: `Total (`, the
/// currency, `): `, and the total, or `N/A` where there is none.
pub open spec fn line_of(currency: Seq<char>, total: Option<Seq<char>>) -> Seq<char> {
    "Total ("@ + currency + "): "@ + match total {
        Some(text) => text,
        None => NOT_AVAILABLE@,
    }
}

/// The summary line for `currency` in a snapshot with the members
/// `members`.
pub open spec fn total_line(members: Map<Seq<char>, Seq<char>>, currency: Seq<char>) -> Seq<char> {
    line_of(currency, total_of(members, currency))
}

/// The summary of a snapshot: the line for BTC, then the line for USD.
pub open spec fn summary(members: Map<Seq<char>, Seq<char>>) -> Seq<Seq<char>> {
    seq![total_line(members, BTC@), total_line(members, USD@)]
}

/// The members of the snapshot that is made of the response `raw` and the
/// date `date`: those of the response, with `date` as the string member
/// `date` in place of any that the response had. `None` where the response
/// is no JSON object.
pub open spec fn processed(raw: Seq<char>, date: Seq<char>) -> Option<Map<Seq<char>, Seq<char>>> {
    match json_object(raw) {
        Some(members) => Some(members.insert(DATE@, json_string_text(date))),
        None => None,
    }
}

/// A portfolio snapshot.
#[derive(Debug, PartialEq)]
pub struct Snapshot {
    object: serde_json::Map<String, serde_json::Value>,
}

impl Snapshot {
    /// The members of the snapshot: each name with the compact JSON text of
    /// its value.
    pub closed spec fn view(&self) -> Map<Seq<char>, Seq<char>> {
        object_members(self.object)
    }

    /// The JSON text of the member `name`, if there is one.
    pub fn get(&self, name: &str) -> (text: Option<String>)
        ensures
            match text {
                Some(value) => self@.contains_key(name@) && self@[name@] == value@,
                None => !self@.contains_key(name@),
            },
    {
        member_text(&self.object, name)
    }

    /// The total of `currency`, as JSON text, if the snapshot has one.
    pub fn total(&self, currency: &str) -> (text: Option<String>)
        ensures
            text.deep_view() == total_of(self@, currency@),
    {
        match self.get(PORTFOLIO) {
            Some(portfolio) => match member(portfolio.as_str(), TOTALS) {
                Some(totals) => match member(totals.as_str(), currency) {
                    Some(total) => if amount(total.as_str()) {
                        Some(total)
                    } else {
                        None
                    },
                    None => None,
                },
                None => None,
            },
            None => None,
        }
    }

    /// The snapshot as JSON text, for the snapshot file. `None` where
    /// `serde_json` does not write it.
    pub fn to_json(&self) -> (text: Option<String>)
        ensures
            text.deep_view() == json_object_text(self@),
    {
        object_text(&self.object)
    }
}

/// Whether the JSON text `text` is that of a number or of a string.
pub fn amount(text: &str) -> (found: bool)
    ensures
        found == is_amount(text@),
{
    if text.is_empty() {
        return false;
    }
    let first = text.get_char(0);
    first == '"' || first == '-' || ('0' <= first && first <= '9')
}

/// The member `name` of the JSON object `text`, as JSON text.
fn member(text: &str, name: &str) -> (found: Option<String>)
    ensures
        found.deep_view() == member_of(text@, name@),
{
    match parse_object(text) {
        Ok(object) => member_text(&object, name),
        Err(_) => None,
    }
}

/// Makes the snapshot of the response `raw`, taken at `date`. Fails with
/// `ParseError` exactly if the response is no JSON object.
pub fn process_response(raw: &str, date: &str) -> (outcome: Result<Snapshot, ApplicationError>)
    ensures
        match outcome {
            Ok(snapshot) => processed(raw@, date@) == Some(snapshot@),
            Err(error) => error == ApplicationError::ParseError && processed(raw@, date@) is None,
        },
{
    match parse_object(raw) {
        Ok(object) => {
            let mut object = object;
            insert_string(&mut object, DATE, date);
            Ok(Snapshot { object })
        },
        Err(_) => Err(ApplicationError::ParseError),
    }
}

/// The date of the instant `at` as it is written into a snapshot: in the
/// form of RFC 3339, or `None` where the instant cannot be written so.
pub fn capture_date(at: &Timestamp) -> (date: Option<String>)
    ensures
        date.deep_view() == rfc3339_text(at.secs, at.nanos),
{
    rfc3339(at)
}

/// The outcome of processing the response `raw` at the instant `at`: the
/// snapshot's members, or `None` where the response is no JSON object or the
/// instant cannot be written as a date.
pub open spec fn processed_at(raw: Seq<char>, at: Timestamp) -> Option<Map<Seq<char>, Seq<char>>> {
    match rfc3339_text(at.secs, at.nanos) {
        Some(date) => processed(raw, date),
        None => None,
    }
}

/// Makes the snapshot of the response `data`, taken at the instant `at`.
/// Fails with `ParseError` exactly if no snapshot can be made: the response
/// is no JSON object, or the instant cannot be written as a date.
pub fn process_portfolio_data(data: String, at: &Timestamp) -> (outcome: Result<
    Snapshot,
    ApplicationError,
>)
    ensures
        match outcome {
            Ok(snapshot) => processed_at(data@, *at) == Some(snapshot@),
            Err(error) => error == ApplicationError::ParseError && processed_at(data@, *at)
                is None,
        },
{
    match capture_date(at) {
        Some(date) => process_response(data.as_str(), date.as_str()),
        None => Err(ApplicationError::ParseError),
    }
}

/// The summary line for `currency` with the total `total`.
pub fn summary_line(currency: &str, total: Option<String>) -> (line: String)
    ensures
        line@ == line_of(currency@, total.deep_view()),
{
    let head = "Total (".to_owned().concat(currency).concat("): ");
    match total {
        Some(text) => head.concat(text.as_str()),
        None => head.concat(NOT_AVAILABLE),
    }
}

/// The lines to print for a snapshot: the total in BTC, then the total in
/// USD, each as the JSON text that the snapshot holds for it, or `N/A`.
pub fn print_portfolio_data(data: &Snapshot) -> (lines: Vec<String>)
    ensures
        lines.deep_view() == summary(data@),
{
    let mut lines: Vec<String> = Vec::new();
    lines.push(summary_line(BTC, data.total(BTC)));
    lines.push(summary_line(USD, data.total(USD)));
    lines
}

} // verus!
