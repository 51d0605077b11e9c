//! Column updates for monday.com boards.

use vstd::prelude::*;
use crate::json::{JsonValue, print_json, printed_json, numbers_ok, numbers_ok_members, decimal};
use crate::fields::{
    FieldMap, object_with, build_error, written, is_text, is_number, numbers_ok_fields,
    lemma_numbers_ok_insert,
};

verus! {

/// Whether `year` is a leap year of the proleptic Gregorian calendar.
pub open spec fn is_leap(year: int) -> bool {
    year % 4 == 0 && (year % 100 != 0 || year % 400 == 0)
}

/// The number of days of `month` in `year`.
pub open spec fn days_in_month(year: int, month: int) -> int {
    if month == 2 {
        if is_leap(year) {
            29
        } else {
            28
        }
    } else if month == 4 || month == 6 || month == 9 || month == 11 {
        30
    } else {
        31
    }
}

/// The first and the last year that a date can have.
pub open spec fn year_in_range(year: int) -> bool {
    -262143 <= year <= 262142
}

/// Whether `year`, `month` and `day` name a day of the calendar.
pub open spec fn valid_date(year: int, month: int, day: int) -> bool {
    year_in_range(year) && 1 <= month <= 12 && 1 <= day <= days_in_month(year, month)
}

/// The decimal text of `n`, with zeros in front up to `width` digits.
pub open spec fn padded(n: nat, width: nat) -> Seq<char> {
    if decimal(n).len() >= width {
        decimal(n)
    } else {
        Seq::new((width - decimal(n).len()) as nat, |i: int| '0') + decimal(n)
    }
}

/// The text that chrono prints for a year under `%Y`: four digits with zeros
/// in front for the years 0 to 9999, else a sign and at least four digits.
pub open spec fn year_text(year: int) -> Seq<char> {
    if 0 <= year <= 9999 {
        padded(year as nat, 4)
    } else if year < 0 {
        seq!['-'] + padded((-year) as nat, 4)
    } else {
        seq!['+'] + padded(year as nat, 4)
    }
}

/// The text that chrono prints for a date under `%Y-%m-%d`: the year, then
/// the month and the day in two digits each.
pub open spec fn ymd_text(year: int, month: int, day: int) -> Seq<char> {
    year_text(year) + seq!['-'] + padded(month as nat, 2) + seq!['-'] + padded(day as nat, 2)
}

/// Relies on chrono::NaiveDate::from_ymd_opt, which gives a date exactly for
/// the days of the calendar in chrono's range of years.
#[verifier::external_body]
fn calendar_day(year: i32, month: u32, day: u32) -> (r: bool)
    ensures
        r == valid_date(year as int, month as int, day as int),
{
    chrono::NaiveDate::from_ymd_opt(year, month, day).is_some()
}

/// Relies on chrono::NaiveDate::format with `%Y-%m-%d`, whose `%Y` writes
/// the year with zeros in front to four digits, and a sign first outside the
/// years 0 to 9999, and whose `%m` and `%d` write two digits.
#[verifier::external_body]
fn format_ymd(year: i32, month: u32, day: u32) -> (r: String)
    requires
        valid_date(year as int, month as int, day as int),
    ensures
        r@ == ymd_text(year as int, month as int, day as int),
{
    match chrono::NaiveDate::from_ymd_opt(year, month, day) {
        Some(d) => d.format("%Y-%m-%d").to_string(),
        None => String::new(),
    }
}

/// A day of the calendar.
#[derive(Debug, Clone, Copy, PartialEq, Eq)]
pub struct NaiveDate {
    year: i32,
    month: u32,
    day: u32,
}

impl NaiveDate {
    #[verifier::type_invariant]
    closed spec fn wf(&self) -> bool {
        valid_date(self.year as int, self.month as int, self.day as int)
    }

    /// The year, month and day.
    pub closed spec fn ymd(&self) -> (int, int, int) {
        (self.year as int, self.month as int, self.day as int)
    }

    /// The date with that year, month and day, where it is a day of the calendar.
    pub fn from_ymd_opt(year: i32, month: u32, day: u32) -> (r: Option<NaiveDate>)
        ensures
            r is Some <==> valid_date(year as int, month as int, day as int),
            r matches Some(d) ==> d.ymd() == (year as int, month as int, day as int),
    {
        if calendar_day(year, month, day) {
            Some(NaiveDate { year, month, day })
        } else {
            None
        }
    }

    /// The date as `YYYY-MM-DD`.
    pub fn format_ymd(&self) -> (r: String)
        ensures
            r@ == ymd_text(self.ymd().0, self.ymd().1, self.ymd().2),
    {
        proof {
            use_type_invariant(self);
        }
        format_ymd(self.year, self.month, self.day)
    }
}

/// What an update holds before it is printed.
pub struct BoardView {
    pub item: Seq<char>,
    pub values: Map<Seq<char>, JsonValue>,
}

/// The new values of some columns of an item.
#[derive(Debug)]
pub struct OutboundData {
    item: String,
    values: FieldMap,
}

impl View for OutboundData {
    type V = BoardView;

    closed spec fn view(&self) -> BoardView {
        BoardView { item: self.item@, values: self.values@ }
    }
}

/// The value of a timeline: `{"from": from, "to": to}`.
pub open spec fn is_span(from: Seq<char>, to: Seq<char>) -> spec_fn(JsonValue) -> bool {
    |j: JsonValue|
        j matches JsonValue::Object(m) && m@.len() == 2 && m@[0].0@ == "from"@ && is_text(from)(
            m@[0].1,
        ) && m@[1].0@ == "to"@ && is_text(to)(m@[1].1)
}

/// `t` is the text that serde_json prints for `{"item": item, "values": values}`.
pub open spec fn printed_update(item: Seq<char>, values: Map<Seq<char>, JsonValue>, t: Seq<char>) -> bool {
    exists|j: JsonValue|
        j matches JsonValue::Object(m) && m@.len() == 2 && m@[0].0@ == "item"@ && is_text(item)(
            m@[0].1,
        ) && m@[1].0@ == "values"@ && object_with(m@[1].1, values) && t == #[trigger] printed_json(j)
}

impl OutboundData {
    /// Writes `value` in the column `column_id`.
    fn with_value(self, column_id: &str, value: JsonValue) -> (r: OutboundData)
        ensures
            r@.item == self@.item,
            r@.values == self@.values.insert(column_id@, value),
            numbers_ok_fields(self@.values) && numbers_ok(value) ==> numbers_ok_fields(r@.values),
    {
        proof {
            if numbers_ok_fields(self@.values) && numbers_ok(value) {
                lemma_numbers_ok_insert(self@.values, column_id@, value);
            }
        }
        OutboundData { item: self.item, values: self.values.set(column_id.to_owned(), value) }
    }

    /// Sets a `Status` column by the index of the status.
    pub fn status_index(self, column_id: &str, index: u32) -> (r: OutboundData)
        ensures
            r@.item == self@.item,
            written(self@.values, r@.values, column_id@, is_number(index as nat)),
            numbers_ok_fields(self@.values) ==> numbers_ok_fields(r@.values),
    {
        self.with_value(column_id, JsonValue::unsigned(index as u64))
    }

    /// Sets a `Status` column by the label of the status.
    pub fn status_label(self, column_id: &str, label: &str) -> (r: OutboundData)
        ensures
            r@.item == self@.item,
            written(self@.values, r@.values, column_id@, is_text(label@)),
            numbers_ok_fields(self@.values) ==> numbers_ok_fields(r@.values),
    {
        self.with_value(column_id, JsonValue::text(label))
    }

    /// Sets a `Text` column.
    pub fn text(self, column_id: &str, text: &str) -> (r: OutboundData)
        ensures
            r@.item == self@.item,
            written(self@.values, r@.values, column_id@, is_text(text@)),
            numbers_ok_fields(self@.values) ==> numbers_ok_fields(r@.values),
    {
        self.with_value(column_id, JsonValue::text(text))
    }

    /// Sets a `Date` column.
    pub fn date(self, column_id: &str, date: NaiveDate) -> (r: OutboundData)
        ensures
            r@.item == self@.item,
            written(
                self@.values,
                r@.values,
                column_id@,
                is_text(ymd_text(date.ymd().0, date.ymd().1, date.ymd().2)),
            ),
            numbers_ok_fields(self@.values) ==> numbers_ok_fields(r@.values),
    {
        self.with_value(column_id, JsonValue::Str(date.format_ymd()))
    }

    /// Sets a `Timeline` column to the days from `from` to `to`.
    pub fn timeline(self, column_id: &str, from: NaiveDate, to: NaiveDate) -> (r: OutboundData)
        ensures
            r@.item == self@.item,
            written(
                self@.values,
                r@.values,
                column_id@,
                is_span(
                    ymd_text(from.ymd().0, from.ymd().1, from.ymd().2),
                    ymd_text(to.ymd().0, to.ymd().1, to.ymd().2),
                ),
            ),
            numbers_ok_fields(self@.values) ==> numbers_ok_fields(r@.values),
    {
        let mut span: Vec<(String, JsonValue)> = Vec::new();
        span.push(("from".to_owned(), JsonValue::Str(from.format_ymd())));
        span.push(("to".to_owned(), JsonValue::Str(to.format_ymd())));
        assert(numbers_ok_members(span@)) by {
            assert forall|k: int| 0 <= k < span@.len() implies #[trigger] numbers_ok(span@[k].1) by {
                if k == 0 {
                } else {
                    assert(k == 1);
                }
            }
        }
        self.with_value(column_id, JsonValue::Object(span))
    }

    /// Sets a `Person` column.
    pub fn person(self, column_id: &str, person_id: &str) -> (r: OutboundData)
        ensures
            r@.item == self@.item,
            written(self@.values, r@.values, column_id@, is_text(person_id@)),
            numbers_ok_fields(self@.values) ==> numbers_ok_fields(r@.values),
    {
        self.with_value(column_id, JsonValue::text(person_id))
    }

    /// Sets a column of another type to `value`.
    pub fn value(self, column_id: &str, value: JsonValue) -> (r: OutboundData)
        ensures
            r@.item == self@.item,
            r@.values == self@.values.insert(column_id@, value),
            numbers_ok_fields(self@.values) && numbers_ok(value) ==> numbers_ok_fields(r@.values),
    {
        self.with_value(column_id, value)
    }

    /// Prints the update as a JSON object; it takes a column value, and
    /// succeeds with one where every number in the values has integer text.
    pub fn build(self) -> (r: Result<String, String>)
        ensures
            self@.values.len() == 0 ==> (r matches Err(e) && e@ == "OutboundData build failed: values is empty"@),
            self@.values.len() > 0 && numbers_ok_fields(self@.values) ==> (r matches Ok(t)
                && printed_update(self@.item, self@.values, t@)),
            r matches Ok(t) ==> self@.values.len() > 0 && printed_update(self@.item, self@.values, t@),
    {
        if self.values.len() == 0 {
            return Err("OutboundData build failed: values is empty".to_owned());
        }
        let ghost v = self@;
        let mut m: Vec<(String, JsonValue)> = Vec::new();
        m.push(("item".to_owned(), JsonValue::Str(self.item)));
        m.push(("values".to_owned(), self.values.into_json()));
        proof {
            if numbers_ok_fields(v.values) {
                assert forall|k: int| 0 <= k < m@.len() implies #[trigger] numbers_ok(m@[k].1) by {
                    if k == 0 {
                    } else {
                        assert(k == 1);
                    }
                }
                assert(numbers_ok_members(m@));
            }
        }
        let j = JsonValue::Object(m);
        match print_json(&j) {
            Ok(t) => {
                assert(j matches JsonValue::Object(m) && m@.len() == 2 && m@[0].0@ == "item"@
                    && is_text(v.item)(m@[0].1) && m@[1].0@ == "values"@ && object_with(m@[1].1, v.values)
                    && t@ == printed_json(j));
                Ok(t)
            },
            Err(e) => Err(build_error(e.as_str())),
        }
    }
}

/// Updates the values of some columns of the item `item`.
///
/// ```rust
/// outbound("item #1")
///     .status_label("status", "Opened")
///     .date("date4", NaiveDate::from_ymd_opt(1970, 1, 1).unwrap())
///     .text("text", "text")
///     .build()
/// ```
pub fn outbound(item: &str) -> (r: OutboundData)
    ensures
        r@.item == item@,
        r@.values == Map::<Seq<char>, JsonValue>::empty(),
        numbers_ok_fields(r@.values),
{
    OutboundData { item: item.to_owned(), values: FieldMap::new() }
}

} // verus!
