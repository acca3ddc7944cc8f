//! Dates in forms: reading a start and an end date from day, month and year
//! inputs, writing a date back into such inputs, and judging the pair.

use crate::decimal::{decimal, lemma_decimal_parses, parse_i64, parsed_i64, render_i64};
use crate::helpers::{chars_of, string_of};
use crate::text::{lemma_trim_keeps_unpadded, trim_chars, trimmed};
use crate::validity::ValiditySynchronous;
use vstd::prelude::*;

verus! {

/// The earliest year that a date may have
pub const MIN_YEAR: i64 = -50000;

/// The latest year that a date may have
pub const MAX_YEAR: i64 = 10000;

/// The number that an input holds: its text without surrounding whitespace,
/// read as an `i64`
pub open spec fn input_number(s: Seq<char>) -> Option<int> {
    parsed_i64(trimmed(s))
}

/// Whether the optional `i64` holds the optional number `n`
pub open spec fn holds_number(r: Option<i64>, n: Option<int>) -> bool {
    match r {
        Some(v) => n == Some(v as int),
        None => n is None,
    }
}

/// The month picked in a month selector whose entry 0 is blank and whose
/// entries 1 to 12 are the months
pub open spec fn selected_month(index: usize) -> Option<int> {
    if 1 <= index <= 12 {
        Some(index as int)
    } else {
        None
    }
}

/// A date as read from its inputs, before the date rules are applied to it
#[derive(Clone, Copy, Debug, PartialEq, Eq)]
pub struct DateComponents {
    pub day: Option<i64>,
    pub month: Option<i64>,
    pub year: i64,
}

/// The components are what the three inputs hold
pub open spec fn components_read(
    c: DateComponents,
    day: Seq<char>,
    month: usize,
    year: Seq<char>,
) -> bool {
    &&& holds_number(c.day, input_number(day))
    &&& holds_number(c.month, selected_month(month))
    &&& input_number(year) == Some(c.year as int)
}

/// The number that an input holds, if it holds one
pub fn read_input_number(s: &str) -> (r: Option<i64>)
    ensures
        holds_number(r, input_number(s@)),
{
    let chars = chars_of(s);
    let t = trim_chars(&chars);
    parse_i64(&t)
}

/// The month picked in a month selector
pub fn read_selected_month(index: usize) -> (r: Option<i64>)
    ensures
        holds_number(r, selected_month(index)),
{
    if 1 <= index && index <= 12 {
        Some(index as i64)
    } else {
        None
    }
}

/// Read a start date, which must have a year
pub fn read_start_date(day: &str, month: usize, year: &str) -> (r: Result<DateComponents, String>)
    ensures
        match r {
            Ok(c) => components_read(c, day@, month, year@),
            Err(msg) => input_number(year@) is None && msg@ == "No start year"@,
        },
{
    let start_day = read_input_number(day);
    let start_month = read_selected_month(month);
    match read_input_number(year) {
        Some(start_year) => Ok(DateComponents { day: start_day, month: start_month, year: start_year }),
        None => Err(String::from_str("No start year")),
    }
}

/// Read an end date: `Ok(None)` when no input holds anything, and an error
/// when a day or a month is given without a year
pub fn read_end_date(day: &str, month: usize, year: &str) -> (r: Result<
    Option<DateComponents>,
    String,
>)
    ensures
        match r {
            Ok(None) => input_number(day@) is None && selected_month(month) is None
                && input_number(year@) is None,
            Ok(Some(c)) => components_read(c, day@, month, year@),
            Err(msg) => input_number(year@) is None && (input_number(day@) is Some
                || selected_month(month) is Some) && msg@ == "End year is empty"@,
        },
{
    let end_day = read_input_number(day);
    let end_month = read_selected_month(month);
    match read_input_number(year) {
        Some(end_year) => Ok(Some(DateComponents { day: end_day, month: end_month, year: end_year })),
        None => {
            if end_day.is_none() && end_month.is_none() {
                Ok(None)
            } else {
                Err(String::from_str("End year is empty"))
            }
        },
    }
}

/// The text that an input shows for an optional number: its decimal text,
/// or nothing
pub open spec fn shown_number(n: Option<int>) -> Seq<char> {
    match n {
        Some(v) => decimal(v),
        None => Seq::empty(),
    }
}

/// The inputs that show a date: the day's text, the index of the month in
/// the month selector (0 when there is no month) and the year's text
pub fn gui_date_components_from_date(day: Option<u8>, month: Option<u8>, year: i64) -> (inputs: (
    String,
    usize,
    String,
))
    ensures
        inputs.0@ == shown_number(
            match day {
                Some(d) => Some(d as int),
                None => None,
            },
        ),
        inputs.1 == (match month {
            Some(m) => m as usize,
            None => 0,
        }),
        inputs.2@ == decimal(year as int),
{
    let year_text = string_of(&render_i64(year));
    let month_index: usize = match month {
        Some(m) => m as usize,
        None => 0,
    };
    let day_text = match day {
        Some(d) => string_of(&render_i64(d as i64)),
        None => String::new(),
    };
    (day_text, month_index, year_text)
}

/// The text of an `i64` is what the input reads back as that number
pub proof fn lemma_shown_number_reads_back(v: i64)
    ensures
        input_number(decimal(v as int)) == Some(v as int),
{
    let t = decimal(v as int);
    lemma_decimal_parses(v as int, i64::MIN as int, i64::MAX as int);
    lemma_trim_keeps_unpadded(t);
}

/// An empty input holds no number
pub proof fn lemma_empty_input_holds_nothing()
    ensures
        input_number(Seq::<char>::empty()) is None,
{
    assert(trimmed(Seq::<char>::empty()) =~= Seq::<char>::empty());
}

/// Writing a date into the inputs and reading a start date back gives the
/// date's own components, for every month that the selector offers
pub proof fn law_date_inputs_read_back(day: Option<u8>, month: Option<u8>, year: i64)
    requires
        month matches Some(m) ==> 1 <= m <= 12,
    ensures
        ({
            let day_text = shown_number(
                match day {
                    Some(d) => Some(d as int),
                    None => None,
                },
            );
            let month_index: usize = match month {
                Some(m) => m as usize,
                None => 0,
            };
            &&& input_number(day_text) == (match day {
                Some(d) => Some(d as int),
                None => None::<int>,
            })
            &&& selected_month(month_index) == (match month {
                Some(m) => Some(m as int),
                None => None::<int>,
            })
            &&& input_number(decimal(year as int)) == Some(year as int)
        }),
{
    lemma_shown_number_reads_back(year);
    match day {
        Some(d) => lemma_shown_number_reads_back(d as i64),
        None => lemma_empty_input_holds_nothing(),
    }
}

/// What the dates of a form are judged to be, from what the date rules said
/// of each: `start` is the start date's check, `end` the end date's check
/// (`Ok(None)` when there is no end date, `Ok(Some(after))` when there is
/// one, `after` telling whether the start falls after it)
pub open spec fn dates_validity_spec(
    start: Result<(), Seq<char>>,
    end: Result<Option<bool>, Seq<char>>,
) -> Result<(), Seq<char>> {
    match start {
        Err(msg) => Err(msg),
        Ok(()) => match end {
            Err(msg) => Err(msg),
            Ok(Some(true)) => Err("The start date must be before the end date"@),
            _ => Ok(()),
        },
    }
}

/// The view of a synchronous validity: `Ok` when valid, else the message
pub open spec fn validity_view(v: ValiditySynchronous) -> Result<(), Seq<char>> {
    match v {
        ValiditySynchronous::Valid => Ok(()),
        ValiditySynchronous::Invalid(msg) => Err(msg@),
    }
}

/// The view of a check's result: `Ok` or the message
pub open spec fn check_view<T>(r: Result<T, String>) -> Result<T, Seq<char>> {
    match r {
        Ok(v) => Ok(v),
        Err(msg) => Err(msg@),
    }
}

/// Judge the dates of a form from what the date rules said of the start and
/// of the end date: the first problem found, in that order, or valid
pub fn dates_validity(start: Result<(), String>, end: Result<Option<bool>, String>) -> (validity:
    ValiditySynchronous)
    ensures
        validity_view(validity) == dates_validity_spec(check_view(start), check_view(end)),
{
    match start {
        Err(msg) => ValiditySynchronous::Invalid(msg),
        Ok(()) => match end {
            Err(msg) => ValiditySynchronous::Invalid(msg),
            Ok(Some(true)) => ValiditySynchronous::Invalid(
                String::from_str("The start date must be before the end date"),
            ),
            _ => ValiditySynchronous::Valid,
        },
    }
}

/// What the date rules said of the start date, as a check
pub open spec fn start_check_view<D>(start: Result<D, String>) -> Result<(), Seq<char>> {
    match start {
        Ok(_) => Ok(()),
        Err(msg) => Err(msg@),
    }
}

/// What the date rules said of the end date, as a check: whether there is an
/// end date, and then whether the start falls after it
pub open spec fn end_check_view<D>(end: Result<Option<D>, String>, start_after_end: bool) -> Result<
    Option<bool>,
    Seq<char>,
> {
    match end {
        Ok(Some(_)) => Ok(Some(start_after_end)),
        Ok(None) => Ok(None),
        Err(msg) => Err(msg@),
    }
}

/// Judge the dates of a form from the start date and the end date that the
/// date rules made of the inputs (or their errors), and from whether the
/// start falls after the end (used only when both are dates): the start's
/// error first, then the end's, then their order
pub fn judge_dates<D>(start: &Result<D, String>, end: &Result<Option<D>, String>, start_after_end: bool) -> (validity: ValiditySynchronous)
    ensures
        validity_view(validity) == dates_validity_spec(
            start_check_view(*start),
            end_check_view(*end, start_after_end),
        ),
{
    let start_check: Result<(), String> = match start {
        Ok(_) => Ok(()),
        Err(msg) => Err(msg.clone()),
    };
    let end_check: Result<Option<bool>, String> = match end {
        Ok(Some(_)) => Ok(Some(start_after_end)),
        Ok(None) => Ok(None),
        Err(msg) => Err(msg.clone()),
    };
    dates_validity(start_check, end_check)
}

/// The judgement of a form's dates: the start date's error comes first,
/// then the end date's; with no end date the dates are valid; with both
/// dates the form is invalid exactly when the start falls after the end, and
/// then with the message "The start date must be before the end date"
pub proof fn law_judged_dates<D>(
    start: Result<D, String>,
    end: Result<Option<D>, String>,
    start_after_end: bool,
)
    ensures
        ({
            let v = dates_validity_spec(
                start_check_view(start),
                end_check_view(end, start_after_end),
            );
            &&& match start {
                Err(msg) => v == Err::<(), Seq<char>>(msg@),
                Ok(_) => match end {
                    Err(msg) => v == Err::<(), Seq<char>>(msg@),
                    Ok(None) => v == Ok::<(), Seq<char>>(()),
                    Ok(Some(_)) => {
                        &&& (v is Err <==> start_after_end)
                        &&& start_after_end ==> v == Err::<(), Seq<char>>(
                            "The start date must be before the end date"@,
                        )
                        &&& !start_after_end ==> v == Ok::<(), Seq<char>>(())
                    },
                },
            }
        }),
{
}

} // verus!
