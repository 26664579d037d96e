//! The retrieval phrase of an online source: "Retrieved <month> <day>,
//! <year>, from" and its Spanish counterpart.

use crate::schema::Lang;
use crate::text::{decimal, push_decimal, push_signed_decimal, signed_decimal};
use chrono::{Datelike, Local};
use vstd::prelude::*;

verus! {

/// A calendar date.
#[derive(Clone, Copy, Debug, PartialEq, Eq, Structural)]
pub struct Date {
    /// 1 for January to 12 for December.
    pub month: u32,
    /// Day of the month, from 1.
    pub day: u32,
    pub year: i32,
}

impl Date {
    /// The month and the day are in the calendar's range.
    pub open spec fn in_calendar(self) -> bool {
        1 <= self.month <= 12 && 1 <= self.day <= 31
    }
}

/// The name of month `month` in `lang`, or a notice where there is no such
/// month.
pub open spec fn month_name(lang: Lang, month: u32) -> Seq<char> {
    match lang {
        Lang::English => if month == 1 {
            "January"@
        } else if month == 2 {
            "February"@
        } else if month == 3 {
            "March"@
        } else if month == 4 {
            "April"@
        } else if month == 5 {
            "May"@
        } else if month == 6 {
            "June"@
        } else if month == 7 {
            "July"@
        } else if month == 8 {
            "August"@
        } else if month == 9 {
            "September"@
        } else if month == 10 {
            "October"@
        } else if month == 11 {
            "November"@
        } else if month == 12 {
            "December"@
        } else {
            "month number out of range"@
        },
        Lang::Spanish => if month == 1 {
            "enero"@
        } else if month == 2 {
            "febrero"@
        } else if month == 3 {
            "marzo"@
        } else if month == 4 {
            "abril"@
        } else if month == 5 {
            "mayo"@
        } else if month == 6 {
            "junio"@
        } else if month == 7 {
            "julio"@
        } else if month == 8 {
            "agosto"@
        } else if month == 9 {
            "septiembre"@
        } else if month == 10 {
            "octubre"@
        } else if month == 11 {
            "noviembre"@
        } else if month == 12 {
            "diciembre"@
        } else {
            "month number out of range"@
        },
    }
}

/// The phrase that says in `lang` that a source was retrieved on `date`.
pub open spec fn retrieval_phrase(lang: Lang, date: Date) -> Seq<char> {
    match lang {
        Lang::English => "Retrieved "@ + month_name(lang, date.month) + " "@ + decimal(
            date.day as nat,
        ) + ", "@ + signed_decimal(date.year as int) + ", from"@,
        Lang::Spanish => "Consultado el "@ + decimal(date.day as nat) + " de "@ + month_name(
            lang,
            date.month,
        ) + ", "@ + signed_decimal(date.year as int) + ", de"@,
    }
}

/// Returns the name of the month depending on the language.
pub fn parse_month(lang: &Lang, month_number: u32) -> (name: String)
    ensures
        name@ == month_name(*lang, month_number),
{
    let month: &str = match lang {
        Lang::English => match month_number {
            1 => "January",
            2 => "February",
            3 => "March",
            4 => "April",
            5 => "May",
            6 => "June",
            7 => "July",
            8 => "August",
            9 => "September",
            10 => "October",
            11 => "November",
            12 => "December",
            _ => "month number out of range",
        },
        Lang::Spanish => match month_number {
            1 => "enero",
            2 => "febrero",
            3 => "marzo",
            4 => "abril",
            5 => "mayo",
            6 => "junio",
            7 => "julio",
            8 => "agosto",
            9 => "septiembre",
            10 => "octubre",
            11 => "noviembre",
            12 => "diciembre",
            _ => "month number out of range",
        },
    };
    month.to_string()
}

/// Writes the retrieval phrase for `date` in `lang`.
pub fn format_retrieval(lang: &Lang, date: &Date) -> (phrase: String)
    ensures
        phrase@ == retrieval_phrase(*lang, *date),
{
    let month = parse_month(lang, date.month);
    let mut phrase = String::new();
    match lang {
        Lang::English => {
            phrase.append("Retrieved ");
            phrase.append(month.as_str());
            phrase.append(" ");
            push_decimal(&mut phrase, date.day as u64);
            phrase.append(", ");
            push_signed_decimal(&mut phrase, date.year as i64);
            phrase.append(", from");
        },
        Lang::Spanish => {
            phrase.append("Consultado el ");
            push_decimal(&mut phrase, date.day as u64);
            phrase.append(" de ");
            phrase.append(month.as_str());
            phrase.append(", ");
            push_signed_decimal(&mut phrase, date.year as i64);
            phrase.append(", de");
        },
    }
    phrase
}

/// Reads the clock with `chrono::Local::now` and takes the month, the day
/// and the year of the local date through `Datelike`. The contract keeps
/// only the ranges that chrono documents for `month` and `day`; which date
/// comes back depends on the clock and the time zone of the machine. On a
/// machine whose clock stands before 1970, or whose time zone data gives no
/// usable offset, chrono stops the program.
#[verifier::external_body]
pub(crate) fn today() -> (date: Date)
    ensures
        date.in_calendar(),
{
    let now = Local::now();
    Date { month: now.month(), day: now.day(), year: now.year() }
}

/// The retrieval phrase for the current local date. It reads the clock, and
/// stops where chrono cannot tell the date; `format_retrieval` takes the date
/// from the caller instead.
pub fn retrive_current_date(lang: &Lang) -> (phrase: String)
    ensures
        exists|date: Date| date.in_calendar() && phrase@ == #[trigger] retrieval_phrase(*lang, date),
{
    let date = today();
    format_retrieval(lang, &date)
}

} // verus!
