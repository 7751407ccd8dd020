//! Statistics: the span of days a period stands for, and the rows reported.

use vstd::prelude::*;
use vstd::string::*;
use crate::clock::{day_layout, day_stamp, utc_text};
use crate::text::{same_text, text_of};

verus! {

/// The designer with the most reservations.
#[derive(Debug, PartialEq, Eq)]
pub struct TopDesigner {
    pub name: String,
    pub count: i32,
}

/// The service asked for most.
#[derive(Debug, PartialEq, Eq)]
pub struct TopService {
    pub name: String,
    pub count: i32,
}

/// The reservations of one day.
#[derive(Debug, PartialEq, Eq)]
pub struct DailyStatistic {
    pub date: String,
    pub total: i32,
    pub completed: i32,
    pub cancelled: i32,
}

/// The reservations of one hour of the day.
#[derive(Debug, PartialEq, Eq)]
pub struct HourlyStatistic {
    pub hour: String,
    pub count: i32,
}

/// The number of days a period looks back: a week, a month, a quarter, or a
/// year for anything else.
pub open spec fn days_of(period: Seq<char>) -> i64 {
    if period == "7d"@ {
        7
    } else if period == "30d"@ {
        30
    } else if period == "90d"@ {
        90
    } else {
        365
    }
}

/// The number of days a period looks back.
pub fn period_days(period: &str) -> (days: i64)
    ensures
        days == days_of(period@),
{
    if same_text(period, "7d") {
        7
    } else if same_text(period, "30d") {
        30
    } else if same_text(period, "90d") {
        90
    } else {
        365
    }
}

/// The first day of a period that ends at `now`: the calendar day, in UTC,
/// of the time as many days before `now` as the period looks back. `None` if
/// that time is outside the range of the calendar.
pub open spec fn period_start(period: Seq<char>, now: i64) -> Option<Seq<char>> {
    let start = now - days_of(period) * 86_400;
    if start < i64::MIN {
        None
    } else {
        utc_text(start as i64, day_layout())
    }
}

/// Finds the first day of a period that ends at `now`.
pub fn statistics_start(period: &str, now: i64) -> (r: Option<String>)
    ensures
        text_of(r) == period_start(period@, now),
{
    let span: i64 = period_days(period) * 86_400;
    match now.checked_sub(span) {
        Some(start) => day_stamp(start),
        None => None,
    }
}

} // verus!
