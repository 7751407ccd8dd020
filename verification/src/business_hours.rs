//! Opening hours, a row for each day of the week.

use vstd::prelude::*;
use crate::designers::flag_is_set;
use crate::text::text_of;

verus! {

/// The opening hours of one day of the week, as stored.
#[derive(Debug, PartialEq, Eq)]
pub struct BusinessHours {
    pub id: i32,
    pub day_of_week: i32,
    pub open_time: Option<String>,
    pub close_time: Option<String>,
    pub break_start: Option<String>,
    pub break_end: Option<String>,
    pub is_closed: bool,
}

/// The opening hours asked for one day of the week.
#[derive(Debug, PartialEq, Eq)]
pub struct UpdateBusinessHoursInput {
    pub day_of_week: i32,
    pub open_time: Option<String>,
    pub close_time: Option<String>,
    pub break_start: Option<String>,
    pub break_end: Option<String>,
    pub is_closed: bool,
}

/// Puts a stored row together, reading the flag that tells whether the
/// salon is closed that day: 1 means closed.
pub fn row_to_business_hours(
    id: i32,
    day_of_week: i32,
    open_time: Option<String>,
    close_time: Option<String>,
    break_start: Option<String>,
    break_end: Option<String>,
    closed_flag: i32,
) -> (row: BusinessHours)
    ensures
        row.id == id,
        row.day_of_week == day_of_week,
        text_of(row.open_time) == text_of(open_time),
        text_of(row.close_time) == text_of(close_time),
        text_of(row.break_start) == text_of(break_start),
        text_of(row.break_end) == text_of(break_end),
        row.is_closed == (closed_flag == 1),
{
    BusinessHours {
        id,
        day_of_week,
        open_time,
        close_time,
        break_start,
        break_end,
        is_closed: flag_is_set(closed_flag),
    }
}

} // verus!
