//! Reservations as they are exported: the text of a CSV file and the cells of
//! a spreadsheet. The caller writes the files.

use vstd::prelude::*;
use vstd::string::*;
use crate::clock::{earlier_day, earlier_day_text};
use crate::text::{same_text, text_of, texts};

verus! {

/// One reservation, as exported.
#[derive(Debug, PartialEq, Eq)]
pub struct ReservationExport {
    pub date: String,
    pub time: String,
    pub customer_name: String,
    pub customer_phone: Option<String>,
    pub designer_name: Option<String>,
    pub service_type: Option<String>,
    pub status: String,
    pub notes: Option<String>,
}

/// The Korean word for a reservation status; an unknown status is kept as it is.
pub open spec fn status_label(status: Seq<char>) -> Seq<char> {
    if status == "pending"@ {
        "대기중"@
    } else if status == "confirmed"@ {
        "확정"@
    } else if status == "completed"@ {
        "완료"@
    } else if status == "cancelled"@ {
        "취소"@
    } else if status == "no_show"@ {
        "노쇼"@
    } else {
        status
    }
}

/// The status of a reservation in Korean.
pub fn status_to_korean(status: &str) -> (label: String)
    ensures
        label@ == status_label(status@),
{
    if same_text(status, "pending") {
        String::from_str("대기중")
    } else if same_text(status, "confirmed") {
        String::from_str("확정")
    } else if same_text(status, "completed") {
        String::from_str("완료")
    } else if same_text(status, "cancelled") {
        String::from_str("취소")
    } else if same_text(status, "no_show") {
        String::from_str("노쇼")
    } else {
        String::from_str(status)
    }
}

/// Whether a character forces a CSV field into quotes.
pub open spec fn is_special(c: char) -> bool {
    c == ',' || c == '"' || c == '\n'
}

/// Whether a CSV field must be quoted: it holds a comma, a quote or a line break.
pub open spec fn needs_quoting(value: Seq<char>) -> bool {
    exists|i: int| 0 <= i < value.len() && is_special(#[trigger] value[i])
}

/// A text with every quote doubled.
pub open spec fn doubled_quotes(value: Seq<char>) -> Seq<char>
    decreases value.len(),
{
    if value.len() == 0 {
        Seq::empty()
    } else if value.last() == '"' {
        doubled_quotes(value.drop_last()) + seq!['"', '"']
    } else {
        doubled_quotes(value.drop_last()).push(value.last())
    }
}

/// A text as a CSV field: as it is, or in quotes with its own quotes doubled
/// where it holds a comma, a quote or a line break.
pub open spec fn csv_escaped(value: Seq<char>) -> Seq<char> {
    if needs_quoting(value) {
        seq!['"'] + doubled_quotes(value) + seq!['"']
    } else {
        value
    }
}

/// Writes a text as a CSV field.
pub fn escape_csv(value: &str) -> (field: String)
    ensures
        field@ == csv_escaped(value@),
{
    let n = value.unicode_len();
    let mut special = false;
    let mut i: usize = 0;
    while i < n
        invariant
            n == value@.len(),
            i <= n,
            special == exists|k: int| 0 <= k < i && is_special(#[trigger] value@[k]),
        decreases n - i,
    {
        let c = value.get_char(i);
        if c == ',' || c == '"' || c == '\n' {
            special = true;
        }
        i = i + 1;
    }
    if !special {
        return String::from_str(value);
    }
    proof {
        reveal_strlit("\"");
        reveal_strlit("\"\"");
    }
    let mut field = String::from_str("\"");
    let mut j: usize = 0;
    assert(value@.subrange(0, 0) =~= Seq::<char>::empty());
    assert(field@ =~= seq!['"'] + doubled_quotes(value@.subrange(0, 0)));
    while j < n
        invariant
            n == value@.len(),
            j <= n,
            field@ == seq!['"'] + doubled_quotes(value@.subrange(0, j as int)),
            "\""@ == seq!['"'],
            "\"\""@ == seq!['"', '"'],
        decreases n - j,
    {
        let ghost head = value@.subrange(0, j as int);
        let ghost upto = value@.subrange(0, j + 1);
        assert(upto.drop_last() =~= head);
        assert(upto.last() == value@[j as int]);
        if value.get_char(j) == '"' {
            field.append("\"\"");
            assert(field@ =~= seq!['"'] + doubled_quotes(upto));
        } else {
            let piece = value.substring_char(j, j + 1);
            assert(piece@ =~= seq![value@[j as int]]);
            field.append(piece);
            assert(field@ =~= seq!['"'] + doubled_quotes(upto));
        }
        j = j + 1;
    }
    assert(value@.subrange(0, n as int) =~= value@);
    field.append("\"");
    field
}

/// An optional text, or what stands for it when it is missing.
pub open spec fn text_or(value: Option<String>, fallback: Seq<char>) -> Seq<char> {
    match value {
        Some(t) => t@,
        None => fallback,
    }
}

fn text_or_else(value: &Option<String>, fallback: &str) -> (t: String)
    ensures
        t@ == text_or(*value, fallback@),
{
    match value {
        Some(t) => t.clone(),
        None => String::from_str(fallback),
    }
}

/// The header of the CSV file.
pub open spec fn csv_header() -> Seq<char> {
    "날짜,시간,고객명,연락처,디자이너,서비스,상태,메모\n"@
}

/// The line of the CSV file for one reservation. Date, time and status are
/// written as they are, the other fields as CSV fields; a missing field is empty.
pub open spec fn csv_line_of(r: ReservationExport) -> Seq<char> {
    r.date@ + ","@ + r.time@ + ","@ + csv_escaped(r.customer_name@) + ","@ + csv_escaped(
        text_or(r.customer_phone, Seq::empty()),
    ) + ","@ + csv_escaped(text_or(r.designer_name, Seq::empty())) + ","@ + csv_escaped(
        text_or(r.service_type, Seq::empty()),
    ) + ","@ + status_label(r.status@) + ","@ + csv_escaped(text_or(r.notes, Seq::empty())) + "\n"@
}

/// The text of the CSV file for the reservations: the header, then a line each.
pub open spec fn csv_text(reservations: Seq<ReservationExport>) -> Seq<char>
    decreases reservations.len(),
{
    if reservations.len() == 0 {
        csv_header()
    } else {
        csv_text(reservations.drop_last()) + csv_line_of(reservations.last())
    }
}

/// Writes the line of the CSV file for one reservation.
pub fn csv_line(r: &ReservationExport) -> (line: String)
    ensures
        line@ == csv_line_of(*r),
{
    proof {
        reveal_strlit("");
    }
    let mut line = r.date.clone();
    line.append(",");
    line.append(r.time.as_str());
    line.append(",");
    line.append(escape_csv(r.customer_name.as_str()).as_str());
    line.append(",");
    line.append(escape_csv(text_or_else(&r.customer_phone, "").as_str()).as_str());
    line.append(",");
    line.append(escape_csv(text_or_else(&r.designer_name, "").as_str()).as_str());
    line.append(",");
    line.append(escape_csv(text_or_else(&r.service_type, "").as_str()).as_str());
    line.append(",");
    line.append(status_to_korean(r.status.as_str()).as_str());
    line.append(",");
    line.append(escape_csv(text_or_else(&r.notes, "").as_str()).as_str());
    line.append("\n");
    assert(""@ =~= Seq::<char>::empty());
    line
}

/// Writes the CSV file for the reservations.
pub fn export_to_csv(reservations: &Vec<ReservationExport>) -> (content: String)
    ensures
        content@ == csv_text(reservations@),
{
    let mut content = String::from_str("날짜,시간,고객명,연락처,디자이너,서비스,상태,메모\n");
    let mut i: usize = 0;
    assert(reservations@.subrange(0, 0) =~= Seq::<ReservationExport>::empty());
    while i < reservations.len()
        invariant
            i <= reservations.len(),
            content@ == csv_text(reservations@.subrange(0, i as int)),
        decreases reservations.len() - i,
    {
        let ghost upto = reservations@.subrange(0, i + 1);
        assert(upto.drop_last() =~= reservations@.subrange(0, i as int));
        assert(upto.last() == reservations@[i as int]);
        content.append(csv_line(&reservations[i]).as_str());
        i = i + 1;
    }
    assert(reservations@.subrange(0, i as int) =~= reservations@);
    content
}

/// The first row of the spreadsheet.
pub open spec fn sheet_header() -> Seq<Seq<char>> {
    seq!["날짜"@, "시간"@, "고객명"@, "연락처"@, "디자이너"@, "서비스"@, "상태"@, "메모"@]
}

/// The row of the spreadsheet for one reservation. A missing phone, designer
/// or service shows as a dash, missing notes as nothing.
pub open spec fn sheet_row_of(r: ReservationExport) -> Seq<Seq<char>> {
    seq![
        r.date@,
        r.time@,
        r.customer_name@,
        text_or(r.customer_phone, "-"@),
        text_or(r.designer_name, "-"@),
        text_or(r.service_type, "-"@),
        status_label(r.status@),
        text_or(r.notes, Seq::empty()),
    ]
}

/// The rows of the spreadsheet: the header, then a row for each reservation.
pub open spec fn sheet_rows_of(reservations: Seq<ReservationExport>) -> Seq<Seq<Seq<char>>> {
    Seq::new(
        reservations.len() + 1,
        |i: int|
            if i == 0 {
                sheet_header()
            } else {
                sheet_row_of(reservations[i - 1])
            },
    )
}

/// The cells of a list of rows.
pub open spec fn rows_view(rows: Seq<Vec<String>>) -> Seq<Seq<Seq<char>>> {
    Seq::new(rows.len(), |i: int| texts(rows[i]@))
}

/// The width of each column of the spreadsheet, in characters.
pub open spec fn sheet_widths() -> Seq<u32> {
    seq![12u32, 8u32, 15u32, 15u32, 12u32, 15u32, 10u32, 30u32]
}

fn header_row() -> (row: Vec<String>)
    ensures
        texts(row@) == sheet_header(),
{
    let row = vec![
        String::from_str("날짜"),
        String::from_str("시간"),
        String::from_str("고객명"),
        String::from_str("연락처"),
        String::from_str("디자이너"),
        String::from_str("서비스"),
        String::from_str("상태"),
        String::from_str("메모"),
    ];
    assert(texts(row@) =~= sheet_header());
    row
}

/// Writes the row of the spreadsheet for one reservation.
pub fn sheet_row(r: &ReservationExport) -> (row: Vec<String>)
    ensures
        texts(row@) == sheet_row_of(*r),
{
    proof {
        reveal_strlit("");
    }
    let row = vec![
        r.date.clone(),
        r.time.clone(),
        r.customer_name.clone(),
        text_or_else(&r.customer_phone, "-"),
        text_or_else(&r.designer_name, "-"),
        text_or_else(&r.service_type, "-"),
        status_to_korean(r.status.as_str()),
        text_or_else(&r.notes, ""),
    ];
    assert(""@ =~= Seq::<char>::empty());
    assert(texts(row@) =~= sheet_row_of(*r));
    row
}

/// Lays the reservations out as the rows of the spreadsheet.
pub fn export_reservations(reservations: &Vec<ReservationExport>) -> (rows: Vec<Vec<String>>)
    ensures
        rows_view(rows@) == sheet_rows_of(reservations@),
{
    let mut rows: Vec<Vec<String>> = Vec::new();
    rows.push(header_row());
    let mut i: usize = 0;
    while i < reservations.len()
        invariant
            i <= reservations.len(),
            rows@.len() == i + 1,
            texts(rows@[0]@) == sheet_header(),
            forall|k: int| 1 <= k <= i ==> texts((#[trigger] rows@[k])@) == sheet_row_of(
                reservations@[k - 1],
            ),
        decreases reservations.len() - i,
    {
        rows.push(sheet_row(&reservations[i]));
        i = i + 1;
    }
    assert(rows_view(rows@) =~= sheet_rows_of(reservations@));
    rows
}

/// How a cell of the spreadsheet looks.
#[derive(Debug, Clone, Copy, PartialEq, Eq, Structural)]
pub enum CellStyle {
    /// Bold and centred, white on the salon's colour.
    Header,
    /// Centred.
    Centered,
    /// As it comes.
    Plain,
}

/// The look of the cell in a row and column, both counted from zero: the
/// first row is the header, and below it date and time are centred.
pub fn cell_style(row: usize, col: usize) -> (style: CellStyle)
    ensures
        style == if row == 0 {
            CellStyle::Header
        } else if col < 2 {
            CellStyle::Centered
        } else {
            CellStyle::Plain
        },
{
    if row == 0 {
        CellStyle::Header
    } else if col < 2 {
        CellStyle::Centered
    } else {
        CellStyle::Plain
    }
}

/// The widths to give the columns of the spreadsheet.
pub fn column_widths() -> (widths: Vec<u32>)
    ensures
        widths@ == sheet_widths(),
{
    let widths = vec![12u32, 8u32, 15u32, 15u32, 12u32, 15u32, 10u32, 30u32];
    assert(widths@ =~= sheet_widths());
    widths
}

/// The first and the last day of the reservations to export, for a period
/// chosen on the day `year`-`month`-`day`: this month from its first to its
/// last day, the last three months as the ninety days up to today, and
/// everything for any other choice.
pub open spec fn period_range_of(
    period: Seq<char>,
    year: i32,
    month: u32,
    day: u32,
) -> Option<(Seq<char>, Seq<char>)> {
    if period == "this_month"@ {
        let (next_year, next_month) = if month == 12 {
            (year + 1, 1int)
        } else {
            (year as int, month + 1)
        };
        if next_year > i32::MAX || month < 1 || month > 12 {
            None
        } else {
            match (
                earlier_day_text(year, month, 1, 0),
                earlier_day_text(next_year as i32, next_month as u32, 1, 1),
            ) {
                (Some(first), Some(last)) => Some((first, last)),
                _ => None,
            }
        }
    } else if period == "last_3_months"@ {
        match (earlier_day_text(year, month, day, 90), earlier_day_text(year, month, day, 0)) {
            (Some(first), Some(last)) => Some((first, last)),
            _ => None,
        }
    } else {
        Some(("1970-01-01"@, "2099-12-31"@))
    }
}

/// What a range of days stands for.
pub open spec fn range_view(r: Option<(String, String)>) -> Option<(Seq<char>, Seq<char>)> {
    match r {
        Some((first, last)) => Some((first@, last@)),
        None => None,
    }
}

/// Puts two days together as a range, if both are there.
pub fn day_range(first: Option<String>, last: Option<String>) -> (r: Option<(String, String)>)
    ensures
        range_view(r) == match (text_of(first), text_of(last)) {
            (Some(a), Some(b)) => Some((a, b)),
            _ => None,
        },
{
    match (first, last) {
        (Some(a), Some(b)) => Some((a, b)),
        _ => None,
    }
}

/// Finds the days to export for a period chosen on the day given. `None` if
/// that day is no calendar day.
pub fn period_range(period: &str, year: i32, month: u32, day: u32) -> (r: Option<(String, String)>)
    ensures
        range_view(r) == period_range_of(period@, year, month, day),
{
    if same_text(period, "this_month") {
        if month < 1 || month > 12 {
            return None;
        }
        let (next_year, next_month) = if month == 12 {
            if year == i32::MAX {
                return None;
            }
            (year + 1, 1)
        } else {
            (year, month + 1)
        };
        day_range(earlier_day(year, month, 1, 0), earlier_day(next_year, next_month, 1, 1))
    } else if same_text(period, "last_3_months") {
        day_range(earlier_day(year, month, day, 90), earlier_day(year, month, day, 0))
    } else {
        Some((String::from_str("1970-01-01"), String::from_str("2099-12-31")))
    }
}

} // verus!
