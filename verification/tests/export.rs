use sisters_salon::export::{
    cell_style, CellStyle, column_widths, csv_line, escape_csv, export_reservations, export_to_csv, period_range,
    sheet_row, status_to_korean, ReservationExport,
};
use sisters_salon::statistics::{period_days, statistics_start};

fn full() -> ReservationExport {
    ReservationExport {
        date: "2024-03-01".to_string(),
        time: "10:30".to_string(),
        customer_name: "Kim, Mina".to_string(),
        customer_phone: Some("010-1234-5678".to_string()),
        designer_name: Some("Lee".to_string()),
        service_type: Some("cut \"and\" dye".to_string()),
        status: "confirmed".to_string(),
        notes: Some("first line\nsecond".to_string()),
    }
}

fn bare() -> ReservationExport {
    ReservationExport {
        date: "2024-03-02".to_string(),
        time: "09:00".to_string(),
        customer_name: "Park".to_string(),
        customer_phone: None,
        designer_name: None,
        service_type: None,
        status: "walk_in".to_string(),
        notes: None,
    }
}

#[test]
fn status_words() {
    assert_eq!(status_to_korean("pending"), "대기중");
    assert_eq!(status_to_korean("confirmed"), "확정");
    assert_eq!(status_to_korean("completed"), "완료");
    assert_eq!(status_to_korean("cancelled"), "취소");
    assert_eq!(status_to_korean("no_show"), "노쇼");
    assert_eq!(status_to_korean("walk_in"), "walk_in");
    assert_eq!(status_to_korean(""), "");
    assert_eq!(status_to_korean("Pending"), "Pending");
}

#[test]
fn escape_plain_text_is_unchanged() {
    assert_eq!(escape_csv("plain"), "plain");
    assert_eq!(escape_csv(""), "");
    assert_eq!(escape_csv("한글 메모"), "한글 메모");
    assert_eq!(escape_csv("semi;colon"), "semi;colon");
}

#[test]
fn escape_quotes_specials() {
    assert_eq!(escape_csv("a,b"), "\"a,b\"");
    assert_eq!(escape_csv("say \"hi\""), "\"say \"\"hi\"\"\"");
    assert_eq!(escape_csv("two\nlines"), "\"two\nlines\"");
    assert_eq!(escape_csv("\""), "\"\"\"\"");
    assert_eq!(escape_csv(","), "\",\"");
    assert_eq!(escape_csv("값, \"인용\""), "\"값, \"\"인용\"\"\"");
}

#[test]
fn csv_line_of_full_and_bare() {
    assert_eq!(
        csv_line(&full()),
        "2024-03-01,10:30,\"Kim, Mina\",010-1234-5678,Lee,\"cut \"\"and\"\" dye\",확정,\"first line\nsecond\"\n"
    );
    assert_eq!(csv_line(&bare()), "2024-03-02,09:00,Park,,,,walk_in,\n");
}

#[test]
fn csv_file_has_header_and_lines() {
    let header = "날짜,시간,고객명,연락처,디자이너,서비스,상태,메모\n";
    assert_eq!(export_to_csv(&Vec::new()), header);
    let content = export_to_csv(&vec![bare(), full()]);
    let expected = format!("{}{}{}", header, csv_line(&bare()), csv_line(&full()));
    assert_eq!(content, expected);
    assert!(content.starts_with(header));
    assert_eq!(content.matches("2024-03-0").count(), 2);
}

#[test]
fn sheet_rows_fill_gaps() {
    assert_eq!(
        sheet_row(&bare()),
        vec!["2024-03-02", "09:00", "Park", "-", "-", "-", "walk_in", ""]
    );
    assert_eq!(
        sheet_row(&full()),
        vec![
            "2024-03-01",
            "10:30",
            "Kim, Mina",
            "010-1234-5678",
            "Lee",
            "cut \"and\" dye",
            "확정",
            "first line\nsecond"
        ]
    );
}

#[test]
fn sheet_starts_with_header() {
    let rows = export_reservations(&vec![full(), bare()]);
    assert_eq!(rows.len(), 3);
    assert_eq!(
        rows[0],
        vec!["날짜", "시간", "고객명", "연락처", "디자이너", "서비스", "상태", "메모"]
    );
    assert_eq!(rows[1], sheet_row(&full()));
    assert_eq!(rows[2], sheet_row(&bare()));
    assert_eq!(export_reservations(&Vec::new()).len(), 1);
    assert_eq!(column_widths(), vec![12, 8, 15, 15, 12, 15, 10, 30]);
}

#[test]
fn cell_styles() {
    assert_eq!(cell_style(0, 0), CellStyle::Header);
    assert_eq!(cell_style(0, 7), CellStyle::Header);
    assert_eq!(cell_style(1, 0), CellStyle::Centered);
    assert_eq!(cell_style(9, 1), CellStyle::Centered);
    assert_eq!(cell_style(1, 2), CellStyle::Plain);
    assert_eq!(cell_style(usize::MAX, usize::MAX), CellStyle::Plain);
}

#[test]
fn period_this_month() {
    assert_eq!(
        period_range("this_month", 2024, 2, 15),
        Some(("2024-02-01".to_string(), "2024-02-29".to_string()))
    );
    assert_eq!(
        period_range("this_month", 2023, 12, 31),
        Some(("2023-12-01".to_string(), "2023-12-31".to_string()))
    );
    assert_eq!(
        period_range("this_month", 2023, 2, 1),
        Some(("2023-02-01".to_string(), "2023-02-28".to_string()))
    );
    assert_eq!(period_range("this_month", 2024, 13, 1), None);
    assert_eq!(period_range("this_month", 2024, 0, 1), None);
}

#[test]
fn period_last_three_months() {
    assert_eq!(
        period_range("last_3_months", 2024, 3, 31),
        Some(("2024-01-01".to_string(), "2024-03-31".to_string()))
    );
    assert_eq!(period_range("last_3_months", 2024, 2, 30), None);
}

#[test]
fn period_all_and_unknown() {
    let all = Some(("1970-01-01".to_string(), "2099-12-31".to_string()));
    assert_eq!(period_range("all", 2024, 2, 15), all);
    assert_eq!(period_range("whatever", 2024, 99, 99), all);
}

#[test]
fn statistics_periods() {
    assert_eq!(period_days("7d"), 7);
    assert_eq!(period_days("30d"), 30);
    assert_eq!(period_days("90d"), 90);
    assert_eq!(period_days("1y"), 365);
    assert_eq!(period_days(""), 365);
}

#[test]
fn statistics_start_day() {
    assert_eq!(statistics_start("7d", 10 * 86_400), Some("1970-01-04".to_string()));
    assert_eq!(statistics_start("30d", 1_709_251_200), Some("2024-01-31".to_string()));
    assert_eq!(statistics_start("x", 1_709_251_200 + 86_399), Some("2023-03-02".to_string()));
    assert_eq!(statistics_start("7d", i64::MIN + 5), None);
    assert_eq!(statistics_start("7d", i64::MAX), None);
}
