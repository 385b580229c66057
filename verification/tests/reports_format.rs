use bursar::money::Money;
use bursar::reports::format_money;
use bursar::reports::{format_table, format_header_with, Align};

fn from_dollars(d: f64) -> Money {
    Money((d * 100_000_000.0).round() as i64)
}

#[test]
fn format_money_positive() {
    assert_eq!(format_money(from_dollars(1_234.56)), "1,234.56");
}

#[test]
fn format_money_zero() {
    assert_eq!(format_money(from_dollars(0.0)), "0.00");
}

#[test]
fn format_money_negative() {
    assert_eq!(format_money(from_dollars(-42.50)), "-42.50");
}

#[test]
fn format_money_large() {
    assert_eq!(format_money(from_dollars(1_000_000.00)), "1,000,000.00");
}

#[test]
fn format_money_rounds_to_nearest_cent() {
    assert_eq!(format_money(Money(123_456)), "0.00");
    assert_eq!(format_money(Money(500_000)), "0.01");
    assert_eq!(format_money(Money(-500_000)), "-0.01");
    assert_eq!(format_money(Money(-499_999)), "0.00");
    assert_eq!(format_money(Money(i64::MIN)), "-92,233,720,368.55");
    assert_eq!(format_money(Money(i64::MAX)), "92,233,720,368.55");
}

#[test]
fn format_table_contains_headers() {
    let headers = ["Account", "Debit", "Credit"];
    let rows: Vec<Vec<String>> = vec![];
    let alignments = [Align::Left, Align::Right, Align::Right];
    let t = format_table(&headers, &rows, &alignments);
    assert!(t.contains("Account"));
    assert!(t.contains("Debit"));
    assert!(t.contains("Credit"));
}

#[test]
fn format_table_contains_data_rows() {
    let headers = ["Account", "Amount"];
    let rows = vec![
        vec!["Cash".to_owned(), "500.00".to_owned()],
        vec!["Revenue".to_owned(), "500.00".to_owned()],
    ];
    let alignments = [Align::Left, Align::Right];
    let t = format_table(&headers, &rows, &alignments);
    assert!(t.contains("Cash"));
    assert!(t.contains("Revenue"));
    assert!(t.contains("500.00"));
}

#[test]
fn format_table_right_aligned_cell_is_right_padded() {
    let headers = ["Num"];
    let rows = vec![vec!["42".to_owned()]];
    let alignments = [Align::Right];
    let t = format_table(&headers, &rows, &alignments);
    assert!(
        t.contains("42 │") || t.contains("42│"),
        "42 should be right-aligned near │"
    );
}

#[test]
fn format_table_auto_expands_column_for_wide_data() {
    let headers = ["X"];
    let rows = vec![vec!["LongValue".to_owned()]];
    let alignments = [Align::Left];
    let t = format_table(&headers, &rows, &alignments);
    assert!(t.contains("LongValue"), "wide data cell should appear in output");
    let separator = t.lines().nth(2).expect("separator line missing");
    assert!(
        separator.chars().count() >= "LongValue".len() + 4,
        "separator too narrow: {}",
        separator
    );
}

#[test]
fn format_table_has_top_and_bottom_border() {
    let headers = ["Col"];
    let rows: Vec<Vec<String>> = vec![];
    let alignments = [Align::Left];
    let t = format_table(&headers, &rows, &alignments);
    let lines: Vec<&str> = t.lines().collect();
    assert!(lines[0].contains('┌'), "top-left corner missing");
    assert!(lines[0].contains('┐'), "top-right corner missing");
    let border_line = lines
        .iter()
        .rfind(|l| l.contains('└'))
        .expect("no bottom border");
    assert!(border_line.contains('└'), "bottom-left corner missing");
    assert!(border_line.contains('┘'), "bottom-right corner missing");
}

#[test]
fn format_table_has_end_of_report_marker() {
    let headers = ["Col"];
    let rows: Vec<Vec<String>> = vec![];
    let alignments = [Align::Left];
    let t = format_table(&headers, &rows, &alignments);
    assert!(t.contains("— End of Report —"), "end-of-report marker missing");
}

#[test]
fn format_table_box_lines_equal_char_width() {
    let headers = ["Account", "Debit", "Credit"];
    let rows = vec![
        vec!["Cash".to_owned(), "1,000.00".to_owned(), "0.00".to_owned()],
        vec!["Revenue".to_owned(), "0.00".to_owned(), "1,000.00".to_owned()],
    ];
    let alignments = [Align::Left, Align::Right, Align::Right];
    let t = format_table(&headers, &rows, &alignments);
    let widths: Vec<usize> = t
        .lines()
        .filter(|l| {
            l.starts_with('┌') || l.starts_with('│') || l.starts_with('├') || l.starts_with('└')
        })
        .map(|l| l.chars().count())
        .collect();
    let first = widths[0];
    assert!(widths.iter().all(|&w| w == first), "unequal widths: {:?}", widths);
}

#[test]
fn format_table_exact_layout() {
    let headers = ["Num", "Name"];
    let rows = vec![vec!["7".to_owned()], vec!["42".to_owned(), "Cash".to_owned(), "extra".to_owned()]];
    let alignments = [Align::Right];
    let t = format_table(&headers, &rows, &alignments);
    let expected = "┌─────┬──────┐\n│ Num │ Name │\n├─────┼──────┤\n│   7 │      │\n│  42 │ Cash │\n└─────┴──────┘\n\n— End of Report —";
    assert_eq!(t, expected);
}

#[test]
fn format_header_exact_layout() {
    let h = format_header_with("Acme LLC", "Trial Balance", "As of March 31, 2026", "Generated: now");
    let lines: Vec<&str> = h.lines().collect();
    assert_eq!(lines.len(), 7);
    let widths: Vec<usize> = lines.iter().map(|l| l.chars().count()).collect();
    assert!(widths.iter().all(|&w| w == 46), "widths: {:?}", widths);
    assert_eq!(lines[1], format!("│{:^44}│", "Acme LLC"));
    assert!(lines[4].contains("Accrual Basis"));
}

#[test]
fn format_header_contains_corner_chars() {
    let h = bursar::reports::format_header("Acme LLC", "Trial Balance", "As of 2026-03-31");
    assert!(h.contains('┌'), "missing TL corner");
    assert!(h.contains('┐'), "missing TR corner");
    assert!(h.contains('└'), "missing BL corner");
    assert!(h.contains('┘'), "missing BR corner");
}

#[test]
fn format_header_contains_content() {
    let h = bursar::reports::format_header("Acme LLC", "Balance Sheet", "As of 2026-03-31");
    assert!(h.contains("Acme LLC"), "entity name missing");
    assert!(h.contains("Balance Sheet"), "title missing");
    assert!(h.contains("As of 2026-03-31"), "date info missing");
    assert!(h.contains("Accrual Basis"), "basis line missing");
    assert!(h.contains("Generated:"), "generated timestamp missing");
}

#[test]
fn format_header_all_lines_equal_char_width() {
    let h = bursar::reports::format_header("Acme Land LLC", "Income Statement", "Jan 1 – Dec 31, 2026");
    let lines: Vec<&str> = h.lines().collect();
    assert!(lines.len() >= 7, "expected at least 7 lines (top + 5 content + bottom)");
    let widths: Vec<usize> = lines.iter().map(|l| l.chars().count()).collect();
    let first = widths[0];
    assert!(widths.iter().all(|&w| w == first), "lines have unequal widths: {:?}", widths);
}

#[test]
fn format_header_expands_for_long_content() {
    let long_entity = "A Very Long Entity Name That Exceeds The Minimum Width";
    let h = bursar::reports::format_header(long_entity, "Report", "2026");
    assert!(h.contains(long_entity), "long entity name should appear");
    let min_width = long_entity.len() + 2;
    for line in h.lines() {
        assert!(line.chars().count() >= min_width, "line too short: {}", line);
    }
}

#[test]
fn write_report_filename_includes_date() {
    let name = bursar::reports::builders::report_file_name("MyReport", bursar::date::Date::new(2026, 3, 16));
    assert_eq!(name, "MyReport03-16-2026.txt");
    let now = chrono::Local::now().date_naive();
    let today = bursar::date::Date::new(chrono::Datelike::year(&now), chrono::Datelike::month(&now), chrono::Datelike::day(&now));
    let filename = bursar::reports::builders::report_file_name("MyReport", today);
    let date_part = filename
        .strip_prefix("MyReport")
        .and_then(|s| s.strip_suffix(".txt"))
        .expect("filename format wrong");
    assert_eq!(date_part.len(), 10, "date should be MM-DD-YYYY: got '{}'", date_part);
    assert_eq!(&date_part[2..3], "-", "first dash missing");
    assert_eq!(&date_part[5..6], "-", "second dash missing");
}

#[test]
fn format_table_missing_alignments_are_left() {
    let rows = vec![vec!["a".to_string(), "42".to_string()]];
    let short = bursar::reports::format_table(&["Col1", "Number"], &rows, &[bursar::reports::Align::Right]);
    let full = bursar::reports::format_table(
        &["Col1", "Number"],
        &rows,
        &[bursar::reports::Align::Right, bursar::reports::Align::Left],
    );
    assert_eq!(short, full);
}

#[test]
fn format_table_ignores_extra_cells_and_pads_missing() {
    let rows = vec![
        vec!["a".to_string(), "b".to_string(), "extra".to_string()],
        vec!["c".to_string()],
    ];
    let fitted = vec![
        vec!["a".to_string(), "b".to_string()],
        vec!["c".to_string(), String::new()],
    ];
    let aligns = [bursar::reports::Align::Left, bursar::reports::Align::Left];
    assert_eq!(
        bursar::reports::format_table(&["X", "Y"], &rows, &aligns),
        bursar::reports::format_table(&["X", "Y"], &fitted, &aligns)
    );
    assert!(!bursar::reports::format_table(&["X", "Y"], &rows, &aligns).contains("extra"));
}
