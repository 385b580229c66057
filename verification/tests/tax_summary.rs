use bursar::date::Date;
use bursar::money::Money;
use bursar::reports::tax_summary::{PostedEntryTag, TaxFormInfo, TaxSummary};
use bursar::tax::{TaxReviewStatus, TaxTag};
use bursar::types::JournalEntryId;

fn forms() -> Vec<TaxFormInfo> {
    vec![
        TaxFormInfo {
            key: "schedule_c".to_owned(),
            display_name: "Schedule C".to_owned(),
            description: "Profit or Loss from Business".to_owned(),
        },
        TaxFormInfo {
            key: "schedule_a_charity".to_owned(),
            display_name: "Schedule A".to_owned(),
            description: "Charitable Contributions".to_owned(),
        },
        TaxFormInfo {
            key: "non_deductible".to_owned(),
            display_name: "Non-Deductible".to_owned(),
            description: "Not deductible".to_owned(),
        },
    ]
}

fn entry(n: i64, date: Date, memo: &str, amount: Money, tag: Option<(TaxReviewStatus, Option<&str>, Option<&str>)>) -> PostedEntryTag {
    PostedEntryTag {
        tag: tag.map(|(status, form, reason)| TaxTag {
            id: n,
            journal_entry_id: JournalEntryId(n),
            form_tag: form.map(|f| f.to_owned()),
            status,
            ai_suggested_form: None,
            reason: reason.map(|r| r.to_owned()),
            reviewed_at: None,
        }),
        je_number: format!("JE-{:04}", n),
        entry_date: date,
        memo: Some(memo.to_owned()),
        total_debits: amount,
    }
}

fn generate(entries: &[PostedEntryTag]) -> String {
    TaxSummary.generate("Test LLC", Date::new(2026, 1, 1), Date::new(2026, 12, 31), &forms(), entries)
}

#[test]
fn tax_summary_report_name() {
    assert_eq!(TaxSummary.name(), "TaxSummary");
}

#[test]
fn empty_data_generates_report() {
    let output = generate(&[]);
    assert!(output.contains("Tax Summary by Form"));
    assert!(output.contains("Non-Deductible:  0 entries"));
    assert!(output.contains("Unreviewed:      0 entries"));
    assert!(output.contains("End of Report"));
    assert!(!output.contains("Grand Total"));
}

#[test]
fn confirmed_entry_appears_with_reason() {
    let e = entry(
        1,
        Date::new(2026, 1, 15),
        "Office supplies",
        Money(6_799_000_000),
        Some((TaxReviewStatus::Confirmed, Some("schedule_c"), Some("Printer paper and ink"))),
    );
    let output = generate(&[e]);
    assert!(output.contains("Schedule C"), "section header missing");
    assert!(output.contains("Office supplies"), "memo missing");
    assert!(output.contains("Printer paper and ink"), "reason missing");
    assert!(output.contains("67.99"), "amount missing");
    assert!(output.contains("Schedule C — Profit or Loss from Business"));
    let line = format!("  Jan 15  JE-0001  {:<20}  {:>10}", "Office supplies", "67.99");
    assert!(output.lines().any(|l| l == line), "entry line layout");
    let reason = format!("{}Reason: Printer paper and ink", " ".repeat(19));
    assert!(output.lines().any(|l| l == reason), "reason line layout");
    assert!(output.contains("Grand Total (confirmed):  67.99"));
}

#[test]
fn non_deductible_shown_as_count() {
    let e = entry(
        1,
        Date::new(2026, 2, 1),
        "Personal expense",
        Money(10_000_000_000),
        Some((TaxReviewStatus::NonDeductible, Some("non_deductible"), Some("Personal"))),
    );
    let output = generate(&[e]);
    assert!(output.contains("Non-Deductible:  1 entry"), "count missing");
    assert!(!output.contains("Personal expense"), "non-deductible JE should not be listed");
}

#[test]
fn unreviewed_shown_as_count() {
    let e = entry(1, Date::new(2026, 3, 1), "Unknown expense", Money(5_000_000_000), None);
    let pending = entry(2, Date::new(2026, 3, 2), "Queued", Money(1), Some((TaxReviewStatus::AiPending, None, None)));
    let output = generate(&[e.clone()]);
    assert!(output.contains("Unreviewed:      1 entry"), "count missing");
    let output = generate(&[e, pending]);
    assert!(output.contains("Unreviewed:      2 entries"));
}

#[test]
fn multiple_forms_grouped_with_subtotals() {
    let entries = vec![
        entry(1, Date::new(2026, 1, 15), "Supplies", Money(24_500_000_000), Some((TaxReviewStatus::Confirmed, Some("schedule_c"), Some("Business")))),
        entry(2, Date::new(2026, 1, 20), "More supplies", Money(6_799_000_000), Some((TaxReviewStatus::Confirmed, Some("schedule_c"), Some("Office")))),
        entry(3, Date::new(2026, 3, 15), "Donation", Money(50_000_000_000), Some((TaxReviewStatus::Confirmed, Some("schedule_a_charity"), Some("Annual donation")))),
    ];
    let output = generate(&entries);
    assert!(output.contains("Schedule C"), "Schedule C section missing");
    assert!(output.contains("Schedule A"), "Schedule A section missing");
    assert!(output.contains("Supplies"), "je1 memo missing");
    assert!(output.contains("More supplies"), "je2 memo missing");
    assert!(output.contains("Donation"), "je3 memo missing");
    assert!(output.contains("312.99"), "Schedule C subtotal missing");
    assert!(output.contains("500.00"), "Schedule A subtotal missing");
    assert!(output.contains("812.99"), "grand total missing");
    let c = output.find("Schedule C —").expect("C");
    let a = output.find("Schedule A —").expect("A");
    assert!(c < a, "sections follow the catalog order");
}

#[test]
fn entries_outside_date_range_excluded() {
    let in_range = entry(1, Date::new(2026, 6, 15), "In range", Money(10_000_000_000), Some((TaxReviewStatus::Confirmed, Some("schedule_c"), None)));
    let output = TaxSummary.generate("Test LLC", Date::new(2026, 1, 1), Date::new(2026, 11, 30), &forms(), &[in_range]);
    assert!(output.contains("In range"), "in-range JE missing");
    assert!(!output.contains("Out of range"), "out-of-range JE should not appear");
    assert!(output.contains("(no reason given)"));
    assert!(output.contains("January 1, 2026 – November 30, 2026"));
}

#[test]
fn separator_and_marker_match_header_width() {
    let e = entry(1, Date::new(2026, 1, 15), "Office supplies", Money(6_799_000_000), Some((TaxReviewStatus::Confirmed, Some("schedule_c"), None)));
    let output = generate(&[e]);
    let width = output.lines().next().unwrap().chars().count();
    let sep_line = output.lines().find(|l| l.starts_with('─')).expect("separator");
    assert_eq!(sep_line.chars().count(), width);
    let marker = output.lines().last().unwrap();
    assert_eq!(marker.trim_start(), "— End of Report —");
    assert_eq!(marker.len() - marker.trim_start().len(), (width - 17) / 2);
}
