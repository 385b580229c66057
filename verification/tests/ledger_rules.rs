use bursar::accounts::AccountUpdate;
use bursar::audit::{csv_import_description, prompt_description, tool_use_description, truncate_chars};
use bursar::date::Date;
use bursar::envelopes::{
    format_percentage, plan_fill, plan_reversal, plan_transfer, plan_transfer_with_group, unallocated_percentage,
    EnvelopeEntryType, EnvelopeError, Percentage,
};
use bursar::ledger::{
    check_reconcile_change, is_editable, je_sequence, highest_je_sequence, may_create_in_period, next_je_number, with_running_balance, JournalEntryStatus,
    LedgerLine, ReconcileError, ReconcileState,
};
use bursar::money::Money;
use bursar::receivables::{decide_payment, outstanding, ArApStatus, PaymentError};
use bursar::tax::{tag_search_pattern, TaxReviewStatus};
use bursar::types::{AccountId, JournalEntryId};

// ── Journal entries ─────────────────────────────────────────────────────────

#[test]
fn journal_entry_status_check() {
    let _ = JournalEntryStatus::Posted;
    let _ = JournalEntryStatus::Draft;
    assert_eq!(JournalEntryStatus::parse("Posted"), Some(JournalEntryStatus::Posted));
    assert_eq!(JournalEntryStatus::parse("Draft"), Some(JournalEntryStatus::Draft));
    assert_eq!(JournalEntryStatus::parse("posted"), None);
}

#[test]
fn je_numbers_are_sequential_starting_at_0001() {
    assert_eq!(next_je_number(0), "JE-0001");
    assert_eq!(next_je_number(1), "JE-0002");
    assert_eq!(next_je_number(9), "JE-0010");
    assert_eq!(next_je_number(9999), "JE-10000");
}

#[test]
fn update_reconcile_state_rejects_reconciled_line() {
    assert_eq!(check_reconcile_change(ReconcileState::Reconciled, false), Err(ReconcileError::AlreadyReconciled));
    assert_eq!(check_reconcile_change(ReconcileState::Uncleared, false), Ok(()));
    assert_eq!(check_reconcile_change(ReconcileState::Cleared, false), Ok(()));
}

#[test]
fn update_reconcile_state_rejects_line_in_closed_period() {
    assert_eq!(check_reconcile_change(ReconcileState::Cleared, true), Err(ReconcileError::PeriodClosed));
    assert_eq!(check_reconcile_change(ReconcileState::Reconciled, true), Err(ReconcileError::AlreadyReconciled));
}

#[test]
fn update_draft_rejects_non_draft() {
    assert!(is_editable(JournalEntryStatus::Draft));
    assert!(!is_editable(JournalEntryStatus::Posted));
}

#[test]
fn create_draft_rejects_closed_period() {
    assert!(!may_create_in_period(true));
    assert!(may_create_in_period(false));
}

fn ledger_line(je: i64, debit: i64, credit: i64) -> LedgerLine {
    LedgerLine {
        je_id: JournalEntryId(je),
        je_number: format!("JE-{:04}", je),
        entry_date: Date::new(2026, 1, je as u32),
        memo: None,
        debit: Money(debit),
        credit: Money(credit),
        reconcile_state: ReconcileState::Uncleared,
    }
}

#[test]
fn list_lines_for_account_running_balance_correct() {
    let lines = vec![
        ledger_line(1, 100_000_000_000, 0),
        ledger_line(2, 0, 30_000_000_000),
        ledger_line(3, 5_000_000_000, 0),
    ];
    let rows = with_running_balance(lines);
    assert_eq!(rows.len(), 3);
    assert_eq!(rows[0].running_balance, Money(100_000_000_000));
    assert_eq!(rows[1].running_balance, Money(70_000_000_000));
    assert_eq!(rows[2].running_balance, Money(75_000_000_000));
    assert_eq!(rows[1].je_number, "JE-0002");
}

#[test]
fn update_with_none_fields_is_no_op() {
    assert!(AccountUpdate { name: None, number: None }.is_noop());
    assert!(!AccountUpdate { name: Some("Cash".to_owned()), number: None }.is_noop());
}

// ── Receivables and payables ────────────────────────────────────────────────

#[test]
fn ar_repo_partial_payment_sets_status_to_partial() {
    let r = decide_payment(ArApStatus::Open, Money(100_000_000_000), Money(0), Money(40_000_000_000));
    assert_eq!(r, Ok(ArApStatus::Partial));
    assert_eq!(outstanding(Money(100_000_000_000), &[Money(40_000_000_000)]), Money(60_000_000_000));
}

#[test]
fn ar_repo_full_payment_sets_status_to_paid() {
    let first = decide_payment(ArApStatus::Open, Money(100_000_000_000), Money(0), Money(60_000_000_000));
    assert_eq!(first, Ok(ArApStatus::Partial));
    let second = decide_payment(ArApStatus::Partial, Money(100_000_000_000), Money(60_000_000_000), Money(40_000_000_000));
    assert_eq!(second, Ok(ArApStatus::Paid));
}

#[test]
fn ar_repo_paid_item_rejects_further_payments() {
    let paid = decide_payment(ArApStatus::Open, Money(10_000_000_000), Money(0), Money(10_000_000_000));
    assert_eq!(paid, Ok(ArApStatus::Paid));
    let again = decide_payment(ArApStatus::Paid, Money(10_000_000_000), Money(10_000_000_000), Money(1_000_000_000));
    assert_eq!(again, Err(PaymentError::AlreadyPaid));
}

#[test]
fn ar_repo_overpayment_rejected() {
    let r = decide_payment(ArApStatus::Open, Money(10_000_000_000), Money(0), Money(15_000_000_000));
    assert_eq!(r, Err(PaymentError::Overpayment));
}

#[test]
fn ap_repo_partial_payment_sets_status_to_partial() {
    let r = decide_payment(ArApStatus::Open, Money(100_000_000_000), Money(0), Money(40_000_000_000));
    assert_eq!(r, Ok(ArApStatus::Partial));
}

#[test]
fn ap_repo_full_payment_sets_status_to_paid() {
    let r = decide_payment(ArApStatus::Partial, Money(100_000_000_000), Money(60_000_000_000), Money(40_000_000_000));
    assert_eq!(r, Ok(ArApStatus::Paid));
}

#[test]
fn ap_repo_paid_item_rejects_further_payments() {
    let r = decide_payment(ArApStatus::Paid, Money(10_000_000_000), Money(10_000_000_000), Money(1_000_000_000));
    assert_eq!(r, Err(PaymentError::AlreadyPaid));
}

#[test]
fn ap_repo_overpayment_rejected() {
    let r = decide_payment(ArApStatus::Open, Money(10_000_000_000), Money(0), Money(15_000_000_000));
    assert_eq!(r, Err(PaymentError::Overpayment));
}

#[test]
fn payment_of_zero_is_rejected() {
    assert_eq!(
        decide_payment(ArApStatus::Open, Money(10_000_000_000), Money(0), Money(0)),
        Err(PaymentError::NonPositiveAmount)
    );
}

#[test]
fn ar_ap_status_names_round_trip() {
    for s in [ArApStatus::Open, ArApStatus::Partial, ArApStatus::Paid] {
        assert_eq!(ArApStatus::parse(s.as_str()), Some(s));
    }
}

// ── Envelopes ───────────────────────────────────────────────────────────────

#[test]
fn record_fill_rejects_nonpositive_amount() {
    assert_eq!(plan_fill(AccountId(1), Money(0), JournalEntryId(1)), Err(EnvelopeError::NonPositiveAmount));
    assert_eq!(plan_fill(AccountId(1), Money(-5), JournalEntryId(1)), Err(EnvelopeError::NonPositiveAmount));
    let fill = plan_fill(AccountId(1), Money(50_000_000_000), JournalEntryId(7)).expect("fill");
    assert_eq!(fill.amount, Money(50_000_000_000));
    assert_eq!(fill.entry_type, EnvelopeEntryType::Fill);
    assert_eq!(fill.source_je_id, Some(JournalEntryId(7)));
}

#[test]
fn record_reversal_decreases_balance() {
    let r = plan_reversal(AccountId(1), Money(20_000_000_000), JournalEntryId(3)).expect("reversal");
    assert_eq!(r.amount, Money(-20_000_000_000));
    assert_eq!(r.entry_type, EnvelopeEntryType::Reversal);
}

#[test]
fn transfer_pair_sums_to_zero() {
    let plan = plan_transfer(AccountId(1), AccountId(2), Money(30_000_000_000), Money(50_000_000_000)).expect("transfer");
    assert_eq!(plan.source_entry.amount.0 + plan.dest_entry.amount.0, 0);
    assert_eq!(plan.group_id.chars().count(), 36);
    assert_eq!(plan.source_entry.transfer_group_id.as_deref(), Some(plan.group_id.as_str()));
    assert_eq!(plan.dest_entry.transfer_group_id.as_deref(), Some(plan.group_id.as_str()));
}

#[test]
fn transfer_rejects_insufficient_balance() {
    let r = plan_transfer(AccountId(1), AccountId(2), Money(60_000_000_000), Money(50_000_000_000));
    assert_eq!(r.err(), Some(EnvelopeError::InsufficientBalance));
    let r = plan_transfer_with_group(AccountId(1), AccountId(2), Money(0), Money(50_000_000_000), "g".to_owned());
    assert_eq!(r.err(), Some(EnvelopeError::NonPositiveAmount));
}

#[test]
fn total_primary_and_secondary_percentages() {
    assert_eq!(format_percentage(Percentage(25_000_000)), "25.00%");
    assert_eq!(format_percentage(Percentage(100_000_000)), "100.00%");
    assert_eq!(format_percentage(Percentage(12_345_678)), "12.35%");
    assert_eq!(unallocated_percentage(Percentage(30_000_000)), Percentage(70_000_000));
    assert_eq!(unallocated_percentage(Percentage(120_000_000)), Percentage(-20_000_000));
    assert_eq!(unallocated_percentage(Percentage(i64::MIN)), Percentage(i64::MAX));
}

// ── Audit descriptions ──────────────────────────────────────────────────────

#[test]
fn log_ai_prompt_truncates_long_description() {
    let long = "x".repeat(600);
    assert_eq!(prompt_description(&long).chars().count(), 500);
}

#[test]
fn log_ai_prompt_short_description_stored_as_is() {
    assert_eq!(prompt_description("short prompt"), "short prompt");
}

#[test]
fn log_ai_tool_use_formats_description() {
    assert_eq!(tool_use_description("search_accounts", "query=cash"), "Used search_accounts(query=cash)");
}

#[test]
fn log_csv_import_formats_description() {
    assert_eq!(
        csv_import_description("Chase", 10, 7, 2, 1),
        "Imported 10 rows from Chase: 7 matched (2 AI, 1 manual)"
    );
}

#[test]
fn truncate_chars_counts_characters_not_bytes() {
    assert_eq!(truncate_chars("héllo", 2), "hé");
    assert_eq!(truncate_chars("abc", 10), "abc");
}

// ── Tax review ──────────────────────────────────────────────────────────────

#[test]
fn tax_review_status_round_trip() {
    let statuses = [
        TaxReviewStatus::Unreviewed,
        TaxReviewStatus::AiPending,
        TaxReviewStatus::AiSuggested,
        TaxReviewStatus::Confirmed,
        TaxReviewStatus::NonDeductible,
    ];
    for status in &statuses {
        let s = status.to_string();
        let parsed = TaxReviewStatus::parse(&s).expect("parse");
        assert_eq!(parsed, *status, "round-trip failed for {s}");
    }
    assert_eq!(TaxReviewStatus::parse("Confirmed"), None);
}

#[test]
fn search_by_tag_partial_match() {
    assert_eq!(tag_search_pattern("rental"), "%rental%");
    assert_eq!(tag_search_pattern(""), "%%");
}

#[test]
fn je_sequence_reads_the_number_after_the_prefix() {
    assert_eq!(je_sequence(None), 0);
    assert_eq!(je_sequence(Some("JE-0042")), 42);
    assert_eq!(je_sequence(Some("JE-+7")), 7);
    assert_eq!(je_sequence(Some("JE-12a")), 0);
    assert_eq!(je_sequence(Some("XX-0042")), 0);
    assert_eq!(je_sequence(Some("JE-4294967295")), u32::MAX);
    assert_eq!(je_sequence(Some("JE-4294967296")), 0);
}

#[test]
fn je_numbers_are_not_reused_after_deleting_the_highest() {
    // JE-0001..JE-0003 issued; JE-0003 deleted. The last issued number is still 3.
    let mut last_issued: u32 = 0;
    let mut issued = Vec::new();
    for _ in 0..3 {
        issued.push(next_je_number(last_issued));
        last_issued += 1;
    }
    issued.pop();
    let next = next_je_number(last_issued);
    assert_eq!(next, "JE-0004");
    assert!(!issued.contains(&next));
}

#[test]
fn highest_je_sequence_compares_numbers_not_text() {
    let numbers = vec!["JE-9999".to_string(), "JE-10000".to_string(), "garbage".to_string()];
    assert_eq!(highest_je_sequence(&numbers), 10000);
    assert_eq!(highest_je_sequence(&[]), 0);
    let numbers = vec!["JE-0003".to_string(), "JE-0010".to_string(), "JE-0002".to_string()];
    assert_eq!(highest_je_sequence(&numbers), 10);
}

#[test]
fn transfer_updates_both_balances() {
    // acct1 holds $100; transfer $30 to acct2.
    let plan = plan_transfer(AccountId(1), AccountId(2), Money(3_000_000_000), Money(10_000_000_000)).expect("transfer");
    let bal1 = 10_000_000_000 + plan.source_entry.amount.0;
    let bal2 = plan.dest_entry.amount.0;
    assert_eq!(bal1, 7_000_000_000, "Source should decrease");
    assert_eq!(bal2, 3_000_000_000, "Dest should increase");
    assert_eq!(plan.source_entry.amount.0 + plan.dest_entry.amount.0, 0);
}

#[test]
fn envelope_error_messages() {
    let e = plan_transfer(AccountId(1), AccountId(2), Money(3_000_000_000), Money(1_000_000_000)).err().expect("refused");
    assert_eq!(
        e.message("Transfer", Money(3_000_000_000), Money(1_000_000_000)),
        "Insufficient envelope balance: 10.00 available, 30.00 requested"
    );
    let e = plan_fill(AccountId(1), Money(0), JournalEntryId(1)).err().expect("refused");
    assert_eq!(e.message("Fill", Money(0), Money(0)), "Fill amount must be positive, got 0.00");
}

#[test]
fn payment_error_messages() {
    let e = decide_payment(ArApStatus::Paid, Money(100), Money(100), Money(10)).err().expect("refused");
    let m = e.message("AR", 7, Money(10), Money(110), Money(100));
    assert_eq!(m, "Cannot record payment: AR item 7 is already Paid (terminal state)");
    assert!(m.contains("Paid") && m.contains("terminal"));
    let e = decide_payment(ArApStatus::Open, Money(10_000_000_000), Money(5_000_000_000), Money(6_000_000_000)).err().expect("refused");
    assert_eq!(
        e.message("AP", 3, Money(6_000_000_000), Money(11_000_000_000), Money(10_000_000_000)),
        "Overpayment: payment of 60.00 would bring total paid (110.00) above item amount (100.00)"
    );
    assert_eq!(PaymentError::NonPositiveAmount.message("AR", -2, Money(0), Money(0), Money(0)), "Payment amount must be positive");
}
