use bursar::assets::{
    depreciation_entry, depreciation_memo, pending_depreciation, plan_place_in_service, with_book_value, AssetError,
    DepreciableAsset, DepreciationMonth, FixedAssetDetail,
};
use bursar::date::{days_between, days_in_month, Date};
use bursar::fiscal::{check_close, check_reopen, plan_fiscal_year, FiscalError};
use bursar::money::Money;
use bursar::recurring::{
    advance_date, advance_schedule, check_template_source, is_due, recurring_entry, EntryFrequency, RecurringError,
    RecurringTemplate,
};
use bursar::types::{AccountId, FiscalPeriodId, FixedAssetDetailId, JournalEntryId, RecurringTemplateId};

// ── Fiscal years ────────────────────────────────────────────────────────────

#[test]
fn creates_12_periods_for_january_start() {
    let plan = plan_fiscal_year(1, 2025).expect("plan");
    assert_eq!(plan.periods.len(), 12);
    assert_eq!(plan.periods[0].period_number, 1);
    assert_eq!(plan.periods[0].start_date.to_iso_string(), "2025-01-01");
    assert_eq!(plan.periods[0].end_date.to_iso_string(), "2025-01-31");
    assert_eq!(plan.periods[2].period_number, 3);
    assert_eq!(plan.periods[2].start_date.to_iso_string(), "2025-03-01");
    assert_eq!(plan.periods[2].end_date.to_iso_string(), "2025-03-31");
    assert_eq!(plan.periods[11].period_number, 12);
    assert_eq!(plan.periods[11].end_date.to_iso_string(), "2025-12-31");
    assert_eq!(plan.end_date.to_iso_string(), "2025-12-31");
}

#[test]
fn periods_are_contiguous_no_gaps() {
    let plan = plan_fiscal_year(1, 2025).expect("plan");
    for w in plan.periods.windows(2) {
        assert_eq!(w[1].start_date.pred(), w[0].end_date, "gap after period {}", w[0].period_number);
    }
}

#[test]
fn fiscal_year_not_starting_january() {
    let plan = plan_fiscal_year(4, 2025).expect("plan");
    assert_eq!(plan.periods.len(), 12);
    assert_eq!(plan.periods[0].start_date.to_iso_string(), "2025-04-01");
    assert_eq!(plan.periods[0].end_date.to_iso_string(), "2025-04-30");
    assert_eq!(plan.periods[11].end_date.to_iso_string(), "2026-03-31");
}

#[test]
fn invalid_start_month_returns_error() {
    assert_eq!(plan_fiscal_year(0, 2025).err(), Some(FiscalError::InvalidStartMonth));
    assert_eq!(plan_fiscal_year(13, 2025).err(), Some(FiscalError::InvalidStartMonth));
}

#[test]
fn february_end_is_correct() {
    let plan = plan_fiscal_year(1, 2025).expect("plan");
    assert_eq!(plan.periods[1].end_date.to_iso_string(), "2025-02-28");
    let leap = plan_fiscal_year(1, 2024).expect("plan");
    assert_eq!(leap.periods[1].end_date.to_iso_string(), "2024-02-29");
}

#[test]
fn close_period_rejects_if_already_closed() {
    assert_eq!(check_close(true, 0), Err(FiscalError::AlreadyClosed));
    assert_eq!(check_close(false, 0), Ok(()));
}

#[test]
fn close_period_rejects_draft_entries() {
    assert_eq!(check_close(false, 1), Err(FiscalError::DraftsRemain));
}

#[test]
fn reopen_period_rejects_if_already_open() {
    assert_eq!(check_reopen(false), Err(FiscalError::AlreadyOpen));
    assert_eq!(check_reopen(true), Ok(()));
}

// ── Calendar ────────────────────────────────────────────────────────────────

#[test]
fn calendar_helpers() {
    assert_eq!(days_in_month(2026, 2), 28);
    assert_eq!(days_in_month(2024, 2), 29);
    assert_eq!(days_in_month(2026, 12), 31);
    assert_eq!(days_between(Date::new(2026, 3, 31), Date::new(2026, 1, 1)), 89);
    assert_eq!(Date::new(2026, 3, 1).pred(), Date::new(2026, 2, 28));
    assert_eq!(Date::new(2026, 1, 1).pred(), Date::new(2025, 12, 31));
    assert_eq!(Date::new(2026, 3, 15).to_long_string(), "March 15, 2026");
    assert_eq!(Date::parse_iso("2026-02-30"), None);
    assert_eq!(Date::parse_iso("2026-02-28"), Some(Date::new(2026, 2, 28)));
}

// ── Depreciation ────────────────────────────────────────────────────────────

fn asset(cost: i64, life: u32, in_service: Date) -> DepreciableAsset {
    DepreciableAsset {
        account_id: AccountId(1),
        cost_basis: Money(cost),
        in_service_date: in_service,
        useful_life_months: life,
        accum_id: AccountId(2),
        expense_id: AccountId(3),
        name: "Buildings".to_owned(),
    }
}

#[test]
fn generate_depreciation_correct_amounts() {
    let monthly = 1_000 * 100_000_000_i64;
    let a = asset(12 * monthly, 12, Date::new(2025, 12, 31));
    let months = pending_depreciation(&a, 0, Date::new(2026, 3, 31));
    assert_eq!(months.len(), 3);
    for m in &months {
        assert_eq!(m.amount.0, monthly, "each month should be $1,000");
    }
    assert_eq!(months[0].entry_date, Date::new(2026, 1, 1));
    assert_eq!(months[2].entry_date, Date::new(2026, 3, 1));
    assert_eq!(months[2].month_number, 3);
}

#[test]
fn generate_depreciation_skips_already_generated_months() {
    let monthly = 1_000 * 100_000_000_i64;
    let a = asset(12 * monthly, 12, Date::new(2025, 12, 31));
    let months = pending_depreciation(&a, 2, Date::new(2026, 3, 31));
    assert_eq!(months.len(), 1, "only month 3 should be pending");
    assert_eq!(months[0].month_number, 3);
}

#[test]
fn generate_depreciation_rounding_totals_cost_basis_exactly() {
    let cost_basis = 1_000_000_000_i64;
    let life_months: u32 = 3;
    let monthly = cost_basis / i64::from(life_months);
    let remainder = cost_basis % i64::from(life_months);
    assert_ne!(remainder, 0, "test requires non-zero remainder");
    let a = asset(cost_basis, life_months, Date::new(2025, 12, 31));
    let months = pending_depreciation(&a, 0, Date::new(2026, 3, 31));
    assert_eq!(months.len(), 3, "all 3 months should be generated");
    let total: i64 = months.iter().map(|m| m.amount.0).sum();
    assert_eq!(total, cost_basis, "sum of all monthly depreciation must equal cost basis exactly");
    for (i, m) in months.iter().enumerate() {
        if i < (life_months as usize) - 1 {
            assert_eq!(m.amount.0, monthly);
        } else {
            assert_eq!(m.amount.0, monthly + remainder);
        }
    }
}

#[test]
fn depreciation_stops_after_useful_life() {
    let a = asset(300, 3, Date::new(2025, 12, 31));
    assert!(pending_depreciation(&a, 3, Date::new(2027, 1, 31)).is_empty());
    assert_eq!(pending_depreciation(&a, 0, Date::new(2027, 1, 31)).len(), 3);
    let none = asset(300, 0, Date::new(2025, 12, 31));
    assert!(pending_depreciation(&none, 0, Date::new(2027, 1, 31)).is_empty());
}

#[test]
fn depreciation_of_negative_cost_truncates_toward_zero() {
    let a = asset(-10, 3, Date::new(2025, 12, 31));
    let months = pending_depreciation(&a, 0, Date::new(2026, 12, 31));
    let amounts: Vec<i64> = months.iter().map(|m| m.amount.0).collect();
    assert_eq!(amounts, vec![-3, -3, -4]);
}

#[test]
fn depreciation_entry_debits_expense_and_credits_accumulated() {
    let a = asset(1_200, 12, Date::new(2025, 12, 31));
    let m = DepreciationMonth { entry_date: Date::new(2026, 1, 1), month_number: 1, amount: Money(100) };
    let e = depreciation_entry(&a, &m, FiscalPeriodId(5));
    assert_eq!(e.memo.as_deref(), Some("Monthly depreciation: Buildings — Month 1 of 12"));
    assert_eq!(e.fiscal_period_id, FiscalPeriodId(5));
    assert_eq!(e.lines.len(), 2);
    assert_eq!(e.lines[0].account_id, AccountId(3));
    assert_eq!(e.lines[0].debit_amount, Money(100));
    assert_eq!(e.lines[1].account_id, AccountId(2));
    assert_eq!(e.lines[1].credit_amount, Money(100));
    assert_eq!(depreciation_memo("Van", 12, 60), "Monthly depreciation: Van — Month 12 of 60");
}

#[test]
fn place_in_service_creates_je_and_updates_details() {
    let e = plan_place_in_service(
        AccountId(10),
        AccountId(11),
        Date::new(2026, 1, 15),
        Money(50_000_000_000),
        FiscalPeriodId(1),
        false,
        "CIP — Building",
        "Buildings",
    )
    .expect("plan");
    assert_eq!(e.memo.as_deref(), Some("Place in service: Buildings (from CIP: CIP — Building)"));
    assert_eq!(e.lines[0].account_id, AccountId(11));
    assert_eq!(e.lines[0].debit_amount, Money(50_000_000_000));
    assert_eq!(e.lines[1].account_id, AccountId(10));
    assert_eq!(e.lines[1].credit_amount, Money(50_000_000_000));
}

#[test]
fn place_in_service_rejects_zero_cip_balance() {
    let r = plan_place_in_service(AccountId(10), AccountId(11), Date::new(2026, 1, 15), Money(0), FiscalPeriodId(1), false, "CIP", "B");
    assert_eq!(r.err(), Some(AssetError::NoCipBalance));
    let r = plan_place_in_service(AccountId(10), AccountId(11), Date::new(2026, 1, 15), Money(5), FiscalPeriodId(1), true, "CIP", "B");
    assert_eq!(r.err(), Some(AssetError::PeriodClosed));
}

#[test]
fn create_fixed_asset_and_list() {
    let detail = FixedAssetDetail {
        id: FixedAssetDetailId(1),
        account_id: AccountId(1),
        cost_basis: Money(100_000 * 100_000_000),
        in_service_date: Some(Date::new(2026, 1, 1)),
        useful_life_months: Some(360),
        is_depreciable: true,
        source_cip_account_id: None,
        accum_depreciation_account_id: None,
        depreciation_expense_account_id: None,
    };
    let a = with_book_value(detail, "Buildings".to_owned(), "1500".to_owned(), Money(0));
    assert_eq!(a.accumulated_depreciation, Money(0));
    assert_eq!(a.book_value, a.detail.cost_basis);
}

// ── Recurring entries ───────────────────────────────────────────────────────

#[test]
fn advance_date_monthly_end_of_month() {
    assert_eq!(advance_date(Date::new(2026, 1, 31), EntryFrequency::Monthly), Date::new(2026, 2, 28));
    assert_eq!(advance_date(Date::new(2026, 12, 15), EntryFrequency::Monthly), Date::new(2027, 1, 15));
}

#[test]
fn advance_date_quarterly() {
    assert_eq!(advance_date(Date::new(2026, 1, 15), EntryFrequency::Quarterly), Date::new(2026, 4, 15));
    assert_eq!(advance_date(Date::new(2026, 11, 30), EntryFrequency::Quarterly), Date::new(2027, 2, 28));
}

#[test]
fn advance_date_annually() {
    assert_eq!(advance_date(Date::new(2026, 3, 15), EntryFrequency::Annually), Date::new(2027, 3, 15));
    assert_eq!(advance_date(Date::new(2024, 2, 29), EntryFrequency::Annually), Date::new(2025, 2, 28));
}

fn template(next: Date) -> RecurringTemplate {
    RecurringTemplate {
        id: RecurringTemplateId(1),
        source_je_id: JournalEntryId(4),
        frequency: EntryFrequency::Monthly,
        next_due_date: next,
        is_active: true,
        last_generated_date: None,
    }
}

#[test]
fn create_template_requires_posted_je() {
    assert_eq!(check_template_source("Draft"), Err(RecurringError::SourceNotPosted));
    assert_eq!(check_template_source("Posted"), Ok(()));
}

#[test]
fn generate_entries_creates_draft_je_and_advances_schedule() {
    let t = template(Date::new(2026, 1, 31));
    assert!(is_due(&t, Date::new(2026, 1, 31)));
    let e = recurring_entry(&t, Some("Rent".to_owned()), FiscalPeriodId(1), vec![]);
    assert_eq!(e.entry_date, Date::new(2026, 1, 31));
    assert_eq!(e.memo.as_deref(), Some("Rent"));
    let next = advance_schedule(&t);
    assert_eq!(next.next_due_date, Date::new(2026, 2, 28));
    assert_eq!(next.last_generated_date, Some(Date::new(2026, 1, 31)));
}

#[test]
fn generate_entries_same_date_no_duplicates() {
    let t = template(Date::new(2026, 1, 31));
    let next = advance_schedule(&t);
    assert!(!is_due(&next, Date::new(2026, 1, 31)));
}

#[test]
fn deactivate_stops_generation() {
    let mut t = template(Date::new(2026, 1, 31));
    t.is_active = false;
    assert!(!is_due(&t, Date::new(2026, 1, 31)));
}

#[test]
fn frequency_names_round_trip() {
    for f in [EntryFrequency::Monthly, EntryFrequency::Quarterly, EntryFrequency::Annually] {
        assert_eq!(EntryFrequency::parse(f.as_str()), Some(f));
    }
}

#[test]
fn close_period_sets_is_closed() {
    // An open period without drafts may be closed; once closed, closing again is refused.
    assert_eq!(check_close(false, 0), Ok(()));
    assert_eq!(check_close(true, 0), Err(FiscalError::AlreadyClosed));
    assert_eq!(check_reopen(true), Ok(()));
}

#[test]
fn place_in_service_refusals_carry_messages() {
    let r = plan_place_in_service(AccountId(10), AccountId(11), Date::new(2026, 1, 15), Money(0), FiscalPeriodId(1), false, "CIP", "B");
    let e = r.err().expect("refused");
    assert!(e.message().contains("no positive balance"));
    assert_eq!(AssetError::PeriodClosed.message(), "Fiscal period for in_service_date is closed");
}

#[test]
fn place_in_service_moves_the_whole_cip_balance() {
    let e = plan_place_in_service(AccountId(10), AccountId(11), Date::new(2026, 1, 15), Money(70_000_000_000), FiscalPeriodId(1), false, "CIP", "B")
        .expect("plan");
    let net = |id: AccountId| -> i64 {
        e.lines.iter().filter(|l| l.account_id == id).map(|l| l.debit_amount.0 - l.credit_amount.0).sum()
    };
    assert_eq!(70_000_000_000 + net(AccountId(10)), 0);
    assert_eq!(net(AccountId(11)), 70_000_000_000);
}

#[test]
fn close_period_refusals_carry_messages() {
    let e = check_close(false, 2).err().expect("refused");
    assert_eq!(
        e.message(5, 0, 2),
        "Cannot close fiscal period 5: 2 draft journal entries must be posted or deleted first"
    );
    assert_eq!(
        FiscalError::DraftsRemain.message(5, 0, 1),
        "Cannot close fiscal period 5: 1 draft journal entry must be posted or deleted first"
    );
    assert_eq!(FiscalError::AlreadyClosed.message(3, 0, 0), "Fiscal period 3 is already closed");
    assert_eq!(FiscalError::AlreadyOpen.message(3, 0, 0), "Fiscal period 3 is already open");
    assert_eq!(FiscalError::InvalidStartMonth.message(0, 13, 0), "start_month must be 1–12, got 13");
}
