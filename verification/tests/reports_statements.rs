use bursar::accounts::Account;
use bursar::assets::{FixedAssetDetail, FixedAssetWithDetails};
use bursar::date::Date;
use bursar::envelopes::{EnvelopeAllocation, Percentage};
use bursar::ledger::{LedgerRow, ReconcileState};
use bursar::money::Money;
use bursar::receivables::{ArApStatus, ArItem};
use bursar::reports::account_detail::AccountDetail;
use bursar::reports::ar_aging::{aging_bucket, ArAging};
use bursar::reports::balance_sheet::BalanceSheet;
use bursar::reports::cash_flow::{is_cash_account_name, CashFlow};
use bursar::reports::envelope_budget::{budget_order, EnvelopeBudgetSummary};
use bursar::reports::fixed_asset_schedule::FixedAssetSchedule;
use bursar::reports::income_statement::IncomeStatement;
use bursar::types::{AccountId, AccountType, FixedAssetDetailId, JournalEntryId};

fn dollars(d: i64) -> Money {
    Money(d * 100_000_000)
}

fn account(id: i64, number: &str, name: &str, t: AccountType) -> Account {
    Account {
        id: AccountId(id),
        number: number.to_owned(),
        name: name.to_owned(),
        account_type: t,
        parent_id: None,
        is_active: true,
        is_contra: false,
        is_placeholder: false,
        created_at: String::new(),
        updated_at: String::new(),
    }
}

fn ledger_row(je: i64, number: &str, date: Date, debit: Money, credit: Money, running: Money) -> LedgerRow {
    LedgerRow {
        je_id: JournalEntryId(je),
        je_number: number.to_owned(),
        entry_date: date,
        memo: None,
        debit,
        credit,
        reconcile_state: ReconcileState::Uncleared,
        running_balance: running,
    }
}

fn ar_item(id: i64, customer: &str, amount: Money, due: Date, status: ArApStatus) -> ArItem {
    ArItem {
        id,
        account_id: AccountId(1),
        customer_name: customer.to_owned(),
        description: None,
        amount,
        due_date: due,
        status,
        originating_je_id: JournalEntryId(1),
        created_at: String::new(),
        updated_at: String::new(),
    }
}

// ── Account Detail ──────────────────────────────────────────────────────────

#[test]
fn account_detail_report_name() {
    assert_eq!(AccountDetail.name(), "AccountDetail");
}

#[test]
fn account_detail_shows_transactions() {
    let cash = account(1, "1110", "Checking", AccountType::Asset);
    let lines = vec![ledger_row(1, "JE-0001", Date::new(2026, 1, 15), dollars(500), Money(0), dollars(500))];
    let output = AccountDetail.generate("Acme", &cash, Date::new(2026, 1, 1), Date::new(2026, 1, 31), &lines);
    assert!(output.contains("Account Detail"), "title missing");
    assert!(output.contains("Checking"), "account name missing");
    assert!(output.contains("500.00"), "amount missing");
    assert!(output.contains("TOTAL"), "total row missing");
}

#[test]
fn account_detail_running_balance_matches_gl() {
    let cash = account(1, "1110", "Checking", AccountType::Asset);
    let lines = vec![
        ledger_row(1, "JE-0001", Date::new(2026, 1, 5), dollars(1_000), Money(0), dollars(1_000)),
        ledger_row(2, "JE-0002", Date::new(2026, 1, 10), Money(0), dollars(300), dollars(700)),
    ];
    let output = AccountDetail.generate("Acme", &cash, Date::new(2026, 1, 1), Date::new(2026, 1, 31), &lines);
    assert!(output.contains("1,000.00"), "first running balance missing");
    assert!(output.contains("700.00"), "second running balance missing");
}

#[test]
fn account_detail_has_box_drawing_chars() {
    let cash = account(1, "1110", "Checking", AccountType::Asset);
    let output = AccountDetail.generate("Test", &cash, Date::new(2026, 1, 1), Date::new(2026, 12, 31), &[]);
    assert!(output.contains('┌'));
    assert!(output.contains('│'));
}

#[test]
fn account_detail_rows_blank_zero_amounts_and_total() {
    let lines = vec![
        ledger_row(1, "JE-0001", Date::new(2026, 1, 5), dollars(1_000), Money(0), dollars(1_000)),
        ledger_row(2, "JE-0002", Date::new(2026, 1, 10), Money(0), dollars(300), dollars(700)),
    ];
    let rows = AccountDetail.rows(&lines);
    assert_eq!(rows.len(), 3);
    assert_eq!(rows[0], vec!["2026-01-05", "JE-0001", "", "1,000.00", "", "1,000.00"]);
    assert_eq!(rows[1], vec!["2026-01-10", "JE-0002", "", "", "300.00", "700.00"]);
    assert_eq!(rows[2], vec!["", "", "TOTAL", "1,000.00", "300.00", ""]);
}

#[test]
fn account_detail_title_and_range_line() {
    let cash = account(1, "1110", "Checking", AccountType::Asset);
    let output = AccountDetail.generate("Acme", &cash, Date::new(2026, 1, 1), Date::new(2026, 1, 31), &[]);
    assert!(output.contains("Account Detail: 1110 Checking"));
    assert!(output.contains("January 1, 2026 – January 31, 2026"));
}

// ── AR Aging ────────────────────────────────────────────────────────────────

#[test]
fn ar_aging_report_name() {
    assert_eq!(ArAging.name(), "ArAging");
}

#[test]
fn aging_bucket_correct_categorization() {
    assert_eq!(aging_bucket(-1), "Current");
    assert_eq!(aging_bucket(0), "Current");
    assert_eq!(aging_bucket(1), "1-30 Days");
    assert_eq!(aging_bucket(30), "1-30 Days");
    assert_eq!(aging_bucket(31), "31-60 Days");
    assert_eq!(aging_bucket(60), "31-60 Days");
    assert_eq!(aging_bucket(61), "61-90 Days");
    assert_eq!(aging_bucket(90), "61-90 Days");
    assert_eq!(aging_bucket(91), "90+ Days");
}

#[test]
fn ar_aging_contains_required_labels() {
    let output = ArAging.generate("Test Co", Date::new(2026, 3, 31), &[], &[]);
    assert!(output.contains("Accounts Receivable Aging"));
    assert!(output.contains("Current"));
    assert!(output.contains("90+ Days"));
    assert!(output.contains("TOTAL"), "total row missing");
}

#[test]
fn ar_aging_buckets_items_correctly() {
    let items = vec![ar_item(1, "Tenant A", dollars(100), Date::new(2026, 1, 1), ArApStatus::Open)];
    let output = ArAging.generate("Acme", Date::new(2026, 3, 31), &items, &[vec![]]);
    assert!(output.contains("Tenant A"), "customer missing");
    assert!(output.contains("100.00"), "amount missing");
    assert!(output.contains("61-90 Days"), "wrong bucket");
    let rows = ArAging.rows(&items, &[vec![]], Date::new(2026, 3, 31));
    assert_eq!(rows[0], vec!["Tenant A", "", "2026-01-01", "61-90 Days", "100.00"]);
}

#[test]
fn ar_aging_current_items_in_current_bucket() {
    let items = vec![ar_item(1, "Current Customer", dollars(200), Date::new(2026, 3, 31), ArApStatus::Open)];
    let rows = ArAging.rows(&items, &[vec![]], Date::new(2026, 3, 31));
    assert_eq!(rows[0][3], "Current");
}

#[test]
fn ar_aging_has_box_drawing_chars() {
    let output = ArAging.generate("Test", Date::new(2026, 3, 31), &[], &[]);
    assert!(output.contains('┌'));
}

#[test]
fn ar_aging_partial_items_show_outstanding_and_bucket_totals() {
    let items = vec![
        ar_item(1, "Tenant A", dollars(100), Date::new(2026, 3, 1), ArApStatus::Partial),
        ar_item(2, "Tenant B", dollars(50), Date::new(2025, 11, 1), ArApStatus::Open),
        ar_item(3, "Tenant C", dollars(75), Date::new(2026, 1, 1), ArApStatus::Paid),
    ];
    let payments = vec![vec![dollars(30), dollars(10)], vec![], vec![dollars(75)]];
    let rows = ArAging.rows(&items, &payments, Date::new(2026, 3, 31));
    assert_eq!(rows.len(), 2 + 1 + 5 + 1);
    assert_eq!(rows[0], vec!["Tenant A", "", "2026-03-01", "1-30 Days", "60.00"]);
    assert_eq!(rows[1], vec!["Tenant B", "", "2025-11-01", "90+ Days", "50.00"]);
    assert_eq!(rows[2], vec!["", "", "", "", ""]);
    assert_eq!(rows[3], vec!["  Current", "", "", "", "0.00"]);
    assert_eq!(rows[4], vec!["  1-30 Days", "", "", "", "60.00"]);
    assert_eq!(rows[7], vec!["  90+ Days", "", "", "", "50.00"]);
    assert_eq!(rows[8], vec!["TOTAL", "", "", "", "110.00"]);
}

// ── Balance Sheet ───────────────────────────────────────────────────────────

#[test]
fn balance_sheet_report_name() {
    assert_eq!(BalanceSheet.name(), "BalanceSheet");
}

#[test]
fn balance_sheet_contains_required_sections() {
    let output = BalanceSheet.generate("Test Co", Date::new(2026, 3, 31), &[], &[]);
    assert!(output.contains("Balance Sheet"), "title missing");
    assert!(output.contains("Test Co"), "entity name missing");
    assert!(output.contains("Asset"), "Asset section missing");
    assert!(output.contains("Liability"), "Liability section missing");
    assert!(output.contains("Equity"), "Equity section missing");
}

#[test]
fn balance_sheet_fundamental_equation_holds() {
    let accounts = vec![
        account(1, "1110", "Checking", AccountType::Asset),
        account(2, "3100", "Owner Equity", AccountType::Equity),
    ];
    let balances = vec![dollars(1_000), dollars(-1_000)];
    let output = BalanceSheet.generate("Acme LLC", Date::new(2026, 3, 31), &accounts, &balances);
    assert!(output.contains("TOTAL ASSETS"), "assets total missing");
    assert!(output.contains("TOTAL LIABILITIES + EQUITY"), "liab+equity total missing");
    let count = output.matches("1,000.00").count();
    assert!(count >= 2, "1,000.00 should appear at least twice, got {}", count);
    let rows = BalanceSheet.rows(&accounts, &balances);
    let n = rows.len();
    assert_eq!(rows[n - 2], vec!["TOTAL ASSETS", "1,000.00"]);
    assert_eq!(rows[n - 1], vec!["TOTAL LIABILITIES + EQUITY", "1,000.00"]);
}

#[test]
fn balance_sheet_has_box_drawing_chars() {
    let output = BalanceSheet.generate("Test", Date::new(2026, 3, 31), &[], &[]);
    assert!(output.contains('┌'));
    assert!(output.contains('│'));
}

#[test]
fn balance_sheet_sections_and_contra_accounts() {
    let mut accum = account(2, "1521", "Accumulated Depreciation", AccountType::Asset);
    accum.is_contra = true;
    let accounts = vec![
        account(1, "1500", "Buildings", AccountType::Asset),
        accum,
        account(3, "2100", "Payables", AccountType::Liability),
        account(4, "4100", "Revenue", AccountType::Revenue),
    ];
    let balances = vec![dollars(1_000), dollars(-100), dollars(-300), dollars(-600)];
    let rows = BalanceSheet.rows(&accounts, &balances);
    assert_eq!(rows[0], vec!["── Asset ──", ""]);
    assert_eq!(rows[1], vec!["  Buildings", "1,000.00"]);
    assert_eq!(rows[2], vec!["  Accumulated Depreciation", "-100.00"]);
    assert_eq!(rows[3], vec!["Total Asset", "900.00"]);
    assert_eq!(rows[4], vec!["", ""]);
    assert_eq!(rows[5], vec!["── Liability ──", ""]);
    assert_eq!(rows[6], vec!["  Payables", "300.00"]);
    assert_eq!(rows[7], vec!["Total Liability", "300.00"]);
    assert_eq!(rows[9], vec!["── Equity ──", ""]);
    assert_eq!(rows[10], vec!["Total Equity", "0.00"]);
    assert_eq!(rows[12], vec!["TOTAL ASSETS", "900.00"]);
    assert_eq!(rows[13], vec!["TOTAL LIABILITIES + EQUITY", "300.00"]);
}

#[test]
fn balance_sheet_contra_asset_reduces_assets() {
    // Dr Cash / Cr Equity 1,000, then Dr Equity / Cr Accumulated Depreciation 100.
    let mut accum = account(2, "1590", "Accumulated Depreciation", AccountType::Asset);
    accum.is_contra = true;
    let accounts = vec![
        account(1, "1000", "Cash", AccountType::Asset),
        accum,
        account(3, "3000", "Owner Equity", AccountType::Equity),
    ];
    let balances = vec![dollars(1_000), dollars(-100), dollars(-900)];
    let rows = BalanceSheet.rows(&accounts, &balances);
    assert_eq!(rows[3], vec!["Total Asset", "900.00"]);
    let n = rows.len();
    assert_eq!(rows[n - 2], vec!["TOTAL ASSETS", "900.00"]);
    assert_eq!(rows[n - 1], vec!["TOTAL LIABILITIES + EQUITY", "900.00"]);
}

// ── Cash Flow ───────────────────────────────────────────────────────────────

#[test]
fn cash_flow_report_name() {
    assert_eq!(CashFlow.name(), "CashFlow");
}

#[test]
fn cash_flow_contains_required_labels() {
    let output = CashFlow.generate("Test Co", Date::new(2026, 1, 1), Date::new(2026, 12, 31), &[], &[]);
    assert!(output.contains("Cash Flow Statement"), "title missing");
    assert!(output.contains("NET CASH CHANGE"), "net cash label missing");
}

#[test]
fn cash_flow_shows_inflows_and_outflows() {
    let accounts = vec![
        account(1, "1110", "Checking", AccountType::Asset),
        account(2, "4100", "Revenue", AccountType::Revenue),
        account(3, "5100", "Expense", AccountType::Expense),
    ];
    let lines = vec![
        vec![
            ledger_row(1, "JE-0001", Date::new(2026, 1, 10), dollars(800), Money(0), dollars(800)),
            ledger_row(2, "JE-0002", Date::new(2026, 1, 20), Money(0), dollars(200), dollars(600)),
        ],
        vec![],
        vec![],
    ];
    let output = CashFlow.generate("Acme", Date::new(2026, 1, 1), Date::new(2026, 1, 31), &accounts, &lines);
    assert!(output.contains("800.00"), "inflow amount missing");
    assert!(output.contains("200.00"), "outflow amount missing");
    let net_line = output.lines().find(|l| l.contains("NET CASH CHANGE")).expect("net line");
    assert!(net_line.contains("600.00"), "net cash should be 600.00");
}

#[test]
fn cash_flow_has_box_drawing_chars() {
    let output = CashFlow.generate("Test", Date::new(2026, 1, 1), Date::new(2026, 12, 31), &[], &[]);
    assert!(output.contains('┌'));
    assert!(output.contains('│'));
}

#[test]
fn cash_account_names_are_recognised_case_insensitively() {
    assert!(is_cash_account_name("Petty Cash"));
    assert!(is_cash_account_name("FIRST BANK"));
    assert!(is_cash_account_name("Business Checking"));
    assert!(is_cash_account_name("Savings Reserve"));
    assert!(!is_cash_account_name("Rental Income"));
    assert!(!is_cash_account_name(""));
}

#[test]
fn cash_flow_rows_per_cash_account() {
    let mut inactive = account(3, "1130", "Old Savings", AccountType::Asset);
    inactive.is_active = false;
    let accounts = vec![
        account(1, "1110", "Checking", AccountType::Asset),
        account(2, "4100", "Revenue", AccountType::Revenue),
        inactive,
    ];
    let lines = vec![
        vec![
            ledger_row(1, "JE-0001", Date::new(2026, 1, 10), dollars(800), Money(0), dollars(800)),
            ledger_row(2, "JE-0002", Date::new(2026, 1, 20), Money(0), dollars(200), dollars(600)),
        ],
        vec![ledger_row(1, "JE-0001", Date::new(2026, 1, 10), Money(0), dollars(800), dollars(-800))],
        vec![ledger_row(3, "JE-0003", Date::new(2026, 1, 12), dollars(5), Money(0), dollars(5))],
    ];
    let rows = CashFlow.rows(&accounts, &lines);
    assert_eq!(rows.len(), 1 + 2 + 1 + 3);
    assert_eq!(rows[0], vec!["── Checking ──", "", "", "", ""]);
    assert_eq!(rows[1], vec!["2026-01-10", "JE-0001", "", "800.00", ""]);
    assert_eq!(rows[2], vec!["2026-01-20", "JE-0002", "", "", "200.00"]);
    assert_eq!(rows[3], vec!["", "", "", "", ""]);
    assert_eq!(rows[4], vec!["", "", "TOTAL INFLOW", "800.00", ""]);
    assert_eq!(rows[5], vec!["", "", "TOTAL OUTFLOW", "", "200.00"]);
    assert_eq!(rows[6], vec!["", "", "NET CASH CHANGE", "600.00", ""]);
}

// ── Envelope Budget ─────────────────────────────────────────────────────────

fn allocation(id: i64, account: i64, pct: i64) -> EnvelopeAllocation {
    EnvelopeAllocation {
        id,
        account_id: AccountId(account),
        percentage: Percentage(pct),
        secondary_percentage: Percentage(0),
        cap_amount: None,
        created_at: String::new(),
        updated_at: String::new(),
    }
}

#[test]
fn envelope_budget_report_name() {
    assert_eq!(EnvelopeBudgetSummary.name(), "EnvelopeBudgetSummary");
}

#[test]
fn envelope_budget_empty_when_no_allocations() {
    let output = EnvelopeBudgetSummary.generate("Test Co", Date::new(2026, 1, 1), Date::new(2026, 12, 31), &[], &[], &[], &[], &[]);
    assert!(output.contains("Envelope Budget Summary"), "title missing");
    assert!(output.contains("TOTAL"), "totals row missing");
    assert!(output.contains("Unallocated"), "unallocated row missing");
    assert!(output.contains("100.00%"), "unallocated should be 100%");
}

#[test]
fn envelope_budget_shows_allocated_accounts() {
    let accounts = vec![
        account(1, "1110", "Checking", AccountType::Asset),
        account(2, "5100", "Maintenance", AccountType::Expense),
        account(3, "4100", "Rental Income", AccountType::Revenue),
    ];
    let allocations = vec![allocation(1, 2, 25_000_000)];
    let order = budget_order(&allocations, &accounts);
    assert_eq!(order, vec![(0, 1)]);
    let earmarked = vec![dollars(250)];
    let gl = vec![dollars(100)];
    let output = EnvelopeBudgetSummary.generate(
        "Acme",
        Date::new(2026, 1, 1),
        Date::new(2026, 12, 31),
        &allocations,
        &accounts,
        &order,
        &earmarked,
        &gl,
    );
    assert!(output.contains("5100"), "account number missing");
    assert!(output.contains("Maintenance"), "account name missing");
    assert!(output.contains("25.00%"), "allocation % missing");
    assert!(output.contains("100.00"), "gl balance missing");
    let rows = EnvelopeBudgetSummary.rows(&allocations, &accounts, &order, &earmarked, &gl);
    assert_eq!(rows[0], vec!["5100", "Maintenance", "25.00%", "250.00", "100.00", "150.00"]);
    assert_eq!(rows[1], vec!["", "TOTAL", "25.00%", "250.00", "100.00", "150.00"]);
    assert_eq!(rows[2], vec!["", "Unallocated", "75.00%", "", "", ""]);
}

#[test]
fn envelope_budget_unallocated_decreases_with_allocations() {
    let accounts = vec![account(1, "5100", "Maintenance", AccountType::Expense)];
    let allocations = vec![allocation(1, 1, 30_000_000)];
    let order = budget_order(&allocations, &accounts);
    let output = EnvelopeBudgetSummary.generate(
        "Acme",
        Date::new(2026, 1, 1),
        Date::new(2026, 12, 31),
        &allocations,
        &accounts,
        &order,
        &[Money(0)],
        &[Money(0)],
    );
    assert!(output.contains("70.00%"), "unallocated should be 70%");
}

#[test]
fn envelope_budget_has_box_drawing_chars() {
    let output = EnvelopeBudgetSummary.generate("Test", Date::new(2026, 1, 1), Date::new(2026, 12, 31), &[], &[], &[], &[], &[]);
    assert!(output.contains('┌'));
    assert!(output.contains('│'));
    assert!(output.contains("— End of Report —"));
}

#[test]
fn envelope_budget_sorted_by_account_number() {
    let accounts = vec![
        account(1, "5300", "Utilities", AccountType::Expense),
        account(2, "5100", "Maintenance", AccountType::Expense),
        account(3, "5200", "Insurance", AccountType::Expense),
    ];
    let allocations = vec![allocation(1, 1, 10_000_000), allocation(2, 2, 20_000_000), allocation(3, 3, 5_000_000), allocation(4, 99, 1)];
    let order = budget_order(&allocations, &accounts);
    assert_eq!(order, vec![(1, 1), (2, 2), (0, 0)]);
    let zeros = vec![Money(0); 3];
    let output = EnvelopeBudgetSummary.generate(
        "Acme",
        Date::new(2026, 1, 1),
        Date::new(2026, 12, 31),
        &allocations,
        &accounts,
        &order,
        &zeros,
        &zeros,
    );
    let p5100 = output.find("5100").expect("5100");
    let p5200 = output.find("5200").expect("5200");
    let p5300 = output.find("5300").expect("5300");
    assert!(p5100 < p5200 && p5200 < p5300, "rows must be sorted by account number");
}

#[test]
fn budget_order_keeps_allocation_order_for_equal_numbers() {
    let accounts = vec![
        account(1, "5200", "Insurance", AccountType::Expense),
        account(2, "5100", "Maintenance", AccountType::Expense),
    ];
    let allocations = vec![
        allocation(1, 1, 1_000_000),
        allocation(2, 2, 2_000_000),
        allocation(3, 1, 3_000_000),
        allocation(4, 2, 4_000_000),
    ];
    let order = budget_order(&allocations, &accounts);
    assert_eq!(order, vec![(1, 1), (3, 1), (0, 0), (2, 0)]);
}

// ── Fixed Asset Schedule ────────────────────────────────────────────────────

fn asset(number: &str, name: &str, cost: Money, accum: Money, in_service: Option<Date>, life: Option<u32>) -> FixedAssetWithDetails {
    FixedAssetWithDetails {
        detail: FixedAssetDetail {
            id: FixedAssetDetailId(1),
            account_id: AccountId(1),
            cost_basis: cost,
            in_service_date: in_service,
            useful_life_months: life,
            is_depreciable: life.is_some(),
            source_cip_account_id: None,
            accum_depreciation_account_id: None,
            depreciation_expense_account_id: None,
        },
        account_name: name.to_owned(),
        account_number: number.to_owned(),
        accumulated_depreciation: accum,
        book_value: Money(cost.0 - accum.0),
    }
}

#[test]
fn fixed_asset_schedule_report_name() {
    assert_eq!(FixedAssetSchedule.name(), "FixedAssetSchedule");
}

#[test]
fn fixed_asset_schedule_empty() {
    let output = FixedAssetSchedule.generate("Test Co", Date::new(2026, 3, 31), &[]);
    assert!(output.contains("Fixed Asset Schedule"));
    assert!(output.contains("TOTAL"));
}

#[test]
fn fixed_asset_schedule_shows_asset_and_book_value() {
    let assets = vec![asset("1500", "Buildings", dollars(120_000), dollars(1_000), Some(Date::new(2026, 1, 1)), Some(360))];
    let output = FixedAssetSchedule.generate("Acme", Date::new(2026, 3, 31), &assets);
    assert!(output.contains("Buildings"));
    assert!(output.contains("120,000.00"));
    assert!(output.contains("119,000.00"));
    assert!(output.contains("2026-01-01"));
    assert!(output.contains("360"));
}

#[test]
fn fixed_asset_schedule_book_value_equals_cost_minus_accum_depr() {
    let assets = vec![
        asset("1500", "Buildings", dollars(12_000), dollars(3_000), Some(Date::new(2026, 1, 1)), Some(12)),
        asset("1600", "Land", dollars(50_000), Money(0), None, None),
    ];
    let rows = FixedAssetSchedule.rows(&assets);
    assert_eq!(rows[0], vec!["1500", "Buildings", "2026-01-01", "12", "12,000.00", "3,000.00", "9,000.00"]);
    assert_eq!(rows[1], vec!["1600", "Land", "CIP", "N/A", "50,000.00", "0.00", "50,000.00"]);
    assert_eq!(rows[2], vec!["", "TOTAL", "", "", "62,000.00", "3,000.00", "59,000.00"]);
}

#[test]
fn fixed_asset_schedule_has_box_drawing_chars() {
    let output = FixedAssetSchedule.generate("Test", Date::new(2026, 3, 31), &[]);
    assert!(output.contains('┌'));
    assert!(output.contains('│'));
}

// ── Income Statement ────────────────────────────────────────────────────────

#[test]
fn income_statement_report_name() {
    assert_eq!(IncomeStatement.name(), "IncomeStatement");
}

#[test]
fn income_statement_contains_sections() {
    let output = IncomeStatement.generate("Test Co", Date::new(2026, 1, 1), Date::new(2026, 3, 31), &[], &[], &[]);
    assert!(output.contains("Income Statement"));
    assert!(output.contains("Revenue"));
    assert!(output.contains("Expense"));
    assert!(output.contains("NET INCOME"));
}

#[test]
fn income_statement_net_income_equals_revenue_minus_expenses() {
    let accounts = vec![
        account(1, "1110", "Checking", AccountType::Asset),
        account(2, "4100", "Rental Income", AccountType::Revenue),
        account(3, "5100", "Repairs", AccountType::Expense),
    ];
    let end_balances = vec![dollars(1_700), dollars(-2_000), dollars(300)];
    let pre_balances = vec![dollars(0), dollars(0), dollars(0)];
    let rows = IncomeStatement.rows(&accounts, &end_balances, &pre_balances);
    assert_eq!(rows[0], vec!["── Revenue ──", ""]);
    assert_eq!(rows[1], vec!["  Rental Income", "2,000.00"]);
    assert_eq!(rows[2], vec!["Total Revenue", "2,000.00"]);
    assert_eq!(rows[4], vec!["── Expense ──", ""]);
    assert_eq!(rows[5], vec!["  Repairs", "300.00"]);
    assert_eq!(rows[6], vec!["Total Expense", "300.00"]);
    assert_eq!(rows[8], vec!["NET INCOME", "1,700.00"]);
}

#[test]
fn income_statement_uses_change_over_range() {
    let accounts = vec![account(2, "4100", "Rental Income", AccountType::Revenue)];
    let rows = IncomeStatement.rows(&accounts, &[dollars(-2_500)], &[dollars(-2_000)]);
    assert_eq!(rows[1], vec!["  Rental Income", "500.00"]);
    assert_eq!(rows[rows.len() - 1], vec!["NET INCOME", "500.00"]);
}

#[test]
fn income_statement_has_box_drawing_chars() {
    let output = IncomeStatement.generate("Test", Date::new(2026, 1, 1), Date::new(2026, 3, 31), &[], &[], &[]);
    assert!(output.contains('┌'));
    assert!(output.contains('│'));
}
