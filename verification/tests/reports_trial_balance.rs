use bursar::accounts::Account;
use bursar::date::Date;
use bursar::money::Money;
use bursar::reports::trial_balance::TrialBalance;
use bursar::types::{AccountId, AccountType};

fn account(id: i64, number: &str, name: &str, t: AccountType, active: bool, placeholder: bool) -> Account {
    Account {
        id: AccountId(id),
        number: number.to_owned(),
        name: name.to_owned(),
        account_type: t,
        parent_id: None,
        is_active: active,
        is_contra: false,
        is_placeholder: placeholder,
        created_at: String::new(),
        updated_at: String::new(),
    }
}

#[test]
fn trial_balance_report_name() {
    assert_eq!(TrialBalance.name(), "TrialBalance");
}

#[test]
fn trial_balance_rows_split_debits_and_credits() {
    let accounts = vec![
        account(1, "1000", "Assets", AccountType::Asset, true, true),
        account(2, "1110", "Checking", AccountType::Asset, true, false),
        account(3, "1120", "Old Savings", AccountType::Asset, false, false),
        account(4, "3000", "Owner Equity", AccountType::Equity, true, false),
        account(5, "4100", "Revenue", AccountType::Revenue, true, false),
    ];
    let balances = vec![Money(0), Money(150_000_000_000), Money(0), Money(0), Money(-150_000_000_000)];
    let rows = TrialBalance.rows(&accounts, &balances);
    assert_eq!(rows.len(), 4);
    assert_eq!(rows[0], vec!["1110", "Checking", "1,500.00", ""]);
    assert_eq!(rows[1], vec!["3000", "Owner Equity", "", ""]);
    assert_eq!(rows[2], vec!["4100", "Revenue", "", "1,500.00"]);
    assert_eq!(rows[3], vec!["", "TOTAL", "1,500.00", "1,500.00"]);
}

#[test]
fn trial_balance_empty_shows_zero_totals() {
    let out = TrialBalance.generate("Test Co", Date::new(2026, 3, 31), &[], &[]);
    assert!(out.contains("Trial Balance"));
    assert!(out.contains("Test Co"));
    assert!(out.contains("As of March 31, 2026"));
    assert!(out.contains("TOTAL"));
    assert!(out.contains("0.00"));
    assert!(out.contains('┌'));
}

#[test]
fn trial_balance_balances_after_posting() {
    // One posted entry: Dr Checking 500 / Cr Revenue 500.
    let accounts = vec![
        account(1, "1110", "Checking", AccountType::Asset, true, false),
        account(2, "4100", "Revenue", AccountType::Revenue, true, false),
    ];
    let balances = vec![Money(50_000_000_000), Money(-50_000_000_000)];
    let output = TrialBalance.generate("Acme LLC", Date::new(2026, 3, 31), &accounts, &balances);
    assert!(output.contains("Checking"), "cash account missing");
    assert!(output.contains("Revenue"), "revenue account missing");
    assert!(output.contains("500.00"), "amount missing");
    let total_line = output.lines().find(|l| l.contains("TOTAL")).expect("TOTAL row missing");
    assert_eq!(total_line.matches("500.00").count(), 2, "debits should equal credits in TOTAL row");
}

#[test]
fn trial_balance_skips_inactive_zero_balance_accounts() {
    let accounts = vec![account(1, "1110", "Cash", AccountType::Asset, false, false)];
    let balances = vec![Money(0)];
    let output = TrialBalance.generate("Test", Date::new(2026, 3, 31), &accounts, &balances);
    assert!(!output.contains("Cash"), "inactive zero-balance account should be excluded");
}

#[test]
fn trial_balance_has_box_drawing_chars() {
    let output = TrialBalance.generate("Test", Date::new(2026, 3, 31), &[], &[]);
    assert!(output.contains('┌'), "missing TL corner");
    assert!(output.contains('│'), "missing vertical bar");
    assert!(output.contains('─'), "missing horizontal bar");
}
