//! Balance Sheet report.
//!
//! Assets, Liabilities and Equity as of a date, one section per account type,
//! each with its subtotal, then the total of assets and the total of
//! liabilities and equity. Balances are shown in the natural direction of the
//! section: debit balances for assets, credit balances for liabilities and
//! equity. A contra account's balance runs against its section, so it shows as
//! a negative amount that reduces the section total, and Total Assets equals
//! Total Liabilities + Equity whenever the ledger balances.

use vstd::prelude::*;
use crate::reports::is_stamp;
use crate::accounts::Account;
use crate::date::{Date, valid_date, four_digit_year, long_text};
use crate::money::{Money, money_text};
use crate::reports::{Align, header_text, table_text, headers_view, rows_view};
use crate::reports::builders::{
    short_text, rows_short, lemma_rows_short_concat, document_text, money_cell, literal, assemble, prefixed, lemma_money_short,
};
use crate::reports::sections::{section_rows, section_block, section_total, section_listed, section_ok, append_rows};
use crate::types::{AccountType, BalanceDirection, normal_side};

verus! {

/// The Balance Sheet report.
pub struct BalanceSheet;

/// The account types shown on the balance sheet.
pub open spec fn bs_type(t: AccountType) -> bool {
    t == AccountType::Asset || t == AccountType::Liability || t == AccountType::Equity
}

/// The amount shown for an account with debit-positive balance `raw`: the
/// balance in the natural direction of the account's section.
pub open spec fn bs_display(a: Account, raw: int) -> int {
    if normal_side(a.account_type) == BalanceDirection::Credit { -raw } else { raw }
}

/// The amounts shown for all accounts (zero for accounts not on the sheet).
pub open spec fn bs_amounts(accts: Seq<Account>, bals: Seq<Money>) -> Seq<Money> {
    Seq::new(accts.len(), |i: int|
        if bs_type(accts[i].account_type) && section_listed(accts[i], accts[i].account_type) {
            Money(bs_display(accts[i], bals[i].0 as int) as i64)
        } else {
            Money(0)
        })
}

/// Total of assets.
pub open spec fn total_assets(accts: Seq<Account>, bals: Seq<Money>) -> int {
    section_total(accts, bs_amounts(accts, bals), AccountType::Asset, accts.len() as int)
}

/// Total of liabilities and equity.
pub open spec fn total_liabilities_equity(accts: Seq<Account>, bals: Seq<Money>) -> int {
    section_total(accts, bs_amounts(accts, bals), AccountType::Liability, accts.len() as int)
        + section_total(accts, bs_amounts(accts, bals), AccountType::Equity, accts.len() as int)
}

/// All table rows.
pub open spec fn bs_table_rows(accts: Seq<Account>, bals: Seq<Money>) -> Seq<Seq<Seq<char>>> {
    let amts = bs_amounts(accts, bals);
    section_block(accts, amts, AccountType::Asset) + section_block(accts, amts, AccountType::Liability)
        + section_block(accts, amts, AccountType::Equity) + seq![
        seq!["TOTAL ASSETS"@, money_text(total_assets(accts, bals))],
        seq!["TOTAL LIABILITIES + EQUITY"@, money_text(total_liabilities_equity(accts, bals))],
    ]
}

/// Column labels.
pub open spec fn bs_headers() -> Seq<Seq<char>> {
    seq!["Account"@, "Amount"@]
}

/// Column alignments.
pub open spec fn bs_aligns() -> Seq<Align> {
    seq![Align::Left, Align::Right]
}

/// Inputs the report accepts: one balance per account, no `i64::MIN`
/// balance, section sums within `i64`, short account names.
pub open spec fn bs_input_ok(accts: Seq<Account>, bals: Seq<Money>) -> bool {
    &&& accts.len() == bals.len()
    &&& forall|i: int| 0 <= i < bals.len() ==> (#[trigger] bals[i]).0 != i64::MIN
    &&& section_ok(accts, bs_amounts(accts, bals), AccountType::Asset)
    &&& section_ok(accts, bs_amounts(accts, bals), AccountType::Liability)
    &&& section_ok(accts, bs_amounts(accts, bals), AccountType::Equity)
    &&& i64::MIN <= total_liabilities_equity(accts, bals) <= i64::MAX
}

/// Sum of the debit-positive balances of the accounts on the sheet among the first `k`.
pub open spec fn sheet_balance(accts: Seq<Account>, bals: Seq<Money>, k: int) -> int
    decreases k,
{
    if k <= 0 {
        0
    } else {
        let a = accts[k - 1];
        sheet_balance(accts, bals, k - 1) + if bs_type(a.account_type) && section_listed(a, a.account_type) {
            bals[k - 1].0 as int
        } else {
            0
        }
    }
}

proof fn lemma_sheet_difference(accts: Seq<Account>, bals: Seq<Money>, k: int)
    requires
        accts.len() == bals.len(),
        0 <= k <= accts.len(),
        forall|i: int| 0 <= i < bals.len() ==> (#[trigger] bals[i]).0 != i64::MIN,
    ensures
        section_total(accts, bs_amounts(accts, bals), AccountType::Asset, k) - section_total(
            accts,
            bs_amounts(accts, bals),
            AccountType::Liability,
            k,
        ) - section_total(accts, bs_amounts(accts, bals), AccountType::Equity, k) == sheet_balance(accts, bals, k),
    decreases k,
{
    if k > 0 {
        lemma_sheet_difference(accts, bals, k - 1);
        assert(bals[k - 1].0 != i64::MIN);
    }
}

/// The fundamental equation: when the balances of the accounts on the sheet sum
/// to zero (every entry balances and revenue and expense accounts are closed
/// out), Total Assets equals Total Liabilities + Equity, contra accounts included.
pub proof fn lemma_balance_sheet_balances(accts: Seq<Account>, bals: Seq<Money>)
    requires
        accts.len() == bals.len(),
        forall|i: int| 0 <= i < bals.len() ==> (#[trigger] bals[i]).0 != i64::MIN,
        sheet_balance(accts, bals, accts.len() as int) == 0,
    ensures
        total_assets(accts, bals) == total_liabilities_equity(accts, bals),
{
    lemma_sheet_difference(accts, bals, accts.len() as int);
}

/// The amounts shown for all accounts.
fn display_amounts(accounts: &[Account], balances: &[Money]) -> (v: Vec<Money>)
    requires
        accounts@.len() == balances@.len(),
        forall|i: int| 0 <= i < balances@.len() ==> (#[trigger] balances@[i]).0 != i64::MIN,
    ensures
        v@ == bs_amounts(accounts@, balances@),
{
    let mut v: Vec<Money> = Vec::new();
    let mut i: usize = 0;
    while i < accounts.len()
        invariant
            accounts@.len() == balances@.len(),
            forall|j: int| 0 <= j < balances@.len() ==> (#[trigger] balances@[j]).0 != i64::MIN,
            i <= accounts@.len(),
            v@ == bs_amounts(accounts@, balances@).take(i as int),
        decreases accounts@.len() - i,
    {
        let a = &accounts[i];
        let raw = balances[i];
        let t = a.account_type;
        let on_sheet = (t == AccountType::Asset || t == AccountType::Liability || t == AccountType::Equity)
            && !a.is_placeholder && a.is_active;
        let shown = if on_sheet {
            if t.normal_balance() == BalanceDirection::Credit {
                assert(raw.0 != i64::MIN);
                raw.negated()
            } else {
                raw
            }
        } else {
            Money(0)
        };
        v.push(shown);
        i = i + 1;
        assert(v@ =~= bs_amounts(accounts@, balances@).take(i as int));
    }
    assert(v@ =~= bs_amounts(accounts@, balances@));
    v
}

impl BalanceSheet {
    /// The report's name, used in file names.
    pub fn name(&self) -> (s: &'static str)
        ensures
            s@ == "BalanceSheet"@,
    {
        "BalanceSheet"
    }

    /// The table rows for accounts in chart order with their debit-positive balances.
    pub fn rows(&self, accounts: &[Account], balances: &[Money]) -> (rows: Vec<Vec<String>>)
        requires
            bs_input_ok(accounts@, balances@),
        ensures
            rows_view(rows@) == bs_table_rows(accounts@, balances@),
            rows_short(rows_view(rows@)),
    {
        let amounts = display_amounts(accounts, balances);
        let (mut rows, assets) = section_rows(accounts, amounts.as_slice(), AccountType::Asset);
        let (liab_rows, liabilities) = section_rows(accounts, amounts.as_slice(), AccountType::Liability);
        let (eq_rows, equity) = section_rows(accounts, amounts.as_slice(), AccountType::Equity);
        let ghost a_view = rows_view(rows@);
        let ghost l_view = rows_view(liab_rows@);
        let ghost e_view = rows_view(eq_rows@);
        append_rows(&mut rows, liab_rows);
        append_rows(&mut rows, eq_rows);
        let total_le = Money(liabilities.0 + equity.0);
        let mut r1: Vec<String> = Vec::new();
        r1.push(literal("TOTAL ASSETS"));
        r1.push(money_cell(assets));
        let mut r2: Vec<String> = Vec::new();
        r2.push(literal("TOTAL LIABILITIES + EQUITY"));
        r2.push(money_cell(total_le));
        proof {
            lemma_rows_short_concat(a_view, l_view);
            lemma_rows_short_concat(a_view + l_view, e_view);
            assert(rows_view(rows@) == a_view + l_view + e_view);
            reveal_strlit("TOTAL ASSETS");
            reveal_strlit("TOTAL LIABILITIES + EQUITY");
            lemma_money_short(assets.0);
            lemma_money_short(total_le.0);
        }
        let ghost body = rows_view(rows@);
        let ghost tail = seq![
            seq!["TOTAL ASSETS"@, money_text(assets.0 as int)],
            seq!["TOTAL LIABILITIES + EQUITY"@, money_text(total_le.0 as int)],
        ];
        assert(r1@.map_values(|c: String| c@) =~= tail[0]);
        assert(r2@.map_values(|c: String| c@) =~= tail[1]);
        rows.push(r1);
        rows.push(r2);
        proof {
            assert(rows_view(rows@) =~= body + tail);
            assert(rows_short(tail));
            lemma_rows_short_concat(body, tail);
        }
        rows
    }

    /// The full report document: header box and table.
    pub fn generate(&self, entity_name: &str, as_of: Date, accounts: &[Account], balances: &[Money]) -> (s: String)
        requires
            short_text(entity_name@),
            valid_date(as_of),
            four_digit_year(as_of),
            bs_input_ok(accounts@, balances@),
        ensures
            exists|g: Seq<char>| is_stamp(g) &&
                s@ == document_text(
                    header_text(entity_name@, "Balance Sheet"@, "As of "@ + long_text(as_of), g),
                    table_text(bs_headers(), bs_table_rows(accounts@, balances@), bs_aligns()),
                ),
    {
        let rows = self.rows(accounts, balances);
        let long = as_of.to_long_string();
        let date_label = prefixed("As of ", long.as_str());
        let headers: [&str; 2] = ["Account", "Amount"];
        let alignments: [Align; 2] = [Align::Left, Align::Right];
        proof {
            reveal_strlit("Account");
            reveal_strlit("Amount");
            reveal_strlit("Balance Sheet");
            reveal_strlit("As of ");
            assert(headers_view(headers@) =~= bs_headers());
            assert(alignments@ =~= bs_aligns());
            crate::date::lemma_long_text_short(as_of);
        }
        assemble(entity_name, "Balance Sheet", date_label.as_str(), &headers, rows.as_slice(), &alignments)
    }
}

} // verus!
