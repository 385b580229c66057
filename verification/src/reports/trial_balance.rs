//! Trial Balance report.
//!
//! Lists every non-placeholder account with its balance as of a date, debit
//! balances in the Debit column and credit balances in the Credit column.
//! Inactive accounts with a zero balance are omitted; active accounts with a
//! zero balance show blank amounts. The last row totals both columns, and the
//! totals agree whenever the ledger balances.

use vstd::prelude::*;
use crate::reports::is_stamp;
use crate::accounts::Account;
use crate::date::{Date, valid_date, four_digit_year, long_text};
use crate::money::{Money, money_text};
use crate::reports::{Align, header_text, table_text, headers_view, rows_view};
use crate::reports::builders::{
    short_text, rows_short, labels_short, document_text, money_cell, blank, copy_text, literal,
    assemble, prefixed, lemma_money_short,
};

verus! {

/// The Trial Balance report.
pub struct TrialBalance;

/// The line an account contributes, if any.
pub open spec fn tb_line(a: Account, b: int) -> Option<Seq<Seq<char>>> {
    if a.is_placeholder || (!a.is_active && b == 0) {
        None
    } else {
        Some(seq![
            a.number@,
            a.name@,
            if b > 0 { money_text(b) } else { Seq::<char>::empty() },
            if b < 0 { money_text(-b) } else { Seq::<char>::empty() },
        ])
    }
}

/// Account lines for the first `k` accounts.
pub open spec fn tb_rows(accts: Seq<Account>, bals: Seq<Money>, k: int) -> Seq<Seq<Seq<char>>>
    decreases k,
{
    if k <= 0 {
        Seq::empty()
    } else {
        let prev = tb_rows(accts, bals, k - 1);
        match tb_line(accts[k - 1], bals[k - 1].0 as int) {
            Some(l) => prev.push(l),
            None => prev,
        }
    }
}

/// Total of the debit balances listed among the first `k` accounts.
pub open spec fn tb_debit(accts: Seq<Account>, bals: Seq<Money>, k: int) -> int
    decreases k,
{
    if k <= 0 {
        0
    } else {
        let b = bals[k - 1].0 as int;
        tb_debit(accts, bals, k - 1) + if tb_line(accts[k - 1], b) is Some && b > 0 { b } else { 0 }
    }
}

/// Total of the credit balances (as positive amounts) listed among the first `k` accounts.
pub open spec fn tb_credit(accts: Seq<Account>, bals: Seq<Money>, k: int) -> int
    decreases k,
{
    if k <= 0 {
        0
    } else {
        let b = bals[k - 1].0 as int;
        tb_credit(accts, bals, k - 1) + if tb_line(accts[k - 1], b) is Some && b < 0 { -b } else { 0 }
    }
}

/// Sum of the balances of the non-placeholder accounts among the first `k`.
pub open spec fn net_balance(accts: Seq<Account>, bals: Seq<Money>, k: int) -> int
    decreases k,
{
    if k <= 0 {
        0
    } else {
        net_balance(accts, bals, k - 1) + if accts[k - 1].is_placeholder { 0 } else { bals[k - 1].0 as int }
    }
}

/// All table rows: the account lines, then the totals row.
pub open spec fn tb_table_rows(accts: Seq<Account>, bals: Seq<Money>) -> Seq<Seq<Seq<char>>> {
    let n = accts.len() as int;
    tb_rows(accts, bals, n).push(
        seq![Seq::<char>::empty(), "TOTAL"@, money_text(tb_debit(accts, bals, n)), money_text(tb_credit(accts, bals, n))],
    )
}

/// Column labels.
pub open spec fn tb_headers() -> Seq<Seq<char>> {
    seq!["#"@, "Account Name"@, "Debit"@, "Credit"@]
}

/// Column alignments.
pub open spec fn tb_aligns() -> Seq<Align> {
    seq![Align::Left, Align::Left, Align::Right, Align::Right]
}

/// Inputs the report accepts: one balance per account, no `i64::MIN` balance,
/// column totals within `i64`, and account texts of sane length.
pub open spec fn tb_input_ok(accts: Seq<Account>, bals: Seq<Money>) -> bool {
    &&& accts.len() == bals.len()
    &&& forall|i: int| 0 <= i < bals.len() ==> #[trigger] bals[i].0 != i64::MIN
    &&& tb_debit(accts, bals, accts.len() as int) <= i64::MAX
    &&& tb_credit(accts, bals, accts.len() as int) <= i64::MAX
    &&& forall|i: int| 0 <= i < accts.len() ==> short_text(#[trigger] accts[i].number@) && short_text(accts[i].name@)
}

/// The column totals only grow along the account list.
pub proof fn lemma_tb_totals_monotone(accts: Seq<Account>, bals: Seq<Money>, i: int, j: int)
    requires
        0 <= i <= j,
    ensures
        0 <= tb_debit(accts, bals, i) <= tb_debit(accts, bals, j),
        0 <= tb_credit(accts, bals, i) <= tb_credit(accts, bals, j),
    decreases j,
{
    if j > i {
        lemma_tb_totals_monotone(accts, bals, i, j - 1);
    } else if i > 0 {
        lemma_tb_totals_monotone(accts, bals, i - 1, i - 1);
    }
}

/// Debit total minus credit total is the net balance of the non-placeholder accounts.
pub proof fn lemma_tb_difference(accts: Seq<Account>, bals: Seq<Money>, k: int)
    ensures
        tb_debit(accts, bals, k) - tb_credit(accts, bals, k) == net_balance(accts, bals, k),
    decreases k,
{
    if k > 0 {
        lemma_tb_difference(accts, bals, k - 1);
    }
}

/// When the balances of all postable accounts sum to zero (every posted entry
/// balances), the Debit and Credit totals of the trial balance are equal.
pub proof fn lemma_trial_balance_totals_agree(accts: Seq<Account>, bals: Seq<Money>)
    requires
        accts.len() == bals.len(),
        net_balance(accts, bals, accts.len() as int) == 0,
    ensures
        tb_debit(accts, bals, accts.len() as int) == tb_credit(accts, bals, accts.len() as int),
{
    lemma_tb_difference(accts, bals, accts.len() as int);
}

/// Rows of account lines have short cells.
pub proof fn lemma_tb_rows_short(accts: Seq<Account>, bals: Seq<Money>, k: int)
    requires
        0 <= k <= accts.len(),
        tb_input_ok(accts, bals),
    ensures
        rows_short(tb_rows(accts, bals, k)),
    decreases k,
{
    if k > 0 {
        lemma_tb_rows_short(accts, bals, k - 1);
        let b = bals[k - 1].0;
        lemma_money_short(b);
        if b < 0 {
            lemma_money_short(-b as i64);
        }
        assert(short_text(accts[k - 1].number@));
        let prev = tb_rows(accts, bals, k - 1);
        let cur = tb_rows(accts, bals, k);
        assert forall|r: int, i: int| 0 <= r < cur.len() && 0 <= i < cur[r].len() implies #[trigger] short_text(cur[r][i]) by {
            if r < prev.len() {
                assert(cur[r] == prev[r]);
            }
        }
    }
}

impl TrialBalance {
    /// The report's name, used in file names.
    pub fn name(&self) -> (s: &'static str)
        ensures
            s@ == "TrialBalance"@,
    {
        "TrialBalance"
    }

    /// The table rows of the report for accounts in chart order with their
    /// balances (debit-positive) as of the report date.
    pub fn rows(&self, accounts: &[Account], balances: &[Money]) -> (rows: Vec<Vec<String>>)
        requires
            tb_input_ok(accounts@, balances@),
        ensures
            rows_view(rows@) == tb_table_rows(accounts@, balances@),
            rows_short(rows_view(rows@)),
    {
        let ghost accts = accounts@;
        let ghost bals = balances@;
        let n = accounts.len();
        let mut rows: Vec<Vec<String>> = Vec::new();
        let mut total_debit = Money(0);
        let mut total_credit = Money(0);
        let mut i: usize = 0;
        while i < n
            invariant
                n == accts.len(),
                accts == accounts@,
                bals == balances@,
                tb_input_ok(accts, bals),
                i <= n,
                rows_view(rows@) == tb_rows(accts, bals, i as int),
                total_debit.0 == tb_debit(accts, bals, i as int),
                total_credit.0 == tb_credit(accts, bals, i as int),
            decreases n - i,
        {
            let account = &accounts[i];
            let balance = balances[i];
            proof {
                lemma_tb_totals_monotone(accts, bals, i + 1, n as int);
            }
            if !(account.is_placeholder || (!account.is_active && balance.is_zero())) {
                let mut row: Vec<String> = Vec::new();
                row.push(copy_text(&account.number));
                row.push(copy_text(&account.name));
                if balance.0 > 0 {
                    total_debit = total_debit.plus(balance);
                    row.push(money_cell(balance));
                    row.push(blank());
                } else if balance.0 < 0 {
                    let abs_bal = balance.abs();
                    total_credit = total_credit.plus(abs_bal);
                    row.push(blank());
                    row.push(money_cell(abs_bal));
                } else {
                    row.push(blank());
                    row.push(blank());
                }
                let ghost line = tb_line(accts[i as int], balance.0 as int);
                assert(row@.map_values(|c: String| c@) =~= line.unwrap());
                rows.push(row);
                assert(rows_view(rows@) =~= tb_rows(accts, bals, i + 1));
            } else {
                assert(tb_rows(accts, bals, i + 1) == tb_rows(accts, bals, i as int));
            }
            i = i + 1;
        }
        let mut total_row: Vec<String> = Vec::new();
        total_row.push(blank());
        total_row.push(literal("TOTAL"));
        total_row.push(money_cell(total_debit));
        total_row.push(money_cell(total_credit));
        let ghost before = rows_view(rows@);
        assert(total_row@.map_values(|c: String| c@) =~= seq![
            Seq::<char>::empty(),
            "TOTAL"@,
            money_text(tb_debit(accts, bals, n as int)),
            money_text(tb_credit(accts, bals, n as int)),
        ]);
        rows.push(total_row);
        assert(rows_view(rows@) =~= before.push(total_row@.map_values(|c: String| c@)));
        proof {
            assert(rows_view(rows@) =~= tb_table_rows(accts, bals));
            lemma_tb_rows_short(accts, bals, n as int);
            reveal_strlit("TOTAL");
            lemma_money_short(total_debit.0);
            lemma_money_short(total_credit.0);
            let rv = rows_view(rows@);
            let prev = tb_rows(accts, bals, n as int);
            assert forall|r: int, c: int| 0 <= r < rv.len() && 0 <= c < rv[r].len() implies #[trigger] short_text(rv[r][c]) by {
                if r < prev.len() {
                    assert(rv[r] == prev[r]);
                }
            }
        }
        rows
    }

    /// The full report document: header box and table.
    pub fn generate(&self, entity_name: &str, as_of: Date, accounts: &[Account], balances: &[Money]) -> (s: String)
        requires
            short_text(entity_name@),
            valid_date(as_of),
            four_digit_year(as_of),
            tb_input_ok(accounts@, balances@),
        ensures
            exists|g: Seq<char>| is_stamp(g) &&
                s@ == document_text(
                    header_text(entity_name@, "Trial Balance"@, "As of "@ + long_text(as_of), g),
                    table_text(tb_headers(), tb_table_rows(accounts@, balances@), tb_aligns()),
                ),
    {
        let rows = self.rows(accounts, balances);
        let long = as_of.to_long_string();
        let date_label = prefixed("As of ", long.as_str());
        let headers: [&str; 4] = ["#", "Account Name", "Debit", "Credit"];
        let alignments: [Align; 4] = [Align::Left, Align::Left, Align::Right, Align::Right];
        proof {
            reveal_strlit("#");
            reveal_strlit("Account Name");
            reveal_strlit("Debit");
            reveal_strlit("Credit");
            reveal_strlit("Trial Balance");
            reveal_strlit("As of ");
            assert(headers_view(headers@) =~= tb_headers());
            assert(alignments@ =~= tb_aligns());
            crate::date::lemma_long_text_short(as_of);
        }
        assemble(entity_name, "Trial Balance", date_label.as_str(), &headers, rows.as_slice(), &alignments)
    }
}

} // verus!
