//! Income Statement report.
//!
//! Revenue and expenses over a date range, one section per account type with
//! its subtotal, and net income (revenue total less expense total). The amount
//! of an account is the change of its balance over the range: the balance at
//! the end less the balance on the day before the start, shown as a credit
//! amount for revenue and a debit amount for expenses.

use vstd::prelude::*;
use crate::reports::is_stamp;
use crate::accounts::Account;
use crate::date::{Date, valid_date, four_digit_year, long_text};
use crate::money::{Money, money_text};
use crate::reports::{Align, header_text, table_text, headers_view, rows_view};
use crate::reports::builders::{
    short_text, rows_short, lemma_rows_short_concat, document_text, money_cell, literal, assemble,
    lemma_money_short, range_label, range_text,
};
use crate::reports::sections::{section_rows, section_block, section_total, section_listed, section_ok, append_rows};
use crate::types::AccountType;

verus! {

/// The Income Statement report.
pub struct IncomeStatement;

/// The amount shown for an account whose balance changed by `change` (debit-positive).
pub open spec fn is_display(t: AccountType, change: int) -> int {
    if t == AccountType::Revenue { -change } else { change }
}

/// The amounts shown for all accounts (zero for accounts not on the statement).
pub open spec fn is_amounts(accts: Seq<Account>, end_bals: Seq<Money>, pre_bals: Seq<Money>) -> Seq<Money> {
    Seq::new(accts.len(), |i: int|
        if (accts[i].account_type == AccountType::Revenue || accts[i].account_type == AccountType::Expense)
            && section_listed(accts[i], accts[i].account_type) {
            Money(is_display(accts[i].account_type, end_bals[i].0 - pre_bals[i].0) as i64)
        } else {
            Money(0)
        })
}

/// Total revenue.
pub open spec fn total_revenue(accts: Seq<Account>, end_bals: Seq<Money>, pre_bals: Seq<Money>) -> int {
    section_total(accts, is_amounts(accts, end_bals, pre_bals), AccountType::Revenue, accts.len() as int)
}

/// Total expenses.
pub open spec fn total_expenses(accts: Seq<Account>, end_bals: Seq<Money>, pre_bals: Seq<Money>) -> int {
    section_total(accts, is_amounts(accts, end_bals, pre_bals), AccountType::Expense, accts.len() as int)
}

/// All table rows.
pub open spec fn is_table_rows(accts: Seq<Account>, end_bals: Seq<Money>, pre_bals: Seq<Money>) -> Seq<Seq<Seq<char>>> {
    let amts = is_amounts(accts, end_bals, pre_bals);
    section_block(accts, amts, AccountType::Revenue) + section_block(accts, amts, AccountType::Expense) + seq![
        seq![
            "NET INCOME"@,
            money_text(total_revenue(accts, end_bals, pre_bals) - total_expenses(accts, end_bals, pre_bals)),
        ],
    ]
}

/// Column labels.
pub open spec fn is_headers() -> Seq<Seq<char>> {
    seq!["Account"@, "Amount"@]
}

/// Column alignments.
pub open spec fn is_aligns() -> Seq<Align> {
    seq![Align::Left, Align::Right]
}

/// Inputs the report accepts: balances at both ends for every account, changes
/// and sums within `i64`, short account names.
pub open spec fn is_input_ok(accts: Seq<Account>, end_bals: Seq<Money>, pre_bals: Seq<Money>) -> bool {
    &&& accts.len() == end_bals.len()
    &&& accts.len() == pre_bals.len()
    &&& forall|i: int| 0 <= i < accts.len() ==> i64::MIN < #[trigger] end_bals[i].0 - pre_bals[i].0 <= i64::MAX
    &&& section_ok(accts, is_amounts(accts, end_bals, pre_bals), AccountType::Revenue)
    &&& section_ok(accts, is_amounts(accts, end_bals, pre_bals), AccountType::Expense)
    &&& i64::MIN <= total_revenue(accts, end_bals, pre_bals) - total_expenses(accts, end_bals, pre_bals) <= i64::MAX
}

/// The amount an income-statement account shows is its activity over the
/// range: for an expense, the end balance less the balance before the start;
/// for revenue, the balance before the start less the end balance.
pub proof fn lemma_income_amount_is_range_activity(
    accts: Seq<Account>,
    end_bals: Seq<Money>,
    pre_bals: Seq<Money>,
    i: int,
)
    requires
        0 <= i < accts.len(),
        accts.len() == end_bals.len(),
        accts.len() == pre_bals.len(),
        i64::MIN < end_bals[i].0 - pre_bals[i].0 <= i64::MAX,
        !accts[i].is_placeholder && accts[i].is_active,
    ensures
        accts[i].account_type == AccountType::Expense ==> is_amounts(accts, end_bals, pre_bals)[i].0
            == end_bals[i].0 - pre_bals[i].0,
        accts[i].account_type == AccountType::Revenue ==> is_amounts(accts, end_bals, pre_bals)[i].0
            == pre_bals[i].0 - end_bals[i].0,
{
}

/// Net activity of the listed revenue and expense accounts among the first
/// `k`: what they earned less what they spent over the range (credits less
/// debits).
pub open spec fn net_activity(accts: Seq<Account>, end_bals: Seq<Money>, pre_bals: Seq<Money>, k: int) -> int
    decreases k,
{
    if k <= 0 {
        0
    } else {
        let a = accts[k - 1];
        net_activity(accts, end_bals, pre_bals, k - 1) + if (a.account_type == AccountType::Revenue
            || a.account_type == AccountType::Expense) && !a.is_placeholder && a.is_active {
            pre_bals[k - 1].0 - end_bals[k - 1].0
        } else {
            0
        }
    }
}

proof fn lemma_net_upto(accts: Seq<Account>, end_bals: Seq<Money>, pre_bals: Seq<Money>, k: int)
    requires
        0 <= k <= accts.len(),
        accts.len() == end_bals.len(),
        accts.len() == pre_bals.len(),
        forall|i: int| 0 <= i < accts.len() ==> i64::MIN < #[trigger] end_bals[i].0 - pre_bals[i].0 <= i64::MAX,
    ensures
        section_total(accts, is_amounts(accts, end_bals, pre_bals), AccountType::Revenue, k)
            - section_total(accts, is_amounts(accts, end_bals, pre_bals), AccountType::Expense, k)
            == net_activity(accts, end_bals, pre_bals, k),
    decreases k,
{
    if k > 0 {
        lemma_net_upto(accts, end_bals, pre_bals, k - 1);
        assert(i64::MIN < end_bals[k - 1].0 - pre_bals[k - 1].0 <= i64::MAX);
    }
}

/// Net income is the net activity of the revenue and expense accounts over the
/// range: credits less debits posted to them between the start and the end.
pub proof fn lemma_net_income_is_range_activity(accts: Seq<Account>, end_bals: Seq<Money>, pre_bals: Seq<Money>)
    requires
        accts.len() == end_bals.len(),
        accts.len() == pre_bals.len(),
        forall|i: int| 0 <= i < accts.len() ==> i64::MIN < #[trigger] end_bals[i].0 - pre_bals[i].0 <= i64::MAX,
    ensures
        total_revenue(accts, end_bals, pre_bals) - total_expenses(accts, end_bals, pre_bals)
            == net_activity(accts, end_bals, pre_bals, accts.len() as int),
{
    lemma_net_upto(accts, end_bals, pre_bals, accts.len() as int);
}

/// The statement depends only on each account's activity within the range:
/// two ledgers whose accounts changed by the same amounts over the range give
/// the same statement, whatever happened before the range.
pub proof fn lemma_income_ignores_prior_activity(
    accts: Seq<Account>,
    end_bals: Seq<Money>,
    pre_bals: Seq<Money>,
    end_bals2: Seq<Money>,
    pre_bals2: Seq<Money>,
)
    requires
        accts.len() == end_bals.len(),
        accts.len() == pre_bals.len(),
        accts.len() == end_bals2.len(),
        accts.len() == pre_bals2.len(),
        forall|i: int| 0 <= i < accts.len() ==> #[trigger] end_bals[i].0 - pre_bals[i].0 == end_bals2[i].0 - pre_bals2[i].0,
    ensures
        is_table_rows(accts, end_bals, pre_bals) == is_table_rows(accts, end_bals2, pre_bals2),
{
    assert(is_amounts(accts, end_bals, pre_bals) =~= is_amounts(accts, end_bals2, pre_bals2));
}

/// The amounts shown for all accounts.
fn period_amounts(accounts: &[Account], end_balances: &[Money], pre_balances: &[Money]) -> (v: Vec<Money>)
    requires
        accounts@.len() == end_balances@.len(),
        accounts@.len() == pre_balances@.len(),
        forall|i: int| 0 <= i < accounts@.len() ==> i64::MIN < #[trigger] end_balances@[i].0 - pre_balances@[i].0 <= i64::MAX,
    ensures
        v@ == is_amounts(accounts@, end_balances@, pre_balances@),
{
    let mut v: Vec<Money> = Vec::new();
    let mut i: usize = 0;
    while i < accounts.len()
        invariant
            accounts@.len() == end_balances@.len(),
            accounts@.len() == pre_balances@.len(),
            forall|j: int| 0 <= j < accounts@.len() ==> i64::MIN < #[trigger] end_balances@[j].0 - pre_balances@[j].0 <= i64::MAX,
            i <= accounts@.len(),
            v@ == is_amounts(accounts@, end_balances@, pre_balances@).take(i as int),
        decreases accounts@.len() - i,
    {
        let a = &accounts[i];
        let t = a.account_type;
        let shown = if (t == AccountType::Revenue || t == AccountType::Expense) && !a.is_placeholder && a.is_active {
            assert(i64::MIN < end_balances@[i as int].0 - pre_balances@[i as int].0 <= i64::MAX);
            let change = Money(end_balances[i].0 - pre_balances[i].0);
            if t == AccountType::Revenue { change.negated() } else { change }
        } else {
            Money(0)
        };
        v.push(shown);
        i = i + 1;
        assert(v@ =~= is_amounts(accounts@, end_balances@, pre_balances@).take(i as int));
    }
    assert(v@ =~= is_amounts(accounts@, end_balances@, pre_balances@));
    v
}

impl IncomeStatement {
    /// The report's name, used in file names.
    pub fn name(&self) -> (s: &'static str)
        ensures
            s@ == "IncomeStatement"@,
    {
        "IncomeStatement"
    }

    /// The table rows for accounts in chart order with their balances at the end
    /// of the range and on the day before it starts.
    pub fn rows(&self, accounts: &[Account], end_balances: &[Money], pre_balances: &[Money]) -> (rows: Vec<Vec<String>>)
        requires
            is_input_ok(accounts@, end_balances@, pre_balances@),
        ensures
            rows_view(rows@) == is_table_rows(accounts@, end_balances@, pre_balances@),
            rows_short(rows_view(rows@)),
    {
        let amounts = period_amounts(accounts, end_balances, pre_balances);
        let (mut rows, revenue) = section_rows(accounts, amounts.as_slice(), AccountType::Revenue);
        let (exp_rows, expenses) = section_rows(accounts, amounts.as_slice(), AccountType::Expense);
        let ghost r_view = rows_view(rows@);
        let ghost x_view = rows_view(exp_rows@);
        append_rows(&mut rows, exp_rows);
        let net = Money(revenue.0 - expenses.0);
        let mut last: Vec<String> = Vec::new();
        last.push(literal("NET INCOME"));
        last.push(money_cell(net));
        proof {
            lemma_rows_short_concat(r_view, x_view);
            reveal_strlit("NET INCOME");
            lemma_money_short(net.0);
        }
        let ghost body = rows_view(rows@);
        let ghost tail = seq![seq!["NET INCOME"@, money_text(net.0 as int)]];
        assert(last@.map_values(|c: String| c@) =~= tail[0]);
        rows.push(last);
        proof {
            assert(rows_view(rows@) =~= body + tail);
            assert(rows_short(tail));
            lemma_rows_short_concat(body, tail);
        }
        rows
    }

    /// The full report document for the range `start` to `end`.
    pub fn generate(
        &self,
        entity_name: &str,
        start: Date,
        end: Date,
        accounts: &[Account],
        end_balances: &[Money],
        pre_balances: &[Money],
    ) -> (s: String)
        requires
            short_text(entity_name@),
            valid_date(start) && four_digit_year(start),
            valid_date(end) && four_digit_year(end),
            is_input_ok(accounts@, end_balances@, pre_balances@),
        ensures
            exists|g: Seq<char>| is_stamp(g) &&
                s@ == document_text(
                    header_text(entity_name@, "Income Statement"@, range_text(start, end), g),
                    table_text(is_headers(), is_table_rows(accounts@, end_balances@, pre_balances@), is_aligns()),
                ),
    {
        let rows = self.rows(accounts, end_balances, pre_balances);
        let date_label = range_label(start, end);
        let headers: [&str; 2] = ["Account", "Amount"];
        let alignments: [Align; 2] = [Align::Left, Align::Right];
        proof {
            reveal_strlit("Account");
            reveal_strlit("Amount");
            reveal_strlit("Income Statement");
            assert(headers_view(headers@) =~= is_headers());
            assert(alignments@ =~= is_aligns());
        }
        assemble(entity_name, "Income Statement", date_label.as_str(), &headers, rows.as_slice(), &alignments)
    }
}

} // verus!
