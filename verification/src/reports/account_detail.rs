//! Account Detail report.
//!
//! Every posted line of one account within a date range with its running
//! balance, as the general-ledger view shows it, followed by the totals of the
//! debit and credit columns.

use vstd::prelude::*;
use crate::reports::is_stamp;
use crate::accounts::Account;
use crate::date::{Date, valid_date, four_digit_year, iso_text};
use crate::ledger::LedgerRow;
use crate::money::{Money, money_text};
use crate::reports::{Align, header_text, table_text, headers_view, rows_view};
use crate::reports::builders::{
    short_text, rows_short, lemma_rows_short_concat, document_text, money_cell, blank, copy_text, literal,
    assemble, lemma_money_short, range_label, range_text, opt_text, copy_opt_text,
};

verus! {

/// The Account Detail report.
pub struct AccountDetail;

/// A money cell that stays blank for zero.
pub open spec fn nonzero_money_text(m: Money) -> Seq<char> {
    if m.0 == 0 { Seq::empty() } else { money_text(m.0 as int) }
}

/// The row of one ledger line.
pub open spec fn ad_line(r: LedgerRow) -> Seq<Seq<char>> {
    seq![
        iso_text(r.entry_date),
        r.je_number@,
        opt_text(r.memo),
        nonzero_money_text(r.debit),
        nonzero_money_text(r.credit),
        money_text(r.running_balance.0 as int),
    ]
}

/// Total debits of the first `k` lines.
pub open spec fn debit_total(lines: Seq<LedgerRow>, k: int) -> int
    decreases k,
{
    if k <= 0 { 0 } else { debit_total(lines, k - 1) + lines[k - 1].debit.0 }
}

/// Total credits of the first `k` lines.
pub open spec fn credit_total(lines: Seq<LedgerRow>, k: int) -> int
    decreases k,
{
    if k <= 0 { 0 } else { credit_total(lines, k - 1) + lines[k - 1].credit.0 }
}

/// All table rows: one per line, then the totals row.
pub open spec fn ad_table_rows(lines: Seq<LedgerRow>) -> Seq<Seq<Seq<char>>> {
    let e = Seq::<char>::empty();
    let n = lines.len() as int;
    Seq::new(lines.len(), |i: int| ad_line(lines[i])) + seq![
        seq![e, e, "TOTAL"@, money_text(debit_total(lines, n)), money_text(credit_total(lines, n)), e],
    ]
}

/// The title of the report for an account.
pub open spec fn ad_title(a: Account) -> Seq<char> {
    "Account Detail: "@ + a.number@ + " "@ + a.name@
}

/// Column labels.
pub open spec fn ad_headers() -> Seq<Seq<char>> {
    seq!["Date"@, "JE #"@, "Description"@, "Debit"@, "Credit"@, "Balance"@]
}

/// Column alignments.
pub open spec fn ad_aligns() -> Seq<Align> {
    seq![Align::Left, Align::Left, Align::Left, Align::Right, Align::Right, Align::Right]
}

/// Inputs the report accepts: each row's running balance is the net of the
/// rows up to it (as [`crate::ledger::with_running_balance`] computes), real
/// dates with four-digit years, short texts, column totals within `i64`.
pub open spec fn ad_input_ok(lines: Seq<LedgerRow>) -> bool {
    &&& forall|i: int| 0 <= i < lines.len() ==> {
        &&& (#[trigger] lines[i]).running_balance.0 == debit_total(lines, i + 1) - credit_total(lines, i + 1)
        &&& valid_date(lines[i].entry_date)
        &&& four_digit_year(lines[i].entry_date)
        &&& short_text(lines[i].je_number@)
        &&& short_text(opt_text(lines[i].memo))
    }
    &&& forall|k: int| 0 <= k <= lines.len() ==> i64::MIN <= #[trigger] debit_total(lines, k) <= i64::MAX
    &&& forall|k: int| 0 <= k <= lines.len() ==> i64::MIN <= #[trigger] credit_total(lines, k) <= i64::MAX
}

/// A money cell, blank for zero.
fn nonzero_money_cell(m: Money) -> (s: String)
    ensures
        s@ == nonzero_money_text(m),
        short_text(s@),
{
    if m.0 == 0 { blank() } else { money_cell(m) }
}

impl AccountDetail {
    /// The report's name, used in file names.
    pub fn name(&self) -> (s: &'static str)
        ensures
            s@ == "AccountDetail"@,
    {
        "AccountDetail"
    }

    /// The table rows for the ledger lines of the account.
    pub fn rows(&self, lines: &[LedgerRow]) -> (rows: Vec<Vec<String>>)
        requires
            ad_input_ok(lines@),
        ensures
            rows_view(rows@) == ad_table_rows(lines@),
            rows_short(rows_view(rows@)),
    {
        let ghost ls = lines@;
        let n = lines.len();
        let mut rows: Vec<Vec<String>> = Vec::new();
        let mut total_debit = Money(0);
        let mut total_credit = Money(0);
        let mut i: usize = 0;
        while i < n
            invariant
                n == ls.len(),
                ls == lines@,
                ad_input_ok(ls),
                i <= n,
                rows_view(rows@) == Seq::new(i as nat, |j: int| ad_line(ls[j])),
                rows_short(rows_view(rows@)),
                total_debit.0 == debit_total(ls, i as int),
                total_credit.0 == credit_total(ls, i as int),
            decreases n - i,
        {
            let line = &lines[i];
            let mut row: Vec<String> = Vec::new();
            row.push(line.entry_date.to_iso_string());
            row.push(copy_text(&line.je_number));
            row.push(copy_opt_text(&line.memo));
            row.push(nonzero_money_cell(line.debit));
            row.push(nonzero_money_cell(line.credit));
            row.push(money_cell(line.running_balance));
            assert(i64::MIN <= debit_total(ls, i + 1) <= i64::MAX);
            assert(i64::MIN <= credit_total(ls, i + 1) <= i64::MAX);
            total_debit = Money(total_debit.0 + line.debit.0);
            total_credit = Money(total_credit.0 + line.credit.0);
            proof {
                crate::date::lemma_iso_text_short(line.entry_date);
            }
            let ghost before = rows_view(rows@);
            assert(row@.map_values(|c: String| c@) =~= ad_line(ls[i as int]));
            rows.push(row);
            proof {
                assert(rows_view(rows@) =~= before.push(ad_line(ls[i as int])));
                assert(rows_view(rows@) =~= Seq::new((i + 1) as nat, |j: int| ad_line(ls[j])));
                let tail = seq![ad_line(ls[i as int])];
                assert(rows_short(tail));
                lemma_rows_short_concat(before, tail);
                assert(before + tail =~= before.push(ad_line(ls[i as int])));
            }
            i = i + 1;
        }
        let mut total_row: Vec<String> = Vec::new();
        total_row.push(blank());
        total_row.push(blank());
        total_row.push(literal("TOTAL"));
        total_row.push(money_cell(total_debit));
        total_row.push(money_cell(total_credit));
        total_row.push(blank());
        let ghost body = rows_view(rows@);
        let ghost e = Seq::<char>::empty();
        proof {
            reveal_strlit("TOTAL");
        }
        let ghost tail = seq![seq![e, e, "TOTAL"@, money_text(total_debit.0 as int), money_text(total_credit.0 as int), e]];
        assert(total_row@.map_values(|c: String| c@) =~= tail[0]);
        rows.push(total_row);
        proof {
            assert(rows_view(rows@) =~= body + tail);
            assert(rows_view(rows@) =~= ad_table_rows(ls));
            lemma_money_short(total_debit.0);
            lemma_money_short(total_credit.0);
            assert(rows_short(tail));
            lemma_rows_short_concat(body, tail);
        }
        rows
    }

    /// The full report document for `account` over `start` to `end`, given its
    /// posted lines in the range with running balances.
    pub fn generate(
        &self,
        entity_name: &str,
        account: &Account,
        start: Date,
        end: Date,
        lines: &[LedgerRow],
    ) -> (s: String)
        requires
            short_text(entity_name@),
            short_text(ad_title(*account)),
            valid_date(start) && four_digit_year(start),
            valid_date(end) && four_digit_year(end),
            ad_input_ok(lines@),
        ensures
            exists|g: Seq<char>| is_stamp(g) &&
                s@ == document_text(
                    header_text(entity_name@, ad_title(*account), range_text(start, end), g),
                    table_text(ad_headers(), ad_table_rows(lines@), ad_aligns()),
                ),
    {
        let rows = self.rows(lines);
        let date_label = range_label(start, end);
        let mut title = String::from_str("Account Detail: ");
        title.append(account.number.as_str());
        title.append(" ");
        title.append(account.name.as_str());
        let headers: [&str; 6] = ["Date", "JE #", "Description", "Debit", "Credit", "Balance"];
        let alignments: [Align; 6] = [Align::Left, Align::Left, Align::Left, Align::Right, Align::Right, Align::Right];
        proof {
            reveal_strlit("Date");
            reveal_strlit("JE #");
            reveal_strlit("Description");
            reveal_strlit("Debit");
            reveal_strlit("Credit");
            reveal_strlit("Balance");
            reveal_strlit("Account Detail: ");
            reveal_strlit(" ");
            assert(title@ =~= ad_title(*account));
            assert(headers_view(headers@) =~= ad_headers());
            assert(alignments@ =~= ad_aligns());
        }
        assemble(entity_name, title.as_str(), date_label.as_str(), &headers, rows.as_slice(), &alignments)
    }
}

} // verus!
