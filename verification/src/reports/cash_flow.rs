//! Cash Flow Statement report (direct method).
//!
//! Cash inflows and outflows over a date range. Cash accounts are the active,
//! non-placeholder accounts whose lower-cased name contains "cash", "bank",
//! "checking" or "savings". Each cash account with lines in the range gets a
//! section of its lines: a line with a positive debit is an inflow of that
//! debit, any other line an outflow of its credit. The statement ends with
//! total inflow, total outflow and the net cash change (inflow less outflow).

use vstd::prelude::*;
use crate::reports::is_stamp;
use crate::accounts::Account;
use crate::date::{Date, valid_date, four_digit_year, iso_text};
use crate::ledger::LedgerRow;
use crate::money::{Money, money_text};
use crate::reports::{Align, header_text, table_text, headers_view, rows_view};
use crate::reports::builders::{
    short_text, prefixable, rows_short, lemma_rows_short_concat, document_text, money_cell, blank, copy_text,
    literal, assemble, lemma_money_short, range_label, range_text, opt_text, copy_opt_text,
};
use crate::reports::sections::append_rows;

verus! {

/// The Cash Flow Statement report.
pub struct CashFlow;

/// What std's `str::to_lowercase` returns for a text.
pub uninterp spec fn lowercase_of(s: Seq<char>) -> Seq<char>;

/// Lower-cases a text with std's `str::to_lowercase` (Unicode lower case,
/// independent of locale). Claimed: the result is `lowercase_of` of the text.
#[verifier::external_body]
fn to_lowercase(s: &str) -> (r: String)
    ensures
        r@ == lowercase_of(s@),
{
    s.to_lowercase()
}

/// `needle` occurs in `hay` at position `i`.
pub open spec fn occurs_at(hay: Seq<char>, needle: Seq<char>, i: int) -> bool {
    0 <= i && i + needle.len() <= hay.len() && hay.subrange(i, i + needle.len()) == needle
}

/// `needle` occurs somewhere in `hay`.
pub open spec fn contains_text(hay: Seq<char>, needle: Seq<char>) -> bool {
    exists|i: int| occurs_at(hay, needle, i)
}

/// A lower-cased account name that marks a cash or bank account.
pub open spec fn cash_word(lower: Seq<char>) -> bool {
    contains_text(lower, "cash"@) || contains_text(lower, "bank"@) || contains_text(lower, "checking"@)
        || contains_text(lower, "savings"@)
}

/// Whether `needle` occurs in `hay`.
fn find_text(hay: &str, needle: &str) -> (b: bool)
    ensures
        b == contains_text(hay@, needle@),
{
    let n = hay.unicode_len();
    let m = needle.unicode_len();
    if m > n {
        assert forall|i: int| !occurs_at(hay@, needle@, i) by {}
        return false;
    }
    let mut i: usize = 0;
    while i <= n - m
        invariant
            n == hay@.len(),
            m == needle@.len(),
            m <= n,
            i <= n - m + 1,
            forall|j: int| 0 <= j < i ==> !#[trigger] occurs_at(hay@, needle@, j),
        decreases n - i,
    {
        let mut k: usize = 0;
        let mut same = true;
        while k < m
            invariant
                n == hay@.len(),
                m == needle@.len(),
                i + m <= n,
                k <= m,
                same == (forall|t: int| 0 <= t < k ==> hay@[i + t] == needle@[t]),
            decreases m - k,
        {
            if hay.get_char(i + k) != needle.get_char(k) {
                same = false;
            }
            k = k + 1;
        }
        if same {
            assert(hay@.subrange(i as int, i + m) =~= needle@);
            assert(occurs_at(hay@, needle@, i as int));
            return true;
        }
        assert(!occurs_at(hay@, needle@, i as int)) by {
            if occurs_at(hay@, needle@, i as int) {
                assert forall|t: int| 0 <= t < m implies hay@[i + t] == needle@[t] by {
                    assert(hay@.subrange(i as int, i + m)[t] == hay@[i + t]);
                }
            }
        }
        i = i + 1;
    }
    assert forall|j: int| !occurs_at(hay@, needle@, j) by {
        if 0 <= j && j >= i {
            assert(j + m > n);
        }
    }
    false
}

/// Whether a lower-cased account name marks a cash or bank account.
pub fn mentions_cash_word(lower: &str) -> (b: bool)
    ensures
        b == cash_word(lower@),
{
    find_text(lower, "cash") || find_text(lower, "bank") || find_text(lower, "checking") || find_text(lower, "savings")
}

/// Whether an account name looks like a cash or bank account: its lower-cased
/// form contains "cash", "bank", "checking" or "savings".
pub fn is_cash_account_name(name: &str) -> (b: bool)
    ensures
        b == cash_word(lowercase_of(name@)),
{
    let lower = to_lowercase(name);
    mentions_cash_word(lower.as_str())
}

/// The accounts whose lines the statement shows.
pub open spec fn cf_selected(a: Account) -> bool {
    !a.is_placeholder && a.is_active && cash_word(lowercase_of(a.name@))
}

/// The statement shows exactly the active, non-placeholder accounts whose
/// lower-cased name contains "cash", "bank", "checking" or "savings", each of
/// those words on its own being enough.
pub proof fn lemma_cash_accounts_by_name(a: Account)
    ensures
        cf_selected(a) <==> (!a.is_placeholder && a.is_active && (
            contains_text(lowercase_of(a.name@), "cash"@)
            || contains_text(lowercase_of(a.name@), "bank"@)
            || contains_text(lowercase_of(a.name@), "checking"@)
            || contains_text(lowercase_of(a.name@), "savings"@)
        )),
{
}

/// Whether the statement shows the lines of an account.
pub fn is_cash_account(a: &Account) -> (b: bool)
    ensures
        b == cf_selected(*a),
{
    !a.is_placeholder && a.is_active && is_cash_account_name(a.name.as_str())
}

/// The row of one line of a cash account.
pub open spec fn cf_line(l: LedgerRow) -> Seq<Seq<char>> {
    let e = Seq::<char>::empty();
    if l.debit.0 > 0 {
        seq![iso_text(l.entry_date), l.je_number@, opt_text(l.memo), money_text(l.debit.0 as int), e]
    } else {
        seq![iso_text(l.entry_date), l.je_number@, opt_text(l.memo), e, money_text(l.credit.0 as int)]
    }
}

/// Inflow of the first `j` lines.
pub open spec fn lines_inflow(ls: Seq<LedgerRow>, j: int) -> int
    decreases j,
{
    if j <= 0 { 0 } else { lines_inflow(ls, j - 1) + if ls[j - 1].debit.0 > 0 { ls[j - 1].debit.0 as int } else { 0 } }
}

/// Outflow of the first `j` lines.
pub open spec fn lines_outflow(ls: Seq<LedgerRow>, j: int) -> int
    decreases j,
{
    if j <= 0 { 0 } else { lines_outflow(ls, j - 1) + if ls[j - 1].debit.0 > 0 { 0 } else { ls[j - 1].credit.0 as int } }
}

/// The section of an account: heading, its lines, blank row; nothing when the
/// account is not a cash account or has no lines.
pub open spec fn cf_block(a: Account, ls: Seq<LedgerRow>) -> Seq<Seq<Seq<char>>> {
    let e = Seq::<char>::empty();
    if cf_selected(a) && ls.len() > 0 {
        seq![seq!["── "@ + a.name@ + " ──"@, e, e, e, e]] + Seq::new(ls.len(), |j: int| cf_line(ls[j])) + seq![
            seq![e, e, e, e, e],
        ]
    } else {
        Seq::empty()
    }
}

/// Sections of the first `k` accounts.
pub open spec fn cf_rows(accts: Seq<Account>, lines: Seq<Vec<LedgerRow>>, k: int) -> Seq<Seq<Seq<char>>>
    decreases k,
{
    if k <= 0 { Seq::empty() } else { cf_rows(accts, lines, k - 1) + cf_block(accts[k - 1], lines[k - 1]@) }
}

/// Total inflow of the cash accounts among the first `k`.
pub open spec fn cf_inflow(accts: Seq<Account>, lines: Seq<Vec<LedgerRow>>, k: int) -> int
    decreases k,
{
    if k <= 0 {
        0
    } else {
        cf_inflow(accts, lines, k - 1) + if cf_selected(accts[k - 1]) {
            lines_inflow(lines[k - 1]@, lines[k - 1]@.len() as int)
        } else {
            0
        }
    }
}

/// Total outflow of the cash accounts among the first `k`.
pub open spec fn cf_outflow(accts: Seq<Account>, lines: Seq<Vec<LedgerRow>>, k: int) -> int
    decreases k,
{
    if k <= 0 {
        0
    } else {
        cf_outflow(accts, lines, k - 1) + if cf_selected(accts[k - 1]) {
            lines_outflow(lines[k - 1]@, lines[k - 1]@.len() as int)
        } else {
            0
        }
    }
}

/// All table rows.
pub open spec fn cf_table_rows(accts: Seq<Account>, lines: Seq<Vec<LedgerRow>>) -> Seq<Seq<Seq<char>>> {
    let e = Seq::<char>::empty();
    let n = accts.len() as int;
    let inflow = cf_inflow(accts, lines, n);
    let outflow = cf_outflow(accts, lines, n);
    cf_rows(accts, lines, n) + seq![
        seq![e, e, "TOTAL INFLOW"@, money_text(inflow), e],
        seq![e, e, "TOTAL OUTFLOW"@, e, money_text(outflow)],
        seq![e, e, "NET CASH CHANGE"@, money_text(inflow - outflow), e],
    ]
}

/// Column labels.
pub open spec fn cf_headers() -> Seq<Seq<char>> {
    seq!["Date"@, "JE #"@, "Description"@, "Inflow"@, "Outflow"@]
}

/// Column alignments.
pub open spec fn cf_aligns() -> Seq<Align> {
    seq![Align::Left, Align::Left, Align::Left, Align::Right, Align::Right]
}

/// The lines of one account can be listed with running totals starting at
/// `inflow0` and `outflow0` without overflow.
pub open spec fn lines_ok(ls: Seq<LedgerRow>, inflow0: int, outflow0: int) -> bool {
    &&& forall|j: int| 0 <= j < ls.len() ==> {
        &&& valid_date(#[trigger] ls[j].entry_date)
        &&& four_digit_year(ls[j].entry_date)
        &&& short_text(ls[j].je_number@)
        &&& short_text(opt_text(ls[j].memo))
    }
    &&& forall|j: int| 0 <= j <= ls.len() ==> i64::MIN <= inflow0 + #[trigger] lines_inflow(ls, j) <= i64::MAX
    &&& forall|j: int| 0 <= j <= ls.len() ==> i64::MIN <= outflow0 + #[trigger] lines_outflow(ls, j) <= i64::MAX
}

/// Inputs the statement accepts: one line list per account, sound lines for
/// every cash account, a net change within `i64`, short cash account names.
pub open spec fn cf_input_ok(accts: Seq<Account>, lines: Seq<Vec<LedgerRow>>) -> bool {
    &&& accts.len() == lines.len()
    &&& forall|k: int| 0 <= k < accts.len() && #[trigger] cf_selected(accts[k]) ==> {
        &&& lines_ok(lines[k]@, cf_inflow(accts, lines, k), cf_outflow(accts, lines, k))
        &&& prefixable(accts[k].name@)
    }
    &&& i64::MIN <= cf_inflow(accts, lines, accts.len() as int) - cf_outflow(accts, lines, accts.len() as int)
        <= i64::MAX
}

/// Net debit change of the first `j` lines.
pub open spec fn lines_net(ls: Seq<LedgerRow>, j: int) -> int
    decreases j,
{
    if j <= 0 { 0 } else { lines_net(ls, j - 1) + ls[j - 1].debit.0 - ls[j - 1].credit.0 }
}

/// A one-sided line: a non-negative debit and no credit, or no debit.
pub open spec fn one_sided(l: LedgerRow) -> bool {
    l.debit.0 >= 0 && (l.debit.0 == 0 || l.credit.0 == 0)
}

/// For one-sided lines, inflow less outflow is the net debit change.
pub proof fn lemma_lines_net(ls: Seq<LedgerRow>, j: int)
    requires
        0 <= j <= ls.len(),
        forall|t: int| 0 <= t < ls.len() ==> one_sided(#[trigger] ls[t]),
    ensures
        lines_inflow(ls, j) - lines_outflow(ls, j) == lines_net(ls, j),
    decreases j,
{
    if j > 0 {
        lemma_lines_net(ls, j - 1);
        assert(one_sided(ls[j - 1]));
    }
}

/// Net debit change of the cash accounts among the first `k`.
pub open spec fn cash_balance_change(accts: Seq<Account>, lines: Seq<Vec<LedgerRow>>, k: int) -> int
    decreases k,
{
    if k <= 0 {
        0
    } else {
        cash_balance_change(accts, lines, k - 1) + if cf_selected(accts[k - 1]) {
            lines_net(lines[k - 1]@, lines[k - 1]@.len() as int)
        } else {
            0
        }
    }
}

/// When every line of a cash account is one-sided (each posted line carries
/// either a debit or a credit), the net cash change shown equals the change in
/// the balance of the cash accounts over the range.
pub proof fn lemma_net_cash_change_matches_balance(accts: Seq<Account>, lines: Seq<Vec<LedgerRow>>, k: int)
    requires
        accts.len() == lines.len(),
        0 <= k <= accts.len(),
        forall|a: int, t: int| 0 <= a < lines.len() && 0 <= t < lines[a]@.len() ==> one_sided(#[trigger] lines[a]@[t]),
    ensures
        cf_inflow(accts, lines, k) - cf_outflow(accts, lines, k) == cash_balance_change(accts, lines, k),
    decreases k,
{
    if k > 0 {
        lemma_net_cash_change_matches_balance(accts, lines, k - 1);
        let ls = lines[k - 1]@;
        assert forall|t: int| 0 <= t < ls.len() implies one_sided(#[trigger] ls[t]) by {
            assert(one_sided(lines[k - 1]@[t]));
        }
        lemma_lines_net(ls, ls.len() as int);
    }
}

/// The rows of the lines of one cash account and the running totals after them.
fn line_rows(ls: &Vec<LedgerRow>, inflow0: Money, outflow0: Money) -> (r: (Vec<Vec<String>>, Money, Money))
    requires
        lines_ok(ls@, inflow0.0 as int, outflow0.0 as int),
    ensures
        rows_view(r.0@) == Seq::new(ls@.len(), |j: int| cf_line(ls@[j])),
        rows_short(rows_view(r.0@)),
        r.1.0 == inflow0.0 + lines_inflow(ls@, ls@.len() as int),
        r.2.0 == outflow0.0 + lines_outflow(ls@, ls@.len() as int),
{
    let mut rows: Vec<Vec<String>> = Vec::new();
    let mut inflow = inflow0;
    let mut outflow = outflow0;
    let mut j: usize = 0;
    while j < ls.len()
        invariant
            lines_ok(ls@, inflow0.0 as int, outflow0.0 as int),
            j <= ls@.len(),
            rows_view(rows@) == Seq::new(j as nat, |t: int| cf_line(ls@[t])),
            rows_short(rows_view(rows@)),
            inflow.0 == inflow0.0 + lines_inflow(ls@, j as int),
            outflow.0 == outflow0.0 + lines_outflow(ls@, j as int),
        decreases ls@.len() - j,
    {
        let line = &ls[j];
        assert(i64::MIN <= inflow0.0 + lines_inflow(ls@, j + 1) <= i64::MAX);
        assert(i64::MIN <= outflow0.0 + lines_outflow(ls@, j + 1) <= i64::MAX);
        let mut row: Vec<String> = Vec::new();
        row.push(line.entry_date.to_iso_string());
        row.push(copy_text(&line.je_number));
        row.push(copy_opt_text(&line.memo));
        if line.debit.0 > 0 {
            inflow = Money(inflow.0 + line.debit.0);
            row.push(money_cell(line.debit));
            row.push(blank());
        } else {
            outflow = Money(outflow.0 + line.credit.0);
            row.push(blank());
            row.push(money_cell(line.credit));
        }
        proof {
            crate::date::lemma_iso_text_short(line.entry_date);
        }
        let ghost before = rows_view(rows@);
        assert(row@.map_values(|c: String| c@) =~= cf_line(ls@[j as int]));
        rows.push(row);
        proof {
            assert(rows_view(rows@) =~= before.push(cf_line(ls@[j as int])));
            assert(rows_view(rows@) =~= Seq::new((j + 1) as nat, |t: int| cf_line(ls@[t])));
            let tail = seq![cf_line(ls@[j as int])];
            assert(rows_short(tail));
            lemma_rows_short_concat(before, tail);
            assert(before + tail =~= before.push(cf_line(ls@[j as int])));
        }
        j = j + 1;
    }
    (rows, inflow, outflow)
}

impl CashFlow {
    /// The report's name, used in file names.
    pub fn name(&self) -> (s: &'static str)
        ensures
            s@ == "CashFlow"@,
    {
        "CashFlow"
    }

    /// The table rows for the accounts in chart order, each with its posted
    /// lines in the range (only the lines of cash accounts are read).
    pub fn rows(&self, accounts: &[Account], lines: &[Vec<LedgerRow>]) -> (rows: Vec<Vec<String>>)
        requires
            cf_input_ok(accounts@, lines@),
        ensures
            rows_view(rows@) == cf_table_rows(accounts@, lines@),
            rows_short(rows_view(rows@)),
    {
        let ghost accts = accounts@;
        let ghost ls = lines@;
        let n = accounts.len();
        let mut rows: Vec<Vec<String>> = Vec::new();
        let mut inflow = Money(0);
        let mut outflow = Money(0);
        let ghost e = Seq::<char>::empty();
        let mut k: usize = 0;
        while k < n
            invariant
                n == accts.len(),
                accts == accounts@,
                ls == lines@,
                cf_input_ok(accts, ls),
                k <= n,
                rows_view(rows@) == cf_rows(accts, ls, k as int),
                rows_short(rows_view(rows@)),
                inflow.0 == cf_inflow(accts, ls, k as int),
                outflow.0 == cf_outflow(accts, ls, k as int),
                e == Seq::<char>::empty(),
            decreases n - k,
        {
            let account = &accounts[k];
            let selected = is_cash_account(account);
            if selected {
                assert(lines_ok(ls[k as int]@, cf_inflow(accts, ls, k as int), cf_outflow(accts, ls, k as int)));
                let (lrows, new_in, new_out) = line_rows(&lines[k], inflow, outflow);
                inflow = new_in;
                outflow = new_out;
                if lines[k].len() > 0 {
                    let ghost before = rows_view(rows@);
                    let mut heading: Vec<String> = Vec::new();
                    let mut h = String::from_str("── ");
                    h.append(account.name.as_str());
                    h.append(" ──");
                    heading.push(h);
                    heading.push(blank());
                    heading.push(blank());
                    heading.push(blank());
                    heading.push(blank());
                    proof {
                        reveal_strlit("── ");
                        reveal_strlit(" ──");
                        assert(prefixable(accts[k as int].name@));
                    }
                    let ghost head = seq!["── "@ + accts[k as int].name@ + " ──"@, e, e, e, e];
                    assert(heading@.map_values(|c: String| c@) =~= head);
                    rows.push(heading);
                    let ghost lv = rows_view(lrows@);
                    append_rows(&mut rows, lrows);
                    let mut spacer: Vec<String> = Vec::new();
                    spacer.push(blank());
                    spacer.push(blank());
                    spacer.push(blank());
                    spacer.push(blank());
                    spacer.push(blank());
                    assert(spacer@.map_values(|c: String| c@) =~= seq![e, e, e, e, e]);
                    let ghost mid = rows_view(rows@);
                    rows.push(spacer);
                    proof {
                        let block = cf_block(accts[k as int], ls[k as int]@);
                        assert(block =~= seq![head] + lv + seq![seq![e, e, e, e, e]]);
                        assert(mid =~= before.push(head) + lv);
                        assert(rows_view(rows@) =~= mid.push(seq![e, e, e, e, e]));
                        assert(rows_view(rows@) =~= before + block);
                        assert(rows_short(seq![head]));
                        assert(rows_short(seq![seq![e, e, e, e, e]]));
                        lemma_rows_short_concat(seq![head], lv);
                        lemma_rows_short_concat(seq![head] + lv, seq![seq![e, e, e, e, e]]);
                        lemma_rows_short_concat(before, block);
                    }
                } else {
                    assert(cf_block(accts[k as int], ls[k as int]@) =~= Seq::<Seq<Seq<char>>>::empty());
                    assert(rows_view(rows@) =~= cf_rows(accts, ls, k + 1));
                }
            } else {
                assert(cf_block(accts[k as int], ls[k as int]@) =~= Seq::<Seq<Seq<char>>>::empty());
                assert(rows_view(rows@) =~= cf_rows(accts, ls, k + 1));
            }
            k = k + 1;
        }
        let net = Money(inflow.0 - outflow.0);
        let mut r1: Vec<String> = Vec::new();
        r1.push(blank());
        r1.push(blank());
        r1.push(literal("TOTAL INFLOW"));
        r1.push(money_cell(inflow));
        r1.push(blank());
        let mut r2: Vec<String> = Vec::new();
        r2.push(blank());
        r2.push(blank());
        r2.push(literal("TOTAL OUTFLOW"));
        r2.push(blank());
        r2.push(money_cell(outflow));
        let mut r3: Vec<String> = Vec::new();
        r3.push(blank());
        r3.push(blank());
        r3.push(literal("NET CASH CHANGE"));
        r3.push(money_cell(net));
        r3.push(blank());
        proof {
            reveal_strlit("TOTAL INFLOW");
            reveal_strlit("TOTAL OUTFLOW");
            reveal_strlit("NET CASH CHANGE");
            lemma_money_short(inflow.0);
            lemma_money_short(outflow.0);
            lemma_money_short(net.0);
        }
        let ghost body = rows_view(rows@);
        let ghost tail = seq![
            seq![e, e, "TOTAL INFLOW"@, money_text(inflow.0 as int), e],
            seq![e, e, "TOTAL OUTFLOW"@, e, money_text(outflow.0 as int)],
            seq![e, e, "NET CASH CHANGE"@, money_text(net.0 as int), e],
        ];
        assert(r1@.map_values(|c: String| c@) =~= tail[0]);
        assert(r2@.map_values(|c: String| c@) =~= tail[1]);
        assert(r3@.map_values(|c: String| c@) =~= tail[2]);
        rows.push(r1);
        rows.push(r2);
        rows.push(r3);
        proof {
            assert(rows_view(rows@) =~= body + tail);
            assert(rows_view(rows@) =~= cf_table_rows(accts, ls));
            assert(rows_short(tail));
            lemma_rows_short_concat(body, tail);
        }
        rows
    }

    /// The full report document for the range `start` to `end`.
    pub fn generate(&self, entity_name: &str, start: Date, end: Date, accounts: &[Account], lines: &[Vec<LedgerRow>]) -> (s: String)
        requires
            short_text(entity_name@),
            valid_date(start) && four_digit_year(start),
            valid_date(end) && four_digit_year(end),
            cf_input_ok(accounts@, lines@),
        ensures
            exists|g: Seq<char>| is_stamp(g) &&
                s@ == document_text(
                    header_text(entity_name@, "Cash Flow Statement"@, range_text(start, end), g),
                    table_text(cf_headers(), cf_table_rows(accounts@, lines@), cf_aligns()),
                ),
    {
        let rows = self.rows(accounts, lines);
        let date_label = range_label(start, end);
        let headers: [&str; 5] = ["Date", "JE #", "Description", "Inflow", "Outflow"];
        let alignments: [Align; 5] = [Align::Left, Align::Left, Align::Left, Align::Right, Align::Right];
        proof {
            reveal_strlit("Date");
            reveal_strlit("JE #");
            reveal_strlit("Description");
            reveal_strlit("Inflow");
            reveal_strlit("Outflow");
            reveal_strlit("Cash Flow Statement");
            assert(headers_view(headers@) =~= cf_headers());
            assert(alignments@ =~= cf_aligns());
        }
        assemble(entity_name, "Cash Flow Statement", date_label.as_str(), &headers, rows.as_slice(), &alignments)
    }
}

} // verus!
