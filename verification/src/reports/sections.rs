//! Account-type sections shared by the Balance Sheet and the Income Statement.
//!
//! A section lists the active, non-placeholder accounts of one account type:
//! a heading row, one row per account whose displayed amount is not zero, a
//! subtotal row over all listed accounts, and a blank spacer row.

use vstd::prelude::*;
use crate::accounts::Account;
use crate::money::{Money, money_text};
use crate::reports::rows_view;
use crate::reports::builders::{short_text, prefixable, rows_short, money_cell, blank, prefixed, lemma_money_short};
use crate::types::{AccountType, account_type_name};

verus! {

/// An account appears in the section of type `t`.
pub open spec fn section_listed(a: Account, t: AccountType) -> bool {
    a.account_type == t && !a.is_placeholder && a.is_active
}

/// The row of a listed account with displayed amount `amt`.
pub open spec fn section_line(a: Account, amt: int) -> Seq<Seq<char>> {
    seq!["  "@ + a.name@, money_text(amt)]
}

/// Account rows of the section of type `t` among the first `k` accounts.
pub open spec fn section_lines(accts: Seq<Account>, amts: Seq<Money>, t: AccountType, k: int) -> Seq<Seq<Seq<char>>>
    decreases k,
{
    if k <= 0 {
        Seq::empty()
    } else {
        let prev = section_lines(accts, amts, t, k - 1);
        if section_listed(accts[k - 1], t) && amts[k - 1].0 != 0 {
            prev.push(section_line(accts[k - 1], amts[k - 1].0 as int))
        } else {
            prev
        }
    }
}

/// Subtotal of the displayed amounts of the listed accounts among the first `k`.
pub open spec fn section_total(accts: Seq<Account>, amts: Seq<Money>, t: AccountType, k: int) -> int
    decreases k,
{
    if k <= 0 {
        0
    } else {
        section_total(accts, amts, t, k - 1) + if section_listed(accts[k - 1], t) { amts[k - 1].0 as int } else { 0 }
    }
}

/// The heading text of a section.
pub open spec fn section_heading(t: AccountType) -> Seq<char> {
    "── "@ + account_type_name(t) + " ──"@
}

/// All rows of the section of type `t`.
pub open spec fn section_block(accts: Seq<Account>, amts: Seq<Money>, t: AccountType) -> Seq<Seq<Seq<char>>> {
    let e = Seq::<char>::empty();
    let n = accts.len() as int;
    seq![seq![section_heading(t), e]] + section_lines(accts, amts, t, n) + seq![
        seq!["Total "@ + account_type_name(t), money_text(section_total(accts, amts, t, n))],
        seq![e, e],
    ]
}

/// The section can be built: one amount per account, subtotals within `i64`,
/// short account names.
pub open spec fn section_ok(accts: Seq<Account>, amts: Seq<Money>, t: AccountType) -> bool {
    &&& accts.len() == amts.len()
    &&& forall|k: int| 0 <= k <= accts.len() ==> i64::MIN <= #[trigger] section_total(accts, amts, t, k) <= i64::MAX
    &&& forall|i: int| 0 <= i < accts.len() ==> prefixable(#[trigger] accts[i].name@)
}

/// Builds the rows of one section and its subtotal.
pub fn section_rows(accounts: &[Account], amounts: &[Money], t: AccountType) -> (r: (Vec<Vec<String>>, Money))
    requires
        section_ok(accounts@, amounts@, t),
    ensures
        rows_view(r.0@) == section_block(accounts@, amounts@, t),
        rows_short(rows_view(r.0@)),
        r.1.0 == section_total(accounts@, amounts@, t, accounts@.len() as int),
{
    let ghost accts = accounts@;
    let ghost amts = amounts@;
    let n = accounts.len();
    let mut rows: Vec<Vec<String>> = Vec::new();
    let mut heading: Vec<String> = Vec::new();
    let mut h = String::from_str("── ");
    h.append(t.as_str());
    h.append(" ──");
    heading.push(h);
    heading.push(blank());
    proof {
        reveal_strlit("── ");
        reveal_strlit(" ──");
        reveal_strlit("  ");
        reveal_strlit("Total ");
        reveal_strlit("Asset");
        reveal_strlit("Liability");
        reveal_strlit("Equity");
        reveal_strlit("Revenue");
        reveal_strlit("Expense");
    }
    let ghost e = Seq::<char>::empty();
    assert(heading@.map_values(|c: String| c@) =~= seq![section_heading(t), e]);
    rows.push(heading);
    let ghost head = rows_view(rows@);
    assert(head =~= seq![seq![section_heading(t), e]]);
    let mut total = Money(0);
    let mut i: usize = 0;
    while i < n
        invariant
            n == accts.len(),
            accts == accounts@,
            amts == amounts@,
            section_ok(accts, amts, t),
            i <= n,
            head == seq![seq![section_heading(t), Seq::<char>::empty()]],
            rows_view(rows@) == head + section_lines(accts, amts, t, i as int),
            total.0 == section_total(accts, amts, t, i as int),
            forall|r: int, c: int| 0 <= r < rows@.len() && 0 <= c < rows_view(rows@)[r].len() ==> #[trigger] short_text(rows_view(rows@)[r][c]),
        decreases n - i,
    {
        let account = &accounts[i];
        if account.account_type == t && !account.is_placeholder && account.is_active {
            let amount = amounts[i];
            assert(i64::MIN <= section_total(accts, amts, t, i + 1) <= i64::MAX);
            total = Money(total.0 + amount.0);
            if amount.0 != 0 {
                let mut row: Vec<String> = Vec::new();
                row.push(prefixed("  ", account.name.as_str()));
                row.push(money_cell(amount));
                assert(prefixable(accts[i as int].name@));
                assert(row@.map_values(|c: String| c@) =~= section_line(accts[i as int], amount.0 as int));
                let ghost before = rows_view(rows@);
                rows.push(row);
                assert(rows_view(rows@) =~= before.push(section_line(accts[i as int], amount.0 as int)));
                assert(rows_view(rows@) =~= head + section_lines(accts, amts, t, i + 1));
                proof {
                    reveal_strlit("  ");
                    lemma_money_short(amount.0);
                    let rv = rows_view(rows@);
                    assert forall|r: int, c: int| 0 <= r < rows@.len() && 0 <= c < rv[r].len() implies #[trigger] short_text(rv[r][c]) by {
                        if r < before.len() {
                            assert(rv[r] == before[r]);
                        }
                    }
                }
            } else {
                assert(section_lines(accts, amts, t, i + 1) == section_lines(accts, amts, t, i as int));
            }
        } else {
            assert(section_lines(accts, amts, t, i + 1) == section_lines(accts, amts, t, i as int));
        }
        i = i + 1;
    }
    let ghost body = rows_view(rows@);
    let mut total_row: Vec<String> = Vec::new();
    total_row.push(prefixed("Total ", t.as_str()));
    total_row.push(money_cell(total));
    let mut spacer: Vec<String> = Vec::new();
    spacer.push(blank());
    spacer.push(blank());
    assert(total_row@.map_values(|c: String| c@) =~= seq!["Total "@ + account_type_name(t), money_text(total.0 as int)]);
    assert(spacer@.map_values(|c: String| c@) =~= seq![e, e]);
    rows.push(total_row);
    rows.push(spacer);
    proof {
        assert(rows_view(rows@) =~= section_block(accts, amts, t));
        lemma_money_short(total.0);
        let rv = rows_view(rows@);
        assert forall|r: int, c: int| 0 <= r < rv.len() && 0 <= c < rv[r].len() implies #[trigger] short_text(rv[r][c]) by {
            if r < body.len() {
                assert(rv[r] == body[r]);
            }
        }
    }
    (rows, total)
}

/// Appends the rows of `more` to `rows`.
pub fn append_rows(rows: &mut Vec<Vec<String>>, more: Vec<Vec<String>>)
    ensures
        rows_view(final(rows)@) == rows_view(old(rows)@) + rows_view(more@),
{
    let mut more = more;
    let ghost start = rows_view(rows@);
    let ghost mv = rows_view(more@);
    let mut moved: Vec<Vec<String>> = Vec::new();
    // Reverse `more` so rows can be popped off in order.
    while more.len() > 0
        invariant
            rows_view(more@) + rows_view(moved@).reverse() == mv,
        decreases more.len(),
    {
        let ghost before_more = more@;
        let row = more.pop().unwrap();
        assert(before_more == more@.push(row));
        let ghost before_moved = moved@;
        moved.push(row);
        assert(rows_view(before_more) =~= rows_view(more@).push(row@.map_values(|c: String| c@)));
        assert(rows_view(moved@) =~= rows_view(before_moved).push(row@.map_values(|c: String| c@)));
        assert(rows_view(moved@).reverse() =~= seq![row@.map_values(|c: String| c@)] + rows_view(before_moved).reverse());
        assert(rows_view(more@) + rows_view(moved@).reverse() =~= rows_view(before_more) + rows_view(before_moved).reverse());
    }
    assert(rows_view(more@) =~= Seq::<Seq<Seq<char>>>::empty());
    assert(rows_view(moved@).reverse() =~= mv);
    while moved.len() > 0
        invariant
            rows_view(rows@) + rows_view(moved@).reverse() == start + mv,
        decreases moved.len(),
    {
        let ghost before_moved = moved@;
        let ghost before_rows = rows@;
        let row = moved.pop().unwrap();
        assert(before_moved == moved@.push(row));
        rows.push(row);
        assert(rows_view(before_moved) =~= rows_view(moved@).push(row@.map_values(|c: String| c@)));
        assert(rows_view(before_moved).reverse() =~= seq![row@.map_values(|c: String| c@)] + rows_view(moved@).reverse());
        assert(rows_view(rows@) =~= rows_view(before_rows).push(row@.map_values(|c: String| c@)));
        assert(rows_view(rows@) + rows_view(moved@).reverse() =~= rows_view(before_rows) + rows_view(before_moved).reverse());
    }
    assert(rows_view(moved@).reverse() =~= Seq::<Seq<Seq<char>>>::empty());
    assert(rows_view(rows@) =~= start + mv);
}

} // verus!
