//! Envelope Budget Summary report.
//!
//! Every account with an envelope allocation, in account-number order: its
//! allocation percentage, the amount earmarked for it over the date range, its
//! general-ledger balance change over the range, and the amount available
//! (earmarked less GL balance). A totals row follows, then the unallocated
//! share: 100% less the sum of the allocation percentages.

use vstd::prelude::*;
use crate::reports::is_stamp;
use vstd::relations::sorted_by;
use crate::accounts::Account;
use crate::date::{Date, valid_date, four_digit_year};
use crate::envelopes::{EnvelopeAllocation, Percentage, FULL_PERCENTAGE, format_percentage, percentage_text, unallocated_percentage};
use crate::money::{Money, money_text};
use crate::reports::{Align, header_text, table_text, headers_view, rows_view};
use crate::reports::builders::{
    short_text, rows_short, lemma_rows_short_concat, document_text, money_cell, blank, copy_text, literal,
    assemble, lemma_money_short, range_label, range_text,
};

verus! {

/// The Envelope Budget Summary report.
pub struct EnvelopeBudgetSummary;

/// Lexicographic order of texts by character code, as Rust orders `String`s.
pub open spec fn text_le(a: Seq<char>, b: Seq<char>) -> bool
    decreases a.len(),
{
    if a.len() == 0 {
        true
    } else if b.len() == 0 {
        false
    } else if a[0] != b[0] {
        (a[0] as int) < (b[0] as int)
    } else {
        text_le(a.drop_first(), b.drop_first())
    }
}

/// The order of texts is total.
pub proof fn lemma_text_le_total(a: Seq<char>, b: Seq<char>)
    ensures
        text_le(a, b) || text_le(b, a),
    decreases a.len(),
{
    if a.len() > 0 && b.len() > 0 {
        if a[0] == b[0] {
            lemma_text_le_total(a.drop_first(), b.drop_first());
        } else {
            assert((a[0] as int) != (b[0] as int));
        }
    }
}

/// Every text orders with itself.
pub proof fn lemma_text_le_reflexive(a: Seq<char>)
    ensures
        text_le(a, a),
    decreases a.len(),
{
    if a.len() > 0 {
        lemma_text_le_reflexive(a.drop_first());
    }
}

/// The order of texts is transitive.
pub proof fn lemma_text_le_transitive(a: Seq<char>, b: Seq<char>, c: Seq<char>)
    requires
        text_le(a, b),
        text_le(b, c),
    ensures
        text_le(a, c),
    decreases a.len(),
{
    if a.len() > 0 && b.len() > 0 && c.len() > 0 && a[0] == b[0] && b[0] == c[0] {
        lemma_text_le_transitive(a.drop_first(), b.drop_first(), c.drop_first());
    }
}

/// Whether text `a` orders before or with text `b`.
pub fn text_le_exec(a: &str, b: &str) -> (r: bool)
    ensures
        r == text_le(a@, b@),
{
    let n = a.unicode_len();
    let m = b.unicode_len();
    let mut i: usize = 0;
    assert(a@.skip(0) =~= a@);
    assert(b@.skip(0) =~= b@);
    while i < n && i < m
        invariant
            n == a@.len(),
            m == b@.len(),
            i <= n,
            i <= m,
            text_le(a@, b@) == text_le(a@.skip(i as int), b@.skip(i as int)),
        decreases n - i,
    {
        let ca = a.get_char(i);
        let cb = b.get_char(i);
        assert(a@.skip(i as int)[0] == ca);
        assert(b@.skip(i as int)[0] == cb);
        if ca != cb {
            return ca < cb;
        }
        assert(a@.skip(i as int).drop_first() =~= a@.skip(i + 1));
        assert(b@.skip(i as int).drop_first() =~= b@.skip(i + 1));
        i = i + 1;
    }
    assert(a@.skip(i as int).len() == n - i);
    i == n
}

/// The index of the last account with id `id` among the first `k`.
pub open spec fn last_account_with(accts: Seq<Account>, id: crate::types::AccountId, k: int) -> Option<int>
    decreases k,
{
    if k <= 0 {
        None
    } else if accts[k - 1].id == id {
        Some(k - 1)
    } else {
        last_account_with(accts, id, k - 1)
    }
}

/// The allocations among the first `k` that have an account, each paired with
/// the index of its account, in allocation order.
pub open spec fn joined(allocs: Seq<EnvelopeAllocation>, accts: Seq<Account>, k: int) -> Seq<(usize, usize)>
    decreases k,
{
    if k <= 0 {
        Seq::empty()
    } else {
        match last_account_with(accts, allocs[k - 1].account_id, accts.len() as int) {
            Some(j) => joined(allocs, accts, k - 1).push(((k - 1) as usize, j as usize)),
            None => joined(allocs, accts, k - 1),
        }
    }
}

/// Pairs ordered by the number of their account.
pub open spec fn by_number(accts: Seq<Account>) -> spec_fn((usize, usize), (usize, usize)) -> bool {
    |p: (usize, usize), q: (usize, usize)| text_le(accts[p.1 as int].number@, accts[q.1 as int].number@)
}

/// The rows the report shows, in order: each allocation that has an account
/// exactly once, paired with that account, sorted by account number; rows
/// with the same account number keep the order of their allocations.
pub open spec fn budget_ordered(allocs: Seq<EnvelopeAllocation>, accts: Seq<Account>, order: Seq<(usize, usize)>) -> bool {
    &&& order.to_multiset() == joined(allocs, accts, allocs.len() as int).to_multiset()
    &&& sorted_by(order, by_number(accts))
    &&& forall|i: int, j: int|
        #![trigger order[i], order[j]]
        0 <= i < j < order.len() && accts[order[i].1 as int].number@ == accts[order[j].1 as int].number@
            ==> order[i].0 < order[j].0
}

proof fn lemma_last_account_bound(accts: Seq<Account>, id: crate::types::AccountId, k: int)
    requires
        k <= accts.len(),
    ensures
        last_account_with(accts, id, k) matches Some(j) ==> 0 <= j < k && accts[j].id == id,
    decreases k,
{
    if k > 0 {
        lemma_last_account_bound(accts, id, k - 1);
    }
}

/// The index of the last account with id `id`.
fn find_account(accounts: &[Account], id: crate::types::AccountId) -> (r: Option<usize>)
    ensures
        r == (match last_account_with(accounts@, id, accounts@.len() as int) {
            Some(j) => Some(j as usize),
            None => None::<usize>,
        }),
{
    let mut found: Option<usize> = None;
    let mut j: usize = 0;
    while j < accounts.len()
        invariant
            j <= accounts@.len(),
            found == (match last_account_with(accounts@, id, j as int) {
                Some(t) => Some(t as usize),
                None => None::<usize>,
            }),
        decreases accounts@.len() - j,
    {
        if accounts[j].id == id {
            found = Some(j);
        }
        j = j + 1;
    }
    found
}

/// The allocations that have an account, each with the index of its account,
/// ordered by account number (stable for equal numbers).
pub fn budget_order(allocations: &[EnvelopeAllocation], accounts: &[Account]) -> (r: Vec<(usize, usize)>)
    ensures
        budget_ordered(allocations@, accounts@, r@),
        forall|i: int| 0 <= i < r@.len() ==> (#[trigger] r@[i]).0 < allocations@.len() && r@[i].1 < accounts@.len(),
{
    let ghost accts = accounts@;
    let ghost allocs = allocations@;
    let mut r: Vec<(usize, usize)> = Vec::new();
    let mut k: usize = 0;
    while k < allocations.len()
        invariant
            accts == accounts@,
            allocs == allocations@,
            k <= allocs.len(),
            r@.to_multiset() == joined(allocs, accts, k as int).to_multiset(),
            sorted_by(r@, by_number(accts)),
            forall|i: int| 0 <= i < r@.len() ==> (#[trigger] r@[i]).0 < k && r@[i].1 < accts.len(),
            forall|i: int, j: int|
                #![trigger r@[i], r@[j]]
                0 <= i < j < r@.len() && accts[r@[i].1 as int].number@ == accts[r@[j].1 as int].number@
                    ==> r@[i].0 < r@[j].0,
        decreases allocs.len() - k,
    {
        proof {
            lemma_last_account_bound(accts, allocs[k as int].account_id, accts.len() as int);
        }
        match find_account(accounts, allocations[k].account_id) {
            Some(c) => {
                let key = accounts[c].number.as_str();
                let mut p: usize = 0;
                while p < r.len() && text_le_exec(accounts[r[p].1].number.as_str(), key)
                    invariant
                        accts == accounts@,
                        p <= r@.len(),
                        c < accts.len(),
                        key@ == accts[c as int].number@,
                        forall|i: int| 0 <= i < r@.len() ==> (#[trigger] r@[i]).1 < accts.len(),
                        forall|i: int| 0 <= i < p ==> text_le(accts[(#[trigger] r@[i]).1 as int].number@, key@),
                    decreases r@.len() - p,
                {
                    p = p + 1;
                }
                let ghost old_r = r@;
                let x: (usize, usize) = (k, c);
                r.insert(p, x);
                proof {
                    vstd::seq_lib::to_multiset_insert(old_r, p as int, x);
                    vstd::seq_lib::to_multiset_build(joined(allocs, accts, k as int), x);
                    assert(joined(allocs, accts, k + 1) == joined(allocs, accts, k as int).push(x));
                    let le = by_number(accts);
                    assert forall|i: int, j: int| 0 <= i < j < r@.len() implies le(r@[i], r@[j]) by {
                        let ki = accts[r@[i].1 as int].number@;
                        let kj = accts[r@[j].1 as int].number@;
                        if j < p {
                            assert(r@[i] == old_r[i] && r@[j] == old_r[j]);
                        } else if j == p {
                            assert(r@[i] == old_r[i]);
                        } else if i == p {
                            assert(r@[j] == old_r[j - 1]);
                            if p < old_r.len() {
                                let kp = accts[old_r[p as int].1 as int].number@;
                                assert(!text_le(kp, key@));
                                lemma_text_le_total(kp, key@);
                                if j - 1 > p {
                                    assert(le(old_r[p as int], old_r[j - 1]));
                                    lemma_text_le_transitive(key@, kp, kj);
                                }
                            }
                        } else if i < p {
                            assert(r@[i] == old_r[i] && r@[j] == old_r[j - 1]);
                            assert(le(old_r[i], old_r[j - 1]));
                        } else {
                            assert(r@[i] == old_r[i - 1] && r@[j] == old_r[j - 1]);
                            assert(le(old_r[i - 1], old_r[j - 1]));
                        }
                    }
                    assert forall|i: int, j: int|
                        #![trigger r@[i], r@[j]]
                        0 <= i < j < r@.len() && accts[r@[i].1 as int].number@ == accts[r@[j].1 as int].number@
                        implies r@[i].0 < r@[j].0 by {
                        if j < p {
                            assert(r@[i] == old_r[i] && r@[j] == old_r[j]);
                        } else if j == p {
                            assert(r@[i] == old_r[i]);
                        } else if i == p {
                            assert(r@[j] == old_r[j - 1]);
                            let kp = accts[old_r[p as int].1 as int].number@;
                            let kj = accts[old_r[j - 1].1 as int].number@;
                            assert(!text_le(kp, key@));
                            assert(kj == key@);
                            if j - 1 > p {
                                assert(le(old_r[p as int], old_r[j - 1]));
                            } else {
                                lemma_text_le_reflexive(key@);
                            }
                        } else if i < p {
                            assert(r@[i] == old_r[i] && r@[j] == old_r[j - 1]);
                        } else {
                            assert(r@[i] == old_r[i - 1] && r@[j] == old_r[j - 1]);
                        }
                    }
                }
            },
            None => {
                assert(joined(allocs, accts, k + 1) == joined(allocs, accts, k as int));
            },
        }
        k = k + 1;
    }
    r
}

/// Sum of the percentages of the first `k` allocations that have an account.
pub open spec fn joined_pct(allocs: Seq<EnvelopeAllocation>, accts: Seq<Account>, k: int) -> int
    decreases k,
{
    if k <= 0 {
        0
    } else {
        joined_pct(allocs, accts, k - 1) + match last_account_with(accts, allocs[k - 1].account_id, accts.len() as int) {
            Some(_) => allocs[k - 1].percentage.0 as int,
            None => 0,
        }
    }
}

/// The row of entry `i` of the order.
pub open spec fn eb_line(
    allocs: Seq<EnvelopeAllocation>,
    accts: Seq<Account>,
    order: Seq<(usize, usize)>,
    ear: Seq<Money>,
    gl: Seq<Money>,
    i: int,
) -> Seq<Seq<char>> {
    let a = allocs[order[i].0 as int];
    let c = accts[order[i].1 as int];
    seq![
        c.number@,
        c.name@,
        percentage_text(a.percentage.0 as int),
        money_text(ear[i].0 as int),
        money_text(gl[i].0 as int),
        money_text(ear[i].0 - gl[i].0),
    ]
}

/// Sum of the first `k` earmarked amounts.
pub open spec fn money_sum(ms: Seq<Money>, k: int) -> int
    decreases k,
{
    if k <= 0 { 0 } else { money_sum(ms, k - 1) + ms[k - 1].0 }
}

/// Sum of the first `k` available amounts.
pub open spec fn available_sum(ear: Seq<Money>, gl: Seq<Money>, k: int) -> int
    decreases k,
{
    if k <= 0 { 0 } else { available_sum(ear, gl, k - 1) + (ear[k - 1].0 - gl[k - 1].0) }
}

/// Sum of the allocation percentages of the first `k` entries of the order.
pub open spec fn pct_sum(allocs: Seq<EnvelopeAllocation>, order: Seq<(usize, usize)>, k: int) -> int
    decreases k,
{
    if k <= 0 { 0 } else { pct_sum(allocs, order, k - 1) + allocs[order[k - 1].0 as int].percentage.0 }
}

/// Adding one row's allocation percentage to a running total.
pub open spec fn pct_step(allocs: Seq<EnvelopeAllocation>) -> spec_fn(int, (usize, usize)) -> int {
    |acc: int, p: (usize, usize)| acc + allocs[p.0 as int].percentage.0
}

proof fn lemma_pct_sum_fold(allocs: Seq<EnvelopeAllocation>, s: Seq<(usize, usize)>, k: int)
    requires
        0 <= k <= s.len(),
    ensures
        pct_sum(allocs, s, k) == s.take(k).fold_left(0int, pct_step(allocs)),
    decreases k,
{
    if k > 0 {
        lemma_pct_sum_fold(allocs, s, k - 1);
        assert(s.take(k).drop_last() =~= s.take(k - 1));
    }
}

proof fn lemma_joined_pct(allocs: Seq<EnvelopeAllocation>, accts: Seq<Account>, k: int)
    requires
        0 <= k <= allocs.len(),
        allocs.len() <= usize::MAX,
    ensures
        pct_sum(allocs, joined(allocs, accts, k), joined(allocs, accts, k).len() as int) == joined_pct(allocs, accts, k),
    decreases k,
{
    if k > 0 {
        lemma_joined_pct(allocs, accts, k - 1);
        let prev = joined(allocs, accts, k - 1);
        match last_account_with(accts, allocs[k - 1].account_id, accts.len() as int) {
            Some(j) => {
                let cur = joined(allocs, accts, k);
                assert(cur == prev.push(((k - 1) as usize, j as usize)));
                lemma_pct_sum_prefix(allocs, cur, prev, prev.len() as int);
            },
            None => {},
        }
    }
}

proof fn lemma_pct_sum_prefix(allocs: Seq<EnvelopeAllocation>, a: Seq<(usize, usize)>, b: Seq<(usize, usize)>, k: int)
    requires
        0 <= k <= b.len(),
        b.len() <= a.len(),
        forall|i: int| 0 <= i < b.len() ==> a[i] == b[i],
    ensures
        pct_sum(allocs, a, k) == pct_sum(allocs, b, k),
    decreases k,
{
    if k > 0 {
        lemma_pct_sum_prefix(allocs, a, b, k - 1);
    }
}

/// The TOTAL row's allocation percentage is the sum of the percentages of all
/// allocations that have an account, whatever their account numbers; so the
/// Unallocated row shows 100% less that sum.
pub proof fn lemma_budget_percent_total(allocs: Seq<EnvelopeAllocation>, accts: Seq<Account>, order: Seq<(usize, usize)>)
    requires
        budget_ordered(allocs, accts, order),
        allocs.len() <= usize::MAX,
    ensures
        pct_sum(allocs, order, order.len() as int) == joined_pct(allocs, accts, allocs.len() as int),
{
    let jn = joined(allocs, accts, allocs.len() as int);
    let f = pct_step(allocs);
    assert(vstd::seq_lib::commutative_foldl(f)) by {
        assert forall|x: (usize, usize), y: (usize, usize), v: int| #[trigger] f(f(v, x), y) == f(f(v, y), x) by {}
    }
    vstd::seq_lib::lemma_fold_left_permutation(order, jn, f, 0int);
    lemma_pct_sum_fold(allocs, order, order.len() as int);
    lemma_pct_sum_fold(allocs, jn, jn.len() as int);
    assert(order.take(order.len() as int) =~= order);
    assert(jn.take(jn.len() as int) =~= jn);
    lemma_joined_pct(allocs, accts, allocs.len() as int);
}

/// The unallocated share for a total allocation `total`: 100% less the total,
/// clamped to the `i64` range.
pub open spec fn unallocated_of(total: int) -> int {
    let d = FULL_PERCENTAGE - total;
    if d < i64::MIN { i64::MIN as int } else if d > i64::MAX { i64::MAX as int } else { d }
}

/// All table rows: one per allocated account, the totals row, the unallocated row.
pub open spec fn eb_table_rows(
    allocs: Seq<EnvelopeAllocation>,
    accts: Seq<Account>,
    order: Seq<(usize, usize)>,
    ear: Seq<Money>,
    gl: Seq<Money>,
) -> Seq<Seq<Seq<char>>> {
    let e = Seq::<char>::empty();
    let n = order.len() as int;
    Seq::new(order.len(), |i: int| eb_line(allocs, accts, order, ear, gl, i)) + seq![
        seq![
            e,
            "TOTAL"@,
            percentage_text(pct_sum(allocs, order, n)),
            money_text(money_sum(ear, n)),
            money_text(money_sum(gl, n)),
            money_text(available_sum(ear, gl, n)),
        ],
        seq![e, "Unallocated"@, percentage_text(unallocated_of(pct_sum(allocs, order, n))), e, e, e],
    ]
}

/// Column labels.
pub open spec fn eb_headers() -> Seq<Seq<char>> {
    seq!["Account #"@, "Account Name"@, "Allocation %"@, "Earmarked"@, "GL Balance"@, "Available"@]
}

/// Column alignments.
pub open spec fn eb_aligns() -> Seq<Align> {
    seq![Align::Left, Align::Left, Align::Right, Align::Right, Align::Right, Align::Right]
}

/// Inputs the report accepts besides the row order: valid indices, one
/// earmarked amount and one GL balance per row, sums within `i64`, short texts.
pub open spec fn eb_input_ok(
    allocs: Seq<EnvelopeAllocation>,
    accts: Seq<Account>,
    order: Seq<(usize, usize)>,
    ear: Seq<Money>,
    gl: Seq<Money>,
) -> bool {
    &&& ear.len() == order.len()
    &&& gl.len() == order.len()
    &&& forall|i: int| 0 <= i < order.len() ==> {
        &&& (#[trigger] order[i]).0 < allocs.len()
        &&& order[i].1 < accts.len()
        &&& short_text(accts[order[i].1 as int].number@)
        &&& short_text(accts[order[i].1 as int].name@)
        &&& i64::MIN <= ear[i].0 - gl[i].0 <= i64::MAX
    }
    &&& forall|k: int| 0 <= k <= order.len() ==> i64::MIN <= #[trigger] money_sum(ear, k) <= i64::MAX
    &&& forall|k: int| 0 <= k <= order.len() ==> i64::MIN <= #[trigger] money_sum(gl, k) <= i64::MAX
    &&& forall|k: int| 0 <= k <= order.len() ==> i64::MIN <= #[trigger] available_sum(ear, gl, k) <= i64::MAX
    &&& forall|k: int| 0 <= k <= order.len() ==> i64::MIN <= #[trigger] pct_sum(allocs, order, k) <= i64::MAX
}

/// The available total is the earmarked total less the GL total.
pub proof fn lemma_available_total(ear: Seq<Money>, gl: Seq<Money>, k: int)
    ensures
        available_sum(ear, gl, k) == money_sum(ear, k) - money_sum(gl, k),
    decreases k,
{
    if k > 0 {
        lemma_available_total(ear, gl, k - 1);
    }
}

impl EnvelopeBudgetSummary {
    /// The report's name, used in file names.
    pub fn name(&self) -> (s: &'static str)
        ensures
            s@ == "EnvelopeBudgetSummary"@,
    {
        "EnvelopeBudgetSummary"
    }

    /// The table rows for the allocated accounts in `order` (see
    /// [`budget_order`]), with the earmarked amount and the GL balance change
    /// of each over the range.
    pub fn rows(
        &self,
        allocations: &[EnvelopeAllocation],
        accounts: &[Account],
        order: &[(usize, usize)],
        earmarked: &[Money],
        gl_balances: &[Money],
    ) -> (rows: Vec<Vec<String>>)
        requires
            budget_ordered(allocations@, accounts@, order@),
            eb_input_ok(allocations@, accounts@, order@, earmarked@, gl_balances@),
        ensures
            rows_view(rows@) == eb_table_rows(allocations@, accounts@, order@, earmarked@, gl_balances@),
            rows_short(rows_view(rows@)),
            pct_sum(allocations@, order@, order@.len() as int) == joined_pct(allocations@, accounts@, allocations@.len() as int),
    {
        let n_allocations = allocations.len();
        proof {
            assert(n_allocations == allocations@.len());
            assert(pct_sum(allocations@, order@, order@.len() as int) == joined_pct(allocations@, accounts@, allocations@.len() as int)) by {
                lemma_budget_percent_total(allocations@, accounts@, order@);
            }
        }
        let ghost al = allocations@;
        let ghost ac = accounts@;
        let ghost od = order@;
        let ghost ea = earmarked@;
        let ghost gb = gl_balances@;
        let n = order.len();
        let mut rows: Vec<Vec<String>> = Vec::new();
        let mut total_earmarked = Money(0);
        let mut total_gl = Money(0);
        let mut total_available = Money(0);
        let mut total_pct = Percentage(0);
        let mut i: usize = 0;
        while i < n
            invariant
                n == od.len(),
                al == allocations@,
                ac == accounts@,
                od == order@,
                ea == earmarked@,
                gb == gl_balances@,
                eb_input_ok(al, ac, od, ea, gb),
                i <= n,
                rows_view(rows@) == Seq::new(i as nat, |j: int| eb_line(al, ac, od, ea, gb, j)),
                rows_short(rows_view(rows@)),
                total_earmarked.0 == money_sum(ea, i as int),
                total_gl.0 == money_sum(gb, i as int),
                total_available.0 == available_sum(ea, gb, i as int),
                total_pct.0 == pct_sum(al, od, i as int),
            decreases n - i,
        {
            let (ai, ci) = order[i];
            assert(order@[i as int].0 < al.len() && order@[i as int].1 < ac.len());
            let alloc = &allocations[ai];
            let account = &accounts[ci];
            let ear = earmarked[i];
            let glb = gl_balances[i];
            assert(i64::MIN <= ear.0 - glb.0 <= i64::MAX);
            let available = Money(ear.0 - glb.0);
            assert(i64::MIN <= money_sum(ea, i + 1) <= i64::MAX);
            assert(i64::MIN <= money_sum(gb, i + 1) <= i64::MAX);
            assert(i64::MIN <= available_sum(ea, gb, i + 1) <= i64::MAX);
            assert(i64::MIN <= pct_sum(al, od, i + 1) <= i64::MAX);
            total_earmarked = Money(total_earmarked.0 + ear.0);
            total_gl = Money(total_gl.0 + glb.0);
            total_available = Money(total_available.0 + available.0);
            total_pct = Percentage(total_pct.0 + alloc.percentage.0);
            let mut row: Vec<String> = Vec::new();
            row.push(copy_text(&account.number));
            row.push(copy_text(&account.name));
            let pct = format_percentage(alloc.percentage);
            proof {
                crate::envelopes::lemma_percentage_text_short(alloc.percentage.0);
            }
            row.push(pct);
            row.push(money_cell(ear));
            row.push(money_cell(glb));
            row.push(money_cell(available));
            let ghost before = rows_view(rows@);
            assert(row@.map_values(|c: String| c@) =~= eb_line(al, ac, od, ea, gb, i as int));
            rows.push(row);
            proof {
                assert(rows_view(rows@) =~= before.push(eb_line(al, ac, od, ea, gb, i as int)));
                assert(rows_view(rows@) =~= Seq::new((i + 1) as nat, |j: int| eb_line(al, ac, od, ea, gb, j)));
                let tail = seq![eb_line(al, ac, od, ea, gb, i as int)];
                assert(rows_short(tail));
                lemma_rows_short_concat(before, tail);
                assert(before + tail =~= before.push(eb_line(al, ac, od, ea, gb, i as int)));
            }
            i = i + 1;
        }
        let unallocated = unallocated_percentage(total_pct);
        let mut total_row: Vec<String> = Vec::new();
        total_row.push(blank());
        total_row.push(literal("TOTAL"));
        total_row.push(format_percentage(total_pct));
        total_row.push(money_cell(total_earmarked));
        total_row.push(money_cell(total_gl));
        total_row.push(money_cell(total_available));
        let mut un_row: Vec<String> = Vec::new();
        un_row.push(blank());
        un_row.push(literal("Unallocated"));
        un_row.push(format_percentage(unallocated));
        un_row.push(blank());
        un_row.push(blank());
        un_row.push(blank());
        let ghost body = rows_view(rows@);
        let ghost e = Seq::<char>::empty();
        proof {
            reveal_strlit("TOTAL");
            reveal_strlit("Unallocated");
            crate::envelopes::lemma_percentage_text_short(total_pct.0);
            crate::envelopes::lemma_percentage_text_short(unallocated.0);
            lemma_money_short(total_earmarked.0);
            lemma_money_short(total_gl.0);
            lemma_money_short(total_available.0);
        }
        let ghost tail = seq![
            seq![
                e,
                "TOTAL"@,
                percentage_text(total_pct.0 as int),
                money_text(total_earmarked.0 as int),
                money_text(total_gl.0 as int),
                money_text(total_available.0 as int),
            ],
            seq![e, "Unallocated"@, percentage_text(unallocated.0 as int), e, e, e],
        ];
        assert(total_row@.map_values(|c: String| c@) =~= tail[0]);
        assert(un_row@.map_values(|c: String| c@) =~= tail[1]);
        rows.push(total_row);
        rows.push(un_row);
        proof {
            assert(unallocated.0 == unallocated_of(total_pct.0 as int));
            assert(rows_view(rows@) =~= body + tail);
            assert(rows_view(rows@) =~= eb_table_rows(al, ac, od, ea, gb));
            assert(rows_short(tail));
            lemma_rows_short_concat(body, tail);
        }
        rows
    }

    /// The full report document for the range `start` to `end`.
    pub fn generate(
        &self,
        entity_name: &str,
        start: Date,
        end: Date,
        allocations: &[EnvelopeAllocation],
        accounts: &[Account],
        order: &[(usize, usize)],
        earmarked: &[Money],
        gl_balances: &[Money],
    ) -> (s: String)
        requires
            short_text(entity_name@),
            valid_date(start) && four_digit_year(start),
            valid_date(end) && four_digit_year(end),
            budget_ordered(allocations@, accounts@, order@),
            eb_input_ok(allocations@, accounts@, order@, earmarked@, gl_balances@),
        ensures
            exists|g: Seq<char>| is_stamp(g) &&
                s@ == document_text(
                    header_text(entity_name@, "Envelope Budget Summary"@, range_text(start, end), g),
                    table_text(
                        eb_headers(),
                        eb_table_rows(allocations@, accounts@, order@, earmarked@, gl_balances@),
                        eb_aligns(),
                    ),
                ),
            pct_sum(allocations@, order@, order@.len() as int) == joined_pct(allocations@, accounts@, allocations@.len() as int),
    {
        let rows = self.rows(allocations, accounts, order, earmarked, gl_balances);
        let date_label = range_label(start, end);
        let headers: [&str; 6] = ["Account #", "Account Name", "Allocation %", "Earmarked", "GL Balance", "Available"];
        let alignments: [Align; 6] = [Align::Left, Align::Left, Align::Right, Align::Right, Align::Right, Align::Right];
        proof {
            reveal_strlit("Account #");
            reveal_strlit("Account Name");
            reveal_strlit("Allocation %");
            reveal_strlit("Earmarked");
            reveal_strlit("GL Balance");
            reveal_strlit("Available");
            reveal_strlit("Envelope Budget Summary");
            assert(headers_view(headers@) =~= eb_headers());
            assert(alignments@ =~= eb_aligns());
        }
        assemble(entity_name, "Envelope Budget Summary", date_label.as_str(), &headers, rows.as_slice(), &alignments)
    }
}

} // verus!
