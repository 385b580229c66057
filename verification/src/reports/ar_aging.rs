//! Accounts Receivable Aging report.
//!
//! Open and partially paid receivables, each placed in one aging bucket by the
//! days it is past due as of the report date (Current, 1-30, 31-60, 61-90,
//! 90+ days), followed by one total per bucket and the grand total. The
//! outstanding amount of a partially paid item is its amount less its payments.

use vstd::prelude::*;
use crate::reports::is_stamp;
use crate::date::{Date, valid_date, four_digit_year, long_text, iso_text, day_number, days_between};
use crate::money::{Money, money_text};
use crate::receivables::{ArItem, ArApStatus, paid_upto, outstanding};
use crate::reports::{Align, header_text, table_text, headers_view, rows_view};
use crate::reports::builders::{
    short_text, rows_short, document_text, money_cell, blank, copy_text, literal, assemble,
    prefixed, lemma_money_short, opt_text, copy_opt_text,
};

verus! {

/// The AR Aging report.
pub struct ArAging;

/// The bucket of a number of days past due: 0 for Current up to 4 for 90+ days.
pub open spec fn bucket_index(days: int) -> int {
    if days <= 0 { 0 }
    else if days <= 30 { 1 }
    else if days <= 60 { 2 }
    else if days <= 90 { 3 }
    else { 4 }
}

/// The label of bucket `b`.
pub open spec fn bucket_label(b: int) -> Seq<char> {
    if b == 0 { "Current"@ }
    else if b == 1 { "1-30 Days"@ }
    else if b == 2 { "31-60 Days"@ }
    else if b == 3 { "61-90 Days"@ }
    else { "90+ Days"@ }
}

/// The aging bucket label for a number of days past due.
pub fn aging_bucket(days: i64) -> (s: &'static str)
    ensures
        s@ == bucket_label(bucket_index(days as int)),
{
    if days <= 0 {
        "Current"
    } else if days <= 30 {
        "1-30 Days"
    } else if days <= 60 {
        "31-60 Days"
    } else if days <= 90 {
        "61-90 Days"
    } else {
        "90+ Days"
    }
}

/// Items the report lists: all that are not fully paid.
pub open spec fn ar_listed(item: ArItem) -> bool {
    item.status != ArApStatus::Paid
}

/// Days an item is past due as of `as_of`.
pub open spec fn days_past_due(item: ArItem, as_of: Date) -> int {
    day_number(as_of) - day_number(item.due_date)
}

/// The outstanding amount of an item given its payments.
pub open spec fn item_outstanding(item: ArItem, pays: Seq<Money>) -> int {
    if item.status == ArApStatus::Partial {
        item.amount.0 - paid_upto(pays, pays.len() as int)
    } else {
        item.amount.0 as int
    }
}

/// The row of a listed item.
pub open spec fn ar_line(item: ArItem, pays: Seq<Money>, as_of: Date) -> Seq<Seq<char>> {
    seq![
        item.customer_name@,
        opt_text(item.description),
        iso_text(item.due_date),
        bucket_label(bucket_index(days_past_due(item, as_of))),
        money_text(item_outstanding(item, pays)),
    ]
}

/// Rows of the listed items among the first `k`.
pub open spec fn ar_rows(items: Seq<ArItem>, pays: Seq<Vec<Money>>, as_of: Date, k: int) -> Seq<Seq<Seq<char>>>
    decreases k,
{
    if k <= 0 {
        Seq::empty()
    } else {
        let prev = ar_rows(items, pays, as_of, k - 1);
        if ar_listed(items[k - 1]) { prev.push(ar_line(items[k - 1], pays[k - 1]@, as_of)) } else { prev }
    }
}

/// Outstanding total of the listed items among the first `k` that fall in bucket `b`.
pub open spec fn bucket_total(items: Seq<ArItem>, pays: Seq<Vec<Money>>, as_of: Date, b: int, k: int) -> int
    decreases k,
{
    if k <= 0 {
        0
    } else {
        let it = items[k - 1];
        bucket_total(items, pays, as_of, b, k - 1) + if ar_listed(it) && bucket_index(days_past_due(it, as_of)) == b {
            item_outstanding(it, pays[k - 1]@)
        } else {
            0
        }
    }
}

/// Outstanding total of the listed items among the first `k`.
pub open spec fn grand_total(items: Seq<ArItem>, pays: Seq<Vec<Money>>, as_of: Date, k: int) -> int
    decreases k,
{
    if k <= 0 {
        0
    } else {
        let it = items[k - 1];
        grand_total(items, pays, as_of, k - 1) + if ar_listed(it) { item_outstanding(it, pays[k - 1]@) } else { 0 }
    }
}

/// The summary row of bucket `b`.
pub open spec fn bucket_row(items: Seq<ArItem>, pays: Seq<Vec<Money>>, as_of: Date, b: int) -> Seq<Seq<char>> {
    let e = Seq::<char>::empty();
    seq!["  "@ + bucket_label(b), e, e, e, money_text(bucket_total(items, pays, as_of, b, items.len() as int))]
}

/// All table rows: the items, a blank row, one row per bucket, the grand total.
pub open spec fn ar_table_rows(items: Seq<ArItem>, pays: Seq<Vec<Money>>, as_of: Date) -> Seq<Seq<Seq<char>>> {
    let e = Seq::<char>::empty();
    let n = items.len() as int;
    ar_rows(items, pays, as_of, n) + seq![seq![e, e, e, e, e]] + Seq::new(5, |b: int| bucket_row(items, pays, as_of, b))
        + seq![seq!["TOTAL"@, e, e, e, money_text(grand_total(items, pays, as_of, n))]]
}

/// Column labels.
pub open spec fn ar_headers() -> Seq<Seq<char>> {
    seq!["Customer"@, "Description"@, "Due Date"@, "Bucket"@, "Amount"@]
}

/// Column alignments.
pub open spec fn ar_aligns() -> Seq<Align> {
    seq![Align::Left, Align::Left, Align::Left, Align::Left, Align::Right]
}

/// The payments of item `i` sum without overflow and leave an outstanding amount in range.
pub open spec fn payments_fit(item: ArItem, pays: Seq<Money>) -> bool {
    &&& forall|k: int| 0 <= k <= pays.len() ==> i64::MIN <= #[trigger] paid_upto(pays, k) <= i64::MAX
    &&& i64::MIN <= item.amount.0 - paid_upto(pays, pays.len() as int) <= i64::MAX
}

/// Inputs the report accepts: one payment list per item, real dates with
/// four-digit years, sums within `i64`, and short texts.
pub open spec fn ar_input_ok(items: Seq<ArItem>, pays: Seq<Vec<Money>>, as_of: Date) -> bool {
    &&& items.len() == pays.len()
    &&& valid_date(as_of)
    &&& forall|i: int| 0 <= i < items.len() && #[trigger] ar_listed(items[i]) ==> {
        &&& valid_date(items[i].due_date)
        &&& four_digit_year(items[i].due_date)
        &&& short_text(items[i].customer_name@)
        &&& short_text(opt_text(items[i].description))
        &&& (items[i].status == ArApStatus::Partial ==> payments_fit(items[i], pays[i]@))
    }
    &&& forall|k: int| 0 <= k <= items.len() ==> i64::MIN <= #[trigger] grand_total(items, pays, as_of, k) <= i64::MAX
    &&& forall|b: int, k: int|
        0 <= b < 5 && 0 <= k <= items.len() ==> i64::MIN <= #[trigger] bucket_total(items, pays, as_of, b, k)
            <= i64::MAX
}

/// Every listed receivable lands in exactly one bucket: the bucket totals add
/// up to the grand total.
pub proof fn lemma_buckets_sum_to_total(items: Seq<ArItem>, pays: Seq<Vec<Money>>, as_of: Date, k: int)
    ensures
        bucket_total(items, pays, as_of, 0, k) + bucket_total(items, pays, as_of, 1, k) + bucket_total(
            items,
            pays,
            as_of,
            2,
            k,
        ) + bucket_total(items, pays, as_of, 3, k) + bucket_total(items, pays, as_of, 4, k) == grand_total(
            items,
            pays,
            as_of,
            k,
        ),
    decreases k,
{
    if k > 0 {
        lemma_buckets_sum_to_total(items, pays, as_of, k - 1);
    }
}

/// Outstanding total of the listed items among the first `k` whose row shows
/// the bucket label `label`.
pub open spec fn label_total(items: Seq<ArItem>, pays: Seq<Vec<Money>>, as_of: Date, label: Seq<char>, k: int) -> int
    decreases k,
{
    if k <= 0 {
        0
    } else {
        let it = items[k - 1];
        label_total(items, pays, as_of, label, k - 1) + if ar_listed(it) && ar_line(it, pays[k - 1]@, as_of)[3] == label {
            item_outstanding(it, pays[k - 1]@)
        } else {
            0
        }
    }
}

proof fn lemma_bucket_labels_distinct(a: int, b: int)
    requires
        0 <= a < 5,
        0 <= b < 5,
        bucket_label(a) == bucket_label(b),
    ensures
        a == b,
{
    reveal_strlit("Current");
    reveal_strlit("1-30 Days");
    reveal_strlit("31-60 Days");
    reveal_strlit("61-90 Days");
    reveal_strlit("90+ Days");
    assert("Current"@.len() == 7 && "Current"@[0] == 'C');
    assert("1-30 Days"@.len() == 9 && "1-30 Days"@[0] == '1');
    assert("31-60 Days"@.len() == 10 && "31-60 Days"@[0] == '3');
    assert("61-90 Days"@.len() == 10 && "61-90 Days"@[0] == '6');
    assert("90+ Days"@.len() == 8 && "90+ Days"@[0] == '9');
    assert(bucket_label(a).len() == bucket_label(b).len() && bucket_label(a)[0] == bucket_label(b)[0]);
}

/// An item's row shows the bucket of its days past due: not yet due (0 days or
/// fewer) is Current, then 1 to 30, 31 to 60, 61 to 90, and more than 90 days.
pub proof fn lemma_item_bucket_by_days(item: ArItem, pays: Seq<Money>, as_of: Date)
    ensures
        days_past_due(item, as_of) <= 0 ==> ar_line(item, pays, as_of)[3] == "Current"@,
        1 <= days_past_due(item, as_of) <= 30 ==> ar_line(item, pays, as_of)[3] == "1-30 Days"@,
        31 <= days_past_due(item, as_of) <= 60 ==> ar_line(item, pays, as_of)[3] == "31-60 Days"@,
        61 <= days_past_due(item, as_of) <= 90 ==> ar_line(item, pays, as_of)[3] == "61-90 Days"@,
        days_past_due(item, as_of) > 90 ==> ar_line(item, pays, as_of)[3] == "90+ Days"@,
{
}

/// Each bucket's summary row totals exactly the items whose rows show that
/// bucket's label: the summary of a label is the sum of the outstanding
/// amounts on the item rows labelled with it.
pub proof fn lemma_summary_matches_item_labels(items: Seq<ArItem>, pays: Seq<Vec<Money>>, as_of: Date, b: int, k: int)
    requires
        0 <= b < 5,
        0 <= k <= items.len(),
    ensures
        bucket_total(items, pays, as_of, b, k) == label_total(items, pays, as_of, bucket_label(b), k),
    decreases k,
{
    if k > 0 {
        lemma_summary_matches_item_labels(items, pays, as_of, b, k - 1);
        let it = items[k - 1];
        let bi = bucket_index(days_past_due(it, as_of));
        assert(ar_line(it, pays[k - 1]@, as_of)[3] == bucket_label(bi));
        if bucket_label(bi) == bucket_label(b) {
            lemma_bucket_labels_distinct(bi, b);
        }
    }
}

/// The outstanding amount of one item.
fn item_amount(item: &ArItem, pays: &Vec<Money>) -> (m: Money)
    requires
        item.status == ArApStatus::Partial ==> payments_fit(*item, pays@),
    ensures
        m.0 == item_outstanding(*item, pays@),
{
    if item.status == ArApStatus::Partial {
        outstanding(item.amount, pays.as_slice())
    } else {
        item.amount
    }
}

/// The bucket index of a number of days past due.
fn bucket_of(days: i64) -> (b: usize)
    ensures
        b == bucket_index(days as int),
{
    if days <= 0 { 0 } else if days <= 30 { 1 } else if days <= 60 { 2 } else if days <= 90 { 3 } else { 4 }
}

impl ArAging {
    /// The report's name, used in file names.
    pub fn name(&self) -> (s: &'static str)
        ensures
            s@ == "ArAging"@,
    {
        "ArAging"
    }

    /// The table rows for the receivables `items` (with the payments of each)
    /// as of `as_of`.
    pub fn rows(&self, items: &[ArItem], payments: &[Vec<Money>], as_of: Date) -> (rows: Vec<Vec<String>>)
        requires
            ar_input_ok(items@, payments@, as_of),
        ensures
            rows_view(rows@) == ar_table_rows(items@, payments@, as_of),
            rows_short(rows_view(rows@)),
    {
        let ghost its = items@;
        let ghost ps = payments@;
        let n = items.len();
        let mut rows: Vec<Vec<String>> = Vec::new();
        let mut totals: Vec<Money> = vec![Money(0), Money(0), Money(0), Money(0), Money(0)];
        let mut grand = Money(0);
        let mut i: usize = 0;
        while i < n
            invariant
                n == its.len(),
                its == items@,
                ps == payments@,
                ar_input_ok(its, ps, as_of),
                i <= n,
                rows_view(rows@) == ar_rows(its, ps, as_of, i as int),
                rows_short(rows_view(rows@)),
                grand.0 == grand_total(its, ps, as_of, i as int),
                totals@.len() == 5,
                forall|b: int| 0 <= b < 5 ==> (#[trigger] totals@[b]).0 == bucket_total(its, ps, as_of, b, i as int),
            decreases n - i,
        {
            let item = &items[i];
            if item.status != ArApStatus::Paid {
                assert(ar_listed(its[i as int]));
                let days = days_between(as_of, item.due_date);
                let b = bucket_of(days);
                let bucket = aging_bucket(days);
                let amount = item_amount(item, &payments[i]);
                assert(i64::MIN <= grand_total(its, ps, as_of, i + 1) <= i64::MAX);
                assert(i64::MIN <= bucket_total(its, ps, as_of, b as int, i + 1) <= i64::MAX);
                grand = Money(grand.0 + amount.0);
                let old_total = totals[b];
                totals.set(b, Money(old_total.0 + amount.0));
                let mut row: Vec<String> = Vec::new();
                row.push(copy_text(&item.customer_name));
                row.push(copy_opt_text(&item.description));
                row.push(item.due_date.to_iso_string());
                row.push(literal(bucket));
                row.push(money_cell(amount));
                proof {
                    reveal_strlit("Current");
                    reveal_strlit("1-30 Days");
                    reveal_strlit("31-60 Days");
                    reveal_strlit("61-90 Days");
                    reveal_strlit("90+ Days");
                    crate::date::lemma_iso_text_short(item.due_date);
                }
                let ghost line = ar_line(its[i as int], ps[i as int]@, as_of);
                assert(row@.map_values(|c: String| c@) =~= line);
                let ghost before = rows_view(rows@);
                rows.push(row);
                assert(rows_view(rows@) =~= before.push(line));
                assert(rows_view(rows@) =~= ar_rows(its, ps, as_of, i + 1));
                proof {
                    let rv = rows_view(rows@);
                    assert forall|r: int, c: int| 0 <= r < rv.len() && 0 <= c < rv[r].len() implies #[trigger] short_text(rv[r][c]) by {
                        if r < before.len() {
                            assert(rv[r] == before[r]);
                        }
                    }
                }
                assert forall|bb: int| 0 <= bb < 5 implies (#[trigger] totals@[bb]).0 == bucket_total(its, ps, as_of, bb, i + 1) by {}
            } else {
                assert(ar_rows(its, ps, as_of, i + 1) == ar_rows(its, ps, as_of, i as int));
            }
            i = i + 1;
        }
        let ghost body = rows_view(rows@);
        let mut spacer: Vec<String> = Vec::new();
        spacer.push(blank());
        spacer.push(blank());
        spacer.push(blank());
        spacer.push(blank());
        spacer.push(blank());
        let ghost e = Seq::<char>::empty();
        assert(spacer@.map_values(|c: String| c@) =~= seq![e, e, e, e, e]);
        rows.push(spacer);
        assert(rows_view(rows@) =~= body + seq![seq![e, e, e, e, e]] + Seq::new(0, |j: int| bucket_row(its, ps, as_of, j)));
        let names: [&str; 5] = ["Current", "1-30 Days", "31-60 Days", "61-90 Days", "90+ Days"];
        proof {
            reveal_strlit("Current");
            reveal_strlit("1-30 Days");
            reveal_strlit("31-60 Days");
            reveal_strlit("61-90 Days");
            reveal_strlit("90+ Days");
            reveal_strlit("  ");
        }
        let mut b: usize = 0;
        while b < 5
            invariant
                b <= 5,
                its == items@,
                ps == payments@,
                n == its.len(),
                names@.len() == 5,
                forall|j: int| 0 <= j < 5 ==> (#[trigger] names@[j])@ == bucket_label(j),
                totals@.len() == 5,
                forall|j: int| 0 <= j < 5 ==> (#[trigger] totals@[j]).0 == bucket_total(its, ps, as_of, j, n as int),
                rows_view(rows@) == body + seq![seq![Seq::<char>::empty(), Seq::<char>::empty(), Seq::<char>::empty(), Seq::<char>::empty(), Seq::<char>::empty()]]
                    + Seq::new(b as nat, |j: int| bucket_row(its, ps, as_of, j)),
            decreases 5 - b,
        {
            let mut row: Vec<String> = Vec::new();
            row.push(prefixed("  ", names[b]));
            row.push(blank());
            row.push(blank());
            row.push(blank());
            row.push(money_cell(totals[b]));
            let ghost before = rows_view(rows@);
            assert(row@.map_values(|c: String| c@) =~= bucket_row(its, ps, as_of, b as int));
            rows.push(row);
            assert(rows_view(rows@) =~= before.push(bucket_row(its, ps, as_of, b as int)));
            b = b + 1;
            assert(rows_view(rows@) =~= body + seq![seq![Seq::<char>::empty(), Seq::<char>::empty(), Seq::<char>::empty(), Seq::<char>::empty(), Seq::<char>::empty()]]
                + Seq::new(b as nat, |j: int| bucket_row(its, ps, as_of, j)));
        }
        let mut total_row: Vec<String> = Vec::new();
        total_row.push(literal("TOTAL"));
        total_row.push(blank());
        total_row.push(blank());
        total_row.push(blank());
        total_row.push(money_cell(grand));
        let ghost before = rows_view(rows@);
        proof {
            reveal_strlit("TOTAL");
        }
        assert(total_row@.map_values(|c: String| c@) =~= seq!["TOTAL"@, e, e, e, money_text(grand_total(its, ps, as_of, n as int))]);
        rows.push(total_row);
        proof {
            assert(rows_view(rows@) =~= before.push(seq!["TOTAL"@, e, e, e, money_text(grand_total(its, ps, as_of, n as int))]));
            assert(rows_view(rows@) =~= ar_table_rows(its, ps, as_of));
            let rv = rows_view(rows@);
            assert forall|r: int, c: int| 0 <= r < rv.len() && 0 <= c < rv[r].len() implies #[trigger] short_text(rv[r][c]) by {
                if r < body.len() {
                    assert(rv[r] == body[r]);
                } else if body.len() < r < body.len() + 6 {
                    let j = r - body.len() - 1;
                    lemma_money_short(totals@[j].0);
                    assert(rv[r] == bucket_row(its, ps, as_of, j));
                } else if r == body.len() + 6 {
                    lemma_money_short(grand.0);
                }
            }
        }
        rows
    }

    /// The full report document: header box and table.
    pub fn generate(&self, entity_name: &str, as_of: Date, items: &[ArItem], payments: &[Vec<Money>]) -> (s: String)
        requires
            short_text(entity_name@),
            four_digit_year(as_of),
            ar_input_ok(items@, payments@, as_of),
        ensures
            exists|g: Seq<char>| is_stamp(g) &&
                s@ == document_text(
                    header_text(entity_name@, "Accounts Receivable Aging"@, "As of "@ + long_text(as_of), g),
                    table_text(ar_headers(), ar_table_rows(items@, payments@, as_of), ar_aligns()),
                ),
    {
        let rows = self.rows(items, payments, as_of);
        let long = as_of.to_long_string();
        let date_label = prefixed("As of ", long.as_str());
        let headers: [&str; 5] = ["Customer", "Description", "Due Date", "Bucket", "Amount"];
        let alignments: [Align; 5] = [Align::Left, Align::Left, Align::Left, Align::Left, Align::Right];
        proof {
            reveal_strlit("Customer");
            reveal_strlit("Description");
            reveal_strlit("Due Date");
            reveal_strlit("Bucket");
            reveal_strlit("Amount");
            reveal_strlit("Accounts Receivable Aging");
            reveal_strlit("As of ");
            assert(headers_view(headers@) =~= ar_headers());
            assert(alignments@ =~= ar_aligns());
            crate::date::lemma_long_text_short(as_of);
        }
        assemble(entity_name, "Accounts Receivable Aging", date_label.as_str(), &headers, rows.as_slice(), &alignments)
    }
}

} // verus!
