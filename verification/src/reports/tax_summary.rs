//! Tax Summary by Form report.
//!
//! Confirmed entries grouped by tax form, in the order of the form catalog,
//! each with its reason and a subtotal per form, then the grand total of the
//! confirmed entries. Non-deductible and unreviewed entries are only counted.
//! The report is plain text framed by the header box and a separator line as
//! wide as the header.

use vstd::prelude::*;
use crate::reports::is_stamp;
use crate::audit::truncate_chars;
use crate::date::{Date, valid_date, four_digit_year, abbrev_text, month_name, lemma_long_text_short};
use crate::money::{Money, money_text, lemma_money_text_len};
use crate::reports::{header_text, header_width, format_header_measured, push_lines, BOX_H};
use crate::reports::builders::{short_text, prefixable, opt_text, range_label, range_text};
use crate::tax::{TaxTag, TaxReviewStatus};
use crate::text::{repeat_char, decimal_digits, join_lines, push_repeat, push_str, push_chars, push_decimal, str_chars, string_from_chars};

verus! {

/// The Tax Summary report.
pub struct TaxSummary;

/// A tax form of the catalog: its stored name, display name and description.
#[derive(Debug, Clone)]
pub struct TaxFormInfo {
    pub key: String,
    pub display_name: String,
    pub description: String,
}

/// A posted entry in the report's range with its tax tag, if tagged.
#[derive(Debug, Clone)]
pub struct PostedEntryTag {
    pub tag: Option<TaxTag>,
    pub je_number: String,
    pub entry_date: Date,
    pub memo: Option<String>,
    /// Total of the entry's debit lines.
    pub total_debits: Money,
}

/// Widths of the four columns of an entry line.
#[derive(Debug, Clone, Copy, PartialEq, Eq, Structural)]
pub struct ColumnWidths {
    pub date: usize,
    pub je: usize,
    pub memo: usize,
    pub amount: usize,
}

/// The stored name of the non-deductible form, whose section is never listed.
pub open spec fn non_deductible_key() -> Seq<char> {
    "non_deductible"@
}

/// The form of a confirmed entry that has one.
pub open spec fn confirmed_form(e: PostedEntryTag) -> Option<Seq<char>> {
    match e.tag {
        Some(t) => if t.status == TaxReviewStatus::Confirmed {
            match t.form_tag {
                Some(f) => Some(f@),
                None => None,
            }
        } else {
            None
        },
        None => None,
    }
}

/// A non-deductible entry.
pub open spec fn is_non_deductible(e: PostedEntryTag) -> bool {
    match e.tag {
        Some(t) => t.status == TaxReviewStatus::NonDeductible,
        None => false,
    }
}

/// An entry that counts as unreviewed: untagged, or tagged neither confirmed nor non-deductible.
pub open spec fn is_unreviewed(e: PostedEntryTag) -> bool {
    match e.tag {
        Some(t) => t.status != TaxReviewStatus::Confirmed && t.status != TaxReviewStatus::NonDeductible,
        None => true,
    }
}

/// Number of non-deductible entries among the first `k`.
pub open spec fn non_deductible_count(es: Seq<PostedEntryTag>, k: int) -> int
    decreases k,
{
    if k <= 0 { 0 } else { non_deductible_count(es, k - 1) + if is_non_deductible(es[k - 1]) { 1int } else { 0int } }
}

/// Number of unreviewed entries among the first `k`.
pub open spec fn unreviewed_count(es: Seq<PostedEntryTag>, k: int) -> int
    decreases k,
{
    if k <= 0 { 0 } else { unreviewed_count(es, k - 1) + if is_unreviewed(es[k - 1]) { 1int } else { 0int } }
}

/// Number of entries among the first `k` whose review is confirmed.
pub open spec fn confirmed_count(es: Seq<PostedEntryTag>, k: int) -> int
    decreases k,
{
    if k <= 0 {
        0
    } else {
        confirmed_count(es, k - 1) + match es[k - 1].tag {
            Some(t) => if t.status == TaxReviewStatus::Confirmed { 1int } else { 0int },
            None => 0int,
        }
    }
}

/// An entry is unreviewed exactly when it has no tag or its review is still
/// open: unreviewed, waiting for the AI, or an AI suggestion not yet confirmed.
pub proof fn lemma_open_reviews_are_unreviewed(e: PostedEntryTag)
    ensures
        is_unreviewed(e) <==> match e.tag {
            None => true,
            Some(t) => t.status == TaxReviewStatus::Unreviewed || t.status == TaxReviewStatus::AiPending
                || t.status == TaxReviewStatus::AiSuggested,
        },
{
}

/// Every entry is counted exactly once: as confirmed, as non-deductible, or as
/// unreviewed.
pub proof fn lemma_every_entry_counted_once(es: Seq<PostedEntryTag>, k: int)
    requires
        0 <= k <= es.len(),
    ensures
        confirmed_count(es, k) + non_deductible_count(es, k) + unreviewed_count(es, k) == k,
    decreases k,
{
    if k > 0 {
        lemma_every_entry_counted_once(es, k - 1);
    }
}

/// The memo shown for an entry: its first 40 characters.
pub open spec fn memo_shown(e: PostedEntryTag) -> Seq<char> {
    let m = opt_text(e.memo);
    if m.len() <= 40 { m } else { m.take(40) }
}

/// The text of column `c` of an entry line (0 date, 1 entry number, 2 memo, 3 amount).
pub open spec fn column_text(e: PostedEntryTag, c: int) -> Seq<char> {
    if c == 0 {
        abbrev_text(e.entry_date)
    } else if c == 1 {
        e.je_number@
    } else if c == 2 {
        memo_shown(e)
    } else {
        money_text(e.total_debits.0 as int)
    }
}

/// The width of column `c`: its floor, or the widest text of a confirmed entry
/// among the first `k`.
pub open spec fn column_width(es: Seq<PostedEntryTag>, c: int, floor: int, k: int) -> int
    decreases k,
{
    if k <= 0 {
        floor
    } else {
        let prev = column_width(es, c, floor, k - 1);
        if confirmed_form(es[k - 1]) is Some && column_text(es[k - 1], c).len() > prev {
            column_text(es[k - 1], c).len() as int
        } else {
            prev
        }
    }
}

/// The column widths of the report.
pub open spec fn report_widths(es: Seq<PostedEntryTag>) -> ColumnWidths {
    let n = es.len() as int;
    ColumnWidths {
        date: column_width(es, 0, 6, n) as usize,
        je: column_width(es, 1, 7, n) as usize,
        memo: column_width(es, 2, 20, n) as usize,
        amount: column_width(es, 3, 10, n) as usize,
    }
}

/// Text padded with spaces on the right to `w` characters.
pub open spec fn pad_right(s: Seq<char>, w: int) -> Seq<char> {
    s + repeat_char(' ', (if s.len() < w { w - s.len() } else { 0 }) as nat)
}

/// Text padded with spaces on the left to `w` characters.
pub open spec fn pad_left(s: Seq<char>, w: int) -> Seq<char> {
    repeat_char(' ', (if s.len() < w { w - s.len() } else { 0 }) as nat) + s
}

/// The line of a confirmed entry.
pub open spec fn entry_line(e: PostedEntryTag, w: ColumnWidths) -> Seq<char> {
    "  "@ + pad_right(column_text(e, 0), w.date as int) + "  "@ + pad_right(column_text(e, 1), w.je as int) + "  "@
        + pad_right(column_text(e, 2), w.memo as int) + "  "@ + pad_left(column_text(e, 3), w.amount as int)
}

/// The reason of a tagged entry, or a note that none was given.
pub open spec fn reason_text(e: PostedEntryTag) -> Seq<char> {
    match e.tag {
        Some(t) => match t.reason {
            Some(r) => r@,
            None => "(no reason given)"@,
        },
        None => "(no reason given)"@,
    }
}

/// The reason line under an entry line, indented to the memo column.
pub open spec fn reason_line(e: PostedEntryTag, w: ColumnWidths) -> Seq<char> {
    repeat_char(' ', (2 + w.date + 2 + w.je + 2) as nat) + "Reason: "@ + reason_text(e)
}

/// The position of the right edge of an entry line.
pub open spec fn right_edge(w: ColumnWidths) -> int {
    2 + w.date + 2 + w.je + 2 + w.memo + 2 + w.amount
}

/// A total line: `label`, two spaces and `amount`, padded on the left so
/// that the line would end at the right edge if `extra` spaces separated them.
pub open spec fn total_line(label: Seq<char>, amount: Seq<char>, extra: int, w: ColumnWidths) -> Seq<char> {
    let used = label.len() + extra + amount.len();
    repeat_char(' ', (if used < right_edge(w) { right_edge(w) - used } else { 0 }) as nat) + label + "  "@ + amount
}

/// Lines of the confirmed entries of form `key` among the first `k`.
pub open spec fn form_entry_lines(es: Seq<PostedEntryTag>, key: Seq<char>, w: ColumnWidths, k: int) -> Seq<Seq<char>>
    decreases k,
{
    if k <= 0 {
        Seq::empty()
    } else {
        let prev = form_entry_lines(es, key, w, k - 1);
        if confirmed_form(es[k - 1]) == Some(key) {
            prev + seq![entry_line(es[k - 1], w), reason_line(es[k - 1], w)]
        } else {
            prev
        }
    }
}

/// Total of the confirmed entries of form `key` among the first `k`.
pub open spec fn form_total(es: Seq<PostedEntryTag>, key: Seq<char>, k: int) -> int
    decreases k,
{
    if k <= 0 {
        0
    } else {
        form_total(es, key, k - 1) + if confirmed_form(es[k - 1]) == Some(key) { es[k - 1].total_debits.0 as int } else { 0 }
    }
}

/// Number of confirmed entries of form `key` among the first `k`.
pub open spec fn form_count(es: Seq<PostedEntryTag>, key: Seq<char>, k: int) -> int
    decreases k,
{
    if k <= 0 { 0 } else { form_count(es, key, k - 1) + if confirmed_form(es[k - 1]) == Some(key) { 1int } else { 0int } }
}

/// Whether the section of form `f` is listed: it is not the non-deductible form
/// and has confirmed entries.
pub open spec fn section_listed(f: TaxFormInfo, es: Seq<PostedEntryTag>) -> bool {
    f.key@ != non_deductible_key() && form_count(es, f.key@, es.len() as int) > 0
}

/// The lines of the section of form `f`.
pub open spec fn form_section(f: TaxFormInfo, es: Seq<PostedEntryTag>, w: ColumnWidths, sep: Seq<char>) -> Seq<Seq<char>> {
    let n = es.len() as int;
    if section_listed(f, es) {
        seq![f.display_name@ + " — "@ + f.description@, sep] + form_entry_lines(es, f.key@, w, n) + seq![
            total_line("Total:"@, money_text(form_total(es, f.key@, n)), 1, w),
            Seq::<char>::empty(),
        ]
    } else {
        Seq::empty()
    }
}

/// Sections of the first `j` forms.
pub open spec fn sections(forms: Seq<TaxFormInfo>, es: Seq<PostedEntryTag>, w: ColumnWidths, sep: Seq<char>, j: int) -> Seq<Seq<char>>
    decreases j,
{
    if j <= 0 { Seq::empty() } else { sections(forms, es, w, sep, j - 1) + form_section(forms[j - 1], es, w, sep) }
}

/// Whether any of the first `j` forms has a listed section.
pub open spec fn any_listed(forms: Seq<TaxFormInfo>, es: Seq<PostedEntryTag>, j: int) -> bool
    decreases j,
{
    if j <= 0 { false } else { any_listed(forms, es, j - 1) || section_listed(forms[j - 1], es) }
}

/// Grand total of the listed sections among the first `j` forms.
pub open spec fn grand_total(forms: Seq<TaxFormInfo>, es: Seq<PostedEntryTag>, j: int) -> int
    decreases j,
{
    if j <= 0 {
        0
    } else {
        grand_total(forms, es, j - 1) + if section_listed(forms[j - 1], es) {
            form_total(es, forms[j - 1].key@, es.len() as int)
        } else {
            0
        }
    }
}

/// `N entry`/`N entries` with the given singular and plural words.
pub open spec fn count_text(label: Seq<char>, n: int, one: Seq<char>, many: Seq<char>) -> Seq<char> {
    label + decimal_digits(n as nat) + " "@ + if n == 1 { one } else { many }
}

/// The end-of-report marker centred under a header of width `hw`.
pub open spec fn marker_line(hw: int) -> Seq<char> {
    let m = "— End of Report —"@;
    repeat_char(' ', ((if m.len() < hw { hw - m.len() } else { 0 }) / 2) as nat) + m
}

/// The lines of the report body after the header, for a header of width `hw`.
pub open spec fn body_lines(forms: Seq<TaxFormInfo>, es: Seq<PostedEntryTag>, hw: int) -> Seq<Seq<char>> {
    let w = report_widths(es);
    let sep = repeat_char(BOX_H, hw as nat);
    let n = es.len() as int;
    let f = forms.len() as int;
    seq![Seq::<char>::empty()] + sections(forms, es, w, sep, f) + (if any_listed(forms, es, f) {
        seq![total_line("Grand Total (confirmed):"@, money_text(grand_total(forms, es, f)), 2, w), sep, Seq::<char>::empty()]
    } else {
        Seq::empty()
    }) + seq![
        count_text("  Non-Deductible:  "@, non_deductible_count(es, n), "entry (not listed)"@, "entries (not listed)"@),
        count_text("  Unreviewed:      "@, unreviewed_count(es, n), "entry"@, "entries"@),
        Seq::<char>::empty(),
        marker_line(hw),
    ]
}

/// The full report for the header stamped `g`.
pub open spec fn tax_summary_text(
    entity: Seq<char>,
    start: Date,
    end: Date,
    forms: Seq<TaxFormInfo>,
    es: Seq<PostedEntryTag>,
    g: Seq<char>,
) -> Seq<char> {
    let title = "Tax Summary by Form"@;
    let hw = header_width(entity, title, range_text(start, end), g);
    join_lines(seq![header_text(entity, title, range_text(start, end), g)] + body_lines(forms, es, hw))
}

/// Inputs the report accepts: real dates with four-digit years and entry
/// numbers that leave room for the columns, for every confirmed entry; and
/// running totals within `i64`.
pub open spec fn ts_input_ok(forms: Seq<TaxFormInfo>, es: Seq<PostedEntryTag>) -> bool {
    &&& forall|i: int| 0 <= i < es.len() && (#[trigger] confirmed_form(es[i])) is Some ==> {
        &&& valid_date(es[i].entry_date)
        &&& four_digit_year(es[i].entry_date)
        &&& prefixable(es[i].je_number@)
    }
    &&& forall|j: int, k: int|
        0 <= j < forms.len() && 0 <= k <= es.len() ==> i64::MIN <= #[trigger] form_total(es, forms[j].key@, k) <= i64::MAX
            && i64::MIN <= grand_total(forms, es, j) + form_total(es, forms[j].key@, k) <= i64::MAX
}

/// Appends `s` padded on the right to `w` characters.
fn push_pad_right(out: &mut Vec<char>, s: &Vec<char>, w: usize)
    ensures
        final(out)@ == old(out)@ + pad_right(s@, w as int),
{
    push_chars(out, s);
    if s.len() < w {
        push_repeat(out, ' ', w - s.len());
    } else {
        push_repeat(out, ' ', 0);
    }
    assert(final(out)@ =~= old(out)@ + pad_right(s@, w as int)) by {
        assert(repeat_char(' ', 0) =~= Seq::<char>::empty());
    }
}

/// Appends `s` padded on the left to `w` characters.
fn push_pad_left(out: &mut Vec<char>, s: &Vec<char>, w: usize)
    ensures
        final(out)@ == old(out)@ + pad_left(s@, w as int),
{
    let pad: usize = if s.len() < w { w - s.len() } else { 0 };
    push_repeat(out, ' ', pad);
    push_chars(out, s);
    assert(final(out)@ =~= old(out)@ + pad_left(s@, w as int));
}

/// The texts of the four columns of an entry.
fn column_texts(e: &PostedEntryTag) -> (r: (Vec<char>, Vec<char>, Vec<char>, Vec<char>))
    requires
        valid_date(e.entry_date),
        four_digit_year(e.entry_date),
    ensures
        r.0@ == column_text(*e, 0),
        r.1@ == column_text(*e, 1),
        r.2@ == column_text(*e, 2),
        r.3@ == column_text(*e, 3),
        r.0@.len() <= 6,
        r.2@.len() <= 40,
        r.3@.len() <= 40,
{
    let d = e.entry_date.to_short_string();
    let date = str_chars(d.as_str());
    let je = str_chars(e.je_number.as_str());
    let memo = match &e.memo {
        Some(m) => str_chars(truncate_chars(m.as_str(), 40)),
        None => Vec::new(),
    };
    let amount_text = e.total_debits.to_string();
    let amount = str_chars(amount_text.as_str());
    proof {
        lemma_money_text_len(e.total_debits.0);
        lemma_abbrev_short(e.entry_date);
        assert(memo@ =~= memo_shown(*e));
    }
    (date, je, memo, amount)
}

/// The short date text is at most six characters.
proof fn lemma_abbrev_short(d: Date)
    requires
        valid_date(d),
    ensures
        abbrev_text(d).len() <= 6,
{
    reveal_strlit("January");
    reveal_strlit("February");
    reveal_strlit("March");
    reveal_strlit("April");
    reveal_strlit("May");
    reveal_strlit("June");
    reveal_strlit("July");
    reveal_strlit("August");
    reveal_strlit("September");
    reveal_strlit("October");
    reveal_strlit("November");
    reveal_strlit("December");
    assert(month_name(d.month as int).len() >= 3);
    reveal_with_fuel(crate::money::pow10, 3);
    crate::money::lemma_decimal_len_bound(d.day as nat, 2);
}

/// The form of a confirmed entry, as text.
fn entry_form<'a>(e: &'a PostedEntryTag) -> (r: Option<&'a String>)
    ensures
        r matches Some(f) ==> confirmed_form(*e) == Some(f@),
        r is None ==> confirmed_form(*e) is None,
{
    match &e.tag {
        Some(t) => {
            if t.status == TaxReviewStatus::Confirmed {
                match &t.form_tag {
                    Some(f) => Some(f),
                    None => None,
                }
            } else {
                None
            }
        },
        None => None,
    }
}

/// Column widths and the two counts over all entries.
fn measure(es: &[PostedEntryTag]) -> (r: (ColumnWidths, usize, usize))
    requires
        forall|i: int| 0 <= i < es@.len() && (#[trigger] confirmed_form(es@[i])) is Some ==> {
            &&& valid_date(es@[i].entry_date)
            &&& four_digit_year(es@[i].entry_date)
            &&& prefixable(es@[i].je_number@)
        },
    ensures
        r.0 == report_widths(es@),
        r.0.date <= 6 && r.0.memo <= 40 && r.0.amount <= 40 && r.0.je + 96 <= usize::MAX,
        r.1 == non_deductible_count(es@, es@.len() as int),
        r.2 == unreviewed_count(es@, es@.len() as int),
{
    let mut dw: usize = 6;
    let mut jw: usize = 7;
    let mut mw: usize = 20;
    let mut aw: usize = 10;
    let mut nd: usize = 0;
    let mut un: usize = 0;
    let mut i: usize = 0;
    while i < es.len()
        invariant
            i <= es@.len(),
            forall|t: int| 0 <= t < es@.len() && (#[trigger] confirmed_form(es@[t])) is Some ==> {
                &&& valid_date(es@[t].entry_date)
                &&& four_digit_year(es@[t].entry_date)
                &&& prefixable(es@[t].je_number@)
            },
            dw == column_width(es@, 0, 6, i as int),
            jw == column_width(es@, 1, 7, i as int),
            mw == column_width(es@, 2, 20, i as int),
            aw == column_width(es@, 3, 10, i as int),
            dw <= 6 && mw <= 40 && aw <= 40 && jw + 96 <= usize::MAX,
            nd == non_deductible_count(es@, i as int),
            un == unreviewed_count(es@, i as int),
            nd <= i && un <= i,
        decreases es@.len() - i,
    {
        let e = &es[i];
        match entry_form(e) {
            Some(_) => {
                let (d, j, m, a) = column_texts(e);
                if d.len() > dw {
                    dw = d.len();
                }
                if j.len() > jw {
                    jw = j.len();
                }
                if m.len() > mw {
                    mw = m.len();
                }
                if a.len() > aw {
                    aw = a.len();
                }
            },
            None => {},
        }
        match &e.tag {
            Some(t) => {
                if t.status == TaxReviewStatus::NonDeductible {
                    nd = nd + 1;
                } else if t.status != TaxReviewStatus::Confirmed {
                    un = un + 1;
                }
            },
            None => {
                un = un + 1;
            },
        }
        i = i + 1;
    }
    (ColumnWidths { date: dw, je: jw, memo: mw, amount: aw }, nd, un)
}

/// The line of a confirmed entry.
fn entry_line_chars(e: &PostedEntryTag, w: ColumnWidths) -> (v: Vec<char>)
    requires
        valid_date(e.entry_date),
        four_digit_year(e.entry_date),
    ensures
        v@ == entry_line(*e, w),
{
    let (d, j, m, a) = column_texts(e);
    let mut v: Vec<char> = Vec::new();
    push_str(&mut v, "  ");
    push_pad_right(&mut v, &d, w.date);
    push_str(&mut v, "  ");
    push_pad_right(&mut v, &j, w.je);
    push_str(&mut v, "  ");
    push_pad_right(&mut v, &m, w.memo);
    push_str(&mut v, "  ");
    push_pad_left(&mut v, &a, w.amount);
    assert(v@ =~= entry_line(*e, w));
    v
}

/// The reason line of a confirmed entry.
fn reason_line_chars(e: &PostedEntryTag, w: ColumnWidths) -> (v: Vec<char>)
    requires
        w.date <= 6,
        w.je + 96 <= usize::MAX,
    ensures
        v@ == reason_line(*e, w),
{
    let mut v: Vec<char> = Vec::new();
    push_repeat(&mut v, ' ', 2 + w.date + 2 + w.je + 2);
    push_str(&mut v, "Reason: ");
    match &e.tag {
        Some(t) => match &t.reason {
            Some(r) => push_str(&mut v, r.as_str()),
            None => push_str(&mut v, "(no reason given)"),
        },
        None => push_str(&mut v, "(no reason given)"),
    }
    assert(v@ =~= reason_line(*e, w));
    v
}

/// A total line for `label` and `amount`.
fn total_line_chars(label: &str, amount: Money, extra: usize, w: ColumnWidths) -> (v: Vec<char>)
    requires
        w.date <= 6 && w.memo <= 40 && w.amount <= 40 && w.je + 96 <= usize::MAX,
        label@.len() <= 64,
        extra <= 2,
    ensures
        v@ == total_line(label@, money_text(amount.0 as int), extra as int, w),
{
    let amount_text = amount.to_string();
    let a = str_chars(amount_text.as_str());
    proof {
        lemma_money_text_len(amount.0);
    }
    let edge: usize = 2 + w.date + 2 + w.je + 2 + w.memo + 2 + w.amount;
    let used: usize = label.unicode_len() + extra + a.len();
    let pad: usize = if used < edge { edge - used } else { 0 };
    let mut v: Vec<char> = Vec::new();
    push_repeat(&mut v, ' ', pad);
    push_str(&mut v, label);
    push_str(&mut v, "  ");
    push_chars(&mut v, &a);
    assert(v@ =~= total_line(label@, money_text(amount.0 as int), extra as int, w));
    v
}

/// The entry lines, count and total of the confirmed entries of form `key`;
/// `grand` grows by each entry's amount.
fn form_entries(
    key: &String,
    es: &[PostedEntryTag],
    w: ColumnWidths,
    grand: Money,
) -> (r: (Vec<Vec<char>>, usize, Money, Money))
    requires
        w.date <= 6 && w.je + 96 <= usize::MAX,
        forall|i: int| 0 <= i < es@.len() && (#[trigger] confirmed_form(es@[i])) is Some ==> {
            &&& valid_date(es@[i].entry_date)
            &&& four_digit_year(es@[i].entry_date)
        },
        forall|k: int| 0 <= k <= es@.len() ==> i64::MIN <= #[trigger] form_total(es@, key@, k) <= i64::MAX
            && i64::MIN <= grand.0 + form_total(es@, key@, k) <= i64::MAX,
    ensures
        r.0@.map_values(|l: Vec<char>| l@) == form_entry_lines(es@, key@, w, es@.len() as int),
        r.1 == form_count(es@, key@, es@.len() as int),
        r.2.0 == form_total(es@, key@, es@.len() as int),
        r.3.0 == grand.0 + form_total(es@, key@, es@.len() as int),
{
    let mut lines: Vec<Vec<char>> = Vec::new();
    let mut count: usize = 0;
    let mut total = Money(0);
    let mut g = grand;
    let mut i: usize = 0;
    while i < es.len()
        invariant
            i <= es@.len(),
            w.date <= 6 && w.je + 96 <= usize::MAX,
            forall|t: int| 0 <= t < es@.len() && (#[trigger] confirmed_form(es@[t])) is Some ==> {
                &&& valid_date(es@[t].entry_date)
                &&& four_digit_year(es@[t].entry_date)
            },
            forall|k: int| 0 <= k <= es@.len() ==> i64::MIN <= #[trigger] form_total(es@, key@, k) <= i64::MAX
                && i64::MIN <= grand.0 + form_total(es@, key@, k) <= i64::MAX,
            lines@.map_values(|l: Vec<char>| l@) == form_entry_lines(es@, key@, w, i as int),
            count == form_count(es@, key@, i as int),
            count <= i,
            total.0 == form_total(es@, key@, i as int),
            g.0 == grand.0 + form_total(es@, key@, i as int),
        decreases es@.len() - i,
    {
        let e = &es[i];
        let matched = match entry_form(e) {
            Some(f) => *f == *key,
            None => false,
        };
        if matched {
            assert(confirmed_form(es@[i as int]) == Some(key@));
            assert(i64::MIN <= form_total(es@, key@, i + 1) <= i64::MAX);
            assert(i64::MIN <= grand.0 + form_total(es@, key@, i + 1) <= i64::MAX);
            total = Money(total.0 + e.total_debits.0);
            g = Money(g.0 + e.total_debits.0);
            count = count + 1;
            let l1 = entry_line_chars(e, w);
            let l2 = reason_line_chars(e, w);
            let ghost before = lines@.map_values(|l: Vec<char>| l@);
            lines.push(l1);
            lines.push(l2);
            assert(lines@.map_values(|l: Vec<char>| l@) =~= before + seq![entry_line(*e, w), reason_line(*e, w)]);
        } else {
            assert(confirmed_form(es@[i as int]) != Some(key@));
        }
        i = i + 1;
    }
    (lines, count, total, g)
}

/// The `N entry`/`N entries` line.
fn count_line(label: &str, n: usize, one: &str, many: &str) -> (v: Vec<char>)
    ensures
        v@ == count_text(label@, n as int, one@, many@),
{
    let mut v: Vec<char> = Vec::new();
    push_str(&mut v, label);
    push_decimal(&mut v, n as u64);
    push_str(&mut v, " ");
    if n == 1 {
        push_str(&mut v, one);
    } else {
        push_str(&mut v, many);
    }
    assert(v@ =~= count_text(label@, n as int, one@, many@));
    v
}

/// Appends lines to a list of lines.
fn append_lines(lines: &mut Vec<Vec<char>>, more: Vec<Vec<char>>)
    ensures
        final(lines)@.map_values(|l: Vec<char>| l@) == old(lines)@.map_values(|l: Vec<char>| l@) + more@.map_values(
            |l: Vec<char>| l@,
        ),
{
    let mut i: usize = 0;
    let ghost start = lines@.map_values(|l: Vec<char>| l@);
    let ghost mv = more@.map_values(|l: Vec<char>| l@);
    while i < more.len()
        invariant
            i <= more@.len(),
            mv == more@.map_values(|l: Vec<char>| l@),
            lines@.map_values(|l: Vec<char>| l@) == start + mv.take(i as int),
        decreases more@.len() - i,
    {
        let mut copy: Vec<char> = Vec::new();
        push_chars(&mut copy, &more[i]);
        let ghost before = lines@.map_values(|l: Vec<char>| l@);
        lines.push(copy);
        assert(lines@.map_values(|l: Vec<char>| l@) =~= before.push(mv[i as int]));
        assert(mv.take(i + 1) =~= mv.take(i as int).push(mv[i as int]));
        i = i + 1;
    }
    assert(mv.take(more@.len() as int) =~= mv);
}

impl TaxSummary {
    /// The report's name, used in file names.
    pub fn name(&self) -> (s: &'static str)
        ensures
            s@ == "TaxSummary"@,
    {
        "TaxSummary"
    }

    /// The full report for the range `start` to `end`, with the forms of the
    /// catalog in its order and the posted entries of the range (with their
    /// tags) in date order.
    pub fn generate(
        &self,
        entity_name: &str,
        start: Date,
        end: Date,
        forms: &[TaxFormInfo],
        entries: &[PostedEntryTag],
    ) -> (s: String)
        requires
            short_text(entity_name@),
            valid_date(start) && four_digit_year(start),
            valid_date(end) && four_digit_year(end),
            ts_input_ok(forms@, entries@),
        ensures
            exists|g: Seq<char>| is_stamp(g) && s@ == tax_summary_text(entity_name@, start, end, forms@, entries@, g),
    {
        let ghost fs = forms@;
        let ghost es = entries@;
        let date_label = range_label(start, end);
        proof {
            reveal_strlit("Tax Summary by Form");
        }
        let (header, hw) = format_header_measured(entity_name, "Tax Summary by Form", date_label.as_str());
        let ghost g = choose|g: Seq<char>| header@ == header_text(entity_name@, "Tax Summary by Form"@, date_label@, g)
            && hw == header_width(entity_name@, "Tax Summary by Form"@, date_label@, g);
        let mut sep: Vec<char> = Vec::new();
        push_repeat(&mut sep, BOX_H, hw);
        let (w, nd, un) = measure(entries);
        let mut lines: Vec<Vec<char>> = Vec::new();
        lines.push(str_chars(header.as_str()));
        lines.push(Vec::new());
        let ghost head = seq![header@, Seq::<char>::empty()];
        assert(lines@.map_values(|l: Vec<char>| l@) =~= head);
        let mut grand = Money(0);
        let mut any = false;
        let mut j: usize = 0;
        while j < forms.len()
            invariant
                fs == forms@,
                es == entries@,
                ts_input_ok(fs, es),
                j <= fs.len(),
                w == report_widths(es),
                w.date <= 6 && w.memo <= 40 && w.amount <= 40 && w.je + 96 <= usize::MAX,
                sep@ == repeat_char(BOX_H, hw as nat),
                head == seq![header@, Seq::<char>::empty()],
                lines@.map_values(|l: Vec<char>| l@) == head + sections(fs, es, w, sep@, j as int),
                grand.0 == grand_total(fs, es, j as int),
                any == any_listed(fs, es, j as int),
            decreases fs.len() - j,
        {
            let f = &forms[j];
            let key_chars = str_chars(f.key.as_str());
            let is_nd = crate::types::chars_equal(&key_chars, "non_deductible");
            let ghost before = lines@.map_values(|l: Vec<char>| l@);
            if !is_nd {
                assert forall|k: int| 0 <= k <= es.len() implies i64::MIN <= #[trigger] form_total(es, f.key@, k) <= i64::MAX
                    && i64::MIN <= grand.0 + form_total(es, f.key@, k) <= i64::MAX by {
                    assert(fs[j as int] == *f);
                }
                let (flines, count, total, g2) = form_entries(&f.key, entries, w, grand);
                if count > 0 {
                    let mut title: Vec<char> = Vec::new();
                    push_str(&mut title, f.display_name.as_str());
                    push_str(&mut title, " — ");
                    push_str(&mut title, f.description.as_str());
                    proof {
                        reveal_strlit(" — ");
                    }
                    assert(title@ =~= f.display_name@ + " — "@ + f.description@);
                    lines.push(title);
                    let mut sep_copy: Vec<char> = Vec::new();
                    push_chars(&mut sep_copy, &sep);
                    assert(sep_copy@ =~= sep@);
                    lines.push(sep_copy);
                    let ghost s1 = lines@.map_values(|l: Vec<char>| l@);
                    assert(s1 =~= before + seq![f.display_name@ + " — "@ + f.description@, sep@]);
                    let ghost fl = flines@.map_values(|l: Vec<char>| l@);
                    append_lines(&mut lines, flines);
                    let ghost s2 = lines@.map_values(|l: Vec<char>| l@);
                    assert(s2 == s1 + fl);
                    proof {
                        reveal_strlit("Total:");
                    }
                    let tl = total_line_chars("Total:", total, 1, w);
                    let ghost tlv = tl@;
                    lines.push(tl);
                    lines.push(Vec::new());
                    assert(lines@.map_values(|l: Vec<char>| l@) =~= s2 + seq![tlv, Seq::<char>::empty()]);
                    grand = g2;
                    any = true;
                    assert(key_chars@ == f.key@);
                    assert(f.key@ != non_deductible_key());
                    assert(section_listed(*f, es));
                    assert(form_section(*f, es, w, sep@) =~= seq![f.display_name@ + " — "@ + f.description@, sep@] + fl + seq![
                        total_line("Total:"@, money_text(form_total(es, f.key@, es.len() as int)), 1, w),
                        Seq::<char>::empty(),
                    ]);
                    assert(lines@.map_values(|l: Vec<char>| l@) =~= before + form_section(*f, es, w, sep@));
                } else {
                    assert(form_section(*f, es, w, sep@) =~= Seq::<Seq<char>>::empty());
                    assert(lines@.map_values(|l: Vec<char>| l@) =~= before + form_section(*f, es, w, sep@));
                }
            } else {
                proof {
                    reveal_strlit("non_deductible");
                }
                assert(form_section(*f, es, w, sep@) =~= Seq::<Seq<char>>::empty());
                assert(lines@.map_values(|l: Vec<char>| l@) =~= before + form_section(*f, es, w, sep@));
            }
            assert(fs[j as int] == *f);
            assert(sections(fs, es, w, sep@, j + 1) == sections(fs, es, w, sep@, j as int) + form_section(*f, es, w, sep@));
            assert(lines@.map_values(|l: Vec<char>| l@) =~= head + sections(fs, es, w, sep@, j + 1));
            j = j + 1;
        }
        let ghost mid = lines@.map_values(|l: Vec<char>| l@);
        if any {
            proof {
                reveal_strlit("Grand Total (confirmed):");
            }
            let gl = total_line_chars("Grand Total (confirmed):", grand, 2, w);
            lines.push(gl);
            let mut sep_copy: Vec<char> = Vec::new();
            push_chars(&mut sep_copy, &sep);
            assert(sep_copy@ =~= sep@);
            lines.push(sep_copy);
            lines.push(Vec::new());
        }
        let ghost with_grand = lines@.map_values(|l: Vec<char>| l@);
        let c1 = count_line("  Non-Deductible:  ", nd, "entry (not listed)", "entries (not listed)");
        let c2 = count_line("  Unreviewed:      ", un, "entry", "entries");
        lines.push(c1);
        lines.push(c2);
        lines.push(Vec::new());
        let mut marker: Vec<char> = Vec::new();
        let mlen = "— End of Report —".unicode_len();
        let pad: usize = (if mlen < hw { hw - mlen } else { 0 }) / 2;
        push_repeat(&mut marker, ' ', pad);
        push_str(&mut marker, "— End of Report —");
        assert(marker@ =~= marker_line(hw as int));
        let ghost before_counts = lines@.map_values(|l: Vec<char>| l@);
        lines.push(marker);
        proof {
            let n = es.len() as int;
            let f = fs.len() as int;
            let grand_part: Seq<Seq<char>> = if any_listed(fs, es, f) {
                seq![total_line("Grand Total (confirmed):"@, money_text(grand_total(fs, es, f)), 2, w), sep@, Seq::<char>::empty()]
            } else {
                Seq::empty()
            };
            assert(with_grand =~= mid + grand_part);
            let tail = seq![
                count_text("  Non-Deductible:  "@, non_deductible_count(es, n), "entry (not listed)"@, "entries (not listed)"@),
                count_text("  Unreviewed:      "@, unreviewed_count(es, n), "entry"@, "entries"@),
                Seq::<char>::empty(),
                marker_line(hw as int),
            ];
            assert(lines@.map_values(|l: Vec<char>| l@) =~= with_grand + tail);
            assert(body_lines(fs, es, hw as int) =~= seq![Seq::<char>::empty()] + sections(fs, es, w, sep@, f) + grand_part + tail);
            assert(lines@.map_values(|l: Vec<char>| l@) =~= seq![header@] + body_lines(fs, es, hw as int));
        }
        let mut out: Vec<char> = Vec::new();
        push_lines(&mut out, &lines);
        assert(out@ =~= tax_summary_text(entity_name@, start, end, fs, es, g));
        string_from_chars(&out)
    }
}

} // verus!
