//! Building blocks shared by the report generators: cells and whole documents.

use vstd::prelude::*;
use crate::reports::is_stamp;
use crate::money::{Money, money_text, lemma_money_text_len};
use crate::date::{Date, valid_date, four_digit_year, long_text, lemma_long_text_short};
use crate::reports::{header_text, table_text, format_header, format_table, Align, cells_fit, headers_view, rows_view};

verus! {

/// Text that leaves room for padding and short prefixes within a `usize` length.
pub open spec fn short_text(s: Seq<char>) -> bool {
    s.len() + 64 <= usize::MAX
}

/// Text short enough to stay short after a prefix of up to 32 characters.
pub open spec fn prefixable(s: Seq<char>) -> bool {
    s.len() + 96 <= usize::MAX
}

/// Every cell of every row is short.
pub open spec fn rows_short(rows: Seq<Seq<Seq<char>>>) -> bool {
    forall|r: int, i: int| 0 <= r < rows.len() && 0 <= i < rows[r].len() ==> #[trigger] short_text(rows[r][i])
}

/// Joining two lists of short rows gives short rows.
pub proof fn lemma_rows_short_concat(a: Seq<Seq<Seq<char>>>, b: Seq<Seq<Seq<char>>>)
    requires
        rows_short(a),
        rows_short(b),
    ensures
        rows_short(a + b),
{
    let ab = a + b;
    assert forall|r: int, i: int| 0 <= r < ab.len() && 0 <= i < ab[r].len() implies #[trigger] short_text(ab[r][i]) by {
        if r < a.len() {
            assert(ab[r] == a[r]);
        } else {
            assert(ab[r] == b[r - a.len()]);
        }
    }
}

/// Every label is short.
pub open spec fn labels_short(labels: Seq<Seq<char>>) -> bool {
    forall|i: int| 0 <= i < labels.len() ==> #[trigger] short_text(labels[i])
}

/// A report document: header box, newline, table.
pub open spec fn document_text(header: Seq<char>, table: Seq<char>) -> Seq<char> {
    header + seq!['\n'] + table
}

/// The text of a money amount is short.
pub proof fn lemma_money_short(v: i64)
    ensures
        short_text(money_text(v as int)),
{
    lemma_money_text_len(v);
}

/// A cell holding a formatted amount.
pub fn money_cell(m: Money) -> (s: String)
    ensures
        s@ == money_text(m.0 as int),
        short_text(s@),
{
    proof {
        lemma_money_text_len(m.0);
    }
    m.to_string()
}

/// An empty cell.
pub fn blank() -> (s: String)
    ensures
        s@ == Seq::<char>::empty(),
{
    String::new()
}

/// A cell holding `prefix` followed by `s`.
pub fn prefixed(prefix: &str, s: &str) -> (r: String)
    ensures
        r@ == prefix@ + s@,
{
    let mut r = String::from_str(prefix);
    r.append(s);
    r
}

/// The text of an optional string, empty when absent.
pub open spec fn opt_text(o: Option<String>) -> Seq<char> {
    match o {
        Some(s) => s@,
        None => Seq::empty(),
    }
}

/// A cell holding an optional string, empty when absent.
pub fn copy_opt_text(o: &Option<String>) -> (r: String)
    ensures
        r@ == opt_text(*o),
{
    match o {
        Some(s) => s.clone(),
        None => String::new(),
    }
}

/// A copy of a string.
pub fn copy_text(s: &String) -> (r: String)
    ensures
        r@ == s@,
{
    s.clone()
}

/// A cell holding the text of a literal.
pub fn literal(s: &str) -> (r: String)
    ensures
        r@ == s@,
{
    String::from_str(s)
}

/// The date line of a report over a range: `START – END` in long form.
pub open spec fn range_text(start: Date, end: Date) -> Seq<char> {
    long_text(start) + " – "@ + long_text(end)
}

/// The date line of a report over a range.
pub fn range_label(start: Date, end: Date) -> (s: String)
    requires
        valid_date(start) && four_digit_year(start),
        valid_date(end) && four_digit_year(end),
    ensures
        s@ == range_text(start, end),
        short_text(s@),
{
    let mut s = start.to_long_string();
    s.append(" – ");
    let e = end.to_long_string();
    s.append(e.as_str());
    proof {
        reveal_strlit(" – ");
        lemma_long_text_short(start);
        lemma_long_text_short(end);
    }
    s
}

/// The file name of a report saved on `d`: the report name, then the date as
/// `MM-DD-YYYY`, then `.txt`.
pub open spec fn report_file_text(name: Seq<char>, d: Date) -> Seq<char> {
    name + crate::text::zero_padded(d.month as nat, 2) + seq!['-'] + crate::text::zero_padded(d.day as nat, 2)
        + seq!['-'] + crate::text::zero_padded(d.year as nat, 4) + ".txt"@
}

/// The file name of a report saved on `d`.
pub fn report_file_name(name: &str, d: Date) -> (s: String)
    requires
        0 <= d.year,
    ensures
        s@ == report_file_text(name@, d),
{
    let mut v: Vec<char> = crate::text::str_chars(name);
    crate::text::push_zero_padded(&mut v, d.month as u64, 2);
    v.push('-');
    crate::text::push_zero_padded(&mut v, d.day as u64, 2);
    v.push('-');
    crate::text::push_zero_padded(&mut v, d.year as u64, 4);
    crate::text::push_str(&mut v, ".txt");
    assert(v@ =~= report_file_text(name@, d));
    crate::text::string_from_chars(&v)
}

/// Puts a header and a table together into one report document.
pub fn assemble(
    entity: &str,
    title: &str,
    date_info: &str,
    headers: &[&str],
    rows: &[Vec<String>],
    alignments: &[Align],
) -> (s: String)
    requires
        short_text(entity@),
        short_text(title@),
        short_text(date_info@),
        labels_short(headers_view(headers@)),
        rows_short(rows_view(rows@)),
    ensures
        exists|g: Seq<char>| is_stamp(g) &&
            s@ == document_text(
                header_text(entity@, title@, date_info@, g),
                table_text(headers_view(headers@), rows_view(rows@), alignments@),
            ),
{
    proof {
        let hv = headers_view(headers@);
        let rv = rows_view(rows@);
        assert forall|i: int| 0 <= i < hv.len() implies #[trigger] hv[i].len() + 2 <= usize::MAX by {
            assert(short_text(hv[i]));
        }
        assert forall|r: int, i: int| 0 <= r < rv.len() && 0 <= i < rv[r].len() implies #[trigger] rv[r][i].len() + 2
            <= usize::MAX by {
            assert(short_text(rv[r][i]));
        }
        assert(cells_fit(hv, rv));
    }
    let header = format_header(entity, title, date_info);
    let ghost g = choose|g: Seq<char>| header@ == header_text(entity@, title@, date_info@, g);
    let table = format_table(headers, rows, alignments);
    let mut out = header;
    out.append("\n");
    out.append(table.as_str());
    proof {
        reveal_strlit("\n");
        assert(out@ =~= document_text(
            header_text(entity@, title@, date_info@, g),
            table_text(headers_view(headers@), rows_view(rows@), alignments@),
        ));
    }
    out
}

} // verus!
