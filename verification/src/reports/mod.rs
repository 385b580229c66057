//! Shared report formatting: box-drawing tables with auto-sized columns.
//!
//! Every report body is rendered by [`format_table`]: a top border, a header
//! row, a separator, one row per data row, a bottom border, a blank line and
//! a centred end-of-report marker. Column widths are the widest of the header
//! label and every data cell in that column, counted in characters.

use vstd::prelude::*;
use vstd::string::StringSliceAdditionalSpecFns;
use crate::text::{repeat_char, join_lines, push_repeat, push_str, push_chars, string_from_chars, str_chars};
use crate::date::Date;
use crate::money::{Money, money_text};
use crate::types::AccountId;

pub mod builders;
pub mod trial_balance;
pub mod ar_aging;
pub mod sections;
pub mod balance_sheet;
pub mod income_statement;
pub mod account_detail;
pub mod fixed_asset_schedule;
pub mod cash_flow;
pub mod envelope_budget;
pub mod tax_summary;

verus! {

/// What a report is asked for.
#[derive(Debug, Clone)]
pub struct ReportParams {
    /// Display name of the entity for the report header.
    pub entity_name: String,
    /// The date of a point-in-time report (Balance Sheet, Trial Balance).
    pub as_of_date: Option<Date>,
    /// The range of a period report (Income Statement, Cash Flow, AR Aging).
    pub date_range: Option<(Date, Date)>,
    /// The account of the Account Detail report.
    pub account_id: Option<AccountId>,
}

/// A money amount as it appears in reports: `1,234.56`, `-42.50`.
pub fn format_money(amount: Money) -> (s: String)
    ensures
        s@ == money_text(amount.0 as int),
{
    amount.to_string()
}

/// Horizontal line segment.
pub const BOX_H: char = '─';
/// Vertical line segment.
pub const BOX_V: char = '│';
/// Top-left corner.
pub const BOX_TL: char = '┌';
/// Top-right corner.
pub const BOX_TR: char = '┐';
/// Bottom-left corner.
pub const BOX_BL: char = '└';
/// Bottom-right corner.
pub const BOX_BR: char = '┘';
/// Top T-junction.
pub const BOX_TM: char = '┬';
/// Bottom T-junction.
pub const BOX_BM: char = '┴';
/// Left T-junction.
pub const BOX_ML: char = '├';
/// Right T-junction.
pub const BOX_MR: char = '┤';
/// Cross junction.
pub const BOX_MM: char = '┼';

/// Column text alignment.
#[derive(Debug, Clone, Copy, PartialEq, Eq, Structural)]
pub enum Align {
    Left,
    Right,
}

/// Parts joined with `sep` between consecutive parts.
pub open spec fn join_with(parts: Seq<Seq<char>>, sep: char) -> Seq<char>
    decreases parts.len(),
{
    if parts.len() == 0 {
        Seq::empty()
    } else if parts.len() == 1 {
        parts[0]
    } else {
        join_with(parts.drop_last(), sep) + seq![sep] + parts.last()
    }
}

/// A horizontal border: each column segment is `width + 2` horizontal lines.
pub open spec fn border_text(widths: Seq<usize>, left: char, mid: char, right: char) -> Seq<char> {
    seq![left] + join_with(Seq::new(widths.len(), |i: int| repeat_char(BOX_H, (widths[i] + 2) as nat)), mid)
        + seq![right]
}

/// Number of padding spaces that bring `len` characters up to `width`.
pub open spec fn pad_count(len: int, width: int) -> nat {
    if len < width { (width - len) as nat } else { 0 }
}

/// One cell, aligned within `width` characters, with one space on each side.
pub open spec fn cell_text(cell: Seq<char>, width: int, align: Align) -> Seq<char> {
    let pad = repeat_char(' ', pad_count(cell.len() as int, width));
    match align {
        Align::Left => seq![' '] + cell + pad + seq![' '],
        Align::Right => seq![' '] + pad + cell + seq![' '],
    }
}

/// A table row: cells separated and enclosed by vertical lines.
pub open spec fn row_text(cells: Seq<Seq<char>>, widths: Seq<int>, aligns: Seq<Align>) -> Seq<char> {
    seq![BOX_V] + join_with(
        Seq::new(cells.len(), |i: int| cell_text(cells[i], widths[i], aligns[i])),
        BOX_V,
    ) + seq![BOX_V]
}

/// The alignment of column `i`; columns past the given alignments are left-aligned.
pub open spec fn align_at(aligns: Seq<Align>, i: int) -> Align {
    if 0 <= i < aligns.len() { aligns[i] } else { Align::Left }
}

/// Width of column `i` over the header and the first `k` rows.
pub open spec fn column_width_upto(headers: Seq<Seq<char>>, rows: Seq<Seq<Seq<char>>>, i: int, k: int) -> int
    decreases k,
{
    if k <= 0 {
        headers[i].len() as int
    } else {
        let prev = column_width_upto(headers, rows, i, k - 1);
        let cell_len = if i < rows[k - 1].len() { rows[k - 1][i].len() as int } else { 0 };
        if cell_len > prev { cell_len } else { prev }
    }
}

/// Width of column `i`: the widest of its header and all its data cells.
pub open spec fn column_width(headers: Seq<Seq<char>>, rows: Seq<Seq<Seq<char>>>, i: int) -> int {
    column_width_upto(headers, rows, i, rows.len() as int)
}

/// All column widths of a table.
pub open spec fn column_widths(headers: Seq<Seq<char>>, rows: Seq<Seq<Seq<char>>>) -> Seq<usize> {
    Seq::new(headers.len(), |i: int| column_width(headers, rows, i) as usize)
}

/// The cells of one data row, padded out (or cut) to `ncols` cells.
pub open spec fn data_cells(row: Seq<Seq<char>>, ncols: nat) -> Seq<Seq<char>> {
    Seq::new(ncols, |i: int| if i < row.len() { row[i] } else { Seq::<char>::empty() })
}

/// The end-of-report marker.
pub open spec fn end_marker() -> Seq<char> {
    "— End of Report —"@
}

/// The text of header labels.
pub open spec fn headers_view(headers: Seq<&str>) -> Seq<Seq<char>> {
    headers.map_values(|h: &str| h@)
}

/// The text of data rows.
pub open spec fn rows_view(rows: Seq<Vec<String>>) -> Seq<Seq<Seq<char>>> {
    rows.map_values(|r: Vec<String>| r@.map_values(|c: String| c@))
}

/// The complete text of a table, line by line.
pub open spec fn table_lines(headers: Seq<Seq<char>>, rows: Seq<Seq<Seq<char>>>, aligns: Seq<Align>) -> Seq<
    Seq<char>,
> {
    let n = headers.len();
    let w = column_widths(headers, rows);
    let wi = Seq::new(n, |i: int| w[i] as int);
    let al = Seq::new(n, |i: int| align_at(aligns, i));
    let top = border_text(w, BOX_TL, BOX_TM, BOX_TR);
    let marker_pad = (if top.len() >= end_marker().len() { top.len() - end_marker().len() } else { 0 }) / 2;
    seq![
        top,
        row_text(headers, wi, al),
        border_text(w, BOX_ML, BOX_MM, BOX_MR),
    ] + Seq::new(rows.len(), |r: int| row_text(data_cells(rows[r], n), wi, al)) + seq![
        border_text(w, BOX_BL, BOX_BM, BOX_BR),
        Seq::<char>::empty(),
        repeat_char(' ', marker_pad as nat) + end_marker(),
    ]
}

/// The complete text of a table.
pub open spec fn table_text(headers: Seq<Seq<char>>, rows: Seq<Seq<Seq<char>>>, aligns: Seq<Align>) -> Seq<char> {
    join_lines(table_lines(headers, rows, aligns))
}

/// Columns past the given alignments are left-aligned: padding the alignments
/// with `Left` up to the number of columns gives the same table.
pub proof fn lemma_missing_alignments_are_left(headers: Seq<Seq<char>>, rows: Seq<Seq<Seq<char>>>, aligns: Seq<Align>)
    requires
        aligns.len() <= headers.len(),
    ensures
        table_text(headers, rows, aligns) == table_text(
            headers,
            rows,
            aligns + Seq::new((headers.len() - aligns.len()) as nat, |i: int| Align::Left),
        ),
{
    let n = headers.len();
    let a2 = aligns + Seq::new((headers.len() - aligns.len()) as nat, |i: int| Align::Left);
    assert(Seq::new(n, |i: int| align_at(aligns, i)) =~= Seq::new(n, |i: int| align_at(a2, i)));
    assert(table_lines(headers, rows, aligns) == table_lines(headers, rows, a2));
}

/// The data rows cut or padded with empty cells to `n` cells each.
pub open spec fn fitted_rows(rows: Seq<Seq<Seq<char>>>, n: nat) -> Seq<Seq<Seq<char>>> {
    Seq::new(rows.len(), |r: int| data_cells(rows[r], n))
}

proof fn lemma_width_fitted(headers: Seq<Seq<char>>, rows: Seq<Seq<Seq<char>>>, i: int, k: int)
    requires
        0 <= i < headers.len(),
        0 <= k <= rows.len(),
    ensures
        column_width_upto(headers, rows, i, k) == column_width_upto(headers, fitted_rows(rows, headers.len()), i, k),
    decreases k,
{
    if k > 0 {
        lemma_width_fitted(headers, rows, i, k - 1);
    }
}

/// Cells beyond the header columns are ignored and missing cells render
/// empty: a table of the rows cut or padded to the number of columns is the
/// same table.
pub proof fn lemma_extra_cells_ignored(headers: Seq<Seq<char>>, rows: Seq<Seq<Seq<char>>>, aligns: Seq<Align>)
    ensures
        table_text(headers, rows, aligns) == table_text(headers, fitted_rows(rows, headers.len()), aligns),
{
    let n = headers.len();
    let f = fitted_rows(rows, n);
    assert forall|i: int| 0 <= i < n implies column_width(headers, rows, i) == column_width(headers, f, i) by {
        lemma_width_fitted(headers, rows, i, rows.len() as int);
    }
    assert(column_widths(headers, rows) =~= column_widths(headers, f));
    assert forall|r: int| 0 <= r < rows.len() implies data_cells(rows[r], n) == data_cells(f[r], n) by {
        assert(data_cells(rows[r], n) =~= data_cells(f[r], n));
    }
    let w = column_widths(headers, rows);
    let wi = Seq::new(n, |i: int| w[i] as int);
    let al = Seq::new(n, |i: int| align_at(aligns, i));
    assert(Seq::new(rows.len(), |r: int| row_text(data_cells(rows[r], n), wi, al)) =~= Seq::new(
        f.len(),
        |r: int| row_text(data_cells(f[r], n), wi, al),
    ));
    assert(table_lines(headers, rows, aligns) =~= table_lines(headers, f, aligns));
}

/// Every header and cell is short enough that its width plus padding fits in a `usize`.
pub open spec fn cells_fit(headers: Seq<Seq<char>>, rows: Seq<Seq<Seq<char>>>) -> bool {
    &&& forall|i: int| 0 <= i < headers.len() ==> #[trigger] headers[i].len() + 2 <= usize::MAX
    &&& forall|r: int, i: int|
        0 <= r < rows.len() && 0 <= i < rows[r].len() ==> #[trigger] rows[r][i].len() + 2
            <= usize::MAX
}

/// Appends `parts` joined by `sep`; each part is given by one vector of characters.
fn push_joined(out: &mut Vec<char>, parts: &Vec<Vec<char>>, sep: char)
    ensures
        final(out)@ == old(out)@ + join_with(parts@.map_values(|p: Vec<char>| p@), sep),
{
    let ghost views = parts@.map_values(|p: Vec<char>| p@);
    let mut k: usize = 0;
    while k < parts.len()
        invariant
            k <= parts@.len(),
            views == parts@.map_values(|p: Vec<char>| p@),
            out@ == old(out)@ + join_with(views.take(k as int), sep),
        decreases parts@.len() - k,
    {
        let ghost before = out@;
        if k > 0 {
            out.push(sep);
        }
        push_chars(out, &parts[k]);
        let ghost t = views.take(k + 1);
        assert(t.drop_last() =~= views.take(k as int));
        assert(t.last() == parts@[k as int]@);
        if k == 0 {
            assert(t.len() == 1);
            assert(join_with(views.take(0), sep) =~= Seq::<char>::empty());
        }
        assert(out@ =~= old(out)@ + join_with(t, sep));
        k = k + 1;
    }
    assert(views.take(parts@.len() as int) =~= views);
}

/// Builds one horizontal border line.
pub fn h_border(widths: &[usize], left: char, mid: char, right: char) -> (s: String)
    requires
        forall|i: int| 0 <= i < widths@.len() ==> #[trigger] widths@[i] + 2 <= usize::MAX,
    ensures
        s@ == border_text(widths@, left, mid, right),
{
    let v = border_chars(widths, left, mid, right);
    string_from_chars(&v)
}

fn border_chars(widths: &[usize], left: char, mid: char, right: char) -> (v: Vec<char>)
    requires
        forall|i: int| 0 <= i < widths@.len() ==> #[trigger] widths@[i] + 2 <= usize::MAX,
    ensures
        v@ == border_text(widths@, left, mid, right),
{
    let mut segments: Vec<Vec<char>> = Vec::new();
    let mut i: usize = 0;
    while i < widths.len()
        invariant
            i <= widths@.len(),
            forall|j: int| 0 <= j < widths@.len() ==> #[trigger] widths@[j] + 2 <= usize::MAX,
            segments@.len() == i,
            forall|j: int|
                0 <= j < i ==> #[trigger] segments@[j]@ == repeat_char(BOX_H, (widths@[j] + 2) as nat),
        decreases widths@.len() - i,
    {
        let mut seg: Vec<char> = Vec::new();
        push_repeat(&mut seg, BOX_H, widths[i] + 2);
        assert(seg@ =~= repeat_char(BOX_H, (widths@[i as int] + 2) as nat));
        segments.push(seg);
        i = i + 1;
    }
    let mut v: Vec<char> = Vec::new();
    v.push(left);
    push_joined(&mut v, &segments, mid);
    v.push(right);
    assert(segments@.map_values(|p: Vec<char>| p@) =~= Seq::new(
        widths@.len(),
        |i: int| repeat_char(BOX_H, (widths@[i] + 2) as nat),
    ));
    assert(v@ =~= border_text(widths@, left, mid, right));
    v
}

/// Pads `cell` within `width` characters with one space on each side.
pub fn align_cell(cell: &str, width: usize, align: Align) -> (s: String)
    ensures
        s@ == cell_text(cell@, width as int, align),
{
    let v = cell_chars(cell, width, align);
    string_from_chars(&v)
}

fn cell_chars(cell: &str, width: usize, align: Align) -> (v: Vec<char>)
    ensures
        v@ == cell_text(cell@, width as int, align),
{
    let len = cell.unicode_len();
    let pad: usize = if len < width { width - len } else { 0 };
    let mut v: Vec<char> = Vec::new();
    v.push(' ');
    match align {
        Align::Left => {
            push_str(&mut v, cell);
            push_repeat(&mut v, ' ', pad);
        },
        Align::Right => {
            push_repeat(&mut v, ' ', pad);
            push_str(&mut v, cell);
        },
    }
    v.push(' ');
    assert(v@ =~= cell_text(cell@, width as int, align));
    v
}

/// The width used for cell `i` of a row: the column width, or the cell's byte
/// length when no width is given for that column.
pub open spec fn width_at(cells: Seq<&str>, widths: Seq<usize>, i: int) -> int {
    if i < widths.len() { widths[i] as int } else { (cells[i].spec_bytes().len() as usize) as int }
}

fn row_chars(cells: &[&str], widths: &[usize], alignments: &[Align]) -> (v: Vec<char>)
    ensures
        v@ == row_text(
            Seq::new(cells@.len(), |i: int| cells@[i]@),
            Seq::new(cells@.len(), |i: int| width_at(cells@, widths@, i)),
            Seq::new(cells@.len(), |i: int| align_at(alignments@, i)),
        ),
{
    let mut parts: Vec<Vec<char>> = Vec::new();
    let mut i: usize = 0;
    while i < cells.len()
        invariant
            i <= cells@.len(),
            parts@.len() == i,
            forall|j: int|
                0 <= j < i ==> #[trigger] parts@[j]@ == cell_text(
                    cells@[j]@,
                    width_at(cells@, widths@, j),
                    align_at(alignments@, j),
                ),
        decreases cells@.len() - i,
    {
        let w: usize = if i < widths.len() { widths[i] } else { cells[i].len() };
        let a: Align = if i < alignments.len() { alignments[i] } else { Align::Left };
        let part = cell_chars(cells[i], w, a);
        parts.push(part);
        i = i + 1;
    }
    let mut v: Vec<char> = Vec::new();
    v.push(BOX_V);
    push_joined(&mut v, &parts, BOX_V);
    v.push(BOX_V);
    let ghost cs = Seq::new(cells@.len(), |i: int| cells@[i]@);
    let ghost ws = Seq::new(cells@.len(), |i: int| width_at(cells@, widths@, i));
    let ghost al = Seq::new(cells@.len(), |i: int| align_at(alignments@, i));
    assert(parts@.map_values(|p: Vec<char>| p@) =~= Seq::new(
        cs.len(),
        |i: int| cell_text(cs[i], ws[i], al[i]),
    ));
    assert(v@ =~= row_text(cs, ws, al));
    v
}

/// Builds one table row with vertical separators. Column `i` uses `widths[i]`
/// (or the cell's byte length past the end of `widths`) and `alignments[i]`
/// (or left alignment past the end of `alignments`).
pub fn table_row(cells: &[&str], widths: &[usize], alignments: &[Align]) -> (s: String)
    ensures
        s@ == row_text(
            Seq::new(cells@.len(), |i: int| cells@[i]@),
            Seq::new(cells@.len(), |i: int| width_at(cells@, widths@, i)),
            Seq::new(cells@.len(), |i: int| align_at(alignments@, i)),
        ),
{
    let v = row_chars(cells, widths, alignments);
    string_from_chars(&v)
}

/// Appends `lines` joined by newlines.
pub(crate) fn push_lines(out: &mut Vec<char>, lines: &Vec<Vec<char>>)
    ensures
        final(out)@ == old(out)@ + join_lines(lines@.map_values(|l: Vec<char>| l@)),
{
    let ghost views = lines@.map_values(|l: Vec<char>| l@);
    let mut k: usize = 0;
    while k < lines.len()
        invariant
            k <= lines@.len(),
            views == lines@.map_values(|l: Vec<char>| l@),
            out@ == old(out)@ + join_lines(views.take(k as int)),
        decreases lines@.len() - k,
    {
        if k > 0 {
            out.push('\n');
        }
        push_chars(out, &lines[k]);
        let ghost t = views.take(k + 1);
        assert(t.drop_last() =~= views.take(k as int));
        if k == 0 {
            assert(join_lines(views.take(0)) =~= Seq::<char>::empty());
        }
        assert(out@ =~= old(out)@ + join_lines(t));
        k = k + 1;
    }
    assert(views.take(lines@.len() as int) =~= views);
}

/// Computes the column widths of a table.
fn compute_widths(headers: &[&str], rows: &[Vec<String>]) -> (w: Vec<usize>)
    requires
        cells_fit(headers_view(headers@), rows_view(rows@)),
    ensures
        w@ == column_widths(headers_view(headers@), rows_view(rows@)),
        forall|i: int| 0 <= i < w@.len() ==> #[trigger] w@[i] + 2 <= usize::MAX,
{
    let ncols = headers.len();
    let ghost hv = headers_view(headers@);
    let ghost rv = rows_view(rows@);
    let mut widths: Vec<usize> = Vec::new();
    let mut i: usize = 0;
    while i < ncols
        invariant
            ncols == headers@.len(),
            i <= ncols,
            widths@.len() == i,
            hv == headers_view(headers@),
            forall|j: int| 0 <= j < i ==> #[trigger] widths@[j] == column_width_upto(hv, rv, j, 0),
        decreases ncols - i,
    {
        widths.push(headers[i].unicode_len());
        assert(hv[i as int] == headers@[i as int]@);
        i = i + 1;
    }
    let mut r: usize = 0;
    while r < rows.len()
        invariant
            ncols == headers@.len(),
            hv == headers_view(headers@),
            rv == rows_view(rows@),
            cells_fit(hv, rv),
            r <= rows@.len(),
            widths@.len() == ncols,
            forall|j: int| 0 <= j < ncols ==> #[trigger] widths@[j] == column_width_upto(hv, rv, j, r as int),
            forall|j: int| 0 <= j < ncols ==> #[trigger] widths@[j] + 2 <= usize::MAX,
        decreases rows@.len() - r,
    {
        let row = &rows[r];
        let mut c: usize = 0;
        while c < ncols
            invariant
                ncols == headers@.len(),
                hv == headers_view(headers@),
                rv == rows_view(rows@),
                cells_fit(hv, rv),
                r < rows@.len(),
                row == rows@[r as int],
                c <= ncols,
                widths@.len() == ncols,
                forall|j: int| 0 <= j < c ==> #[trigger] widths@[j] == column_width_upto(hv, rv, j, r + 1),
                forall|j: int| c <= j < ncols ==> #[trigger] widths@[j] == column_width_upto(hv, rv, j, r as int),
                forall|j: int| 0 <= j < ncols ==> #[trigger] widths@[j] + 2 <= usize::MAX,
            decreases ncols - c,
        {
            if c < row.len() {
                let len = row[c].as_str().unicode_len();
                assert(len == rv[r as int][c as int].len());
                if len > widths[c] {
                    widths.set(c, len);
                }
            }
            assert(rv[r as int].len() == row@.len());
            assert(widths@[c as int] == column_width_upto(hv, rv, c as int, r + 1));
            c = c + 1;
        }
        r = r + 1;
    }
    assert(widths@ =~= column_widths(hv, rv));
    widths
}

/// Generates a box-drawing table with auto-calculated column widths.
///
/// Column widths are the maximum of the header label width and the widest data
/// cell in that column. Columns beyond `alignments` are left-aligned; data cells
/// beyond the header count are ignored and missing cells are blank.
pub fn format_table(headers: &[&str], rows: &[Vec<String>], alignments: &[Align]) -> (s: String)
    requires
        cells_fit(headers_view(headers@), rows_view(rows@)),
    ensures
        s@ == table_text(headers_view(headers@), rows_view(rows@), alignments@),
{
    let ncols = headers.len();
    let ghost hv = headers_view(headers@);
    let ghost rv = rows_view(rows@);
    let widths = compute_widths(headers, rows);
    let ghost w = widths@;
    let ghost wi = Seq::new(ncols as nat, |i: int| w[i] as int);
    let ghost al = Seq::new(ncols as nat, |i: int| align_at(alignments@, i));

    let mut lines: Vec<Vec<char>> = Vec::new();
    let top = border_chars(widths.as_slice(), BOX_TL, BOX_TM, BOX_TR);
    let top_len = top.len();
    lines.push(top);

    let header_line = row_chars(headers, widths.as_slice(), alignments);
    assert(Seq::new(headers@.len(), |i: int| width_at(headers@, widths@, i)) =~= wi);
    assert(Seq::new(headers@.len(), |i: int| align_at(alignments@, i)) =~= al);
    assert(Seq::new(headers@.len(), |i: int| headers@[i]@) =~= hv);
    lines.push(header_line);
    lines.push(border_chars(widths.as_slice(), BOX_ML, BOX_MM, BOX_MR));

    let mut r: usize = 0;
    while r < rows.len()
        invariant
            ncols == headers@.len(),
            widths@ == w,
            hv == headers_view(headers@),
            rv == rows_view(rows@),
            w == column_widths(hv, rv),
            wi == Seq::new(ncols as nat, |i: int| w[i] as int),
            al == Seq::new(ncols as nat, |i: int| align_at(alignments@, i)),
            r <= rows@.len(),
            lines@.len() == 3 + r,
            lines@[0]@ == border_text(w, BOX_TL, BOX_TM, BOX_TR),
            lines@[1]@ == row_text(hv, wi, al),
            lines@[2]@ == border_text(w, BOX_ML, BOX_MM, BOX_MR),
            forall|k: int|
                0 <= k < r ==> #[trigger] lines@[3 + k]@ == row_text(data_cells(rv[k], ncols as nat), wi, al),
        decreases rows@.len() - r,
    {
        let row = &rows[r];
        let mut cells: Vec<&str> = Vec::new();
        let mut c: usize = 0;
        while c < ncols
            invariant
                r < rows@.len(),
                rv == rows_view(rows@),
                row == rows@[r as int],
                c <= ncols,
                cells@.len() == c,
                forall|j: int|
                    0 <= j < c ==> #[trigger] cells@[j]@ == data_cells(rv[r as int], ncols as nat)[j],
            decreases ncols - c,
        {
            if c < row.len() {
                cells.push(row[c].as_str());
            } else {
                proof {
                    reveal_strlit("");
                }
                cells.push("");
            }
            c = c + 1;
        }
        let line = row_chars(cells.as_slice(), widths.as_slice(), alignments);
        assert(Seq::new(cells@.len(), |i: int| cells@[i]@) =~= data_cells(rv[r as int], ncols as nat));
        assert(Seq::new(cells@.len(), |i: int| width_at(cells@, widths@, i)) =~= wi);
        assert(Seq::new(cells@.len(), |i: int| align_at(alignments@, i)) =~= al);
        lines.push(line);
        r = r + 1;
    }

    lines.push(border_chars(widths.as_slice(), BOX_BL, BOX_BM, BOX_BR));
    lines.push(Vec::new());

    let marker = "— End of Report —";
    let marker_len = marker.unicode_len();
    let left_pad: usize = (if top_len >= marker_len { top_len - marker_len } else { 0 }) / 2;
    let mut marker_line: Vec<char> = Vec::new();
    push_repeat(&mut marker_line, ' ', left_pad);
    push_str(&mut marker_line, marker);
    lines.push(marker_line);

    let ghost tl = table_lines(hv, rv, alignments@);
    let ghost views = lines@.map_values(|l: Vec<char>| l@);
    assert(top_len == tl[0].len());
    assert(marker_line@ =~= tl[tl.len() - 1]);
    assert(views.len() == tl.len());
    assert forall|k: int| 0 <= k < tl.len() implies views[k] == tl[k] by {
        if 3 <= k < 3 + rows@.len() {
            assert(lines@[3 + (k - 3)]@ == row_text(data_cells(rv[k - 3], ncols as nat), wi, al));
        }
    }
    let mut out: Vec<char> = Vec::new();
    push_lines(&mut out, &lines);
    assert(lines@.map_values(|l: Vec<char>| l@) =~= table_lines(hv, rv, alignments@));
    string_from_chars(&out)
}


/// The accounting basis line of every report header.
pub open spec fn basis_label() -> Seq<char> {
    "Accrual Basis"@
}

/// Inner width of a header box: the longest line, at least 40, plus 4.
pub open spec fn header_inner_width(lens: Seq<int>) -> int
    decreases lens.len(),
{
    if lens.len() == 0 {
        44
    } else {
        let rest = header_inner_width(lens.drop_last());
        if lens.last() + 4 > rest { lens.last() + 4 } else { rest }
    }
}

/// A line centred in a box of inner width `inner`, extra space going right.
pub open spec fn centered_line(s: Seq<char>, inner: int) -> Seq<char> {
    let pad: int = if s.len() < inner { inner - s.len() } else { 0 };
    seq![BOX_V] + repeat_char(' ', (pad / 2) as nat) + s + repeat_char(' ', (pad - pad / 2) as nat)
        + seq![BOX_V]
}

/// The text of a report header box with the given generation stamp.
pub open spec fn header_text(entity: Seq<char>, title: Seq<char>, date_info: Seq<char>, generated: Seq<char>) -> Seq<char> {
    let inner = header_inner_width(
        seq![entity.len() as int, title.len() as int, date_info.len() as int, basis_label().len() as int, generated.len() as int],
    );
    join_lines(
        seq![
            seq![BOX_TL] + repeat_char(BOX_H, inner as nat) + seq![BOX_TR],
            centered_line(entity, inner),
            centered_line(title, inner),
            centered_line(date_info, inner),
            centered_line(basis_label(), inner),
            centered_line(generated, inner),
            seq![BOX_BL] + repeat_char(BOX_H, inner as nat) + seq![BOX_BR],
        ],
    )
}

/// The pattern of the time in the "Generated:" stamp.
pub open spec fn stamp_pattern() -> Seq<char> {
    "%b %-d, %Y %-I:%M %p"@
}

/// Text on one line: no line break in it.
pub open spec fn single_line(s: Seq<char>) -> bool {
    forall|i: int| 0 <= i < s.len() ==> s[i] != '\n'
}

/// A generation stamp: `Generated: ` and then a one-line time.
pub open spec fn is_stamp(g: Seq<char>) -> bool {
    &&& g.len() >= 11
    &&& g.take(11) == "Generated: "@
    &&& single_line(g)
}

/// The local clock formatted by chrono (`Local::now().format(pattern)`), for
/// the stamp pattern. Claimed: chrono renders each specifier of that pattern
/// (`%b` a three-letter month, `%-d` the day, `%Y` the year, `%-I` the hour,
/// `%M` the minutes, `%p` AM or PM) without a line break and passes the
/// literal characters through, so the text is one line of at most 40
/// characters. The clock's value itself is not claimed.
#[verifier::external_body]
fn local_now_format(pattern: &str) -> (s: String)
    requires
        pattern@ == stamp_pattern(),
    ensures
        single_line(s@),
        s@.len() <= 40,
{
    chrono::Local::now().format(pattern).to_string()
}

/// The "Generated: ..." stamp of the local clock.
fn generated_stamp() -> (s: String)
    ensures
        is_stamp(s@),
        s@.len() <= 51,
{
    let mut v: Vec<char> = str_chars("Generated: ");
    let t = local_now_format("%b %-d, %Y %-I:%M %p");
    push_str(&mut v, t.as_str());
    proof {
        reveal_strlit("Generated: ");
        assert(v@.take(11) =~= "Generated: "@);
        assert forall|i: int| 0 <= i < v@.len() implies v@[i] != '\n' by {
            if i >= 11 {
                assert(v@[i] == t@[i - 11]);
            }
        }
    }
    string_from_chars(&v)
}

fn centered_chars(s: &Vec<char>, inner: usize) -> (v: Vec<char>)
    ensures
        v@ == centered_line(s@, inner as int),
{
    let pad: usize = if s.len() < inner { inner - s.len() } else { 0 };
    let mut v: Vec<char> = Vec::new();
    v.push(BOX_V);
    push_repeat(&mut v, ' ', pad / 2);
    push_chars(&mut v, s);
    push_repeat(&mut v, ' ', pad - pad / 2);
    v.push(BOX_V);
    assert(v@ =~= centered_line(s@, inner as int));
    v
}

/// Builds a report header box around the entity name, title, date line,
/// accounting basis and the given generation stamp. All lines have the same width;
/// the inner width is the longest line (at least 40) plus 4.
pub fn format_header_with(entity: &str, title: &str, date_info: &str, generated: &str) -> (s: String)
    requires
        entity@.len() + 4 <= usize::MAX,
        title@.len() + 4 <= usize::MAX,
        date_info@.len() + 4 <= usize::MAX,
        generated@.len() + 4 <= usize::MAX,
    ensures
        s@ == header_text(entity@, title@, date_info@, generated@),
{
    let e = str_chars(entity);
    let t = str_chars(title);
    let d = str_chars(date_info);
    let b = str_chars("Accrual Basis");
    let g = str_chars(generated);
    proof {
        reveal_strlit("Accrual Basis");
    }
    let lens: [usize; 5] = [e.len(), t.len(), d.len(), b.len(), g.len()];
    let ghost ls = seq![e@.len() as int, t@.len() as int, d@.len() as int, b@.len() as int, g@.len() as int];
    let mut inner: usize = 44;
    let mut k: usize = 0;
    while k < 5
        invariant
            k <= 5,
            lens@ == seq![e@.len() as usize, t@.len() as usize, d@.len() as usize, b@.len() as usize, g@.len() as usize],
            ls == seq![e@.len() as int, t@.len() as int, d@.len() as int, b@.len() as int, g@.len() as int],
            forall|j: int| 0 <= j < 5 ==> #[trigger] ls[j] + 4 <= usize::MAX,
            inner as int == header_inner_width(ls.take(k as int)),
        decreases 5 - k,
    {
        let ghost t2 = ls.take(k + 1);
        assert(t2.drop_last() =~= ls.take(k as int));
        if lens[k] + 4 > inner {
            inner = lens[k] + 4;
        }
        k = k + 1;
    }
    assert(ls.take(5) =~= ls);
    let mut top: Vec<char> = Vec::new();
    top.push(BOX_TL);
    push_repeat(&mut top, BOX_H, inner);
    top.push(BOX_TR);
    let mut bottom: Vec<char> = Vec::new();
    bottom.push(BOX_BL);
    push_repeat(&mut bottom, BOX_H, inner);
    bottom.push(BOX_BR);
    let l1 = centered_chars(&e, inner);
    let l2 = centered_chars(&t, inner);
    let l3 = centered_chars(&d, inner);
    let l4 = centered_chars(&b, inner);
    let l5 = centered_chars(&g, inner);
    assert(top@ =~= seq![BOX_TL] + repeat_char(BOX_H, inner as nat) + seq![BOX_TR]);
    assert(bottom@ =~= seq![BOX_BL] + repeat_char(BOX_H, inner as nat) + seq![BOX_BR]);
    let mut lines: Vec<Vec<char>> = Vec::new();
    lines.push(top);
    lines.push(l1);
    lines.push(l2);
    lines.push(l3);
    lines.push(l4);
    lines.push(l5);
    lines.push(bottom);
    let mut out: Vec<char> = Vec::new();
    push_lines(&mut out, &lines);
    assert(lines@.map_values(|l: Vec<char>| l@) =~= seq![
        seq![BOX_TL] + repeat_char(BOX_H, inner as nat) + seq![BOX_TR],
        centered_line(entity@, inner as int),
        centered_line(title@, inner as int),
        centered_line(date_info@, inner as int),
        centered_line(basis_label(), inner as int),
        centered_line(generated@, inner as int),
        seq![BOX_BL] + repeat_char(BOX_H, inner as nat) + seq![BOX_BR],
    ]);
    string_from_chars(&out)
}

/// The width in characters of every line of a header box.
pub open spec fn header_width(entity: Seq<char>, title: Seq<char>, date_info: Seq<char>, generated: Seq<char>) -> int {
    header_inner_width(
        seq![entity.len() as int, title.len() as int, date_info.len() as int, basis_label().len() as int, generated.len() as int],
    ) + 2
}

/// The inner width of a header box for texts of the given lengths.
fn inner_width(lens: [usize; 5]) -> (w: usize)
    requires
        forall|j: int| 0 <= j < 5 ==> #[trigger] lens@[j] + 4 <= usize::MAX,
    ensures
        w == header_inner_width(Seq::new(5, |j: int| lens@[j] as int)),
{
    let ghost ls = Seq::new(5, |j: int| lens@[j] as int);
    let mut inner: usize = 44;
    let mut k: usize = 0;
    while k < 5
        invariant
            k <= 5,
            ls == Seq::new(5, |j: int| lens@[j] as int),
            forall|j: int| 0 <= j < 5 ==> #[trigger] lens@[j] + 4 <= usize::MAX,
            inner as int == header_inner_width(ls.take(k as int)),
        decreases 5 - k,
    {
        let ghost t2 = ls.take(k + 1);
        assert(t2.drop_last() =~= ls.take(k as int));
        if lens[k] + 4 > inner {
            inner = lens[k] + 4;
        }
        k = k + 1;
    }
    assert(ls.take(5) =~= ls);
    inner
}

/// Builds a report header box stamped with the current local time, with the
/// width of its lines.
pub fn format_header_measured(entity: &str, title: &str, date_info: &str) -> (r: (String, usize))
    requires
        entity@.len() + 6 <= usize::MAX,
        title@.len() + 6 <= usize::MAX,
        date_info@.len() + 6 <= usize::MAX,
    ensures
        exists|g: Seq<char>| is_stamp(g) && r.0@ == header_text(entity@, title@, date_info@, g)
            && r.1 == header_width(entity@, title@, date_info@, g),
{
    let stamp = generated_stamp();
    let g: &str = stamp.as_str();
    proof {
        reveal_strlit("Accrual Basis");
    }
    let s = format_header_with(entity, title, date_info, g);
    let lens: [usize; 5] = [
        entity.unicode_len(),
        title.unicode_len(),
        date_info.unicode_len(),
        "Accrual Basis".unicode_len(),
        g.unicode_len(),
    ];
    let inner = inner_width(lens);
    assert(Seq::new(5, |j: int| lens@[j] as int) =~= seq![
        entity@.len() as int,
        title@.len() as int,
        date_info@.len() as int,
        basis_label().len() as int,
        g@.len() as int,
    ]);
    assert(inner + 2 <= usize::MAX) by {
        lemma_header_inner_bound(Seq::new(5, |j: int| lens@[j] as int));
    }
    (s, inner + 2)
}

/// The inner width of a header is at least 44 and at most the longest line plus 4.
proof fn lemma_header_inner_bound(lens: Seq<int>)
    requires
        forall|j: int| 0 <= j < lens.len() ==> #[trigger] lens[j] + 6 <= usize::MAX,
    ensures
        header_inner_width(lens) + 2 <= usize::MAX,
        header_inner_width(lens) >= 44,
    decreases lens.len(),
{
    if lens.len() > 0 {
        lemma_header_inner_bound(lens.drop_last());
    }
}

/// Builds a report header box stamped with the current local time.
pub fn format_header(entity: &str, title: &str, date_info: &str) -> (s: String)
    requires
        entity@.len() + 4 <= usize::MAX,
        title@.len() + 4 <= usize::MAX,
        date_info@.len() + 4 <= usize::MAX,
    ensures
        exists|g: Seq<char>| is_stamp(g) && s@ == header_text(entity@, title@, date_info@, g),
{
    let stamp = generated_stamp();
    format_header_with(entity, title, date_info, stamp.as_str())
}

} // verus!
