//! Fixed Asset Schedule report.
//!
//! Every fixed asset with its in-service date, useful life, cost basis,
//! accumulated depreciation and book value, followed by the column totals.
//! Assets not yet in service show `CIP`; assets without a life show `N/A`.

use vstd::prelude::*;
use crate::reports::is_stamp;
use crate::assets::FixedAssetWithDetails;
use crate::date::{Date, valid_date, four_digit_year, long_text, iso_text};
use crate::money::{Money, money_text};
use crate::reports::{Align, header_text, table_text, headers_view, rows_view};
use crate::reports::builders::{
    short_text, rows_short, lemma_rows_short_concat, document_text, money_cell, blank, copy_text, literal,
    assemble, prefixed, lemma_money_short,
};
use crate::text::{decimal_digits, decimal_string, lemma_decimal_digits_len};

verus! {

/// The Fixed Asset Schedule report.
pub struct FixedAssetSchedule;

/// The in-service cell: the ISO date, or `CIP` when not yet in service.
pub open spec fn in_service_text(d: Option<Date>) -> Seq<char> {
    match d {
        Some(d) => iso_text(d),
        None => "CIP"@,
    }
}

/// The life cell: the months in decimal, or `N/A`.
pub open spec fn life_text(m: Option<u32>) -> Seq<char> {
    match m {
        Some(m) => decimal_digits(m as nat),
        None => "N/A"@,
    }
}

/// The row of one asset.
pub open spec fn fa_line(a: FixedAssetWithDetails) -> Seq<Seq<char>> {
    seq![
        a.account_number@,
        a.account_name@,
        in_service_text(a.detail.in_service_date),
        life_text(a.detail.useful_life_months),
        money_text(a.detail.cost_basis.0 as int),
        money_text(a.accumulated_depreciation.0 as int),
        money_text(a.book_value.0 as int),
    ]
}

/// Total cost basis of the first `k` assets.
pub open spec fn cost_total(assets: Seq<FixedAssetWithDetails>, k: int) -> int
    decreases k,
{
    if k <= 0 { 0 } else { cost_total(assets, k - 1) + assets[k - 1].detail.cost_basis.0 }
}

/// Total accumulated depreciation of the first `k` assets.
pub open spec fn accum_total(assets: Seq<FixedAssetWithDetails>, k: int) -> int
    decreases k,
{
    if k <= 0 { 0 } else { accum_total(assets, k - 1) + assets[k - 1].accumulated_depreciation.0 }
}

/// Total book value of the first `k` assets.
pub open spec fn book_total(assets: Seq<FixedAssetWithDetails>, k: int) -> int
    decreases k,
{
    if k <= 0 { 0 } else { book_total(assets, k - 1) + assets[k - 1].book_value.0 }
}

/// All table rows: one per asset, then the totals row.
pub open spec fn fa_table_rows(assets: Seq<FixedAssetWithDetails>) -> Seq<Seq<Seq<char>>> {
    let e = Seq::<char>::empty();
    let n = assets.len() as int;
    Seq::new(assets.len(), |i: int| fa_line(assets[i])) + seq![
        seq![
            e,
            "TOTAL"@,
            e,
            e,
            money_text(cost_total(assets, n)),
            money_text(accum_total(assets, n)),
            money_text(book_total(assets, n)),
        ],
    ]
}

/// Column labels.
pub open spec fn fa_headers() -> Seq<Seq<char>> {
    seq!["Acct #"@, "Asset Name"@, "In-Service Date"@, "Life (mo.)"@, "Cost Basis"@, "Accum. Depr."@, "Book Value"@]
}

/// Column alignments.
pub open spec fn fa_aligns() -> Seq<Align> {
    seq![Align::Left, Align::Left, Align::Left, Align::Right, Align::Right, Align::Right, Align::Right]
}

/// Inputs the report accepts: each asset's book value is its cost basis less
/// its accumulated depreciation (as [`crate::assets::with_book_value`] builds
/// it), real in-service dates with four-digit years, short texts, column
/// totals within `i64`.
pub open spec fn fa_input_ok(assets: Seq<FixedAssetWithDetails>) -> bool {
    &&& forall|i: int| 0 <= i < assets.len() ==> {
        &&& (#[trigger] assets[i]).book_value.0 == assets[i].detail.cost_basis.0 - assets[i].accumulated_depreciation.0
        &&& assets[i].detail.in_service_date matches Some(d) ==> valid_date(d) && four_digit_year(d)
        &&& short_text(assets[i].account_number@)
        &&& short_text(assets[i].account_name@)
    }
    &&& forall|k: int| 0 <= k <= assets.len() ==> i64::MIN <= #[trigger] cost_total(assets, k) <= i64::MAX
    &&& forall|k: int| 0 <= k <= assets.len() ==> i64::MIN <= #[trigger] accum_total(assets, k) <= i64::MAX
    &&& forall|k: int| 0 <= k <= assets.len() ==> i64::MIN <= #[trigger] book_total(assets, k) <= i64::MAX
}

/// When every asset's book value is its cost basis less its accumulated
/// depreciation, the same holds of the column totals.
pub proof fn lemma_schedule_totals_consistent(assets: Seq<FixedAssetWithDetails>, k: int)
    requires
        0 <= k <= assets.len(),
        forall|i: int| 0 <= i < assets.len() ==> (#[trigger] assets[i]).book_value.0 == assets[i].detail.cost_basis.0
            - assets[i].accumulated_depreciation.0,
    ensures
        book_total(assets, k) == cost_total(assets, k) - accum_total(assets, k),
    decreases k,
{
    if k > 0 {
        lemma_schedule_totals_consistent(assets, k - 1);
        assert(assets[k - 1].book_value.0 == assets[k - 1].detail.cost_basis.0 - assets[k - 1].accumulated_depreciation.0);
    }
}

fn in_service_cell(d: Option<Date>) -> (s: String)
    requires
        d matches Some(d) ==> valid_date(d) && four_digit_year(d),
    ensures
        s@ == in_service_text(d),
        short_text(s@),
{
    match d {
        Some(d) => {
            proof {
                crate::date::lemma_iso_text_short(d);
            }
            d.to_iso_string()
        },
        None => {
            proof {
                reveal_strlit("CIP");
            }
            literal("CIP")
        },
    }
}

fn life_cell(m: Option<u32>) -> (s: String)
    ensures
        s@ == life_text(m),
        short_text(s@),
{
    match m {
        Some(m) => {
            proof {
                reveal_with_fuel(crate::money::pow10, 11);
                crate::money::lemma_decimal_len_bound(m as nat, 10);
            }
            decimal_string(m as u64)
        },
        None => {
            proof {
                reveal_strlit("N/A");
            }
            literal("N/A")
        },
    }
}

impl FixedAssetSchedule {
    /// The report's name, used in file names.
    pub fn name(&self) -> (s: &'static str)
        ensures
            s@ == "FixedAssetSchedule"@,
    {
        "FixedAssetSchedule"
    }

    /// The table rows for the fixed assets in account-number order.
    pub fn rows(&self, assets: &[FixedAssetWithDetails]) -> (rows: Vec<Vec<String>>)
        requires
            fa_input_ok(assets@),
        ensures
            rows_view(rows@) == fa_table_rows(assets@),
            rows_short(rows_view(rows@)),
    {
        let ghost xs = assets@;
        let n = assets.len();
        let mut rows: Vec<Vec<String>> = Vec::new();
        let mut total_cost = Money(0);
        let mut total_accum = Money(0);
        let mut total_book = Money(0);
        let mut i: usize = 0;
        while i < n
            invariant
                n == xs.len(),
                xs == assets@,
                fa_input_ok(xs),
                i <= n,
                rows_view(rows@) == Seq::new(i as nat, |j: int| fa_line(xs[j])),
                rows_short(rows_view(rows@)),
                total_cost.0 == cost_total(xs, i as int),
                total_accum.0 == accum_total(xs, i as int),
                total_book.0 == book_total(xs, i as int),
            decreases n - i,
        {
            let asset = &assets[i];
            assert(i64::MIN <= cost_total(xs, i + 1) <= i64::MAX);
            assert(i64::MIN <= accum_total(xs, i + 1) <= i64::MAX);
            assert(i64::MIN <= book_total(xs, i + 1) <= i64::MAX);
            total_cost = Money(total_cost.0 + asset.detail.cost_basis.0);
            total_accum = Money(total_accum.0 + asset.accumulated_depreciation.0);
            total_book = Money(total_book.0 + asset.book_value.0);
            let mut row: Vec<String> = Vec::new();
            row.push(copy_text(&asset.account_number));
            row.push(copy_text(&asset.account_name));
            row.push(in_service_cell(asset.detail.in_service_date));
            row.push(life_cell(asset.detail.useful_life_months));
            row.push(money_cell(asset.detail.cost_basis));
            row.push(money_cell(asset.accumulated_depreciation));
            row.push(money_cell(asset.book_value));
            let ghost before = rows_view(rows@);
            assert(row@.map_values(|c: String| c@) =~= fa_line(xs[i as int]));
            rows.push(row);
            proof {
                assert(rows_view(rows@) =~= before.push(fa_line(xs[i as int])));
                assert(rows_view(rows@) =~= Seq::new((i + 1) as nat, |j: int| fa_line(xs[j])));
                let tail = seq![fa_line(xs[i as int])];
                assert(rows_short(tail));
                lemma_rows_short_concat(before, tail);
                assert(before + tail =~= before.push(fa_line(xs[i as int])));
            }
            i = i + 1;
        }
        let mut total_row: Vec<String> = Vec::new();
        total_row.push(blank());
        total_row.push(literal("TOTAL"));
        total_row.push(blank());
        total_row.push(blank());
        total_row.push(money_cell(total_cost));
        total_row.push(money_cell(total_accum));
        total_row.push(money_cell(total_book));
        let ghost body = rows_view(rows@);
        let ghost e = Seq::<char>::empty();
        proof {
            reveal_strlit("TOTAL");
        }
        let ghost tail = seq![
            seq![
                e,
                "TOTAL"@,
                e,
                e,
                money_text(total_cost.0 as int),
                money_text(total_accum.0 as int),
                money_text(total_book.0 as int),
            ],
        ];
        assert(total_row@.map_values(|c: String| c@) =~= tail[0]);
        rows.push(total_row);
        proof {
            assert(rows_view(rows@) =~= body + tail);
            assert(rows_view(rows@) =~= fa_table_rows(xs));
            lemma_money_short(total_cost.0);
            lemma_money_short(total_accum.0);
            lemma_money_short(total_book.0);
            assert(rows_short(tail));
            lemma_rows_short_concat(body, tail);
        }
        rows
    }

    /// The full report document as of `as_of`.
    pub fn generate(&self, entity_name: &str, as_of: Date, assets: &[FixedAssetWithDetails]) -> (s: String)
        requires
            short_text(entity_name@),
            valid_date(as_of),
            four_digit_year(as_of),
            fa_input_ok(assets@),
        ensures
            exists|g: Seq<char>| is_stamp(g) &&
                s@ == document_text(
                    header_text(entity_name@, "Fixed Asset Schedule"@, "As of "@ + long_text(as_of), g),
                    table_text(fa_headers(), fa_table_rows(assets@), fa_aligns()),
                ),
    {
        let rows = self.rows(assets);
        let long = as_of.to_long_string();
        let date_label = prefixed("As of ", long.as_str());
        let headers: [&str; 7] = [
            "Acct #",
            "Asset Name",
            "In-Service Date",
            "Life (mo.)",
            "Cost Basis",
            "Accum. Depr.",
            "Book Value",
        ];
        let alignments: [Align; 7] = [
            Align::Left,
            Align::Left,
            Align::Left,
            Align::Right,
            Align::Right,
            Align::Right,
            Align::Right,
        ];
        proof {
            reveal_strlit("Acct #");
            reveal_strlit("Asset Name");
            reveal_strlit("In-Service Date");
            reveal_strlit("Life (mo.)");
            reveal_strlit("Cost Basis");
            reveal_strlit("Accum. Depr.");
            reveal_strlit("Book Value");
            reveal_strlit("Fixed Asset Schedule");
            reveal_strlit("As of ");
            assert(headers_view(headers@) =~= fa_headers());
            assert(alignments@ =~= fa_aligns());
            crate::date::lemma_long_text_short(as_of);
        }
        assemble(entity_name, "Fixed Asset Schedule", date_label.as_str(), &headers, rows.as_slice(), &alignments)
    }
}

} // verus!
