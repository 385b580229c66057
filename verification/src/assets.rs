//! Fixed assets: straight-line depreciation schedules and placing an asset in service.
//!
//! Month `k` of an asset's life (1-based) is dated on the first day of the
//! `k`-th month after the in-service date. Each month depreciates
//! `cost_basis / useful_life_months` (integer division, truncated toward zero),
//! and the final month absorbs the remainder, so the amounts of all months of
//! the life add up to the cost basis exactly.

use vstd::prelude::*;
use crate::date::{Date, date_le, first_of_month, month_index, month_start_after};
use crate::ledger::{NewJournalEntry, NewJournalEntryLine};
use crate::money::Money;
use crate::text::{decimal_digits, push_decimal, push_str, string_from_chars};
use crate::types::{AccountId, FiscalPeriodId, FixedAssetDetailId};

verus! {

/// A fixed-asset record, including both optional account links.
#[derive(Debug, Clone)]
pub struct FixedAssetDetail {
    pub id: FixedAssetDetailId,
    pub account_id: AccountId,
    pub cost_basis: Money,
    pub in_service_date: Option<Date>,
    pub useful_life_months: Option<u32>,
    pub is_depreciable: bool,
    pub source_cip_account_id: Option<AccountId>,
    pub accum_depreciation_account_id: Option<AccountId>,
    pub depreciation_expense_account_id: Option<AccountId>,
}

/// Data needed to register a fixed asset directly.
#[derive(Debug, Clone)]
pub struct NewFixedAssetDetails {
    pub cost_basis: Money,
    pub in_service_date: Option<Date>,
    pub useful_life_months: Option<u32>,
    pub is_depreciable: bool,
    /// Linked contra-asset account (accumulated depreciation).
    pub accum_depreciation_account_id: Option<AccountId>,
    /// Linked expense account (depreciation expense).
    pub depreciation_expense_account_id: Option<AccountId>,
}

/// A fixed asset with its derived figures.
#[derive(Debug, Clone)]
pub struct FixedAssetWithDetails {
    pub detail: FixedAssetDetail,
    pub account_name: String,
    pub account_number: String,
    /// Net posted credits to the accumulated-depreciation account.
    pub accumulated_depreciation: Money,
    /// `cost_basis - accumulated_depreciation`.
    pub book_value: Money,
}

/// A depreciable asset in service, with both accounts linked.
#[derive(Debug, Clone)]
pub struct DepreciableAsset {
    pub account_id: AccountId,
    pub cost_basis: Money,
    pub in_service_date: Date,
    pub useful_life_months: u32,
    pub accum_id: AccountId,
    pub expense_id: AccountId,
    pub name: String,
}

/// One month of depreciation to be recorded.
#[derive(Debug, Clone, Copy, PartialEq, Eq, Structural)]
pub struct DepreciationMonth {
    /// First day of the month the depreciation is recorded in.
    pub entry_date: Date,
    /// Position of the month in the asset's life, from 1.
    pub month_number: u32,
    pub amount: Money,
}

/// Why placing an asset in service is refused.
#[derive(Debug, Clone, Copy, PartialEq, Eq, Structural)]
pub enum AssetError {
    /// The construction-in-progress account has no positive balance to transfer.
    NoCipBalance,
    /// The fiscal period of the in-service date is closed.
    PeriodClosed,
}

/// The message of a refused placing in service.
pub open spec fn asset_error_text(e: AssetError) -> Seq<char> {
    match e {
        AssetError::NoCipBalance => "CIP account has no positive balance to transfer"@,
        AssetError::PeriodClosed => "Fiscal period for in_service_date is closed"@,
    }
}

impl AssetError {
    /// The user-facing message of this refusal.
    pub fn message(&self) -> (s: String)
        ensures
            s@ == asset_error_text(*self),
    {
        match self {
            AssetError::NoCipBalance => String::from_str("CIP account has no positive balance to transfer"),
            AssetError::PeriodClosed => String::from_str("Fiscal period for in_service_date is closed"),
        }
    }
}

/// Integer division truncated toward zero, as Rust's `/` on integers.
pub open spec fn trunc_div(a: int, b: int) -> int {
    if a >= 0 { a / b } else { -((-a) / b) }
}

/// The regular monthly amount of an asset.
pub open spec fn monthly_amount(cost: int, life: int) -> int {
    trunc_div(cost, life)
}

/// The amount of the month with 0-based index `idx`: the regular amount,
/// except the final month of the life, which takes what is left.
pub open spec fn month_amount(cost: int, life: int, idx: int) -> int {
    if idx + 1 == life {
        cost - monthly_amount(cost, life) * idx
    } else {
        monthly_amount(cost, life)
    }
}

/// Total of the amounts of the first `k` months.
pub open spec fn amounts_total(cost: int, life: int, k: int) -> int
    decreases k,
{
    if k <= 0 { 0 } else { amounts_total(cost, life, k - 1) + month_amount(cost, life, k - 1) }
}

/// The date of month `k` (1-based) of an asset placed in service on `start`.
pub open spec fn depreciation_date(start: Date, k: int) -> Date {
    first_of_month(month_index(start) + k)
}

/// How many of the months with 0-based index below `m` fall on or before `end`.
pub open spec fn months_due(start: Date, end: Date, m: int) -> int
    decreases m,
{
    if m <= 0 {
        0
    } else {
        months_due(start, end, m - 1) + if date_le(depreciation_date(start, m), end) { 1int } else { 0int }
    }
}

/// The schedule's dates stay inside the calendar range.
pub open spec fn schedule_in_range(start: Date, life: int) -> bool {
    &&& 1 <= start.month <= 12
    &&& start.year + (start.month + life) / 12 <= 262_142
    &&& start.year >= -262_142
}

/// The pending months, in order, of an asset of which `generated` months are
/// recorded already, through `end`.
pub open spec fn pending_months(a: DepreciableAsset, generated: int, end: Date) -> Seq<DepreciationMonth> {
    let life = a.useful_life_months as int;
    let due = months_due(a.in_service_date, end, life);
    let count = if due > generated { due - generated } else { 0 };
    Seq::new(count as nat, |j: int| DepreciationMonth {
        entry_date: depreciation_date(a.in_service_date, generated + j + 1),
        month_number: (generated + j + 1) as u32,
        amount: Money(month_amount(a.cost_basis.0 as int, life, generated + j) as i64),
    })
}

/// The regular amount times a month index below the life stays within the cost.
pub proof fn lemma_monthly_bound(cost: int, life: int, idx: int)
    requires
        life > 0,
        0 <= idx < life,
    ensures
        cost >= 0 ==> 0 <= monthly_amount(cost, life) * idx <= cost,
        cost < 0 ==> cost <= monthly_amount(cost, life) * idx <= 0,
{
    if cost >= 0 {
        let q = cost / life;
        assert(q * life <= cost) by (nonlinear_arith)
            requires q == cost / life, life > 0, cost >= 0;
        assert(0 <= q * idx <= q * life) by (nonlinear_arith)
            requires q >= 0, 0 <= idx < life, q == cost / life, life > 0, cost >= 0;
    } else {
        let q = (-cost) / life;
        assert(q * life <= -cost) by (nonlinear_arith)
            requires q == (-cost) / life, life > 0, cost < 0;
        assert(0 <= q * idx <= q * life) by (nonlinear_arith)
            requires q >= 0, 0 <= idx < life, q == (-cost) / life, life > 0, cost < 0;
        assert((-q) * idx == -(q * idx)) by (nonlinear_arith);
    }
}

/// The first `k` months of a life shorter than `k + 1` months add up to `k`
/// regular amounts.
pub proof fn lemma_amounts_total_regular(cost: int, life: int, k: int)
    requires
        life > 0,
        0 <= k < life,
    ensures
        amounts_total(cost, life, k) == monthly_amount(cost, life) * k,
    decreases k,
{
    if k > 0 {
        lemma_amounts_total_regular(cost, life, k - 1);
        let q = monthly_amount(cost, life);
        assert(month_amount(cost, life, k - 1) == q);
        assert(amounts_total(cost, life, k) == amounts_total(cost, life, k - 1) + q);
        assert(q * (k - 1) + q == q * k) by (nonlinear_arith);
    } else {
        assert(monthly_amount(cost, life) * 0 == 0) by (nonlinear_arith);
    }
}

/// Straight-line depreciation with the final month absorbing the remainder:
/// the amounts of all months of the useful life add up to the cost basis exactly.
pub proof fn lemma_schedule_totals_cost_basis(cost: int, life: int)
    requires
        life > 0,
    ensures
        amounts_total(cost, life, life) == cost,
{
    lemma_amounts_total_regular(cost, life, life - 1);
}

/// The number of due months never exceeds the number of months considered.
pub proof fn lemma_months_due_bound(start: Date, end: Date, m: int)
    requires
        m >= 0,
    ensures
        0 <= months_due(start, end, m) <= m,
    decreases m,
{
    if m > 0 {
        lemma_months_due_bound(start, end, m - 1);
    }
}

/// The regular monthly amount of an asset.
fn monthly(cost: i64, life: u32) -> (q: i64)
    requires
        life > 0,
    ensures
        q == monthly_amount(cost as int, life as int),
{
    if cost >= 0 {
        let q: u64 = (cost as u64) / (life as u64);
        assert(q <= cost);
        q as i64
    } else {
        let pos: u64 = (-(cost as i128)) as u64;
        let q: u64 = pos / (life as u64);
        assert(q <= pos);
        let neg: i128 = -(q as i128);
        neg as i64
    }
}

/// The amount of the month with 0-based index `idx`.
fn amount_of_month(cost: i64, life: u32, idx: u32) -> (m: Money)
    requires
        life > 0,
        idx < life,
    ensures
        m.0 == month_amount(cost as int, life as int, idx as int),
{
    let q = monthly(cost, life);
    if idx + 1 == life {
        proof {
            lemma_monthly_bound(cost as int, life as int, idx as int);
        }
        let taken: i64 = q * (idx as i64);
        Money(cost - taken)
    } else {
        Money(q)
    }
}

/// Counts the months of the life whose date falls on or before `end`.
fn count_months_due(start: Date, life: u32, end: Date) -> (n: u32)
    requires
        schedule_in_range(start, life as int),
    ensures
        n == months_due(start, end, life as int),
{
    let mut count: u32 = 0;
    let mut k: u32 = 0;
    while k < life
        invariant
            k <= life,
            schedule_in_range(start, life as int),
            count == months_due(start, end, k as int),
        decreases life - k,
    {
        proof {
            lemma_months_due_bound(start, end, k as int);
        }
        let d = month_start_after(start, k + 1);
        if d.le(&end) {
            count = count + 1;
        }
        k = k + 1;
    }
    count
}

/// The depreciation months still to be recorded for an asset through the
/// fiscal period ending on `period_end`, given how many months were already
/// recorded. An asset whose life is used up yields nothing.
pub fn pending_depreciation(asset: &DepreciableAsset, months_generated: u32, period_end: Date) -> (r: Vec<
    DepreciationMonth,
>)
    requires
        schedule_in_range(asset.in_service_date, asset.useful_life_months as int),
    ensures
        r@ == pending_months(*asset, months_generated as int, period_end),
{
    let life = asset.useful_life_months;
    let mut out: Vec<DepreciationMonth> = Vec::new();
    if months_generated >= life {
        proof {
            lemma_months_due_bound(asset.in_service_date, period_end, life as int);
        }
        assert(out@ =~= pending_months(*asset, months_generated as int, period_end));
        return out;
    }
    let total = count_months_due(asset.in_service_date, life, period_end);
    proof {
        lemma_months_due_bound(asset.in_service_date, period_end, life as int);
    }
    let ghost target = pending_months(*asset, months_generated as int, period_end);
    let mut idx: u32 = months_generated;
    while idx < total
        invariant
            months_generated <= idx,
            months_generated < life,
            total <= life,
            idx <= total || total <= months_generated,
            total <= months_generated ==> idx == months_generated,
            total == months_due(asset.in_service_date, period_end, life as int),
            schedule_in_range(asset.in_service_date, life as int),
            life == asset.useful_life_months,
            target == pending_months(*asset, months_generated as int, period_end),
            out@.len() == idx - months_generated,
            forall|j: int| 0 <= j < out@.len() ==> #[trigger] out@[j] == target[j],
        decreases total - idx,
    {
        let date = month_start_after(asset.in_service_date, idx + 1);
        let amount = amount_of_month(asset.cost_basis.0, life, idx);
        let m = DepreciationMonth { entry_date: date, month_number: idx + 1, amount };
        assert(m == target[(idx - months_generated) as int]);
        out.push(m);
        idx = idx + 1;
    }
    assert(target.len() == out@.len());
    assert(out@ =~= target);
    out
}

/// The memo of a depreciation entry: `Monthly depreciation: NAME — Month K of LIFE`.
pub open spec fn depreciation_memo_text(name: Seq<char>, k: int, life: int) -> Seq<char> {
    "Monthly depreciation: "@ + name + " — Month "@ + decimal_digits(k as nat) + " of "@
        + decimal_digits(life as nat)
}

/// The memo of a depreciation entry.
pub fn depreciation_memo(name: &str, month_number: u32, life: u32) -> (s: String)
    ensures
        s@ == depreciation_memo_text(name@, month_number as int, life as int),
{
    let mut v: Vec<char> = Vec::new();
    push_str(&mut v, "Monthly depreciation: ");
    push_str(&mut v, name);
    push_str(&mut v, " — Month ");
    push_decimal(&mut v, month_number as u64);
    push_str(&mut v, " of ");
    push_decimal(&mut v, life as u64);
    assert(v@ =~= depreciation_memo_text(name@, month_number as int, life as int));
    string_from_chars(&v)
}

/// A two-line entry moving `amount` from the credited account to the debited one.
pub open spec fn transfer_lines_ok(lines: Seq<NewJournalEntryLine>, debit: AccountId, credit: AccountId, amount: Money) -> bool {
    &&& lines.len() == 2
    &&& lines[0].account_id == debit && lines[0].debit_amount == amount
    &&& lines[0].credit_amount == Money(0) && lines[0].line_memo is None && lines[0].sort_order == 0
    &&& lines[1].account_id == credit && lines[1].credit_amount == amount
    &&& lines[1].debit_amount == Money(0) && lines[1].line_memo is None && lines[1].sort_order == 1
}

/// The two lines debiting `debit` and crediting `credit` with `amount`.
fn transfer_lines(debit: AccountId, credit: AccountId, amount: Money) -> (v: Vec<NewJournalEntryLine>)
    ensures
        transfer_lines_ok(v@, debit, credit, amount),
{
    let mut v: Vec<NewJournalEntryLine> = Vec::new();
    v.push(NewJournalEntryLine {
        account_id: debit,
        debit_amount: amount,
        credit_amount: Money(0),
        line_memo: None,
        sort_order: 0,
    });
    v.push(NewJournalEntryLine {
        account_id: credit,
        debit_amount: Money(0),
        credit_amount: amount,
        line_memo: None,
        sort_order: 1,
    });
    v
}

/// The draft entry recording one month of depreciation in the given fiscal period:
/// debit the expense account, credit the accumulated-depreciation account.
pub fn depreciation_entry(asset: &DepreciableAsset, month: &DepreciationMonth, period: FiscalPeriodId) -> (e: NewJournalEntry)
    ensures
        e.entry_date == month.entry_date,
        e.memo matches Some(m) && m@ == depreciation_memo_text(
            asset.name@,
            month.month_number as int,
            asset.useful_life_months as int,
        ),
        e.fiscal_period_id == period,
        e.reversal_of_je_id is None,
        transfer_lines_ok(e.lines@, asset.expense_id, asset.accum_id, month.amount),
{
    let memo = depreciation_memo(asset.name.as_str(), month.month_number, asset.useful_life_months);
    NewJournalEntry {
        entry_date: month.entry_date,
        memo: Some(memo),
        fiscal_period_id: period,
        reversal_of_je_id: None,
        lines: transfer_lines(asset.expense_id, asset.accum_id, month.amount),
    }
}

/// The memo of a place-in-service entry.
pub open spec fn place_in_service_memo_text(asset_name: Seq<char>, cip_name: Seq<char>) -> Seq<char> {
    "Place in service: "@ + asset_name + " (from CIP: "@ + cip_name + ")"@
}

/// The entry transferring a construction-in-progress balance into a fixed-asset
/// account when the asset is placed in service: refused when the CIP balance is
/// not positive or the fiscal period of the in-service date is closed.
pub fn plan_place_in_service(
    cip_account_id: AccountId,
    target_asset_account_id: AccountId,
    in_service_date: Date,
    cip_balance: Money,
    period: FiscalPeriodId,
    period_closed: bool,
    cip_name: &str,
    asset_name: &str,
) -> (r: Result<NewJournalEntry, AssetError>)
    ensures
        cip_balance.0 <= 0 ==> r == Err::<NewJournalEntry, AssetError>(AssetError::NoCipBalance),
        cip_balance.0 > 0 && period_closed ==> r == Err::<NewJournalEntry, AssetError>(AssetError::PeriodClosed),
        cip_balance.0 > 0 && !period_closed ==> (r matches Ok(e) && {
            &&& e.entry_date == in_service_date
            &&& e.memo matches Some(m) && m@ == place_in_service_memo_text(asset_name@, cip_name@)
            &&& e.fiscal_period_id == period
            &&& e.reversal_of_je_id is None
            &&& transfer_lines_ok(e.lines@, target_asset_account_id, cip_account_id, cip_balance)
        }),
{
    if cip_balance.0 <= 0 {
        return Err(AssetError::NoCipBalance);
    }
    if period_closed {
        return Err(AssetError::PeriodClosed);
    }
    let mut v: Vec<char> = Vec::new();
    push_str(&mut v, "Place in service: ");
    push_str(&mut v, asset_name);
    push_str(&mut v, " (from CIP: ");
    push_str(&mut v, cip_name);
    push_str(&mut v, ")");
    assert(v@ =~= place_in_service_memo_text(asset_name@, cip_name@));
    let memo = string_from_chars(&v);
    Ok(NewJournalEntry {
        entry_date: in_service_date,
        memo: Some(memo),
        fiscal_period_id: period,
        reversal_of_je_id: None,
        lines: transfer_lines(target_asset_account_id, cip_account_id, cip_balance),
    })
}

/// The net (debits less credits) that `lines` post to account `id`.
pub open spec fn lines_net(lines: Seq<NewJournalEntryLine>, id: AccountId) -> int
    decreases lines.len(),
{
    if lines.len() == 0 {
        0
    } else {
        let l = lines.last();
        lines_net(lines.drop_last(), id) + if l.account_id == id { l.debit_amount.0 - l.credit_amount.0 } else { 0 }
    }
}

/// Placing an asset in service moves the whole CIP balance: once the entry is
/// posted, the CIP account's balance drops by that balance (to zero) and the
/// asset account's balance rises by it.
pub proof fn lemma_place_in_service_moves_cip_balance(
    lines: Seq<NewJournalEntryLine>,
    target: AccountId,
    cip: AccountId,
    cip_balance: Money,
)
    requires
        transfer_lines_ok(lines, target, cip, cip_balance),
        target != cip,
    ensures
        cip_balance.0 + lines_net(lines, cip) == 0,
        lines_net(lines, target) == cip_balance.0,
{
    let l1 = lines.drop_last();
    assert(l1.drop_last() =~= Seq::<NewJournalEntryLine>::empty());
    assert(l1.last() == lines[0]);
    assert(lines.last() == lines[1]);
    assert(lines_net(l1.drop_last(), cip) == 0);
    assert(lines_net(l1.drop_last(), target) == 0);
    assert(lines_net(l1, cip) == 0);
    assert(lines_net(l1, target) == cip_balance.0);
    assert(lines_net(lines, cip) == -cip_balance.0);
    assert(lines_net(lines, target) == cip_balance.0);
}

/// An asset with its accumulated depreciation and book value
/// (`cost_basis - accumulated_depreciation`).
pub fn with_book_value(
    detail: FixedAssetDetail,
    account_name: String,
    account_number: String,
    accumulated_depreciation: Money,
) -> (a: FixedAssetWithDetails)
    requires
        i64::MIN <= detail.cost_basis.0 - accumulated_depreciation.0 <= i64::MAX,
    ensures
        a.detail == detail,
        a.account_name == account_name,
        a.account_number == account_number,
        a.accumulated_depreciation == accumulated_depreciation,
        a.book_value.0 == detail.cost_basis.0 - accumulated_depreciation.0,
{
    let book_value = Money(detail.cost_basis.0 - accumulated_depreciation.0);
    FixedAssetWithDetails { detail, account_name, account_number, accumulated_depreciation, book_value }
}

} // verus!
