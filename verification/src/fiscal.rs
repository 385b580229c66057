//! Fiscal years and periods: the twelve monthly periods of a fiscal year and
//! the rules for closing and reopening a period.

use vstd::prelude::*;
use crate::date::{Date, advance_months, month_end, days_in_month_of, previous_day, in_calendar_range};
use crate::types::{FiscalPeriodId, FiscalYearId};
use crate::text::{push_str, push_int, int_text, string_from_chars};

verus! {

/// A fiscal period row.
#[derive(Debug, Clone, Copy, PartialEq, Eq, Structural)]
pub struct FiscalPeriod {
    pub id: FiscalPeriodId,
    pub fiscal_year_id: FiscalYearId,
    pub period_number: i32,
    pub start_date: Date,
    pub end_date: Date,
    pub is_closed: bool,
}

/// One period of a fiscal year to be created.
#[derive(Debug, Clone, Copy, PartialEq, Eq, Structural)]
pub struct PeriodPlan {
    pub period_number: u32,
    pub start_date: Date,
    pub end_date: Date,
}

/// A fiscal year to be created with its twelve periods.
#[derive(Debug, Clone, PartialEq)]
pub struct FiscalYearPlan {
    pub start_date: Date,
    pub end_date: Date,
    pub periods: Vec<PeriodPlan>,
}

/// Why a fiscal operation is refused.
#[derive(Clone, Copy, Debug, PartialEq, Eq, Structural)]
pub enum FiscalError {
    /// The fiscal year start month is not 1 to 12.
    InvalidStartMonth,
    /// The period is already closed.
    AlreadyClosed,
    /// The period is already open.
    AlreadyOpen,
    /// Draft entries remain in the period; they must be posted or deleted first.
    DraftsRemain,
}

/// The message of a refused fiscal operation on period `period_id` (or with
/// start month `start_month`), with `draft_count` drafts in the period.
pub open spec fn fiscal_error_text(e: FiscalError, period_id: int, start_month: int, draft_count: int) -> Seq<char> {
    match e {
        FiscalError::InvalidStartMonth => "start_month must be 1–12, got "@ + int_text(start_month),
        FiscalError::AlreadyClosed => "Fiscal period "@ + int_text(period_id) + " is already closed"@,
        FiscalError::AlreadyOpen => "Fiscal period "@ + int_text(period_id) + " is already open"@,
        FiscalError::DraftsRemain => "Cannot close fiscal period "@ + int_text(period_id) + ": "@ + int_text(draft_count)
            + " draft journal entr"@ + (if draft_count == 1 { "y"@ } else { "ies"@ })
            + " must be posted or deleted first"@,
    }
}

impl FiscalError {
    /// The user-facing message of this refusal on period `period_id` (or with
    /// start month `start_month`), with `draft_count` drafts in the period.
    pub fn message(&self, period_id: i64, start_month: i64, draft_count: i64) -> (s: String)
        ensures
            s@ == fiscal_error_text(*self, period_id as int, start_month as int, draft_count as int),
    {
        let mut v: Vec<char> = Vec::new();
        match self {
            FiscalError::InvalidStartMonth => {
                push_str(&mut v, "start_month must be 1–12, got ");
                push_int(&mut v, start_month);
            },
            FiscalError::AlreadyClosed => {
                push_str(&mut v, "Fiscal period ");
                push_int(&mut v, period_id);
                push_str(&mut v, " is already closed");
            },
            FiscalError::AlreadyOpen => {
                push_str(&mut v, "Fiscal period ");
                push_int(&mut v, period_id);
                push_str(&mut v, " is already open");
            },
            FiscalError::DraftsRemain => {
                push_str(&mut v, "Cannot close fiscal period ");
                push_int(&mut v, period_id);
                push_str(&mut v, ": ");
                push_int(&mut v, draft_count);
                push_str(&mut v, " draft journal entr");
                if draft_count == 1 {
                    push_str(&mut v, "y");
                } else {
                    push_str(&mut v, "ies");
                }
                push_str(&mut v, " must be posted or deleted first");
            },
        }
        assert(v@ =~= fiscal_error_text(*self, period_id as int, start_month as int, draft_count as int));
        string_from_chars(&v)
    }
}

/// First day of period `k` (0-based) of the fiscal year starting in `start_month` of `year`.
pub open spec fn period_start(year: int, start_month: int, k: int) -> Date {
    let t = start_month - 1 + k;
    Date { year: (year + t / 12) as i32, month: (t % 12 + 1) as u32, day: 1 }
}

/// Last day of period `k` (0-based).
pub open spec fn period_end(year: int, start_month: int, k: int) -> Date {
    let s = period_start(year, start_month, k);
    Date { year: s.year, month: s.month, day: days_in_month_of(s.year as int, s.month as int) as u32 }
}

/// Consecutive periods of a fiscal year leave no gap: each period starts the
/// day after the previous one ends.
pub proof fn lemma_periods_contiguous(year: int, start_month: int, k: int)
    requires
        1 <= start_month <= 12,
        0 <= k < 11,
        in_calendar_range(year),
    ensures
        previous_day(period_start(year, start_month, k + 1)) == period_end(year, start_month, k),
{
    let t = start_month - 1 + k;
    assert(0 <= t < 22);
    if t % 12 == 11 {
        assert((t + 1) % 12 == 0);
        assert((t + 1) / 12 == t / 12 + 1);
    } else {
        assert((t + 1) % 12 == t % 12 + 1);
        assert((t + 1) / 12 == t / 12);
    }
}

/// Plans a fiscal year starting on day 1 of `start_month` in `year`, with twelve
/// monthly periods numbered 1 to 12; the year ends on the last day of the
/// twelfth month.
pub fn plan_fiscal_year(start_month: u32, year: i32) -> (r: Result<FiscalYearPlan, FiscalError>)
    requires
        in_calendar_range(year as int),
    ensures
        !(1 <= start_month <= 12) ==> r == Err::<FiscalYearPlan, FiscalError>(FiscalError::InvalidStartMonth),
        1 <= start_month <= 12 ==> (r matches Ok(p) && {
            &&& p.start_date == (Date { year, month: start_month, day: 1 })
            &&& p.end_date == period_end(year as int, start_month as int, 11)
            &&& p.periods@.len() == 12
            &&& forall|k: int| 0 <= k < 12 ==> {
                &&& (#[trigger] p.periods@[k]).period_number == k + 1
                &&& p.periods@[k].start_date == period_start(year as int, start_month as int, k)
                &&& p.periods@[k].end_date == period_end(year as int, start_month as int, k)
            }
        }),
{
    if !(1 <= start_month && start_month <= 12) {
        return Err(FiscalError::InvalidStartMonth);
    }
    let fy_start = Date { year, month: start_month, day: 1 };
    let fy_end = month_end(advance_months(fy_start, 11));
    let mut periods: Vec<PeriodPlan> = Vec::new();
    let mut n: u32 = 1;
    while n <= 12
        invariant
            1 <= start_month <= 12,
            in_calendar_range(year as int),
            fy_start == (Date { year, month: start_month, day: 1 }),
            1 <= n <= 13,
            periods@.len() == n - 1,
            forall|k: int| 0 <= k < n - 1 ==> {
                &&& (#[trigger] periods@[k]).period_number == k + 1
                &&& periods@[k].start_date == period_start(year as int, start_month as int, k)
                &&& periods@[k].end_date == period_end(year as int, start_month as int, k)
            },
        decreases 13 - n,
    {
        let start = advance_months(fy_start, n - 1);
        assert(start == period_start(year as int, start_month as int, n - 1));
        let end = month_end(start);
        periods.push(PeriodPlan { period_number: n, start_date: start, end_date: end });
        n = n + 1;
    }
    Ok(FiscalYearPlan { start_date: fy_start, end_date: fy_end, periods })
}

/// Decides whether a period may be closed: it must be open and hold no draft entries.
pub fn check_close(is_closed: bool, draft_count: i64) -> (r: Result<(), FiscalError>)
    ensures
        is_closed ==> r == Err::<(), FiscalError>(FiscalError::AlreadyClosed),
        !is_closed && draft_count > 0 ==> r == Err::<(), FiscalError>(FiscalError::DraftsRemain),
        !is_closed && draft_count <= 0 ==> r is Ok,
{
    if is_closed {
        Err(FiscalError::AlreadyClosed)
    } else if draft_count > 0 {
        Err(FiscalError::DraftsRemain)
    } else {
        Ok(())
    }
}

/// Decides whether a period may be reopened: it must be closed.
pub fn check_reopen(is_closed: bool) -> (r: Result<(), FiscalError>)
    ensures
        !is_closed ==> r == Err::<(), FiscalError>(FiscalError::AlreadyOpen),
        is_closed ==> r is Ok,
{
    if !is_closed {
        Err(FiscalError::AlreadyOpen)
    } else {
        Ok(())
    }
}

} // verus!
