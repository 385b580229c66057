//! Recurring journal entry templates: the schedule of a template and the
//! draft entry generated from it.
//!
//! A template copies the lines and memo of a posted entry. When its next due
//! date is on or before the generation date, a draft entry dated on the due
//! date is created and the schedule advances by one period: one, three or
//! twelve calendar months, the day clamped to the length of the target month.

use vstd::prelude::*;
use crate::date::{Date, date_le, days_in_month, days_in_month_of, first_of_month, month_index, month_start_after, calendar_date};
use crate::ledger::{NewJournalEntry, NewJournalEntryLine};
use crate::text::str_chars;
use crate::types::{FiscalPeriodId, JournalEntryId, RecurringTemplateId, chars_equal};

verus! {

/// How often a template generates an entry.
#[derive(Clone, Copy, Debug, PartialEq, Eq, Hash, Structural)]
pub enum EntryFrequency {
    Monthly,
    Quarterly,
    Annually,
}

/// The stored name of a frequency.
pub open spec fn frequency_name(f: EntryFrequency) -> Seq<char> {
    match f {
        EntryFrequency::Monthly => "Monthly"@,
        EntryFrequency::Quarterly => "Quarterly"@,
        EntryFrequency::Annually => "Annually"@,
    }
}

/// The number of calendar months one period of a frequency spans.
pub open spec fn frequency_months(f: EntryFrequency) -> int {
    match f {
        EntryFrequency::Monthly => 1,
        EntryFrequency::Quarterly => 3,
        EntryFrequency::Annually => 12,
    }
}

impl EntryFrequency {
    /// The stored name of this frequency.
    pub fn as_str(&self) -> (s: &'static str)
        ensures
            s@ == frequency_name(*self),
    {
        match self {
            EntryFrequency::Monthly => "Monthly",
            EntryFrequency::Quarterly => "Quarterly",
            EntryFrequency::Annually => "Annually",
        }
    }

    /// Parses a stored frequency name.
    pub fn parse(s: &str) -> (r: Option<EntryFrequency>)
        ensures
            r matches Some(f) ==> frequency_name(f) == s@,
            r is None ==> forall|f: EntryFrequency| frequency_name(f) != s@,
    {
        let v = str_chars(s);
        if chars_equal(&v, "Monthly") {
            Some(EntryFrequency::Monthly)
        } else if chars_equal(&v, "Quarterly") {
            Some(EntryFrequency::Quarterly)
        } else if chars_equal(&v, "Annually") {
            Some(EntryFrequency::Annually)
        } else {
            proof {
                assert forall|f: EntryFrequency| frequency_name(f) != s@ by {
                    match f {
                        EntryFrequency::Monthly => {},
                        EntryFrequency::Quarterly => {},
                        EntryFrequency::Annually => {},
                    }
                }
            }
            None
        }
    }
}

/// A recurring entry template.
#[derive(Debug, Clone, Copy, PartialEq, Eq, Structural)]
pub struct RecurringTemplate {
    pub id: RecurringTemplateId,
    pub source_je_id: JournalEntryId,
    pub frequency: EntryFrequency,
    pub next_due_date: Date,
    pub is_active: bool,
    pub last_generated_date: Option<Date>,
}

/// Why a template cannot be created.
#[derive(Clone, Copy, Debug, PartialEq, Eq, Structural)]
pub enum RecurringError {
    /// The source entry is not posted.
    SourceNotPosted,
}

/// The date `k` calendar months after `d`, the day clamped to the length of the target month.
pub open spec fn add_months_clamped(d: Date, k: int) -> Date {
    let f = first_of_month(month_index(d) + k);
    let last = days_in_month_of(f.year as int, f.month as int);
    Date { year: f.year, month: f.month, day: if d.day <= last { d.day } else { last as u32 } }
}

/// The next due date after `d` for frequency `f`.
pub open spec fn next_due(d: Date, f: EntryFrequency) -> Date {
    add_months_clamped(d, frequency_months(f))
}

/// Dates on which the schedule can advance: a real date well inside the
/// calendar range (for a quarterly schedule before year 0, only months whose
/// index three months on is a multiple of twelve).
pub open spec fn schedulable(d: Date, f: EntryFrequency) -> bool {
    &&& calendar_date(d)
    &&& -262_000 <= d.year <= 262_000
    &&& f == EntryFrequency::Quarterly ==> (month_index(d) + 3 >= 0 || (month_index(d) + 3) % 12 == 0)
}

/// The date one period of `frequency` after `date`, the day clamped to the
/// last day of the target month (January 31 advances monthly to the last day
/// of February).
pub fn advance_date(date: Date, frequency: EntryFrequency) -> (d: Date)
    requires
        schedulable(date, frequency),
    ensures
        d == next_due(date, frequency),
{
    let months: u32 = match frequency {
        EntryFrequency::Monthly => 1,
        EntryFrequency::Quarterly => 3,
        EntryFrequency::Annually => 12,
    };
    let first = month_start_after(date, months);
    let last_day = days_in_month(first.year, first.month);
    let day = if date.day <= last_day { date.day } else { last_day };
    Date { year: first.year, month: first.month, day }
}

/// The schedule only moves forward: the next due date is a later date.
pub proof fn lemma_next_due_is_later(d: Date, f: EntryFrequency)
    requires
        calendar_date(d),
        d.year < i32::MAX,
    ensures
        date_le(d, next_due(d, f)),
        next_due(d, f) != d,
{
    let k = frequency_months(f);
    let i = month_index(d) + k;
    let n = next_due(d, f);
    assert(d.year <= i / 12 <= d.year + 1);
    assert(n.year as int == i / 12);
    assert(n.month as int == i % 12 + 1);
    assert(month_index(n) == i);
}

/// A template generates an entry when it is active and due on or before `as_of`.
pub open spec fn template_due(t: RecurringTemplate, as_of: Date) -> bool {
    t.is_active && date_le(t.next_due_date, as_of)
}

/// Whether a template generates an entry on `as_of`.
pub fn is_due(t: &RecurringTemplate, as_of: Date) -> (b: bool)
    ensures
        b == template_due(*t, as_of),
{
    t.is_active && t.next_due_date.le(&as_of)
}

/// An active template whose due date has come, on the generation date or
/// earlier (a missed date included), is due; an inactive template never is.
pub proof fn lemma_due_when_date_reached(t: RecurringTemplate, as_of: Date)
    ensures
        t.is_active && date_le(t.next_due_date, as_of) ==> template_due(t, as_of),
        !t.is_active ==> !template_due(t, as_of),
        template_due(t, as_of) ==> date_le(t.next_due_date, as_of),
{
}

/// A template due on one date stays due on every later date until it is
/// generated: running generation late still generates it.
pub proof fn lemma_due_stays_due(t: RecurringTemplate, d1: Date, d2: Date)
    requires
        template_due(t, d1),
        date_le(d1, d2),
    ensures
        template_due(t, d2),
{
}

/// Whether an entry with the stored status text may be the source of a
/// template: only a posted entry (status text `Posted`) may.
pub fn check_template_source(status: &str) -> (r: Result<(), RecurringError>)
    ensures
        status@ == "Posted"@ ==> r is Ok,
        status@ != "Posted"@ ==> r == Err::<(), RecurringError>(RecurringError::SourceNotPosted),
{
    let v = str_chars(status);
    if chars_equal(&v, "Posted") {
        Ok(())
    } else {
        Err(RecurringError::SourceNotPosted)
    }
}

/// The draft entry generated from a template: dated on its due date, in the
/// given fiscal period, with the memo and lines of the source entry.
pub fn recurring_entry(
    template: &RecurringTemplate,
    source_memo: Option<String>,
    period: FiscalPeriodId,
    lines: Vec<NewJournalEntryLine>,
) -> (e: NewJournalEntry)
    ensures
        e.entry_date == template.next_due_date,
        e.memo == source_memo,
        e.fiscal_period_id == period,
        e.reversal_of_je_id is None,
        e.lines == lines,
{
    NewJournalEntry {
        entry_date: template.next_due_date,
        memo: source_memo,
        fiscal_period_id: period,
        reversal_of_je_id: None,
        lines,
    }
}

/// The template after generating its due entry: the next due date advances by
/// one period and the last generated date becomes the old due date.
pub fn advance_schedule(template: &RecurringTemplate) -> (t: RecurringTemplate)
    requires
        schedulable(template.next_due_date, template.frequency),
    ensures
        t == (RecurringTemplate {
            next_due_date: next_due(template.next_due_date, template.frequency),
            last_generated_date: Some(template.next_due_date),
            ..*template
        }),
{
    let next = advance_date(template.next_due_date, template.frequency);
    RecurringTemplate {
        id: template.id,
        source_je_id: template.source_je_id,
        frequency: template.frequency,
        next_due_date: next,
        is_active: template.is_active,
        last_generated_date: Some(template.next_due_date),
    }
}

/// Generating on a date twice creates no duplicate: once a template's entry
/// for its due date is generated, the template is no longer due on that date.
pub proof fn lemma_generation_not_repeated(t: RecurringTemplate, as_of: Date)
    requires
        calendar_date(t.next_due_date),
        t.next_due_date.year < i32::MAX,
        t.next_due_date == as_of,
    ensures
        !template_due(
            RecurringTemplate {
                next_due_date: next_due(t.next_due_date, t.frequency),
                last_generated_date: Some(t.next_due_date),
                ..t
            },
            as_of,
        ),
{
    lemma_next_due_is_later(t.next_due_date, t.frequency);
}

} // verus!
