//! The append-only audit log: entry kinds and the wording of each entry.

use vstd::prelude::*;
use crate::date::{Date, iso_text, calendar_date, four_digit_year};
use crate::text::{decimal_digits, decimal_string, str_chars};
use crate::types::chars_equal;

verus! {

/// Kinds of audited actions.
#[derive(Clone, Copy, Debug, PartialEq, Eq, Hash, Structural)]
pub enum AuditAction {
    PeriodClosed,
    PeriodReopened,
    AiPrompt,
    AiResponse,
    AiToolUse,
    CsvImport,
    MappingLearned,
}

/// Stored name of an action kind.
pub open spec fn audit_action_name(a: AuditAction) -> Seq<char> {
    match a {
        AuditAction::PeriodClosed => "PeriodClosed"@,
        AuditAction::PeriodReopened => "PeriodReopened"@,
        AuditAction::AiPrompt => "AiPrompt"@,
        AuditAction::AiResponse => "AiResponse"@,
        AuditAction::AiToolUse => "AiToolUse"@,
        AuditAction::CsvImport => "CsvImport"@,
        AuditAction::MappingLearned => "MappingLearned"@,
    }
}

impl AuditAction {
    /// The stored name of this action kind.
    pub fn as_str(&self) -> (s: &'static str)
        ensures
            s@ == audit_action_name(*self),
    {
        match self {
            AuditAction::PeriodClosed => "PeriodClosed",
            AuditAction::PeriodReopened => "PeriodReopened",
            AuditAction::AiPrompt => "AiPrompt",
            AuditAction::AiResponse => "AiResponse",
            AuditAction::AiToolUse => "AiToolUse",
            AuditAction::CsvImport => "CsvImport",
            AuditAction::MappingLearned => "MappingLearned",
        }
    }

    /// Parses a stored action name.
    pub fn parse(s: &str) -> (r: Option<AuditAction>)
        ensures
            r matches Some(t) ==> audit_action_name(t) == s@,
            r is None ==> forall|t: AuditAction| audit_action_name(t) != s@,
    {
        let v = str_chars(s);
        if chars_equal(&v, "PeriodClosed") {
            Some(AuditAction::PeriodClosed)
        } else if chars_equal(&v, "PeriodReopened") {
            Some(AuditAction::PeriodReopened)
        } else if chars_equal(&v, "AiPrompt") {
            Some(AuditAction::AiPrompt)
        } else if chars_equal(&v, "AiResponse") {
            Some(AuditAction::AiResponse)
        } else if chars_equal(&v, "AiToolUse") {
            Some(AuditAction::AiToolUse)
        } else if chars_equal(&v, "CsvImport") {
            Some(AuditAction::CsvImport)
        } else if chars_equal(&v, "MappingLearned") {
            Some(AuditAction::MappingLearned)
        } else {
            proof {
                assert forall|t: AuditAction| audit_action_name(t) != s@ by {
                    match t {
                        AuditAction::PeriodClosed => {},
                        AuditAction::PeriodReopened => {},
                        AuditAction::AiPrompt => {},
                        AuditAction::AiResponse => {},
                        AuditAction::AiToolUse => {},
                        AuditAction::CsvImport => {},
                        AuditAction::MappingLearned => {},
                    }
                }
            }
            None
        }
    }
}

/// A single audit log row.
#[derive(Debug, Clone, PartialEq)]
pub struct AuditEntry {
    pub id: i64,
    pub action_type: AuditAction,
    pub entity_name: String,
    pub record_type: Option<String>,
    pub record_id: Option<i64>,
    pub description: String,
    pub created_at: String,
}

/// Filter for listing audit entries (`None` = no filter).
#[derive(Debug, Clone, Default)]
pub struct AuditFilter {
    /// ISO 8601 timestamp: only entries on or after it.
    pub from: Option<String>,
    /// ISO 8601 timestamp: only entries on or before it.
    pub to: Option<String>,
    /// Only entries of this kind.
    pub action_type: Option<AuditAction>,
}

/// Longest prompt text kept in the log, in characters.
pub const MAX_PROMPT_CHARS: usize = 500;

/// The first `max_chars` characters of `s` (all of `s` when it is shorter).
pub fn truncate_chars(s: &str, max_chars: usize) -> (r: &str)
    ensures
        max_chars >= s@.len() ==> r@ == s@,
        max_chars < s@.len() ==> r@ == s@.take(max_chars as int),
{
    let n = s.unicode_len();
    if max_chars >= n {
        s
    } else {
        s.substring_char(0, max_chars)
    }
}

/// The logged text of an AI prompt: at most 500 characters.
pub fn prompt_description(description: &str) -> (r: &str)
    ensures
        r@ == if description@.len() <= 500 { description@ } else { description@.take(500) },
{
    truncate_chars(description, MAX_PROMPT_CHARS)
}

/// `Used {tool_name}({key_params})`.
pub fn tool_use_description(tool_name: &str, key_params: &str) -> (s: String)
    ensures
        s@ == "Used "@ + tool_name@ + "("@ + key_params@ + ")"@,
{
    let mut s = String::from_str("Used ");
    s.append(tool_name);
    s.append("(");
    s.append(key_params);
    s.append(")");
    s
}

/// `Imported {total} rows from {bank}: {matched} matched ({ai} AI, {manual} manual)`.
pub fn csv_import_description(bank_name: &str, total: usize, matched: usize, ai_matched: usize, manual: usize) -> (s: String)
    ensures
        s@ == "Imported "@ + decimal_digits(total as nat) + " rows from "@ + bank_name@ + ": "@
            + decimal_digits(matched as nat) + " matched ("@ + decimal_digits(ai_matched as nat) + " AI, "@
            + decimal_digits(manual as nat) + " manual)"@,
{
    let t = decimal_string(total as u64);
    let m = decimal_string(matched as u64);
    let a = decimal_string(ai_matched as u64);
    let k = decimal_string(manual as u64);
    let mut s = String::from_str("Imported ");
    s.append(t.as_str());
    s.append(" rows from ");
    s.append(bank_name);
    s.append(": ");
    s.append(m.as_str());
    s.append(" matched (");
    s.append(a.as_str());
    s.append(" AI, ");
    s.append(k.as_str());
    s.append(" manual)");
    s
}

/// `Learned mapping: '{description}' → {number} {name} ({source})`.
pub fn mapping_learned_description(description: &str, account_number: &str, account_name: &str, source: &str) -> (s: String)
    ensures
        s@ == "Learned mapping: '"@ + description@ + "' → "@ + account_number@ + " "@ + account_name@
            + " ("@ + source@ + ")"@,
{
    let mut s = String::from_str("Learned mapping: '");
    s.append(description);
    s.append("' → ");
    s.append(account_number);
    s.append(" ");
    s.append(account_name);
    s.append(" (");
    s.append(source);
    s.append(")");
    s
}

/// `Period {n} ({start} – {end}) {verb}` for closing and reopening fiscal periods.
pub fn period_change_description(period_number: i32, start: Date, end: Date, closed: bool) -> (s: String)
    requires
        period_number >= 0,
        calendar_date(start) && four_digit_year(start),
        calendar_date(end) && four_digit_year(end),
    ensures
        s@ == "Period "@ + decimal_digits(period_number as nat) + " ("@ + iso_text(start) + " – "@
            + iso_text(end) + ") "@ + (if closed { "closed"@ } else { "reopened"@ }),
{
    let n = decimal_string(period_number as u64);
    let a = start.to_iso_string();
    let b = end.to_iso_string();
    let mut s = String::from_str("Period ");
    s.append(n.as_str());
    s.append(" (");
    s.append(a.as_str());
    s.append(" – ");
    s.append(b.as_str());
    s.append(") ");
    if closed {
        s.append("closed");
    } else {
        s.append("reopened");
    }
    s
}

/// Lower bound of a day's timestamps: `{date}T00:00:00`.
pub fn day_start_stamp(d: Date) -> (s: String)
    requires
        calendar_date(d) && four_digit_year(d),
    ensures
        s@ == iso_text(d) + "T00:00:00"@,
{
    let mut s = d.to_iso_string();
    s.append("T00:00:00");
    s
}

/// Upper bound of a day's timestamps: `{date}T23:59:59`.
pub fn day_end_stamp(d: Date) -> (s: String)
    requires
        calendar_date(d) && four_digit_year(d),
    ensures
        s@ == iso_text(d) + "T23:59:59"@,
{
    let mut s = d.to_iso_string();
    s.append("T23:59:59");
    s
}

} // verus!
