//! Tax review of journal entries: review states, tags, and reference text.
//!
//! A posted entry is unreviewed until it is tagged. A tag is confirmed with a
//! tax form, holds a suggested form awaiting acceptance, is queued for batch
//! review, or marks the entry non-deductible. Forms are kept as their stored
//! names.

use vstd::prelude::*;
use crate::date::Date;
use crate::money::Money;
use crate::text::str_chars;
use crate::types::{JournalEntryId, chars_equal};

verus! {

/// The review state of a tax tag.
#[derive(Clone, Copy, Debug, PartialEq, Eq, Hash, Structural)]
pub enum TaxReviewStatus {
    Unreviewed,
    AiPending,
    AiSuggested,
    Confirmed,
    NonDeductible,
}

/// The stored name of a review state.
pub open spec fn review_status_name(s: TaxReviewStatus) -> Seq<char> {
    match s {
        TaxReviewStatus::Unreviewed => "unreviewed"@,
        TaxReviewStatus::AiPending => "ai_pending"@,
        TaxReviewStatus::AiSuggested => "ai_suggested"@,
        TaxReviewStatus::Confirmed => "confirmed"@,
        TaxReviewStatus::NonDeductible => "non_deductible"@,
    }
}

impl TaxReviewStatus {
    /// The stored name of this state.
    pub fn as_str(&self) -> (s: &'static str)
        ensures
            s@ == review_status_name(*self),
    {
        match self {
            TaxReviewStatus::Unreviewed => "unreviewed",
            TaxReviewStatus::AiPending => "ai_pending",
            TaxReviewStatus::AiSuggested => "ai_suggested",
            TaxReviewStatus::Confirmed => "confirmed",
            TaxReviewStatus::NonDeductible => "non_deductible",
        }
    }

    /// The stored name of this state as a `String`.
    pub fn to_string(&self) -> (s: String)
        ensures
            s@ == review_status_name(*self),
    {
        String::from_str(self.as_str())
    }

    /// Parses a stored state name.
    pub fn parse(s: &str) -> (r: Option<TaxReviewStatus>)
        ensures
            r matches Some(t) ==> review_status_name(t) == s@,
            r is None ==> forall|t: TaxReviewStatus| review_status_name(t) != s@,
    {
        let v = str_chars(s);
        if chars_equal(&v, "unreviewed") {
            Some(TaxReviewStatus::Unreviewed)
        } else if chars_equal(&v, "ai_pending") {
            Some(TaxReviewStatus::AiPending)
        } else if chars_equal(&v, "ai_suggested") {
            Some(TaxReviewStatus::AiSuggested)
        } else if chars_equal(&v, "confirmed") {
            Some(TaxReviewStatus::Confirmed)
        } else if chars_equal(&v, "non_deductible") {
            Some(TaxReviewStatus::NonDeductible)
        } else {
            proof {
                assert forall|t: TaxReviewStatus| review_status_name(t) != s@ by {
                    match t {
                        TaxReviewStatus::Unreviewed => {},
                        TaxReviewStatus::AiPending => {},
                        TaxReviewStatus::AiSuggested => {},
                        TaxReviewStatus::Confirmed => {},
                        TaxReviewStatus::NonDeductible => {},
                    }
                }
            }
            None
        }
    }
}

/// Distinct review states have distinct stored names.
pub proof fn lemma_review_status_names_distinct(a: TaxReviewStatus, b: TaxReviewStatus)
    ensures
        review_status_name(a) == review_status_name(b) ==> a == b,
{
    reveal_strlit("unreviewed");
    reveal_strlit("ai_pending");
    reveal_strlit("ai_suggested");
    reveal_strlit("confirmed");
    reveal_strlit("non_deductible");
    if review_status_name(a) == review_status_name(b) {
        let x = review_status_name(a);
        assert(x.len() == review_status_name(b).len());
        assert(x[0] == review_status_name(b)[0]);
        assert(x[3] == review_status_name(b)[3]);
    }
}

/// Parsing the stored name of a review state gives the state back.
pub proof fn lemma_review_status_round_trip(t: TaxReviewStatus, parsed: Option<TaxReviewStatus>)
    requires
        parsed matches Some(p) ==> review_status_name(p) == review_status_name(t),
        parsed is None ==> forall|u: TaxReviewStatus| review_status_name(u) != review_status_name(t),
    ensures
        parsed == Some(t),
{
    match parsed {
        Some(p) => lemma_review_status_names_distinct(p, t),
        None => {
            let u = t;
            assert(review_status_name(u) != review_status_name(t));
        },
    }
}

/// A tax tag of a journal entry. Forms are their stored names.
#[derive(Debug, Clone, PartialEq)]
pub struct TaxTag {
    pub id: i64,
    pub journal_entry_id: JournalEntryId,
    pub form_tag: Option<String>,
    pub status: TaxReviewStatus,
    pub ai_suggested_form: Option<String>,
    pub reason: Option<String>,
    pub reviewed_at: Option<String>,
}

/// A tax tag with the fields of its journal entry, for lists and reports.
#[derive(Debug, Clone)]
pub struct TaxTagWithJe {
    pub tag: TaxTag,
    pub je_number: String,
    pub entry_date: Date,
    pub memo: Option<String>,
    /// Total of the entry's debit lines.
    pub total_debits: Money,
}

/// A chunk of tax publication text kept for reference.
#[derive(Debug, Clone, PartialEq)]
pub struct TaxRefChunk {
    pub id: i64,
    pub publication: String,
    pub section: String,
    pub topic_tags: String,
    pub content: String,
    pub tax_year: i32,
    pub ingested_at: String,
}

/// The `LIKE` pattern that finds topic tags containing `tag`: `%tag%`.
pub fn tag_search_pattern(tag: &str) -> (s: String)
    ensures
        s@ == seq!['%'] + tag@ + seq!['%'],
{
    let mut s = String::from_str("%");
    s.append(tag);
    s.append("%");
    proof {
        reveal_strlit("%");
    }
    assert(s@ =~= seq!['%'] + tag@ + seq!['%']);
    s
}

} // verus!
