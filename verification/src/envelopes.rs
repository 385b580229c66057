//! Envelope budgeting: allocation percentages and the envelope ledger rules.
//!
//! Each envelope ledger entry carries a signed amount: fills add to an
//! account's earmarked balance, reversals and outgoing transfers remove from
//! it. A transfer is a pair of entries sharing one group id whose amounts
//! cancel, so transfers never change the total earmarked across envelopes.

use vstd::prelude::*;
use crate::money::{Money, money_text};
use crate::text::{push_str, push_chars, decimal_digits, zero_padded, push_decimal, push_zero_padded, string_from_chars, str_chars};
use crate::types::{AccountId, JournalEntryId, chars_equal, new_uuid};

verus! {

/// A percentage in units of 10^-6 percent: 100% is `Percentage(100_000_000)`.
#[derive(Clone, Copy, Debug, PartialEq, Eq, Structural)]
pub struct Percentage(pub i64);

/// Internal units in one percent.
pub const UNITS_PER_PERCENT: i64 = 1_000_000;

/// The whole, 100%.
pub const FULL_PERCENTAGE: i64 = 100_000_000;

/// Kind of an envelope ledger entry.
#[derive(Clone, Copy, Debug, PartialEq, Eq, Hash, Structural)]
pub enum EnvelopeEntryType {
    Fill,
    Transfer,
    Reversal,
}

/// Stored name of an entry kind.
pub open spec fn entry_type_name(t: EnvelopeEntryType) -> Seq<char> {
    match t {
        EnvelopeEntryType::Fill => "Fill"@,
        EnvelopeEntryType::Transfer => "Transfer"@,
        EnvelopeEntryType::Reversal => "Reversal"@,
    }
}

impl EnvelopeEntryType {
    /// The stored name of this kind.
    pub fn as_str(&self) -> (s: &'static str)
        ensures
            s@ == entry_type_name(*self),
    {
        match self {
            EnvelopeEntryType::Fill => "Fill",
            EnvelopeEntryType::Transfer => "Transfer",
            EnvelopeEntryType::Reversal => "Reversal",
        }
    }

    /// Parses a stored kind name.
    pub fn parse(s: &str) -> (r: Option<EnvelopeEntryType>)
        ensures
            r matches Some(t) ==> entry_type_name(t) == s@,
            r is None ==> forall|t: EnvelopeEntryType| entry_type_name(t) != s@,
    {
        let v = str_chars(s);
        if chars_equal(&v, "Fill") {
            Some(EnvelopeEntryType::Fill)
        } else if chars_equal(&v, "Transfer") {
            Some(EnvelopeEntryType::Transfer)
        } else if chars_equal(&v, "Reversal") {
            Some(EnvelopeEntryType::Reversal)
        } else {
            proof {
                assert forall|t: EnvelopeEntryType| entry_type_name(t) != s@ by {
                    match t {
                        EnvelopeEntryType::Fill => {},
                        EnvelopeEntryType::Transfer => {},
                        EnvelopeEntryType::Reversal => {},
                    }
                }
            }
            None
        }
    }
}

/// One allocation row.
#[derive(Debug, Clone, PartialEq)]
pub struct EnvelopeAllocation {
    pub id: i64,
    pub account_id: AccountId,
    /// Primary allocation percentage.
    pub percentage: Percentage,
    /// Secondary allocation percentage (receives overflow from capped primary fills).
    pub secondary_percentage: Percentage,
    /// Cap on earmarked balance that gates primary fills. `None` means no cap.
    pub cap_amount: Option<Money>,
    pub created_at: String,
    pub updated_at: String,
}

/// One envelope ledger row.
#[derive(Debug, Clone, PartialEq)]
pub struct EnvelopeLedgerEntry {
    pub id: i64,
    pub account_id: AccountId,
    pub entry_type: EnvelopeEntryType,
    /// Signed amount: positive adds to the balance, negative removes.
    pub amount: Money,
    pub source_je_id: Option<JournalEntryId>,
    pub related_account_id: Option<AccountId>,
    pub transfer_group_id: Option<String>,
    pub memo: Option<String>,
    pub created_at: String,
}

/// An envelope ledger row to be written.
#[derive(Debug, Clone, PartialEq)]
pub struct NewEnvelopeEntry {
    pub account_id: AccountId,
    pub entry_type: EnvelopeEntryType,
    pub amount: Money,
    pub source_je_id: Option<JournalEntryId>,
    pub related_account_id: Option<AccountId>,
    pub transfer_group_id: Option<String>,
}

/// The two rows of a transfer and the group id they share.
#[derive(Debug, Clone, PartialEq)]
pub struct TransferPlan {
    pub group_id: String,
    pub source_entry: NewEnvelopeEntry,
    pub dest_entry: NewEnvelopeEntry,
}

/// Why an envelope ledger change is refused.
#[derive(Clone, Copy, Debug, PartialEq, Eq, Structural)]
pub enum EnvelopeError {
    /// Fill, reversal and transfer amounts must be positive.
    NonPositiveAmount,
    /// The source envelope holds less than the transfer amount.
    InsufficientBalance,
}

/// The message of a refused `operation` (`Fill`, `Transfer` or `Reversal`) of
/// `amount`, with `available` in the source envelope.
pub open spec fn envelope_error_text(e: EnvelopeError, operation: Seq<char>, amount: int, available: int) -> Seq<char> {
    match e {
        EnvelopeError::NonPositiveAmount => operation + " amount must be positive, got "@ + money_text(amount),
        EnvelopeError::InsufficientBalance => "Insufficient envelope balance: "@ + money_text(available)
            + " available, "@ + money_text(amount) + " requested"@,
    }
}

impl EnvelopeError {
    /// The user-facing message of this refusal of `operation` (`Fill`,
    /// `Transfer` or `Reversal`) of `amount`, with `available` in the source.
    pub fn message(&self, operation: &str, amount: Money, available: Money) -> (s: String)
        ensures
            s@ == envelope_error_text(*self, operation@, amount.0 as int, available.0 as int),
    {
        let mut v: Vec<char> = Vec::new();
        match self {
            EnvelopeError::NonPositiveAmount => {
                push_str(&mut v, operation);
                push_str(&mut v, " amount must be positive, got ");
                push_chars(&mut v, &str_chars(amount.to_string().as_str()));
            },
            EnvelopeError::InsufficientBalance => {
                push_str(&mut v, "Insufficient envelope balance: ");
                push_chars(&mut v, &str_chars(available.to_string().as_str()));
                push_str(&mut v, " available, ");
                push_chars(&mut v, &str_chars(amount.to_string().as_str()));
                push_str(&mut v, " requested");
            },
        }
        proof {
            reveal_strlit(" amount must be positive, got ");
            reveal_strlit("Insufficient envelope balance: ");
            reveal_strlit(" available, ");
            reveal_strlit(" requested");
        }
        assert(v@ =~= envelope_error_text(*self, operation@, amount.0 as int, available.0 as int));
        string_from_chars(&v)
    }
}

/// The balance of envelope `id` over ledger rows: the sum of their amounts.
pub open spec fn envelope_balance(entries: Seq<NewEnvelopeEntry>, id: AccountId) -> int
    decreases entries.len(),
{
    if entries.len() == 0 {
        0
    } else {
        let e = entries.last();
        envelope_balance(entries.drop_last(), id) + if e.account_id == id { e.amount.0 as int } else { 0 }
    }
}

/// Recording a transfer between two different envelopes takes its amount out
/// of the source envelope and puts it into the destination; every other
/// envelope keeps its balance, and the two rows sum to zero.
pub proof fn lemma_transfer_moves_balance(entries: Seq<NewEnvelopeEntry>, plan: TransferPlan, source: AccountId, dest: AccountId, amount: int, other: AccountId)
    requires
        source != dest,
        plan.source_entry.account_id == source,
        plan.dest_entry.account_id == dest,
        plan.source_entry.amount.0 == -amount,
        plan.dest_entry.amount.0 == amount,
        other != source && other != dest,
    ensures
        envelope_balance(entries.push(plan.source_entry).push(plan.dest_entry), source) == envelope_balance(entries, source) - amount,
        envelope_balance(entries.push(plan.source_entry).push(plan.dest_entry), dest) == envelope_balance(entries, dest) + amount,
        envelope_balance(entries.push(plan.source_entry).push(plan.dest_entry), other) == envelope_balance(entries, other),
        plan.source_entry.amount.0 + plan.dest_entry.amount.0 == 0,
{
    let e1 = entries.push(plan.source_entry);
    let e2 = e1.push(plan.dest_entry);
    assert(e2.drop_last() =~= e1);
    assert(e1.drop_last() =~= entries);
    assert(e2.last() == plan.dest_entry);
    assert(e1.last() == plan.source_entry);
    assert(envelope_balance(e1, source) == envelope_balance(entries, source) - amount);
    assert(envelope_balance(e2, source) == envelope_balance(e1, source));
    assert(envelope_balance(e1, dest) == envelope_balance(entries, dest));
    assert(envelope_balance(e2, dest) == envelope_balance(e1, dest) + amount);
    assert(envelope_balance(e1, other) == envelope_balance(entries, other));
    assert(envelope_balance(e2, other) == envelope_balance(e1, other));
}

/// A fill of `amount` into `account`, triggered by journal entry `je_id`.
pub fn plan_fill(account_id: AccountId, amount: Money, je_id: JournalEntryId) -> (r: Result<NewEnvelopeEntry, EnvelopeError>)
    ensures
        amount.0 <= 0 ==> r == Err::<NewEnvelopeEntry, EnvelopeError>(EnvelopeError::NonPositiveAmount),
        amount.0 > 0 ==> r == Ok::<NewEnvelopeEntry, EnvelopeError>(NewEnvelopeEntry {
            account_id,
            entry_type: EnvelopeEntryType::Fill,
            amount,
            source_je_id: Some(je_id),
            related_account_id: None,
            transfer_group_id: None,
        }),
{
    if amount.0 <= 0 {
        return Err(EnvelopeError::NonPositiveAmount);
    }
    Ok(NewEnvelopeEntry {
        account_id,
        entry_type: EnvelopeEntryType::Fill,
        amount,
        source_je_id: Some(je_id),
        related_account_id: None,
        transfer_group_id: None,
    })
}

/// A reversal of `amount` from `account` for journal entry `je_id`; stored negative.
pub fn plan_reversal(account_id: AccountId, amount: Money, je_id: JournalEntryId) -> (r: Result<NewEnvelopeEntry, EnvelopeError>)
    ensures
        amount.0 <= 0 ==> r == Err::<NewEnvelopeEntry, EnvelopeError>(EnvelopeError::NonPositiveAmount),
        amount.0 > 0 ==> r == Ok::<NewEnvelopeEntry, EnvelopeError>(NewEnvelopeEntry {
            account_id,
            entry_type: EnvelopeEntryType::Reversal,
            amount: Money((-amount.0) as i64),
            source_je_id: Some(je_id),
            related_account_id: None,
            transfer_group_id: None,
        }),
{
    if amount.0 <= 0 {
        return Err(EnvelopeError::NonPositiveAmount);
    }
    Ok(NewEnvelopeEntry {
        account_id,
        entry_type: EnvelopeEntryType::Reversal,
        amount: Money(-amount.0),
        source_je_id: Some(je_id),
        related_account_id: None,
        transfer_group_id: None,
    })
}

/// The two ledger rows of a transfer of `amount` from `source` (holding
/// `source_balance`) to `dest`, tagged with `group_id`.
pub fn plan_transfer_with_group(
    source: AccountId,
    dest: AccountId,
    amount: Money,
    source_balance: Money,
    group_id: String,
) -> (r: Result<TransferPlan, EnvelopeError>)
    ensures
        amount.0 <= 0 ==> r == Err::<TransferPlan, EnvelopeError>(EnvelopeError::NonPositiveAmount),
        amount.0 > 0 && source_balance.0 < amount.0 ==> r == Err::<TransferPlan, EnvelopeError>(
            EnvelopeError::InsufficientBalance,
        ),
        amount.0 > 0 && source_balance.0 >= amount.0 ==> (r matches Ok(p) && p.group_id == group_id
            && p.source_entry == (NewEnvelopeEntry {
                account_id: source,
                entry_type: EnvelopeEntryType::Transfer,
                amount: Money((-amount.0) as i64),
                source_je_id: None,
                related_account_id: Some(dest),
                transfer_group_id: Some(group_id),
            }) && p.dest_entry == (NewEnvelopeEntry {
                account_id: dest,
                entry_type: EnvelopeEntryType::Transfer,
                amount,
                source_je_id: None,
                related_account_id: Some(source),
                transfer_group_id: Some(group_id),
            })),
{
    if amount.0 <= 0 {
        return Err(EnvelopeError::NonPositiveAmount);
    }
    if source_balance.0 < amount.0 {
        return Err(EnvelopeError::InsufficientBalance);
    }
    let g1 = group_id.clone();
    let g2 = group_id.clone();
    Ok(TransferPlan {
        group_id,
        source_entry: NewEnvelopeEntry {
            account_id: source,
            entry_type: EnvelopeEntryType::Transfer,
            amount: Money(-amount.0),
            source_je_id: None,
            related_account_id: Some(dest),
            transfer_group_id: Some(g1),
        },
        dest_entry: NewEnvelopeEntry {
            account_id: dest,
            entry_type: EnvelopeEntryType::Transfer,
            amount,
            source_je_id: None,
            related_account_id: Some(source),
            transfer_group_id: Some(g2),
        },
    })
}

/// Plans a transfer under a fresh random group id.
pub fn plan_transfer(source: AccountId, dest: AccountId, amount: Money, source_balance: Money) -> (r: Result<
    TransferPlan,
    EnvelopeError,
>)
    ensures
        amount.0 <= 0 ==> r == Err::<TransferPlan, EnvelopeError>(EnvelopeError::NonPositiveAmount),
        amount.0 > 0 && source_balance.0 < amount.0 ==> r == Err::<TransferPlan, EnvelopeError>(
            EnvelopeError::InsufficientBalance,
        ),
        amount.0 > 0 && source_balance.0 >= amount.0 ==> (r matches Ok(p) && p.group_id@.len() == 36
            && p.source_entry.account_id == source && p.dest_entry.account_id == dest
            && p.source_entry.amount.0 == -amount.0 && p.dest_entry.amount == amount
            && p.source_entry.transfer_group_id == Some(p.group_id)
            && p.dest_entry.transfer_group_id == Some(p.group_id)
            && p.source_entry.related_account_id == Some(dest)
            && p.dest_entry.related_account_id == Some(source)
            && p.source_entry.entry_type == EnvelopeEntryType::Transfer
            && p.dest_entry.entry_type == EnvelopeEntryType::Transfer),
{
    if amount.0 <= 0 {
        return Err(EnvelopeError::NonPositiveAmount);
    }
    if source_balance.0 < amount.0 {
        return Err(EnvelopeError::InsufficientBalance);
    }
    let group = new_uuid();
    plan_transfer_with_group(source, dest, amount, source_balance, group)
}

/// Sum of the first `k` percentages.
pub open spec fn percent_sum(ps: Seq<Percentage>, k: int) -> int
    decreases k,
{
    if k <= 0 { 0 } else { percent_sum(ps, k - 1) + ps[k - 1].0 }
}

/// The share of revenue not assigned to any envelope: 100% minus the total
/// allocated, clamped to the `i64` range as `i64::saturating_sub` does.
pub fn unallocated_percentage(total_allocated: Percentage) -> (p: Percentage)
    ensures
        i64::MIN <= FULL_PERCENTAGE - total_allocated.0 <= i64::MAX ==> p.0 == FULL_PERCENTAGE - total_allocated.0,
        FULL_PERCENTAGE - total_allocated.0 < i64::MIN ==> p.0 == i64::MIN,
        FULL_PERCENTAGE - total_allocated.0 > i64::MAX ==> p.0 == i64::MAX,
{
    let d: i128 = (FULL_PERCENTAGE as i128) - (total_allocated.0 as i128);
    if d < (i64::MIN as i128) {
        Percentage(i64::MIN)
    } else if d > (i64::MAX as i128) {
        Percentage(i64::MAX)
    } else {
        Percentage(d as i64)
    }
}

/// The display text of a percentage: hundredths of a percent rounded half away
/// from zero, two decimals and a percent sign, e.g. `25.00%`.
pub open spec fn percentage_text(v: int) -> Seq<char> {
    let a = if v < 0 { -v } else { v };
    let h = ((a + 5_000) / 10_000) as nat;
    (if v < 0 && h > 0 { seq!['-'] } else { Seq::<char>::empty() }) + decimal_digits(h / 100) + seq!['.']
        + zero_padded(h % 100, 2) + seq!['%']
}

/// The display text of a percentage is short.
pub proof fn lemma_percentage_text_short(v: i64)
    ensures
        percentage_text(v as int).len() <= 40,
{
    let a: int = if v < 0 { -v } else { v as int };
    let h = ((a + 5_000) / 10_000) as nat;
    assert(h < 1_000_000_000_000_000);
    assert(h / 100 < crate::money::pow10(17)) by {
        reveal_with_fuel(crate::money::pow10, 18);
    }
    crate::money::lemma_decimal_len_bound(h / 100, 17);
    assert(h % 100 < crate::money::pow10(2)) by {
        reveal_with_fuel(crate::money::pow10, 3);
    }
    crate::money::lemma_decimal_len_bound(h % 100, 2);
}

/// Formats a percentage for display.
pub fn format_percentage(p: Percentage) -> (s: String)
    ensures
        s@ == percentage_text(p.0 as int),
{
    let v = p.0;
    let a: i128 = if v < 0 { 0i128 - (v as i128) } else { v as i128 };
    let h128: i128 = (a + 5_000) / 10_000;
    assert(0 <= h128 <= u64::MAX);
    let h: u64 = h128 as u64;
    let mut out: Vec<char> = Vec::new();
    if v < 0 && h > 0 {
        out.push('-');
    }
    push_decimal(&mut out, h / 100);
    out.push('.');
    push_zero_padded(&mut out, h % 100, 2);
    out.push('%');
    assert(out@ =~= percentage_text(v as int));
    string_from_chars(&out)
}

} // verus!
