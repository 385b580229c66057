//! Journal entries and lines: numbering, status and reconcile rules, and the
//! per-account ledger with running balances.

use vstd::prelude::*;
use crate::date::Date;
use crate::money::Money;
use crate::text::{decimal_digits, digit_char, zero_padded, push_zero_padded, str_chars, string_from_chars};
use crate::types::{AccountId, FiscalPeriodId, JournalEntryId, JournalEntryLineId};

verus! {

/// Lifecycle status of a journal entry.
#[derive(Clone, Copy, Debug, PartialEq, Eq, Hash, Structural)]
pub enum JournalEntryStatus {
    Draft,
    Posted,
}

/// Bank reconciliation state of a journal line. `Reconciled` is permanent.
#[derive(Clone, Copy, Debug, PartialEq, Eq, Hash, Structural)]
pub enum ReconcileState {
    Uncleared,
    Cleared,
    Reconciled,
}

/// Stored name of a journal entry status.
pub open spec fn status_name(s: JournalEntryStatus) -> Seq<char> {
    match s {
        JournalEntryStatus::Draft => "Draft"@,
        JournalEntryStatus::Posted => "Posted"@,
    }
}

/// Stored name of a reconcile state.
pub open spec fn reconcile_name(s: ReconcileState) -> Seq<char> {
    match s {
        ReconcileState::Uncleared => "Uncleared"@,
        ReconcileState::Cleared => "Cleared"@,
        ReconcileState::Reconciled => "Reconciled"@,
    }
}

impl JournalEntryStatus {
    /// The stored name of this status.
    pub fn as_str(&self) -> (s: &'static str)
        ensures
            s@ == status_name(*self),
    {
        match self {
            JournalEntryStatus::Draft => "Draft",
            JournalEntryStatus::Posted => "Posted",
        }
    }

    /// Parses a stored status name.
    pub fn parse(s: &str) -> (r: Option<JournalEntryStatus>)
        ensures
            r matches Some(t) ==> status_name(t) == s@,
            r is None ==> forall|t: JournalEntryStatus| status_name(t) != s@,
    {
        let v = str_chars(s);
        if crate::types::chars_equal(&v, "Draft") {
            Some(JournalEntryStatus::Draft)
        } else if crate::types::chars_equal(&v, "Posted") {
            Some(JournalEntryStatus::Posted)
        } else {
            proof {
                assert forall|t: JournalEntryStatus| status_name(t) != s@ by {
                    match t {
                        JournalEntryStatus::Draft => {},
                        JournalEntryStatus::Posted => {},
                    }
                }
            }
            None
        }
    }
}

impl ReconcileState {
    /// The stored name of this state.
    pub fn as_str(&self) -> (s: &'static str)
        ensures
            s@ == reconcile_name(*self),
    {
        match self {
            ReconcileState::Uncleared => "Uncleared",
            ReconcileState::Cleared => "Cleared",
            ReconcileState::Reconciled => "Reconciled",
        }
    }

    /// Parses a stored state name.
    pub fn parse(s: &str) -> (r: Option<ReconcileState>)
        ensures
            r matches Some(t) ==> reconcile_name(t) == s@,
            r is None ==> forall|t: ReconcileState| reconcile_name(t) != s@,
    {
        let v = str_chars(s);
        if crate::types::chars_equal(&v, "Uncleared") {
            Some(ReconcileState::Uncleared)
        } else if crate::types::chars_equal(&v, "Cleared") {
            Some(ReconcileState::Cleared)
        } else if crate::types::chars_equal(&v, "Reconciled") {
            Some(ReconcileState::Reconciled)
        } else {
            proof {
                assert forall|t: ReconcileState| reconcile_name(t) != s@ by {
                    match t {
                        ReconcileState::Uncleared => {},
                        ReconcileState::Cleared => {},
                        ReconcileState::Reconciled => {},
                    }
                }
            }
            None
        }
    }
}

/// A journal entry header.
#[derive(Debug, Clone, PartialEq)]
pub struct JournalEntry {
    pub id: JournalEntryId,
    pub je_number: String,
    pub entry_date: Date,
    pub memo: Option<String>,
    pub status: JournalEntryStatus,
    pub is_reversed: bool,
    pub reversed_by_je_id: Option<JournalEntryId>,
    pub reversal_of_je_id: Option<JournalEntryId>,
    pub inter_entity_uuid: Option<String>,
    pub source_entity_name: Option<String>,
    pub fiscal_period_id: FiscalPeriodId,
    pub created_at: String,
    pub updated_at: String,
    /// Reference to the bank statement line a draft was imported from.
    pub import_ref: Option<String>,
}

/// A single debit/credit line within a journal entry.
#[derive(Debug, Clone, PartialEq)]
pub struct JournalEntryLine {
    pub id: JournalEntryLineId,
    pub journal_entry_id: JournalEntryId,
    pub account_id: AccountId,
    pub debit_amount: Money,
    pub credit_amount: Money,
    pub line_memo: Option<String>,
    pub reconcile_state: ReconcileState,
    pub sort_order: i32,
    pub created_at: String,
}

/// Data required to create a new journal entry (draft).
#[derive(Debug, Clone)]
pub struct NewJournalEntry {
    pub entry_date: Date,
    pub memo: Option<String>,
    pub fiscal_period_id: FiscalPeriodId,
    pub reversal_of_je_id: Option<JournalEntryId>,
    pub lines: Vec<NewJournalEntryLine>,
}

/// Data for a single line within a new journal entry.
#[derive(Debug, Clone)]
pub struct NewJournalEntryLine {
    pub account_id: AccountId,
    /// One of debit_amount / credit_amount is zero.
    pub debit_amount: Money,
    pub credit_amount: Money,
    pub line_memo: Option<String>,
    pub sort_order: i32,
}

/// A copy of an optional text.
pub fn copy_opt_string(o: &Option<String>) -> (r: Option<String>)
    ensures
        r == *o,
{
    match o {
        Some(s) => Some(s.clone()),
        None => None,
    }
}

impl NewJournalEntryLine {
    /// A copy of this line.
    pub fn copy(&self) -> (r: NewJournalEntryLine)
        ensures
            r == *self,
    {
        NewJournalEntryLine {
            account_id: self.account_id,
            debit_amount: self.debit_amount,
            credit_amount: self.credit_amount,
            line_memo: copy_opt_string(&self.line_memo),
            sort_order: self.sort_order,
        }
    }
}

/// A copy of a list of lines.
pub fn copy_lines(lines: &Vec<NewJournalEntryLine>) -> (r: Vec<NewJournalEntryLine>)
    ensures
        r@ == lines@,
{
    let mut r: Vec<NewJournalEntryLine> = Vec::new();
    let mut i: usize = 0;
    while i < lines.len()
        invariant
            i <= lines@.len(),
            r@ == lines@.take(i as int),
        decreases lines@.len() - i,
    {
        r.push(lines[i].copy());
        i = i + 1;
        assert(r@ =~= lines@.take(i as int));
    }
    assert(r@ =~= lines@);
    r
}

/// Filter criteria for listing journal entries (`None` = no filter).
#[derive(Debug, Clone, Default)]
pub struct JournalFilter {
    pub status: Option<JournalEntryStatus>,
    pub from_date: Option<Date>,
    pub to_date: Option<Date>,
}

/// Date range filter used in ledger and reporting queries.
#[derive(Debug, Clone, Copy, Default)]
pub struct DateRange {
    pub from: Option<Date>,
    pub to: Option<Date>,
}

/// A posted line of one account, as read before running balances are added.
#[derive(Debug, Clone)]
pub struct LedgerLine {
    pub je_id: JournalEntryId,
    pub je_number: String,
    pub entry_date: Date,
    /// Line memo, falling back to the entry memo.
    pub memo: Option<String>,
    pub debit: Money,
    pub credit: Money,
    pub reconcile_state: ReconcileState,
}

/// A single row of a per-account General Ledger view.
#[derive(Debug, Clone)]
pub struct LedgerRow {
    pub je_id: JournalEntryId,
    pub je_number: String,
    pub entry_date: Date,
    pub memo: Option<String>,
    pub debit: Money,
    pub credit: Money,
    pub reconcile_state: ReconcileState,
    /// Cumulative net balance (sum of debits minus credits) through this row.
    pub running_balance: Money,
}

// ── Entry numbering ──────────────────────────────────────────────────────────

/// The value of a run of decimal digits.
pub open spec fn digits_value(s: Seq<char>) -> int
    decreases s.len(),
{
    if s.len() == 0 {
        0
    } else {
        digits_value(s.drop_last()) * 10 + digit_value(s.last())
    }
}

/// The value of one decimal digit character.
pub open spec fn digit_value(c: char) -> int {
    (c as int) - ('0' as int)
}

/// A decimal digit character.
pub open spec fn is_digit(c: char) -> bool {
    '0' <= c <= '9'
}

/// What std's `str::parse::<u32>` gives: an optional `+` followed by at least one
/// digit, with a value below 2^32.
pub open spec fn parsed_u32(s: Seq<char>) -> Option<nat> {
    if all_digits(unsigned_body(s)) && digits_value(unsigned_body(s)) <= u32::MAX {
        Some(digits_value(unsigned_body(s)) as nat)
    } else {
        None
    }
}

/// The text after an optional leading `+`.
pub open spec fn unsigned_body(s: Seq<char>) -> Seq<char> {
    if s.len() > 0 && s[0] == '+' { s.skip(1) } else { s }
}

/// A non-empty run of decimal digits.
pub open spec fn all_digits(s: Seq<char>) -> bool {
    s.len() > 0 && forall|i: int| 0 <= i < s.len() ==> is_digit(#[trigger] s[i])
}

/// The number carried by the highest entry number, or 0 when there is none or
/// it is not of the form `JE-<number>`.
pub open spec fn je_sequence_value(max: Option<Seq<char>>) -> nat {
    match max {
        None => 0,
        Some(s) => if s.len() >= 3 && s.take(3) == "JE-"@ {
            match parsed_u32(s.skip(3)) {
                Some(n) => n,
                None => 0,
            }
        } else {
            0
        },
    }
}

/// Entry number text `JE-NNNN` (at least four digits).
pub open spec fn je_number_text(n: nat) -> Seq<char> {
    "JE-"@ + zero_padded(n, 4)
}

/// Parses an unsigned decimal number the way `str::parse::<u32>` does.
pub fn parse_u32(s: &Vec<char>) -> (r: Option<u32>)
    ensures
        r matches Some(v) ==> parsed_u32(s@) == Some(v as nat),
        r is None ==> parsed_u32(s@) is None,
{
    let start: usize = if s.len() > 0 && s[0] == '+' { 1 } else { 0 };
    let ghost body = unsigned_body(s@);
    assert(body =~= s@.skip(start as int));
    if start >= s.len() {
        return None;
    }
    let mut value: u64 = 0;
    let mut i = start;
    while i < s.len()
        invariant
            start <= i <= s@.len(),
            body == s@.skip(start as int),
            body == unsigned_body(s@),
            forall|j: int| start <= j < i ==> is_digit(#[trigger] s@[j]),
            value == digits_value(s@.subrange(start as int, i as int)),
            value <= u32::MAX,
        decreases s@.len() - i,
    {
        let c = s[i];
        if !('0' <= c && c <= '9') {
            proof {
                let j = i - start;
                assert(body[j] == s@[i as int]);
                assert(!is_digit(body[j]));
                assert(!all_digits(body));
            }
            return None;
        }
        let d: u64 = (c as u64) - ('0' as u64);
        let ghost sub = s@.subrange(start as int, i + 1);
        assert(sub.drop_last() =~= s@.subrange(start as int, i as int));
        let next: u64 = value * 10 + d;
        if next > 4_294_967_295 {
            proof {
                assert(body.take((i + 1 - start) as int) =~= sub);
                if all_digits(body) {
                    lemma_digits_value_prefix_bound(body, (i + 1 - start) as int);
                    assert(digits_value(body) > u32::MAX);
                }
            }
            return None;
        }
        value = next;
        i = i + 1;
    }
    assert(s@.subrange(start as int, s@.len() as int) =~= body);
    Some(value as u32)
}

/// A prefix of a digit run never has a larger value than the whole run.
pub proof fn lemma_digits_value_prefix_bound(s: Seq<char>, k: int)
    requires
        0 <= k <= s.len(),
        forall|i: int| 0 <= i < s.len() ==> is_digit(#[trigger] s[i]),
    ensures
        digits_value(s.take(k)) <= digits_value(s),
        0 <= digits_value(s.take(k)),
    decreases s.len(),
{
    if k < s.len() {
        lemma_digits_value_prefix_bound(s.drop_last(), k);
        assert(s.drop_last().take(k) =~= s.take(k));
        assert(is_digit(s.last()));
    } else {
        assert(s.take(k) =~= s);
        lemma_digits_value_nonneg(s);
    }
}

/// Digit runs have non-negative values.
pub proof fn lemma_digits_value_nonneg(s: Seq<char>)
    requires
        forall|i: int| 0 <= i < s.len() ==> is_digit(#[trigger] s[i]),
    ensures
        0 <= digits_value(s),
    decreases s.len(),
{
    if s.len() > 0 {
        lemma_digits_value_nonneg(s.drop_last());
        assert(is_digit(s.last()));
    }
}

/// A decimal digit character has the digit's value.
proof fn lemma_digit_char_value(d: int)
    requires
        0 <= d < 10,
    ensures
        digit_value(digit_char(d)) == d,
        is_digit(digit_char(d)),
{
}

/// The decimal representation of `n` is a digit run whose value is `n`.
proof fn lemma_decimal_digits_value(n: nat)
    ensures
        digits_value(decimal_digits(n)) == n,
        forall|i: int| 0 <= i < decimal_digits(n).len() ==> is_digit(#[trigger] decimal_digits(n)[i]),
    decreases n,
{
    let s = decimal_digits(n);
    if n < 10 {
        lemma_digit_char_value(n as int);
        assert(s == seq![digit_char(n as int)]);
        assert(s.drop_last() =~= Seq::<char>::empty());
        assert(s.last() == digit_char(n as int));
        assert(digits_value(s) == digits_value(s.drop_last()) * 10 + digit_value(s.last()));
    } else {
        lemma_decimal_digits_value(n / 10);
        lemma_digit_char_value((n % 10) as int);
        assert(s == decimal_digits(n / 10).push(digit_char((n % 10) as int)));
        assert(s.drop_last() =~= decimal_digits(n / 10));
        assert(s.last() == digit_char((n % 10) as int));
        assert(digits_value(s) == digits_value(s.drop_last()) * 10 + digit_value(s.last()));
        assert((n / 10) * 10 + n % 10 == n) by (nonlinear_arith);
        assert forall|i: int| 0 <= i < s.len() implies is_digit(#[trigger] s[i]) by {
            if i < s.len() - 1 {
                assert(s[i] == decimal_digits(n / 10)[i]);
            }
        }
    }
}

/// Leading zeros do not change the value of a digit run.
proof fn lemma_leading_zeros(z: nat, s: Seq<char>)
    ensures
        digits_value(Seq::new(z, |i: int| '0') + s) == digits_value(s),
    decreases s.len(),
{
    let zs = Seq::new(z, |i: int| '0');
    if s.len() == 0 {
        assert(zs + s =~= zs);
        lemma_zeros_value(z);
    } else {
        lemma_leading_zeros(z, s.drop_last());
        assert((zs + s).drop_last() =~= zs + s.drop_last());
        assert((zs + s).last() == s.last());
    }
}

/// A run of zeros has value 0.
proof fn lemma_zeros_value(z: nat)
    ensures
        digits_value(Seq::new(z, |i: int| '0')) == 0,
    decreases z,
{
    if z > 0 {
        lemma_zeros_value((z - 1) as nat);
        assert(Seq::new(z, |i: int| '0').drop_last() =~= Seq::new((z - 1) as nat, |i: int| '0'));
    }
}

/// Entry numbers read back as the number they were made from, so numbering
/// is sequential: the entry after `JE-n` is `JE-(n+1)`.
pub proof fn lemma_je_number_round_trip(n: nat)
    requires
        n <= u32::MAX,
    ensures
        je_sequence_value(Some(je_number_text(n))) == n,
{
    reveal_strlit("JE-");
    let t = je_number_text(n);
    let z = zero_padded(n, 4);
    assert(t.take(3) =~= "JE-"@);
    assert(t.skip(3) =~= z);
    lemma_decimal_digits_value(n);
    let d = decimal_digits(n);
    crate::text::lemma_decimal_digits_len(n);
    if d.len() >= 4 {
        assert(z == d);
    } else {
        lemma_leading_zeros((4 - d.len()) as nat, d);
        assert(z == Seq::new((4 - d.len()) as nat, |i: int| '0') + d);
    }
    assert(z.len() > 0);
    assert forall|i: int| 0 <= i < z.len() implies is_digit(#[trigger] z[i]) by {
        if d.len() < 4 && i < 4 - d.len() {
        } else if d.len() < 4 {
            assert(z[i] == d[i - (4 - d.len())]);
        }
    }
    assert(z[0] != '+');
    assert(unsigned_body(z) == z);
}

/// The next journal entry number, given the highest number ever issued (0
/// before the first): `JE-0001` first, then one more than the last issued, so
/// a number is never issued twice, even after the entry holding it is deleted.
pub fn next_je_number(last_issued: u32) -> (s: String)
    requires
        last_issued < u32::MAX,
    ensures
        s@ == je_number_text((last_issued + 1) as nat),
{
    let next = last_issued + 1;
    let mut out: Vec<char> = Vec::new();
    out.push('J');
    out.push('E');
    out.push('-');
    push_zero_padded(&mut out, next as u64, 4);
    proof {
        reveal_strlit("JE-");
    }
    assert(out@ =~= je_number_text(next as nat));
    string_from_chars(&out)
}

/// The highest number carried by the first `k` entry numbers (0 when none carries one).
pub open spec fn highest_sequence(numbers: Seq<String>, k: int) -> nat
    decreases k,
{
    if k <= 0 {
        0
    } else {
        let prev = highest_sequence(numbers, k - 1);
        let v = je_sequence_value(Some(numbers[k - 1]@));
        if v > prev { v } else { prev }
    }
}

/// The highest number carried by any of the given entry numbers (0 when none
/// carries one): where numbering resumes for a ledger whose entries were
/// numbered before the last issued number was kept.
pub fn highest_je_sequence(numbers: &[String]) -> (r: u32)
    ensures
        r == highest_sequence(numbers@, numbers@.len() as int),
{
    let mut best: u32 = 0;
    let mut i: usize = 0;
    while i < numbers.len()
        invariant
            i <= numbers@.len(),
            best == highest_sequence(numbers@, i as int),
        decreases numbers@.len() - i,
    {
        let v = je_sequence(Some(numbers[i].as_str()));
        if v > best {
            best = v;
        }
        i = i + 1;
    }
    best
}

/// Numbers issued one after another never repeat: every number issued before
/// (`JE-k`, for `k` up to the last issued) reads back as a smaller number than
/// the next one issued, and differs from it as text.
pub proof fn lemma_new_number_exceeds_issued(last_issued: nat, k: nat)
    requires
        1 <= k <= last_issued,
        last_issued < u32::MAX,
    ensures
        je_sequence_value(Some(je_number_text(k))) < je_sequence_value(Some(je_number_text(last_issued + 1))),
        je_number_text(k) != je_number_text(last_issued + 1),
{
    lemma_je_number_round_trip(k);
    lemma_je_number_round_trip(last_issued + 1);
}

/// The number carried by an entry number (`None` for no entry): the number
/// after the `JE-` prefix, or 0 when it does not parse.
pub fn je_sequence(max: Option<&str>) -> (n: u32)
    ensures
        n == je_sequence_value(match max { Some(m) => Some(m@), None => None }),
{
    match max {
        None => 0,
        Some(m) => {
            let v = str_chars(m);
            proof {
                reveal_strlit("JE-");
            }
            if v.len() >= 3 && v[0] == 'J' && v[1] == 'E' && v[2] == '-' {
                assert(v@.take(3) =~= "JE-"@);
                let mut rest: Vec<char> = Vec::new();
                let mut i: usize = 3;
                while i < v.len()
                    invariant
                        3 <= i <= v@.len(),
                        rest@ == v@.subrange(3, i as int),
                    decreases v@.len() - i,
                {
                    rest.push(v[i]);
                    i = i + 1;
                }
                assert(rest@ =~= v@.skip(3));
                match parse_u32(&rest) {
                    Some(n) => n,
                    None => 0,
                }
            } else {
                assert(!(v@.len() >= 3 && v@.take(3) == "JE-"@)) by {
                    if v@.len() >= 3 && v@.take(3) == "JE-"@ {
                        assert(v@[0] == v@.take(3)[0]);
                        assert(v@[1] == v@.take(3)[1]);
                        assert(v@[2] == v@.take(3)[2]);
                    }
                }
                0
            }
        },
    }
}

// ── Status and reconcile rules ───────────────────────────────────────────────

/// Why a reconcile state change is refused.
#[derive(Clone, Copy, Debug, PartialEq, Eq, Structural)]
pub enum ReconcileError {
    /// The line is already reconciled; that state is permanent.
    AlreadyReconciled,
    /// The line's entry lies in a closed fiscal period.
    PeriodClosed,
}

/// Decides whether a line's reconcile state may change. A reconciled line is
/// never changed; otherwise a line in a closed period is not changed either.
pub fn check_reconcile_change(current: ReconcileState, period_closed: bool) -> (r: Result<(), ReconcileError>)
    ensures
        current == ReconcileState::Reconciled ==> r == Err::<(), ReconcileError>(ReconcileError::AlreadyReconciled),
        current != ReconcileState::Reconciled && period_closed ==> r == Err::<(), ReconcileError>(ReconcileError::PeriodClosed),
        current != ReconcileState::Reconciled && !period_closed ==> r is Ok,
{
    if current == ReconcileState::Reconciled {
        Err(ReconcileError::AlreadyReconciled)
    } else if period_closed {
        Err(ReconcileError::PeriodClosed)
    } else {
        Ok(())
    }
}

/// Only draft entries may be edited or deleted; posted entries are reversed instead.
pub fn is_editable(status: JournalEntryStatus) -> (b: bool)
    ensures
        b == (status == JournalEntryStatus::Draft),
{
    match status {
        JournalEntryStatus::Draft => true,
        JournalEntryStatus::Posted => false,
    }
}

/// A new entry may be created only in an open fiscal period.
pub fn may_create_in_period(period_closed: bool) -> (b: bool)
    ensures
        b == !period_closed,
{
    !period_closed
}

// ── Running balances ─────────────────────────────────────────────────────────

/// Net of the first `k` lines: debits minus credits.
pub open spec fn net_upto(lines: Seq<LedgerLine>, k: int) -> int
    decreases k,
{
    if k <= 0 {
        0
    } else {
        net_upto(lines, k - 1) + lines[k - 1].debit.0 - lines[k - 1].credit.0
    }
}

/// Every running balance along the lines fits in an `i64`.
pub open spec fn running_fits(lines: Seq<LedgerLine>) -> bool {
    forall|k: int| 0 <= k <= lines.len() ==> i64::MIN <= #[trigger] net_upto(lines, k) <= i64::MAX
}

/// Adds a running balance to each line, starting from zero at the first line.
pub fn with_running_balance(lines: Vec<LedgerLine>) -> (rows: Vec<LedgerRow>)
    requires
        running_fits(lines@),
    ensures
        rows@.len() == lines@.len(),
        forall|k: int| 0 <= k < rows@.len() ==> {
            &&& #[trigger] rows@[k].running_balance.0 == net_upto(lines@, k + 1)
            &&& rows@[k].debit == lines@[k].debit
            &&& rows@[k].credit == lines@[k].credit
            &&& rows@[k].je_id == lines@[k].je_id
            &&& rows@[k].je_number == lines@[k].je_number
            &&& rows@[k].entry_date == lines@[k].entry_date
            &&& rows@[k].memo == lines@[k].memo
            &&& rows@[k].reconcile_state == lines@[k].reconcile_state
        },
{
    let ghost orig = lines@;
    let n = lines.len();
    let mut rows: Vec<LedgerRow> = Vec::new();
    let mut balance = Money(0);
    let mut rest = lines;
    let mut i: usize = 0;
    while i < n
        invariant
            n == orig.len(),
            running_fits(orig),
            i <= n,
            rows@.len() == i,
            balance.0 == net_upto(orig, i as int),
            rest@ == orig.subrange(i as int, n as int),
            forall|k: int| 0 <= k < i ==> #[trigger] rows@[k].running_balance.0 == net_upto(orig, k + 1),
            forall|k: int| 0 <= k < i ==> #[trigger] rows@[k].debit == orig[k].debit,
            forall|k: int| 0 <= k < i ==> #[trigger] rows@[k].credit == orig[k].credit,
            forall|k: int| 0 <= k < i ==> #[trigger] rows@[k].je_id == orig[k].je_id,
            forall|k: int| 0 <= k < i ==> #[trigger] rows@[k].je_number == orig[k].je_number,
            forall|k: int| 0 <= k < i ==> #[trigger] rows@[k].entry_date == orig[k].entry_date,
            forall|k: int| 0 <= k < i ==> #[trigger] rows@[k].memo == orig[k].memo,
            forall|k: int| 0 <= k < i ==> #[trigger] rows@[k].reconcile_state == orig[k].reconcile_state,
        decreases n - i,
    {
        let line = rest.remove(0);
        assert(line == orig[i as int]);
        assert(rest@ =~= orig.subrange(i + 1, n as int));
        proof {
            assert(i64::MIN <= net_upto(orig, i + 1) <= i64::MAX);
        }
        let next: i128 = (balance.0 as i128) + (line.debit.0 as i128) - (line.credit.0 as i128);
        assert(next == net_upto(orig, i + 1));
        balance = Money(next as i64);
        let ghost before = rows@;
        rows.push(LedgerRow {
            je_id: line.je_id,
            je_number: line.je_number,
            entry_date: line.entry_date,
            memo: line.memo,
            debit: line.debit,
            credit: line.credit,
            reconcile_state: line.reconcile_state,
            running_balance: balance,
        });
        assert forall|k: int| 0 <= k < i + 1 implies {
            &&& #[trigger] rows@[k].running_balance.0 == net_upto(orig, k + 1)
            &&& rows@[k].debit == orig[k].debit
            &&& rows@[k].credit == orig[k].credit
            &&& rows@[k].je_id == orig[k].je_id
            &&& rows@[k].je_number == orig[k].je_number
            &&& rows@[k].entry_date == orig[k].entry_date
            &&& rows@[k].memo == orig[k].memo
            &&& rows@[k].reconcile_state == orig[k].reconcile_state
        } by {
            if k < i {
                assert(rows@[k] == before[k]);
                assert(before[k].running_balance.0 == net_upto(orig, k + 1));
            }
        }
        i = i + 1;
    }
    rows
}

} // verus!
