//! The shared header of the inter-entity entry form and the validation of a
//! submitted form.
//!
//! The form has one date and one memo for both entries, then a line-item
//! section per entity. Keys in the header move between Date and Memo and
//! into entity A's lines; the date field holds at most ten bytes of text.

use vstd::prelude::*;
use vstd::string::StringSliceAdditionalSpecFns;
use crate::date::{Date, iso_text, valid_date, four_digit_year, parsed_iso_date, days_in_month_of, today, calendar_date, chrono_date_text, chrono_format};
use crate::accounts::Account;
use crate::ledger::NewJournalEntryLine;
use crate::types::AccountId;
use crate::money::{Money, money_text};
use crate::text::{str_chars, string_from_chars, push_str, push_chars};

verus! {

/// A key the form reacts to.
#[derive(Debug, Clone, Copy, PartialEq, Eq, Structural)]
pub enum FormKey {
    Tab,
    BackTab,
    Enter,
    Backspace,
    Esc,
    CtrlS,
    Char(char),
    Other,
}

/// The part of the form that has the keyboard.
#[derive(Debug, Clone, Copy, PartialEq, Eq, Structural)]
pub enum FormSection {
    /// The shared date and memo.
    Header,
    /// Entity A's lines.
    EntityA,
    /// Entity B's lines.
    EntityB,
}

/// The header field that has the keyboard.
#[derive(Debug, Clone, Copy, PartialEq, Eq, Structural)]
pub enum HeaderFocus {
    Date,
    Memo,
}

/// The validated content of a submitted form.
#[derive(Debug, Clone)]
pub struct InterEntityFormOutput {
    pub entry_date: Date,
    pub memo: Option<String>,
    pub primary_lines: Vec<NewJournalEntryLine>,
    pub secondary_lines: Vec<NewJournalEntryLine>,
}

/// What a key did to the form, as its caller sees it.
#[derive(Debug, Clone)]
pub enum InterEntityFormAction {
    /// The form validated and was submitted.
    Submitted(InterEntityFormOutput),
    /// The user left the form.
    Cancelled,
    /// The key was consumed; nothing for the caller to do.
    Pending,
}

/// The shared header, focus, exit prompt and error line of the inter-entity form.
#[derive(Debug, Clone)]
pub struct InterEntityForm {
    date_input: Vec<char>,
    memo_input: Vec<char>,
    header_focus: HeaderFocus,
    section: FormSection,
    exit_confirm: bool,
    error: Option<String>,
}

/// Where a key goes.
#[derive(Debug, Clone, Copy, PartialEq, Eq, Structural)]
pub enum KeyRoute {
    /// The user confirmed leaving the form.
    Cancelled,
    /// The key was consumed.
    Pending,
    /// Ctrl+S: validate both sides and submit.
    Submit,
    /// Esc: leave, asking first when the form holds content.
    Exit,
    /// The header handled the key; the move is for the enclosing form.
    Header(HeaderMove),
    /// The key belongs to entity A's lines.
    EntityA,
    /// The key belongs to entity B's lines.
    EntityB,
}

/// What a header key asks of the enclosing form.
#[derive(Debug, Clone, Copy, PartialEq, Eq, Structural)]
pub enum HeaderMove {
    /// Nothing beyond the header's own change.
    Stay,
    /// Focus entity A's lines (skipping its own date and memo).
    EnterEntityA,
    /// Focus entity B's section where it was.
    EnterEntityB,
}

/// What the form answers its caller for a route that needs no further work:
/// `Cancelled` when the user left, `Pending` for a key the form consumed (any
/// header key, Tab from the memo into entity A's lines included); `None` for
/// the routes the caller still acts on (submit, a request to leave, a key for
/// an entity's lines).
pub fn settled_action(route: KeyRoute) -> (a: Option<InterEntityFormAction>)
    ensures
        route == KeyRoute::Cancelled ==> a matches Some(InterEntityFormAction::Cancelled),
        route == KeyRoute::Pending || route is Header ==> a matches Some(InterEntityFormAction::Pending),
        route == KeyRoute::Submit || route == KeyRoute::Exit || route == KeyRoute::EntityA || route == KeyRoute::EntityB
            ==> a is None,
{
    match route {
        KeyRoute::Cancelled => Some(InterEntityFormAction::Cancelled),
        KeyRoute::Pending | KeyRoute::Header(_) => Some(InterEntityFormAction::Pending),
        _ => None,
    }
}

/// The byte length of a text in UTF-8, as `str::len` reports it.
pub open spec fn utf8_len(s: Seq<char>) -> usize {
    vstd::utf8::encode_utf8(s).len() as usize
}

/// The header after a key: focus, section, date and memo text, and the move asked of the form.
pub open spec fn header_after(
    focus: HeaderFocus,
    date: Seq<char>,
    memo: Seq<char>,
    key: FormKey,
) -> (HeaderFocus, FormSection, Seq<char>, Seq<char>, HeaderMove) {
    match key {
        FormKey::Tab | FormKey::Enter => if focus == HeaderFocus::Date {
            (HeaderFocus::Memo, FormSection::Header, date, memo, HeaderMove::Stay)
        } else {
            (HeaderFocus::Memo, FormSection::EntityA, date, memo, HeaderMove::EnterEntityA)
        },
        FormKey::BackTab => if focus == HeaderFocus::Date {
            (HeaderFocus::Date, FormSection::EntityB, date, memo, HeaderMove::EnterEntityB)
        } else {
            (HeaderFocus::Date, FormSection::Header, date, memo, HeaderMove::Stay)
        },
        FormKey::Backspace => if focus == HeaderFocus::Date {
            (focus, FormSection::Header, if date.len() > 0 { date.drop_last() } else { date }, memo, HeaderMove::Stay)
        } else {
            (focus, FormSection::Header, date, if memo.len() > 0 { memo.drop_last() } else { memo }, HeaderMove::Stay)
        },
        FormKey::Char(c) => if focus == HeaderFocus::Date {
            (focus, FormSection::Header, if utf8_len(date) < 10 { date.push(c) } else { date }, memo, HeaderMove::Stay)
        } else {
            (focus, FormSection::Header, date, memo.push(c), HeaderMove::Stay)
        },
        _ => (focus, FormSection::Header, date, memo, HeaderMove::Stay),
    }
}

/// The byte length of a text in UTF-8.
fn utf8_byte_len(v: &Vec<char>) -> (n: usize)
    ensures
        n == utf8_len(v@),
{
    let s = string_from_chars(v);
    s.as_str().len()
}

/// One row of an entity's account list beside the form.
#[derive(Debug, Clone)]
pub struct AccountListRow {
    pub number: String,
    pub name: String,
    /// The available-balance cell, when the list shows that column.
    pub avail: Option<String>,
    /// Placeholder accounts are shown dimmed.
    pub dimmed: bool,
}

/// The available balance of an account among `(account, amount)` pairs: the first match.
pub open spec fn avail_of(avail: Seq<(AccountId, Money)>, id: AccountId) -> Option<Money>
    decreases avail.len(),
{
    if avail.len() == 0 {
        None
    } else if avail[0].0 == id {
        Some(avail[0].1)
    } else {
        avail_of(avail.drop_first(), id)
    }
}

/// With distinct account ids, as the keys of a map are, the balance found for
/// an account is the one paired with it.
pub proof fn lemma_avail_of_distinct(avail: Seq<(AccountId, Money)>, k: int)
    requires
        0 <= k < avail.len(),
        forall|i: int, j: int| 0 <= i < j < avail.len() ==> #[trigger] avail[i].0 != #[trigger] avail[j].0,
    ensures
        avail_of(avail, avail[k].0) == Some(avail[k].1),
    decreases k,
{
    if k > 0 {
        let rest = avail.drop_first();
        assert(avail[0].0 != avail[k].0);
        assert(rest[k - 1] == avail[k]);
        assert forall|i: int, j: int| 0 <= i < j < rest.len() implies #[trigger] rest[i].0 != #[trigger] rest[j].0 by {
            assert(rest[i] == avail[i + 1] && rest[j] == avail[j + 1]);
        }
        lemma_avail_of_distinct(rest, k - 1);
    }
}

/// The row shown for an account.
pub open spec fn account_list_row_ok(r: AccountListRow, a: Account, avail: Seq<(AccountId, Money)>) -> bool {
    &&& r.number@ == a.number@
    &&& r.name@ == a.name@
    &&& r.dimmed == a.is_placeholder
    &&& if avail.len() == 0 {
        r.avail is None
    } else {
        r.avail matches Some(t) && t@ == match avail_of(avail, a.id) {
            Some(m) => money_text(m.0 as int),
            None => Seq::<char>::empty(),
        }
    }
}

fn find_avail(avail: &[(AccountId, Money)], id: AccountId) -> (r: Option<Money>)
    ensures
        r == avail_of(avail@, id),
{
    let mut i: usize = 0;
    assert(avail@.skip(0) =~= avail@);
    while i < avail.len()
        invariant
            i <= avail@.len(),
            avail_of(avail@, id) == avail_of(avail@.skip(i as int), id),
        decreases avail@.len() - i,
    {
        assert(avail@.skip(i as int)[0] == avail@[i as int]);
        if avail[i].0 == id {
            return Some(avail[i].1);
        }
        assert(avail@.skip(i as int).drop_first() =~= avail@.skip(i + 1));
        i = i + 1;
    }
    None
}

/// The rows of an entity's account list: number, name, the available balance
/// (only when any balances are known; blank for accounts without one), and
/// whether the row is dimmed.
pub fn account_list_rows(accounts: &[Account], avail: &[(AccountId, Money)]) -> (rows: Vec<AccountListRow>)
    ensures
        rows@.len() == accounts@.len(),
        forall|i: int| 0 <= i < accounts@.len() ==> account_list_row_ok(#[trigger] rows@[i], accounts@[i], avail@),
{
    let has_avail = avail.len() > 0;
    let mut rows: Vec<AccountListRow> = Vec::new();
    let mut i: usize = 0;
    while i < accounts.len()
        invariant
            i <= accounts@.len(),
            has_avail == (avail@.len() > 0),
            rows@.len() == i,
            forall|j: int| 0 <= j < i ==> account_list_row_ok(#[trigger] rows@[j], accounts@[j], avail@),
        decreases accounts@.len() - i,
    {
        let a = &accounts[i];
        let cell = if has_avail {
            match find_avail(avail, a.id) {
                Some(m) => Some(m.to_string()),
                None => Some(String::new()),
            }
        } else {
            None
        };
        rows.push(AccountListRow { number: a.number.clone(), name: a.name.clone(), avail: cell, dimmed: a.is_placeholder });
        i = i + 1;
    }
    rows
}

/// Total debits of the first `k` lines.
pub open spec fn lines_debits(lines: Seq<NewJournalEntryLine>, k: int) -> int
    decreases k,
{
    if k <= 0 { 0 } else { lines_debits(lines, k - 1) + lines[k - 1].debit_amount.0 }
}

/// Total credits of the first `k` lines.
pub open spec fn lines_credits(lines: Seq<NewJournalEntryLine>, k: int) -> int
    decreases k,
{
    if k <= 0 { 0 } else { lines_credits(lines, k - 1) + lines[k - 1].credit_amount.0 }
}

/// The running totals of a side stay within `i64`.
pub open spec fn totals_fit(lines: Seq<NewJournalEntryLine>) -> bool {
    &&& forall|k: int| 0 <= k <= lines.len() ==> i64::MIN <= #[trigger] lines_debits(lines, k) <= i64::MAX
    &&& forall|k: int| 0 <= k <= lines.len() ==> i64::MIN <= #[trigger] lines_credits(lines, k) <= i64::MAX
}

/// A side balances: its debits equal its credits.
pub open spec fn side_balances(lines: Seq<NewJournalEntryLine>) -> bool {
    lines_debits(lines, lines.len() as int) == lines_credits(lines, lines.len() as int)
}

/// The message for a side that does not balance.
pub open spec fn imbalance_text(side: Seq<char>, lines: Seq<NewJournalEntryLine>) -> Seq<char> {
    "Entity "@ + side + " lines do not balance: debits="@ + money_text(lines_debits(lines, lines.len() as int))
        + ", credits="@ + money_text(lines_credits(lines, lines.len() as int))
}

/// The message for a date that does not parse.
pub open spec fn invalid_date_text(date: Seq<char>) -> Seq<char> {
    "Invalid date '"@ + date + "'. Use YYYY-MM-DD format."@
}

/// A character with the Unicode `White_Space` property, the whitespace that
/// std's `str::trim` removes.
pub open spec fn is_white_space(c: char) -> bool {
    ||| '\u{9}' <= c <= '\u{d}'
    ||| c == ' ' || c == '\u{85}' || c == '\u{a0}' || c == '\u{1680}'
    ||| '\u{2000}' <= c <= '\u{200a}'
    ||| c == '\u{2028}' || c == '\u{2029}' || c == '\u{202f}' || c == '\u{205f}' || c == '\u{3000}'
}

/// The text without its leading whitespace.
pub open spec fn trim_start_of(s: Seq<char>) -> Seq<char>
    decreases s.len(),
{
    if s.len() > 0 && is_white_space(s[0]) { trim_start_of(s.drop_first()) } else { s }
}

/// The text without its trailing whitespace.
pub open spec fn trim_end_of(s: Seq<char>) -> Seq<char>
    decreases s.len(),
{
    if s.len() > 0 && is_white_space(s.last()) { trim_end_of(s.drop_last()) } else { s }
}

/// The text without leading and trailing whitespace, as std's `str::trim` gives it.
pub open spec fn trimmed(s: Seq<char>) -> Seq<char> {
    trim_end_of(trim_start_of(s))
}

fn white_space(c: char) -> (b: bool)
    ensures
        b == is_white_space(c),
{
    ('\u{9}' <= c && c <= '\u{d}') || c == ' ' || c == '\u{85}' || c == '\u{a0}' || c == '\u{1680}'
        || ('\u{2000}' <= c && c <= '\u{200a}') || c == '\u{2028}' || c == '\u{2029}' || c == '\u{202f}'
        || c == '\u{205f}' || c == '\u{3000}'
}

/// Removes leading and trailing whitespace.
fn trim_text(s: &str) -> (r: String)
    ensures
        r@ == trimmed(s@),
{
    let v = str_chars(s);
    let n = v.len();
    let mut i: usize = 0;
    assert(v@.skip(0) =~= v@);
    while i < n && white_space(v[i])
        invariant
            n == v@.len(),
            i <= n,
            trim_start_of(v@) == trim_start_of(v@.skip(i as int)),
        decreases n - i,
    {
        assert(v@.skip(i as int).drop_first() =~= v@.skip(i + 1));
        i = i + 1;
    }
    let ghost t = v@.skip(i as int);
    assert(trim_start_of(v@) == t);
    let mut j: usize = n;
    assert(t.take((j - i) as int) =~= t);
    while j > i && white_space(v[j - 1])
        invariant
            n == v@.len(),
            i <= j <= n,
            t == v@.skip(i as int),
            trim_end_of(t) == trim_end_of(t.take((j - i) as int)),
        decreases j - i,
    {
        assert(t.take((j - i) as int).last() == v@[j - 1]);
        assert(t.take((j - i) as int).drop_last() =~= t.take((j - 1 - i) as int));
        j = j - 1;
    }
    let mut out: Vec<char> = Vec::new();
    let mut k: usize = i;
    while k < j
        invariant
            i <= k <= j <= n,
            n == v@.len(),
            out@ == v@.subrange(i as int, k as int),
        decreases j - k,
    {
        out.push(v[k]);
        k = k + 1;
    }
    assert(out@ =~= t.take((j - i) as int));
    if j > i {
        assert(t.take((j - i) as int).last() == v@[j - 1]);
    }
    string_from_chars(&out)
}

/// The memo kept from a trimmed memo text: none when it is empty.
pub fn memo_from_trimmed(t: String) -> (m: Option<String>)
    ensures
        t@.len() == 0 ==> m is None,
        t@.len() > 0 ==> m == Some(t),
{
    if t.as_str().unicode_len() == 0 {
        None
    } else {
        Some(t)
    }
}

/// The totals of a side's lines.
fn side_totals(lines: &Vec<NewJournalEntryLine>) -> (r: (Money, Money))
    requires
        totals_fit(lines@),
    ensures
        r.0.0 == lines_debits(lines@, lines@.len() as int),
        r.1.0 == lines_credits(lines@, lines@.len() as int),
{
    let mut d = Money(0);
    let mut c = Money(0);
    let mut i: usize = 0;
    while i < lines.len()
        invariant
            totals_fit(lines@),
            i <= lines@.len(),
            d.0 == lines_debits(lines@, i as int),
            c.0 == lines_credits(lines@, i as int),
        decreases lines@.len() - i,
    {
        assert(i64::MIN <= lines_debits(lines@, i + 1) <= i64::MAX);
        assert(i64::MIN <= lines_credits(lines@, i + 1) <= i64::MAX);
        d = Money(d.0 + lines[i].debit_amount.0);
        c = Money(c.0 + lines[i].credit_amount.0);
        i = i + 1;
    }
    (d, c)
}

/// The error message when a side does not balance.
fn imbalance_message(side: &str, d: Money, c: Money) -> (s: String)
    ensures
        s@ == "Entity "@ + side@ + " lines do not balance: debits="@ + money_text(d.0 as int) + ", credits="@
            + money_text(c.0 as int),
{
    let mut v: Vec<char> = Vec::new();
    push_str(&mut v, "Entity ");
    push_str(&mut v, side);
    push_str(&mut v, " lines do not balance: debits=");
    let ds = d.to_string();
    push_str(&mut v, ds.as_str());
    push_str(&mut v, ", credits=");
    let cs = c.to_string();
    push_str(&mut v, cs.as_str());
    let s = string_from_chars(&v);
    assert(s@ =~= "Entity "@ + side@ + " lines do not balance: debits="@ + money_text(d.0 as int) + ", credits="@
        + money_text(c.0 as int));
    s
}

/// Prefixes a side's validation error with its tag (`[A] ` or `[B] `).
fn tagged(tag: &str, e: &String) -> (s: String)
    ensures
        s@ == tag@ + e@,
{
    let mut s = String::from_str(tag);
    s.append(e.as_str());
    s
}

/// The outcome of submitting a form whose date text is `date`, memo text
/// `memo`, and whose sides validated to `a` and `b` (each the lines, or the
/// side's validation error).
pub open spec fn submission(
    date: Seq<char>,
    memo: Seq<char>,
    a: Result<Vec<NewJournalEntryLine>, String>,
    b: Result<Vec<NewJournalEntryLine>, String>,
) -> Result<(Date, Option<Seq<char>>, Seq<NewJournalEntryLine>, Seq<NewJournalEntryLine>), Seq<char>> {
    match parsed_iso_date(date) {
        None => Err(invalid_date_text(date)),
        Some((y, m, d)) => match a {
            Err(e) => Err("[A] "@ + e@),
            Ok(al) => match b {
                Err(e) => Err("[B] "@ + e@),
                Ok(bl) => if !side_balances(al@) {
                    Err(imbalance_text("A"@, al@))
                } else if !side_balances(bl@) {
                    Err(imbalance_text("B"@, bl@))
                } else {
                    Ok((
                        Date { year: y as i32, month: m as u32, day: d as u32 },
                        if trimmed(memo).len() == 0 { None } else { Some(trimmed(memo)) },
                        al@,
                        bl@,
                    ))
                },
            },
        },
    }
}

impl InterEntityForm {
    /// The date text.
    pub closed spec fn date_view(&self) -> Seq<char> {
        self.date_input@
    }

    /// The memo text.
    pub closed spec fn memo_view(&self) -> Seq<char> {
        self.memo_input@
    }

    /// The focused header field.
    pub closed spec fn focus_view(&self) -> HeaderFocus {
        self.header_focus
    }

    /// The focused section.
    pub closed spec fn section_view(&self) -> FormSection {
        self.section
    }

    /// Whether the exit prompt is showing.
    pub closed spec fn confirming_view(&self) -> bool {
        self.exit_confirm
    }

    /// The validation error shown, if any.
    pub closed spec fn error_view(&self) -> Option<Seq<char>> {
        match self.error {
            Some(e) => Some(e@),
            None => None,
        }
    }

    /// A blank form focused on the date, prefilled with today's date on the
    /// local clock as chrono formats it with `%Y-%m-%d` (the ISO form for a
    /// four-digit year).
    pub fn new() -> (f: InterEntityForm)
        ensures
            exists|d: Date| {
                &&& calendar_date(d)
                &&& #[trigger] chrono_date_text(d.year as int, d.month as int, d.day as int, "%Y-%m-%d"@)
                    == Some(f.date_view())
                &&& four_digit_year(d) ==> f.date_view() == iso_text(d)
            },
            f.memo_view() == Seq::<char>::empty(),
            f.focus_view() == HeaderFocus::Date,
            f.section_view() == FormSection::Header,
            !f.confirming_view(),
            f.error_view() is None,
    {
        let d = today();
        let text = match chrono_format(d, "%Y-%m-%d") {
            Some(s) => s,
            None => {
                assert(false);
                String::new()
            },
        };
        let f = InterEntityForm {
            date_input: str_chars(text.as_str()),
            memo_input: Vec::new(),
            header_focus: HeaderFocus::Date,
            section: FormSection::Header,
            exit_confirm: false,
            error: None,
        };
        assert(calendar_date(d)
            && chrono_date_text(d.year as int, d.month as int, d.day as int, "%Y-%m-%d"@) == Some(f.date_view())
            && (four_digit_year(d) ==> f.date_view() == iso_text(d)));
        f
    }

    /// A blank form focused on the date, prefilled with `today` in ISO form.
    pub fn with_date(today: Date) -> (f: InterEntityForm)
        requires
            valid_date(today),
            four_digit_year(today),
        ensures
            f.date_view() == iso_text(today),
            f.memo_view() == Seq::<char>::empty(),
            f.focus_view() == HeaderFocus::Date,
            f.section_view() == FormSection::Header,
            !f.confirming_view(),
            f.error_view() is None,
    {
        let s = today.to_iso_string();
        InterEntityForm {
            date_input: str_chars(s.as_str()),
            memo_input: Vec::new(),
            header_focus: HeaderFocus::Date,
            section: FormSection::Header,
            exit_confirm: false,
            error: None,
        }
    }

    /// Whether the exit prompt is showing.
    pub fn is_confirming_exit(&self) -> (b: bool)
        ensures
            b == self.confirming_view(),
    {
        self.exit_confirm
    }

    /// The validation error shown, if any.
    pub fn error(&self) -> (e: Option<String>)
        ensures
            e matches Some(s) ==> self.error_view() == Some(s@),
            e is None ==> self.error_view() is None,
    {
        match &self.error {
            Some(e) => Some(e.clone()),
            None => None,
        }
    }

    /// The date text.
    pub fn date_input(&self) -> (s: String)
        ensures
            s@ == self.date_view(),
    {
        string_from_chars(&self.date_input)
    }

    /// The memo text.
    pub fn memo_input(&self) -> (s: String)
        ensures
            s@ == self.memo_view(),
    {
        string_from_chars(&self.memo_input)
    }

    /// The focused header field.
    pub fn header_focus(&self) -> (h: HeaderFocus)
        ensures
            h == self.focus_view(),
    {
        self.header_focus
    }

    /// The focused section.
    pub fn section(&self) -> (s: FormSection)
        ensures
            s == self.section_view(),
    {
        self.section
    }

    /// Moves the focus to a section, as the line sections do when they wrap.
    pub fn set_section(&mut self, section: FormSection, focus: HeaderFocus)
        ensures
            final(self).section_view() == section,
            final(self).focus_view() == focus,
            final(self).date_view() == old(self).date_view(),
            final(self).memo_view() == old(self).memo_view(),
            final(self).confirming_view() == old(self).confirming_view(),
            final(self).error_view() == old(self).error_view(),
    {
        self.section = section;
        self.header_focus = focus;
    }

    /// Replaces the header text, as when a form is reset or filled in.
    pub fn set_header(&mut self, date: &str, memo: &str)
        ensures
            final(self).date_view() == date@,
            final(self).memo_view() == memo@,
            final(self).focus_view() == old(self).focus_view(),
            final(self).section_view() == old(self).section_view(),
            final(self).confirming_view() == old(self).confirming_view(),
            final(self).error_view() == old(self).error_view(),
    {
        self.date_input = str_chars(date);
        self.memo_input = str_chars(memo);
    }

    /// Routes a key. While the exit prompt shows, `y` leaves and `n` or Esc
    /// dismisses the prompt; otherwise Ctrl+S submits, Esc asks to leave, and
    /// any other key clears the error and goes to the focused section.
    pub fn route_key(&mut self, key: FormKey) -> (r: KeyRoute)
        ensures
            old(self).confirming_view() ==> {
                &&& (key == FormKey::Char('y') || key == FormKey::Char('Y')) ==> r == KeyRoute::Cancelled
                    && final(self).confirming_view()
                &&& (key == FormKey::Char('n') || key == FormKey::Char('N') || key == FormKey::Esc) ==> r == KeyRoute::Pending
                    && !final(self).confirming_view()
                &&& !(key == FormKey::Char('y') || key == FormKey::Char('Y') || key == FormKey::Char('n') || key == FormKey::Char('N')
                    || key == FormKey::Esc) ==> r == KeyRoute::Pending && final(self).confirming_view()
                &&& final(self).date_view() == old(self).date_view() && final(self).memo_view() == old(self).memo_view()
                &&& final(self).focus_view() == old(self).focus_view() && final(self).section_view() == old(self).section_view()
                &&& final(self).error_view() == old(self).error_view()
            },
            !old(self).confirming_view() && key == FormKey::CtrlS ==> r == KeyRoute::Submit && *final(self) == *old(self),
            !old(self).confirming_view() && key == FormKey::Esc ==> r == KeyRoute::Exit && *final(self) == *old(self),
            !old(self).confirming_view() && key != FormKey::CtrlS && key != FormKey::Esc ==> {
                &&& final(self).error_view() is None
                &&& !final(self).confirming_view()
                &&& old(self).section_view() == FormSection::EntityA ==> r == KeyRoute::EntityA
                &&& old(self).section_view() == FormSection::EntityB ==> r == KeyRoute::EntityB
                &&& old(self).section_view() == FormSection::EntityA || old(self).section_view() == FormSection::EntityB
                    ==> final(self).date_view() == old(self).date_view() && final(self).memo_view() == old(self).memo_view()
                    && final(self).focus_view() == old(self).focus_view() && final(self).section_view() == old(self).section_view()
                &&& old(self).section_view() == FormSection::Header ==> (r matches KeyRoute::Header(m) && (
                    final(self).focus_view(),
                    final(self).section_view(),
                    final(self).date_view(),
                    final(self).memo_view(),
                    m,
                ) == header_after(old(self).focus_view(), old(self).date_view(), old(self).memo_view(), key))
            },
    {
        if self.exit_confirm {
            match key {
                FormKey::Char('y') | FormKey::Char('Y') => KeyRoute::Cancelled,
                FormKey::Char('n') | FormKey::Char('N') | FormKey::Esc => {
                    self.exit_confirm = false;
                    KeyRoute::Pending
                },
                _ => KeyRoute::Pending,
            }
        } else if key == FormKey::CtrlS {
            KeyRoute::Submit
        } else if key == FormKey::Esc {
            KeyRoute::Exit
        } else {
            self.error = None;
            match self.section {
                FormSection::Header => {
                    let m = self.handle_header_key(key);
                    KeyRoute::Header(m)
                },
                FormSection::EntityA => KeyRoute::EntityA,
                FormSection::EntityB => KeyRoute::EntityB,
            }
        }
    }

    /// Leaves the form, or shows the exit prompt when it holds content.
    /// Returns whether the form is left.
    pub fn request_exit(&mut self, has_content: bool) -> (left: bool)
        ensures
            left == !has_content,
            final(self).confirming_view() == (old(self).confirming_view() || has_content),
            final(self).date_view() == old(self).date_view(),
            final(self).memo_view() == old(self).memo_view(),
            final(self).focus_view() == old(self).focus_view(),
            final(self).section_view() == old(self).section_view(),
            final(self).error_view() == old(self).error_view(),
    {
        if has_content {
            self.exit_confirm = true;
            false
        } else {
            true
        }
    }

    /// Whether the header holds user content: a date other than `today_iso`, or a memo.
    pub fn header_has_content(&self, today_iso: &str) -> (b: bool)
        ensures
            b == (self.date_view() != today_iso@ || self.memo_view().len() > 0),
    {
        let today = str_chars(today_iso);
        let mut same = self.date_input.len() == today.len();
        if same {
            let mut i: usize = 0;
            while i < today.len()
                invariant
                    self.date_input@.len() == today@.len(),
                    i <= today@.len(),
                    same == (forall|k: int| 0 <= k < i ==> self.date_input@[k] == today@[k]),
                decreases today@.len() - i,
            {
                if self.date_input[i] != today[i] {
                    same = false;
                }
                i = i + 1;
            }
            if same {
                assert(self.date_input@ =~= today@);
            } else {
                assert(self.date_input@ != today@);
            }
        }
        !same || self.memo_input.len() > 0
    }

    /// Whether the form holds user content: the header, or either entity's lines.
    pub fn has_content(&self, today_iso: &str, a_has_content: bool, b_has_content: bool) -> (b: bool)
        ensures
            b == (self.date_view() != today_iso@ || self.memo_view().len() > 0 || a_has_content || b_has_content),
    {
        self.header_has_content(today_iso) || a_has_content || b_has_content
    }

    /// Validates the form: the shared date must parse as `YYYY-MM-DD`, each
    /// side's lines must have validated (`a`, `b`: the lines or the side's
    /// error), and each side must balance on its own. The memo is trimmed and
    /// dropped when empty.
    pub fn try_submit(
        &self,
        a: Result<Vec<NewJournalEntryLine>, String>,
        b: Result<Vec<NewJournalEntryLine>, String>,
    ) -> (r: Result<InterEntityFormOutput, String>)
        requires
            a matches Ok(l) ==> totals_fit(l@),
            b matches Ok(l) ==> totals_fit(l@),
        ensures
            match submission(self.date_view(), self.memo_view(), a, b) {
                Ok((d, m, al, bl)) => r matches Ok(o) && o.entry_date == d && o.primary_lines@ == al
                    && o.secondary_lines@ == bl && (match m {
                        Some(t) => o.memo matches Some(s) && s@ == t,
                        None => o.memo is None,
                    }),
                Err(e) => r matches Err(s) && s@ == e,
            },
    {
        let date_text = string_from_chars(&self.date_input);
        let entry_date = match Date::parse_iso(date_text.as_str()) {
            Some(d) => d,
            None => {
                let mut v: Vec<char> = Vec::new();
                push_str(&mut v, "Invalid date '");
                push_chars(&mut v, &self.date_input);
                push_str(&mut v, "'. Use YYYY-MM-DD format.");
                assert(v@ =~= invalid_date_text(self.date_input@));
                return Err(string_from_chars(&v));
            },
        };
        let primary_lines = match a {
            Ok(l) => l,
            Err(e) => {
                return Err(tagged("[A] ", &e));
            },
        };
        let secondary_lines = match b {
            Ok(l) => l,
            Err(e) => {
                return Err(tagged("[B] ", &e));
            },
        };
        let (ad, ac) = side_totals(&primary_lines);
        if ad.0 != ac.0 {
            return Err(imbalance_message("A", ad, ac));
        }
        let (bd, bc) = side_totals(&secondary_lines);
        if bd.0 != bc.0 {
            return Err(imbalance_message("B", bd, bc));
        }
        let memo_text = string_from_chars(&self.memo_input);
        let t = trim_text(memo_text.as_str());
        let memo = memo_from_trimmed(t);
        proof {
            reveal_strlit("A");
            reveal_strlit("B");
        }
        Ok(InterEntityFormOutput { entry_date, memo, primary_lines, secondary_lines })
    }

    /// Submits the form: the output when it validates; otherwise the error is
    /// shown on the form and nothing is returned.
    pub fn submit(
        &mut self,
        a: Result<Vec<NewJournalEntryLine>, String>,
        b: Result<Vec<NewJournalEntryLine>, String>,
    ) -> (r: Option<InterEntityFormOutput>)
        requires
            a matches Ok(l) ==> totals_fit(l@),
            b matches Ok(l) ==> totals_fit(l@),
        ensures
            final(self).date_view() == old(self).date_view(),
            final(self).memo_view() == old(self).memo_view(),
            final(self).focus_view() == old(self).focus_view(),
            final(self).section_view() == old(self).section_view(),
            final(self).confirming_view() == old(self).confirming_view(),
            match submission(old(self).date_view(), old(self).memo_view(), a, b) {
                Ok((d, m, al, bl)) => r matches Some(o) && o.entry_date == d && o.primary_lines@ == al
                    && o.secondary_lines@ == bl && final(self).error_view() == old(self).error_view(),
                Err(e) => r is None && final(self).error_view() == Some(e),
            },
    {
        match self.try_submit(a, b) {
            Ok(o) => Some(o),
            Err(e) => {
                self.error = Some(e);
                None
            },
        }
    }

    /// Handles a key while the header has the keyboard.
    pub fn handle_header_key(&mut self, key: FormKey) -> (m: HeaderMove)
        requires
            old(self).section_view() == FormSection::Header,
        ensures
            (final(self).focus_view(), final(self).section_view(), final(self).date_view(), final(self).memo_view(), m)
                == header_after(old(self).focus_view(), old(self).date_view(), old(self).memo_view(), key),
            final(self).confirming_view() == old(self).confirming_view(),
            final(self).error_view() == old(self).error_view(),
    {
        match key {
            FormKey::Tab | FormKey::Enter => {
                if self.header_focus == HeaderFocus::Date {
                    self.header_focus = HeaderFocus::Memo;
                    HeaderMove::Stay
                } else {
                    self.section = FormSection::EntityA;
                    HeaderMove::EnterEntityA
                }
            },
            FormKey::BackTab => {
                if self.header_focus == HeaderFocus::Date {
                    self.section = FormSection::EntityB;
                    HeaderMove::EnterEntityB
                } else {
                    self.header_focus = HeaderFocus::Date;
                    HeaderMove::Stay
                }
            },
            FormKey::Backspace => {
                if self.header_focus == HeaderFocus::Date {
                    if self.date_input.len() > 0 {
                        self.date_input.pop();
                    }
                } else {
                    if self.memo_input.len() > 0 {
                        self.memo_input.pop();
                    }
                }
                HeaderMove::Stay
            },
            FormKey::Char(c) => {
                if self.header_focus == HeaderFocus::Date {
                    if utf8_byte_len(&self.date_input) < 10 {
                        self.date_input.push(c);
                    }
                } else {
                    self.memo_input.push(c);
                }
                HeaderMove::Stay
            },
            _ => HeaderMove::Stay,
        }
    }
}

} // verus!
