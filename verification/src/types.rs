//! Identifiers and small enumerations shared across the ledger.

use vstd::prelude::*;
use crate::text::{str_chars, string_from_chars};

verus! {

/// A fresh random identifier from uuid (`Uuid::new_v4().to_string()`).
/// Claimed: the hyphenated text is 36 characters long, as uuid documents; the
/// value itself is random.
#[verifier::external_body]
pub(crate) fn new_uuid() -> (s: String)
    ensures
        s@.len() == 36,
{
    uuid::Uuid::new_v4().to_string()
}

/// Identifier of an account row.
#[derive(Clone, Copy, Debug, PartialEq, Eq, Hash, Structural)]
pub struct AccountId(pub i64);

/// Identifier of a journal entry.
#[derive(Clone, Copy, Debug, PartialEq, Eq, Hash, Structural)]
pub struct JournalEntryId(pub i64);

/// Identifier of a journal entry line.
#[derive(Clone, Copy, Debug, PartialEq, Eq, Hash, Structural)]
pub struct JournalEntryLineId(pub i64);

/// Identifier of a fiscal period.
#[derive(Clone, Copy, Debug, PartialEq, Eq, Hash, Structural)]
pub struct FiscalPeriodId(pub i64);

/// Identifier of a fiscal year.
#[derive(Clone, Copy, Debug, PartialEq, Eq, Hash, Structural)]
pub struct FiscalYearId(pub i64);

/// Identifier of a recurring entry template.
#[derive(Clone, Copy, Debug, PartialEq, Eq, Hash, Structural)]
pub struct RecurringTemplateId(pub i64);

/// Identifier of a fixed-asset record.
#[derive(Clone, Copy, Debug, PartialEq, Eq, Hash, Structural)]
pub struct FixedAssetDetailId(pub i64);

/// The five account classes of the chart of accounts.
#[derive(Clone, Copy, Debug, PartialEq, Eq, Hash, Structural)]
pub enum AccountType {
    Asset,
    Liability,
    Equity,
    Revenue,
    Expense,
}

/// Which side of the ledger increases an account.
#[derive(Clone, Copy, Debug, PartialEq, Eq, Structural)]
pub enum BalanceDirection {
    Debit,
    Credit,
}

/// The stored and displayed name of an account type.
pub open spec fn account_type_name(t: AccountType) -> Seq<char> {
    match t {
        AccountType::Asset => "Asset"@,
        AccountType::Liability => "Liability"@,
        AccountType::Equity => "Equity"@,
        AccountType::Revenue => "Revenue"@,
        AccountType::Expense => "Expense"@,
    }
}

/// The normal balance side of an account type: assets and expenses are
/// debit-normal; liabilities, equity and revenue are credit-normal.
pub open spec fn normal_side(t: AccountType) -> BalanceDirection {
    match t {
        AccountType::Asset | AccountType::Expense => BalanceDirection::Debit,
        _ => BalanceDirection::Credit,
    }
}

impl AccountType {
    /// The normal balance side of this account type.
    pub fn normal_balance(&self) -> (d: BalanceDirection)
        ensures
            d == normal_side(*self),
    {
        match self {
            AccountType::Asset | AccountType::Expense => BalanceDirection::Debit,
            _ => BalanceDirection::Credit,
        }
    }

    /// The name of this account type as a `String`.
    pub fn to_string(&self) -> (s: String)
        ensures
            s@ == account_type_name(*self),
    {
        let v = str_chars(self.as_str());
        string_from_chars(&v)
    }

    /// The name of this account type.
    pub fn as_str(&self) -> (s: &'static str)
        ensures
            s@ == account_type_name(*self),
    {
        match self {
            AccountType::Asset => "Asset",
            AccountType::Liability => "Liability",
            AccountType::Equity => "Equity",
            AccountType::Revenue => "Revenue",
            AccountType::Expense => "Expense",
        }
    }

    /// Parses a stored account type name.
    pub fn parse(s: &str) -> (t: Option<AccountType>)
        ensures
            t matches Some(t) ==> account_type_name(t) == s@,
            t is None ==> forall|u: AccountType| account_type_name(u) != s@,
    {
        let v = str_chars(s);
        if chars_equal(&v, "Asset") {
            Some(AccountType::Asset)
        } else if chars_equal(&v, "Liability") {
            Some(AccountType::Liability)
        } else if chars_equal(&v, "Equity") {
            Some(AccountType::Equity)
        } else if chars_equal(&v, "Revenue") {
            Some(AccountType::Revenue)
        } else if chars_equal(&v, "Expense") {
            Some(AccountType::Expense)
        } else {
            proof {
                assert forall|u: AccountType| account_type_name(u) != s@ by {
                    match u {
                        AccountType::Asset => {},
                        AccountType::Liability => {},
                        AccountType::Equity => {},
                        AccountType::Revenue => {},
                        AccountType::Expense => {},
                    }
                }
            }
            None
        }
    }
}

/// True when the characters in `v` are exactly those of `s`.
pub fn chars_equal(v: &Vec<char>, s: &str) -> (b: bool)
    ensures
        b == (v@ == s@),
{
    let n = s.unicode_len();
    if v.len() != n {
        return false;
    }
    let mut i: usize = 0;
    while i < n
        invariant
            n == s@.len(),
            v@.len() == n,
            i <= n,
            forall|j: int| 0 <= j < i ==> v@[j] == s@[j],
        decreases n - i,
    {
        if v[i] != s.get_char(i) {
            return false;
        }
        i = i + 1;
    }
    assert(v@ =~= s@);
    true
}

} // verus!
