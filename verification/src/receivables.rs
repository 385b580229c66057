//! Accounts receivable and payable: items, payments and the payment rules.
//!
//! An item starts `Open`. A payment must be positive, may not be recorded on a
//! `Paid` item, and may not bring the total paid above the item amount. After a
//! payment the item is `Paid` when fully paid and `Partial` otherwise.

use vstd::prelude::*;
use crate::date::Date;
use crate::money::Money;
use crate::text::{str_chars, push_str, push_chars, push_int, int_text, string_from_chars};
use crate::money::money_text;
use crate::types::{AccountId, JournalEntryId, chars_equal};

verus! {

/// Payment status of a receivable or payable item.
#[derive(Clone, Copy, Debug, PartialEq, Eq, Hash, Structural)]
pub enum ArApStatus {
    Open,
    Partial,
    Paid,
}

/// Stored name of a status.
pub open spec fn ar_ap_status_name(s: ArApStatus) -> Seq<char> {
    match s {
        ArApStatus::Open => "Open"@,
        ArApStatus::Partial => "Partial"@,
        ArApStatus::Paid => "Paid"@,
    }
}

impl ArApStatus {
    /// The stored name of this status.
    pub fn as_str(&self) -> (s: &'static str)
        ensures
            s@ == ar_ap_status_name(*self),
    {
        match self {
            ArApStatus::Open => "Open",
            ArApStatus::Partial => "Partial",
            ArApStatus::Paid => "Paid",
        }
    }

    /// Parses a stored status name.
    pub fn parse(s: &str) -> (r: Option<ArApStatus>)
        ensures
            r matches Some(t) ==> ar_ap_status_name(t) == s@,
            r is None ==> forall|t: ArApStatus| ar_ap_status_name(t) != s@,
    {
        let v = str_chars(s);
        if chars_equal(&v, "Open") {
            Some(ArApStatus::Open)
        } else if chars_equal(&v, "Partial") {
            Some(ArApStatus::Partial)
        } else if chars_equal(&v, "Paid") {
            Some(ArApStatus::Paid)
        } else {
            proof {
                assert forall|t: ArApStatus| ar_ap_status_name(t) != s@ by {
                    match t {
                        ArApStatus::Open => {},
                        ArApStatus::Partial => {},
                        ArApStatus::Paid => {},
                    }
                }
            }
            None
        }
    }
}

/// An accounts-receivable item.
#[derive(Debug, Clone, PartialEq)]
pub struct ArItem {
    pub id: i64,
    pub account_id: AccountId,
    pub customer_name: String,
    pub description: Option<String>,
    pub amount: Money,
    pub due_date: Date,
    pub status: ArApStatus,
    pub originating_je_id: JournalEntryId,
    pub created_at: String,
    pub updated_at: String,
}

/// Data required to create a new AR item.
#[derive(Debug, Clone)]
pub struct NewArItem {
    pub account_id: AccountId,
    pub customer_name: String,
    pub description: Option<String>,
    pub amount: Money,
    pub due_date: Date,
    pub originating_je_id: JournalEntryId,
}

/// A payment recorded against an AR item.
#[derive(Debug, Clone, PartialEq)]
pub struct ArPayment {
    pub id: i64,
    pub ar_item_id: i64,
    pub je_id: JournalEntryId,
    pub amount: Money,
    pub payment_date: Date,
    pub created_at: String,
}

/// Filter for listing AR items (`None` = no filter).
#[derive(Debug, Clone, Default)]
pub struct ArFilter {
    pub status: Option<ArApStatus>,
}

/// An accounts-payable item.
#[derive(Debug, Clone, PartialEq)]
pub struct ApItem {
    pub id: i64,
    pub account_id: AccountId,
    pub vendor_name: String,
    pub description: Option<String>,
    pub amount: Money,
    pub due_date: Date,
    pub status: ArApStatus,
    pub originating_je_id: JournalEntryId,
    pub created_at: String,
    pub updated_at: String,
}

/// Data required to create a new AP item.
#[derive(Debug, Clone)]
pub struct NewApItem {
    pub account_id: AccountId,
    pub vendor_name: String,
    pub description: Option<String>,
    pub amount: Money,
    pub due_date: Date,
    pub originating_je_id: JournalEntryId,
}

/// A payment recorded against an AP item.
#[derive(Debug, Clone, PartialEq)]
pub struct ApPayment {
    pub id: i64,
    pub ap_item_id: i64,
    pub je_id: JournalEntryId,
    pub amount: Money,
    pub payment_date: Date,
    pub created_at: String,
}

/// Filter for listing AP items (`None` = no filter).
#[derive(Debug, Clone, Default)]
pub struct ApFilter {
    pub status: Option<ArApStatus>,
}

/// Why a payment is refused.
#[derive(Clone, Copy, Debug, PartialEq, Eq, Structural)]
pub enum PaymentError {
    /// The item is already fully paid.
    AlreadyPaid,
    /// The payment amount is zero or negative.
    NonPositiveAmount,
    /// The payment would bring the total paid above the item amount.
    Overpayment,
}

/// The message of a refused payment on the `kind` item (`AR` or `AP`) `item_id`,
/// for a payment of `amount` that would bring the total paid to `new_total`
/// on an item of `item_amount`.
pub open spec fn payment_error_text(
    e: PaymentError,
    kind: Seq<char>,
    item_id: int,
    amount: int,
    new_total: int,
    item_amount: int,
) -> Seq<char> {
    match e {
        PaymentError::AlreadyPaid => "Cannot record payment: "@ + kind + " item "@ + int_text(item_id)
            + " is already Paid (terminal state)"@,
        PaymentError::NonPositiveAmount => "Payment amount must be positive"@,
        PaymentError::Overpayment => "Overpayment: payment of "@ + money_text(amount) + " would bring total paid ("@
            + money_text(new_total) + ") above item amount ("@ + money_text(item_amount) + ")"@,
    }
}

impl PaymentError {
    /// The user-facing message of this refusal on the `kind` item (`AR` or
    /// `AP`) `item_id`, for a payment of `amount` that would bring the total
    /// paid to `new_total` on an item of `item_amount`.
    pub fn message(&self, kind: &str, item_id: i64, amount: Money, new_total: Money, item_amount: Money) -> (s: String)
        ensures
            s@ == payment_error_text(*self, kind@, item_id as int, amount.0 as int, new_total.0 as int, item_amount.0 as int),
    {
        let mut v: Vec<char> = Vec::new();
        match self {
            PaymentError::AlreadyPaid => {
                push_str(&mut v, "Cannot record payment: ");
                push_str(&mut v, kind);
                push_str(&mut v, " item ");
                push_int(&mut v, item_id);
                push_str(&mut v, " is already Paid (terminal state)");
            },
            PaymentError::NonPositiveAmount => {
                push_str(&mut v, "Payment amount must be positive");
            },
            PaymentError::Overpayment => {
                push_str(&mut v, "Overpayment: payment of ");
                push_chars(&mut v, &str_chars(amount.to_string().as_str()));
                push_str(&mut v, " would bring total paid (");
                push_chars(&mut v, &str_chars(new_total.to_string().as_str()));
                push_str(&mut v, ") above item amount (");
                push_chars(&mut v, &str_chars(item_amount.to_string().as_str()));
                push_str(&mut v, ")");
            },
        }
        proof {
            reveal_strlit("Cannot record payment: ");
            reveal_strlit(" item ");
            reveal_strlit(" is already Paid (terminal state)");
            reveal_strlit("Payment amount must be positive");
            reveal_strlit("Overpayment: payment of ");
            reveal_strlit(" would bring total paid (");
            reveal_strlit(") above item amount (");
            reveal_strlit(")");
        }
        assert(v@ =~= payment_error_text(*self, kind@, item_id as int, amount.0 as int, new_total.0 as int, item_amount.0 as int));
        string_from_chars(&v)
    }
}

/// The outcome of recording a payment of `amount` on an item of `item_amount`
/// with `total_paid` already paid and status `status`.
pub open spec fn payment_outcome(status: ArApStatus, item_amount: int, total_paid: int, amount: int) -> Result<
    ArApStatus,
    PaymentError,
> {
    if status == ArApStatus::Paid {
        Err(PaymentError::AlreadyPaid)
    } else if amount <= 0 {
        Err(PaymentError::NonPositiveAmount)
    } else if total_paid + amount > item_amount {
        Err(PaymentError::Overpayment)
    } else if total_paid + amount == item_amount {
        Ok(ArApStatus::Paid)
    } else {
        Ok(ArApStatus::Partial)
    }
}

/// Decides a payment: the new status of the item, or why the payment is refused.
pub fn decide_payment(status: ArApStatus, item_amount: Money, total_paid: Money, amount: Money) -> (r: Result<
    ArApStatus,
    PaymentError,
>)
    requires
        status != ArApStatus::Paid && amount.0 > 0 ==> total_paid.0 + amount.0 <= i64::MAX,
    ensures
        r == payment_outcome(status, item_amount.0 as int, total_paid.0 as int, amount.0 as int),
{
    if status == ArApStatus::Paid {
        return Err(PaymentError::AlreadyPaid);
    }
    if amount.0 <= 0 {
        return Err(PaymentError::NonPositiveAmount);
    }
    let new_total = Money(total_paid.0 + amount.0);
    if new_total.0 > item_amount.0 {
        return Err(PaymentError::Overpayment);
    }
    if new_total.0 == item_amount.0 {
        Ok(ArApStatus::Paid)
    } else {
        Ok(ArApStatus::Partial)
    }
}

/// An accepted payment never lets the total paid exceed the item amount, and
/// the item is marked `Paid` exactly when the payments reach the amount; a
/// `Paid` item accepts no further payment.
pub proof fn lemma_payment_never_overpays(status: ArApStatus, item_amount: int, total_paid: int, amount: int)
    ensures
        payment_outcome(status, item_amount, total_paid, amount) matches Ok(s) ==> {
            &&& total_paid + amount <= item_amount
            &&& (s == ArApStatus::Paid <==> total_paid + amount == item_amount)
            &&& amount > 0
        },
        status == ArApStatus::Paid ==> payment_outcome(status, item_amount, total_paid, amount) is Err,
{
}

/// Sum of the first `k` payment amounts.
pub open spec fn paid_upto(payments: Seq<Money>, k: int) -> int
    decreases k,
{
    if k <= 0 { 0 } else { paid_upto(payments, k - 1) + payments[k - 1].0 }
}

/// The outstanding balance of an item: amount minus all payments.
pub fn outstanding(amount: Money, payments: &[Money]) -> (m: Money)
    requires
        forall|k: int| 0 <= k <= payments@.len() ==> i64::MIN <= #[trigger] paid_upto(payments@, k) <= i64::MAX,
        i64::MIN <= amount.0 - paid_upto(payments@, payments@.len() as int) <= i64::MAX,
    ensures
        m.0 == amount.0 - paid_upto(payments@, payments@.len() as int),
{
    let mut paid = Money(0);
    let mut i: usize = 0;
    while i < payments.len()
        invariant
            i <= payments@.len(),
            forall|k: int| 0 <= k <= payments@.len() ==> i64::MIN <= #[trigger] paid_upto(payments@, k) <= i64::MAX,
            paid.0 == paid_upto(payments@, i as int),
        decreases payments@.len() - i,
    {
        assert(i64::MIN <= paid_upto(payments@, i + 1) <= i64::MAX);
        paid = Money(paid.0 + payments[i].0);
        i = i + 1;
    }
    Money(amount.0 - paid.0)
}

} // verus!
