//! The chart of accounts: account records and the rules on them.

use vstd::prelude::*;
use crate::types::{AccountId, AccountType};

verus! {

/// A full account row.
#[derive(Debug, Clone, PartialEq)]
pub struct Account {
    pub id: AccountId,
    pub number: String,
    pub name: String,
    pub account_type: AccountType,
    pub parent_id: Option<AccountId>,
    pub is_active: bool,
    pub is_contra: bool,
    pub is_placeholder: bool,
    pub created_at: String,
    pub updated_at: String,
}

/// Data required to create a new account.
#[derive(Debug, Clone)]
pub struct NewAccount {
    pub number: String,
    pub name: String,
    pub account_type: AccountType,
    pub parent_id: Option<AccountId>,
    pub is_contra: bool,
    pub is_placeholder: bool,
}

/// Fields that can be changed on an existing account (`None` = no change).
#[derive(Debug, Clone, Default)]
pub struct AccountUpdate {
    pub name: Option<String>,
    pub number: Option<String>,
}

impl AccountUpdate {
    /// True when the update changes nothing; such an update is skipped.
    pub fn is_noop(&self) -> (b: bool)
        ensures
            b == (self.name is None && self.number is None),
    {
        self.name.is_none() && self.number.is_none()
    }
}

} // verus!
