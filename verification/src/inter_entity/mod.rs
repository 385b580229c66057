//! Inter-entity journal entries: one balanced entry in each of two entity
//! ledgers, written together or not at all.
//!
//! The two databases are reached by the caller; the library decides the
//! order of the writes, the rollback after a failure, the recovery of
//! half-written pairs found at startup, and the validation of the form.

use vstd::prelude::*;

pub mod write_protocol;
pub mod recovery;
pub mod form;

verus! {

/// Why inter-entity mode cannot be opened.
#[derive(Debug, Clone, PartialEq, Eq)]
pub enum InterEntityError {
    /// The workspace lists fewer than two entities.
    InsufficientEntities,
    /// Both sides name the same entity.
    SameEntity,
    /// The named entity is not in the workspace.
    EntityNotFound(String),
}

/// The user-facing message of an error.
pub open spec fn error_message(e: InterEntityError) -> Seq<char> {
    match e {
        InterEntityError::InsufficientEntities => "Inter-entity mode requires at least two entities in the workspace config"@,
        InterEntityError::SameEntity => "Cannot open the same entity as both sides of an inter-entity transaction"@,
        InterEntityError::EntityNotFound(name) => "Entity '"@ + name@ + "' not found in workspace config"@,
    }
}

impl InterEntityError {
    /// The user-facing message of this error.
    pub fn message(&self) -> (s: String)
        ensures
            s@ == error_message(*self),
    {
        match self {
            InterEntityError::InsufficientEntities => {
                String::from_str("Inter-entity mode requires at least two entities in the workspace config")
            },
            InterEntityError::SameEntity => {
                String::from_str("Cannot open the same entity as both sides of an inter-entity transaction")
            },
            InterEntityError::EntityNotFound(name) => {
                let mut s = String::from_str("Entity '");
                s.append(name.as_str());
                s.append("' not found in workspace config");
                s
            },
        }
    }
}

/// Where one side of an inter-entity pair stands in its ledger.
#[derive(Debug, Clone, Copy, PartialEq, Eq, Structural)]
pub enum SideState {
    /// No entry.
    Absent,
    /// A draft entry.
    Draft,
    /// A posted entry.
    Posted,
    /// A posted entry cancelled by a reversing entry.
    Reversed,
}

/// Both sides of a pair.
#[derive(Debug, Clone, Copy, PartialEq, Eq, Structural)]
pub struct PairState {
    pub primary: SideState,
    pub secondary: SideState,
}

/// A pair is consistent when both sides are posted, or neither is.
pub open spec fn pair_consistent(p: PairState) -> bool {
    (p.primary == SideState::Posted) == (p.secondary == SideState::Posted)
}

} // verus!
