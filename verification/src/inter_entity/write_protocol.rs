//! The inter-entity write protocol: two drafts, then two posts, with rollback.
//!
//! Happy path: find the fiscal period of the date in each ledger; create the
//! draft in entity A and tag it with the shared id and B's name; create the
//! draft in entity B and tag it with A's name; post A; post B.
//!
//! Rollback after a failure:
//! - creating B's draft fails (A draft exists) → delete A's draft;
//! - tagging B's draft or posting A fails (both drafts exist) → delete both drafts;
//! - posting B fails (A posted, B draft) → reverse A's entry, delete B's draft.
//!
//! The protocol is a state machine: the caller performs each action against
//! the two databases and reports back whether it succeeded.

use vstd::prelude::*;
use crate::date::Date;
use crate::inter_entity::{SideState, PairState, pair_consistent};
use crate::ledger::{NewJournalEntry, NewJournalEntryLine, copy_lines, copy_opt_string};
use crate::types::{FiscalPeriodId, JournalEntryId, new_uuid};

verus! {

/// The validated, balanced data of an inter-entity entry.
#[derive(Debug, Clone)]
pub struct InterEntityInput {
    pub entry_date: Date,
    pub memo: Option<String>,
    /// Lines for entity A (debits equal credits).
    pub primary_lines: Vec<NewJournalEntryLine>,
    /// Lines for entity B (debits equal credits).
    pub secondary_lines: Vec<NewJournalEntryLine>,
}

/// The ids of both posted entries and the shared id stamped on both.
#[derive(Debug, Clone, PartialEq)]
pub struct InterEntityResult {
    pub primary_je_id: JournalEntryId,
    pub secondary_je_id: JournalEntryId,
    pub inter_entity_uuid: String,
}

/// The step the protocol is at.
#[derive(Debug, Clone, Copy, PartialEq, Eq, Structural)]
pub enum WriteStage {
    FindPrimaryPeriod,
    FindSecondaryPeriod,
    CreatePrimaryDraft,
    TagPrimary,
    CreateSecondaryDraft,
    TagSecondary,
    PostPrimary,
    PostSecondary,
    Succeeded,
    Failed,
}

/// What the caller reports after performing an action.
#[derive(Debug, Clone, Copy, PartialEq, Eq, Structural)]
pub enum WriteEvent {
    /// A fiscal period lookup found the period.
    PeriodFound(FiscalPeriodId),
    /// A draft was created with this id.
    DraftCreated(JournalEntryId),
    /// A tag or post succeeded.
    Done,
    /// The action failed.
    Failed,
}

/// One clean-up operation of a rollback.
#[derive(Debug, Clone, Copy, PartialEq, Eq, Structural)]
pub enum RollbackOp {
    /// Delete entity A's draft.
    DeletePrimaryDraft(JournalEntryId),
    /// Delete entity B's draft.
    DeleteSecondaryDraft(JournalEntryId),
    /// Reverse entity A's posted entry, dated on the entry date.
    ReversePrimary(JournalEntryId, Date),
}

/// What the caller must do next.
#[derive(Debug, Clone)]
pub enum WriteAction {
    /// Look up the fiscal period containing the date in entity A's ledger.
    FindPrimaryPeriod(Date),
    /// Look up the fiscal period containing the date in entity B's ledger.
    FindSecondaryPeriod(Date),
    /// Create this draft in entity A's ledger.
    CreatePrimaryDraft(NewJournalEntry),
    /// Set the shared id and the peer name (entity B's) on A's draft.
    TagPrimary { je: JournalEntryId, uuid: String, peer_name: String },
    /// Create this draft in entity B's ledger.
    CreateSecondaryDraft(NewJournalEntry),
    /// Set the shared id and the peer name (entity A's) on B's draft.
    TagSecondary { je: JournalEntryId, uuid: String, peer_name: String },
    /// Post A's draft as entity A.
    PostPrimary(JournalEntryId),
    /// Post B's draft as entity B.
    PostSecondary(JournalEntryId),
    /// Done: both entries are posted.
    Finish(InterEntityResult),
    /// Failed: perform these clean-up operations (ignoring their errors) and
    /// report the failure.
    Abort(Vec<RollbackOp>),
}

/// The state of one run of the protocol.
#[derive(Debug, Clone)]
pub struct WriteProtocol {
    pub stage: WriteStage,
    pub uuid: String,
    pub primary_period: Option<FiscalPeriodId>,
    pub secondary_period: Option<FiscalPeriodId>,
    pub primary_je: Option<JournalEntryId>,
    pub secondary_je: Option<JournalEntryId>,
    /// The stage at which the run failed, once it has.
    pub failed_at: Option<WriteStage>,
}

/// The position of a stage in the happy path.
pub open spec fn stage_rank(s: WriteStage) -> int {
    match s {
        WriteStage::FindPrimaryPeriod => 0,
        WriteStage::FindSecondaryPeriod => 1,
        WriteStage::CreatePrimaryDraft => 2,
        WriteStage::TagPrimary => 3,
        WriteStage::CreateSecondaryDraft => 4,
        WriteStage::TagSecondary => 5,
        WriteStage::PostPrimary => 6,
        WriteStage::PostSecondary => 7,
        _ => 8,
    }
}

/// The ids known once the steps before a stage of rank `r` succeeded.
pub open spec fn ids_for(r: int, p: WriteProtocol) -> bool {
    &&& r >= 1 ==> p.primary_period is Some
    &&& r >= 2 ==> p.secondary_period is Some
    &&& r >= 3 ==> p.primary_je is Some
    &&& r >= 5 ==> p.secondary_je is Some
}

/// The state of a run is coherent: the ids its stage relies on are known, and
/// a failed run records a step of the happy path as the failed one.
pub open spec fn ids_known(p: WriteProtocol) -> bool {
    if p.stage == WriteStage::Failed {
        &&& p.failed_at matches Some(f) && f != WriteStage::Failed && f != WriteStage::Succeeded
        &&& ids_for(stage_rank(p.failed_at.unwrap()), p)
    } else {
        p.failed_at is None && ids_for(stage_rank(p.stage), p)
    }
}

/// The stage that follows a successful step.
pub open spec fn next_stage(s: WriteStage) -> WriteStage {
    match s {
        WriteStage::FindPrimaryPeriod => WriteStage::FindSecondaryPeriod,
        WriteStage::FindSecondaryPeriod => WriteStage::CreatePrimaryDraft,
        WriteStage::CreatePrimaryDraft => WriteStage::TagPrimary,
        WriteStage::TagPrimary => WriteStage::CreateSecondaryDraft,
        WriteStage::CreateSecondaryDraft => WriteStage::TagSecondary,
        WriteStage::TagSecondary => WriteStage::PostPrimary,
        WriteStage::PostPrimary => WriteStage::PostSecondary,
        WriteStage::PostSecondary => WriteStage::Succeeded,
        WriteStage::Succeeded => WriteStage::Succeeded,
        WriteStage::Failed => WriteStage::Failed,
    }
}

/// The event a step reports on success.
pub open spec fn success_event(s: WriteStage, e: WriteEvent) -> bool {
    match s {
        WriteStage::FindPrimaryPeriod | WriteStage::FindSecondaryPeriod => e is PeriodFound,
        WriteStage::CreatePrimaryDraft | WriteStage::CreateSecondaryDraft => e is DraftCreated,
        WriteStage::TagPrimary | WriteStage::TagSecondary | WriteStage::PostPrimary | WriteStage::PostSecondary => e
            == WriteEvent::Done,
        _ => false,
    }
}

/// The ledgers of both entities while the protocol waits at stage `s`
/// (before the stage's action takes effect).
pub open spec fn stage_pair(s: WriteStage) -> PairState {
    match s {
        WriteStage::FindPrimaryPeriod | WriteStage::FindSecondaryPeriod | WriteStage::CreatePrimaryDraft => PairState {
            primary: SideState::Absent,
            secondary: SideState::Absent,
        },
        WriteStage::TagPrimary | WriteStage::CreateSecondaryDraft => PairState {
            primary: SideState::Draft,
            secondary: SideState::Absent,
        },
        WriteStage::TagSecondary | WriteStage::PostPrimary => PairState {
            primary: SideState::Draft,
            secondary: SideState::Draft,
        },
        WriteStage::PostSecondary => PairState { primary: SideState::Posted, secondary: SideState::Draft },
        _ => PairState { primary: SideState::Posted, secondary: SideState::Posted },
    }
}

/// The effect of a successful action of stage `s` on the ledgers.
pub open spec fn step_effect(s: WriteStage, p: PairState) -> PairState {
    match s {
        WriteStage::CreatePrimaryDraft => PairState { primary: SideState::Draft, ..p },
        WriteStage::CreateSecondaryDraft => PairState { secondary: SideState::Draft, ..p },
        WriteStage::PostPrimary => PairState { primary: SideState::Posted, ..p },
        WriteStage::PostSecondary => PairState { secondary: SideState::Posted, ..p },
        _ => p,
    }
}

/// The clean-up after a failure of the action of stage `s`, given the ids.
pub open spec fn rollback_plan(s: WriteStage, a: Option<JournalEntryId>, b: Option<JournalEntryId>, date: Date) -> Seq<RollbackOp> {
    match s {
        WriteStage::CreateSecondaryDraft => seq![RollbackOp::DeletePrimaryDraft(a.unwrap())],
        WriteStage::TagSecondary | WriteStage::PostPrimary => seq![
            RollbackOp::DeletePrimaryDraft(a.unwrap()),
            RollbackOp::DeleteSecondaryDraft(b.unwrap()),
        ],
        WriteStage::PostSecondary => seq![
            RollbackOp::ReversePrimary(a.unwrap(), date),
            RollbackOp::DeleteSecondaryDraft(b.unwrap()),
        ],
        _ => Seq::empty(),
    }
}

/// The effect of one clean-up operation on the ledgers, when it succeeds.
pub open spec fn rollback_effect(op: RollbackOp, p: PairState) -> PairState {
    match op {
        RollbackOp::DeletePrimaryDraft(_) => PairState { primary: SideState::Absent, ..p },
        RollbackOp::DeleteSecondaryDraft(_) => PairState { secondary: SideState::Absent, ..p },
        RollbackOp::ReversePrimary(_, _) => PairState { primary: SideState::Reversed, ..p },
    }
}

/// The ledgers after all operations of a clean-up succeed.
pub open spec fn after_rollback(ops: Seq<RollbackOp>, p: PairState) -> PairState
    decreases ops.len(),
{
    if ops.len() == 0 { p } else { after_rollback(ops.drop_first(), rollback_effect(ops[0], p)) }
}

/// Each successful step moves the ledgers from the state of its stage to the
/// state of the next stage.
pub proof fn lemma_steps_track_ledgers(s: WriteStage)
    requires
        s != WriteStage::Succeeded && s != WriteStage::Failed,
    ensures
        step_effect(s, stage_pair(s)) == stage_pair(next_stage(s)),
{
}

/// The protocol never leaves one entity with a posted half of the pair: a run
/// that succeeds leaves both entries posted, and a run that fails at any step
/// leaves neither posted once its clean-up operations succeed.
pub proof fn lemma_no_one_sided_posting(s: WriteStage, a: JournalEntryId, b: JournalEntryId, date: Date)
    requires
        s != WriteStage::Failed,
    ensures
        s == WriteStage::Succeeded ==> stage_pair(s) == (PairState { primary: SideState::Posted, secondary: SideState::Posted }),
        s != WriteStage::Succeeded ==> {
            let after = after_rollback(rollback_plan(s, Some(a), Some(b), date), stage_pair(s));
            &&& after.primary != SideState::Posted
            &&& after.secondary != SideState::Posted
            &&& pair_consistent(after)
        },
{
    reveal_with_fuel(after_rollback, 3);
}

impl WriteProtocol {
    /// A new run under the shared id `uuid`.
    pub fn with_uuid(uuid: String) -> (p: WriteProtocol)
        ensures
            p.stage == WriteStage::FindPrimaryPeriod,
            p.uuid == uuid,
            p.primary_period is None && p.secondary_period is None,
            p.primary_je is None && p.secondary_je is None,
            p.failed_at is None,
            ids_known(p),
    {
        WriteProtocol {
            stage: WriteStage::FindPrimaryPeriod,
            uuid,
            primary_period: None,
            secondary_period: None,
            primary_je: None,
            secondary_je: None,
            failed_at: None,
        }
    }

    /// A new run under a fresh random shared id.
    pub fn start() -> (p: WriteProtocol)
        ensures
            p.stage == WriteStage::FindPrimaryPeriod,
            p.uuid@.len() == 36,
            p.primary_period is None && p.secondary_period is None,
            p.primary_je is None && p.secondary_je is None,
            p.failed_at is None,
            ids_known(p),
    {
        WriteProtocol::with_uuid(new_uuid())
    }

    /// Records the outcome of the current step. A success moves to the next
    /// stage and keeps the id it reports; any other event fails the run at
    /// the current stage.
    pub fn advance(&mut self, event: WriteEvent)
        requires
            ids_known(*old(self)),
        ensures
            ids_known(*final(self)),
            final(self).uuid == old(self).uuid,
            old(self).stage == WriteStage::Succeeded || old(self).stage == WriteStage::Failed ==> *final(self) == *old(self),
            old(self).stage != WriteStage::Succeeded && old(self).stage != WriteStage::Failed ==> {
                if success_event(old(self).stage, event) {
                    &&& final(self).stage == next_stage(old(self).stage)
                    &&& final(self).failed_at is None
                    &&& final(self).primary_period == (if old(self).stage == WriteStage::FindPrimaryPeriod {
                        Some(event->PeriodFound_0)
                    } else {
                        old(self).primary_period
                    })
                    &&& final(self).secondary_period == (if old(self).stage == WriteStage::FindSecondaryPeriod {
                        Some(event->PeriodFound_0)
                    } else {
                        old(self).secondary_period
                    })
                    &&& final(self).primary_je == (if old(self).stage == WriteStage::CreatePrimaryDraft {
                        Some(event->DraftCreated_0)
                    } else {
                        old(self).primary_je
                    })
                    &&& final(self).secondary_je == (if old(self).stage == WriteStage::CreateSecondaryDraft {
                        Some(event->DraftCreated_0)
                    } else {
                        old(self).secondary_je
                    })
                } else {
                    &&& final(self).stage == WriteStage::Failed
                    &&& final(self).failed_at == Some(old(self).stage)
                    &&& final(self).primary_period == old(self).primary_period
                    &&& final(self).secondary_period == old(self).secondary_period
                    &&& final(self).primary_je == old(self).primary_je
                    &&& final(self).secondary_je == old(self).secondary_je
                }
            },
    {
        let stage = self.stage;
        match (stage, event) {
            (WriteStage::FindPrimaryPeriod, WriteEvent::PeriodFound(id)) => {
                self.primary_period = Some(id);
                self.stage = WriteStage::FindSecondaryPeriod;
            },
            (WriteStage::FindSecondaryPeriod, WriteEvent::PeriodFound(id)) => {
                self.secondary_period = Some(id);
                self.stage = WriteStage::CreatePrimaryDraft;
            },
            (WriteStage::CreatePrimaryDraft, WriteEvent::DraftCreated(id)) => {
                self.primary_je = Some(id);
                self.stage = WriteStage::TagPrimary;
            },
            (WriteStage::TagPrimary, WriteEvent::Done) => {
                self.stage = WriteStage::CreateSecondaryDraft;
            },
            (WriteStage::CreateSecondaryDraft, WriteEvent::DraftCreated(id)) => {
                self.secondary_je = Some(id);
                self.stage = WriteStage::TagSecondary;
            },
            (WriteStage::TagSecondary, WriteEvent::Done) => {
                self.stage = WriteStage::PostPrimary;
            },
            (WriteStage::PostPrimary, WriteEvent::Done) => {
                self.stage = WriteStage::PostSecondary;
            },
            (WriteStage::PostSecondary, WriteEvent::Done) => {
                self.stage = WriteStage::Succeeded;
            },
            (WriteStage::Succeeded, _) => {},
            (WriteStage::Failed, _) => {},
            _ => {
                self.failed_at = Some(stage);
                self.stage = WriteStage::Failed;
            },
        }
    }

    /// The action the caller must perform next.
    pub fn next_action(&self, input: &InterEntityInput, primary_name: &str, secondary_name: &str) -> (a: WriteAction)
        requires
            ids_known(*self),
        ensures
            self.stage == WriteStage::FindPrimaryPeriod ==> (a matches WriteAction::FindPrimaryPeriod(d) && d == input.entry_date),
            self.stage == WriteStage::FindSecondaryPeriod ==> (a matches WriteAction::FindSecondaryPeriod(d) && d == input.entry_date),
            self.stage == WriteStage::CreatePrimaryDraft ==> (a matches WriteAction::CreatePrimaryDraft(e) && {
                &&& e.entry_date == input.entry_date
                &&& e.memo == input.memo
                &&& e.fiscal_period_id == self.primary_period.unwrap()
                &&& e.reversal_of_je_id is None
                &&& e.lines@ == input.primary_lines@
            }),
            self.stage == WriteStage::TagPrimary ==> (a matches WriteAction::TagPrimary { je, uuid, peer_name } && je
                == self.primary_je.unwrap() && uuid == self.uuid && peer_name@ == secondary_name@),
            self.stage == WriteStage::CreateSecondaryDraft ==> (a matches WriteAction::CreateSecondaryDraft(e) && {
                &&& e.entry_date == input.entry_date
                &&& e.memo == input.memo
                &&& e.fiscal_period_id == self.secondary_period.unwrap()
                &&& e.reversal_of_je_id is None
                &&& e.lines@ == input.secondary_lines@
            }),
            self.stage == WriteStage::TagSecondary ==> (a matches WriteAction::TagSecondary { je, uuid, peer_name }
                && je == self.secondary_je.unwrap() && uuid == self.uuid && peer_name@ == primary_name@),
            self.stage == WriteStage::PostPrimary ==> (a matches WriteAction::PostPrimary(j) && j == self.primary_je.unwrap()),
            self.stage == WriteStage::PostSecondary ==> (a matches WriteAction::PostSecondary(j) && j == self.secondary_je.unwrap()),
            self.stage == WriteStage::Succeeded ==> (a matches WriteAction::Finish(r) && {
                &&& r.primary_je_id == self.primary_je.unwrap()
                &&& r.secondary_je_id == self.secondary_je.unwrap()
                &&& r.inter_entity_uuid == self.uuid
            }),
            self.stage == WriteStage::Failed ==> (a matches WriteAction::Abort(ops) && ops@ == rollback_plan(
                self.failed_at.unwrap(),
                self.primary_je,
                self.secondary_je,
                input.entry_date,
            )),
    {
        match self.stage {
            WriteStage::FindPrimaryPeriod => WriteAction::FindPrimaryPeriod(input.entry_date),
            WriteStage::FindSecondaryPeriod => WriteAction::FindSecondaryPeriod(input.entry_date),
            WriteStage::CreatePrimaryDraft => {
                let period = self.primary_period.unwrap();
                WriteAction::CreatePrimaryDraft(NewJournalEntry {
                    entry_date: input.entry_date,
                    memo: copy_opt_string(&input.memo),
                    fiscal_period_id: period,
                    reversal_of_je_id: None,
                    lines: copy_lines(&input.primary_lines),
                })
            },
            WriteStage::TagPrimary => WriteAction::TagPrimary {
                je: self.primary_je.unwrap(),
                uuid: self.uuid.clone(),
                peer_name: String::from_str(secondary_name),
            },
            WriteStage::CreateSecondaryDraft => {
                let period = self.secondary_period.unwrap();
                WriteAction::CreateSecondaryDraft(NewJournalEntry {
                    entry_date: input.entry_date,
                    memo: copy_opt_string(&input.memo),
                    fiscal_period_id: period,
                    reversal_of_je_id: None,
                    lines: copy_lines(&input.secondary_lines),
                })
            },
            WriteStage::TagSecondary => WriteAction::TagSecondary {
                je: self.secondary_je.unwrap(),
                uuid: self.uuid.clone(),
                peer_name: String::from_str(primary_name),
            },
            WriteStage::PostPrimary => WriteAction::PostPrimary(self.primary_je.unwrap()),
            WriteStage::PostSecondary => WriteAction::PostSecondary(self.secondary_je.unwrap()),
            WriteStage::Succeeded => WriteAction::Finish(InterEntityResult {
                primary_je_id: self.primary_je.unwrap(),
                secondary_je_id: self.secondary_je.unwrap(),
                inter_entity_uuid: self.uuid.clone(),
            }),
            WriteStage::Failed => {
                let at = self.failed_at.unwrap();
                let mut ops: Vec<RollbackOp> = Vec::new();
                match at {
                    WriteStage::CreateSecondaryDraft => {
                        ops.push(RollbackOp::DeletePrimaryDraft(self.primary_je.unwrap()));
                    },
                    WriteStage::TagSecondary | WriteStage::PostPrimary => {
                        ops.push(RollbackOp::DeletePrimaryDraft(self.primary_je.unwrap()));
                        ops.push(RollbackOp::DeleteSecondaryDraft(self.secondary_je.unwrap()));
                    },
                    WriteStage::PostSecondary => {
                        ops.push(RollbackOp::ReversePrimary(self.primary_je.unwrap(), input.entry_date));
                        ops.push(RollbackOp::DeleteSecondaryDraft(self.secondary_je.unwrap()));
                    },
                    _ => {},
                }
                WriteAction::Abort(ops)
            },
        }
    }
}

} // verus!
