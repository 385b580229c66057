//! Startup recovery of half-written inter-entity pairs.
//!
//! A draft carrying an inter-entity id is checked against the entry with the
//! same id in the peer entity's ledger, and resolved:
//! - peer has a draft too → post both, or delete both drafts;
//! - peer entry is posted → complete (post the draft), or roll back (reverse
//!   the peer's entry and delete the draft);
//! - peer has no entry → delete the orphaned draft.

use vstd::prelude::*;
use crate::date::Date;
use crate::inter_entity::{SideState, PairState, pair_consistent};
use crate::ledger::{JournalEntryStatus, status_name};
use crate::types::JournalEntryId;

verus! {

/// The entry with the same inter-entity id in the peer's ledger.
#[derive(Debug, Clone, Copy, PartialEq, Eq, Structural)]
pub enum PeerStatus {
    /// The peer has a draft with this id.
    Draft(JournalEntryId),
    /// The peer has a posted entry with this id.
    Posted(JournalEntryId),
    /// The peer has no entry with this id.
    NotFound,
}

/// Classifies the peer from its first entry with the id: `peer` is that
/// entry's id, if there is one, and `status` its stored status text. `None`
/// when the stored status is not a known status.
pub fn classify_peer(peer: Option<JournalEntryId>, status: &str) -> (r: Option<PeerStatus>)
    ensures
        peer is None ==> r == Some(PeerStatus::NotFound),
        peer matches Some(id) ==> {
            &&& status@ == status_name(JournalEntryStatus::Draft) ==> r == Some(PeerStatus::Draft(id))
            &&& status@ == status_name(JournalEntryStatus::Posted) ==> r == Some(PeerStatus::Posted(id))
            &&& (forall|t: JournalEntryStatus| status_name(t) != status@) ==> r is None
        },
{
    proof {
        reveal_strlit("Draft");
        reveal_strlit("Posted");
        assert("Draft"@.len() == 5 && "Posted"@.len() == 6);
    }
    match peer {
        None => Some(PeerStatus::NotFound),
        Some(id) => match JournalEntryStatus::parse(status) {
            Some(JournalEntryStatus::Draft) => Some(PeerStatus::Draft(id)),
            Some(JournalEntryStatus::Posted) => Some(PeerStatus::Posted(id)),
            None => None,
        },
    }
}

/// A way to resolve a half-written pair.
#[derive(Debug, Clone, Copy, PartialEq, Eq, Structural)]
pub enum Resolution {
    /// Both drafts: post the active draft, then the peer's.
    PostBoth,
    /// Both drafts: delete both.
    DeleteBoth,
    /// Peer posted: post the active draft.
    Complete,
    /// Peer posted: reverse the peer's entry, then delete the active draft.
    Rollback,
    /// No peer entry: delete the active draft.
    DeleteOrphan,
}

/// The resolutions offered for a peer status.
pub open spec fn offered(p: PeerStatus) -> Seq<Resolution> {
    match p {
        PeerStatus::Draft(_) => seq![Resolution::PostBoth, Resolution::DeleteBoth],
        PeerStatus::Posted(_) => seq![Resolution::Complete, Resolution::Rollback],
        PeerStatus::NotFound => seq![Resolution::DeleteOrphan],
    }
}

/// The resolutions offered for a peer status.
pub fn resolutions_for(p: PeerStatus) -> (r: Vec<Resolution>)
    ensures
        r@ == offered(p),
{
    let mut r: Vec<Resolution> = Vec::new();
    match p {
        PeerStatus::Draft(_) => {
            r.push(Resolution::PostBoth);
            r.push(Resolution::DeleteBoth);
        },
        PeerStatus::Posted(_) => {
            r.push(Resolution::Complete);
            r.push(Resolution::Rollback);
        },
        PeerStatus::NotFound => {
            r.push(Resolution::DeleteOrphan);
        },
    }
    assert(r@ =~= offered(p));
    r
}

/// One database operation of a resolution; the operations run in order and
/// stop at the first failure.
#[derive(Debug, Clone, Copy, PartialEq, Eq, Structural)]
pub enum RecoveryOp {
    /// Post the active entity's draft.
    PostActive(JournalEntryId),
    /// Post the peer's draft.
    PostPeer(JournalEntryId),
    /// Delete the active entity's draft.
    DeleteActive(JournalEntryId),
    /// Delete the peer's draft.
    DeletePeer(JournalEntryId),
    /// Reverse the peer's posted entry, dated on its own entry date.
    ReversePeer(JournalEntryId, Date),
}

/// The operations of a resolution offered for `peer`.
pub open spec fn resolution_ops(r: Resolution, active: JournalEntryId, peer: PeerStatus, peer_date: Date) -> Seq<RecoveryOp> {
    match (r, peer) {
        (Resolution::PostBoth, PeerStatus::Draft(p)) => seq![RecoveryOp::PostActive(active), RecoveryOp::PostPeer(p)],
        (Resolution::DeleteBoth, PeerStatus::Draft(p)) => seq![RecoveryOp::DeleteActive(active), RecoveryOp::DeletePeer(p)],
        (Resolution::Complete, PeerStatus::Posted(_)) => seq![RecoveryOp::PostActive(active)],
        (Resolution::Rollback, PeerStatus::Posted(p)) => seq![RecoveryOp::ReversePeer(p, peer_date), RecoveryOp::DeleteActive(active)],
        (Resolution::DeleteOrphan, PeerStatus::NotFound) => seq![RecoveryOp::DeleteActive(active)],
        _ => Seq::empty(),
    }
}

/// The operations that carry out a resolution; nothing for a resolution that
/// is not offered for the peer status. `peer_date` is the peer entry's date,
/// used to date a reversal.
pub fn plan_resolution(r: Resolution, active: JournalEntryId, peer: PeerStatus, peer_date: Date) -> (ops: Vec<RecoveryOp>)
    ensures
        ops@ == resolution_ops(r, active, peer, peer_date),
{
    let mut ops: Vec<RecoveryOp> = Vec::new();
    match (r, peer) {
        (Resolution::PostBoth, PeerStatus::Draft(p)) => {
            ops.push(RecoveryOp::PostActive(active));
            ops.push(RecoveryOp::PostPeer(p));
        },
        (Resolution::DeleteBoth, PeerStatus::Draft(p)) => {
            ops.push(RecoveryOp::DeleteActive(active));
            ops.push(RecoveryOp::DeletePeer(p));
        },
        (Resolution::Complete, PeerStatus::Posted(_)) => {
            ops.push(RecoveryOp::PostActive(active));
        },
        (Resolution::Rollback, PeerStatus::Posted(p)) => {
            ops.push(RecoveryOp::ReversePeer(p, peer_date));
            ops.push(RecoveryOp::DeleteActive(active));
        },
        (Resolution::DeleteOrphan, PeerStatus::NotFound) => {
            ops.push(RecoveryOp::DeleteActive(active));
        },
        _ => {},
    }
    assert(ops@ =~= resolution_ops(r, active, peer, peer_date));
    ops
}

/// The ledgers of the active entity (primary) and the peer (secondary) for a
/// draft whose peer has status `peer`.
pub open spec fn found_pair(peer: PeerStatus) -> PairState {
    PairState {
        primary: SideState::Draft,
        secondary: match peer {
            PeerStatus::Draft(_) => SideState::Draft,
            PeerStatus::Posted(_) => SideState::Posted,
            PeerStatus::NotFound => SideState::Absent,
        },
    }
}

/// The effect of one operation on the ledgers, when it succeeds.
pub open spec fn recovery_effect(op: RecoveryOp, p: PairState) -> PairState {
    match op {
        RecoveryOp::PostActive(_) => PairState { primary: SideState::Posted, ..p },
        RecoveryOp::PostPeer(_) => PairState { secondary: SideState::Posted, ..p },
        RecoveryOp::DeleteActive(_) => PairState { primary: SideState::Absent, ..p },
        RecoveryOp::DeletePeer(_) => PairState { secondary: SideState::Absent, ..p },
        RecoveryOp::ReversePeer(_, _) => PairState { secondary: SideState::Reversed, ..p },
    }
}

/// The ledgers after all operations succeed.
pub open spec fn after_ops(ops: Seq<RecoveryOp>, p: PairState) -> PairState
    decreases ops.len(),
{
    if ops.len() == 0 { p } else { after_ops(ops.drop_first(), recovery_effect(ops[0], p)) }
}

/// Every offered resolution, once its operations succeed, leaves the pair
/// consistent: both entries posted, or neither.
pub proof fn lemma_resolutions_restore_consistency(active: JournalEntryId, peer: PeerStatus, peer_date: Date, i: int)
    requires
        0 <= i < offered(peer).len(),
    ensures
        pair_consistent(after_ops(resolution_ops(offered(peer)[i], active, peer, peer_date), found_pair(peer))),
{
    reveal_with_fuel(after_ops, 3);
}

} // verus!
