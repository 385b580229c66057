use bursar::accounts::Account;
use bursar::config::{with_last_opened, ConfigError};
use bursar::date::Date;
use bursar::inter_entity::form::{
    settled_action, InterEntityFormAction, account_list_rows, FormKey, FormSection, HeaderFocus, HeaderMove, InterEntityForm, KeyRoute,
};
use bursar::inter_entity::recovery::{classify_peer, plan_resolution, resolutions_for, PeerStatus, RecoveryOp, Resolution};
use bursar::inter_entity::write_protocol::{
    InterEntityInput, RollbackOp, WriteAction, WriteEvent, WriteProtocol, WriteStage,
};
use bursar::inter_entity::InterEntityError;
use bursar::ledger::NewJournalEntryLine;
use bursar::money::Money;
use bursar::types::{AccountId, AccountType, FiscalPeriodId, JournalEntryId};

fn balanced_lines(acct1: i64, acct2: i64) -> Vec<NewJournalEntryLine> {
    vec![
        NewJournalEntryLine {
            account_id: AccountId(acct1),
            debit_amount: Money(10_000_000_000),
            credit_amount: Money(0),
            line_memo: None,
            sort_order: 0,
        },
        NewJournalEntryLine {
            account_id: AccountId(acct2),
            debit_amount: Money(0),
            credit_amount: Money(10_000_000_000),
            line_memo: None,
            sort_order: 1,
        },
    ]
}

fn input() -> InterEntityInput {
    InterEntityInput {
        entry_date: Date::new(2026, 1, 15),
        memo: Some("Inter-entity transfer".to_owned()),
        primary_lines: balanced_lines(1, 2),
        secondary_lines: balanced_lines(3, 4),
    }
}

// ── Write protocol ──────────────────────────────────────────────────────────

/// Runs the protocol, failing the step at `fail_at` (if any); returns the
/// final action and the actions seen.
fn run(fail_at: Option<WriteStage>) -> (WriteAction, Vec<WriteStage>) {
    let input = input();
    let mut p = WriteProtocol::with_uuid("uuid-1".to_owned());
    let mut stages = Vec::new();
    loop {
        let stage = p.stage;
        stages.push(stage);
        let action = p.next_action(&input, "Entity A", "Entity B");
        if Some(stage) == fail_at {
            p.advance(WriteEvent::Failed);
            continue;
        }
        let event = match &action {
            WriteAction::FindPrimaryPeriod(_) => WriteEvent::PeriodFound(FiscalPeriodId(10)),
            WriteAction::FindSecondaryPeriod(_) => WriteEvent::PeriodFound(FiscalPeriodId(20)),
            WriteAction::CreatePrimaryDraft(_) => WriteEvent::DraftCreated(JournalEntryId(100)),
            WriteAction::CreateSecondaryDraft(_) => WriteEvent::DraftCreated(JournalEntryId(200)),
            WriteAction::TagPrimary { .. } | WriteAction::TagSecondary { .. } => WriteEvent::Done,
            WriteAction::PostPrimary(_) | WriteAction::PostSecondary(_) => WriteEvent::Done,
            WriteAction::Finish(_) | WriteAction::Abort(_) => return (action, stages),
        };
        p.advance(event);
    }
}

#[test]
fn happy_path_posts_both_entries_with_matching_uuids() {
    let (last, stages) = run(None);
    match last {
        WriteAction::Finish(r) => {
            assert_eq!(r.primary_je_id, JournalEntryId(100));
            assert_eq!(r.secondary_je_id, JournalEntryId(200));
            assert_eq!(r.inter_entity_uuid, "uuid-1");
        }
        other => panic!("expected finish, got {:?}", other),
    }
    assert_eq!(stages.len(), 9);
}

#[test]
fn drafts_carry_the_input_and_peer_names() {
    let input = input();
    let mut p = WriteProtocol::with_uuid("uuid-2".to_owned());
    p.advance(WriteEvent::PeriodFound(FiscalPeriodId(10)));
    p.advance(WriteEvent::PeriodFound(FiscalPeriodId(20)));
    match p.next_action(&input, "Entity A", "Entity B") {
        WriteAction::CreatePrimaryDraft(e) => {
            assert_eq!(e.fiscal_period_id, FiscalPeriodId(10));
            assert_eq!(e.entry_date, Date::new(2026, 1, 15));
            assert_eq!(e.memo.as_deref(), Some("Inter-entity transfer"));
            assert_eq!(e.lines.len(), 2);
            assert_eq!(e.lines[0].account_id, AccountId(1));
        }
        other => panic!("unexpected {:?}", other),
    }
    p.advance(WriteEvent::DraftCreated(JournalEntryId(100)));
    match p.next_action(&input, "Entity A", "Entity B") {
        WriteAction::TagPrimary { je, uuid, peer_name } => {
            assert_eq!(je, JournalEntryId(100));
            assert_eq!(uuid, "uuid-2");
            assert_eq!(peer_name, "Entity B");
        }
        other => panic!("unexpected {:?}", other),
    }
    p.advance(WriteEvent::Done);
    p.advance(WriteEvent::DraftCreated(JournalEntryId(200)));
    match p.next_action(&input, "Entity A", "Entity B") {
        WriteAction::TagSecondary { je, peer_name, .. } => {
            assert_eq!(je, JournalEntryId(200));
            assert_eq!(peer_name, "Entity A");
        }
        other => panic!("unexpected {:?}", other),
    }
}

#[test]
fn start_uses_a_fresh_uuid() {
    let a = WriteProtocol::start();
    let b = WriteProtocol::start();
    assert_eq!(a.uuid.len(), 36);
    assert_ne!(a.uuid, b.uuid);
}

#[test]
fn rollback_when_secondary_draft_fails() {
    let (last, _) = run(Some(WriteStage::CreateSecondaryDraft));
    match last {
        WriteAction::Abort(ops) => assert_eq!(ops, vec![RollbackOp::DeletePrimaryDraft(JournalEntryId(100))]),
        other => panic!("expected abort, got {:?}", other),
    }
}

#[test]
fn rollback_when_secondary_period_missing() {
    let (last, _) = run(Some(WriteStage::FindSecondaryPeriod));
    match last {
        WriteAction::Abort(ops) => assert!(ops.is_empty()),
        other => panic!("expected abort, got {:?}", other),
    }
}

#[test]
fn rollback_both_drafts_when_primary_post_fails() {
    let (last, _) = run(Some(WriteStage::PostPrimary));
    match last {
        WriteAction::Abort(ops) => assert_eq!(
            ops,
            vec![
                RollbackOp::DeletePrimaryDraft(JournalEntryId(100)),
                RollbackOp::DeleteSecondaryDraft(JournalEntryId(200)),
            ]
        ),
        other => panic!("expected abort, got {:?}", other),
    }
}

#[test]
fn rollback_reverse_primary_when_secondary_post_fails() {
    let (last, _) = run(Some(WriteStage::PostSecondary));
    match last {
        WriteAction::Abort(ops) => assert_eq!(
            ops,
            vec![
                RollbackOp::ReversePrimary(JournalEntryId(100), Date::new(2026, 1, 15)),
                RollbackOp::DeleteSecondaryDraft(JournalEntryId(200)),
            ]
        ),
        other => panic!("expected abort, got {:?}", other),
    }
}

#[test]
fn unexpected_event_fails_the_step() {
    let mut p = WriteProtocol::with_uuid("u".to_owned());
    p.advance(WriteEvent::Done);
    assert_eq!(p.stage, WriteStage::Failed);
    assert_eq!(p.failed_at, Some(WriteStage::FindPrimaryPeriod));
}

// ── Recovery ────────────────────────────────────────────────────────────────

#[test]
fn classify_peer_returns_draft_when_peer_has_draft() {
    assert_eq!(classify_peer(Some(JournalEntryId(7)), "Draft"), Some(PeerStatus::Draft(JournalEntryId(7))));
}

#[test]
fn classify_peer_returns_posted_when_peer_has_posted() {
    assert_eq!(classify_peer(Some(JournalEntryId(7)), "Posted"), Some(PeerStatus::Posted(JournalEntryId(7))));
}

#[test]
fn classify_peer_returns_not_found_when_uuid_absent() {
    assert_eq!(classify_peer(None, ""), Some(PeerStatus::NotFound));
    assert_eq!(classify_peer(Some(JournalEntryId(7)), "Archived"), None);
}

#[test]
fn resolve_post_both_posts_both_entries() {
    let ops = plan_resolution(Resolution::PostBoth, JournalEntryId(1), PeerStatus::Draft(JournalEntryId(2)), Date::new(2026, 1, 15));
    assert_eq!(ops, vec![RecoveryOp::PostActive(JournalEntryId(1)), RecoveryOp::PostPeer(JournalEntryId(2))]);
}

#[test]
fn resolve_delete_both_removes_both_entries() {
    let ops = plan_resolution(Resolution::DeleteBoth, JournalEntryId(1), PeerStatus::Draft(JournalEntryId(2)), Date::new(2026, 1, 15));
    assert_eq!(ops, vec![RecoveryOp::DeleteActive(JournalEntryId(1)), RecoveryOp::DeletePeer(JournalEntryId(2))]);
}

#[test]
fn resolve_complete_posts_active_draft() {
    let ops = plan_resolution(Resolution::Complete, JournalEntryId(1), PeerStatus::Posted(JournalEntryId(2)), Date::new(2026, 1, 15));
    assert_eq!(ops, vec![RecoveryOp::PostActive(JournalEntryId(1))]);
}

#[test]
fn resolve_rollback_reverses_other_and_deletes_active() {
    let ops = plan_resolution(Resolution::Rollback, JournalEntryId(1), PeerStatus::Posted(JournalEntryId(2)), Date::new(2026, 1, 15));
    assert_eq!(
        ops,
        vec![RecoveryOp::ReversePeer(JournalEntryId(2), Date::new(2026, 1, 15)), RecoveryOp::DeleteActive(JournalEntryId(1))]
    );
}

#[test]
fn resolve_delete_orphan_removes_active_draft() {
    let ops = plan_resolution(Resolution::DeleteOrphan, JournalEntryId(1), PeerStatus::NotFound, Date::new(2026, 1, 15));
    assert_eq!(ops, vec![RecoveryOp::DeleteActive(JournalEntryId(1))]);
    let none = plan_resolution(Resolution::PostBoth, JournalEntryId(1), PeerStatus::NotFound, Date::new(2026, 1, 15));
    assert!(none.is_empty());
}

#[test]
fn resolutions_offered_per_scenario() {
    assert_eq!(resolutions_for(PeerStatus::Draft(JournalEntryId(2))), vec![Resolution::PostBoth, Resolution::DeleteBoth]);
    assert_eq!(resolutions_for(PeerStatus::Posted(JournalEntryId(2))), vec![Resolution::Complete, Resolution::Rollback]);
    assert_eq!(resolutions_for(PeerStatus::NotFound), vec![Resolution::DeleteOrphan]);
}

// ── Form ────────────────────────────────────────────────────────────────────

fn today() -> Date {
    Date::new(2026, 1, 15)
}

#[test]
fn new_form_starts_in_header_section() {
    let form = InterEntityForm::with_date(today());
    assert_eq!(form.section(), FormSection::Header);
    assert_eq!(form.header_focus(), HeaderFocus::Date);
    assert_eq!(form.date_input(), "2026-01-15");
}

#[test]
fn tab_from_header_date_moves_to_memo() {
    let mut form = InterEntityForm::with_date(today());
    let r = form.route_key(FormKey::Tab);
    assert_eq!(r, KeyRoute::Header(HeaderMove::Stay));
    assert!(matches!(settled_action(r), Some(InterEntityFormAction::Pending)));
    assert_eq!(form.header_focus(), HeaderFocus::Memo);
    assert_eq!(form.section(), FormSection::Header);
    let r = form.route_key(FormKey::Tab);
    assert_eq!(r, KeyRoute::Header(HeaderMove::EnterEntityA));
    assert!(matches!(settled_action(r), Some(InterEntityFormAction::Pending)));
    assert_eq!(form.section(), FormSection::EntityA);
}

#[test]
fn tab_from_header_memo_moves_to_entity_a() {
    let mut form = InterEntityForm::with_date(today());
    form.set_section(FormSection::Header, HeaderFocus::Memo);
    assert_eq!(form.route_key(FormKey::Tab), KeyRoute::Header(HeaderMove::EnterEntityA));
    assert_eq!(form.section(), FormSection::EntityA);
    assert_eq!(form.route_key(FormKey::Char('x')), KeyRoute::EntityA);
}

#[test]
fn esc_with_no_content_returns_cancelled() {
    let mut form = InterEntityForm::with_date(today());
    assert_eq!(form.route_key(FormKey::Esc), KeyRoute::Exit);
    let has = form.has_content("2026-01-15", false, false);
    assert!(!has);
    assert!(form.request_exit(has));
}

#[test]
fn esc_with_content_shows_confirm_prompt() {
    let mut form = InterEntityForm::with_date(today());
    form.set_header("2026-01-15", "some memo");
    assert!(form.has_content("2026-01-15", false, false));
    assert_eq!(form.route_key(FormKey::Esc), KeyRoute::Exit);
    assert!(!form.request_exit(true));
    assert!(form.is_confirming_exit());
}

#[test]
fn confirm_exit_y_returns_cancelled() {
    let mut form = InterEntityForm::with_date(today());
    form.request_exit(true);
    assert_eq!(form.route_key(FormKey::Char('y')), KeyRoute::Cancelled);
}

#[test]
fn confirm_exit_n_dismisses_prompt() {
    let mut form = InterEntityForm::with_date(today());
    form.request_exit(true);
    assert_eq!(form.route_key(FormKey::Char('n')), KeyRoute::Pending);
    assert!(!form.is_confirming_exit());
}

#[test]
fn submit_fails_when_a_lines_unbalanced() {
    let mut form = InterEntityForm::with_date(today());
    let mut unbalanced = balanced_lines(1, 2);
    unbalanced[1].credit_amount = Money(5_000_000_000);
    assert_eq!(form.route_key(FormKey::CtrlS), KeyRoute::Submit);
    let out = form.submit(Ok(unbalanced), Ok(balanced_lines(3, 4)));
    assert!(out.is_none());
    assert_eq!(
        form.error().as_deref(),
        Some("Entity A lines do not balance: debits=100.00, credits=50.00")
    );
}

#[test]
fn has_content_with_memo() {
    let mut form = InterEntityForm::with_date(today());
    form.set_header("2026-01-15", "test");
    assert!(form.has_content("2026-01-15", false, false));
}

#[test]
fn has_content_empty_form_returns_false() {
    let form = InterEntityForm::with_date(today());
    assert!(!form.has_content("2026-01-15", false, false));
    assert!(form.has_content("2026-01-16", false, false));
    assert!(form.has_content("2026-01-15", true, false));
}

#[test]
fn per_entity_balance_check_catches_imbalance() {
    let form = InterEntityForm::with_date(today());
    let r = form.try_submit(Err("Line 1: no account selected".to_owned()), Ok(vec![]));
    assert_eq!(r.err().as_deref(), Some("[A] Line 1: no account selected"));
    let mut unbalanced = balanced_lines(3, 4);
    unbalanced[0].debit_amount = Money(20_000_000_000);
    let r = form.try_submit(Ok(balanced_lines(1, 2)), Ok(unbalanced));
    assert_eq!(r.err().as_deref(), Some("Entity B lines do not balance: debits=200.00, credits=100.00"));
}

#[test]
fn submit_validates_date_and_trims_memo() {
    let mut form = InterEntityForm::with_date(today());
    form.set_header("2026-13-01", "  Rent  ");
    let r = form.try_submit(Ok(balanced_lines(1, 2)), Ok(balanced_lines(3, 4)));
    assert_eq!(r.err().as_deref(), Some("Invalid date '2026-13-01'. Use YYYY-MM-DD format."));
    form.set_header("2026-02-01", "  Rent  ");
    let out = form.try_submit(Ok(balanced_lines(1, 2)), Ok(balanced_lines(3, 4))).expect("valid");
    assert_eq!(out.entry_date, Date::new(2026, 2, 1));
    assert_eq!(out.memo.as_deref(), Some("Rent"));
    form.set_header("2026-02-01", "   ");
    let out = form.try_submit(Ok(vec![]), Ok(vec![])).expect("valid");
    assert_eq!(out.memo, None);
}

#[test]
fn date_input_in_header_updates_field() {
    let mut form = InterEntityForm::with_date(today());
    form.set_header("", "");
    form.route_key(FormKey::Char('2'));
    form.route_key(FormKey::Char('0'));
    assert!(form.date_input().starts_with("20"));
    form.set_header("2026-01-15", "");
    form.route_key(FormKey::Char('9'));
    assert_eq!(form.date_input(), "2026-01-15", "date field holds at most ten bytes");
    form.route_key(FormKey::Backspace);
    assert_eq!(form.date_input(), "2026-01-1");
}

#[test]
fn account_list_shows_available_balances_only_when_known() {
    let a = Account {
        id: AccountId(1),
        number: "1110".to_owned(),
        name: "Checking".to_owned(),
        account_type: AccountType::Asset,
        parent_id: None,
        is_active: true,
        is_contra: false,
        is_placeholder: false,
        created_at: String::new(),
        updated_at: String::new(),
    };
    let mut b = a.clone();
    b.id = AccountId(2);
    b.number = "1000".to_owned();
    b.is_placeholder = true;
    let rows = account_list_rows(&[a.clone(), b.clone()], &[]);
    assert_eq!(rows[0].avail, None);
    assert!(rows[1].dimmed);
    let rows = account_list_rows(&[a, b], &[(AccountId(1), Money(12_345_000_000))]);
    assert_eq!(rows[0].avail.as_deref(), Some("123.45"));
    assert_eq!(rows[1].avail.as_deref(), Some(""));
}

#[test]
fn inter_entity_error_messages() {
    assert_eq!(
        InterEntityError::EntityNotFound("Acme".to_owned()).message(),
        "Entity 'Acme' not found in workspace config"
    );
    assert_eq!(
        InterEntityError::SameEntity.message(),
        "Cannot open the same entity as both sides of an inter-entity transaction"
    );
}

// ── Configuration ───────────────────────────────────────────────────────────

#[test]
fn last_opened_entity_is_written_preserving_the_rest() {
    let content = "# workspace\nreport_output_dir = \"reports\"\n";
    let updated = with_last_opened(content, "Acme LLC").expect("valid toml");
    assert!(updated.contains("# workspace"));
    assert!(updated.contains("report_output_dir = \"reports\""));
    assert!(updated.contains("last_opened_entity = \"Acme LLC\""));
    let again = with_last_opened(&updated, "Other").expect("valid toml");
    assert!(again.contains("last_opened_entity = \"Other\""));
    assert!(!again.contains("Acme LLC"));
    assert_eq!(with_last_opened("not = [valid", "x"), Err(ConfigError::Parse));
}

#[test]
fn new_form_is_prefilled_with_the_clock_date() {
    let before = chrono::Local::now().format("%Y-%m-%d").to_string();
    let form = InterEntityForm::new();
    let after = chrono::Local::now().format("%Y-%m-%d").to_string();
    let shown = form.date_input();
    assert!(shown == before || shown == after, "unexpected date {shown}");
    assert_eq!(form.memo_input(), "");
    assert_eq!(form.section(), FormSection::Header);
    assert_eq!(form.header_focus(), HeaderFocus::Date);
    assert!(!form.header_has_content(&shown));
}

#[test]
fn submit_trims_unicode_whitespace_from_memo() {
    let mut form = InterEntityForm::with_date(today());
    form.set_header("2026-02-01", "\u{3000}\t Rent due \u{a0}\n");
    let out = form.try_submit(Ok(vec![]), Ok(vec![])).expect("valid");
    assert_eq!(out.memo.as_deref(), Some("Rent due"));
}
