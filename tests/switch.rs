use validator_switch::switch::{
    exit_code, highest_vote_slot, votes_event, AbortReason, LiveKey, Outcome, Phase, SafetyFault,
    Side, SwitchAction, SwitchEvent, SwitchMachine,
};

fn run(dry_run: bool, force: bool, events: &[SwitchEvent]) -> (SwitchMachine, Vec<SwitchAction>) {
    let (mut m, first) = SwitchMachine::start(dry_run, force);
    let mut actions = vec![first];
    for ev in events {
        let (next, act) = m.next(*ev);
        m = next;
        actions.push(act);
    }
    (m, actions)
}

fn roles_a() -> SwitchEvent {
    SwitchEvent::Roles { a_funded: Some(true), b_funded: Some(false) }
}

fn ready() -> SwitchEvent {
    SwitchEvent::Readiness { active_ready: true, standby_ready: true }
}

fn mutating(a: &SwitchAction) -> bool {
    matches!(a, SwitchAction::SetIdentity { .. } | SwitchAction::TransferTower { .. })
}

#[test]
fn happy_switch_from_a_to_b() {
    let (m, actions) = run(
        false,
        false,
        &[
            roles_a(),
            ready(),
            SwitchEvent::CommandDone { ok: true },
            SwitchEvent::Identity { key: LiveKey::Unfunded },
            SwitchEvent::CommandDone { ok: true },
            SwitchEvent::TowerCopied { intact: true },
            SwitchEvent::CommandDone { ok: true },
            SwitchEvent::Identity { key: LiveKey::Funded },
            SwitchEvent::Votes { new_active_voting: true, old_active_stopped: true },
        ],
    );
    assert_eq!(
        actions,
        vec![
            SwitchAction::ProbeRoles,
            SwitchAction::CheckReadiness { active: Side::A },
            SwitchAction::SetIdentity { node: Side::A, funded: false },
            SwitchAction::ConfirmIdentity { node: Side::A },
            SwitchAction::SaveTower { node: Side::A },
            SwitchAction::TransferTower { from: Side::A, to: Side::B },
            SwitchAction::SetIdentity { node: Side::B, funded: true },
            SwitchAction::ConfirmIdentity { node: Side::B },
            SwitchAction::WatchVotes { new_active: Side::B, old_active: Side::A },
            SwitchAction::Finish { outcome: Outcome::Switched { from: Side::A, to: Side::B } },
        ]
    );
    assert_eq!(m.phase, Phase::Done);
    assert_eq!(exit_code(Outcome::Switched { from: Side::A, to: Side::B }), 0);
}

#[test]
fn dry_run_reports_plan_and_mutates_nothing() {
    let (m, actions) = run(true, false, &[roles_a(), ready()]);
    assert_eq!(
        actions.last(),
        Some(&SwitchAction::Finish { outcome: Outcome::DryRun { from: Side::A, to: Side::B } })
    );
    assert!(!actions.iter().any(mutating));
    assert_eq!(m.phase, Phase::Done);
    let (_, again) = run(true, false, &[roles_a(), ready()]);
    assert_eq!(actions, again);
    assert_eq!(exit_code(Outcome::DryRun { from: Side::A, to: Side::B }), 0);
}

#[test]
fn dry_run_with_b_active_plans_b_to_a() {
    let (_, actions) = run(
        true,
        false,
        &[SwitchEvent::Roles { a_funded: Some(false), b_funded: Some(true) }, ready()],
    );
    assert_eq!(
        actions.last(),
        Some(&SwitchAction::Finish { outcome: Outcome::DryRun { from: Side::B, to: Side::A } })
    );
}

#[test]
fn standby_not_ready_aborts_before_any_mutation() {
    let (m, actions) = run(
        false,
        false,
        &[roles_a(), SwitchEvent::Readiness { active_ready: true, standby_ready: false }],
    );
    assert_eq!(
        actions.last(),
        Some(&SwitchAction::Finish { outcome: Outcome::Aborted { reason: AbortReason::NotReady } })
    );
    assert!(!actions.iter().any(mutating));
    assert_eq!(m.phase, Phase::Aborted);
    assert_eq!(exit_code(Outcome::Aborted { reason: AbortReason::NotReady }), 1);
}

#[test]
fn ambiguous_roles_abort() {
    for ev in [
        SwitchEvent::Roles { a_funded: Some(true), b_funded: Some(true) },
        SwitchEvent::Roles { a_funded: Some(false), b_funded: Some(false) },
        SwitchEvent::Roles { a_funded: None, b_funded: Some(false) },
    ] {
        let (_, actions) = run(false, false, &[ev]);
        assert_eq!(
            actions.last(),
            Some(&SwitchAction::Finish {
                outcome: Outcome::Aborted { reason: AbortReason::AmbiguousRole }
            })
        );
    }
}

#[test]
fn corrupted_tower_rolls_back_the_demote() {
    let (m, actions) = run(
        false,
        false,
        &[
            roles_a(),
            ready(),
            SwitchEvent::CommandDone { ok: true },
            SwitchEvent::Identity { key: LiveKey::Unfunded },
            SwitchEvent::CommandDone { ok: true },
            SwitchEvent::TowerCopied { intact: false },
            SwitchEvent::CommandDone { ok: true },
            SwitchEvent::Identity { key: LiveKey::Funded },
        ],
    );
    assert_eq!(
        actions[6..].to_vec(),
        vec![
            SwitchAction::SetIdentity { node: Side::A, funded: true },
            SwitchAction::ConfirmIdentity { node: Side::A },
            SwitchAction::Finish {
                outcome: Outcome::Aborted { reason: AbortReason::TowerTransferFailed }
            },
        ]
    );
    assert!(!actions.contains(&SwitchAction::SetIdentity { node: Side::B, funded: true }));
    assert_eq!(m.phase, Phase::Aborted);
}

#[test]
fn failed_post_verify_halts_without_rollback() {
    let (m, actions) = run(
        false,
        false,
        &[
            roles_a(),
            ready(),
            SwitchEvent::CommandDone { ok: true },
            SwitchEvent::Identity { key: LiveKey::Unfunded },
            SwitchEvent::CommandDone { ok: true },
            SwitchEvent::TowerCopied { intact: true },
            SwitchEvent::CommandDone { ok: true },
            SwitchEvent::Identity { key: LiveKey::Funded },
            SwitchEvent::Votes { new_active_voting: false, old_active_stopped: true },
        ],
    );
    let outcome = Outcome::NeedsOperator { fault: SafetyFault::PostVerifyFailed };
    assert_eq!(actions.last(), Some(&SwitchAction::Finish { outcome }));
    assert_eq!(m.phase, Phase::Halted);
    assert_eq!(exit_code(outcome), 2);
    assert_eq!(
        actions.iter().filter(|a| matches!(a, SwitchAction::SetIdentity { funded: true, .. })).count(),
        1
    );
    let (m2, a2) = m.next(SwitchEvent::Interrupted);
    assert_eq!(m2, m);
    assert_eq!(a2, SwitchAction::Stop);
}

#[test]
fn force_skips_the_tower_copy() {
    let (_, actions) = run(
        false,
        true,
        &[roles_a(), ready(), SwitchEvent::CommandDone { ok: true }, SwitchEvent::Identity { key: LiveKey::Unfunded }],
    );
    assert_eq!(actions.last(), Some(&SwitchAction::SetIdentity { node: Side::B, funded: true }));
    assert!(!actions.iter().any(|a| matches!(a, SwitchAction::TransferTower { .. })));
}

#[test]
fn unconfirmed_demote_rolls_back() {
    let (_, actions) = run(
        false,
        false,
        &[roles_a(), ready(), SwitchEvent::CommandDone { ok: true }, SwitchEvent::Identity { key: LiveKey::Funded }],
    );
    assert_eq!(actions.last(), Some(&SwitchAction::SetIdentity { node: Side::A, funded: true }));
}

#[test]
fn interruption_during_promote_is_ridden_out() {
    let (m, actions) = run(
        false,
        false,
        &[
            roles_a(),
            ready(),
            SwitchEvent::CommandDone { ok: true },
            SwitchEvent::Identity { key: LiveKey::Unfunded },
            SwitchEvent::CommandDone { ok: true },
            SwitchEvent::TowerCopied { intact: true },
            SwitchEvent::Interrupted,
            SwitchEvent::Interrupted,
        ],
    );
    assert_eq!(actions.last(), Some(&SwitchAction::ConfirmIdentity { node: Side::B }));
    assert_eq!(m.phase, Phase::ConfirmPromote);
}

#[test]
fn failed_rollback_needs_the_operator() {
    let (m, actions) = run(
        false,
        false,
        &[roles_a(), ready(), SwitchEvent::CommandDone { ok: false }, SwitchEvent::CommandDone { ok: false }],
    );
    assert_eq!(
        actions.last(),
        Some(&SwitchAction::Finish {
            outcome: Outcome::NeedsOperator { fault: SafetyFault::RollbackFailed }
        })
    );
    assert_eq!(m.phase, Phase::Halted);
}

#[test]
fn post_verify_report() {
    assert_eq!(
        votes_event(Some(100), Some(105), true),
        SwitchEvent::Votes { new_active_voting: true, old_active_stopped: true }
    );
    assert_eq!(
        votes_event(Some(100), Some(100), true),
        SwitchEvent::Votes { new_active_voting: false, old_active_stopped: true }
    );
    assert_eq!(
        votes_event(None, Some(100), false),
        SwitchEvent::Votes { new_active_voting: false, old_active_stopped: false }
    );
}

#[test]
fn last_vote_slot_is_the_highest() {
    assert_eq!(highest_vote_slot(&vec![]), None);
    assert_eq!(highest_vote_slot(&vec![310, 312, 311]), Some(312));
}

#[test]
fn interrupted_read_backs_after_promote_end_in_a_halt() {
    let mut events = vec![
        roles_a(),
        ready(),
        SwitchEvent::CommandDone { ok: true },
        SwitchEvent::Identity { key: LiveKey::Unfunded },
        SwitchEvent::CommandDone { ok: true },
        SwitchEvent::TowerCopied { intact: true },
        SwitchEvent::CommandDone { ok: true },
    ];
    for _ in 0..3 {
        events.push(SwitchEvent::Interrupted);
    }
    let (m, actions) = run(false, false, &events);
    assert_eq!(actions.last(), Some(&SwitchAction::ConfirmIdentity { node: Side::B }));
    assert_eq!(m.phase, Phase::ConfirmPromote);
    let (m, a) = m.next(SwitchEvent::Interrupted);
    assert_eq!(
        a,
        SwitchAction::Finish { outcome: Outcome::NeedsOperator { fault: SafetyFault::PromoteUnconfirmed } }
    );
    assert_eq!(m.phase, Phase::Halted);
}

#[test]
fn failed_tower_save_rolls_back() {
    let (_, actions) = run(
        false,
        false,
        &[
            roles_a(),
            ready(),
            SwitchEvent::CommandDone { ok: true },
            SwitchEvent::Identity { key: LiveKey::Unfunded },
            SwitchEvent::CommandDone { ok: false },
            SwitchEvent::CommandDone { ok: true },
            SwitchEvent::Identity { key: LiveKey::Funded },
        ],
    );
    assert_eq!(actions[4], SwitchAction::SaveTower { node: Side::A });
    assert_eq!(actions[5], SwitchAction::SetIdentity { node: Side::A, funded: true });
    assert_eq!(
        actions.last(),
        Some(&SwitchAction::Finish {
            outcome: Outcome::Aborted { reason: AbortReason::TowerTransferFailed }
        })
    );
}
