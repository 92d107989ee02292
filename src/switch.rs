use vstd::prelude::*;

verus! {

/// One of the two nodes of a validator pair.
#[derive(Clone, Copy, Debug, PartialEq, Eq, Structural)]
pub enum Side {
    A,
    B,
}

/// What a node is found to run under when its identity is read back.
#[derive(Clone, Copy, Debug, PartialEq, Eq, Structural)]
pub enum LiveKey {
    Funded,
    Unfunded,
    Other,
}

/// Stages of a switch.
#[derive(Clone, Copy, Debug, PartialEq, Eq, Structural)]
pub enum Phase {
    Planning,
    PreCheck,
    Demote,
    ConfirmDemote,
    SaveTower,
    TowerTransfer,
    Promote,
    ConfirmPromote,
    PostVerify,
    Rollback,
    ConfirmRollback,
    Done,
    Aborted,
    Halted,
}

/// Why a switch stopped before the standby was promoted; the cluster is as it was.
#[derive(Clone, Copy, Debug, PartialEq, Eq, Structural)]
pub enum AbortReason {
    AmbiguousRole,
    NotReady,
    DemoteFailed,
    TowerTransferFailed,
    Cancelled,
    UnexpectedEvent,
}

/// A fault that the controller will not repair by itself.
#[derive(Clone, Copy, Debug, PartialEq, Eq, Structural)]
pub enum SafetyFault {
    PromoteUnconfirmed,
    PostVerifyFailed,
    RollbackFailed,
}

#[derive(Clone, Copy, Debug, PartialEq, Eq, Structural)]
pub enum Outcome {
    Switched { from: Side, to: Side },
    DryRun { from: Side, to: Side },
    Aborted { reason: AbortReason },
    NeedsOperator { fault: SafetyFault },
}

/// Remote work the caller performs next, reporting back with a `SwitchEvent`.
#[derive(Clone, Copy, Debug, PartialEq, Eq, Structural)]
pub enum SwitchAction {
    /// Read the live identity of both nodes and compare it with the funded key.
    ProbeRoles,
    /// Run the readiness verifier on both nodes.
    CheckReadiness { active: Side },
    /// Switch the running validator of `node` to the funded or the unfunded key.
    SetIdentity { node: Side, funded: bool },
    /// Read back the identity that `node` runs under.
    ConfirmIdentity { node: Side },
    /// Ask the validator of `node`, now unfunded, to write out its latest tower.
    SaveTower { node: Side },
    /// Copy the one tower file of `from` into the ledger of `to`, checksummed.
    TransferTower { from: Side, to: Side },
    /// Watch that `new_active` votes and `old_active` stops.
    WatchVotes { new_active: Side, old_active: Side },
    Finish { outcome: Outcome },
    /// Nothing left to do.
    Stop,
}

/// What the caller observed while performing the last action.
#[derive(Clone, Copy, Debug, PartialEq, Eq, Structural)]
pub enum SwitchEvent {
    /// For each node, whether its live identity is the funded key; `None` when it could
    /// not be read.
    Roles { a_funded: Option<bool>, b_funded: Option<bool> },
    Readiness { active_ready: bool, standby_ready: bool },
    CommandDone { ok: bool },
    Identity { key: LiveKey },
    TowerCopied { intact: bool },
    Votes { new_active_voting: bool, old_active_stopped: bool },
    Interrupted,
}

/// The switch orchestrator: decides, from each observation, the next remote step.
#[derive(Clone, Copy, Debug, PartialEq, Eq, Structural)]
pub struct SwitchMachine {
    pub phase: Phase,
    pub dry_run: bool,
    /// Skip the tower transfer.
    pub force: bool,
    /// The node found to hold the funded identity during planning.
    pub active: Side,
    /// Why a rollback was started.
    pub cause: AbortReason,
    /// Read-backs or watches repeated in the current phase after an interruption.
    pub rereads: u8,
}

/// How many times an interrupted read-back or watch is repeated before the switch halts.
pub const MAX_REREADS: u8 = 3;

pub open spec fn other(s: Side) -> Side {
    match s {
        Side::A => Side::B,
        Side::B => Side::A,
    }
}

pub open spec fn finish(m: SwitchMachine, phase: Phase, outcome: Outcome) -> (
    SwitchMachine,
    SwitchAction,
) {
    (SwitchMachine { phase, ..m }, SwitchAction::Finish { outcome })
}

pub open spec fn abort(m: SwitchMachine, reason: AbortReason) -> (SwitchMachine, SwitchAction) {
    finish(m, Phase::Aborted, Outcome::Aborted { reason })
}

pub open spec fn halt(m: SwitchMachine, fault: SafetyFault) -> (SwitchMachine, SwitchAction) {
    finish(m, Phase::Halted, Outcome::NeedsOperator { fault })
}

/// Give the funded identity back to the node that had it.
pub open spec fn rollback(m: SwitchMachine, cause: AbortReason) -> (SwitchMachine, SwitchAction) {
    (
        SwitchMachine { phase: Phase::Rollback, cause, ..m },
        SwitchAction::SetIdentity { node: m.active, funded: true },
    )
}

pub open spec fn promote(m: SwitchMachine) -> (SwitchMachine, SwitchAction) {
    (
        SwitchMachine { phase: Phase::Promote, ..m },
        SwitchAction::SetIdentity { node: other(m.active), funded: true },
    )
}

/// The first state and action of a switch.
pub open spec fn initial(dry_run: bool, force: bool) -> (SwitchMachine, SwitchAction) {
    (
        SwitchMachine {
            phase: Phase::Planning,
            dry_run,
            force,
            active: Side::A,
            cause: AbortReason::UnexpectedEvent,
            rereads: 0,
        },
        SwitchAction::ProbeRoles,
    )
}

/// The transition table of the switch protocol.
pub open spec fn step(m: SwitchMachine, ev: SwitchEvent) -> (SwitchMachine, SwitchAction) {
    let standby = other(m.active);
    match m.phase {
        Phase::Planning => match ev {
            SwitchEvent::Roles { a_funded, b_funded } => match (a_funded, b_funded) {
                (Some(true), Some(false)) => (
                    SwitchMachine { phase: Phase::PreCheck, active: Side::A, ..m },
                    SwitchAction::CheckReadiness { active: Side::A },
                ),
                (Some(false), Some(true)) => (
                    SwitchMachine { phase: Phase::PreCheck, active: Side::B, ..m },
                    SwitchAction::CheckReadiness { active: Side::B },
                ),
                _ => abort(m, AbortReason::AmbiguousRole),
            },
            SwitchEvent::Interrupted => abort(m, AbortReason::Cancelled),
            _ => abort(m, AbortReason::UnexpectedEvent),
        },
        Phase::PreCheck => match ev {
            SwitchEvent::Readiness { active_ready, standby_ready } => if active_ready
                && standby_ready {
                if m.dry_run {
                    finish(m, Phase::Done, Outcome::DryRun { from: m.active, to: standby })
                } else {
                    (
                        SwitchMachine { phase: Phase::Demote, ..m },
                        SwitchAction::SetIdentity { node: m.active, funded: false },
                    )
                }
            } else {
                abort(m, AbortReason::NotReady)
            },
            SwitchEvent::Interrupted => abort(m, AbortReason::Cancelled),
            _ => abort(m, AbortReason::UnexpectedEvent),
        },
        Phase::Demote => match ev {
            SwitchEvent::CommandDone { ok: true } => (
                SwitchMachine { phase: Phase::ConfirmDemote, ..m },
                SwitchAction::ConfirmIdentity { node: m.active },
            ),
            SwitchEvent::Interrupted => rollback(m, AbortReason::Cancelled),
            _ => rollback(m, AbortReason::DemoteFailed),
        },
        Phase::ConfirmDemote => match ev {
            SwitchEvent::Identity { key: LiveKey::Unfunded } => if m.force {
                promote(m)
            } else {
                (
                    SwitchMachine { phase: Phase::SaveTower, ..m },
                    SwitchAction::SaveTower { node: m.active },
                )
            },
            SwitchEvent::Interrupted => rollback(m, AbortReason::Cancelled),
            _ => rollback(m, AbortReason::DemoteFailed),
        },
        Phase::SaveTower => match ev {
            SwitchEvent::CommandDone { ok: true } => (
                SwitchMachine { phase: Phase::TowerTransfer, ..m },
                SwitchAction::TransferTower { from: m.active, to: standby },
            ),
            SwitchEvent::Interrupted => rollback(m, AbortReason::Cancelled),
            _ => rollback(m, AbortReason::TowerTransferFailed),
        },
        Phase::TowerTransfer => match ev {
            SwitchEvent::TowerCopied { intact: true } => promote(m),
            SwitchEvent::Interrupted => rollback(m, AbortReason::Cancelled),
            _ => rollback(m, AbortReason::TowerTransferFailed),
        },
        Phase::Promote => (
            SwitchMachine { phase: Phase::ConfirmPromote, ..m },
            SwitchAction::ConfirmIdentity { node: standby },
        ),
        Phase::ConfirmPromote => match ev {
            SwitchEvent::Identity { key: LiveKey::Funded } => (
                SwitchMachine { phase: Phase::PostVerify, rereads: 0, ..m },
                SwitchAction::WatchVotes { new_active: standby, old_active: m.active },
            ),
            SwitchEvent::Interrupted => if m.rereads < MAX_REREADS {
                (
                    SwitchMachine { rereads: (m.rereads + 1) as u8, ..m },
                    SwitchAction::ConfirmIdentity { node: standby },
                )
            } else {
                halt(m, SafetyFault::PromoteUnconfirmed)
            },
            _ => halt(m, SafetyFault::PromoteUnconfirmed),
        },
        Phase::PostVerify => match ev {
            SwitchEvent::Votes { new_active_voting: true, old_active_stopped: true } => finish(
                m,
                Phase::Done,
                Outcome::Switched { from: m.active, to: standby },
            ),
            SwitchEvent::Interrupted => if m.rereads < MAX_REREADS {
                (
                    SwitchMachine { rereads: (m.rereads + 1) as u8, ..m },
                    SwitchAction::WatchVotes { new_active: standby, old_active: m.active },
                )
            } else {
                halt(m, SafetyFault::PostVerifyFailed)
            },
            _ => halt(m, SafetyFault::PostVerifyFailed),
        },
        Phase::Rollback => match ev {
            SwitchEvent::CommandDone { ok: true } => (
                SwitchMachine { phase: Phase::ConfirmRollback, ..m },
                SwitchAction::ConfirmIdentity { node: m.active },
            ),
            _ => halt(m, SafetyFault::RollbackFailed),
        },
        Phase::ConfirmRollback => match ev {
            SwitchEvent::Identity { key: LiveKey::Funded } => abort(m, m.cause),
            _ => halt(m, SafetyFault::RollbackFailed),
        },
        _ => (m, SwitchAction::Stop),
    }
}

/// The node that is not `s`.
pub fn other_side(s: Side) -> (r: Side)
    ensures
        r == other(s),
{
    match s {
        Side::A => Side::B,
        Side::B => Side::A,
    }
}

impl SwitchMachine {
    /// A switch about to plan: its first action probes both nodes for their roles.
    pub fn start(dry_run: bool, force: bool) -> (r: (SwitchMachine, SwitchAction))
        ensures
            r == initial(dry_run, force),
    {
        (
            SwitchMachine {
                phase: Phase::Planning,
                dry_run,
                force,
                active: Side::A,
                cause: AbortReason::UnexpectedEvent,
                rereads: 0,
            },
            SwitchAction::ProbeRoles,
        )
    }

    /// The next state and remote action after observing `ev`.
    pub fn next(&self, ev: SwitchEvent) -> (r: (SwitchMachine, SwitchAction))
        ensures
            r == step(*self, ev),
    {
        let m = *self;
        let standby = other_side(m.active);
        match m.phase {
            Phase::Planning => match ev {
                SwitchEvent::Roles { a_funded, b_funded } => match (a_funded, b_funded) {
                    (Some(true), Some(false)) => (
                        SwitchMachine { phase: Phase::PreCheck, active: Side::A, ..m },
                        SwitchAction::CheckReadiness { active: Side::A },
                    ),
                    (Some(false), Some(true)) => (
                        SwitchMachine { phase: Phase::PreCheck, active: Side::B, ..m },
                        SwitchAction::CheckReadiness { active: Side::B },
                    ),
                    _ => Self::abort_with(m, AbortReason::AmbiguousRole),
                },
                SwitchEvent::Interrupted => Self::abort_with(m, AbortReason::Cancelled),
                _ => Self::abort_with(m, AbortReason::UnexpectedEvent),
            },
            Phase::PreCheck => match ev {
                SwitchEvent::Readiness { active_ready, standby_ready } => if active_ready
                    && standby_ready {
                    if m.dry_run {
                        (
                            SwitchMachine { phase: Phase::Done, ..m },
                            SwitchAction::Finish {
                                outcome: Outcome::DryRun { from: m.active, to: standby },
                            },
                        )
                    } else {
                        (
                            SwitchMachine { phase: Phase::Demote, ..m },
                            SwitchAction::SetIdentity { node: m.active, funded: false },
                        )
                    }
                } else {
                    Self::abort_with(m, AbortReason::NotReady)
                },
                SwitchEvent::Interrupted => Self::abort_with(m, AbortReason::Cancelled),
                _ => Self::abort_with(m, AbortReason::UnexpectedEvent),
            },
            Phase::Demote => match ev {
                SwitchEvent::CommandDone { ok: true } => (
                    SwitchMachine { phase: Phase::ConfirmDemote, ..m },
                    SwitchAction::ConfirmIdentity { node: m.active },
                ),
                SwitchEvent::Interrupted => Self::roll_back(m, AbortReason::Cancelled),
                _ => Self::roll_back(m, AbortReason::DemoteFailed),
            },
            Phase::ConfirmDemote => match ev {
                SwitchEvent::Identity { key: LiveKey::Unfunded } => if m.force {
                    Self::promote_standby(m)
                } else {
                    (
                        SwitchMachine { phase: Phase::SaveTower, ..m },
                        SwitchAction::SaveTower { node: m.active },
                    )
                },
                SwitchEvent::Interrupted => Self::roll_back(m, AbortReason::Cancelled),
                _ => Self::roll_back(m, AbortReason::DemoteFailed),
            },
            Phase::SaveTower => match ev {
                SwitchEvent::CommandDone { ok: true } => (
                    SwitchMachine { phase: Phase::TowerTransfer, ..m },
                    SwitchAction::TransferTower { from: m.active, to: standby },
                ),
                SwitchEvent::Interrupted => Self::roll_back(m, AbortReason::Cancelled),
                _ => Self::roll_back(m, AbortReason::TowerTransferFailed),
            },
            Phase::TowerTransfer => match ev {
                SwitchEvent::TowerCopied { intact: true } => Self::promote_standby(m),
                SwitchEvent::Interrupted => Self::roll_back(m, AbortReason::Cancelled),
                _ => Self::roll_back(m, AbortReason::TowerTransferFailed),
            },
            Phase::Promote => (
                SwitchMachine { phase: Phase::ConfirmPromote, ..m },
                SwitchAction::ConfirmIdentity { node: standby },
            ),
            Phase::ConfirmPromote => match ev {
                SwitchEvent::Identity { key: LiveKey::Funded } => (
                    SwitchMachine { phase: Phase::PostVerify, rereads: 0, ..m },
                    SwitchAction::WatchVotes { new_active: standby, old_active: m.active },
                ),
                SwitchEvent::Interrupted => if m.rereads < MAX_REREADS {
                    (
                        SwitchMachine { rereads: m.rereads + 1, ..m },
                        SwitchAction::ConfirmIdentity { node: standby },
                    )
                } else {
                    Self::halt_with(m, SafetyFault::PromoteUnconfirmed)
                },
                _ => Self::halt_with(m, SafetyFault::PromoteUnconfirmed),
            },
            Phase::PostVerify => match ev {
                SwitchEvent::Votes { new_active_voting: true, old_active_stopped: true } => (
                    SwitchMachine { phase: Phase::Done, ..m },
                    SwitchAction::Finish {
                        outcome: Outcome::Switched { from: m.active, to: standby },
                    },
                ),
                SwitchEvent::Interrupted => if m.rereads < MAX_REREADS {
                    (
                        SwitchMachine { rereads: m.rereads + 1, ..m },
                        SwitchAction::WatchVotes { new_active: standby, old_active: m.active },
                    )
                } else {
                    Self::halt_with(m, SafetyFault::PostVerifyFailed)
                },
                _ => Self::halt_with(m, SafetyFault::PostVerifyFailed),
            },
            Phase::Rollback => match ev {
                SwitchEvent::CommandDone { ok: true } => (
                    SwitchMachine { phase: Phase::ConfirmRollback, ..m },
                    SwitchAction::ConfirmIdentity { node: m.active },
                ),
                _ => Self::halt_with(m, SafetyFault::RollbackFailed),
            },
            Phase::ConfirmRollback => match ev {
                SwitchEvent::Identity { key: LiveKey::Funded } => Self::abort_with(m, m.cause),
                _ => Self::halt_with(m, SafetyFault::RollbackFailed),
            },
            _ => (m, SwitchAction::Stop),
        }
    }

    fn abort_with(m: SwitchMachine, reason: AbortReason) -> (r: (SwitchMachine, SwitchAction))
        ensures
            r == abort(m, reason),
    {
        (
            SwitchMachine { phase: Phase::Aborted, ..m },
            SwitchAction::Finish { outcome: Outcome::Aborted { reason } },
        )
    }

    fn halt_with(m: SwitchMachine, fault: SafetyFault) -> (r: (SwitchMachine, SwitchAction))
        ensures
            r == halt(m, fault),
    {
        (
            SwitchMachine { phase: Phase::Halted, ..m },
            SwitchAction::Finish { outcome: Outcome::NeedsOperator { fault } },
        )
    }

    fn roll_back(m: SwitchMachine, cause: AbortReason) -> (r: (SwitchMachine, SwitchAction))
        ensures
            r == rollback(m, cause),
    {
        (
            SwitchMachine { phase: Phase::Rollback, cause, ..m },
            SwitchAction::SetIdentity { node: m.active, funded: true },
        )
    }

    fn promote_standby(m: SwitchMachine) -> (r: (SwitchMachine, SwitchAction))
        ensures
            r == promote(m),
    {
        (
            SwitchMachine { phase: Phase::Promote, ..m },
            SwitchAction::SetIdentity { node: other_side(m.active), funded: true },
        )
    }
}

/// The highest of `slots`, or `None` for none.
pub open spec fn highest(slots: Seq<u64>) -> Option<u64>
    decreases slots.len(),
{
    if slots.len() == 0 {
        None
    } else {
        match highest(slots.drop_last()) {
            Some(m) => Some(if slots.last() > m {
                slots.last()
            } else {
                m
            }),
            None => Some(slots.last()),
        }
    }
}

/// The last voted slot of a vote account, from the slots of its recent votes.
pub fn highest_vote_slot(slots: &Vec<u64>) -> (r: Option<u64>)
    ensures
        r == highest(slots@),
{
    let mut best: Option<u64> = None;
    let mut i: usize = 0;
    while i < slots.len()
        invariant
            i <= slots.len(),
            best == highest(slots@.take(i as int)),
        decreases slots.len() - i,
    {
        assert(slots@.take(i + 1).drop_last() =~= slots@.take(i as int));
        let s = slots[i];
        best = match best {
            Some(m) => Some(if s > m {
                s
            } else {
                m
            }),
            None => Some(s),
        };
        i = i + 1;
    }
    assert(slots@.take(slots.len() as int) =~= slots@);
    best
}

/// The vote account's last voted slot moved on between two readings.
pub open spec fn vote_advanced(before: Option<u64>, after: Option<u64>) -> bool {
    match (before, after) {
        (Some(b), Some(a)) => a > b,
        _ => false,
    }
}

/// The report of the watch that follows a promotion, from the vote account's last voted
/// slot at the start and at the end of the window (`None` when unread), and whether the
/// old active node still runs the unfunded key.
pub fn votes_event(before: Option<u64>, after: Option<u64>, old_runs_unfunded: bool) -> (r:
    SwitchEvent)
    ensures
        r == (SwitchEvent::Votes {
            new_active_voting: vote_advanced(before, after),
            old_active_stopped: old_runs_unfunded,
        }),
{
    let advanced = match (before, after) {
        (Some(b), Some(a)) => a > b,
        _ => false,
    };
    SwitchEvent::Votes { new_active_voting: advanced, old_active_stopped: old_runs_unfunded }
}

/// Process exit status of a finished switch: 0 done or planned, 1 aborted, 2 operator
/// needed.
pub open spec fn exit_status(o: Outcome) -> u8 {
    match o {
        Outcome::Switched { .. } => 0,
        Outcome::DryRun { .. } => 0,
        Outcome::Aborted { .. } => 1,
        Outcome::NeedsOperator { .. } => 2,
    }
}

pub fn exit_code(o: Outcome) -> (r: u8)
    ensures
        r == exit_status(o),
{
    match o {
        Outcome::Switched { .. } => 0,
        Outcome::DryRun { .. } => 0,
        Outcome::Aborted { .. } => 1,
        Outcome::NeedsOperator { .. } => 2,
    }
}

} // verus!
