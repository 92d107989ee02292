use vstd::prelude::*;
use crate::switch::{
    exit_status, initial, other, step, LiveKey, Outcome, Phase, Side, SwitchAction, SwitchEvent,
    SwitchMachine,
};

verus! {

/// Which nodes of a pair run under the funded identity.
#[derive(Clone, Copy, Debug, PartialEq, Eq, Structural)]
pub struct World {
    pub a_funded: bool,
    pub b_funded: bool,
}

/// One round trip of a switch as the cluster lives it: whether the last action's remote
/// command took effect (whatever was reported), and what was reported.
#[derive(Clone, Copy, Debug, PartialEq, Eq, Structural)]
pub struct EnvStep {
    pub took_effect: bool,
    pub event: SwitchEvent,
}

pub open spec fn funded(w: World, s: Side) -> bool {
    match s {
        Side::A => w.a_funded,
        Side::B => w.b_funded,
    }
}

pub open spec fn funded_count(w: World) -> nat {
    (if w.a_funded {
        1nat
    } else {
        0nat
    }) + (if w.b_funded {
        1nat
    } else {
        0nat
    })
}

pub open spec fn with_funded(w: World, s: Side, v: bool) -> World {
    match s {
        Side::A => World { a_funded: v, ..w },
        Side::B => World { b_funded: v, ..w },
    }
}

/// The cluster after an action: only an identity command changes it, and only when it
/// took effect.
pub open spec fn effect(w: World, act: SwitchAction, took_effect: bool) -> World {
    match act {
        SwitchAction::SetIdentity { node, funded } => if took_effect {
            with_funded(w, node, funded)
        } else {
            w
        },
        _ => w,
    }
}

/// Reads report the cluster as it is: a role probe gives each node's funded state, or
/// nothing; an identity read-back says `Funded` exactly when the node runs the funded key.
pub open spec fn honest(w: World, act: SwitchAction, ev: SwitchEvent) -> bool {
    match act {
        SwitchAction::ProbeRoles => match ev {
            SwitchEvent::Roles { a_funded, b_funded } => (a_funded matches Some(x) ==> x
                == w.a_funded) && (b_funded matches Some(y) ==> y == w.b_funded),
            _ => true,
        },
        SwitchAction::ConfirmIdentity { node } => match ev {
            SwitchEvent::Identity { key } => (key == LiveKey::Funded) == funded(w, node),
            _ => true,
        },
        _ => true,
    }
}

pub open spec fn events(steps: Seq<EnvStep>) -> Seq<SwitchEvent> {
    steps.map_values(|s: EnvStep| s.event)
}

/// State and pending action after the first `i` events.
pub open spec fn state_at(
    start: (SwitchMachine, SwitchAction),
    evs: Seq<SwitchEvent>,
    i: nat,
) -> (SwitchMachine, SwitchAction)
    decreases i,
{
    if i == 0 {
        start
    } else {
        step(state_at(start, evs, (i - 1) as nat).0, evs[i - 1])
    }
}

/// The cluster after the first `i` round trips.
pub open spec fn world_at(
    start: (SwitchMachine, SwitchAction),
    w0: World,
    steps: Seq<EnvStep>,
    i: nat,
) -> World
    decreases i,
{
    if i == 0 {
        w0
    } else {
        effect(
            world_at(start, w0, steps, (i - 1) as nat),
            state_at(start, events(steps), (i - 1) as nat).1,
            steps[i - 1].took_effect,
        )
    }
}

/// Every report of the run is honest about the cluster it was read from.
pub open spec fn honest_run(start: (SwitchMachine, SwitchAction), w0: World, steps: Seq<EnvStep>) -> bool {
    forall|i: nat|
        i < steps.len() ==> honest(
            #[trigger] world_at(start, w0, steps, i + 1),
            state_at(start, events(steps), i).1,
            steps[i as int].event,
        )
}

/// Each phase issues its own kind of action.
pub open spec fn shape(m: SwitchMachine, a: SwitchAction) -> bool {
    match m.phase {
        Phase::Planning => a == SwitchAction::ProbeRoles,
        Phase::PreCheck => a == (SwitchAction::CheckReadiness { active: m.active }),
        Phase::Demote => a == (SwitchAction::SetIdentity { node: m.active, funded: false }),
        Phase::ConfirmDemote => a == (SwitchAction::ConfirmIdentity { node: m.active }),
        Phase::SaveTower => a == (SwitchAction::SaveTower { node: m.active }),
        Phase::TowerTransfer => a == (SwitchAction::TransferTower {
            from: m.active,
            to: other(m.active),
        }),
        Phase::Promote => a == (SwitchAction::SetIdentity { node: other(m.active), funded: true }),
        Phase::ConfirmPromote => a == (SwitchAction::ConfirmIdentity { node: other(m.active) }),
        Phase::PostVerify => a == (SwitchAction::WatchVotes {
            new_active: other(m.active),
            old_active: m.active,
        }),
        Phase::Rollback => a == (SwitchAction::SetIdentity { node: m.active, funded: true }),
        Phase::ConfirmRollback => a == (SwitchAction::ConfirmIdentity { node: m.active }),
        _ => a is Finish || a is Stop,
    }
}

/// What the cluster is known to be in each phase.
pub open spec fn cluster_inv(m: SwitchMachine, w: World) -> bool {
    &&& funded_count(w) <= 1
    &&& match m.phase {
        Phase::PreCheck | Phase::Demote | Phase::ConfirmDemote | Phase::Rollback
        | Phase::ConfirmRollback => !funded(w, other(m.active)),
        Phase::SaveTower | Phase::TowerTransfer => !funded(w, other(m.active)) && !funded(
            w,
            m.active,
        ),
        Phase::Promote | Phase::ConfirmPromote | Phase::PostVerify => !funded(w, m.active),
        _ => true,
    }
}

proof fn lemma_step_shape(m: SwitchMachine, ev: SwitchEvent)
    ensures
        shape(step(m, ev).0, step(m, ev).1),
        step(m, ev).0.dry_run == m.dry_run,
        step(m, ev).0.force == m.force,
        m.phase != Phase::Planning ==> step(m, ev).0.active == m.active,
{
}

proof fn lemma_shape_at(start: (SwitchMachine, SwitchAction), evs: Seq<SwitchEvent>, i: nat)
    requires
        shape(start.0, start.1),
        i <= evs.len(),
    ensures
        shape(state_at(start, evs, i).0, state_at(start, evs, i).1),
        state_at(start, evs, i).0.dry_run == start.0.dry_run,
        state_at(start, evs, i).0.force == start.0.force,
    decreases i,
{
    if i > 0 {
        lemma_shape_at(start, evs, (i - 1) as nat);
        lemma_step_shape(state_at(start, evs, (i - 1) as nat).0, evs[i - 1]);
    }
}

proof fn lemma_step_keeps_cluster(m: SwitchMachine, a: SwitchAction, w: World, took: bool, ev: SwitchEvent)
    requires
        shape(m, a),
        cluster_inv(m, w),
        honest(effect(w, a, took), a, ev),
    ensures
        cluster_inv(step(m, ev).0, effect(w, a, took)),
{
}

proof fn lemma_cluster_at(start: (SwitchMachine, SwitchAction), w0: World, steps: Seq<EnvStep>, i: nat)
    requires
        shape(start.0, start.1),
        cluster_inv(start.0, w0),
        honest_run(start, w0, steps),
        i <= steps.len(),
    ensures
        cluster_inv(state_at(start, events(steps), i).0, world_at(start, w0, steps, i)),
    decreases i,
{
    if i > 0 {
        let k = (i - 1) as nat;
        lemma_cluster_at(start, w0, steps, k);
        lemma_shape_at(start, events(steps), k);
        assert(honest(world_at(start, w0, steps, k + 1), state_at(start, events(steps), k).1, steps[k as int].event));
        assert(events(steps)[k as int] == steps[k as int].event);
        lemma_step_keeps_cluster(
            state_at(start, events(steps), k).0,
            state_at(start, events(steps), k).1,
            world_at(start, w0, steps, k),
            steps[k as int].took_effect,
            steps[k as int].event,
        );
    }
}

/// Single funded identity: started on a cluster where at most one node runs the funded
/// key, and fed honest reports, a switch never lets two nodes run it at once, whatever
/// commands took effect and whatever else was reported.
pub proof fn lemma_single_funded_identity(dry_run: bool, force: bool, w0: World, steps: Seq<EnvStep>)
    requires
        funded_count(w0) <= 1,
        honest_run(initial(dry_run, force), w0, steps),
    ensures
        forall|i: nat|
            i <= steps.len() ==> funded_count(#[trigger] world_at(initial(dry_run, force), w0, steps, i))
                <= 1,
{
    assert forall|i: nat| i <= steps.len() implies funded_count(
        #[trigger] world_at(initial(dry_run, force), w0, steps, i),
    ) <= 1 by {
        lemma_cluster_at(initial(dry_run, force), w0, steps, i);
    }
}

/// An action that changes a node: an identity command or a tower copy.
pub open spec fn mutates(a: SwitchAction) -> bool {
    a is SetIdentity || a is TransferTower
}

/// The action hands the funded identity to the node that was not active.
pub open spec fn promotes_standby(m: SwitchMachine, a: SwitchAction) -> bool {
    a == (SwitchAction::SetIdentity { node: other(m.active), funded: true })
}

/// Before step `i`, the unfunded identity was sent to `active` (at `k`) and a later
/// read-back of `active` (at `j`) reported the unfunded key.
pub open spec fn demote_confirmed_before(
    start: (SwitchMachine, SwitchAction),
    evs: Seq<SwitchEvent>,
    active: Side,
    i: nat,
) -> bool {
    exists|k: nat, j: nat|
        k < j < i && #[trigger] state_at(start, evs, k).1 == (SwitchAction::SetIdentity {
            node: active,
            funded: false,
        }) && #[trigger] state_at(start, evs, j).1 == (SwitchAction::ConfirmIdentity {
            node: active,
        }) && evs[j as int] == (SwitchEvent::Identity { key: LiveKey::Unfunded })
}

/// Before step `i`, the tower of `active` was copied to the other node intact.
pub open spec fn tower_moved_before(
    start: (SwitchMachine, SwitchAction),
    evs: Seq<SwitchEvent>,
    active: Side,
    i: nat,
) -> bool {
    exists|t: nat|
        t < i && #[trigger] state_at(start, evs, t).1 == (SwitchAction::TransferTower {
            from: active,
            to: other(active),
        }) && evs[t as int] == (SwitchEvent::TowerCopied { intact: true })
}

pub open spec fn order_inv(start: (SwitchMachine, SwitchAction), evs: Seq<SwitchEvent>, i: nat) -> bool {
    let m = state_at(start, evs, i).0;
    &&& m.phase == Phase::ConfirmDemote ==> exists|k: nat|
        k < i && #[trigger] state_at(start, evs, k).1 == (SwitchAction::SetIdentity {
            node: m.active,
            funded: false,
        })
    &&& (m.phase == Phase::SaveTower || m.phase == Phase::TowerTransfer || m.phase
        == Phase::Promote) ==> demote_confirmed_before(
        start,
        evs,
        m.active,
        i,
    )
    &&& m.phase == Phase::Promote ==> m.force || tower_moved_before(start, evs, m.active, i)
}

proof fn lemma_order_at(dry_run: bool, force: bool, evs: Seq<SwitchEvent>, i: nat)
    requires
        i <= evs.len(),
    ensures
        order_inv(initial(dry_run, force), evs, i),
    decreases i,
{
    let start = initial(dry_run, force);
    if i > 0 {
        let k = (i - 1) as nat;
        lemma_order_at(dry_run, force, evs, k);
        lemma_shape_at(start, evs, k);
        let prev = state_at(start, evs, k);
        let cur = state_at(start, evs, i);
        assert(cur == step(prev.0, evs[k as int]));
        if cur.0.phase == Phase::ConfirmDemote {
            assert(prev.0.phase == Phase::Demote);
            assert(prev.1 == (SwitchAction::SetIdentity { node: cur.0.active, funded: false }));
        }
        if cur.0.phase == Phase::SaveTower || (cur.0.phase == Phase::Promote
            && prev.0.phase == Phase::ConfirmDemote) {
            assert(prev.0.phase == Phase::ConfirmDemote);
            assert(evs[k as int] == (SwitchEvent::Identity { key: LiveKey::Unfunded }));
            let kk = choose|kk: nat|
                kk < k && #[trigger] state_at(start, evs, kk).1 == (SwitchAction::SetIdentity {
                    node: prev.0.active,
                    funded: false,
                });
            assert(state_at(start, evs, k).1 == (SwitchAction::ConfirmIdentity {
                node: cur.0.active,
            }));
            assert(state_at(start, evs, kk).1 == (SwitchAction::SetIdentity {
                node: cur.0.active,
                funded: false,
            }));
        }
        if (cur.0.phase == Phase::Promote && prev.0.phase == Phase::TowerTransfer) || (
        cur.0.phase == Phase::TowerTransfer && prev.0.phase == Phase::SaveTower) {
            if cur.0.phase == Phase::Promote {
                assert(evs[k as int] == (SwitchEvent::TowerCopied { intact: true }));
                assert(state_at(start, evs, k).1 == (SwitchAction::TransferTower {
                    from: cur.0.active,
                    to: other(cur.0.active),
                }));
            }
            let (kk, jj) = choose|kk: nat, jj: nat|
                kk < jj < k && #[trigger] state_at(start, evs, kk).1 == (
                SwitchAction::SetIdentity { node: prev.0.active, funded: false }) && #[trigger] state_at(
                    start,
                    evs,
                    jj,
                ).1 == (SwitchAction::ConfirmIdentity { node: prev.0.active }) && evs[jj as int]
                    == (SwitchEvent::Identity { key: LiveKey::Unfunded });
            assert(kk < jj < i);
        }
    }
}

/// No promotion before a confirmed demotion: whenever a switch sends the funded identity
/// to the standby, it has earlier sent the unfunded identity to the active node and then
/// read back the unfunded key there; and, unless forced, the tower has been copied intact
/// in between.
pub proof fn lemma_promote_follows_confirmed_demote(dry_run: bool, force: bool, evs: Seq<SwitchEvent>)
    ensures
        forall|i: nat|
            i <= evs.len() && promotes_standby(
                #[trigger] state_at(initial(dry_run, force), evs, i).0,
                state_at(initial(dry_run, force), evs, i).1,
            ) ==> demote_confirmed_before(
                initial(dry_run, force),
                evs,
                state_at(initial(dry_run, force), evs, i).0.active,
                i,
            ) && (force || tower_moved_before(
                initial(dry_run, force),
                evs,
                state_at(initial(dry_run, force), evs, i).0.active,
                i,
            )),
{
    let start = initial(dry_run, force);
    assert forall|i: nat|
        i <= evs.len() && promotes_standby(
            #[trigger] state_at(start, evs, i).0,
            state_at(start, evs, i).1,
        ) implies demote_confirmed_before(start, evs, state_at(start, evs, i).0.active, i) && (force
        || tower_moved_before(start, evs, state_at(start, evs, i).0.active, i)) by {
        lemma_shape_at(start, evs, i);
        lemma_order_at(dry_run, force, evs, i);
    }
}

pub open spec fn dry_inv(m: SwitchMachine, a: SwitchAction, w0: World) -> bool {
    &&& m.dry_run
    &&& (m.phase == Phase::Planning || m.phase == Phase::PreCheck || m.phase == Phase::Done
        || m.phase == Phase::Aborted)
    &&& m.phase == Phase::PreCheck ==> funded(w0, m.active) && !funded(w0, other(m.active))
    &&& a matches SwitchAction::Finish { outcome: Outcome::DryRun { from, to } } ==> funded(
        w0,
        from,
    ) && !funded(w0, to) && to == other(from)
    &&& a matches SwitchAction::Finish { outcome } ==> exit_status(outcome) <= 1
    &&& m.phase == Phase::Done ==> !(a is Finish) || a matches SwitchAction::Finish {
        outcome: Outcome::DryRun { .. },
    }
}

proof fn lemma_dry_at(force: bool, w0: World, steps: Seq<EnvStep>, i: nat)
    requires
        honest_run(initial(true, force), w0, steps),
        i <= steps.len(),
    ensures
        dry_inv(
            state_at(initial(true, force), events(steps), i).0,
            state_at(initial(true, force), events(steps), i).1,
            w0,
        ),
        world_at(initial(true, force), w0, steps, i) == w0,
    decreases i,
{
    let start = initial(true, force);
    if i > 0 {
        let k = (i - 1) as nat;
        lemma_dry_at(force, w0, steps, k);
        lemma_shape_at(start, events(steps), k);
        assert(events(steps)[k as int] == steps[k as int].event);
        assert(honest(world_at(start, w0, steps, k + 1), state_at(start, events(steps), k).1, steps[k as int].event));
    }
}

/// A dry run changes nothing: it sends no identity command and copies no tower, so the
/// cluster ends as it began; and the plan it reports moves the funded identity from the
/// node that runs it to the one that does not.
pub proof fn lemma_dry_run_is_read_only(force: bool, w0: World, steps: Seq<EnvStep>)
    requires
        honest_run(initial(true, force), w0, steps),
    ensures
        forall|i: nat|
            i <= steps.len() ==> !mutates(
                #[trigger] state_at(initial(true, force), events(steps), i).1,
            ) && world_at(initial(true, force), w0, steps, i) == w0,
        forall|i: nat|
            i <= steps.len() ==> (#[trigger] state_at(initial(true, force), events(steps), i).1 matches SwitchAction::Finish {
                outcome: Outcome::DryRun { from, to },
            } ==> funded(w0, from) && !funded(w0, to) && to == other(from)),
        forall|i: nat|
            i <= steps.len() ==> (#[trigger] state_at(initial(true, force), events(steps), i).1 matches SwitchAction::Finish {
                outcome,
            } ==> exit_status(outcome) <= 1),
{
    assert forall|i: nat| i <= steps.len() implies !mutates(
        #[trigger] state_at(initial(true, force), events(steps), i).1,
    ) && world_at(initial(true, force), w0, steps, i) == w0 && (state_at(
        initial(true, force),
        events(steps),
        i,
    ).1 matches SwitchAction::Finish { outcome: Outcome::DryRun { from, to } } ==> funded(w0, from)
        && !funded(w0, to) && to == other(from)) && (state_at(
        initial(true, force),
        events(steps),
        i,
    ).1 matches SwitchAction::Finish { outcome } ==> exit_status(outcome) <= 1) by {
        lemma_dry_at(force, w0, steps, i);
        lemma_shape_at(initial(true, force), events(steps), i);
    }
}

/// A dry run on a cluster where exactly one node runs the funded key, whose probe reads
/// both nodes and whose readiness checks pass, ends after two round trips with the plan
/// that moves the funded identity from that node to the other (exit status 0).
pub proof fn lemma_healthy_dry_run_plans(force: bool, w0: World)
    requires
        funded_count(w0) == 1,
    ensures
        ({
            let evs = seq![
                SwitchEvent::Roles { a_funded: Some(w0.a_funded), b_funded: Some(w0.b_funded) },
                SwitchEvent::Readiness { active_ready: true, standby_ready: true },
            ];
            let from = if w0.a_funded {
                Side::A
            } else {
                Side::B
            };
            &&& state_at(initial(true, force), evs, 2).1 == (SwitchAction::Finish {
                outcome: Outcome::DryRun { from, to: other(from) },
            })
            &&& state_at(initial(true, force), evs, 2).0.phase == Phase::Done
            &&& exit_status(Outcome::DryRun { from, to: other(from) }) == 0
        }),
{
    let evs = seq![
        SwitchEvent::Roles { a_funded: Some(w0.a_funded), b_funded: Some(w0.b_funded) },
        SwitchEvent::Readiness { active_ready: true, standby_ready: true },
    ];
    assert(state_at(initial(true, force), evs, 0) == initial(true, force));
    assert(state_at(initial(true, force), evs, 1) == step(
        state_at(initial(true, force), evs, 0).0,
        evs[0],
    ));
    assert(state_at(initial(true, force), evs, 2) == step(
        state_at(initial(true, force), evs, 1).0,
        evs[1],
    ));
}

/// Two dry runs on the same cluster report the same plan.
pub proof fn lemma_dry_runs_agree(
    force: bool,
    w0: World,
    first: Seq<EnvStep>,
    second: Seq<EnvStep>,
    i: nat,
    j: nat,
)
    requires
        honest_run(initial(true, force), w0, first),
        honest_run(initial(true, force), w0, second),
        i <= first.len(),
        j <= second.len(),
        state_at(initial(true, force), events(first), i).1 matches SwitchAction::Finish {
            outcome: Outcome::DryRun { .. },
        },
        state_at(initial(true, force), events(second), j).1 matches SwitchAction::Finish {
            outcome: Outcome::DryRun { .. },
        },
    ensures
        state_at(initial(true, force), events(first), i).1 == state_at(
            initial(true, force),
            events(second),
            j,
        ).1,
{
    lemma_dry_at(force, w0, first, i);
    lemma_dry_at(force, w0, second, j);
}

} // verus!
