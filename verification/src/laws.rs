//! What holds of the ledger and of every run of the orchestrator.

use crate::errors::StateError;
use crate::kind::{in_plan, needs, rank, ResourceKind, PLAN_LEN};
use crate::ledger::LedgerView;
use crate::model::OrchestratorView;
use crate::outputs::OutputsView;
use crate::plan::{complete, last_recorded, next_missing, planned_between, torn_down};
use crate::protocol::{ActionView, EventView, Goal, Outcome, PhaseView};
use vstd::prelude::*;

verus! {

/// Where the backup coordinates are all given or all absent, validation
/// fails exactly when the region or the bucket name is empty.
pub proof fn lemma_validation_rejects_empty_names(l: LedgerView)
    requires
        l.backup_consistent(),
    ensures
        l.check() is Err <==> (l.region.len() == 0 || l.bucket.len() == 0),
{
}

/// Validation fails exactly when the region is empty, the bucket name is
/// empty, or some backup coordinates are given and others are not.
pub proof fn lemma_validation_exact(l: LedgerView)
    ensures
        l.check() is Err <==> (l.region.len() == 0 || l.bucket.len() == 0
            || !l.backup_consistent()),
{
}

/// A kind is on record exactly after its identifiers were applied, and they
/// are the ones applied.
pub proof fn lemma_applied_is_created(l: LedgerView, o: OutputsView)
    requires
        !l.is_created(o.kind()),
    ensures
        l.apply(o) == Ok::<LedgerView, StateError>(l.record(o)),
        l.record(o).recorded(o.kind()) == Some(o),
        forall|k: ResourceKind| k != o.kind() ==> l.record(o).recorded(k) == l.recorded(k),
{
}

/// Identifiers are written once: after a kind was applied, applying that
/// kind again is refused, whatever the identifiers.
pub proof fn lemma_write_once(l: LedgerView, first: OutputsView, second: OutputsView)
    requires
        first.kind() == second.kind(),
        l.apply(first) is Ok,
    ensures
        l.apply(first)->Ok_0.apply(second) == Err::<LedgerView, StateError>(
            StateError::AlreadyCreated(first.kind()),
        ),
{
}

/// Clearing a kind takes it, and nothing else, off the record; after that
/// the kind can be applied again.
pub proof fn lemma_clear_reopens(l: LedgerView, kind: ResourceKind, o: OutputsView)
    requires
        o.kind() == kind,
    ensures
        !l.erase(kind).is_created(kind),
        forall|k: ResourceKind| k != kind ==> l.erase(kind).recorded(k) == l.recorded(k),
        l.erase(kind).apply(o) is Ok,
{
}

/// Writes to different kinds do not disturb each other: in whichever order
/// two resources of different kinds go on record, the ledger is the same.
pub proof fn lemma_disjoint_writes_commute(l: LedgerView, a: OutputsView, b: OutputsView)
    requires
        a.kind() != b.kind(),
    ensures
        l.record(a).record(b) == l.record(b).record(a),
        l.record(a).is_created(b.kind()) == l.is_created(b.kind()),
{
}

/// A run starts in a state of which the invariant holds.
pub proof fn lemma_fresh_is_sound(
    ledger: LedgerView,
    anchors: bool,
    policy: crate::backoff::Policy,
    goal: Goal,
)
    ensures
        OrchestratorView::fresh(ledger, anchors, policy, goal).inv(),
{
}

/// Every event leads from a state of which the invariant holds to another.
/// The topology, the policy and the goal stay as they are, and so does
/// everything in the ledger that the caller declared.
pub proof fn lemma_step_is_sound(s: OrchestratorView, e: EventView)
    requires
        s.inv(),
    ensures
        s.step(e).0.inv(),
        s.step(e).0.anchors == s.anchors,
        s.step(e).0.policy == s.policy,
        s.step(e).0.goal == s.goal,
        s.step(e).0.cancel == s.cancel,
        s.step(e).0.ledger.check() == s.ledger.check(),
        s.step(e).0.ledger.identity == s.ledger.identity,
{
}

/// A step changes the record of at most one kind: in provisioning the one
/// it puts on record, in teardown the one it takes off.
pub proof fn lemma_step_touches_one_kind(s: OrchestratorView, e: EventView)
    ensures
        s.step(e).0.ledger == s.ledger || (exists|o: OutputsView|
            !s.ledger.is_created(o.kind()) && s.step(e).0.ledger == #[trigger] s.ledger.record(o))
            || (exists|k: ResourceKind| s.step(e).0.ledger == #[trigger] s.ledger.erase(k)),
{
    let t = s.step(e).0;
    match s.phase {
        PhaseView::Probing { .. } => {
            if e is BucketOwned && !s.ledger.is_created(ResourceKind::Bucket) {
                assert(t.ledger == s.ledger.record(OutputsView::Bucket));
            }
        },
        PhaseView::Creating { kind, .. } => {
            if let EventView::Ready(o) = e {
                if o.kind() == kind && !s.ledger.is_created(kind) {
                    assert(t.ledger == s.ledger.record(o));
                }
            }
        },
        PhaseView::Waiting { kind, .. } => {
            if let EventView::Ready(o) = e {
                if o.kind() == kind && !s.ledger.is_created(kind) {
                    assert(t.ledger == s.ledger.record(o));
                }
            }
        },
        PhaseView::Deleting { kind, .. } => {
            if e is Deleted {
                assert(t.ledger == s.ledger.erase(kind));
            }
        },
        _ => {},
    }
}

/// Asking for cancellation keeps the invariant.
pub proof fn lemma_cancel_is_sound(s: OrchestratorView)
    requires
        s.inv(),
    ensures
        s.cancelled().inv(),
{
}

/// A resource is created only after everything it needs: when a directive
/// asks for a creation, each dependency of that kind is on record. So a
/// scaling group is never asked for before the instance role and the
/// network are on record.
pub proof fn lemma_creation_follows_dependencies(
    s: OrchestratorView,
    e: EventView,
    dep: ResourceKind,
)
    requires
        s.inv(),
        s.step(e).1.action is Create,
        needs(s.step(e).1.action->Create_kind, dep, s.anchors),
    ensures
        s.step(e).0.ledger.is_created(dep),
{
    lemma_step_is_sound(s, e);
}

/// A creation is asked for only of the first step that is still to do, and
/// never of a kind that is on record.
pub proof fn lemma_creation_is_of_the_next_step(s: OrchestratorView, e: EventView)
    requires
        s.inv(),
        s.step(e).1.action is Create,
    ensures
        next_missing(s.step(e).0.ledger, s.anchors) == Some(s.step(e).1.action->Create_kind),
        !s.step(e).0.ledger.is_created(s.step(e).1.action->Create_kind),
        in_plan(s.step(e).1.action->Create_kind, s.anchors),
{
    lemma_step_is_sound(s, e);
}

/// Without an anchor tier, the anchor scaling group is never asked for, and
/// provisioning leaves what the ledger says of it as it is.
pub proof fn lemma_no_anchor_tier_no_anchor_step(s: OrchestratorView, e: EventView)
    requires
        s.inv(),
        !s.anchors,
        s.goal == Goal::Provision,
    ensures
        !(s.step(e).1.action matches ActionView::Create { kind, .. } && kind
            == ResourceKind::AnchorNodes),
        !(s.step(e).1.action matches ActionView::Poll { kind, .. } && kind
            == ResourceKind::AnchorNodes),
        s.step(e).0.ledger.anchor_nodes == s.ledger.anchor_nodes,
        !s.step(e).1.skipped.contains(ResourceKind::AnchorNodes),
{
    lemma_step_is_sound(s, e);
    let skipped = s.step(e).1.skipped;
    assert forall|i: int| 0 <= i < skipped.len() implies skipped[i]
        != ResourceKind::AnchorNodes by {
        lemma_skipped_are_planned(s, e, i);
    }
}

/// Every step that a directive passes over is a step of the plan and is on
/// record.
pub proof fn lemma_skipped_are_planned(s: OrchestratorView, e: EventView, i: int)
    requires
        0 <= i < s.step(e).1.skipped.len(),
    ensures
        in_plan(s.step(e).1.skipped[i], s.anchors),
        s.step(e).0.ledger.is_created(s.step(e).1.skipped[i]),
{
    let ledger = s.step(e).0.ledger;
    // Steps are passed over only on the way to the next one, from the start
    // of the plan or from behind the step that was just completed.
    let to = match next_missing(ledger, s.anchors) {
        Some(k) => rank(k),
        None => PLAN_LEN as int,
    };
    let from = match s.phase {
        PhaseView::Probing { .. } => 1,
        PhaseView::Creating { kind, .. } => rank(kind) + 1,
        PhaseView::Waiting { kind, .. } => rank(kind) + 1,
        _ => 0,
    };
    assert(s.step(e).1.skipped == planned_between(s.anchors, from, to));
    lemma_between_are_done(ledger, s.anchors, from, to, i);
}

/// The steps listed between two positions are in the plan, at those
/// positions; before the first step still to do they are all on record.
pub proof fn lemma_between_are_done(l: LedgerView, anchors: bool, from: int, to: int, i: int)
    requires
        0 <= i < planned_between(anchors, from, to).len(),
        match next_missing(l, anchors) {
            Some(k) => to <= rank(k),
            None => true,
        },
    ensures
        in_plan(planned_between(anchors, from, to)[i], anchors),
        from <= rank(planned_between(anchors, from, to)[i]) < to,
        l.is_created(planned_between(anchors, from, to)[i]),
    decreases to - from,
{
    crate::plan::lemma_next_missing_is_first(l, anchors);
    crate::kind::lemma_plan_by_rank();
    let rest = planned_between(anchors, from, to - 1);
    if i < rest.len() {
        lemma_between_are_done(l, anchors, from, to - 1, i);
    }
}

/// A kind goes on record only when the provider has confirmed its resource:
/// on the report that it is ready, or, for the bucket, that it exists and is
/// the caller's. Nothing is recorded when a creation is merely asked for or
/// accepted.
pub proof fn lemma_recorded_only_when_confirmed(
    s: OrchestratorView,
    e: EventView,
    kind: ResourceKind,
)
    requires
        !s.ledger.is_created(kind),
        s.step(e).0.ledger.is_created(kind),
    ensures
        (e matches EventView::Ready(o) && o.kind() == kind && s.step(e).0.ledger.recorded(kind)
            == Some(o)) || (e is BucketOwned && kind == ResourceKind::Bucket),
        s.phase is Probing || (s.phase matches PhaseView::Creating { kind: k, .. } && k == kind)
            || (s.phase matches PhaseView::Waiting { kind: k, .. } && k == kind),
{
}

/// A kind is taken off the record only when its deletion is confirmed.
pub proof fn lemma_cleared_only_when_deleted(s: OrchestratorView, e: EventView, kind: ResourceKind)
    requires
        s.ledger.is_created(kind),
        !s.step(e).0.ledger.is_created(kind),
    ensures
        e is Deleted,
        s.phase matches PhaseView::Deleting { kind: k, .. } && k == kind,
{
}

/// While a run takes steps, and when it has ended well, the ledger names a
/// region and a bucket and holds the caller's identity.
pub proof fn lemma_running_ledger_is_usable(s: OrchestratorView)
    requires
        s.inv(),
        s.phase !is Idle,
        s.phase matches PhaseView::Finished(o) ==> o == Outcome::Done,
    ensures
        s.ledger.region.len() > 0,
        s.ledger.bucket.len() > 0,
        s.ledger.backup_consistent(),
        s.ledger.identity is Some,
{
}

/// Whenever a step changes the ledger, its directive asks for the ledger
/// to be saved; so it does when the run ends on a failure or is cancelled.
pub proof fn lemma_changes_are_saved(s: OrchestratorView, e: EventView)
    ensures
        s.step(e).0.ledger != s.ledger ==> s.step(e).1.persist,
        s.phase !is Idle && s.phase !is Finished && s.step(e).0.phase is Finished && s.step(
            e,
        ).0.phase != PhaseView::Finished(Outcome::Done) ==> s.step(e).1.persist,
{
}

/// Provisioning never overwrites: whatever is on record before a step is on
/// record after it, with the same identifiers.
pub proof fn lemma_provisioning_keeps_records(
    s: OrchestratorView,
    e: EventView,
    kind: ResourceKind,
)
    requires
        s.goal == Goal::Provision,
        s.phase !is Deleting,
        s.ledger.is_created(kind),
    ensures
        s.step(e).0.ledger.recorded(kind) == s.ledger.recorded(kind),
{
}

/// A run that ended well has reached its goal: after provisioning every
/// step of the plan is on record, after teardown none is.
pub proof fn lemma_done_means_goal_reached(s: OrchestratorView)
    requires
        s.inv(),
        s.phase == PhaseView::Finished(Outcome::Done),
    ensures
        s.goal == Goal::Provision ==> complete(s.ledger, s.anchors),
        s.goal == Goal::Teardown ==> torn_down(s.ledger),
{
    crate::plan::lemma_next_missing_is_first(s.ledger, s.anchors);
    crate::plan::lemma_last_recorded_is_last(s.ledger);
}

/// Running again changes nothing: a second run on the ledger of a run that
/// ended well ends at once, asks for no creation, and leaves the ledger as
/// it is, whatever it is told afterwards.
pub proof fn lemma_rerun_changes_nothing(s: OrchestratorView, events: Seq<EventView>)
    requires
        s.inv(),
        s.phase == PhaseView::Finished(Outcome::Done),
    ensures
        ({
            let again = OrchestratorView::fresh(s.ledger, s.anchors, s.policy, s.goal);
            &&& again.step(EventView::Start).1.action == ActionView::Finish(Outcome::Done)
            &&& !again.step(EventView::Start).1.persist
            &&& again.step(EventView::Start).0.ledger == s.ledger
            &&& again.step(EventView::Start).0.phase == PhaseView::Finished(Outcome::Done)
            &&& again.step(EventView::Start).0.run(events).ledger == s.ledger
            &&& again.step(EventView::Start).0.run(events).phase == PhaseView::Finished(
                Outcome::Done,
            )
        }),
{
    let again = OrchestratorView::fresh(s.ledger, s.anchors, s.policy, s.goal);
    let t = again.step(EventView::Start).0;
    lemma_finished_stays(t, events);
}

/// Once a run is over, no event changes its state.
pub proof fn lemma_finished_stays(s: OrchestratorView, events: Seq<EventView>)
    requires
        s.phase is Finished,
    ensures
        s.run(events) == s,
    decreases events.len(),
{
    if events.len() > 0 {
        lemma_finished_stays(s, events.subrange(1, events.len() as int));
    }
}

/// A run resumes where it was saved. Take the ledger saved after a step
/// that changed it, with the run still under way or ended well. A new run
/// started on that ledger is at once in the state of the first, asks for
/// the same request, and passes over exactly the steps that are done; told
/// the same events from there on, both end in the same state.
pub proof fn lemma_resume_joins_run(s: OrchestratorView, e: EventView, rest: Seq<EventView>)
    requires
        s.inv(),
        s.step(e).1.persist,
        s.step(e).0.phase matches PhaseView::Finished(o) ==> o == Outcome::Done,
    ensures
        ({
            let saved = s.step(e).0;
            let resumed = OrchestratorView::fresh(saved.ledger, s.anchors, s.policy, s.goal);
            &&& resumed.step(EventView::Start).0 == saved
            &&& resumed.step(EventView::Start).1.action == s.step(e).1.action
            &&& !resumed.step(EventView::Start).1.persist
            &&& resumed.run(seq![EventView::Start] + rest) == saved.run(rest)
        }),
{
    lemma_step_is_sound(s, e);
    let saved = s.step(e).0;
    let resumed = OrchestratorView::fresh(saved.ledger, s.anchors, s.policy, s.goal);
    let events = seq![EventView::Start] + rest;
    assert(events[0] == EventView::Start);
    assert(events.subrange(1, events.len() as int) =~= rest);
}

/// Waiting is bounded. Each report that the resource is not stable yet
/// lengthens the time waited, which never passes the limit; at the limit
/// the wait is taken up again if a try is left, and else the run ends on a
/// timeout. Either way the resource is polled, never asked for again.
pub proof fn lemma_waiting_is_bounded(s: OrchestratorView)
    requires
        s.inv(),
        s.phase is Waiting,
    ensures
        ({
            let t = s.step(EventView::Pending).0;
            let kind = s.phase->Waiting_kind;
            let attempt = s.phase->Waiting_attempt;
            let waited = s.phase->Waiting_waited;
            if waited < s.policy.wait_limit {
                &&& t.phase is Waiting
                &&& t.phase->Waiting_attempt == attempt
                &&& waited < t.phase->Waiting_waited <= s.policy.wait_limit
            } else if attempt < s.policy.max_attempts {
                &&& t.phase is Waiting
                &&& t.phase->Waiting_attempt == attempt + 1
                &&& t.phase->Waiting_waited <= s.policy.wait_limit
            } else {
                t.phase == PhaseView::Finished(
                    Outcome::Failed(crate::errors::Failure::Timeout(kind)),
                )
            }
        }),
        s.step(EventView::Pending).0.phase is Waiting ==> {
            &&& s.step(EventView::Pending).0.phase->Waiting_kind == s.phase->Waiting_kind
            &&& s.step(EventView::Pending).0.phase->Waiting_handle == s.phase->Waiting_handle
            &&& s.step(EventView::Pending).1.action is Poll
        },
{
}

/// Tries are bounded: a failed call is followed by another only while the
/// tries made are fewer than the policy allows, and each one counts.
pub proof fn lemma_tries_are_bounded(s: OrchestratorView)
    requires
        s.inv(),
        s.phase is Probing || s.phase is Creating || s.phase is Waiting || s.phase is Deleting,
    ensures
        ({
            let t = s.step(EventView::Failed).0;
            let tries = |p: PhaseView|
                match p {
                    PhaseView::Probing { attempt, .. } => attempt as int,
                    PhaseView::Creating { attempt, .. } => attempt as int,
                    PhaseView::Waiting { attempt, .. } => attempt as int,
                    PhaseView::Deleting { attempt, .. } => attempt as int,
                    _ => 0,
                };
            if tries(s.phase) < s.policy.max_attempts {
                tries(t.phase) == tries(s.phase) + 1 && t.ledger == s.ledger
            } else {
                t.phase matches PhaseView::Finished(Outcome::Failed(f)) && f
                    is Provisioning
            }
        }),
{
}

/// A resource that the provider has accepted is never asked for again
/// within the run: while waiting, no event leads to its creation.
pub proof fn lemma_wait_never_recreates(s: OrchestratorView, e: EventView)
    requires
        s.inv(),
        s.phase is Waiting,
    ensures
        !(s.step(e).1.action matches ActionView::Create { kind, .. } && kind
            == s.phase->Waiting_kind),
{
    lemma_step_is_sound(s, e);
}

/// A run stops for a cancellation only between steps: while a request is in
/// progress the flag changes nothing, and at the next boundary the run ends
/// as cancelled with the ledger saved.
pub proof fn lemma_cancel_waits_for_boundary(s: OrchestratorView, e: EventView)
    requires
        s.inv(),
        s.phase !is Idle,
        s.phase !is Finished,
    ensures
        s.cancelled().step(e).0.ledger == s.step(e).0.ledger,
        s.step(e).1.persist && s.step(e).0.ledger != s.ledger ==> s.cancelled().step(e).0.phase
            == PhaseView::Finished(Outcome::Cancelled) && s.cancelled().step(e).1.persist,
        !(s.step(e).1.persist && s.step(e).0.ledger != s.ledger) ==> s.cancelled().step(e).0
            == s.step(e).0.cancelled() && s.cancelled().step(e).1 == s.step(e).1,
{
}

} // verus!
