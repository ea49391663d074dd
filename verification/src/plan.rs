//! Where a ledger stands in the provisioning plan: which step comes next,
//! which was last, and which are done.

use crate::kind::{in_plan, needs, plan, rank, ResourceKind, PLAN_LEN};
use crate::ledger::{LedgerView, Resources};
use vstd::prelude::*;

verus! {

/// Whether the step of a kind is still to do: it is in the plan and its
/// resource is not on record.
pub open spec fn missing(l: LedgerView, anchors: bool, kind: ResourceKind) -> bool {
    in_plan(kind, anchors) && !l.is_created(kind)
}

/// The first step of the plan that is still to do, if there is one.
pub open spec fn next_missing(l: LedgerView, anchors: bool) -> Option<ResourceKind> {
    if missing(l, anchors, ResourceKind::Bucket) {
        Some(ResourceKind::Bucket)
    } else if missing(l, anchors, ResourceKind::Key) {
        Some(ResourceKind::Key)
    } else if missing(l, anchors, ResourceKind::KeyPair) {
        Some(ResourceKind::KeyPair)
    } else if missing(l, anchors, ResourceKind::Role) {
        Some(ResourceKind::Role)
    } else if missing(l, anchors, ResourceKind::Vpc) {
        Some(ResourceKind::Vpc)
    } else if missing(l, anchors, ResourceKind::AnchorNodes) {
        Some(ResourceKind::AnchorNodes)
    } else if missing(l, anchors, ResourceKind::NonAnchorNodes) {
        Some(ResourceKind::NonAnchorNodes)
    } else if missing(l, anchors, ResourceKind::LoadBalancer) {
        Some(ResourceKind::LoadBalancer)
    } else {
        None
    }
}

/// Whether every step of the plan is done.
pub open spec fn complete(l: LedgerView, anchors: bool) -> bool {
    forall|kind: ResourceKind| in_plan(kind, anchors) ==> l.is_created(kind)
}

/// The last kind of the plan whose resource is on record, if there is one.
/// Teardown takes the kinds in this order, whatever the topology.
pub open spec fn last_recorded(l: LedgerView) -> Option<ResourceKind> {
    if l.is_created(ResourceKind::LoadBalancer) {
        Some(ResourceKind::LoadBalancer)
    } else if l.is_created(ResourceKind::NonAnchorNodes) {
        Some(ResourceKind::NonAnchorNodes)
    } else if l.is_created(ResourceKind::AnchorNodes) {
        Some(ResourceKind::AnchorNodes)
    } else if l.is_created(ResourceKind::Vpc) {
        Some(ResourceKind::Vpc)
    } else if l.is_created(ResourceKind::Role) {
        Some(ResourceKind::Role)
    } else if l.is_created(ResourceKind::KeyPair) {
        Some(ResourceKind::KeyPair)
    } else if l.is_created(ResourceKind::Key) {
        Some(ResourceKind::Key)
    } else if l.is_created(ResourceKind::Bucket) {
        Some(ResourceKind::Bucket)
    } else {
        None
    }
}

/// Whether no kind of the plan is on record.
pub open spec fn torn_down(l: LedgerView) -> bool {
    forall|kind: ResourceKind| rank(kind) < PLAN_LEN ==> !l.is_created(kind)
}

/// The steps of the plan at the positions from `from` up to, not
/// including, `to`, in the plan's order.
pub open spec fn planned_between(anchors: bool, from: int, to: int) -> Seq<ResourceKind>
    decreases to - from,
{
    if from < 0 || to <= from || to > PLAN_LEN {
        Seq::empty()
    } else {
        let rest = planned_between(anchors, from, to - 1);
        if in_plan(plan()[to - 1], anchors) {
            rest.push(plan()[to - 1])
        } else {
            rest
        }
    }
}

/// The steps of the plan before position `to` that are done, in the plan's
/// order.
pub open spec fn done_before(l: LedgerView, anchors: bool, to: int) -> Seq<ResourceKind>
    decreases to,
{
    if to <= 0 || to > PLAN_LEN {
        Seq::empty()
    } else {
        let rest = done_before(l, anchors, to - 1);
        if in_plan(plan()[to - 1], anchors) && l.is_created(plan()[to - 1]) {
            rest.push(plan()[to - 1])
        } else {
            rest
        }
    }
}

/// The chain of completed steps.
pub open spec fn completed(l: LedgerView, anchors: bool) -> Seq<ResourceKind> {
    done_before(l, anchors, PLAN_LEN as int)
}

/// The next step is the first that is still to do: it is to do, and every
/// step before it is done. Where there is none, the plan is complete.
pub proof fn lemma_next_missing_is_first(l: LedgerView, anchors: bool)
    ensures
        match next_missing(l, anchors) {
            Some(kind) => missing(l, anchors, kind) && forall|k: ResourceKind|
                in_plan(k, anchors) && rank(k) < rank(kind) ==> l.is_created(k),
            None => complete(l, anchors),
        },
{
}

/// The kind that teardown takes next is the last on record: it is on record
/// and no later kind of the plan is.
pub proof fn lemma_last_recorded_is_last(l: LedgerView)
    ensures
        match last_recorded(l) {
            Some(kind) => rank(kind) < PLAN_LEN && l.is_created(kind) && forall|k: ResourceKind|
                rank(kind) < rank(k) < PLAN_LEN ==> !l.is_created(k),
            None => torn_down(l),
        },
{
}

/// What the next step needs is on record.
pub proof fn lemma_next_missing_has_dependencies(
    l: LedgerView,
    anchors: bool,
    dep: ResourceKind,
)
    requires
        next_missing(l, anchors) is Some,
        needs(next_missing(l, anchors)->0, dep, anchors),
    ensures
        l.is_created(dep),
{
}

/// Finds the first step of the plan that is still to do.
pub fn find_next_missing(ledger: &Resources, anchors: bool) -> (r: Option<ResourceKind>)
    ensures
        r == next_missing(ledger@, anchors),
{
    if !ledger.is_created(ResourceKind::Bucket) {
        Some(ResourceKind::Bucket)
    } else if !ledger.is_created(ResourceKind::Key) {
        Some(ResourceKind::Key)
    } else if !ledger.is_created(ResourceKind::KeyPair) {
        Some(ResourceKind::KeyPair)
    } else if !ledger.is_created(ResourceKind::Role) {
        Some(ResourceKind::Role)
    } else if !ledger.is_created(ResourceKind::Vpc) {
        Some(ResourceKind::Vpc)
    } else if anchors && !ledger.is_created(ResourceKind::AnchorNodes) {
        Some(ResourceKind::AnchorNodes)
    } else if !ledger.is_created(ResourceKind::NonAnchorNodes) {
        Some(ResourceKind::NonAnchorNodes)
    } else if !ledger.is_created(ResourceKind::LoadBalancer) {
        Some(ResourceKind::LoadBalancer)
    } else {
        None
    }
}

/// Finds the last kind of the plan whose resource is on record.
pub fn find_last_recorded(ledger: &Resources) -> (r: Option<ResourceKind>)
    ensures
        r == last_recorded(ledger@),
{
    let mut i: usize = PLAN_LEN;
    while i > 0
        invariant
            i <= PLAN_LEN,
            forall|k: ResourceKind| i <= rank(k) < PLAN_LEN ==> !ledger@.is_created(k),
        decreases i,
    {
        i = i - 1;
        let kind = ResourceKind::at(i);
        match kind {
            Some(k) => {
                if ledger.is_created(k) {
                    return Some(k);
                }
            },
            None => {},
        }
    }
    None
}

/// Lists the steps of the plan at the positions from `from` up to, not
/// including, `to`.
pub fn steps_between(anchors: bool, from: usize, to: usize) -> (r: Vec<ResourceKind>)
    ensures
        r@ == planned_between(anchors, from as int, to as int),
{
    let mut r: Vec<ResourceKind> = Vec::new();
    if to > PLAN_LEN || to <= from {
        return r;
    }
    let mut i: usize = from;
    while i < to
        invariant
            from <= i <= to <= PLAN_LEN,
            r@ == planned_between(anchors, from as int, i as int),
        decreases to - i,
    {
        let kind = ResourceKind::at(i);
        match kind {
            Some(k) => {
                if k.is_planned(anchors) {
                    r.push(k);
                }
            },
            None => {},
        }
        i = i + 1;
    }
    r
}

/// Lists the chain of completed steps.
pub fn completed_steps(ledger: &Resources, anchors: bool) -> (r: Vec<ResourceKind>)
    ensures
        r@ == completed(ledger@, anchors),
{
    let mut r: Vec<ResourceKind> = Vec::new();
    let mut i: usize = 0;
    while i < PLAN_LEN
        invariant
            i <= PLAN_LEN,
            r@ == done_before(ledger@, anchors, i as int),
        decreases PLAN_LEN - i,
    {
        let kind = ResourceKind::at(i);
        match kind {
            Some(k) => {
                if k.is_planned(anchors) && ledger.is_created(k) {
                    r.push(k);
                }
            },
            None => {},
        }
        i = i + 1;
    }
    r
}

} // verus!
