//! The kinds of resource a fleet is made of, and the order in which they are
//! provisioned.

use vstd::prelude::*;

verus! {

/// One kind of infrastructure object that the ledger keeps a record of.
#[derive(Clone, Copy, Debug, PartialEq, Eq, Structural)]
pub enum ResourceKind {
    /// The storage bucket that holds configuration and artifacts.
    Bucket,
    /// The encryption key.
    Key,
    /// The SSH key pair.
    KeyPair,
    /// The stack of the instance role, which yields the instance profile.
    Role,
    /// The network stack.
    Vpc,
    /// The scaling group of the anchor nodes.
    AnchorNodes,
    /// The scaling group of the other nodes.
    NonAnchorNodes,
    /// The load balancer in front of the nodes.
    LoadBalancer,
    /// The namespace under which the fleet reports metrics. The ledger
    /// records it; it is no step of the provisioning plan.
    MetricsNamespace,
}

/// Number of steps in the provisioning plan.
pub const PLAN_LEN: usize = 8;

/// The provisioning plan: every step requires the ones before it.
pub open spec fn plan() -> Seq<ResourceKind> {
    seq![
        ResourceKind::Bucket,
        ResourceKind::Key,
        ResourceKind::KeyPair,
        ResourceKind::Role,
        ResourceKind::Vpc,
        ResourceKind::AnchorNodes,
        ResourceKind::NonAnchorNodes,
        ResourceKind::LoadBalancer,
    ]
}

/// Position of a kind in the plan; `PLAN_LEN` for a kind that is no step.
pub open spec fn rank(kind: ResourceKind) -> int {
    match kind {
        ResourceKind::Bucket => 0,
        ResourceKind::Key => 1,
        ResourceKind::KeyPair => 2,
        ResourceKind::Role => 3,
        ResourceKind::Vpc => 4,
        ResourceKind::AnchorNodes => 5,
        ResourceKind::NonAnchorNodes => 6,
        ResourceKind::LoadBalancer => 7,
        ResourceKind::MetricsNamespace => 8,
    }
}

/// Whether a kind is a step of the plan under the given topology: the anchor
/// scaling group is one only where the fleet has an anchor tier.
pub open spec fn in_plan(kind: ResourceKind, anchors: bool) -> bool {
    match kind {
        ResourceKind::MetricsNamespace => false,
        ResourceKind::AnchorNodes => anchors,
        _ => true,
    }
}

/// Whether `kind` cannot be created before `dep` exists.
pub open spec fn needs(kind: ResourceKind, dep: ResourceKind, anchors: bool) -> bool {
    match kind {
        ResourceKind::AnchorNodes => dep == ResourceKind::KeyPair || dep == ResourceKind::Role
            || dep == ResourceKind::Vpc,
        ResourceKind::NonAnchorNodes => dep == ResourceKind::KeyPair || dep == ResourceKind::Role
            || dep == ResourceKind::Vpc || (anchors && dep == ResourceKind::AnchorNodes),
        ResourceKind::LoadBalancer => dep == ResourceKind::NonAnchorNodes || (anchors && dep
            == ResourceKind::AnchorNodes),
        _ => false,
    }
}

/// The plan lists the kinds by rank.
pub proof fn lemma_plan_by_rank()
    ensures
        plan().len() == PLAN_LEN,
        forall|i: int| 0 <= i < plan().len() ==> rank(#[trigger] plan()[i]) == i,
        forall|k: ResourceKind| 0 <= #[trigger] rank(k) < plan().len() ==> plan()[rank(k)] == k,
{
}

/// A dependency is a step of the plan and stands before what needs it.
pub proof fn lemma_needs_earlier(kind: ResourceKind, dep: ResourceKind, anchors: bool)
    requires
        needs(kind, dep, anchors),
    ensures
        in_plan(dep, anchors),
        rank(dep) < rank(kind),
{
}

impl ResourceKind {
    /// Position of this kind in the plan, if it is a step of it.
    pub fn position(&self) -> (p: Option<usize>)
        ensures
            match p {
                Some(i) => i < PLAN_LEN && i == rank(*self) && plan()[i as int] == *self,
                None => *self == ResourceKind::MetricsNamespace,
            },
    {
        match self {
            ResourceKind::Bucket => Some(0),
            ResourceKind::Key => Some(1),
            ResourceKind::KeyPair => Some(2),
            ResourceKind::Role => Some(3),
            ResourceKind::Vpc => Some(4),
            ResourceKind::AnchorNodes => Some(5),
            ResourceKind::NonAnchorNodes => Some(6),
            ResourceKind::LoadBalancer => Some(7),
            ResourceKind::MetricsNamespace => None,
        }
    }

    /// The step at a position of the plan.
    pub fn at(index: usize) -> (k: Option<ResourceKind>)
        ensures
            index < PLAN_LEN ==> k == Some(plan()[index as int]),
            index >= PLAN_LEN ==> k is None,
    {
        if index == 0 {
            Some(ResourceKind::Bucket)
        } else if index == 1 {
            Some(ResourceKind::Key)
        } else if index == 2 {
            Some(ResourceKind::KeyPair)
        } else if index == 3 {
            Some(ResourceKind::Role)
        } else if index == 4 {
            Some(ResourceKind::Vpc)
        } else if index == 5 {
            Some(ResourceKind::AnchorNodes)
        } else if index == 6 {
            Some(ResourceKind::NonAnchorNodes)
        } else if index == 7 {
            Some(ResourceKind::LoadBalancer)
        } else {
            None
        }
    }

    /// Tells whether this kind is a step of the plan under the topology.
    pub fn is_planned(&self, anchors: bool) -> (b: bool)
        ensures
            b == in_plan(*self, anchors),
    {
        match self {
            ResourceKind::MetricsNamespace => false,
            ResourceKind::AnchorNodes => anchors,
            _ => true,
        }
    }

    /// Tells whether this kind cannot be created before `dep` exists.
    pub fn depends_on(&self, dep: ResourceKind, anchors: bool) -> (b: bool)
        ensures
            b == needs(*self, dep, anchors),
    {
        let common = dep == ResourceKind::KeyPair || dep == ResourceKind::Role || dep
            == ResourceKind::Vpc;
        match self {
            ResourceKind::AnchorNodes => common,
            ResourceKind::NonAnchorNodes => common || (anchors && dep
                == ResourceKind::AnchorNodes),
            ResourceKind::LoadBalancer => dep == ResourceKind::NonAnchorNodes || (anchors && dep
                == ResourceKind::AnchorNodes),
            _ => false,
        }
    }
}

} // verus!
