//! What the creation of a resource yields: the identifiers by which the
//! ledger knows it afterwards.

use crate::kind::ResourceKind;
use crate::text::{copy_texts, texts_of};
use vstd::prelude::*;

verus! {

/// An encryption key.
#[derive(Clone, Debug, PartialEq, Eq)]
pub struct EncryptionKey {
    pub id: String,
    pub arn: String,
}

/// An SSH key pair.
#[derive(Clone, Debug, PartialEq, Eq)]
pub struct KeyPair {
    pub name: String,
    /// Where the private key was stored locally.
    pub path: String,
}

/// The stack of the instance role.
#[derive(Clone, Debug, PartialEq, Eq)]
pub struct InstanceRole {
    pub stack: String,
    pub profile_arn: String,
}

/// The network stack.
#[derive(Clone, Debug, PartialEq, Eq)]
pub struct Network {
    pub stack: String,
    pub vpc_id: String,
    pub security_group_id: String,
    pub public_subnet_ids: Vec<String>,
}

/// The stack of a scaling group.
#[derive(Clone, Debug, PartialEq, Eq)]
pub struct ScalingGroup {
    pub stack: String,
    pub logical_id: String,
}

/// The load balancer.
#[derive(Clone, Debug, PartialEq, Eq)]
pub struct LoadBalancer {
    pub arn: String,
    pub target_group_arn: String,
    pub dns_name: String,
}

/// The identifiers of one created resource, tagged by its kind.
#[derive(Clone, Debug, PartialEq, Eq)]
pub enum Outputs {
    /// The bucket is known by the name the caller gave it.
    Bucket,
    Key(EncryptionKey),
    KeyPair(KeyPair),
    Role(InstanceRole),
    Vpc(Network),
    AnchorNodes(ScalingGroup),
    NonAnchorNodes(ScalingGroup),
    LoadBalancer(LoadBalancer),
    /// The name of the metrics namespace.
    MetricsNamespace(String),
}

/// The mathematical value of [`EncryptionKey`].
pub struct EncryptionKeyView {
    pub id: Seq<char>,
    pub arn: Seq<char>,
}

/// The mathematical value of [`KeyPair`].
pub struct KeyPairView {
    pub name: Seq<char>,
    pub path: Seq<char>,
}

/// The mathematical value of [`InstanceRole`].
pub struct InstanceRoleView {
    pub stack: Seq<char>,
    pub profile_arn: Seq<char>,
}

/// The mathematical value of [`Network`].
pub struct NetworkView {
    pub stack: Seq<char>,
    pub vpc_id: Seq<char>,
    pub security_group_id: Seq<char>,
    pub public_subnet_ids: Seq<Seq<char>>,
}

/// The mathematical value of [`ScalingGroup`].
pub struct ScalingGroupView {
    pub stack: Seq<char>,
    pub logical_id: Seq<char>,
}

/// The mathematical value of [`LoadBalancer`].
pub struct LoadBalancerView {
    pub arn: Seq<char>,
    pub target_group_arn: Seq<char>,
    pub dns_name: Seq<char>,
}

/// The mathematical value of [`Outputs`].
pub enum OutputsView {
    Bucket,
    Key(EncryptionKeyView),
    KeyPair(KeyPairView),
    Role(InstanceRoleView),
    Vpc(NetworkView),
    AnchorNodes(ScalingGroupView),
    NonAnchorNodes(ScalingGroupView),
    LoadBalancer(LoadBalancerView),
    MetricsNamespace(Seq<char>),
}

impl View for EncryptionKey {
    type V = EncryptionKeyView;

    open spec fn view(&self) -> EncryptionKeyView {
        EncryptionKeyView { id: self.id@, arn: self.arn@ }
    }
}

impl View for KeyPair {
    type V = KeyPairView;

    open spec fn view(&self) -> KeyPairView {
        KeyPairView { name: self.name@, path: self.path@ }
    }
}

impl View for InstanceRole {
    type V = InstanceRoleView;

    open spec fn view(&self) -> InstanceRoleView {
        InstanceRoleView { stack: self.stack@, profile_arn: self.profile_arn@ }
    }
}

impl View for Network {
    type V = NetworkView;

    open spec fn view(&self) -> NetworkView {
        NetworkView {
            stack: self.stack@,
            vpc_id: self.vpc_id@,
            security_group_id: self.security_group_id@,
            public_subnet_ids: texts_of(self.public_subnet_ids@),
        }
    }
}

impl View for ScalingGroup {
    type V = ScalingGroupView;

    open spec fn view(&self) -> ScalingGroupView {
        ScalingGroupView { stack: self.stack@, logical_id: self.logical_id@ }
    }
}

impl View for LoadBalancer {
    type V = LoadBalancerView;

    open spec fn view(&self) -> LoadBalancerView {
        LoadBalancerView {
            arn: self.arn@,
            target_group_arn: self.target_group_arn@,
            dns_name: self.dns_name@,
        }
    }
}

impl View for Outputs {
    type V = OutputsView;

    open spec fn view(&self) -> OutputsView {
        match self {
            Outputs::Bucket => OutputsView::Bucket,
            Outputs::Key(r) => OutputsView::Key(r@),
            Outputs::KeyPair(r) => OutputsView::KeyPair(r@),
            Outputs::Role(r) => OutputsView::Role(r@),
            Outputs::Vpc(r) => OutputsView::Vpc(r@),
            Outputs::AnchorNodes(r) => OutputsView::AnchorNodes(r@),
            Outputs::NonAnchorNodes(r) => OutputsView::NonAnchorNodes(r@),
            Outputs::LoadBalancer(r) => OutputsView::LoadBalancer(r@),
            Outputs::MetricsNamespace(n) => OutputsView::MetricsNamespace(n@),
        }
    }
}

impl OutputsView {
    /// The kind of resource that these identifiers belong to.
    pub open spec fn kind(self) -> ResourceKind {
        match self {
            OutputsView::Bucket => ResourceKind::Bucket,
            OutputsView::Key(_) => ResourceKind::Key,
            OutputsView::KeyPair(_) => ResourceKind::KeyPair,
            OutputsView::Role(_) => ResourceKind::Role,
            OutputsView::Vpc(_) => ResourceKind::Vpc,
            OutputsView::AnchorNodes(_) => ResourceKind::AnchorNodes,
            OutputsView::NonAnchorNodes(_) => ResourceKind::NonAnchorNodes,
            OutputsView::LoadBalancer(_) => ResourceKind::LoadBalancer,
            OutputsView::MetricsNamespace(_) => ResourceKind::MetricsNamespace,
        }
    }
}

impl EncryptionKey {
    /// A copy with the same contents.
    pub fn copy(&self) -> (r: EncryptionKey)
        ensures
            r@ == self@,
    {
        EncryptionKey { id: self.id.clone(), arn: self.arn.clone() }
    }
}

impl KeyPair {
    /// A copy with the same contents.
    pub fn copy(&self) -> (r: KeyPair)
        ensures
            r@ == self@,
    {
        KeyPair { name: self.name.clone(), path: self.path.clone() }
    }
}

impl InstanceRole {
    /// A copy with the same contents.
    pub fn copy(&self) -> (r: InstanceRole)
        ensures
            r@ == self@,
    {
        InstanceRole { stack: self.stack.clone(), profile_arn: self.profile_arn.clone() }
    }
}

impl Network {
    /// A copy with the same contents.
    pub fn copy(&self) -> (r: Network)
        ensures
            r@ == self@,
    {
        Network {
            stack: self.stack.clone(),
            vpc_id: self.vpc_id.clone(),
            security_group_id: self.security_group_id.clone(),
            public_subnet_ids: copy_texts(&self.public_subnet_ids),
        }
    }
}

impl ScalingGroup {
    /// A copy with the same contents.
    pub fn copy(&self) -> (r: ScalingGroup)
        ensures
            r@ == self@,
    {
        ScalingGroup { stack: self.stack.clone(), logical_id: self.logical_id.clone() }
    }
}

impl LoadBalancer {
    /// A copy with the same contents.
    pub fn copy(&self) -> (r: LoadBalancer)
        ensures
            r@ == self@,
    {
        LoadBalancer {
            arn: self.arn.clone(),
            target_group_arn: self.target_group_arn.clone(),
            dns_name: self.dns_name.clone(),
        }
    }
}

impl Outputs {
    /// The kind of resource that these identifiers belong to.
    pub fn kind(&self) -> (k: ResourceKind)
        ensures
            k == self@.kind(),
    {
        match self {
            Outputs::Bucket => ResourceKind::Bucket,
            Outputs::Key(_) => ResourceKind::Key,
            Outputs::KeyPair(_) => ResourceKind::KeyPair,
            Outputs::Role(_) => ResourceKind::Role,
            Outputs::Vpc(_) => ResourceKind::Vpc,
            Outputs::AnchorNodes(_) => ResourceKind::AnchorNodes,
            Outputs::NonAnchorNodes(_) => ResourceKind::NonAnchorNodes,
            Outputs::LoadBalancer(_) => ResourceKind::LoadBalancer,
            Outputs::MetricsNamespace(_) => ResourceKind::MetricsNamespace,
        }
    }

    /// A copy with the same contents.
    pub fn copy(&self) -> (r: Outputs)
        ensures
            r@ == self@,
    {
        match self {
            Outputs::Bucket => Outputs::Bucket,
            Outputs::Key(r) => Outputs::Key(r.copy()),
            Outputs::KeyPair(r) => Outputs::KeyPair(r.copy()),
            Outputs::Role(r) => Outputs::Role(r.copy()),
            Outputs::Vpc(r) => Outputs::Vpc(r.copy()),
            Outputs::AnchorNodes(r) => Outputs::AnchorNodes(r.copy()),
            Outputs::NonAnchorNodes(r) => Outputs::NonAnchorNodes(r.copy()),
            Outputs::LoadBalancer(r) => Outputs::LoadBalancer(r.copy()),
            Outputs::MetricsNamespace(n) => Outputs::MetricsNamespace(n.clone()),
        }
    }
}

} // verus!
