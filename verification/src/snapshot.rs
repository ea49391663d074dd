//! The ledger as it is stored: one flat record, each field present or
//! absent on its own.

use crate::errors::ConfigError;
use crate::identity::{identity_of, Identity, IdentityView};
use crate::kind::ResourceKind;
use crate::ledger::{LedgerView, Resources};
use crate::outputs::{
    EncryptionKey, EncryptionKeyView, InstanceRole, InstanceRoleView, KeyPair, KeyPairView,
    LoadBalancer, LoadBalancerView, Network, NetworkView, Outputs, ScalingGroup, ScalingGroupView,
};
use crate::text::{copy_texts, text_of, texts_of};
use vstd::prelude::*;

verus! {

/// The stored form of a ledger.
#[derive(Clone, Debug, PartialEq, Eq)]
pub struct Snapshot {
    pub identity: Option<Identity>,
    pub region: String,
    pub s3_bucket: String,
    /// Whether the bucket is known to exist and to be the caller's.
    pub s3_bucket_ready: bool,
    pub db_backup_s3_region: Option<String>,
    pub db_backup_s3_bucket: Option<String>,
    pub db_backup_s3_key: Option<String>,
    pub instance_system_logs: Option<bool>,
    pub instance_system_metrics: Option<bool>,
    pub nlb_acm_certificate_arn: Option<String>,
    pub kms_cmk_id: Option<String>,
    pub kms_cmk_arn: Option<String>,
    pub ec2_key_name: Option<String>,
    pub ec2_key_path: Option<String>,
    pub cloudformation_ec2_instance_role: Option<String>,
    pub cloudformation_ec2_instance_profile_arn: Option<String>,
    pub cloudformation_vpc: Option<String>,
    pub cloudformation_vpc_id: Option<String>,
    pub cloudformation_vpc_security_group_id: Option<String>,
    pub cloudformation_vpc_public_subnet_ids: Option<Vec<String>>,
    pub cloudformation_asg_anchor_nodes: Option<String>,
    pub cloudformation_asg_anchor_nodes_logical_id: Option<String>,
    pub cloudformation_asg_non_anchor_nodes: Option<String>,
    pub cloudformation_asg_non_anchor_nodes_logical_id: Option<String>,
    pub cloudformation_asg_nlb_arn: Option<String>,
    pub cloudformation_asg_nlb_target_group_arn: Option<String>,
    pub cloudformation_asg_nlb_dns_name: Option<String>,
    pub cloudwatch_avalanche_metrics_namespace: Option<String>,
}

/// The mathematical value of [`Snapshot`].
pub struct SnapshotView {
    pub identity: Option<IdentityView>,
    pub region: Seq<char>,
    pub s3_bucket: Seq<char>,
    pub s3_bucket_ready: bool,
    pub db_backup_s3_region: Option<Seq<char>>,
    pub db_backup_s3_bucket: Option<Seq<char>>,
    pub db_backup_s3_key: Option<Seq<char>>,
    pub instance_system_logs: Option<bool>,
    pub instance_system_metrics: Option<bool>,
    pub nlb_acm_certificate_arn: Option<Seq<char>>,
    pub kms_cmk_id: Option<Seq<char>>,
    pub kms_cmk_arn: Option<Seq<char>>,
    pub ec2_key_name: Option<Seq<char>>,
    pub ec2_key_path: Option<Seq<char>>,
    pub cloudformation_ec2_instance_role: Option<Seq<char>>,
    pub cloudformation_ec2_instance_profile_arn: Option<Seq<char>>,
    pub cloudformation_vpc: Option<Seq<char>>,
    pub cloudformation_vpc_id: Option<Seq<char>>,
    pub cloudformation_vpc_security_group_id: Option<Seq<char>>,
    pub cloudformation_vpc_public_subnet_ids: Option<Seq<Seq<char>>>,
    pub cloudformation_asg_anchor_nodes: Option<Seq<char>>,
    pub cloudformation_asg_anchor_nodes_logical_id: Option<Seq<char>>,
    pub cloudformation_asg_non_anchor_nodes: Option<Seq<char>>,
    pub cloudformation_asg_non_anchor_nodes_logical_id: Option<Seq<char>>,
    pub cloudformation_asg_nlb_arn: Option<Seq<char>>,
    pub cloudformation_asg_nlb_target_group_arn: Option<Seq<char>>,
    pub cloudformation_asg_nlb_dns_name: Option<Seq<char>>,
    pub cloudwatch_avalanche_metrics_namespace: Option<Seq<char>>,
}

/// The views of an optional list of strings.
pub open spec fn list_of(v: Option<Vec<String>>) -> Option<Seq<Seq<char>>> {
    match v {
        Some(l) => Some(texts_of(l@)),
        None => None,
    }
}

impl View for Snapshot {
    type V = SnapshotView;

    open spec fn view(&self) -> SnapshotView {
        SnapshotView {
            identity: identity_of(self.identity),
            region: self.region@,
            s3_bucket: self.s3_bucket@,
            s3_bucket_ready: self.s3_bucket_ready,
            db_backup_s3_region: text_of(self.db_backup_s3_region),
            db_backup_s3_bucket: text_of(self.db_backup_s3_bucket),
            db_backup_s3_key: text_of(self.db_backup_s3_key),
            instance_system_logs: self.instance_system_logs,
            instance_system_metrics: self.instance_system_metrics,
            nlb_acm_certificate_arn: text_of(self.nlb_acm_certificate_arn),
            kms_cmk_id: text_of(self.kms_cmk_id),
            kms_cmk_arn: text_of(self.kms_cmk_arn),
            ec2_key_name: text_of(self.ec2_key_name),
            ec2_key_path: text_of(self.ec2_key_path),
            cloudformation_ec2_instance_role: text_of(self.cloudformation_ec2_instance_role),
            cloudformation_ec2_instance_profile_arn: text_of(
                self.cloudformation_ec2_instance_profile_arn,
            ),
            cloudformation_vpc: text_of(self.cloudformation_vpc),
            cloudformation_vpc_id: text_of(self.cloudformation_vpc_id),
            cloudformation_vpc_security_group_id: text_of(
                self.cloudformation_vpc_security_group_id,
            ),
            cloudformation_vpc_public_subnet_ids: list_of(
                self.cloudformation_vpc_public_subnet_ids,
            ),
            cloudformation_asg_anchor_nodes: text_of(self.cloudformation_asg_anchor_nodes),
            cloudformation_asg_anchor_nodes_logical_id: text_of(
                self.cloudformation_asg_anchor_nodes_logical_id,
            ),
            cloudformation_asg_non_anchor_nodes: text_of(self.cloudformation_asg_non_anchor_nodes),
            cloudformation_asg_non_anchor_nodes_logical_id: text_of(
                self.cloudformation_asg_non_anchor_nodes_logical_id,
            ),
            cloudformation_asg_nlb_arn: text_of(self.cloudformation_asg_nlb_arn),
            cloudformation_asg_nlb_target_group_arn: text_of(
                self.cloudformation_asg_nlb_target_group_arn,
            ),
            cloudformation_asg_nlb_dns_name: text_of(self.cloudformation_asg_nlb_dns_name),
            cloudwatch_avalanche_metrics_namespace: text_of(
                self.cloudwatch_avalanche_metrics_namespace,
            ),
        }
    }
}

/// How the fields of one resource stand in a stored record.
pub enum Group<T> {
    /// None of them is present.
    Absent,
    /// All of them are present.
    Whole(T),
    /// Some are present and some are not.
    Partial,
}

impl<T> Group<T> {
    /// What a whole or absent group gives the ledger.
    pub open spec fn get(self) -> Option<T> {
        match self {
            Group::Whole(t) => Some(t),
            _ => None,
        }
    }
}

impl SnapshotView {
    /// How the fields of the encryption key stand.
    pub open spec fn key(self) -> Group<EncryptionKeyView> {
        match (self.kms_cmk_id, self.kms_cmk_arn) {
            (Some(id), Some(arn)) => Group::Whole(EncryptionKeyView { id, arn }),
            (None, None) => Group::Absent,
            _ => Group::Partial,
        }
    }

    /// How the fields of the key pair stand.
    pub open spec fn key_pair(self) -> Group<KeyPairView> {
        match (self.ec2_key_name, self.ec2_key_path) {
            (Some(name), Some(path)) => Group::Whole(KeyPairView { name, path }),
            (None, None) => Group::Absent,
            _ => Group::Partial,
        }
    }

    /// How the fields of the instance role stand.
    pub open spec fn role(self) -> Group<InstanceRoleView> {
        match (
            self.cloudformation_ec2_instance_role,
            self.cloudformation_ec2_instance_profile_arn,
        ) {
            (Some(stack), Some(profile_arn)) => Group::Whole(
                InstanceRoleView { stack, profile_arn },
            ),
            (None, None) => Group::Absent,
            _ => Group::Partial,
        }
    }

    /// How the fields of the network stand.
    pub open spec fn vpc(self) -> Group<NetworkView> {
        match (
            self.cloudformation_vpc,
            self.cloudformation_vpc_id,
            self.cloudformation_vpc_security_group_id,
            self.cloudformation_vpc_public_subnet_ids,
        ) {
            (Some(stack), Some(vpc_id), Some(security_group_id), Some(public_subnet_ids)) => {
                Group::Whole(NetworkView { stack, vpc_id, security_group_id, public_subnet_ids })
            },
            (None, None, None, None) => Group::Absent,
            _ => Group::Partial,
        }
    }

    /// How the fields of the anchor scaling group stand.
    pub open spec fn anchor_nodes(self) -> Group<ScalingGroupView> {
        match (
            self.cloudformation_asg_anchor_nodes,
            self.cloudformation_asg_anchor_nodes_logical_id,
        ) {
            (Some(stack), Some(logical_id)) => Group::Whole(ScalingGroupView { stack, logical_id }),
            (None, None) => Group::Absent,
            _ => Group::Partial,
        }
    }

    /// How the fields of the scaling group of the other nodes stand.
    pub open spec fn non_anchor_nodes(self) -> Group<ScalingGroupView> {
        match (
            self.cloudformation_asg_non_anchor_nodes,
            self.cloudformation_asg_non_anchor_nodes_logical_id,
        ) {
            (Some(stack), Some(logical_id)) => Group::Whole(ScalingGroupView { stack, logical_id }),
            (None, None) => Group::Absent,
            _ => Group::Partial,
        }
    }

    /// How the fields of the load balancer stand.
    pub open spec fn load_balancer(self) -> Group<LoadBalancerView> {
        match (
            self.cloudformation_asg_nlb_arn,
            self.cloudformation_asg_nlb_target_group_arn,
            self.cloudformation_asg_nlb_dns_name,
        ) {
            (Some(arn), Some(target_group_arn), Some(dns_name)) => Group::Whole(
                LoadBalancerView { arn, target_group_arn, dns_name },
            ),
            (None, None, None) => Group::Absent,
            _ => Group::Partial,
        }
    }

    /// The first kind, in the plan's order, of which the record holds some
    /// fields and lacks others.
    pub open spec fn first_partial(self) -> Option<ResourceKind> {
        if self.key() is Partial {
            Some(ResourceKind::Key)
        } else if self.key_pair() is Partial {
            Some(ResourceKind::KeyPair)
        } else if self.role() is Partial {
            Some(ResourceKind::Role)
        } else if self.vpc() is Partial {
            Some(ResourceKind::Vpc)
        } else if self.anchor_nodes() is Partial {
            Some(ResourceKind::AnchorNodes)
        } else if self.non_anchor_nodes() is Partial {
            Some(ResourceKind::NonAnchorNodes)
        } else if self.load_balancer() is Partial {
            Some(ResourceKind::LoadBalancer)
        } else {
            None
        }
    }

    /// The ledger that the record stands for. A record that holds some
    /// fields of a resource and lacks others stands for none.
    pub open spec fn assemble(self) -> Result<LedgerView, ConfigError> {
        match self.first_partial() {
            Some(kind) => Err(ConfigError::PartialRecord(kind)),
            None => Ok(
                LedgerView {
                    identity: self.identity,
                    region: self.region,
                    bucket: self.s3_bucket,
                    backup_region: self.db_backup_s3_region,
                    backup_bucket: self.db_backup_s3_bucket,
                    backup_key: self.db_backup_s3_key,
                    system_logs: self.instance_system_logs,
                    system_metrics: self.instance_system_metrics,
                    certificate: self.nlb_acm_certificate_arn,
                    bucket_ready: self.s3_bucket_ready,
                    key: self.key().get(),
                    key_pair: self.key_pair().get(),
                    role: self.role().get(),
                    vpc: self.vpc().get(),
                    anchor_nodes: self.anchor_nodes().get(),
                    non_anchor_nodes: self.non_anchor_nodes().get(),
                    load_balancer: self.load_balancer().get(),
                    metrics_namespace: self.cloudwatch_avalanche_metrics_namespace,
                },
            ),
        }
    }
}

/// One field of an optional record, by the function that picks it.
pub open spec fn part<T>(r: Option<T>, f: spec_fn(T) -> Seq<char>) -> Option<Seq<char>> {
    match r {
        Some(t) => Some(f(t)),
        None => None,
    }
}

impl LedgerView {
    /// The record under which the ledger is stored: every identifier of a
    /// resource on record is present, every other absent.
    pub open spec fn flatten(self) -> SnapshotView {
        SnapshotView {
            identity: self.identity,
            region: self.region,
            s3_bucket: self.bucket,
            s3_bucket_ready: self.bucket_ready,
            db_backup_s3_region: self.backup_region,
            db_backup_s3_bucket: self.backup_bucket,
            db_backup_s3_key: self.backup_key,
            instance_system_logs: self.system_logs,
            instance_system_metrics: self.system_metrics,
            nlb_acm_certificate_arn: self.certificate,
            kms_cmk_id: part(self.key, |r: EncryptionKeyView| r.id),
            kms_cmk_arn: part(self.key, |r: EncryptionKeyView| r.arn),
            ec2_key_name: part(self.key_pair, |r: KeyPairView| r.name),
            ec2_key_path: part(self.key_pair, |r: KeyPairView| r.path),
            cloudformation_ec2_instance_role: part(self.role, |r: InstanceRoleView| r.stack),
            cloudformation_ec2_instance_profile_arn: part(
                self.role,
                |r: InstanceRoleView| r.profile_arn,
            ),
            cloudformation_vpc: part(self.vpc, |r: NetworkView| r.stack),
            cloudformation_vpc_id: part(self.vpc, |r: NetworkView| r.vpc_id),
            cloudformation_vpc_security_group_id: part(
                self.vpc,
                |r: NetworkView| r.security_group_id,
            ),
            cloudformation_vpc_public_subnet_ids: match self.vpc {
                Some(r) => Some(r.public_subnet_ids),
                None => None,
            },
            cloudformation_asg_anchor_nodes: part(
                self.anchor_nodes,
                |r: ScalingGroupView| r.stack,
            ),
            cloudformation_asg_anchor_nodes_logical_id: part(
                self.anchor_nodes,
                |r: ScalingGroupView| r.logical_id,
            ),
            cloudformation_asg_non_anchor_nodes: part(
                self.non_anchor_nodes,
                |r: ScalingGroupView| r.stack,
            ),
            cloudformation_asg_non_anchor_nodes_logical_id: part(
                self.non_anchor_nodes,
                |r: ScalingGroupView| r.logical_id,
            ),
            cloudformation_asg_nlb_arn: part(self.load_balancer, |r: LoadBalancerView| r.arn),
            cloudformation_asg_nlb_target_group_arn: part(
                self.load_balancer,
                |r: LoadBalancerView| r.target_group_arn,
            ),
            cloudformation_asg_nlb_dns_name: part(
                self.load_balancer,
                |r: LoadBalancerView| r.dns_name,
            ),
            cloudwatch_avalanche_metrics_namespace: self.metrics_namespace,
        }
    }
}

/// Storing a ledger and reading it back gives the same ledger.
pub proof fn lemma_stored_ledger_comes_back(l: LedgerView)
    ensures
        l.flatten().assemble() == Ok::<LedgerView, ConfigError>(l),
{
}

/// A record that stands for a ledger is the record under which that ledger
/// is stored.
pub proof fn lemma_read_record_is_stored_form(s: SnapshotView)
    requires
        s.assemble() is Ok,
    ensures
        s.assemble()->Ok_0.flatten() == s,
{
}

/// Sorts two fields of one resource into a group.
fn pair(a: Option<String>, b: Option<String>) -> (g: Group<(String, String)>)
    ensures
        match (a, b) {
            (Some(x), Some(y)) => g == Group::Whole((x, y)),
            (None, None) => g is Absent,
            _ => g is Partial,
        },
{
    match (a, b) {
        (Some(x), Some(y)) => Group::Whole((x, y)),
        (None, None) => Group::Absent,
        _ => Group::Partial,
    }
}

/// Sorts three fields of one resource into a group.
fn triple(a: Option<String>, b: Option<String>, c: Option<String>) -> (g: Group<
    (String, String, String),
>)
    ensures
        match (a, b, c) {
            (Some(x), Some(y), Some(z)) => g == Group::Whole((x, y, z)),
            (None, None, None) => g is Absent,
            _ => g is Partial,
        },
{
    match (a, b, c) {
        (Some(x), Some(y), Some(z)) => Group::Whole((x, y, z)),
        (None, None, None) => Group::Absent,
        _ => Group::Partial,
    }
}

/// Copies an optional field out of a record.
fn owned(s: Option<&str>) -> (r: Option<String>)
    ensures
        match s {
            Some(t) => text_of(r) == Some(t@),
            None => r is None,
        },
{
    match s {
        Some(t) => Some(t.to_owned()),
        None => None,
    }
}

impl Resources {
    /// The record under which this ledger is stored.
    pub fn snapshot(&self) -> (r: Snapshot)
        ensures
            r@ == self@.flatten(),
    {
        let (kms_cmk_id, kms_cmk_arn) = match self.key() {
            Some(k) => (Some(k.id.clone()), Some(k.arn.clone())),
            None => (None, None),
        };
        let (ec2_key_name, ec2_key_path) = match self.key_pair() {
            Some(k) => (Some(k.name.clone()), Some(k.path.clone())),
            None => (None, None),
        };
        let (role_stack, role_profile) = match self.role() {
            Some(k) => (Some(k.stack.clone()), Some(k.profile_arn.clone())),
            None => (None, None),
        };
        let (vpc_stack, vpc_id, vpc_group, vpc_subnets) = match self.vpc() {
            Some(k) => (
                Some(k.stack.clone()),
                Some(k.vpc_id.clone()),
                Some(k.security_group_id.clone()),
                Some(copy_texts(&k.public_subnet_ids)),
            ),
            None => (None, None, None, None),
        };
        let (anchor_stack, anchor_id) = match self.anchor_nodes() {
            Some(k) => (Some(k.stack.clone()), Some(k.logical_id.clone())),
            None => (None, None),
        };
        let (other_stack, other_id) = match self.non_anchor_nodes() {
            Some(k) => (Some(k.stack.clone()), Some(k.logical_id.clone())),
            None => (None, None),
        };
        let (nlb_arn, nlb_group, nlb_dns) = match self.load_balancer() {
            Some(k) => (
                Some(k.arn.clone()),
                Some(k.target_group_arn.clone()),
                Some(k.dns_name.clone()),
            ),
            None => (None, None, None),
        };
        Snapshot {
            identity: match self.identity() {
                Some(i) => Some(i.copy()),
                None => None,
            },
            region: self.region().to_owned(),
            s3_bucket: self.s3_bucket().to_owned(),
            s3_bucket_ready: self.is_created(ResourceKind::Bucket),
            db_backup_s3_region: owned(self.backup_region()),
            db_backup_s3_bucket: owned(self.backup_bucket()),
            db_backup_s3_key: owned(self.backup_key()),
            instance_system_logs: self.system_logs(),
            instance_system_metrics: self.system_metrics(),
            nlb_acm_certificate_arn: owned(self.certificate()),
            kms_cmk_id,
            kms_cmk_arn,
            ec2_key_name,
            ec2_key_path,
            cloudformation_ec2_instance_role: role_stack,
            cloudformation_ec2_instance_profile_arn: role_profile,
            cloudformation_vpc: vpc_stack,
            cloudformation_vpc_id: vpc_id,
            cloudformation_vpc_security_group_id: vpc_group,
            cloudformation_vpc_public_subnet_ids: vpc_subnets,
            cloudformation_asg_anchor_nodes: anchor_stack,
            cloudformation_asg_anchor_nodes_logical_id: anchor_id,
            cloudformation_asg_non_anchor_nodes: other_stack,
            cloudformation_asg_non_anchor_nodes_logical_id: other_id,
            cloudformation_asg_nlb_arn: nlb_arn,
            cloudformation_asg_nlb_target_group_arn: nlb_group,
            cloudformation_asg_nlb_dns_name: nlb_dns,
            cloudwatch_avalanche_metrics_namespace: owned(self.metrics_namespace()),
        }
    }

    /// The ledger that a stored record stands for. A record that holds some
    /// identifiers of a resource and lacks others is refused, with the first
    /// such kind in the plan's order.
    pub fn restore(s: Snapshot) -> (r: Result<Resources, ConfigError>)
        ensures
            match s@.assemble() {
                Ok(l) => r matches Ok(ledger) && ledger@ == l,
                Err(e) => r matches Err(x) && x == e,
            },
    {
        let ghost v = s@;
        let Snapshot {
            identity,
            region,
            s3_bucket,
            s3_bucket_ready,
            db_backup_s3_region,
            db_backup_s3_bucket,
            db_backup_s3_key,
            instance_system_logs,
            instance_system_metrics,
            nlb_acm_certificate_arn,
            kms_cmk_id,
            kms_cmk_arn,
            ec2_key_name,
            ec2_key_path,
            cloudformation_ec2_instance_role,
            cloudformation_ec2_instance_profile_arn,
            cloudformation_vpc,
            cloudformation_vpc_id,
            cloudformation_vpc_security_group_id,
            cloudformation_vpc_public_subnet_ids,
            cloudformation_asg_anchor_nodes,
            cloudformation_asg_anchor_nodes_logical_id,
            cloudformation_asg_non_anchor_nodes,
            cloudformation_asg_non_anchor_nodes_logical_id,
            cloudformation_asg_nlb_arn,
            cloudformation_asg_nlb_target_group_arn,
            cloudformation_asg_nlb_dns_name,
            cloudwatch_avalanche_metrics_namespace,
        } = s;
        let key = match pair(kms_cmk_id, kms_cmk_arn) {
            Group::Partial => {
                return Err(ConfigError::PartialRecord(ResourceKind::Key));
            },
            Group::Whole((id, arn)) => Some(EncryptionKey { id, arn }),
            Group::Absent => None,
        };
        let key_pair = match pair(ec2_key_name, ec2_key_path) {
            Group::Partial => {
                return Err(ConfigError::PartialRecord(ResourceKind::KeyPair));
            },
            Group::Whole((name, path)) => Some(KeyPair { name, path }),
            Group::Absent => None,
        };
        let role = match pair(
            cloudformation_ec2_instance_role,
            cloudformation_ec2_instance_profile_arn,
        ) {
            Group::Partial => {
                return Err(ConfigError::PartialRecord(ResourceKind::Role));
            },
            Group::Whole((stack, profile_arn)) => Some(InstanceRole { stack, profile_arn }),
            Group::Absent => None,
        };
        let vpc = match triple(
            cloudformation_vpc,
            cloudformation_vpc_id,
            cloudformation_vpc_security_group_id,
        ) {
            Group::Partial => {
                return Err(ConfigError::PartialRecord(ResourceKind::Vpc));
            },
            Group::Whole((stack, vpc_id, security_group_id)) => {
                match cloudformation_vpc_public_subnet_ids {
                    Some(public_subnet_ids) => Some(
                        Network { stack, vpc_id, security_group_id, public_subnet_ids },
                    ),
                    None => {
                        return Err(ConfigError::PartialRecord(ResourceKind::Vpc));
                    },
                }
            },
            Group::Absent => {
                if cloudformation_vpc_public_subnet_ids.is_some() {
                    return Err(ConfigError::PartialRecord(ResourceKind::Vpc));
                }
                None
            },
        };
        let anchor_nodes = match pair(
            cloudformation_asg_anchor_nodes,
            cloudformation_asg_anchor_nodes_logical_id,
        ) {
            Group::Partial => {
                return Err(ConfigError::PartialRecord(ResourceKind::AnchorNodes));
            },
            Group::Whole((stack, logical_id)) => Some(ScalingGroup { stack, logical_id }),
            Group::Absent => None,
        };
        let non_anchor_nodes = match pair(
            cloudformation_asg_non_anchor_nodes,
            cloudformation_asg_non_anchor_nodes_logical_id,
        ) {
            Group::Partial => {
                return Err(ConfigError::PartialRecord(ResourceKind::NonAnchorNodes));
            },
            Group::Whole((stack, logical_id)) => Some(ScalingGroup { stack, logical_id }),
            Group::Absent => None,
        };
        let load_balancer = match triple(
            cloudformation_asg_nlb_arn,
            cloudformation_asg_nlb_target_group_arn,
            cloudformation_asg_nlb_dns_name,
        ) {
            Group::Partial => {
                return Err(ConfigError::PartialRecord(ResourceKind::LoadBalancer));
            },
            Group::Whole((arn, target_group_arn, dns_name)) => Some(
                LoadBalancer { arn, target_group_arn, dns_name },
            ),
            Group::Absent => None,
        };
        assert(v.first_partial() is None);

        // What the caller declared goes in first: nothing is on record yet.
        let mut ledger = Resources::default();
        let _ = ledger.set_region(region);
        let _ = ledger.set_s3_bucket(s3_bucket);
        let _ = ledger.set_backup(db_backup_s3_region, db_backup_s3_bucket, db_backup_s3_key);
        let _ = ledger.set_system_logs(instance_system_logs);
        let _ = ledger.set_system_metrics(instance_system_metrics);
        let _ = ledger.set_certificate(nlb_acm_certificate_arn);
        match identity {
            Some(i) => {
                let _ = ledger.set_identity(i);
            },
            None => {},
        }
        if s3_bucket_ready {
            let _ = ledger.apply_created(Outputs::Bucket);
        }
        match key {
            Some(k) => {
                let _ = ledger.apply_created(Outputs::Key(k));
            },
            None => {},
        }
        match key_pair {
            Some(k) => {
                let _ = ledger.apply_created(Outputs::KeyPair(k));
            },
            None => {},
        }
        match role {
            Some(k) => {
                let _ = ledger.apply_created(Outputs::Role(k));
            },
            None => {},
        }
        match vpc {
            Some(k) => {
                let _ = ledger.apply_created(Outputs::Vpc(k));
            },
            None => {},
        }
        match anchor_nodes {
            Some(k) => {
                let _ = ledger.apply_created(Outputs::AnchorNodes(k));
            },
            None => {},
        }
        match non_anchor_nodes {
            Some(k) => {
                let _ = ledger.apply_created(Outputs::NonAnchorNodes(k));
            },
            None => {},
        }
        match load_balancer {
            Some(k) => {
                let _ = ledger.apply_created(Outputs::LoadBalancer(k));
            },
            None => {},
        }
        match cloudwatch_avalanche_metrics_namespace {
            Some(n) => {
                let _ = ledger.apply_created(Outputs::MetricsNamespace(n));
            },
            None => {},
        }
        Ok(ledger)
    }
}

} // verus!
