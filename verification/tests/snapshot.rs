use avalanche_ops::errors::ConfigError;
use avalanche_ops::identity::Identity;
use avalanche_ops::kind::ResourceKind;
use avalanche_ops::ledger::Resources;
use avalanche_ops::outputs::{
    EncryptionKey, InstanceRole, KeyPair, LoadBalancer, Network, Outputs, ScalingGroup,
};
use avalanche_ops::snapshot::Snapshot;

fn text(s: &str) -> String {
    s.to_string()
}

fn full() -> Resources {
    let mut l = Resources::default();
    assert_eq!(l.set_region(text("eu-west-1")), Ok(()));
    assert_eq!(l.set_s3_bucket(text("fleet-bucket-1")), Ok(()));
    assert_eq!(
        l.set_backup(Some(text("us-east-1")), Some(text("backups")), Some(text("db.tar"))),
        Ok(())
    );
    assert_eq!(l.set_system_logs(Some(false)), Ok(()));
    assert_eq!(l.set_system_metrics(None), Ok(()));
    assert_eq!(l.set_certificate(Some(text("arn:cert"))), Ok(()));
    assert_eq!(l.set_identity(Identity::new(text("1234"), text("arn:role"), text("AIDA"))), Ok(()));
    for o in [
        Outputs::Bucket,
        Outputs::Key(EncryptionKey { id: text("abc"), arn: text("arn:abc") }),
        Outputs::KeyPair(KeyPair { name: text("fleet-key"), path: text("/tmp/fleet.pem") }),
        Outputs::Role(InstanceRole { stack: text("fleet-role"), profile_arn: text("arn:profile") }),
        Outputs::Vpc(Network {
            stack: text("fleet-vpc"),
            vpc_id: text("vpc-1"),
            security_group_id: text("sg-1"),
            public_subnet_ids: vec![text("subnet-a"), text("subnet-b")],
        }),
        Outputs::AnchorNodes(ScalingGroup { stack: text("anchor"), logical_id: text("asg-a") }),
        Outputs::NonAnchorNodes(ScalingGroup { stack: text("nodes"), logical_id: text("asg-n") }),
        Outputs::LoadBalancer(LoadBalancer {
            arn: text("arn:nlb"),
            target_group_arn: text("arn:tg"),
            dns_name: text("fleet.example.com"),
        }),
        Outputs::MetricsNamespace(text("fleet-metrics")),
    ] {
        assert_eq!(l.apply_created(o), Ok(()));
    }
    l
}

#[test]
fn new_ledger_is_stored_with_its_defaults() {
    let s = Resources::default().snapshot();
    assert_eq!(s.region, "us-west-2");
    assert_eq!(s.s3_bucket, "");
    assert!(!s.s3_bucket_ready);
    assert_eq!(s.instance_system_logs, Some(true));
    assert_eq!(s.instance_system_metrics, Some(true));
    assert_eq!(s.identity, None);
    assert_eq!(s.db_backup_s3_region, None);
    assert_eq!(s.db_backup_s3_bucket, None);
    assert_eq!(s.db_backup_s3_key, None);
    assert_eq!(s.nlb_acm_certificate_arn, None);
    assert_eq!(s.kms_cmk_id, None);
    assert_eq!(s.kms_cmk_arn, None);
    assert_eq!(s.ec2_key_name, None);
    assert_eq!(s.ec2_key_path, None);
    assert_eq!(s.cloudformation_ec2_instance_role, None);
    assert_eq!(s.cloudformation_ec2_instance_profile_arn, None);
    assert_eq!(s.cloudformation_vpc, None);
    assert_eq!(s.cloudformation_vpc_id, None);
    assert_eq!(s.cloudformation_vpc_security_group_id, None);
    assert_eq!(s.cloudformation_vpc_public_subnet_ids, None);
    assert_eq!(s.cloudformation_asg_anchor_nodes, None);
    assert_eq!(s.cloudformation_asg_anchor_nodes_logical_id, None);
    assert_eq!(s.cloudformation_asg_non_anchor_nodes, None);
    assert_eq!(s.cloudformation_asg_non_anchor_nodes_logical_id, None);
    assert_eq!(s.cloudformation_asg_nlb_arn, None);
    assert_eq!(s.cloudformation_asg_nlb_target_group_arn, None);
    assert_eq!(s.cloudformation_asg_nlb_dns_name, None);
    assert_eq!(s.cloudwatch_avalanche_metrics_namespace, None);
}

#[test]
fn every_field_is_stored_in_its_place() {
    let s = full().snapshot();
    assert_eq!(s.identity.as_ref().unwrap().account_id, "1234");
    assert_eq!(s.region, "eu-west-1");
    assert_eq!(s.s3_bucket, "fleet-bucket-1");
    assert!(s.s3_bucket_ready);
    assert_eq!(s.db_backup_s3_region.as_deref(), Some("us-east-1"));
    assert_eq!(s.db_backup_s3_bucket.as_deref(), Some("backups"));
    assert_eq!(s.db_backup_s3_key.as_deref(), Some("db.tar"));
    assert_eq!(s.instance_system_logs, Some(false));
    assert_eq!(s.instance_system_metrics, None);
    assert_eq!(s.nlb_acm_certificate_arn.as_deref(), Some("arn:cert"));
    assert_eq!(s.kms_cmk_id.as_deref(), Some("abc"));
    assert_eq!(s.kms_cmk_arn.as_deref(), Some("arn:abc"));
    assert_eq!(s.ec2_key_name.as_deref(), Some("fleet-key"));
    assert_eq!(s.ec2_key_path.as_deref(), Some("/tmp/fleet.pem"));
    assert_eq!(s.cloudformation_ec2_instance_role.as_deref(), Some("fleet-role"));
    assert_eq!(s.cloudformation_ec2_instance_profile_arn.as_deref(), Some("arn:profile"));
    assert_eq!(s.cloudformation_vpc.as_deref(), Some("fleet-vpc"));
    assert_eq!(s.cloudformation_vpc_id.as_deref(), Some("vpc-1"));
    assert_eq!(s.cloudformation_vpc_security_group_id.as_deref(), Some("sg-1"));
    assert_eq!(
        s.cloudformation_vpc_public_subnet_ids,
        Some(vec![text("subnet-a"), text("subnet-b")])
    );
    assert_eq!(s.cloudformation_asg_anchor_nodes.as_deref(), Some("anchor"));
    assert_eq!(s.cloudformation_asg_anchor_nodes_logical_id.as_deref(), Some("asg-a"));
    assert_eq!(s.cloudformation_asg_non_anchor_nodes.as_deref(), Some("nodes"));
    assert_eq!(s.cloudformation_asg_non_anchor_nodes_logical_id.as_deref(), Some("asg-n"));
    assert_eq!(s.cloudformation_asg_nlb_arn.as_deref(), Some("arn:nlb"));
    assert_eq!(s.cloudformation_asg_nlb_target_group_arn.as_deref(), Some("arn:tg"));
    assert_eq!(s.cloudformation_asg_nlb_dns_name.as_deref(), Some("fleet.example.com"));
    assert_eq!(s.cloudwatch_avalanche_metrics_namespace.as_deref(), Some("fleet-metrics"));
}

#[test]
fn stored_ledger_comes_back() {
    for l in [Resources::default(), full()] {
        assert_eq!(Resources::restore(l.snapshot()), Ok(l.clone()));
        let back = Resources::restore(l.snapshot()).unwrap();
        assert_eq!(back.snapshot(), l.snapshot());
    }
    let mut some = Resources::default();
    assert_eq!(
        some.apply_created(Outputs::Key(EncryptionKey { id: text("abc"), arn: text("arn") })),
        Ok(())
    );
    assert_eq!(Resources::restore(some.snapshot()), Ok(some));
}

#[test]
fn absent_fields_are_read_as_unset() {
    let mut s = Resources::default().snapshot();
    s.region = text("eu-west-1");
    s.s3_bucket = text("fleet-bucket-1");
    s.instance_system_logs = None;
    let l = Resources::restore(s).unwrap();
    assert_eq!(l.region(), "eu-west-1");
    assert_eq!(l.s3_bucket(), "fleet-bucket-1");
    assert_eq!(l.system_logs(), None);
    assert!(l.is_pristine());
    assert!(l.identity().is_none());
}

fn partial(change: fn(&mut Snapshot)) -> Result<Resources, ConfigError> {
    let mut s = full().snapshot();
    change(&mut s);
    Resources::restore(s)
}

#[test]
fn record_with_half_a_resource_is_refused() {
    let key = Err(ConfigError::PartialRecord(ResourceKind::Key));
    assert_eq!(partial(|s| s.kms_cmk_arn = None), key);
    assert_eq!(partial(|s| s.kms_cmk_id = None), key);
    let pair = Err(ConfigError::PartialRecord(ResourceKind::KeyPair));
    assert_eq!(partial(|s| s.ec2_key_name = None), pair);
    assert_eq!(partial(|s| s.ec2_key_path = None), pair);
    let role = Err(ConfigError::PartialRecord(ResourceKind::Role));
    assert_eq!(partial(|s| s.cloudformation_ec2_instance_role = None), role);
    assert_eq!(partial(|s| s.cloudformation_ec2_instance_profile_arn = None), role);
    let vpc = Err(ConfigError::PartialRecord(ResourceKind::Vpc));
    assert_eq!(partial(|s| s.cloudformation_vpc = None), vpc);
    assert_eq!(partial(|s| s.cloudformation_vpc_id = None), vpc);
    assert_eq!(partial(|s| s.cloudformation_vpc_security_group_id = None), vpc);
    assert_eq!(partial(|s| s.cloudformation_vpc_public_subnet_ids = None), vpc);
    let anchor = Err(ConfigError::PartialRecord(ResourceKind::AnchorNodes));
    assert_eq!(partial(|s| s.cloudformation_asg_anchor_nodes = None), anchor);
    assert_eq!(partial(|s| s.cloudformation_asg_anchor_nodes_logical_id = None), anchor);
    let nodes = Err(ConfigError::PartialRecord(ResourceKind::NonAnchorNodes));
    assert_eq!(partial(|s| s.cloudformation_asg_non_anchor_nodes = None), nodes);
    assert_eq!(partial(|s| s.cloudformation_asg_non_anchor_nodes_logical_id = None), nodes);
    let nlb = Err(ConfigError::PartialRecord(ResourceKind::LoadBalancer));
    assert_eq!(partial(|s| s.cloudformation_asg_nlb_arn = None), nlb);
    assert_eq!(partial(|s| s.cloudformation_asg_nlb_target_group_arn = None), nlb);
    assert_eq!(partial(|s| s.cloudformation_asg_nlb_dns_name = None), nlb);
}

#[test]
fn first_half_resource_in_plan_order_is_reported() {
    assert_eq!(
        partial(|s| {
            s.cloudformation_asg_nlb_arn = None;
            s.ec2_key_path = None;
            s.cloudformation_vpc_id = None;
        }),
        Err(ConfigError::PartialRecord(ResourceKind::KeyPair))
    );
}

#[test]
fn subnets_alone_are_half_a_network() {
    let mut s = Resources::default().snapshot();
    s.cloudformation_vpc_public_subnet_ids = Some(vec![]);
    assert_eq!(Resources::restore(s), Err(ConfigError::PartialRecord(ResourceKind::Vpc)));
}

#[test]
fn whole_resources_may_be_absent() {
    let l = partial(|s| {
        s.kms_cmk_id = None;
        s.kms_cmk_arn = None;
        s.cloudformation_asg_anchor_nodes = None;
        s.cloudformation_asg_anchor_nodes_logical_id = None;
        s.s3_bucket_ready = false;
    })
    .unwrap();
    assert!(!l.is_created(ResourceKind::Key));
    assert!(!l.is_created(ResourceKind::AnchorNodes));
    assert!(!l.is_created(ResourceKind::Bucket));
    assert!(l.is_created(ResourceKind::Vpc));
    assert_eq!(l.vpc().unwrap().public_subnet_ids, vec![text("subnet-a"), text("subnet-b")]);
}
