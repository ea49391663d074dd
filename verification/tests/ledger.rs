use avalanche_ops::errors::{ConfigError, StateError};
use avalanche_ops::identity::Identity;
use avalanche_ops::kind::ResourceKind;
use avalanche_ops::ledger::Resources;
use avalanche_ops::outputs::{
    EncryptionKey, InstanceRole, KeyPair, LoadBalancer, Network, Outputs, ScalingGroup,
};

fn text(s: &str) -> String {
    s.to_string()
}

fn key(id: &str) -> Outputs {
    Outputs::Key(EncryptionKey { id: text(id), arn: format!("arn:key/{}", id) })
}

fn all_kinds() -> Vec<ResourceKind> {
    vec![
        ResourceKind::Bucket,
        ResourceKind::Key,
        ResourceKind::KeyPair,
        ResourceKind::Role,
        ResourceKind::Vpc,
        ResourceKind::AnchorNodes,
        ResourceKind::NonAnchorNodes,
        ResourceKind::LoadBalancer,
        ResourceKind::MetricsNamespace,
    ]
}

fn sample(kind: ResourceKind) -> Outputs {
    match kind {
        ResourceKind::Bucket => Outputs::Bucket,
        ResourceKind::Key => key("abc"),
        ResourceKind::KeyPair => {
            Outputs::KeyPair(KeyPair { name: text("fleet-key"), path: text("/tmp/fleet.pem") })
        }
        ResourceKind::Role => Outputs::Role(InstanceRole {
            stack: text("fleet-role"),
            profile_arn: text("arn:profile"),
        }),
        ResourceKind::Vpc => Outputs::Vpc(Network {
            stack: text("fleet-vpc"),
            vpc_id: text("vpc-1"),
            security_group_id: text("sg-1"),
            public_subnet_ids: vec![text("subnet-a"), text("subnet-b")],
        }),
        ResourceKind::AnchorNodes => Outputs::AnchorNodes(ScalingGroup {
            stack: text("fleet-anchor"),
            logical_id: text("asg-anchor"),
        }),
        ResourceKind::NonAnchorNodes => Outputs::NonAnchorNodes(ScalingGroup {
            stack: text("fleet-nodes"),
            logical_id: text("asg-nodes"),
        }),
        ResourceKind::LoadBalancer => Outputs::LoadBalancer(LoadBalancer {
            arn: text("arn:nlb"),
            target_group_arn: text("arn:tg"),
            dns_name: text("fleet.example.com"),
        }),
        ResourceKind::MetricsNamespace => Outputs::MetricsNamespace(text("fleet-metrics")),
    }
}

#[test]
fn new_ledger_has_the_defaults() {
    let l = Resources::default();
    assert_eq!(l.region(), "us-west-2");
    assert_eq!(l.s3_bucket(), "");
    assert_eq!(l.system_logs(), Some(true));
    assert_eq!(l.system_metrics(), Some(true));
    assert!(l.identity().is_none());
    assert!(l.backup_region().is_none());
    assert!(l.backup_bucket().is_none());
    assert!(l.backup_key().is_none());
    assert!(l.certificate().is_none());
    assert!(l.key().is_none());
    assert!(l.key_pair().is_none());
    assert!(l.role().is_none());
    assert!(l.vpc().is_none());
    assert!(l.anchor_nodes().is_none());
    assert!(l.non_anchor_nodes().is_none());
    assert!(l.load_balancer().is_none());
    assert!(l.metrics_namespace().is_none());
    assert!(l.is_pristine());
    for kind in all_kinds() {
        assert!(!l.is_created(kind));
        assert!(l.outputs(kind).is_none());
    }
}

#[test]
fn default_trait_gives_the_same_ledger() {
    let a: Resources = Default::default();
    assert_eq!(a, Resources::default());
}

#[test]
fn validation_needs_a_bucket_name() {
    let mut l = Resources::default();
    assert_eq!(l.validate(), Err(ConfigError::EmptyBucketName));
    assert_eq!(l.set_s3_bucket(text("fleet-bucket-1")), Ok(()));
    assert_eq!(l.validate(), Ok(()));
}

#[test]
fn validation_needs_a_region() {
    let mut l = Resources::default();
    assert_eq!(l.set_s3_bucket(text("fleet-bucket-1")), Ok(()));
    assert_eq!(l.set_region(String::new()), Ok(()));
    assert_eq!(l.validate(), Err(ConfigError::EmptyRegion));
}

#[test]
fn validation_reports_the_region_before_the_bucket() {
    let mut l = Resources::default();
    assert_eq!(l.set_region(String::new()), Ok(()));
    assert_eq!(l.validate(), Err(ConfigError::EmptyRegion));
}

#[test]
fn validation_fails_exactly_on_empty_names() {
    for region in ["", "eu-west-1"] {
        for bucket in ["", "fleet-bucket-1"] {
            let mut l = Resources::default();
            assert_eq!(l.set_region(text(region)), Ok(()));
            assert_eq!(l.set_s3_bucket(text(bucket)), Ok(()));
            assert_eq!(l.validate().is_err(), region.is_empty() || bucket.is_empty());
        }
    }
}

#[test]
fn validation_refuses_partial_backup() {
    let mut l = Resources::default();
    assert_eq!(l.set_s3_bucket(text("fleet-bucket-1")), Ok(()));
    assert_eq!(l.set_backup(None, Some(text("backups")), None), Ok(()));
    assert_eq!(l.validate(), Err(ConfigError::PartialBackup));
    assert_eq!(l.set_backup(Some(text("us-east-1")), Some(text("backups")), None), Ok(()));
    assert_eq!(l.validate(), Err(ConfigError::PartialBackup));
    assert_eq!(
        l.set_backup(Some(String::new()), Some(text("backups")), Some(text("db.tar"))),
        Ok(())
    );
    assert_eq!(l.validate(), Err(ConfigError::PartialBackup));
    assert_eq!(
        l.set_backup(Some(text("us-east-1")), Some(text("backups")), Some(text("db.tar"))),
        Ok(())
    );
    assert_eq!(l.validate(), Ok(()));
    assert_eq!(l.backup_region(), Some("us-east-1"));
    assert_eq!(l.backup_bucket(), Some("backups"));
    assert_eq!(l.backup_key(), Some("db.tar"));
    assert_eq!(l.set_backup(Some(String::new()), None, Some(String::new())), Ok(()));
    assert_eq!(l.validate(), Ok(()));
}

#[test]
fn applying_puts_a_kind_on_record() {
    for kind in all_kinds() {
        let mut l = Resources::default();
        assert_eq!(l.apply_created(sample(kind)), Ok(()));
        for other in all_kinds() {
            assert_eq!(l.is_created(other), other == kind);
        }
        assert_eq!(l.outputs(kind), Some(sample(kind)));
        assert!(!l.is_pristine());
    }
}

#[test]
fn applied_identifiers_are_read_back() {
    let mut l = Resources::default();
    for kind in all_kinds() {
        assert_eq!(l.apply_created(sample(kind)), Ok(()));
    }
    assert_eq!(l.key().unwrap().id, "abc");
    assert_eq!(l.key().unwrap().arn, "arn:key/abc");
    assert_eq!(l.key_pair().unwrap().name, "fleet-key");
    assert_eq!(l.key_pair().unwrap().path, "/tmp/fleet.pem");
    assert_eq!(l.role().unwrap().stack, "fleet-role");
    assert_eq!(l.role().unwrap().profile_arn, "arn:profile");
    assert_eq!(l.vpc().unwrap().vpc_id, "vpc-1");
    assert_eq!(l.vpc().unwrap().public_subnet_ids, vec![text("subnet-a"), text("subnet-b")]);
    assert_eq!(l.anchor_nodes().unwrap().logical_id, "asg-anchor");
    assert_eq!(l.non_anchor_nodes().unwrap().logical_id, "asg-nodes");
    assert_eq!(l.load_balancer().unwrap().dns_name, "fleet.example.com");
    assert_eq!(l.metrics_namespace(), Some("fleet-metrics"));
}

#[test]
fn applying_twice_is_refused() {
    for kind in all_kinds() {
        let mut l = Resources::default();
        assert_eq!(l.apply_created(sample(kind)), Ok(()));
        let before = l.clone();
        assert_eq!(l.apply_created(sample(kind)), Err(StateError::AlreadyCreated(kind)));
        assert_eq!(l, before);
    }
}

#[test]
fn second_key_does_not_overwrite_the_first() {
    let mut l = Resources::default();
    assert_eq!(l.apply_created(key("abc")), Ok(()));
    assert_eq!(l.apply_created(key("xyz")), Err(StateError::AlreadyCreated(ResourceKind::Key)));
    assert_eq!(l.key().unwrap().id, "abc");
}

#[test]
fn clearing_allows_applying_again() {
    let mut l = Resources::default();
    assert_eq!(l.apply_created(key("abc")), Ok(()));
    l.clear(ResourceKind::Key);
    assert!(!l.is_created(ResourceKind::Key));
    assert!(l.key().is_none());
    assert_eq!(l.apply_created(key("xyz")), Ok(()));
    assert_eq!(l.key().unwrap().id, "xyz");
}

#[test]
fn clearing_touches_one_kind_only() {
    let mut l = Resources::default();
    for kind in all_kinds() {
        assert_eq!(l.apply_created(sample(kind)), Ok(()));
    }
    l.clear(ResourceKind::Vpc);
    for kind in all_kinds() {
        assert_eq!(l.is_created(kind), kind != ResourceKind::Vpc);
    }
    l.clear(ResourceKind::Vpc);
    assert!(!l.is_created(ResourceKind::Vpc));
}

#[test]
fn clearing_everything_makes_the_ledger_pristine() {
    let mut l = Resources::default();
    for kind in all_kinds() {
        assert_eq!(l.apply_created(sample(kind)), Ok(()));
    }
    for kind in all_kinds() {
        l.clear(kind);
    }
    assert!(l.is_pristine());
}

#[test]
fn configuration_is_frozen_once_a_resource_is_on_record() {
    let mut l = Resources::default();
    assert_eq!(l.set_region(text("eu-west-1")), Ok(()));
    assert_eq!(l.set_certificate(Some(text("arn:cert"))), Ok(()));
    assert_eq!(l.set_system_logs(Some(false)), Ok(()));
    assert_eq!(l.set_system_metrics(None), Ok(()));
    assert_eq!(l.apply_created(Outputs::Bucket), Ok(()));
    let before = l.clone();
    assert_eq!(l.set_region(text("us-east-1")), Err(StateError::ConfigFrozen));
    assert_eq!(l.set_s3_bucket(text("other")), Err(StateError::ConfigFrozen));
    assert_eq!(l.set_backup(None, None, None), Err(StateError::ConfigFrozen));
    assert_eq!(l.set_system_logs(Some(true)), Err(StateError::ConfigFrozen));
    assert_eq!(l.set_system_metrics(Some(true)), Err(StateError::ConfigFrozen));
    assert_eq!(l.set_certificate(None), Err(StateError::ConfigFrozen));
    assert_eq!(l, before);
    assert_eq!(l.region(), "eu-west-1");
    assert_eq!(l.certificate(), Some("arn:cert"));
    assert_eq!(l.system_logs(), Some(false));
    assert_eq!(l.system_metrics(), None);
    l.clear(ResourceKind::Bucket);
    assert_eq!(l.set_region(text("us-east-1")), Ok(()));
    assert_eq!(l.region(), "us-east-1");
}

#[test]
fn identity_is_set_once() {
    let mut l = Resources::default();
    let who = Identity::new(text("123456789012"), text("arn:role/admin"), text("AIDA"));
    assert_eq!(l.set_identity(who.clone()), Ok(()));
    assert_eq!(l.identity(), Some(&who));
    let other = Identity::new(text("999"), text("arn:role/other"), text("AIDB"));
    assert_eq!(l.set_identity(other), Err(StateError::IdentityAlreadySet));
    assert_eq!(l.identity().unwrap().account_id, "123456789012");
    assert_eq!(l.identity().unwrap().role_arn, "arn:role/admin");
    assert_eq!(l.identity().unwrap().user_id, "AIDA");
}

#[test]
fn copies_are_equal_to_their_source() {
    let mut l = Resources::default();
    for kind in all_kinds() {
        assert_eq!(l.apply_created(sample(kind)), Ok(()));
    }
    assert_eq!(l.copy(), l);
    for kind in all_kinds() {
        assert_eq!(sample(kind).copy(), sample(kind));
        assert_eq!(sample(kind).kind(), kind);
    }
}
