use avalanche_ops::kind::{ResourceKind, PLAN_LEN};
use avalanche_ops::ledger::Resources;
use avalanche_ops::outputs::{EncryptionKey, Outputs, ScalingGroup};
use avalanche_ops::plan::{completed_steps, find_last_recorded, find_next_missing, steps_between};

fn order() -> Vec<ResourceKind> {
    vec![
        ResourceKind::Bucket,
        ResourceKind::Key,
        ResourceKind::KeyPair,
        ResourceKind::Role,
        ResourceKind::Vpc,
        ResourceKind::AnchorNodes,
        ResourceKind::NonAnchorNodes,
        ResourceKind::LoadBalancer,
    ]
}

#[test]
fn plan_has_eight_steps_in_order() {
    assert_eq!(PLAN_LEN, 8);
    for (i, kind) in order().into_iter().enumerate() {
        assert_eq!(ResourceKind::at(i), Some(kind));
        assert_eq!(kind.position(), Some(i));
    }
    assert_eq!(ResourceKind::at(8), None);
    assert_eq!(ResourceKind::MetricsNamespace.position(), None);
}

#[test]
fn anchor_step_follows_the_topology() {
    for kind in order() {
        assert!(kind.is_planned(true));
        assert_eq!(kind.is_planned(false), kind != ResourceKind::AnchorNodes);
    }
    assert!(!ResourceKind::MetricsNamespace.is_planned(true));
    assert!(!ResourceKind::MetricsNamespace.is_planned(false));
}

#[test]
fn scaling_groups_need_key_pair_role_and_network() {
    for group in [ResourceKind::AnchorNodes, ResourceKind::NonAnchorNodes] {
        for anchors in [false, true] {
            assert!(group.depends_on(ResourceKind::KeyPair, anchors));
            assert!(group.depends_on(ResourceKind::Role, anchors));
            assert!(group.depends_on(ResourceKind::Vpc, anchors));
            assert!(!group.depends_on(ResourceKind::Bucket, anchors));
            assert!(!group.depends_on(ResourceKind::Key, anchors));
            assert!(!group.depends_on(ResourceKind::LoadBalancer, anchors));
        }
    }
    assert!(ResourceKind::NonAnchorNodes.depends_on(ResourceKind::AnchorNodes, true));
    assert!(!ResourceKind::NonAnchorNodes.depends_on(ResourceKind::AnchorNodes, false));
    assert!(!ResourceKind::AnchorNodes.depends_on(ResourceKind::AnchorNodes, true));
}

#[test]
fn load_balancer_needs_the_scaling_groups() {
    assert!(ResourceKind::LoadBalancer.depends_on(ResourceKind::NonAnchorNodes, false));
    assert!(ResourceKind::LoadBalancer.depends_on(ResourceKind::NonAnchorNodes, true));
    assert!(ResourceKind::LoadBalancer.depends_on(ResourceKind::AnchorNodes, true));
    assert!(!ResourceKind::LoadBalancer.depends_on(ResourceKind::AnchorNodes, false));
    assert!(!ResourceKind::LoadBalancer.depends_on(ResourceKind::Vpc, true));
}

#[test]
fn first_steps_need_nothing() {
    for kind in [
        ResourceKind::Bucket,
        ResourceKind::Key,
        ResourceKind::KeyPair,
        ResourceKind::Role,
        ResourceKind::Vpc,
        ResourceKind::MetricsNamespace,
    ] {
        for dep in order() {
            assert!(!kind.depends_on(dep, true));
            assert!(!kind.depends_on(dep, false));
        }
    }
}

#[test]
fn dependencies_stand_earlier_in_the_plan() {
    for kind in order() {
        for dep in order() {
            for anchors in [false, true] {
                if kind.depends_on(dep, anchors) {
                    assert!(dep.position().unwrap() < kind.position().unwrap());
                    assert!(dep.is_planned(anchors));
                }
            }
        }
    }
}

#[test]
fn next_missing_is_the_first_gap() {
    let mut l = Resources::default();
    assert_eq!(find_next_missing(&l, true), Some(ResourceKind::Bucket));
    assert_eq!(l.apply_created(Outputs::Bucket), Ok(()));
    assert_eq!(find_next_missing(&l, true), Some(ResourceKind::Key));
    // A later kind on record does not hide an earlier gap.
    assert_eq!(
        l.apply_created(Outputs::NonAnchorNodes(ScalingGroup {
            stack: "nodes".to_string(),
            logical_id: "asg".to_string(),
        })),
        Ok(())
    );
    assert_eq!(find_next_missing(&l, false), Some(ResourceKind::Key));
    assert_eq!(find_last_recorded(&l), Some(ResourceKind::NonAnchorNodes));
    assert_eq!(
        completed_steps(&l, true),
        vec![ResourceKind::Bucket, ResourceKind::NonAnchorNodes]
    );
}

#[test]
fn nothing_recorded_means_nothing_to_tear_down() {
    let mut l = Resources::default();
    assert_eq!(find_last_recorded(&l), None);
    assert!(completed_steps(&l, true).is_empty());
    // The metrics namespace is no step of the plan.
    assert_eq!(l.apply_created(Outputs::MetricsNamespace("m".to_string())), Ok(()));
    assert_eq!(find_last_recorded(&l), None);
    assert_eq!(
        l.apply_created(Outputs::Key(EncryptionKey {
            id: "abc".to_string(),
            arn: "arn".to_string(),
        })),
        Ok(())
    );
    assert_eq!(find_last_recorded(&l), Some(ResourceKind::Key));
}

#[test]
fn steps_between_lists_the_plan() {
    assert_eq!(steps_between(true, 0, 8), order());
    let without: Vec<ResourceKind> =
        order().into_iter().filter(|k| *k != ResourceKind::AnchorNodes).collect();
    assert_eq!(steps_between(false, 0, 8), without);
    assert_eq!(steps_between(true, 2, 5), vec![
        ResourceKind::KeyPair,
        ResourceKind::Role,
        ResourceKind::Vpc
    ]);
    assert_eq!(steps_between(false, 5, 6), Vec::<ResourceKind>::new());
    assert_eq!(steps_between(true, 5, 6), vec![ResourceKind::AnchorNodes]);
    assert!(steps_between(true, 3, 3).is_empty());
    assert!(steps_between(true, 4, 2).is_empty());
    assert!(steps_between(true, 0, 9).is_empty());
}
