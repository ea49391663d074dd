//! The ledger: what the caller declared, who the caller is, and which
//! resources exist, by the identifiers their creation yielded.

use crate::errors::{ConfigError, StateError};
use crate::identity::{identity_of, Identity, IdentityView};
use crate::kind::ResourceKind;
use crate::outputs::{
    EncryptionKey, EncryptionKeyView, InstanceRole, InstanceRoleView, KeyPair, KeyPairView,
    LoadBalancer, LoadBalancerView, Network, NetworkView, Outputs, OutputsView, ScalingGroup,
    ScalingGroupView,
};
use crate::region::{default_region, fallback_region};
use crate::text::{copy_text, is_provided, provided, text_of};
use vstd::prelude::*;

verus! {

/// The ledger as a mathematical value.
pub struct LedgerView {
    pub identity: Option<IdentityView>,
    pub region: Seq<char>,
    pub bucket: Seq<char>,
    pub backup_region: Option<Seq<char>>,
    pub backup_bucket: Option<Seq<char>>,
    pub backup_key: Option<Seq<char>>,
    pub system_logs: Option<bool>,
    pub system_metrics: Option<bool>,
    pub certificate: Option<Seq<char>>,
    pub bucket_ready: bool,
    pub key: Option<EncryptionKeyView>,
    pub key_pair: Option<KeyPairView>,
    pub role: Option<InstanceRoleView>,
    pub vpc: Option<NetworkView>,
    pub anchor_nodes: Option<ScalingGroupView>,
    pub non_anchor_nodes: Option<ScalingGroupView>,
    pub load_balancer: Option<LoadBalancerView>,
    pub metrics_namespace: Option<Seq<char>>,
}

impl LedgerView {
    /// The ledger of a new deployment: the fallback region, logs and metrics
    /// enabled, nothing else set and nothing created.
    pub open spec fn initial() -> LedgerView {
        LedgerView {
            identity: None,
            region: fallback_region(),
            bucket: Seq::empty(),
            backup_region: None,
            backup_bucket: None,
            backup_key: None,
            system_logs: Some(true),
            system_metrics: Some(true),
            certificate: None,
            bucket_ready: false,
            key: None,
            key_pair: None,
            role: None,
            vpc: None,
            anchor_nodes: None,
            non_anchor_nodes: None,
            load_balancer: None,
            metrics_namespace: None,
        }
    }

    /// The identifiers on record for a kind, if its resource was created.
    pub open spec fn recorded(self, kind: ResourceKind) -> Option<OutputsView> {
        match kind {
            ResourceKind::Bucket => if self.bucket_ready {
                Some(OutputsView::Bucket)
            } else {
                None
            },
            ResourceKind::Key => match self.key {
                Some(r) => Some(OutputsView::Key(r)),
                None => None,
            },
            ResourceKind::KeyPair => match self.key_pair {
                Some(r) => Some(OutputsView::KeyPair(r)),
                None => None,
            },
            ResourceKind::Role => match self.role {
                Some(r) => Some(OutputsView::Role(r)),
                None => None,
            },
            ResourceKind::Vpc => match self.vpc {
                Some(r) => Some(OutputsView::Vpc(r)),
                None => None,
            },
            ResourceKind::AnchorNodes => match self.anchor_nodes {
                Some(r) => Some(OutputsView::AnchorNodes(r)),
                None => None,
            },
            ResourceKind::NonAnchorNodes => match self.non_anchor_nodes {
                Some(r) => Some(OutputsView::NonAnchorNodes(r)),
                None => None,
            },
            ResourceKind::LoadBalancer => match self.load_balancer {
                Some(r) => Some(OutputsView::LoadBalancer(r)),
                None => None,
            },
            ResourceKind::MetricsNamespace => match self.metrics_namespace {
                Some(n) => Some(OutputsView::MetricsNamespace(n)),
                None => None,
            },
        }
    }

    /// Whether the resource of a kind is on record.
    pub open spec fn is_created(self, kind: ResourceKind) -> bool {
        self.recorded(kind) is Some
    }

    /// Whether no resource is on record.
    pub open spec fn pristine(self) -> bool {
        forall|kind: ResourceKind| !self.is_created(kind)
    }

    /// The ledger with the given identifiers on record for their kind.
    pub open spec fn record(self, o: OutputsView) -> LedgerView {
        match o {
            OutputsView::Bucket => LedgerView { bucket_ready: true, ..self },
            OutputsView::Key(r) => LedgerView { key: Some(r), ..self },
            OutputsView::KeyPair(r) => LedgerView { key_pair: Some(r), ..self },
            OutputsView::Role(r) => LedgerView { role: Some(r), ..self },
            OutputsView::Vpc(r) => LedgerView { vpc: Some(r), ..self },
            OutputsView::AnchorNodes(r) => LedgerView { anchor_nodes: Some(r), ..self },
            OutputsView::NonAnchorNodes(r) => LedgerView { non_anchor_nodes: Some(r), ..self },
            OutputsView::LoadBalancer(r) => LedgerView { load_balancer: Some(r), ..self },
            OutputsView::MetricsNamespace(n) => LedgerView { metrics_namespace: Some(n), ..self },
        }
    }

    /// What putting identifiers on record comes to: the ledger that holds
    /// them, or a refusal where their kind is on record already.
    pub open spec fn apply(self, o: OutputsView) -> Result<LedgerView, StateError> {
        if self.is_created(o.kind()) {
            Err(StateError::AlreadyCreated(o.kind()))
        } else {
            Ok(self.record(o))
        }
    }

    /// The ledger with nothing on record for the given kind.
    pub open spec fn erase(self, kind: ResourceKind) -> LedgerView {
        match kind {
            ResourceKind::Bucket => LedgerView { bucket_ready: false, ..self },
            ResourceKind::Key => LedgerView { key: None, ..self },
            ResourceKind::KeyPair => LedgerView { key_pair: None, ..self },
            ResourceKind::Role => LedgerView { role: None, ..self },
            ResourceKind::Vpc => LedgerView { vpc: None, ..self },
            ResourceKind::AnchorNodes => LedgerView { anchor_nodes: None, ..self },
            ResourceKind::NonAnchorNodes => LedgerView { non_anchor_nodes: None, ..self },
            ResourceKind::LoadBalancer => LedgerView { load_balancer: None, ..self },
            ResourceKind::MetricsNamespace => LedgerView { metrics_namespace: None, ..self },
        }
    }

    /// Whether the backup coordinates say one thing: all three are given, or
    /// none is.
    pub open spec fn backup_consistent(self) -> bool {
        provided(self.backup_region) == provided(self.backup_bucket) && provided(
            self.backup_bucket,
        ) == provided(self.backup_key)
    }

    /// What validation finds: the first of an empty region, an empty bucket
    /// name and inconsistent backup coordinates.
    pub open spec fn check(self) -> Result<(), ConfigError> {
        if self.region.len() == 0 {
            Err(ConfigError::EmptyRegion)
        } else if self.bucket.len() == 0 {
            Err(ConfigError::EmptyBucketName)
        } else if !self.backup_consistent() {
            Err(ConfigError::PartialBackup)
        } else {
            Ok(())
        }
    }

    /// Whether the ledger is fit for the orchestrator.
    pub open spec fn usable(self) -> bool {
        self.check() is Ok
    }
}

/// Nothing is on record exactly when no kind is, taken one by one.
pub proof fn lemma_pristine_by_kind(l: LedgerView)
    ensures
        l.pristine() <==> !l.is_created(ResourceKind::Bucket) && !l.is_created(ResourceKind::Key)
            && !l.is_created(ResourceKind::KeyPair) && !l.is_created(ResourceKind::Role)
            && !l.is_created(ResourceKind::Vpc) && !l.is_created(ResourceKind::AnchorNodes)
            && !l.is_created(ResourceKind::NonAnchorNodes) && !l.is_created(
            ResourceKind::LoadBalancer,
        ) && !l.is_created(ResourceKind::MetricsNamespace),
{
}

/// The ledger of one deployment.
#[derive(Clone, Debug, PartialEq, Eq)]
pub struct Resources {
    identity: Option<Identity>,
    region: String,
    s3_bucket: String,
    db_backup_s3_region: Option<String>,
    db_backup_s3_bucket: Option<String>,
    db_backup_s3_key: Option<String>,
    instance_system_logs: Option<bool>,
    instance_system_metrics: Option<bool>,
    nlb_acm_certificate_arn: Option<String>,
    bucket_ready: bool,
    key: Option<EncryptionKey>,
    key_pair: Option<KeyPair>,
    role: Option<InstanceRole>,
    vpc: Option<Network>,
    anchor_nodes: Option<ScalingGroup>,
    non_anchor_nodes: Option<ScalingGroup>,
    load_balancer: Option<LoadBalancer>,
    metrics_namespace: Option<String>,
}

impl View for Resources {
    type V = LedgerView;

    closed spec fn view(&self) -> LedgerView {
        LedgerView {
            identity: identity_of(self.identity),
            region: self.region@,
            bucket: self.s3_bucket@,
            backup_region: text_of(self.db_backup_s3_region),
            backup_bucket: text_of(self.db_backup_s3_bucket),
            backup_key: text_of(self.db_backup_s3_key),
            system_logs: self.instance_system_logs,
            system_metrics: self.instance_system_metrics,
            certificate: text_of(self.nlb_acm_certificate_arn),
            bucket_ready: self.bucket_ready,
            key: match self.key {
                Some(r) => Some(r@),
                None => None,
            },
            key_pair: match self.key_pair {
                Some(r) => Some(r@),
                None => None,
            },
            role: match self.role {
                Some(r) => Some(r@),
                None => None,
            },
            vpc: match self.vpc {
                Some(r) => Some(r@),
                None => None,
            },
            anchor_nodes: match self.anchor_nodes {
                Some(r) => Some(r@),
                None => None,
            },
            non_anchor_nodes: match self.non_anchor_nodes {
                Some(r) => Some(r@),
                None => None,
            },
            load_balancer: match self.load_balancer {
                Some(r) => Some(r@),
                None => None,
            },
            metrics_namespace: text_of(self.metrics_namespace),
        }
    }
}

impl Default for Resources {
    fn default() -> (r: Resources)
        ensures
            r@ == LedgerView::initial(),
    {
        Resources::default()
    }
}

impl Resources {
    /// The ledger of a new deployment.
    pub fn default() -> (r: Resources)
        ensures
            r@ == LedgerView::initial(),
    {
        Resources {
            identity: None,
            region: default_region(),
            s3_bucket: String::new(),
            db_backup_s3_region: None,
            db_backup_s3_bucket: None,
            db_backup_s3_key: None,
            instance_system_logs: Some(true),
            instance_system_metrics: Some(true),
            nlb_acm_certificate_arn: None,
            bucket_ready: false,
            key: None,
            key_pair: None,
            role: None,
            vpc: None,
            anchor_nodes: None,
            non_anchor_nodes: None,
            load_balancer: None,
            metrics_namespace: None,
        }
    }

    /// Checks that the ledger is fit for the orchestrator.
    pub fn validate(&self) -> (r: Result<(), ConfigError>)
        ensures
            r == self@.check(),
    {
        if self.region.as_str().is_empty() {
            return Err(ConfigError::EmptyRegion);
        }
        if self.s3_bucket.as_str().is_empty() {
            return Err(ConfigError::EmptyBucketName);
        }
        let region = is_provided(&self.db_backup_s3_region);
        let bucket = is_provided(&self.db_backup_s3_bucket);
        let key = is_provided(&self.db_backup_s3_key);
        if region != bucket || bucket != key {
            return Err(ConfigError::PartialBackup);
        }
        Ok(())
    }

    /// Tells whether the resource of a kind is on record.
    pub fn is_created(&self, kind: ResourceKind) -> (b: bool)
        ensures
            b == self@.is_created(kind),
    {
        match kind {
            ResourceKind::Bucket => self.bucket_ready,
            ResourceKind::Key => self.key.is_some(),
            ResourceKind::KeyPair => self.key_pair.is_some(),
            ResourceKind::Role => self.role.is_some(),
            ResourceKind::Vpc => self.vpc.is_some(),
            ResourceKind::AnchorNodes => self.anchor_nodes.is_some(),
            ResourceKind::NonAnchorNodes => self.non_anchor_nodes.is_some(),
            ResourceKind::LoadBalancer => self.load_balancer.is_some(),
            ResourceKind::MetricsNamespace => self.metrics_namespace.is_some(),
        }
    }

    /// Tells whether no resource is on record.
    pub fn is_pristine(&self) -> (b: bool)
        ensures
            b == self@.pristine(),
    {
        let b = !self.bucket_ready && self.key.is_none() && self.key_pair.is_none()
            && self.role.is_none() && self.vpc.is_none() && self.anchor_nodes.is_none()
            && self.non_anchor_nodes.is_none() && self.load_balancer.is_none()
            && self.metrics_namespace.is_none();
        proof {
            lemma_pristine_by_kind(self@);
        }
        b
    }

    /// Puts the identifiers of a created resource on record. Refuses, and
    /// leaves the ledger as it was, if that kind is on record already.
    pub fn apply_created(&mut self, outputs: Outputs) -> (r: Result<(), StateError>)
        ensures
            match old(self)@.apply(outputs@) {
                Ok(l) => r is Ok && final(self)@ == l,
                Err(e) => r == Err::<(), StateError>(e) && final(self)@ == old(self)@,
            },
    {
        let kind = outputs.kind();
        if self.is_created(kind) {
            return Err(StateError::AlreadyCreated(kind));
        }
        match outputs {
            Outputs::Bucket => {
                self.bucket_ready = true;
            },
            Outputs::Key(r) => {
                self.key = Some(r);
            },
            Outputs::KeyPair(r) => {
                self.key_pair = Some(r);
            },
            Outputs::Role(r) => {
                self.role = Some(r);
            },
            Outputs::Vpc(r) => {
                self.vpc = Some(r);
            },
            Outputs::AnchorNodes(r) => {
                self.anchor_nodes = Some(r);
            },
            Outputs::NonAnchorNodes(r) => {
                self.non_anchor_nodes = Some(r);
            },
            Outputs::LoadBalancer(r) => {
                self.load_balancer = Some(r);
            },
            Outputs::MetricsNamespace(n) => {
                self.metrics_namespace = Some(n);
            },
        }
        Ok(())
    }

    /// Takes a kind off the record, after its resource was deleted.
    pub fn clear(&mut self, kind: ResourceKind)
        ensures
            final(self)@ == old(self)@.erase(kind),
    {
        match kind {
            ResourceKind::Bucket => {
                self.bucket_ready = false;
            },
            ResourceKind::Key => {
                self.key = None;
            },
            ResourceKind::KeyPair => {
                self.key_pair = None;
            },
            ResourceKind::Role => {
                self.role = None;
            },
            ResourceKind::Vpc => {
                self.vpc = None;
            },
            ResourceKind::AnchorNodes => {
                self.anchor_nodes = None;
            },
            ResourceKind::NonAnchorNodes => {
                self.non_anchor_nodes = None;
            },
            ResourceKind::LoadBalancer => {
                self.load_balancer = None;
            },
            ResourceKind::MetricsNamespace => {
                self.metrics_namespace = None;
            },
        }
    }
}

impl Resources {
    /// Puts the caller's identity on record. It is set once: refused, with
    /// the ledger left as it was, if one is on record already.
    pub fn set_identity(&mut self, identity: Identity) -> (r: Result<(), StateError>)
        ensures
            old(self)@.identity is Some ==> r == Err::<(), StateError>(
                StateError::IdentityAlreadySet,
            ) && final(self)@ == old(self)@,
            old(self)@.identity is None ==> r is Ok && final(self)@ == (LedgerView {
                identity: Some(identity@),
                ..old(self)@
            }),
    {
        if self.identity.is_some() {
            return Err(StateError::IdentityAlreadySet);
        }
        self.identity = Some(identity);
        Ok(())
    }

    /// Names the region. Refused, with the ledger left as it was, once a
    /// resource is on record.
    pub fn set_region(&mut self, region: String) -> (r: Result<(), StateError>)
        ensures
            !old(self)@.pristine() ==> r == Err::<(), StateError>(StateError::ConfigFrozen)
                && final(self)@ == old(self)@,
            old(self)@.pristine() ==> r is Ok && final(self)@ == (LedgerView {
                region: region@,
                ..old(self)@
            }),
    {
        if !self.is_pristine() {
            return Err(StateError::ConfigFrozen);
        }
        self.region = region;
        Ok(())
    }

    /// Names the storage bucket. Refused, with the ledger left as it was, once
    /// a resource is on record.
    pub fn set_s3_bucket(&mut self, name: String) -> (r: Result<(), StateError>)
        ensures
            !old(self)@.pristine() ==> r == Err::<(), StateError>(StateError::ConfigFrozen)
                && final(self)@ == old(self)@,
            old(self)@.pristine() ==> r is Ok && final(self)@ == (LedgerView {
                bucket: name@,
                ..old(self)@
            }),
    {
        if !self.is_pristine() {
            return Err(StateError::ConfigFrozen);
        }
        self.s3_bucket = name;
        Ok(())
    }

    /// Sets where a backup is restored from. Refused, with the ledger left as
    /// it was, once a resource is on record.
    pub fn set_backup(
        &mut self,
        region: Option<String>,
        bucket: Option<String>,
        key: Option<String>,
    ) -> (r: Result<(), StateError>)
        ensures
            !old(self)@.pristine() ==> r == Err::<(), StateError>(StateError::ConfigFrozen)
                && final(self)@ == old(self)@,
            old(self)@.pristine() ==> r is Ok && final(self)@ == (LedgerView {
                backup_region: text_of(region),
                backup_bucket: text_of(bucket),
                backup_key: text_of(key),
                ..old(self)@
            }),
    {
        if !self.is_pristine() {
            return Err(StateError::ConfigFrozen);
        }
        self.db_backup_s3_region = region;
        self.db_backup_s3_bucket = bucket;
        self.db_backup_s3_key = key;
        Ok(())
    }

    /// Sets whether instances ship their system logs. Refused, with the ledger
    /// left as it was, once a resource is on record.
    pub fn set_system_logs(&mut self, enabled: Option<bool>) -> (r: Result<(), StateError>)
        ensures
            !old(self)@.pristine() ==> r == Err::<(), StateError>(StateError::ConfigFrozen)
                && final(self)@ == old(self)@,
            old(self)@.pristine() ==> r is Ok && final(self)@ == (LedgerView {
                system_logs: enabled,
                ..old(self)@
            }),
    {
        if !self.is_pristine() {
            return Err(StateError::ConfigFrozen);
        }
        self.instance_system_logs = enabled;
        Ok(())
    }

    /// Sets whether instances report system metrics. Refused, with the ledger
    /// left as it was, once a resource is on record.
    pub fn set_system_metrics(&mut self, enabled: Option<bool>) -> (r: Result<(), StateError>)
        ensures
            !old(self)@.pristine() ==> r == Err::<(), StateError>(StateError::ConfigFrozen)
                && final(self)@ == old(self)@,
            old(self)@.pristine() ==> r is Ok && final(self)@ == (LedgerView {
                system_metrics: enabled,
                ..old(self)@
            }),
    {
        if !self.is_pristine() {
            return Err(StateError::ConfigFrozen);
        }
        self.instance_system_metrics = enabled;
        Ok(())
    }

    /// Names the certificate with which the load balancer serves TLS. Refused,
    /// with the ledger left as it was, once a resource is on record.
    pub fn set_certificate(&mut self, arn: Option<String>) -> (r: Result<(), StateError>)
        ensures
            !old(self)@.pristine() ==> r == Err::<(), StateError>(StateError::ConfigFrozen)
                && final(self)@ == old(self)@,
            old(self)@.pristine() ==> r is Ok && final(self)@ == (LedgerView {
                certificate: text_of(arn),
                ..old(self)@
            }),
    {
        if !self.is_pristine() {
            return Err(StateError::ConfigFrozen);
        }
        self.nlb_acm_certificate_arn = arn;
        Ok(())
    }

    /// The caller's identity, once resolved.
    pub fn identity(&self) -> (r: Option<&Identity>)
        ensures
            match r {
                Some(t) => self@.identity == Some(t@),
                None => self@.identity is None,
            },
    {
        self.identity.as_ref()
    }

    /// The region.
    pub fn region(&self) -> (r: &str)
        ensures
            r@ == self@.region,
    {
        self.region.as_str()
    }

    /// The name of the storage bucket.
    pub fn s3_bucket(&self) -> (r: &str)
        ensures
            r@ == self@.bucket,
    {
        self.s3_bucket.as_str()
    }

    /// Whether instances ship their system logs.
    pub fn system_logs(&self) -> (r: Option<bool>)
        ensures
            r == self@.system_logs,
    {
        self.instance_system_logs
    }

    /// Whether instances report system metrics.
    pub fn system_metrics(&self) -> (r: Option<bool>)
        ensures
            r == self@.system_metrics,
    {
        self.instance_system_metrics
    }

    /// The region of the bucket that holds the backup.
    pub fn backup_region(&self) -> (r: Option<&str>)
        ensures
            match r {
                Some(t) => self@.backup_region == Some(t@),
                None => self@.backup_region is None,
            },
    {
        match &self.db_backup_s3_region {
            Some(t) => Some(t.as_str()),
            None => None,
        }
    }

    /// The bucket that holds the backup.
    pub fn backup_bucket(&self) -> (r: Option<&str>)
        ensures
            match r {
                Some(t) => self@.backup_bucket == Some(t@),
                None => self@.backup_bucket is None,
            },
    {
        match &self.db_backup_s3_bucket {
            Some(t) => Some(t.as_str()),
            None => None,
        }
    }

    /// The key of the backup in its bucket.
    pub fn backup_key(&self) -> (r: Option<&str>)
        ensures
            match r {
                Some(t) => self@.backup_key == Some(t@),
                None => self@.backup_key is None,
            },
    {
        match &self.db_backup_s3_key {
            Some(t) => Some(t.as_str()),
            None => None,
        }
    }

    /// The certificate with which the load balancer serves TLS.
    pub fn certificate(&self) -> (r: Option<&str>)
        ensures
            match r {
                Some(t) => self@.certificate == Some(t@),
                None => self@.certificate is None,
            },
    {
        match &self.nlb_acm_certificate_arn {
            Some(t) => Some(t.as_str()),
            None => None,
        }
    }

    /// The metrics namespace, once created.
    pub fn metrics_namespace(&self) -> (r: Option<&str>)
        ensures
            match r {
                Some(t) => self@.metrics_namespace == Some(t@),
                None => self@.metrics_namespace is None,
            },
    {
        match &self.metrics_namespace {
            Some(t) => Some(t.as_str()),
            None => None,
        }
    }

    /// The encryption key, once created.
    pub fn key(&self) -> (r: Option<&EncryptionKey>)
        ensures
            match r {
                Some(t) => self@.key == Some(t@),
                None => self@.key is None,
            },
    {
        self.key.as_ref()
    }

    /// The SSH key pair, once created.
    pub fn key_pair(&self) -> (r: Option<&KeyPair>)
        ensures
            match r {
                Some(t) => self@.key_pair == Some(t@),
                None => self@.key_pair is None,
            },
    {
        self.key_pair.as_ref()
    }

    /// The instance role, once created.
    pub fn role(&self) -> (r: Option<&InstanceRole>)
        ensures
            match r {
                Some(t) => self@.role == Some(t@),
                None => self@.role is None,
            },
    {
        self.role.as_ref()
    }

    /// The network, once created.
    pub fn vpc(&self) -> (r: Option<&Network>)
        ensures
            match r {
                Some(t) => self@.vpc == Some(t@),
                None => self@.vpc is None,
            },
    {
        self.vpc.as_ref()
    }

    /// The scaling group of the anchor nodes, once created.
    pub fn anchor_nodes(&self) -> (r: Option<&ScalingGroup>)
        ensures
            match r {
                Some(t) => self@.anchor_nodes == Some(t@),
                None => self@.anchor_nodes is None,
            },
    {
        self.anchor_nodes.as_ref()
    }

    /// The scaling group of the other nodes, once created.
    pub fn non_anchor_nodes(&self) -> (r: Option<&ScalingGroup>)
        ensures
            match r {
                Some(t) => self@.non_anchor_nodes == Some(t@),
                None => self@.non_anchor_nodes is None,
            },
    {
        self.non_anchor_nodes.as_ref()
    }

    /// The load balancer, once created.
    pub fn load_balancer(&self) -> (r: Option<&LoadBalancer>)
        ensures
            match r {
                Some(t) => self@.load_balancer == Some(t@),
                None => self@.load_balancer is None,
            },
    {
        self.load_balancer.as_ref()
    }

    /// A copy of the identifiers on record for a kind.
    pub fn outputs(&self, kind: ResourceKind) -> (r: Option<Outputs>)
        ensures
            match r {
                Some(o) => self@.recorded(kind) == Some(o@),
                None => self@.recorded(kind) is None,
            },
    {
        match kind {
            ResourceKind::Bucket => if self.bucket_ready {
                Some(Outputs::Bucket)
            } else {
                None
            },
            ResourceKind::Key => match &self.key {
                Some(r) => Some(Outputs::Key(r.copy())),
                None => None,
            },
            ResourceKind::KeyPair => match &self.key_pair {
                Some(r) => Some(Outputs::KeyPair(r.copy())),
                None => None,
            },
            ResourceKind::Role => match &self.role {
                Some(r) => Some(Outputs::Role(r.copy())),
                None => None,
            },
            ResourceKind::Vpc => match &self.vpc {
                Some(r) => Some(Outputs::Vpc(r.copy())),
                None => None,
            },
            ResourceKind::AnchorNodes => match &self.anchor_nodes {
                Some(r) => Some(Outputs::AnchorNodes(r.copy())),
                None => None,
            },
            ResourceKind::NonAnchorNodes => match &self.non_anchor_nodes {
                Some(r) => Some(Outputs::NonAnchorNodes(r.copy())),
                None => None,
            },
            ResourceKind::LoadBalancer => match &self.load_balancer {
                Some(r) => Some(Outputs::LoadBalancer(r.copy())),
                None => None,
            },
            ResourceKind::MetricsNamespace => match &self.metrics_namespace {
                Some(n) => Some(Outputs::MetricsNamespace(n.clone())),
                None => None,
            },
        }
    }

    /// A copy of the ledger.
    pub fn copy(&self) -> (r: Resources)
        ensures
            r@ == self@,
    {
        Resources {
            identity: match &self.identity {
                Some(i) => Some(i.copy()),
                None => None,
            },
            region: self.region.clone(),
            s3_bucket: self.s3_bucket.clone(),
            db_backup_s3_region: copy_text(&self.db_backup_s3_region),
            db_backup_s3_bucket: copy_text(&self.db_backup_s3_bucket),
            db_backup_s3_key: copy_text(&self.db_backup_s3_key),
            instance_system_logs: self.instance_system_logs,
            instance_system_metrics: self.instance_system_metrics,
            nlb_acm_certificate_arn: copy_text(&self.nlb_acm_certificate_arn),
            bucket_ready: self.bucket_ready,
            key: match &self.key {
                Some(r) => Some(r.copy()),
                None => None,
            },
            key_pair: match &self.key_pair {
                Some(r) => Some(r.copy()),
                None => None,
            },
            role: match &self.role {
                Some(r) => Some(r.copy()),
                None => None,
            },
            vpc: match &self.vpc {
                Some(r) => Some(r.copy()),
                None => None,
            },
            anchor_nodes: match &self.anchor_nodes {
                Some(r) => Some(r.copy()),
                None => None,
            },
            non_anchor_nodes: match &self.non_anchor_nodes {
                Some(r) => Some(r.copy()),
                None => None,
            },
            load_balancer: match &self.load_balancer {
                Some(r) => Some(r.copy()),
                None => None,
            },
            metrics_namespace: copy_text(&self.metrics_namespace),
        }
    }
}

} // verus!
