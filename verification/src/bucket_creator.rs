//! How a new bucket is created and configured.
use vstd::prelude::*;
use vstd::string::*;

use crate::bucket;
use crate::bucket::{Bucket, Type};
use crate::bucket_config::{
    AbortIncompleteMultipartUpload, BucketVersioningStatus, DeleteMarkerReplication, Destination,
    InventoryConfiguration, InventoryDestination, InventoryFormat, InventoryFrequency,
    InventoryIncludedObjectVersions, InventoryOptionalField, InventoryS3BucketDestination,
    InventorySchedule, LifecycleExpiration, LifecycleRule, LifecycleRuleFilter, LoggingEnabled,
    NoncurrentVersionExpiration, NotificationConfiguration, PublicAccessBlockConfiguration,
    ReplicationConfiguration, ReplicationRule, ReplicationRuleFilter, RuleStatus, Transition,
};
use crate::bucket_config;
use crate::constants::{
    BUCKET_TAG_ORIGIN_KEY, BUCKET_TAG_ORIGIN_VAL, BUCKET_TAG_STACK_KEY,
    BUCKET_TAG_TRANSITION_STORAGE_CLASS_KEY, BUCKET_TAG_TYPE_KEY, EXPIRE_ABORTED_MULTIPART_DAYS,
    EXPIRE_LEGACY_DURACLOUD_FILE_DAYS, EXPIRE_NONCURRENT_VERSION_DAYS, INVENTORY_ID,
    LIFECYCLE_LEGACY_DURACLOUD_FILE_TAG_KEY, LIFECYCLE_LEGACY_DURACLOUD_FILE_TAG_VAL,
    MANIFESTS_PREFIX, REPLICATION_RULE_ID, REPLICATION_RULE_PRIORITY, STORAGE_TRANSITION_DAYS,
};
use crate::errors::RequestError;
use crate::stack;
use crate::stack::Stack;
use crate::storage_class::TransitionStorageClass;
use crate::tags::Tag;
use crate::text;

verus! {

/// The file format of the inventories.
pub const INVENTORY_FORMAT: InventoryFormat = InventoryFormat::Parquet;

/// The class that the objects of a standard bucket move to.
pub const STORAGE_CLASS_STANDARD_DEFAULT: TransitionStorageClass =
    TransitionStorageClass::IntelligentTiering;

/// The class that the objects of a public bucket move to.
pub const STORAGE_CLASS_PUBLIC_DEFAULT: TransitionStorageClass =
    TransitionStorageClass::IntelligentTiering;

/// The class that the objects of a replication bucket move to.
pub const STORAGE_CLASS_REPLICATION_DEFAULT: TransitionStorageClass =
    TransitionStorageClass::DeepArchive;

/// The identifier of the rule that removes what is out of date.
pub const EXPIRE_RULE_ID: &'static str = "ExpireOldVersions";

/// The identifier of the rule that removes files of the former service.
pub const LEGACY_RULE_ID: &'static str = "ExpireLegacyDuraCloudFiles";

/// The region whose buckets are created without naming it.
pub const DEFAULT_REGION: &'static str = "us-east-1";

/// The default transition storage class for a kind of bucket.
pub open spec fn default_class(bucket_type: Type) -> TransitionStorageClass {
    match bucket_type {
        Type::Public => STORAGE_CLASS_PUBLIC_DEFAULT,
        Type::Replication => STORAGE_CLASS_REPLICATION_DEFAULT,
        _ => STORAGE_CLASS_STANDARD_DEFAULT,
    }
}

/// Resolves the default transition storage class for a kind of bucket.
pub fn default_storage_class(bucket_type: &Type) -> (r: TransitionStorageClass)
    ensures
        r == default_class(*bucket_type),
{
    match bucket_type {
        Type::Public => STORAGE_CLASS_PUBLIC_DEFAULT,
        Type::Replication => STORAGE_CLASS_REPLICATION_DEFAULT,
        _ => STORAGE_CLASS_STANDARD_DEFAULT,
    }
}

/// A policy that decides who may do what with a bucket.
#[derive(Debug, Clone, Copy, PartialEq, Eq, Structural)]
pub enum BucketPolicy {
    /// Nobody may store objects.
    DenyUploads,
    /// Everybody may read objects.
    PublicRead,
}

/// A change to a bucket.
#[derive(Debug)]
pub enum BucketWrite {
    Create { tags: Vec<Tag>, location_constraint: Option<String> },
    Delete,
    PutPolicy(BucketPolicy),
    DeletePolicy,
    PutVersioning(BucketVersioningStatus),
    PutLifecycle(Vec<LifecycleRule>),
    PutNotifications(NotificationConfiguration),
    PutLogging(LoggingEnabled),
    PutInventory { id: String, configuration: InventoryConfiguration },
    PutPublicAccessBlock(PublicAccessBlockConfiguration),
    PutReplication(ReplicationConfiguration),
}

/// A change to send to the storage service.
#[derive(Debug)]
pub struct BucketRequest {
    /// The bucket that is changed.
    pub bucket: String,
    pub write: BucketWrite,
    /// What to report where the change fails.
    pub context: String,
}

impl BucketRequest {
    /// Whether the request goes to `bucket` and reports `context` where it fails.
    pub open spec fn addressed(self, bucket: Seq<char>, context: Seq<char>) -> bool {
        self.bucket@ == bucket && self.context@ == context
    }
}

/// What bucket creation needs to know of the installation.
#[derive(Clone, Copy)]
pub struct BucketCreatorParams<'a> {
    pub account_id: &'a str,
    pub replication_role_arn: &'a str,
    pub stack: &'a Stack,
}

/// Handles bucket setup by giving the requests that each kind of bucket needs.
#[derive(Debug)]
pub struct BucketCreator<'a> {
    account_id: &'a str,
    bucket: &'a Bucket,
    replication_role_arn: &'a str,
    stack: &'a Stack,
    storage_tier_override: Option<TransitionStorageClass>,
}

/// What decides the requests: the installation, the bucket, and the class that
/// its objects move to.
pub struct CreatorView {
    pub account_id: Seq<char>,
    pub bucket: bucket::BucketView,
    pub replication_role_arn: Seq<char>,
    pub stack: Seq<char>,
    pub storage_tier: TransitionStorageClass,
}

impl<'a> View for BucketCreator<'a> {
    type V = CreatorView;

    closed spec fn view(&self) -> CreatorView {
        CreatorView {
            account_id: self.account_id@,
            bucket: self.bucket@,
            replication_role_arn: self.replication_role_arn@,
            stack: self.stack@,
            storage_tier: match self.storage_tier_override {
                Some(class) => class,
                None => default_class(self.bucket@.bucket_type),
            },
        }
    }
}

/// The tags of a new bucket: where it comes from, its stack, its kind, and the
/// class that its objects move to.
pub open spec fn creation_tags(c: CreatorView, tags: Seq<Tag>) -> bool {
    &&& tags.len() == 4
    &&& tags[0]@ == (BUCKET_TAG_ORIGIN_KEY@, BUCKET_TAG_ORIGIN_VAL@)
    &&& tags[1]@ == (BUCKET_TAG_STACK_KEY@, c.stack)
    &&& tags[2]@ == (BUCKET_TAG_TYPE_KEY@, c.bucket.bucket_type@)
    &&& tags[3]@ == (BUCKET_TAG_TRANSITION_STORAGE_CLASS_KEY@, c.storage_tier@)
}

/// A request that creates the bucket in a region. The default region must not be named.
pub open spec fn creates(c: CreatorView, region: Seq<char>, r: BucketRequest) -> bool {
    &&& r.addressed(c.bucket.name, "failed to create bucket "@ + c.bucket.name)
    &&& r.write matches BucketWrite::Create { tags, location_constraint }
    &&& creation_tags(c, tags@)
    &&& if region == DEFAULT_REGION@ {
        location_constraint is None
    } else {
        bucket_config::holds(location_constraint, region)
    }
}

/// A request that deletes the bucket.
pub open spec fn deletes(c: CreatorView, r: BucketRequest) -> bool {
    &&& r.addressed(c.bucket.name, "failed to delete bucket "@ + c.bucket.name)
    &&& r.write is Delete
}

/// A request that keeps everybody from storing objects.
pub open spec fn denies_uploads(c: CreatorView, r: BucketRequest) -> bool {
    &&& r.addressed(c.bucket.name, "failed to apply deny upload policy to "@ + c.bucket.name)
    &&& r.write == BucketWrite::PutPolicy(BucketPolicy::DenyUploads)
}

/// A request that removes the policy against storing objects.
pub open spec fn allows_uploads(c: CreatorView, r: BucketRequest) -> bool {
    &&& r.addressed(c.bucket.name, "failed to remove deny upload policy from "@ + c.bucket.name)
    &&& r.write is DeletePolicy
}

/// A request that lets everybody read objects.
pub open spec fn grants_public_read(c: CreatorView, r: BucketRequest) -> bool {
    &&& r.addressed(c.bucket.name, "failed to apply public access policy to "@ + c.bucket.name)
    &&& r.write == BucketWrite::PutPolicy(BucketPolicy::PublicRead)
}

/// A request that lifts every block on public access.
pub open spec fn opens_public_access(c: CreatorView, r: BucketRequest) -> bool {
    &&& r.addressed(c.bucket.name, "failed to enable public access on "@ + c.bucket.name)
    &&& r.write == BucketWrite::PutPublicAccessBlock(
        PublicAccessBlockConfiguration {
            block_public_acls: Some(false),
            ignore_public_acls: Some(false),
            block_public_policy: Some(false),
            restrict_public_buckets: Some(false),
        },
    )
}

/// A request that keeps the older versions of objects.
pub open spec fn enables_versioning(c: CreatorView, r: BucketRequest) -> bool {
    &&& r.addressed(c.bucket.name, "failed to enable versioning on "@ + c.bucket.name)
    &&& r.write == BucketWrite::PutVersioning(BucketVersioningStatus::Enabled)
}

/// A request that sends the events of the bucket to the event bus.
pub open spec fn enables_notifications(c: CreatorView, r: BucketRequest) -> bool {
    &&& r.addressed(c.bucket.name, "failed to enable notifications on "@ + c.bucket.name)
    &&& r.write == BucketWrite::PutNotifications(NotificationConfiguration { event_bridge: true })
}

/// A request that writes access logs to the place that the stack keeps for them.
pub open spec fn enables_logging(c: CreatorView, r: BucketRequest) -> bool {
    &&& r.addressed(c.bucket.name, "failed to enable logging on "@ + c.bucket.name)
    &&& r.write matches BucketWrite::PutLogging(logging)
    &&& logging.target_bucket@ == stack::logging_location(c.stack, c.bucket.name).bucket
    &&& logging.target_prefix@ == stack::logging_location(c.stack, c.bucket.name).key
}

/// A filter that lets every object through.
pub open spec fn filters_nothing(filter: Option<LifecycleRuleFilter>) -> bool {
    filter matches Some(f) && bucket_config::holds(f.prefix, ""@) && f.tag is None
}

/// The rule that removes unfinished uploads, older versions and idle markers of
/// deleted objects.
pub open spec fn is_expiration_rule(rule: LifecycleRule) -> bool {
    &&& bucket_config::holds(rule.id, EXPIRE_RULE_ID@)
    &&& rule.status == RuleStatus::Enabled
    &&& filters_nothing(rule.filter)
    &&& rule.abort_incomplete_multipart_upload == Some(
        AbortIncompleteMultipartUpload {
            days_after_initiation: Some(EXPIRE_ABORTED_MULTIPART_DAYS as i32),
        },
    )
    &&& rule.expiration == Some(
        LifecycleExpiration { days: None, expired_object_delete_marker: Some(true) },
    )
    &&& rule.noncurrent_version_expiration == Some(
        NoncurrentVersionExpiration {
            noncurrent_days: Some(EXPIRE_NONCURRENT_VERSION_DAYS as i32),
        },
    )
    &&& rule.transitions@.len() == 0
}

/// The rule that moves objects to a storage class. Its identifier is the name of the class.
pub open spec fn is_transition_rule(rule: LifecycleRule, class: TransitionStorageClass) -> bool {
    &&& bucket_config::holds(rule.id, class@)
    &&& rule.status == RuleStatus::Enabled
    &&& filters_nothing(rule.filter)
    &&& rule.abort_incomplete_multipart_upload is None
    &&& rule.expiration is None
    &&& rule.noncurrent_version_expiration is None
    &&& rule.transitions@.len() == 1
    &&& rule.transitions@[0].days == Some(STORAGE_TRANSITION_DAYS as i32)
    &&& rule.transitions@[0].storage_class == Some(class)
}

/// The rule that removes files that the former service marked as obsolete.
pub open spec fn is_legacy_rule(rule: LifecycleRule) -> bool {
    &&& bucket_config::holds(rule.id, LEGACY_RULE_ID@)
    &&& rule.status == RuleStatus::Enabled
    &&& rule.filter matches Some(filter)
    &&& filter.prefix is None
    &&& filter.tag matches Some(tag)
    &&& tag@ == (
        LIFECYCLE_LEGACY_DURACLOUD_FILE_TAG_KEY@,
        LIFECYCLE_LEGACY_DURACLOUD_FILE_TAG_VAL@,
    )
    &&& rule.abort_incomplete_multipart_upload is None
    &&& rule.expiration == Some(
        LifecycleExpiration {
            days: Some(EXPIRE_LEGACY_DURACLOUD_FILE_DAYS as i32),
            expired_object_delete_marker: None,
        },
    )
    &&& rule.noncurrent_version_expiration is None
    &&& rule.transitions@.len() == 0
}

/// The lifecycle rules of a bucket whose objects move to `class`.
pub open spec fn are_managed_rules(rules: Seq<LifecycleRule>, class: TransitionStorageClass) -> bool {
    &&& rules.len() == 3
    &&& is_expiration_rule(rules[0])
    &&& is_transition_rule(rules[1], class)
    &&& is_legacy_rule(rules[2])
}

/// A request that sets the lifecycle rules.
pub open spec fn sets_lifecycle(c: CreatorView, r: BucketRequest) -> bool {
    &&& r.addressed(c.bucket.name, "failed to apply lifecycle policy "@ + c.bucket.name)
    &&& r.write matches BucketWrite::PutLifecycle(rules)
    &&& are_managed_rules(rules@, c.storage_tier)
}

/// The inventory of a bucket: a daily list of the current objects, written to the
/// managed bucket of the stack.
pub open spec fn is_managed_inventory(c: CreatorView, inventory: InventoryConfiguration) -> bool {
    &&& inventory.id@ == INVENTORY_ID@
    &&& inventory.is_enabled
    &&& inventory.included_object_versions == InventoryIncludedObjectVersions::Current
    &&& inventory.schedule == Some(InventorySchedule { frequency: InventoryFrequency::Daily })
    &&& inventory.destination matches Some(destination)
    &&& destination.s3_bucket_destination matches Some(d)
    &&& bucket_config::holds(d.account_id, c.account_id)
    &&& d.bucket@ == bucket_config::bucket_arn(stack::managed_bucket_name(c.stack))
    &&& d.format == INVENTORY_FORMAT
    &&& bucket_config::holds(d.prefix, MANIFESTS_PREFIX@)
    &&& inventory.optional_fields@ == seq![
        InventoryOptionalField::Size,
        InventoryOptionalField::LastModifiedDate,
        InventoryOptionalField::StorageClass,
        InventoryOptionalField::ReplicationStatus,
    ]
}

/// A request that starts the inventory.
pub open spec fn enables_inventory(c: CreatorView, r: BucketRequest) -> bool {
    &&& r.addressed(c.bucket.name, "failed to enable inventory on "@ + c.bucket.name)
    &&& r.write matches BucketWrite::PutInventory { id, configuration }
    &&& id@ == INVENTORY_ID@
    &&& is_managed_inventory(c, configuration)
}

/// The configuration that copies every object to `replica`, markers of deleted
/// objects included, without a guarantee on the time and without measurements.
pub open spec fn is_managed_replication(
    role: Seq<char>,
    replica: Seq<char>,
    configuration: ReplicationConfiguration,
) -> bool {
    &&& configuration.role@ == role
    &&& configuration.rules@.len() == 1
    &&& bucket_config::holds(configuration.rules@[0].id, REPLICATION_RULE_ID@)
    &&& configuration.rules@[0].status == RuleStatus::Enabled
    &&& configuration.rules@[0].priority == Some(REPLICATION_RULE_PRIORITY)
    &&& configuration.rules@[0].filter matches Some(filter)
    &&& bucket_config::holds(filter.prefix, ""@)
    &&& configuration.rules@[0].destination matches Some(destination)
    &&& destination.bucket@ == bucket_config::bucket_arn(replica)
    &&& !destination.replication_time
    &&& !destination.metrics
    &&& configuration.rules@[0].delete_marker_replication == Some(
        DeleteMarkerReplication { status: Some(RuleStatus::Enabled) },
    )
}

/// A request that copies the objects of the bucket to `replica`.
pub open spec fn enables_replication_to(
    c: CreatorView,
    replica: Seq<char>,
    r: BucketRequest,
) -> bool {
    &&& r.addressed(
        c.bucket.name,
        "failed to enable replication from "@ + c.bucket.name + " to "@ + replica,
    )
    &&& r.write matches BucketWrite::PutReplication(configuration)
    &&& is_managed_replication(c.replication_role_arn, replica, configuration)
}

/// The requests that set a bucket up, in the order in which they are sent.
pub open spec fn sets_up(c: CreatorView, requests: Seq<BucketRequest>) -> bool {
    match c.bucket.bucket_type {
        Type::Internal => false,
        Type::Replication => {
            &&& requests.len() == 2
            &&& enables_versioning(c, requests[0])
            &&& sets_lifecycle(c, requests[1])
        },
        Type::Standard => {
            &&& requests.len() == 7
            &&& configures_closed(c, requests)
        },
        Type::Public => {
            &&& requests.len() == 9
            &&& configures_closed(c, requests)
            &&& opens_public_access(c, requests[7])
            &&& grants_public_read(c, requests[8])
        },
    }
}

/// The first seven requests for a bucket that takes uploads: nobody can store
/// objects before the bucket is configured.
pub open spec fn configures_closed(c: CreatorView, requests: Seq<BucketRequest>) -> bool {
    &&& requests.len() >= 7
    &&& denies_uploads(c, requests[0])
    &&& enables_versioning(c, requests[1])
    &&& sets_lifecycle(c, requests[2])
    &&& enables_notifications(c, requests[3])
    &&& enables_logging(c, requests[4])
    &&& enables_inventory(c, requests[5])
    &&& allows_uploads(c, requests[6])
}

impl<'a> BucketCreator<'a> {
    pub fn new(
        params: BucketCreatorParams<'a>,
        bucket: &'a Bucket,
        storage_tier_override: Option<TransitionStorageClass>,
    ) -> (r: BucketCreator<'a>)
        ensures
            r@ == (CreatorView {
                account_id: params.account_id@,
                bucket: bucket@,
                replication_role_arn: params.replication_role_arn@,
                stack: params.stack@,
                storage_tier: match storage_tier_override {
                    Some(class) => class,
                    None => default_class(bucket@.bucket_type),
                },
            }),
    {
        BucketCreator {
            account_id: params.account_id,
            bucket,
            replication_role_arn: params.replication_role_arn,
            stack: params.stack,
            storage_tier_override,
        }
    }

    /// The class that the objects of the bucket move to.
    pub fn storage_tier(&self) -> (r: TransitionStorageClass)
        ensures
            r == self@.storage_tier,
    {
        match &self.storage_tier_override {
            Some(class) => class.clone(),
            None => default_storage_class(self.bucket.bucket_type()),
        }
    }

    fn request(&self, write: BucketWrite, failure: &str) -> (r: BucketRequest)
        ensures
            r.write == write,
            r.addressed(self@.bucket.name, failure@ + self@.bucket.name),
    {
        let name = self.bucket.name();
        BucketRequest {
            bucket: String::from_str(name),
            write,
            context: text::join2(failure, name),
        }
    }

    /// The request that creates the bucket in `region`.
    pub fn create(&self, region: &str) -> (r: BucketRequest)
        ensures
            creates(self@, region@, r),
    {
        let mut tags: Vec<Tag> = Vec::new();
        tags.push(Tag::new(BUCKET_TAG_ORIGIN_KEY, BUCKET_TAG_ORIGIN_VAL));
        tags.push(Tag::new(BUCKET_TAG_STACK_KEY, self.stack.as_str()));
        tags.push(Tag::new(BUCKET_TAG_TYPE_KEY, self.bucket.bucket_type().as_str()));
        let class = self.storage_tier().as_str();
        tags.push(Tag::new(BUCKET_TAG_TRANSITION_STORAGE_CLASS_KEY, class.as_str()));
        let location_constraint = if text::same(region, DEFAULT_REGION) {
            None
        } else {
            Some(String::from_str(region))
        };
        self.request(BucketWrite::Create { tags, location_constraint }, "failed to create bucket ")
    }

    /// The request that deletes the bucket again.
    pub fn rollback(&self) -> (r: BucketRequest)
        ensures
            deletes(self@, r),
    {
        self.request(BucketWrite::Delete, "failed to delete bucket ")
    }

    /// The requests that set the bucket up. Internal buckets are set up elsewhere.
    pub fn setup(&self) -> (r: Result<Vec<BucketRequest>, RequestError>)
        ensures
            match r {
                Ok(requests) => sets_up(self@, requests@),
                Err(e) => self@.bucket.bucket_type == Type::Internal && (e matches
                    RequestError::UnsupportedOperation(message) && message@
                    == "setup not supported for "@ + Type::Internal@ + " buckets"@),
            },
            r is Ok <==> self@.bucket.bucket_type != Type::Internal,
    {
        match self.bucket.bucket_type() {
            Type::Public => Ok(self.setup_public_bucket()),
            Type::Replication => Ok(self.setup_replication_bucket()),
            Type::Standard => Ok(self.setup_standard_bucket()),
            Type::Internal => Err(
                RequestError::UnsupportedOperation(
                    text::join3(
                        "setup not supported for ",
                        self.bucket.bucket_type().as_str(),
                        " buckets",
                    ),
                ),
            ),
        }
    }

    fn setup_public_bucket(&self) -> (r: Vec<BucketRequest>)
        requires
            self@.bucket.bucket_type == Type::Public,
        ensures
            sets_up(self@, r@),
    {
        let mut requests = self.configure_closed();
        requests.push(self.enable_public_access());
        requests.push(self.add_public_access_policy());
        requests
    }

    fn setup_replication_bucket(&self) -> (r: Vec<BucketRequest>)
        requires
            self@.bucket.bucket_type == Type::Replication,
        ensures
            sets_up(self@, r@),
    {
        let mut requests: Vec<BucketRequest> = Vec::new();
        requests.push(self.enable_versioning());
        requests.push(self.add_lifecycle(self.storage_tier()));
        requests
    }

    fn setup_standard_bucket(&self) -> (r: Vec<BucketRequest>)
        requires
            self@.bucket.bucket_type == Type::Standard,
        ensures
            sets_up(self@, r@),
    {
        self.configure_closed()
    }

    fn configure_closed(&self) -> (r: Vec<BucketRequest>)
        ensures
            r@.len() == 7,
            configures_closed(self@, r@),
    {
        let mut requests: Vec<BucketRequest> = Vec::new();
        requests.push(self.add_deny_upload_policy());
        requests.push(self.enable_versioning());
        requests.push(self.add_lifecycle(self.storage_tier()));
        requests.push(self.enable_notifications());
        requests.push(self.enable_bucket_logging());
        requests.push(self.enable_inventory());
        requests.push(self.remove_deny_upload_policy());
        requests
    }

    fn add_deny_upload_policy(&self) -> (r: BucketRequest)
        ensures
            denies_uploads(self@, r),
    {
        self.request(
            BucketWrite::PutPolicy(BucketPolicy::DenyUploads),
            "failed to apply deny upload policy to ",
        )
    }

    /// The request that sets the lifecycle rules of a bucket whose objects move to
    /// `transition_class`.
    pub fn add_lifecycle(&self, transition_class: TransitionStorageClass) -> (r: BucketRequest)
        ensures
            r.addressed(self@.bucket.name, "failed to apply lifecycle policy "@ + self@.bucket.name),
            r.write matches BucketWrite::PutLifecycle(rules) && are_managed_rules(
                rules@,
                transition_class,
            ),
    {
        let mut rules: Vec<LifecycleRule> = Vec::new();
        rules.push(expiration_rule());
        rules.push(transition_rule(transition_class));
        rules.push(legacy_rule());
        self.request(BucketWrite::PutLifecycle(rules), "failed to apply lifecycle policy ")
    }

    fn add_public_access_policy(&self) -> (r: BucketRequest)
        ensures
            grants_public_read(self@, r),
    {
        self.request(
            BucketWrite::PutPolicy(BucketPolicy::PublicRead),
            "failed to apply public access policy to ",
        )
    }

    fn enable_bucket_logging(&self) -> (r: BucketRequest)
        ensures
            enables_logging(self@, r),
    {
        let location = self.stack.logging_prefix_path(self.bucket.name());
        let logging = LoggingEnabled {
            target_bucket: String::from_str(location.bucket()),
            target_prefix: String::from_str(location.key()),
        };
        self.request(BucketWrite::PutLogging(logging), "failed to enable logging on ")
    }

    fn enable_inventory(&self) -> (r: BucketRequest)
        ensures
            enables_inventory(self@, r),
    {
        let managed = self.stack.managed_bucket();
        let destination = InventoryS3BucketDestination {
            account_id: Some(String::from_str(self.account_id)),
            bucket: bucket_config::arn_of_bucket(managed.as_str()),
            format: INVENTORY_FORMAT,
            prefix: Some(String::from_str(MANIFESTS_PREFIX)),
        };
        let mut optional_fields: Vec<InventoryOptionalField> = Vec::new();
        optional_fields.push(InventoryOptionalField::Size);
        optional_fields.push(InventoryOptionalField::LastModifiedDate);
        optional_fields.push(InventoryOptionalField::StorageClass);
        optional_fields.push(InventoryOptionalField::ReplicationStatus);
        assert(optional_fields@ =~= seq![
            InventoryOptionalField::Size,
            InventoryOptionalField::LastModifiedDate,
            InventoryOptionalField::StorageClass,
            InventoryOptionalField::ReplicationStatus,
        ]);
        let configuration = InventoryConfiguration {
            id: String::from_str(INVENTORY_ID),
            is_enabled: true,
            included_object_versions: InventoryIncludedObjectVersions::Current,
            schedule: Some(InventorySchedule { frequency: InventoryFrequency::Daily }),
            destination: Some(InventoryDestination { s3_bucket_destination: Some(destination) }),
            optional_fields,
        };
        self.request(
            BucketWrite::PutInventory { id: String::from_str(INVENTORY_ID), configuration },
            "failed to enable inventory on ",
        )
    }

    fn enable_notifications(&self) -> (r: BucketRequest)
        ensures
            enables_notifications(self@, r),
    {
        self.request(
            BucketWrite::PutNotifications(NotificationConfiguration { event_bridge: true }),
            "failed to enable notifications on ",
        )
    }

    fn enable_public_access(&self) -> (r: BucketRequest)
        ensures
            opens_public_access(self@, r),
    {
        self.request(
            BucketWrite::PutPublicAccessBlock(
                PublicAccessBlockConfiguration {
                    block_public_acls: Some(false),
                    ignore_public_acls: Some(false),
                    block_public_policy: Some(false),
                    restrict_public_buckets: Some(false),
                },
            ),
            "failed to enable public access on ",
        )
    }

    /// The request that copies the objects of the bucket to `replication`.
    pub fn enable_replication(&self, replication: &Bucket) -> (r: BucketRequest)
        ensures
            enables_replication_to(self@, replication@.name, r),
    {
        let source = self.bucket.name();
        let replica = replication.name();
        let mut rules: Vec<ReplicationRule> = Vec::new();
        rules.push(
            ReplicationRule {
                id: Some(String::from_str(REPLICATION_RULE_ID)),
                status: RuleStatus::Enabled,
                priority: Some(REPLICATION_RULE_PRIORITY),
                filter: Some(ReplicationRuleFilter { prefix: Some(String::from_str("")) }),
                destination: Some(
                    Destination {
                        bucket: bucket_config::arn_of_bucket(replica),
                        replication_time: false,
                        metrics: false,
                    },
                ),
                delete_marker_replication: Some(
                    DeleteMarkerReplication { status: Some(RuleStatus::Enabled) },
                ),
            },
        );
        BucketRequest {
            bucket: String::from_str(source),
            write: BucketWrite::PutReplication(
                ReplicationConfiguration {
                    role: String::from_str(self.replication_role_arn),
                    rules,
                },
            ),
            context: text::join4("failed to enable replication from ", source, " to ", replica),
        }
    }

    fn enable_versioning(&self) -> (r: BucketRequest)
        ensures
            enables_versioning(self@, r),
    {
        self.request(
            BucketWrite::PutVersioning(BucketVersioningStatus::Enabled),
            "failed to enable versioning on ",
        )
    }

    fn remove_deny_upload_policy(&self) -> (r: BucketRequest)
        ensures
            allows_uploads(self@, r),
    {
        self.request(BucketWrite::DeletePolicy, "failed to remove deny upload policy from ")
    }
}

fn expiration_rule() -> (r: LifecycleRule)
    ensures
        is_expiration_rule(r),
{
    LifecycleRule {
        id: Some(String::from_str(EXPIRE_RULE_ID)),
        status: RuleStatus::Enabled,
        filter: Some(LifecycleRuleFilter { prefix: Some(String::from_str("")), tag: None }),
        abort_incomplete_multipart_upload: Some(
            AbortIncompleteMultipartUpload {
                days_after_initiation: Some(EXPIRE_ABORTED_MULTIPART_DAYS as i32),
            },
        ),
        expiration: Some(
            LifecycleExpiration { days: None, expired_object_delete_marker: Some(true) },
        ),
        noncurrent_version_expiration: Some(
            NoncurrentVersionExpiration {
                noncurrent_days: Some(EXPIRE_NONCURRENT_VERSION_DAYS as i32),
            },
        ),
        transitions: Vec::new(),
    }
}

fn transition_rule(class: TransitionStorageClass) -> (r: LifecycleRule)
    ensures
        is_transition_rule(r, class),
{
    let id = class.as_str();
    let mut transitions: Vec<Transition> = Vec::new();
    transitions.push(
        Transition { days: Some(STORAGE_TRANSITION_DAYS as i32), storage_class: Some(class) },
    );
    LifecycleRule {
        id: Some(id),
        status: RuleStatus::Enabled,
        filter: Some(LifecycleRuleFilter { prefix: Some(String::from_str("")), tag: None }),
        abort_incomplete_multipart_upload: None,
        expiration: None,
        noncurrent_version_expiration: None,
        transitions,
    }
}

fn legacy_rule() -> (r: LifecycleRule)
    ensures
        is_legacy_rule(r),
{
    LifecycleRule {
        id: Some(String::from_str(LEGACY_RULE_ID)),
        status: RuleStatus::Enabled,
        filter: Some(
            LifecycleRuleFilter {
                prefix: None,
                tag: Some(
                    Tag::new(
                        LIFECYCLE_LEGACY_DURACLOUD_FILE_TAG_KEY,
                        LIFECYCLE_LEGACY_DURACLOUD_FILE_TAG_VAL,
                    ),
                ),
            },
        ),
        abort_incomplete_multipart_upload: None,
        expiration: Some(
            LifecycleExpiration {
                days: Some(EXPIRE_LEGACY_DURACLOUD_FILE_DAYS as i32),
                expired_object_delete_marker: None,
            },
        ),
        noncurrent_version_expiration: None,
        transitions: Vec::new(),
    }
}

/// Objects move to intelligent tiering unless they are copies, which move to deep archive.
pub proof fn copies_move_to_deep_archive(bucket_type: Type)
    ensures
        default_class(bucket_type) == (if bucket_type == Type::Replication {
            TransitionStorageClass::DeepArchive
        } else {
            TransitionStorageClass::IntelligentTiering
        }),
{
}

/// A new bucket is created under its name, with four tags that tell where it comes from, its
/// stack, its kind and its storage class; its region is named unless it is `us-east-1`.
pub proof fn new_bucket_carries_its_tags(c: CreatorView, region: Seq<char>, r: BucketRequest)
    requires
        creates(c, region, r),
    ensures
        r.bucket@ == c.bucket.name,
        r.context@ == "failed to create bucket "@ + c.bucket.name,
        r.write is Create,
        r.write->tags@.len() == 4,
        r.write->tags@[0].key@ == "BucketOrigin"@,
        r.write->tags@[0].value@ == "bucket-request"@,
        r.write->tags@[1].key@ == "Stack"@,
        r.write->tags@[1].value@ == c.stack,
        r.write->tags@[2].key@ == "BucketType"@,
        r.write->tags@[2].value@ == c.bucket.bucket_type@,
        r.write->tags@[3].key@ == "TransitionStorageClass"@,
        r.write->tags@[3].value@ == c.storage_tier@,
        r.write->location_constraint is None <==> region == "us-east-1"@,
        r.write->location_constraint is Some ==> r.write->location_constraint->0@ == region,
{
    let tags = r.write->tags@;
    assert(tags[0].key@ == tags[0]@.0 && tags[0].value@ == tags[0]@.1);
    assert(tags[1].key@ == tags[1]@.0 && tags[1].value@ == tags[1]@.1);
    assert(tags[2].key@ == tags[2]@.0 && tags[2].value@ == tags[2]@.1);
    assert(tags[3].key@ == tags[3]@.0 && tags[3].value@ == tags[3]@.1);
}

proof fn lemma_empty_prefix(prefix: Seq<char>, key: Seq<char>)
    requires
        prefix == ""@,
    ensures
        prefix.is_prefix_of(key),
{
    reveal_strlit("");
    assert(prefix =~= key.subrange(0, 0));
}

/// Whatever the key of an object, the rule that removes what is out of date and the rule that
/// moves objects apply to it: they ask for no tag, and their prefix is one of every key.
pub proof fn lifecycle_applies_to_every_object(
    rules: Seq<LifecycleRule>,
    class: TransitionStorageClass,
    key: Seq<char>,
)
    requires
        are_managed_rules(rules, class),
    ensures
        forall|i: int|
            0 <= i < 2 ==> {
                &&& (#[trigger] rules[i]).status == RuleStatus::Enabled
                &&& rules[i].filter is Some
                &&& rules[i].filter->0.tag is None
                &&& rules[i].filter->0.prefix is Some
                &&& rules[i].filter->0.prefix->0@.is_prefix_of(key)
            },
{
    lemma_empty_prefix(rules[0].filter->0.prefix->0@, key);
    lemma_empty_prefix(rules[1].filter->0.prefix->0@, key);
    assert forall|i: int| 0 <= i < 2 implies {
        &&& (#[trigger] rules[i]).status == RuleStatus::Enabled
        &&& rules[i].filter is Some
        &&& rules[i].filter->0.tag is None
        &&& rules[i].filter->0.prefix is Some
        &&& rules[i].filter->0.prefix->0@.is_prefix_of(key)
    } by {
        assert(i == 0 || i == 1);
    }
}

/// The lifecycle of a bucket: unfinished uploads go after three days, older versions after
/// fourteen, and so do idle markers of deleted objects; every object moves to the storage class
/// after three days and is not removed by that rule; and only files marked with the tag
/// `ObsoleteDuraCloudFile` and the value `true` are removed as such, after three days.
pub proof fn lifecycle_moves_and_removes(
    rules: Seq<LifecycleRule>,
    class: TransitionStorageClass,
)
    requires
        are_managed_rules(rules, class),
    ensures
        rules.len() == 3,
        rules[0].id is Some && rules[0].id->0@ == "ExpireOldVersions"@,
        rules[0].abort_incomplete_multipart_upload is Some,
        rules[0].abort_incomplete_multipart_upload->0.days_after_initiation == Some(3i32),
        rules[0].noncurrent_version_expiration is Some,
        rules[0].noncurrent_version_expiration->0.noncurrent_days == Some(14i32),
        rules[0].expiration is Some,
        rules[0].expiration->0.expired_object_delete_marker == Some(true),
        rules[0].expiration->0.days is None,
        rules[0].transitions@.len() == 0,
        rules[1].id is Some && rules[1].id->0@ == class@,
        rules[1].transitions@.len() == 1,
        rules[1].transitions@[0].days == Some(3i32),
        rules[1].transitions@[0].storage_class == Some(class),
        rules[1].expiration is None,
        rules[1].noncurrent_version_expiration is None,
        rules[1].abort_incomplete_multipart_upload is None,
        rules[2].id is Some && rules[2].id->0@ == "ExpireLegacyDuraCloudFiles"@,
        rules[2].status == RuleStatus::Enabled,
        rules[2].filter is Some && rules[2].filter->0.prefix is None,
        rules[2].filter->0.tag is Some,
        rules[2].filter->0.tag->0.key@ == "ObsoleteDuraCloudFile"@,
        rules[2].filter->0.tag->0.value@ == "true"@,
        rules[2].expiration is Some,
        rules[2].expiration->0.days == Some(3i32),
        rules[2].expiration->0.expired_object_delete_marker is None,
        rules[2].noncurrent_version_expiration is None,
        rules[2].abort_incomplete_multipart_upload is None,
        rules[2].transitions@.len() == 0,
{
    assert(rules[2].filter->0.tag->0@.0 == rules[2].filter->0.tag->0.key@);
    assert(rules[2].filter->0.tag->0@.1 == rules[2].filter->0.tag->0.value@);
}

/// Every request of the setup goes to the bucket that is set up, and none of them creates, deletes
/// or replicates it.
pub proof fn setup_stays_with_its_bucket(c: CreatorView, requests: Seq<BucketRequest>, i: int)
    requires
        sets_up(c, requests),
        0 <= i < requests.len(),
    ensures
        requests[i].bucket@ == c.bucket.name,
        !(requests[i].write is Create),
        !(requests[i].write is Delete),
        !(requests[i].write is PutReplication),
{
    assert(i == 0 || i == 1 || i == 2 || i == 3 || i == 4 || i == 5 || i == 6 || i == 7 || i == 8);
}

/// A replica has its versions kept and its lifecycle set. A bucket that takes uploads is closed
/// first and opened again when everything else is set: versions, lifecycle, events, access logs
/// and inventory. A public bucket is made readable by everybody only behind that.
pub proof fn setup_has_its_order(c: CreatorView, requests: Seq<BucketRequest>)
    requires
        sets_up(c, requests),
    ensures
        ({
            let kind = c.bucket.bucket_type;
            &&& kind != Type::Internal
            &&& kind == Type::Replication ==> {
                &&& requests.len() == 2
                &&& requests[0].write == BucketWrite::PutVersioning(BucketVersioningStatus::Enabled)
                &&& requests[1].write is PutLifecycle
                &&& are_managed_rules(requests[1].write->PutLifecycle_0@, c.storage_tier)
            }
            &&& kind == Type::Standard ==> requests.len() == 7
            &&& kind == Type::Public ==> requests.len() == 9
            &&& kind != Type::Replication ==> {
                &&& requests[0].write == BucketWrite::PutPolicy(BucketPolicy::DenyUploads)
                &&& requests[1].write == BucketWrite::PutVersioning(BucketVersioningStatus::Enabled)
                &&& requests[2].write is PutLifecycle
                &&& are_managed_rules(requests[2].write->PutLifecycle_0@, c.storage_tier)
                &&& requests[3].write is PutNotifications
                &&& requests[3].write->PutNotifications_0.event_bridge
                &&& requests[4].write is PutLogging
                &&& requests[5].write is PutInventory
                &&& requests[6].write is DeletePolicy
            }
            &&& kind == Type::Public ==> {
                &&& requests[7].write is PutPublicAccessBlock
                &&& requests[8].write == BucketWrite::PutPolicy(BucketPolicy::PublicRead)
            }
        }),
{
}

/// The access logs of a bucket go under `audit` in the managed bucket of its stack, to a place
/// with the name of the bucket.
pub proof fn setup_logs_to_the_managed_bucket(c: CreatorView, requests: Seq<BucketRequest>)
    requires
        sets_up(c, requests),
        c.bucket.bucket_type != Type::Replication,
    ensures
        requests[4].write is PutLogging,
        requests[4].write->PutLogging_0.target_bucket@ == c.stack + "-managed"@,
        requests[4].write->PutLogging_0.target_prefix@ == "audit"@ + "/"@ + c.bucket.name + "/"@,
{
}

/// The inventory of a bucket lists its current objects every day with their size, date, class and
/// replication, and goes under `manifests` in the managed bucket of its stack.
pub proof fn setup_lists_the_objects_daily(c: CreatorView, requests: Seq<BucketRequest>)
    requires
        sets_up(c, requests),
        c.bucket.bucket_type != Type::Replication,
    ensures
        requests[5].write is PutInventory,
        requests[5].write->id@ == "inventory"@,
        ({
            let inventory = requests[5].write->configuration;
            let d = inventory.destination->0.s3_bucket_destination->0;
            &&& inventory.id@ == "inventory"@
            &&& inventory.is_enabled
            &&& inventory.included_object_versions == InventoryIncludedObjectVersions::Current
            &&& inventory.schedule is Some
            &&& inventory.schedule->0.frequency == InventoryFrequency::Daily
            &&& inventory.destination is Some
            &&& inventory.destination->0.s3_bucket_destination is Some
            &&& d.bucket@ == "arn:aws:s3:::"@ + (c.stack + "-managed"@)
            &&& d.format == InventoryFormat::Parquet
            &&& d.prefix is Some && d.prefix->0@ == "manifests"@
            &&& d.account_id is Some && d.account_id->0@ == c.account_id
            &&& inventory.optional_fields@ == seq![
                InventoryOptionalField::Size,
                InventoryOptionalField::LastModifiedDate,
                InventoryOptionalField::StorageClass,
                InventoryOptionalField::ReplicationStatus,
            ]
        }),
{
}

/// A public bucket has every block on public access lifted, and then a policy under which
/// everybody can read.
pub proof fn public_bucket_is_opened(c: CreatorView, requests: Seq<BucketRequest>)
    requires
        sets_up(c, requests),
        c.bucket.bucket_type == Type::Public,
    ensures
        requests[7].write is PutPublicAccessBlock,
        requests[7].write->PutPublicAccessBlock_0.block_public_acls == Some(false),
        requests[7].write->PutPublicAccessBlock_0.ignore_public_acls == Some(false),
        requests[7].write->PutPublicAccessBlock_0.block_public_policy == Some(false),
        requests[7].write->PutPublicAccessBlock_0.restrict_public_buckets == Some(false),
        requests[8].write == BucketWrite::PutPolicy(BucketPolicy::PublicRead),
{
}

/// Replication copies the object under every key, and the markers of deleted objects, to the
/// replica: one rule, in force, in the name of the role of the installation.
pub proof fn replication_copies_every_object(
    c: CreatorView,
    replica: Seq<char>,
    r: BucketRequest,
    key: Seq<char>,
)
    requires
        enables_replication_to(c, replica, r),
    ensures
        r.bucket@ == c.bucket.name,
        r.context@ == "failed to enable replication from "@ + c.bucket.name + " to "@ + replica,
        r.write is PutReplication,
        ({
            let configuration = r.write->PutReplication_0;
            let rule = configuration.rules@[0];
            &&& configuration.role@ == c.replication_role_arn
            &&& configuration.rules@.len() == 1
            &&& rule.id is Some && rule.id->0@ == "ReplicateAll"@
            &&& rule.status == RuleStatus::Enabled
            &&& rule.priority == Some(1i32)
            &&& rule.filter is Some && rule.filter->0.prefix is Some
            &&& rule.filter->0.prefix->0@.is_prefix_of(key)
            &&& rule.destination is Some
            &&& rule.destination->0.bucket@ == "arn:aws:s3:::"@ + replica
            &&& !rule.destination->0.replication_time
            &&& !rule.destination->0.metrics
            &&& rule.delete_marker_replication is Some
            &&& rule.delete_marker_replication->0.status == Some(RuleStatus::Enabled)
        }),
{
    lemma_empty_prefix(r.write->PutReplication_0.rules@[0].filter->0.prefix->0@, key);
}

/// A failed request is reported with what it was to do and the name of the bucket.
pub proof fn failed_setup_names_the_request(c: CreatorView, requests: Seq<BucketRequest>)
    requires
        sets_up(c, requests),
    ensures
        ({
            let name = c.bucket.name;
            &&& c.bucket.bucket_type == Type::Replication ==> {
                &&& requests[0].context@ == "failed to enable versioning on "@ + name
                &&& requests[1].context@ == "failed to apply lifecycle policy "@ + name
            }
            &&& c.bucket.bucket_type != Type::Replication ==> {
                &&& requests[0].context@ == "failed to apply deny upload policy to "@ + name
                &&& requests[1].context@ == "failed to enable versioning on "@ + name
                &&& requests[2].context@ == "failed to apply lifecycle policy "@ + name
                &&& requests[3].context@ == "failed to enable notifications on "@ + name
                &&& requests[4].context@ == "failed to enable logging on "@ + name
                &&& requests[5].context@ == "failed to enable inventory on "@ + name
                &&& requests[6].context@ == "failed to remove deny upload policy from "@ + name
            }
            &&& c.bucket.bucket_type == Type::Public ==> {
                &&& requests[7].context@ == "failed to enable public access on "@ + name
                &&& requests[8].context@ == "failed to apply public access policy to "@ + name
            }
        }),
{
}

/// What undoes the creation of a bucket deletes that bucket.
pub proof fn rollback_deletes_the_bucket(c: CreatorView, r: BucketRequest)
    requires
        deletes(c, r),
    ensures
        r.bucket@ == c.bucket.name,
        r.write is Delete,
        r.context@ == "failed to delete bucket "@ + c.bucket.name,
{
}

} // verus!
