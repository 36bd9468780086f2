//! How the configuration of a bucket is compared with the one that it should have.
use vstd::prelude::*;
use vstd::string::*;

use crate::bucket;
use crate::bucket::{Bucket, Type};
use crate::bucket_config;
use crate::bucket_config::{
    BucketVersioningStatus, InventoryConfiguration, InventoryFrequency,
    InventoryIncludedObjectVersions, InventoryOptionalField, InventoryS3BucketDestination,
    LifecycleRule, LoggingEnabled, NotificationConfiguration, PublicAccessBlockConfiguration,
    ReplicationConfiguration, ReplicationRule, RuleStatus,
};
use crate::bucket_creator;
use crate::bucket_creator::{BucketCreatorParams, EXPIRE_RULE_ID, INVENTORY_FORMAT};
use crate::constants::{
    BUCKET_TAG_TRANSITION_STORAGE_CLASS_KEY, EXPIRE_ABORTED_MULTIPART_DAYS,
    EXPIRE_NONCURRENT_VERSION_DAYS, INVENTORY_ID, MANIFESTS_PREFIX, REPLICATION_RULE_ID,
    REPLICATION_RULE_PRIORITY, STORAGE_TRANSITION_DAYS,
};
use crate::errors;
use crate::errors::ServiceError;
use crate::reconcile_report;
use crate::reconcile_report::{ReconcileReport, StatusView, StepResult, StepStatus, StepView};
use crate::stack;
use crate::stack::Stack;
use crate::storage_class;
use crate::storage_class::TransitionStorageClass;
use crate::tags;
use crate::tags::Tag;
use crate::text;

verus! {

/// The tags of a bucket.
pub type TaggingReply = Result<Vec<Tag>, ServiceError>;

/// Whether a bucket keeps older versions, where it ever did.
pub type VersioningReply = Result<Option<BucketVersioningStatus>, ServiceError>;

/// The lifecycle rules of a bucket.
pub type LifecycleReply = Result<Vec<LifecycleRule>, ServiceError>;

/// How a bucket is replicated.
pub type ReplicationReply = Result<Option<ReplicationConfiguration>, ServiceError>;

/// Where the events of a bucket go.
pub type NotificationsReply = Result<NotificationConfiguration, ServiceError>;

/// Where the access logs of a bucket go.
pub type LoggingReply = Result<Option<LoggingEnabled>, ServiceError>;

/// The inventory of a bucket.
pub type InventoryReply = Result<Option<InventoryConfiguration>, ServiceError>;

/// What stands against public access to a bucket.
pub type PublicAccessBlockReply = Result<Option<PublicAccessBlockConfiguration>, ServiceError>;

/// Whether a bucket policy lets everybody read, or why that could not be found out.
pub type PolicyVerdict = Result<bool, String>;

/// The verdict on the policy of a bucket, where it has one.
pub type PolicyReply = Result<Option<PolicyVerdict>, ServiceError>;

/// What the storage service replied about a bucket.
#[derive(Debug)]
pub struct BucketReplies {
    pub tagging: TaggingReply,
    /// The lifecycle rules, read to find out the storage class that is not tagged.
    pub inference: LifecycleReply,
    pub versioning: VersioningReply,
    pub lifecycle: LifecycleReply,
    pub replication: ReplicationReply,
    pub notifications: NotificationsReply,
    pub logging: LoggingReply,
    pub inventory: InventoryReply,
    pub public_access_block: PublicAccessBlockReply,
    pub policy: PolicyReply,
}

/// Something to read about a bucket.
#[derive(Debug, Clone, Copy, PartialEq, Eq, Structural)]
pub enum BucketRead {
    Tagging,
    Versioning,
    Lifecycle,
    Replication,
    Notifications,
    Logging,
    Inventory,
    PublicAccessBlock,
    Policy,
}

/// Reads and compares bucket configuration against expected state.
/// For now this is a reporter-only: no writes are performed.
pub struct BucketReconciliator<'a> {
    account_id: &'a str,
    bucket: &'a Bucket,
    replication_bucket: Option<&'a Bucket>,
    replication_role_arn: &'a str,
    stack: &'a Stack,
}

/// What decides the expected state: the installation, the bucket, and the name of
/// its replica where there is one.
pub struct ReconciliatorView {
    pub account_id: Seq<char>,
    pub bucket: bucket::BucketView,
    pub replica: Option<Seq<char>>,
    pub replication_role_arn: Seq<char>,
    pub stack: Seq<char>,
}

/// The name of the bucket, where there is one.
pub open spec fn optional_name(bucket: Option<&Bucket>) -> Option<Seq<char>> {
    match bucket {
        Some(b) => Some(b@.name),
        None => None,
    }
}

impl<'a> View for BucketReconciliator<'a> {
    type V = ReconciliatorView;

    closed spec fn view(&self) -> ReconciliatorView {
        ReconciliatorView {
            account_id: self.account_id@,
            bucket: self.bucket@,
            replica: optional_name(self.replication_bucket),
            replication_role_arn: self.replication_role_arn@,
            stack: self.stack@,
        }
    }
}

/// The status of a step that matches or differs.
pub open spec fn judged(conforms: bool) -> StatusView {
    if conforms {
        StatusView::Conforms
    } else {
        StatusView::Drift
    }
}

fn judge(conforms: bool) -> (r: StepStatus)
    ensures
        r@ == judged(conforms),
{
    if conforms {
        StepStatus::Conforms
    } else {
        StepStatus::Drift
    }
}

/// The status of a step whose read failed: the codes in `absent` say that there is
/// no such configuration, which is a difference.
pub open spec fn unread(
    e: ServiceError,
    absent: Seq<&'static str>,
    operation: Seq<char>,
) -> StatusView {
    if e.has_code(absent) {
        StatusView::Drift
    } else {
        StatusView::Error(e.read_error(operation))
    }
}

fn judge_failure(e: &ServiceError, absent: &[&'static str], operation: &str) -> (r: StepStatus)
    ensures
        r@ == unread(*e, absent@, operation@),
{
    if errors::s3_error_has_code(e, absent) {
        StepStatus::Drift
    } else {
        StepStatus::Error(errors::s3_read_error(operation, e))
    }
}

/// The storage class that the tags name.
pub open spec fn tagged_class(tags: Seq<Tag>) -> Option<TransitionStorageClass> {
    match tags::tag_value(tags, BUCKET_TAG_TRANSITION_STORAGE_CLASS_KEY@) {
        Some(value) => storage_class::known_class(value),
        None => None,
    }
}

/// The storage class that the identifier of a lifecycle rule names.
pub open spec fn class_of_rule(rule: LifecycleRule) -> Option<TransitionStorageClass> {
    match rule.id {
        Some(id) => if id@ == EXPIRE_RULE_ID@ {
            None
        } else {
            storage_class::known_class(id@)
        },
        None => None,
    }
}

/// The storage class that the first rule named after one names.
pub open spec fn inferred_class(rules: Seq<LifecycleRule>) -> Option<TransitionStorageClass>
    decreases rules.len(),
{
    if rules.len() == 0 {
        None
    } else if class_of_rule(rules[0]) is Some {
        class_of_rule(rules[0])
    } else {
        inferred_class(rules.skip(1))
    }
}

/// The codes that say that a bucket has no tags.
pub open spec fn no_tags() -> Seq<&'static str> {
    seq!["NoSuchTagSet"]
}

/// The codes that say that a bucket has no lifecycle rules.
pub open spec fn no_lifecycle() -> Seq<&'static str> {
    seq!["NoSuchLifecycleConfiguration"]
}

/// The codes that say that a bucket is not replicated.
pub open spec fn no_replication() -> Seq<&'static str> {
    seq!["ReplicationConfigurationNotFoundError", "ReplicationConfigurationNotFound"]
}

/// The codes that say that a bucket has no inventory.
pub open spec fn no_inventory() -> Seq<&'static str> {
    seq!["NoSuchConfiguration", "NoSuchInventoryConfiguration"]
}

/// The codes that say that nothing stands against public access to a bucket.
pub open spec fn no_public_access_block() -> Seq<&'static str> {
    seq![
        "NoSuchPublicAccessBlockConfiguration",
        "NoSuchPublicAccessBlockConfigurationError",
    ]
}

/// The codes that say that a bucket has no policy.
pub open spec fn no_policy() -> Seq<&'static str> {
    seq!["NoSuchBucketPolicy"]
}

/// Whether the class has to be found out from the lifecycle rules: the tags could be
/// read, and name none.
pub open spec fn infers(tagging: TaggingReply) -> bool {
    tagging matches Ok(tags) && tagged_class(tags@) is None
}

/// The status of the tag with the storage class, and the class to expect: the tagged
/// one, else the one that the lifecycle rules show, else the default.
pub open spec fn resolution(
    bucket_type: Type,
    tagging: TaggingReply,
    inference: LifecycleReply,
) -> (StatusView, TransitionStorageClass) {
    let default = bucket_creator::default_class(bucket_type);
    match tagging {
        Err(e) => (unread(e, no_tags(), "get bucket tagging"@), default),
        Ok(tags) => match tagged_class(tags@) {
            Some(class) => (StatusView::Conforms, class),
            None => match inference {
                Err(e) => (
                    unread(
                        e,
                        no_lifecycle(),
                        "get lifecycle configuration (for transition-tag inference)"@,
                    ),
                    default,
                ),
                Ok(rules) => (
                    StatusView::Drift,
                    match inferred_class(rules@) {
                        Some(class) => class,
                        None => default,
                    },
                ),
            },
        },
    }
}

/// What the comparison of the versioning finds.
pub open spec fn versioning_status(reply: VersioningReply) -> StatusView {
    match reply {
        Ok(status) => judged(status == Some(BucketVersioningStatus::Enabled)),
        Err(e) => StatusView::Error(e.read_error("get versioning"@)),
    }
}

/// A rule, in force, that removes what is out of date after the expected times.
pub open spec fn expires_old_versions(rule: LifecycleRule) -> bool {
    &&& bucket_config::holds(rule.id, EXPIRE_RULE_ID@)
    &&& rule.status == RuleStatus::Enabled
    &&& rule.abort_incomplete_multipart_upload matches Some(abort)
    &&& abort.days_after_initiation == Some(EXPIRE_ABORTED_MULTIPART_DAYS as i32)
    &&& rule.noncurrent_version_expiration matches Some(noncurrent)
    &&& noncurrent.noncurrent_days == Some(EXPIRE_NONCURRENT_VERSION_DAYS as i32)
    &&& rule.expiration matches Some(expiration)
    &&& expiration.expired_object_delete_marker == Some(true)
}

/// A rule, in force, named after the class with the name `class`, that moves objects
/// to this class after the expected time and does not move them further.
pub open spec fn moves_objects_to(rule: LifecycleRule, class: Seq<char>) -> bool {
    &&& bucket_config::holds(rule.id, class)
    &&& rule.status == RuleStatus::Enabled
    &&& rule.transitions@.len() == 1
    &&& rule.transitions@[0].days == Some(STORAGE_TRANSITION_DAYS as i32)
    &&& rule.transitions@[0].storage_class matches Some(c)
    &&& c@ == class
}

/// Whether the expected rules are among `rules`.
pub open spec fn lifecycle_conforms(rules: Seq<LifecycleRule>, class: Seq<char>) -> bool {
    &&& exists|i: int| 0 <= i < rules.len() && expires_old_versions(#[trigger] rules[i])
    &&& exists|i: int| 0 <= i < rules.len() && moves_objects_to(#[trigger] rules[i], class)
}

/// What the comparison of the lifecycle rules finds, where objects should move to `class`.
pub open spec fn lifecycle_status(
    reply: LifecycleReply,
    class: TransitionStorageClass,
) -> StatusView {
    match reply {
        Ok(rules) => judged(lifecycle_conforms(rules@, class@)),
        Err(e) => unread(e, no_lifecycle(), "get lifecycle configuration"@),
    }
}

/// A rule, in force, that copies every object to `replica` as expected.
pub open spec fn replicates_to(rule: ReplicationRule, replica: Seq<char>) -> bool {
    &&& bucket_config::holds(rule.id, REPLICATION_RULE_ID@)
    &&& rule.status == RuleStatus::Enabled
    &&& rule.priority == Some(REPLICATION_RULE_PRIORITY)
    &&& rule.filter matches Some(filter)
    &&& bucket_config::holds(filter.prefix, ""@)
    &&& rule.destination matches Some(destination)
    &&& destination.bucket@ == bucket_config::bucket_arn(replica)
    &&& !destination.replication_time
    &&& !destination.metrics
    &&& rule.delete_marker_replication matches Some(markers)
    &&& markers.status == Some(RuleStatus::Enabled)
}

/// Whether the one rule of the configuration copies every object to `replica`, in the
/// name of the expected role.
pub open spec fn replication_conforms(
    configuration: ReplicationConfiguration,
    role: Seq<char>,
    replica: Seq<char>,
) -> bool {
    &&& configuration.role@ == role
    &&& configuration.rules@.len() == 1
    &&& replicates_to(configuration.rules@[0], replica)
}

/// What the comparison of the replication finds.
pub open spec fn replication_status(v: ReconciliatorView, reply: ReplicationReply) -> StatusView {
    match v.replica {
        None => StatusView::Error("no matching replication bucket found"@),
        Some(replica) => match reply {
            Ok(Some(configuration)) => judged(
                replication_conforms(configuration, v.replication_role_arn, replica),
            ),
            Ok(None) => StatusView::Drift,
            Err(e) => unread(e, no_replication(), "get replication configuration"@),
        },
    }
}

/// What the comparison of the notifications finds.
pub open spec fn notifications_status(reply: NotificationsReply) -> StatusView {
    match reply {
        Ok(notifications) => judged(notifications.event_bridge),
        Err(e) => StatusView::Error(e.read_error("get notifications"@)),
    }
}

/// Whether access logs go to the place that the stack keeps for them.
pub open spec fn logging_conforms(v: ReconciliatorView, logging: LoggingEnabled) -> bool {
    &&& logging.target_bucket@ == stack::logging_location(v.stack, v.bucket.name).bucket
    &&& logging.target_prefix@ == stack::logging_location(v.stack, v.bucket.name).key
}

/// What the comparison of the logging finds.
pub open spec fn logging_status(v: ReconciliatorView, reply: LoggingReply) -> StatusView {
    match reply {
        Ok(Some(logging)) => judged(logging_conforms(v, logging)),
        Ok(None) => StatusView::Drift,
        Err(e) => StatusView::Error(e.read_error("get logging"@)),
    }
}

/// Whether an inventory is written to the expected place in the expected format.
pub open spec fn inventory_destination_conforms(
    v: ReconciliatorView,
    destination: InventoryS3BucketDestination,
) -> bool {
    &&& destination.bucket@ == bucket_config::bucket_arn(stack::managed_bucket_name(v.stack))
    &&& destination.format == INVENTORY_FORMAT
    &&& bucket_config::holds(destination.prefix, MANIFESTS_PREFIX@)
    &&& bucket_config::holds(destination.account_id, v.account_id)
}

/// Whether the inventory is the expected one; it may have further columns.
pub open spec fn inventory_conforms(
    v: ReconciliatorView,
    inventory: InventoryConfiguration,
) -> bool {
    &&& inventory.is_enabled
    &&& inventory.id@ == INVENTORY_ID@
    &&& inventory.included_object_versions == InventoryIncludedObjectVersions::Current
    &&& inventory.schedule matches Some(schedule)
    &&& schedule.frequency == InventoryFrequency::Daily
    &&& inventory.destination matches Some(destination)
    &&& destination.s3_bucket_destination matches Some(d)
    &&& inventory_destination_conforms(v, d)
    &&& inventory.optional_fields@.contains(InventoryOptionalField::Size)
    &&& inventory.optional_fields@.contains(InventoryOptionalField::LastModifiedDate)
    &&& inventory.optional_fields@.contains(InventoryOptionalField::StorageClass)
    &&& inventory.optional_fields@.contains(InventoryOptionalField::ReplicationStatus)
}

/// What the comparison of the inventory finds.
pub open spec fn inventory_status(v: ReconciliatorView, reply: InventoryReply) -> StatusView {
    match reply {
        Ok(Some(inventory)) => judged(inventory_conforms(v, inventory)),
        Ok(None) => StatusView::Drift,
        Err(e) => unread(e, no_inventory(), "get inventory configuration"@),
    }
}

/// Whether every block on public access is lifted.
pub open spec fn public_access_conforms(block: PublicAccessBlockConfiguration) -> bool {
    &&& block.block_public_acls == Some(false)
    &&& block.ignore_public_acls == Some(false)
    &&& block.block_public_policy == Some(false)
    &&& block.restrict_public_buckets == Some(false)
}

/// What the comparison of the public access finds.
pub open spec fn public_access_status(reply: PublicAccessBlockReply) -> StatusView {
    match reply {
        Ok(Some(block)) => judged(public_access_conforms(block)),
        Ok(None) => StatusView::Drift,
        Err(e) => unread(e, no_public_access_block(), "get public access block"@),
    }
}

/// What the comparison of the policy finds.
pub open spec fn policy_status(reply: PolicyReply) -> StatusView {
    match reply {
        Ok(Some(Ok(public_read))) => judged(public_read),
        Ok(Some(Err(message))) => StatusView::Error(message@),
        Ok(None) => StatusView::Drift,
        Err(e) => unread(e, no_policy(), "get bucket policy"@),
    }
}

/// The steps for every kind of bucket.
pub open spec fn common_steps(v: ReconciliatorView, replies: BucketReplies) -> Seq<StepView> {
    let (status, class) = resolution(v.bucket.bucket_type, replies.tagging, replies.inference);
    seq![
        StepView { name: "transition-tag"@, status },
        StepView { name: "versioning"@, status: versioning_status(replies.versioning) },
        StepView { name: "lifecycle"@, status: lifecycle_status(replies.lifecycle, class) },
    ]
}

/// The further steps for a bucket that takes uploads.
pub open spec fn upload_steps(v: ReconciliatorView, replies: BucketReplies) -> Seq<StepView> {
    seq![
        StepView { name: "replication"@, status: replication_status(v, replies.replication) },
        StepView { name: "notifications"@, status: notifications_status(replies.notifications) },
        StepView { name: "logging"@, status: logging_status(v, replies.logging) },
        StepView { name: "inventory"@, status: inventory_status(v, replies.inventory) },
    ]
}

/// The further steps for a public bucket.
pub open spec fn public_steps(replies: BucketReplies) -> Seq<StepView> {
    seq![
        StepView {
            name: "public-access"@,
            status: public_access_status(replies.public_access_block),
        },
        StepView { name: "bucket-policy"@, status: policy_status(replies.policy) },
    ]
}

/// The steps for a bucket and what they find, in the order in which they are reported.
pub open spec fn reconciled_steps(v: ReconciliatorView, replies: BucketReplies) -> Seq<StepView> {
    match v.bucket.bucket_type {
        Type::Internal => seq![
            StepView {
                name: "setup"@,
                status: StatusView::Error(
                    "reconciliation not supported for "@ + Type::Internal@ + " buckets"@,
                ),
            },
        ],
        Type::Replication => common_steps(v, replies),
        Type::Standard => common_steps(v, replies) + upload_steps(v, replies),
        Type::Public => common_steps(v, replies) + upload_steps(v, replies) + public_steps(
            replies,
        ),
    }
}

/// What is read about a bucket, in this order. The lifecycle rules are read once more
/// behind the tags where `infers` says so.
pub open spec fn reads_for(v: ReconciliatorView) -> Seq<BucketRead> {
    let common = seq![BucketRead::Tagging, BucketRead::Versioning, BucketRead::Lifecycle];
    let replication = if v.replica is Some {
        seq![BucketRead::Replication]
    } else {
        Seq::empty()
    };
    let upload = replication + seq![
        BucketRead::Notifications,
        BucketRead::Logging,
        BucketRead::Inventory,
    ];
    match v.bucket.bucket_type {
        Type::Internal => Seq::empty(),
        Type::Replication => common,
        Type::Standard => common + upload,
        Type::Public => common + upload + seq![BucketRead::PublicAccessBlock, BucketRead::Policy],
    }
}

fn silence() -> (r: ServiceError)
    ensures
        r.code is None,
        r.message is None,
{
    ServiceError { code: None, message: None }
}

impl BucketReplies {
    /// Whether nothing was replied to anything: every read failed without a code and
    /// without a message.
    pub open spec fn all_unread(self) -> bool {
        let silent = ServiceError { code: None, message: None };
        &&& self.tagging == Err::<Vec<Tag>, ServiceError>(silent)
        &&& self.inference == Err::<Vec<LifecycleRule>, ServiceError>(silent)
        &&& self.versioning == Err::<Option<BucketVersioningStatus>, ServiceError>(silent)
        &&& self.lifecycle == Err::<Vec<LifecycleRule>, ServiceError>(silent)
        &&& self.replication == Err::<Option<ReplicationConfiguration>, ServiceError>(silent)
        &&& self.notifications == Err::<NotificationConfiguration, ServiceError>(silent)
        &&& self.logging == Err::<Option<LoggingEnabled>, ServiceError>(silent)
        &&& self.inventory == Err::<Option<InventoryConfiguration>, ServiceError>(silent)
        &&& self.public_access_block == Err::<
            Option<PublicAccessBlockConfiguration>,
            ServiceError,
        >(silent)
        &&& self.policy == Err::<Option<PolicyVerdict>, ServiceError>(silent)
    }

    /// The replies before anything is read.
    pub fn unread() -> (r: BucketReplies)
        ensures
            r.all_unread(),
    {
        BucketReplies {
            tagging: Err(silence()),
            inference: Err(silence()),
            versioning: Err(silence()),
            lifecycle: Err(silence()),
            replication: Err(silence()),
            notifications: Err(silence()),
            logging: Err(silence()),
            inventory: Err(silence()),
            public_access_block: Err(silence()),
            policy: Err(silence()),
        }
    }
}

fn rule_class(rule: &LifecycleRule) -> (r: Option<TransitionStorageClass>)
    ensures
        r == class_of_rule(*rule),
{
    match &rule.id {
        Some(id) => {
            // Skip the known expiration rule.
            if text::same(id.as_str(), EXPIRE_RULE_ID) {
                None
            } else {
                storage_class::parse_storage_class(id.as_str())
            }
        },
        None => None,
    }
}

/// The storage class that the first rule named after one names: the managed transition
/// rule has the name of its class as its identifier.
pub fn infer_transition_class(rules: &Vec<LifecycleRule>) -> (r: Option<TransitionStorageClass>)
    ensures
        r == inferred_class(rules@),
{
    let mut i: usize = 0;
    assert(rules@.skip(0) =~= rules@);
    while i < rules.len()
        invariant
            i <= rules@.len(),
            inferred_class(rules@) == inferred_class(rules@.skip(i as int)),
        decreases rules@.len() - i,
    {
        assert(rules@.skip(i as int).skip(1) =~= rules@.skip(i + 1));
        let class = rule_class(&rules[i]);
        if class.is_some() {
            return class;
        }
        i += 1;
    }
    None
}

fn is_expiration_rule(rule: &LifecycleRule) -> (r: bool)
    ensures
        r == expires_old_versions(*rule),
{
    let abort = match rule.abort_incomplete_multipart_upload {
        Some(abort) => abort.days_after_initiation == Some(EXPIRE_ABORTED_MULTIPART_DAYS as i32),
        None => false,
    };
    let noncurrent = match rule.noncurrent_version_expiration {
        Some(noncurrent) => noncurrent.noncurrent_days == Some(
            EXPIRE_NONCURRENT_VERSION_DAYS as i32,
        ),
        None => false,
    };
    let expiration = match rule.expiration {
        Some(expiration) => expiration.expired_object_delete_marker == Some(true),
        None => false,
    };
    text::same_option(&rule.id, EXPIRE_RULE_ID) && rule.status == RuleStatus::Enabled && abort
        && noncurrent && expiration
}

fn is_transition_rule(rule: &LifecycleRule, class: &str) -> (r: bool)
    ensures
        r == moves_objects_to(*rule, class@),
{
    if !text::same_option(&rule.id, class) || rule.status != RuleStatus::Enabled
        || rule.transitions.len() != 1 {
        return false;
    }
    let transition = &rule.transitions[0];
    match &transition.storage_class {
        Some(c) => {
            let name = c.as_str();
            transition.days == Some(STORAGE_TRANSITION_DAYS as i32) && text::same(
                name.as_str(),
                class,
            )
        },
        None => false,
    }
}

fn lifecycle_matches(rules: &Vec<LifecycleRule>, class: &str) -> (r: bool)
    ensures
        r == lifecycle_conforms(rules@, class@),
{
    let mut expire_ok = false;
    let mut transition_ok = false;
    let mut i: usize = 0;
    while i < rules.len()
        invariant
            i <= rules@.len(),
            expire_ok == exists|j: int| 0 <= j < i && expires_old_versions(#[trigger] rules@[j]),
            transition_ok == exists|j: int|
                0 <= j < i && moves_objects_to(#[trigger] rules@[j], class@),
        decreases rules@.len() - i,
    {
        let rule = &rules[i];
        if is_expiration_rule(rule) {
            expire_ok = true;
        }
        if is_transition_rule(rule, class) {
            transition_ok = true;
        }
        i += 1;
    }
    expire_ok && transition_ok
}

fn is_replication_rule(rule: &ReplicationRule, replica: &str) -> (r: bool)
    ensures
        r == replicates_to(*rule, replica@),
{
    let filter = match &rule.filter {
        Some(filter) => text::same_option(&filter.prefix, ""),
        None => false,
    };
    let destination = match &rule.destination {
        Some(destination) => {
            let arn = bucket_config::arn_of_bucket(replica);
            text::same(destination.bucket.as_str(), arn.as_str()) && !destination.replication_time
                && !destination.metrics
        },
        None => false,
    };
    let markers = match rule.delete_marker_replication {
        Some(markers) => markers.status == Some(RuleStatus::Enabled),
        None => false,
    };
    text::same_option(&rule.id, REPLICATION_RULE_ID) && rule.status == RuleStatus::Enabled
        && rule.priority == Some(REPLICATION_RULE_PRIORITY) && filter && destination && markers
}

fn has_field(fields: &Vec<InventoryOptionalField>, field: InventoryOptionalField) -> (r: bool)
    ensures
        r == fields@.contains(field),
{
    let mut i: usize = 0;
    while i < fields.len()
        invariant
            i <= fields@.len(),
            forall|j: int| 0 <= j < i ==> fields@[j] != field,
        decreases fields@.len() - i,
    {
        if fields[i] == field {
            return true;
        }
        i += 1;
    }
    false
}

impl<'a> BucketReconciliator<'a> {
    pub fn new(
        params: &BucketCreatorParams<'a>,
        bucket: &'a Bucket,
        replication_bucket: Option<&'a Bucket>,
    ) -> (r: BucketReconciliator<'a>)
        ensures
            r@ == (ReconciliatorView {
                account_id: params.account_id@,
                bucket: bucket@,
                replica: optional_name(replication_bucket),
                replication_role_arn: params.replication_role_arn@,
                stack: params.stack@,
            }),
    {
        BucketReconciliator {
            account_id: params.account_id,
            bucket,
            replication_bucket,
            replication_role_arn: params.replication_role_arn,
            stack: params.stack,
        }
    }

    /// What has to be read about the bucket, in this order. Where `infers_class` says so,
    /// the lifecycle rules are read once more behind the tags.
    pub fn reads(&self) -> (r: Vec<BucketRead>)
        ensures
            r@ == reads_for(self@),
    {
        let mut reads: Vec<BucketRead> = Vec::new();
        let bucket_type = *self.bucket.bucket_type();
        if bucket_type != Type::Internal {
            reads.push(BucketRead::Tagging);
            reads.push(BucketRead::Versioning);
            reads.push(BucketRead::Lifecycle);
            if bucket_type != Type::Replication {
                if self.replication_bucket.is_some() {
                    reads.push(BucketRead::Replication);
                }
                reads.push(BucketRead::Notifications);
                reads.push(BucketRead::Logging);
                reads.push(BucketRead::Inventory);
                if bucket_type == Type::Public {
                    reads.push(BucketRead::PublicAccessBlock);
                    reads.push(BucketRead::Policy);
                }
            }
        }
        assert(reads@ =~= reads_for(self@));
        reads
    }

    /// Whether the class has to be found out from the lifecycle rules.
    pub fn infers_class(&self, tagging: &TaggingReply) -> (r: bool)
        ensures
            r == infers(*tagging),
    {
        match tagging {
            Ok(tags) => class_in_tags(tags).is_none(),
            Err(_) => false,
        }
    }

    /// Compares the bucket with the expected state.
    pub fn reconcile(&self, replies: &BucketReplies) -> (r: ReconcileReport)
        ensures
            r.bucket_name@ == self@.bucket.name,
            r.bucket_type == self@.bucket.bucket_type,
            reconcile_report::step_views(r.steps@) == reconciled_steps(self@, *replies),
    {
        let steps = match self.bucket.bucket_type() {
            Type::Standard => self.reconcile_standard(replies),
            Type::Public => self.reconcile_public(replies),
            Type::Replication => self.reconcile_replication(replies),
            Type::Internal => {
                let mut steps: Vec<StepResult> = Vec::new();
                steps.push(
                    StepResult {
                        name: "setup",
                        status: StepStatus::Error(
                            text::join3(
                                "reconciliation not supported for ",
                                self.bucket.bucket_type().as_str(),
                                " buckets",
                            ),
                        ),
                    },
                );
                steps
            },
        };
        assert(reconcile_report::step_views(steps@) =~= reconciled_steps(self@, *replies));
        ReconcileReport {
            bucket_name: String::from_str(self.bucket.name()),
            bucket_type: *self.bucket.bucket_type(),
            steps,
        }
    }

    fn reconcile_standard(&self, replies: &BucketReplies) -> (r: Vec<StepResult>)
        ensures
            reconcile_report::step_views(r@) == common_steps(self@, *replies) + upload_steps(
                self@,
                *replies,
            ),
    {
        let mut steps = self.reconcile_replication(replies);
        steps.push(self.check_replication_config(&replies.replication));
        steps.push(self.check_notifications(&replies.notifications));
        steps.push(self.check_logging(&replies.logging));
        steps.push(self.check_inventory(&replies.inventory));
        assert(reconcile_report::step_views(steps@) =~= common_steps(self@, *replies)
            + upload_steps(self@, *replies)) by {
            let views = reconcile_report::step_views(steps@);
            assert(views.take(3) =~= common_steps(self@, *replies));
            assert(views.skip(3) =~= upload_steps(self@, *replies));
        }
        steps
    }

    fn reconcile_public(&self, replies: &BucketReplies) -> (r: Vec<StepResult>)
        ensures
            reconcile_report::step_views(r@) == common_steps(self@, *replies) + upload_steps(
                self@,
                *replies,
            ) + public_steps(*replies),
    {
        let mut steps = self.reconcile_standard(replies);
        let ghost standard = steps@;
        steps.push(self.check_public_access_block(&replies.public_access_block));
        steps.push(self.check_bucket_policy(&replies.policy));
        assert(reconcile_report::step_views(steps@) =~= reconcile_report::step_views(standard)
            + public_steps(*replies));
        steps
    }

    fn reconcile_replication(&self, replies: &BucketReplies) -> (r: Vec<StepResult>)
        ensures
            reconcile_report::step_views(r@) == common_steps(self@, *replies),
    {
        let (tag_result, resolved_class) = self.check_transition_class_tag(
            &replies.tagging,
            &replies.inference,
        );
        let mut steps: Vec<StepResult> = Vec::new();
        steps.push(tag_result);
        steps.push(self.check_versioning(&replies.versioning));
        steps.push(self.check_lifecycle(&replies.lifecycle, &resolved_class));
        assert(reconcile_report::step_views(steps@) =~= common_steps(self@, *replies));
        steps
    }

    /// Resolve the expected transition storage class from the bucket tags.
    /// Returns the step result and the resolved class for downstream use.
    pub fn check_transition_class_tag(
        &self,
        tagging: &TaggingReply,
        inference: &LifecycleReply,
    ) -> (r: (StepResult, TransitionStorageClass))
        ensures
            r.0.name@ == "transition-tag"@,
            (r.0.status@, r.1) == resolution(self@.bucket.bucket_type, *tagging, *inference),
    {
        let default_class = bucket_creator::default_storage_class(self.bucket.bucket_type());
        let no_tags = ["NoSuchTagSet"];
        let no_lifecycle = ["NoSuchLifecycleConfiguration"];
        assert(no_tags@ =~= self::no_tags());
        assert(no_lifecycle@ =~= self::no_lifecycle());
        let (status, class) = match tagging {
            // No tags at all resolve to the default, and are a difference.
            Err(e) => (judge_failure(e, &no_tags, "get bucket tagging"), default_class),
            Ok(tags) => match class_in_tags(tags) {
                Some(class) => (StepStatus::Conforms, class),
                // The tag is missing or names no class.
                None => match inference {
                    Err(e) => (
                        judge_failure(
                            e,
                            &no_lifecycle,
                            "get lifecycle configuration (for transition-tag inference)",
                        ),
                        default_class,
                    ),
                    Ok(rules) => match infer_transition_class(rules) {
                        Some(class) => (StepStatus::Drift, class),
                        None => (StepStatus::Drift, default_class),
                    },
                },
            },
        };
        (StepResult { name: "transition-tag", status }, class)
    }

    pub fn check_versioning(&self, reply: &VersioningReply) -> (r: StepResult)
        ensures
            r@ == (StepView { name: "versioning"@, status: versioning_status(*reply) }),
    {
        let status = match reply {
            Ok(status) => judge(*status == Some(BucketVersioningStatus::Enabled)),
            Err(e) => StepStatus::Error(errors::s3_read_error("get versioning", e)),
        };
        StepResult { name: "versioning", status }
    }

    pub fn check_lifecycle(
        &self,
        reply: &LifecycleReply,
        expected_class: &TransitionStorageClass,
    ) -> (r: StepResult)
        ensures
            r@ == (StepView {
                name: "lifecycle"@,
                status: lifecycle_status(*reply, *expected_class),
            }),
    {
        let absent = ["NoSuchLifecycleConfiguration"];
        assert(absent@ =~= no_lifecycle());
        let status = match reply {
            Ok(rules) => {
                let class = expected_class.as_str();
                judge(lifecycle_matches(rules, class.as_str()))
            },
            Err(e) => judge_failure(e, &absent, "get lifecycle configuration"),
        };
        StepResult { name: "lifecycle", status }
    }

    pub fn check_replication_config(&self, reply: &ReplicationReply) -> (r: StepResult)
        ensures
            r@ == (StepView { name: "replication"@, status: replication_status(self@, *reply) }),
    {
        let status = match self.replication_bucket {
            None => StepStatus::Error(String::from_str("no matching replication bucket found")),
            Some(replica) => match reply {
                Ok(Some(configuration)) => judge(
                    text::same(configuration.role.as_str(), self.replication_role_arn)
                        && configuration.rules.len() == 1 && is_replication_rule(
                        &configuration.rules[0],
                        replica.name(),
                    ),
                ),
                Ok(None) => StepStatus::Drift,
                Err(e) => judge_failure(
                    e,
                    &["ReplicationConfigurationNotFoundError", "ReplicationConfigurationNotFound"],
                    "get replication configuration",
                ),
            },
        };
        StepResult { name: "replication", status }
    }

    pub fn check_notifications(&self, reply: &NotificationsReply) -> (r: StepResult)
        ensures
            r@ == (StepView { name: "notifications"@, status: notifications_status(*reply) }),
    {
        let status = match reply {
            Ok(notifications) => judge(notifications.event_bridge),
            Err(e) => StepStatus::Error(errors::s3_read_error("get notifications", e)),
        };
        StepResult { name: "notifications", status }
    }

    pub fn check_logging(&self, reply: &LoggingReply) -> (r: StepResult)
        ensures
            r@ == (StepView { name: "logging"@, status: logging_status(self@, *reply) }),
    {
        let status = match reply {
            Ok(Some(logging)) => {
                let expected = self.stack.logging_prefix_path(self.bucket.name());
                judge(
                    text::same(logging.target_bucket.as_str(), expected.bucket()) && text::same(
                        logging.target_prefix.as_str(),
                        expected.key(),
                    ),
                )
            },
            Ok(None) => StepStatus::Drift,
            Err(e) => StepStatus::Error(errors::s3_read_error("get logging", e)),
        };
        StepResult { name: "logging", status }
    }

    fn is_inventory_destination(&self, destination: &InventoryS3BucketDestination) -> (r: bool)
        ensures
            r == inventory_destination_conforms(self@, *destination),
    {
        let managed = self.stack.managed_bucket();
        let arn = bucket_config::arn_of_bucket(managed.as_str());
        text::same(destination.bucket.as_str(), arn.as_str()) && destination.format
            == INVENTORY_FORMAT && text::same_option(&destination.prefix, MANIFESTS_PREFIX)
            && text::same_option(&destination.account_id, self.account_id)
    }

    fn is_inventory(&self, inventory: &InventoryConfiguration) -> (r: bool)
        ensures
            r == inventory_conforms(self@, *inventory),
    {
        let schedule = match inventory.schedule {
            Some(schedule) => schedule.frequency == InventoryFrequency::Daily,
            None => false,
        };
        let destination = match &inventory.destination {
            Some(destination) => match &destination.s3_bucket_destination {
                Some(d) => self.is_inventory_destination(d),
                None => false,
            },
            None => false,
        };
        let fields = &inventory.optional_fields;
        inventory.is_enabled && text::same(inventory.id.as_str(), INVENTORY_ID)
            && inventory.included_object_versions == InventoryIncludedObjectVersions::Current
            && schedule && destination && has_field(fields, InventoryOptionalField::Size)
            && has_field(fields, InventoryOptionalField::LastModifiedDate) && has_field(
            fields,
            InventoryOptionalField::StorageClass,
        ) && has_field(fields, InventoryOptionalField::ReplicationStatus)
    }

    pub fn check_inventory(&self, reply: &InventoryReply) -> (r: StepResult)
        ensures
            r@ == (StepView { name: "inventory"@, status: inventory_status(self@, *reply) }),
    {
        let status = match reply {
            Ok(Some(inventory)) => judge(self.is_inventory(inventory)),
            Ok(None) => StepStatus::Drift,
            Err(e) => judge_failure(
                e,
                &["NoSuchConfiguration", "NoSuchInventoryConfiguration"],
                "get inventory configuration",
            ),
        };
        StepResult { name: "inventory", status }
    }

    pub fn check_public_access_block(&self, reply: &PublicAccessBlockReply) -> (r: StepResult)
        ensures
            r@ == (StepView { name: "public-access"@, status: public_access_status(*reply) }),
    {
        let status = match reply {
            Ok(Some(block)) => judge(
                block.block_public_acls == Some(false) && block.ignore_public_acls == Some(false)
                    && block.block_public_policy == Some(false) && block.restrict_public_buckets
                    == Some(false),
            ),
            Ok(None) => StepStatus::Drift,
            Err(e) => judge_failure(
                e,
                &[
                    "NoSuchPublicAccessBlockConfiguration",
                    "NoSuchPublicAccessBlockConfigurationError",
                ],
                "get public access block",
            ),
        };
        StepResult { name: "public-access", status }
    }

    pub fn check_bucket_policy(&self, reply: &PolicyReply) -> (r: StepResult)
        ensures
            r@ == (StepView { name: "bucket-policy"@, status: policy_status(*reply) }),
    {
        let absent = ["NoSuchBucketPolicy"];
        assert(absent@ =~= no_policy());
        let status = match reply {
            Ok(Some(Ok(public_read))) => judge(*public_read),
            Ok(Some(Err(message))) => StepStatus::Error(message.clone()),
            Ok(None) => StepStatus::Drift,
            Err(e) => judge_failure(e, &absent, "get bucket policy"),
        };
        StepResult { name: "bucket-policy", status }
    }
}

fn class_in_tags(tags: &Vec<Tag>) -> (r: Option<TransitionStorageClass>)
    ensures
        r == tagged_class(tags@),
{
    match tags::find_tag(tags.as_slice(), BUCKET_TAG_TRANSITION_STORAGE_CLASS_KEY) {
        Some(value) => storage_class::parse_storage_class(value),
        None => None,
    }
}

/// A bucket that takes uploads is compared in seven respects, a public one in two more, a replica
/// in the first three, and an internal one in none; every comparison is about the reply to its own
/// read, and the lifecycle is held against the class that the tags and the rules give.
pub proof fn report_has_the_steps_of_the_kind(v: ReconciliatorView, replies: BucketReplies)
    ensures
        ({
            let steps = reconciled_steps(v, replies);
            let kind = v.bucket.bucket_type;
            let (tag, class) = resolution(kind, replies.tagging, replies.inference);
            &&& kind == Type::Internal ==> steps == seq![
                StepView {
                    name: "setup"@,
                    status: StatusView::Error(
                        "reconciliation not supported for "@ + "internal"@ + " buckets"@,
                    ),
                },
            ]
            &&& kind == Type::Replication ==> steps.len() == 3
            &&& kind == Type::Standard ==> steps.len() == 7
            &&& kind == Type::Public ==> steps.len() == 9
            &&& kind != Type::Internal ==> {
                &&& steps[0].name == "transition-tag"@ && steps[0].status == tag
                &&& steps[1].name == "versioning"@ && steps[1].status == versioning_status(
                    replies.versioning,
                )
                &&& steps[2].name == "lifecycle"@ && steps[2].status == lifecycle_status(
                    replies.lifecycle,
                    class,
                )
            }
            &&& kind == Type::Standard || kind == Type::Public ==> {
                &&& steps[3].name == "replication"@ && steps[3].status == replication_status(
                    v,
                    replies.replication,
                )
                &&& steps[4].name == "notifications"@ && steps[4].status == notifications_status(
                    replies.notifications,
                )
                &&& steps[5].name == "logging"@ && steps[5].status == logging_status(
                    v,
                    replies.logging,
                )
                &&& steps[6].name == "inventory"@ && steps[6].status == inventory_status(
                    v,
                    replies.inventory,
                )
            }
            &&& kind == Type::Public ==> {
                &&& steps[7].name == "public-access"@ && steps[7].status == public_access_status(
                    replies.public_access_block,
                )
                &&& steps[8].name == "bucket-policy"@ && steps[8].status == policy_status(
                    replies.policy,
                )
            }
        }),
{
}

/// A replication configuration conforms exactly where it has one rule, that rule is in force and
/// copies the objects under every key, with the markers of deleted ones, to the replica in the
/// name of the expected role; every other configuration, and none at all, is a difference.
pub proof fn replication_conforms_where_everything_is_copied(
    v: ReconciliatorView,
    replica: Seq<char>,
    c: ReplicationConfiguration,
)
    requires
        v.replica == Some(replica),
    ensures
        replication_status(v, Ok(Some(c))) == StatusView::Conforms <==> {
            let rule = c.rules@[0];
            &&& c.role@ == v.replication_role_arn
            &&& c.rules@.len() == 1
            &&& rule.status == RuleStatus::Enabled
            &&& rule.id is Some && rule.id->0@ == "ReplicateAll"@
            &&& rule.priority == Some(1i32)
            &&& rule.filter is Some && rule.filter->0.prefix is Some
            &&& forall|key: Seq<char>| #[trigger] rule.filter->0.prefix->0@.is_prefix_of(key)
            &&& rule.destination is Some
            &&& rule.destination->0.bucket@ == "arn:aws:s3:::"@ + replica
            &&& !rule.destination->0.replication_time
            &&& !rule.destination->0.metrics
            &&& rule.delete_marker_replication is Some
            &&& rule.delete_marker_replication->0.status == Some(RuleStatus::Enabled)
        },
        replication_status(v, Ok(Some(c))) == StatusView::Conforms || replication_status(
            v,
            Ok(Some(c)),
        ) == StatusView::Drift,
        replication_status(v, Ok(None)) == StatusView::Drift,
{
    reveal_strlit("");
    let rule = c.rules@[0];
    if rule.filter is Some && rule.filter->0.prefix is Some {
        let prefix = rule.filter->0.prefix->0@;
        if prefix == ""@ {
            assert forall|key: Seq<char>| #[trigger] prefix.is_prefix_of(key) by {
                assert(prefix =~= key.subrange(0, 0));
            }
        }
        if forall|key: Seq<char>| #[trigger] prefix.is_prefix_of(key) {
            assert(prefix.is_prefix_of(Seq::<char>::empty()));
            assert(prefix =~= ""@);
        }
    }
}

/// A bucket without a replica cannot be compared, whatever was read.
pub proof fn missing_replica_is_an_error(v: ReconciliatorView, reply: ReplicationReply)
    requires
        v.replica is None,
    ensures
        replication_status(v, reply) == StatusView::Error("no matching replication bucket found"@),
{
}

/// Lifecycle rules conform exactly where one of them, in force, removes unfinished uploads after
/// three days, older versions after fourteen and idle markers of deleted objects, and one, in
/// force and named after the expected class, moves objects to that class after three days and no
/// further.
pub proof fn lifecycle_conforms_where_objects_move_and_expire(
    rules: Vec<LifecycleRule>,
    class: TransitionStorageClass,
)
    ensures
        lifecycle_status(Ok(rules), class) == StatusView::Conforms <==> {
            &&& exists|i: int|
                {
                    let rule = #[trigger] rules@[i];
                    &&& 0 <= i < rules@.len()
                    &&& rule.id is Some && rule.id->0@ == "ExpireOldVersions"@
                    &&& rule.status == RuleStatus::Enabled
                    &&& rule.abort_incomplete_multipart_upload is Some
                    &&& rule.abort_incomplete_multipart_upload->0.days_after_initiation == Some(
                        3i32,
                    )
                    &&& rule.noncurrent_version_expiration is Some
                    &&& rule.noncurrent_version_expiration->0.noncurrent_days == Some(14i32)
                    &&& rule.expiration is Some
                    &&& rule.expiration->0.expired_object_delete_marker == Some(true)
                }
            &&& exists|i: int|
                {
                    let rule = #[trigger] rules@[i];
                    &&& 0 <= i < rules@.len()
                    &&& rule.id is Some && rule.id->0@ == class@
                    &&& rule.status == RuleStatus::Enabled
                    &&& rule.transitions@.len() == 1
                    &&& rule.transitions@[0].days == Some(3i32)
                    &&& rule.transitions@[0].storage_class is Some
                    &&& (rule.transitions@[0].storage_class->0)@ == class@
                }
        },
        lifecycle_status(Ok(rules), class) == StatusView::Conforms || lifecycle_status(
            Ok(rules),
            class,
        ) == StatusView::Drift,
{
    if exists|i: int|
        0 <= i < rules@.len() && expires_old_versions(#[trigger] rules@[i]) {
        let i = choose|i: int| 0 <= i < rules@.len() && expires_old_versions(#[trigger] rules@[i]);
        let rule = rules@[i];
        assert(rule.abort_incomplete_multipart_upload->0.days_after_initiation == Some(3i32));
        assert(rule.noncurrent_version_expiration->0.noncurrent_days == Some(14i32));
    }
    if exists|i: int|
        0 <= i < rules@.len() && moves_objects_to(#[trigger] rules@[i], class@) {
        let i = choose|i: int|
            0 <= i < rules@.len() && moves_objects_to(#[trigger] rules@[i], class@);
        assert(rules@[i].transitions@[0].days == Some(3i32));
    }
}

/// The other comparisons of a bucket that takes uploads: versions are kept, events go to the event
/// bus, and access logs go to the place under `audit` that the managed bucket of the stack has for
/// the bucket. Everything else that was read is a difference.
pub proof fn plain_settings_conform_where_they_are_on(
    v: ReconciliatorView,
    versioning: Option<BucketVersioningStatus>,
    notifications: NotificationConfiguration,
    logging: Option<LoggingEnabled>,
)
    ensures
        versioning_status(Ok(versioning)) == (if versioning == Some(
            BucketVersioningStatus::Enabled,
        ) {
            StatusView::Conforms
        } else {
            StatusView::Drift
        }),
        notifications_status(Ok(notifications)) == (if notifications.event_bridge {
            StatusView::Conforms
        } else {
            StatusView::Drift
        }),
        logging_status(v, Ok(logging)) == (if logging is Some && logging->0.target_bucket@
            == v.stack + "-managed"@ && logging->0.target_prefix@ == "audit"@ + "/"@
            + v.bucket.name + "/"@ {
            StatusView::Conforms
        } else {
            StatusView::Drift
        }),
{
}

/// An inventory conforms exactly where it is in force, lists the current objects every day with
/// the four expected columns and perhaps others, and is written as Parquet under `manifests` in
/// the managed bucket of the stack, in the account of the installation; none is a difference.
pub proof fn inventory_conforms_where_objects_are_listed_daily(
    v: ReconciliatorView,
    inventory: InventoryConfiguration,
)
    ensures
        inventory_status(v, Ok(Some(inventory))) == StatusView::Conforms <==> {
            let d = inventory.destination->0.s3_bucket_destination->0;
            &&& inventory.is_enabled
            &&& inventory.id@ == "inventory"@
            &&& inventory.included_object_versions == InventoryIncludedObjectVersions::Current
            &&& inventory.schedule is Some
            &&& inventory.schedule->0.frequency == InventoryFrequency::Daily
            &&& inventory.destination is Some
            &&& inventory.destination->0.s3_bucket_destination is Some
            &&& d.bucket@ == "arn:aws:s3:::"@ + (v.stack + "-managed"@)
            &&& d.format == bucket_config::InventoryFormat::Parquet
            &&& d.prefix is Some && d.prefix->0@ == "manifests"@
            &&& d.account_id is Some && d.account_id->0@ == v.account_id
            &&& forall|field: InventoryOptionalField|
                field != InventoryOptionalField::Other
                    ==> #[trigger] inventory.optional_fields@.contains(field)
        },
        inventory_status(v, Ok(Some(inventory))) == StatusView::Conforms || inventory_status(
            v,
            Ok(Some(inventory)),
        ) == StatusView::Drift,
        inventory_status(v, Ok(None)) == StatusView::Drift,
{
}

/// A public bucket conforms exactly where each of the four blocks on public access is lifted, and
/// where its policy lets everybody read. A block or a policy that is missing is a difference, and
/// a policy that could not be judged is an error with the reason.
pub proof fn public_bucket_conforms_where_everybody_can_read(
    block: PublicAccessBlockConfiguration,
    public_read: bool,
    reason: String,
)
    ensures
        public_access_status(Ok(Some(block))) == (if block.block_public_acls == Some(false)
            && block.ignore_public_acls == Some(false) && block.block_public_policy == Some(false)
            && block.restrict_public_buckets == Some(false) {
            StatusView::Conforms
        } else {
            StatusView::Drift
        }),
        public_access_status(Ok(None)) == StatusView::Drift,
        policy_status(Ok(Some(Ok(public_read)))) == (if public_read {
            StatusView::Conforms
        } else {
            StatusView::Drift
        }),
        policy_status(Ok(Some(Err(reason)))) == StatusView::Error(reason@),
        policy_status(Ok(None)) == StatusView::Drift,
{
}

proof fn lemma_codes(e: ServiceError)
    ensures
        e.has_code(no_tags()) <==> e.code is Some && e.code->0@ == "NoSuchTagSet"@,
        e.has_code(no_lifecycle()) <==> e.code is Some && e.code->0@
            == "NoSuchLifecycleConfiguration"@,
        e.has_code(no_replication()) <==> e.code is Some && (e.code->0@
            == "ReplicationConfigurationNotFoundError"@ || e.code->0@
            == "ReplicationConfigurationNotFound"@),
        e.has_code(no_inventory()) <==> e.code is Some && (e.code->0@ == "NoSuchConfiguration"@
            || e.code->0@ == "NoSuchInventoryConfiguration"@),
        e.has_code(no_public_access_block()) <==> e.code is Some && (e.code->0@
            == "NoSuchPublicAccessBlockConfiguration"@ || e.code->0@
            == "NoSuchPublicAccessBlockConfigurationError"@),
        e.has_code(no_policy()) <==> e.code is Some && e.code->0@ == "NoSuchBucketPolicy"@,
{
    assert(no_tags()[0]@ == "NoSuchTagSet"@);
    assert(no_lifecycle()[0]@ == "NoSuchLifecycleConfiguration"@);
    assert(no_replication()[0]@ == "ReplicationConfigurationNotFoundError"@);
    assert(no_replication()[1]@ == "ReplicationConfigurationNotFound"@);
    assert(no_inventory()[0]@ == "NoSuchConfiguration"@);
    assert(no_inventory()[1]@ == "NoSuchInventoryConfiguration"@);
    assert(no_public_access_block()[0]@ == "NoSuchPublicAccessBlockConfiguration"@);
    assert(no_public_access_block()[1]@ == "NoSuchPublicAccessBlockConfigurationError"@);
    assert(no_policy()[0]@ == "NoSuchBucketPolicy"@);
}

/// A read that failed is never taken for a match: it is a difference where its code says that
/// there is no such configuration, and else an error that names the read.
pub proof fn failed_read_never_conforms(
    v: ReconciliatorView,
    class: TransitionStorageClass,
    e: ServiceError,
)
    ensures
        versioning_status(Err(e)) == StatusView::Error(e.read_error("get versioning"@)),
        notifications_status(Err(e)) == StatusView::Error(e.read_error("get notifications"@)),
        logging_status(v, Err(e)) == StatusView::Error(e.read_error("get logging"@)),
        lifecycle_status(Err(e), class) == (if e.code is Some && e.code->0@
            == "NoSuchLifecycleConfiguration"@ {
            StatusView::Drift
        } else {
            StatusView::Error(e.read_error("get lifecycle configuration"@))
        }),
        v.replica is Some ==> replication_status(v, Err(e)) == (if e.code is Some && (e.code->0@
            == "ReplicationConfigurationNotFoundError"@ || e.code->0@
            == "ReplicationConfigurationNotFound"@) {
            StatusView::Drift
        } else {
            StatusView::Error(e.read_error("get replication configuration"@))
        }),
        inventory_status(v, Err(e)) == (if e.code is Some && (e.code->0@ == "NoSuchConfiguration"@
            || e.code->0@ == "NoSuchInventoryConfiguration"@) {
            StatusView::Drift
        } else {
            StatusView::Error(e.read_error("get inventory configuration"@))
        }),
        public_access_status(Err(e)) == (if e.code is Some && (e.code->0@
            == "NoSuchPublicAccessBlockConfiguration"@ || e.code->0@
            == "NoSuchPublicAccessBlockConfigurationError"@) {
            StatusView::Drift
        } else {
            StatusView::Error(e.read_error("get public access block"@))
        }),
        policy_status(Err(e)) == (if e.code is Some && e.code->0@ == "NoSuchBucketPolicy"@ {
            StatusView::Drift
        } else {
            StatusView::Error(e.read_error("get bucket policy"@))
        }),
{
    lemma_codes(e);
}

/// The expected class is the one in the first tag with the key `TransitionStorageClass`, where
/// the tag names a class, and only then does the tag conform.
pub proof fn tagged_class_is_expected(
    bucket_type: Type,
    tags: Vec<Tag>,
    inference: LifecycleReply,
    i: int,
    class: TransitionStorageClass,
)
    requires
        0 <= i < tags@.len(),
        tags@[i].key@ == "TransitionStorageClass"@,
        forall|n: int| 0 <= n < i ==> (#[trigger] tags@[n]).key@ != "TransitionStorageClass"@,
    ensures
        resolution(bucket_type, Ok(tags), inference) == (StatusView::Conforms, class)
            <==> storage_class::known_class(tags@[i].value@) == Some(class),
        infers(Ok(tags)) <==> storage_class::known_class(tags@[i].value@) is None,
{
    tags::first_tag_is_found(tags@, "TransitionStorageClass"@);
}

/// Without the tag the class has to be found out, and the tag does not conform.
pub proof fn missing_class_tag_never_conforms(
    bucket_type: Type,
    tags: Vec<Tag>,
    inference: LifecycleReply,
)
    requires
        forall|n: int|
            0 <= n < tags@.len() ==> (#[trigger] tags@[n]).key@ != "TransitionStorageClass"@,
    ensures
        infers(Ok(tags)),
        resolution(bucket_type, Ok(tags), inference).0 != StatusView::Conforms,
{
    tags::first_tag_is_found(tags@, "TransitionStorageClass"@);
}

/// Where the tags name no class, the first lifecycle rule whose identifier is the name of one
/// shows the class to expect.
pub proof fn first_rule_named_after_a_class_shows_it(
    bucket_type: Type,
    tagging: TaggingReply,
    rules: Vec<LifecycleRule>,
    i: int,
)
    requires
        infers(tagging),
        0 <= i < rules@.len(),
        rules@[i].id is Some,
        storage_class::known_class(rules@[i].id->0@) is Some,
        forall|n: int|
            0 <= n < i ==> (#[trigger] rules@[n]).id is None || storage_class::known_class(
                rules@[n].id->0@,
            ) is None,
    ensures
        resolution(bucket_type, tagging, Ok(rules)) == (
            StatusView::Drift,
            storage_class::known_class(rules@[i].id->0@)->0,
        ),
{
    lemma_inferred(rules@, i);
}

proof fn lemma_inferred(rules: Seq<LifecycleRule>, i: int)
    requires
        0 <= i < rules.len(),
        rules[i].id is Some,
        storage_class::known_class(rules[i].id->0@) is Some,
        forall|n: int|
            0 <= n < i ==> (#[trigger] rules[n]).id is None || storage_class::known_class(
                rules[n].id->0@,
            ) is None,
    ensures
        inferred_class(rules) == storage_class::known_class(rules[i].id->0@),
    decreases i,
{
    reveal_strlit("ExpireOldVersions");
    reveal_strlit("DEEP_ARCHIVE");
    reveal_strlit("GLACIER");
    reveal_strlit("GLACIER_IR");
    reveal_strlit("INTELLIGENT_TIERING");
    reveal_strlit("ONEZONE_IA");
    reveal_strlit("STANDARD_IA");
    if i > 0 {
        assert(class_of_rule(rules[0]) is None);
        let rest = rules.skip(1);
        assert(rest[i - 1] == rules[i]);
        assert forall|n: int| 0 <= n < i - 1 implies (#[trigger] rest[n]).id is None
            || storage_class::known_class(rest[n].id->0@) is None by {
            assert(rest[n] == rules[n + 1]);
        }
        lemma_inferred(rest, i - 1);
    } else {
        assert(EXPIRE_RULE_ID@.len() == 17);
    }
}

/// Rules show the class that the first of them to be named after one is named after, and none
/// where no rule is.
pub proof fn rules_show_the_class_they_are_named_after(rules: Seq<LifecycleRule>, i: int)
    requires
        0 <= i <= rules.len(),
        forall|n: int|
            0 <= n < i ==> (#[trigger] rules[n]).id is None || storage_class::known_class(
                rules[n].id->0@,
            ) is None,
        i < rules.len() ==> rules[i].id is Some && storage_class::known_class(
            rules[i].id->0@,
        ) is Some,
    ensures
        i == rules.len() ==> inferred_class(rules) is None,
        i < rules.len() ==> inferred_class(rules) == storage_class::known_class(rules[i].id->0@),
{
    if i < rules.len() {
        lemma_inferred(rules, i);
    } else {
        lemma_nothing_inferred(rules);
    }
}

/// Where neither the tags nor the rules give a class, the default of the kind is expected: deep
/// archive for replicas, intelligent tiering for the others.
pub proof fn default_class_is_expected_of_a_bucket_without_one(
    bucket_type: Type,
    tagging: TaggingReply,
    inference: LifecycleReply,
)
    requires
        tagging is Err || (infers(tagging) && (inference is Err || forall|n: int|
            0 <= n < inference->Ok_0@.len() ==> (#[trigger] inference->Ok_0@[n]).id is None
                || storage_class::known_class(inference->Ok_0@[n].id->0@) is None)),
    ensures
        resolution(bucket_type, tagging, inference).1 == (if bucket_type == Type::Replication {
            TransitionStorageClass::DeepArchive
        } else {
            TransitionStorageClass::IntelligentTiering
        }),
        resolution(bucket_type, tagging, inference).0 != StatusView::Conforms,
        tagging is Err ==> resolution(bucket_type, tagging, inference).0 == (
        if tagging->Err_0.code is Some && tagging->Err_0.code->0@ == "NoSuchTagSet"@ {
            StatusView::Drift
        } else {
            StatusView::Error(tagging->Err_0.read_error("get bucket tagging"@))
        }),
        tagging is Ok && inference is Err ==> resolution(bucket_type, tagging, inference).0 == (
        if inference->Err_0.code is Some && inference->Err_0.code->0@
            == "NoSuchLifecycleConfiguration"@ {
            StatusView::Drift
        } else {
            StatusView::Error(
                inference->Err_0.read_error(
                    "get lifecycle configuration (for transition-tag inference)"@,
                ),
            )
        }),
        tagging is Ok && inference is Ok ==> resolution(bucket_type, tagging, inference).0
            == StatusView::Drift,
{
    if tagging is Err {
        lemma_codes(tagging->Err_0);
    } else if inference is Err {
        lemma_codes(inference->Err_0);
    } else {
        lemma_nothing_inferred(inference->Ok_0@);
    }
}

proof fn lemma_nothing_inferred(rules: Seq<LifecycleRule>)
    requires
        forall|n: int|
            0 <= n < rules.len() ==> (#[trigger] rules[n]).id is None || storage_class::known_class(
                rules[n].id->0@,
            ) is None,
    ensures
        inferred_class(rules) is None,
    decreases rules.len(),
{
    if rules.len() > 0 {
        assert(class_of_rule(rules[0]) is None);
        let rest = rules.skip(1);
        assert forall|n: int| 0 <= n < rest.len() implies (#[trigger] rest[n]).id is None
            || storage_class::known_class(rest[n].id->0@) is None by {
            assert(rest[n] == rules[n + 1]);
        }
        lemma_nothing_inferred(rest);
    }
}

/// Of a bucket is read what its kind is compared in, each thing once: tags, versioning and
/// lifecycle of all but internal buckets, notifications, logging and inventory of those that take
/// uploads, their replication where they have a replica, and public access of public ones.
pub proof fn reads_are_those_of_the_kind(v: ReconciliatorView, read: BucketRead)
    ensures
        reads_for(v).contains(read) <==> match read {
            BucketRead::Tagging | BucketRead::Versioning | BucketRead::Lifecycle => {
                v.bucket.bucket_type != Type::Internal
            },
            BucketRead::Replication => (v.bucket.bucket_type == Type::Standard
                || v.bucket.bucket_type == Type::Public) && v.replica is Some,
            BucketRead::Notifications | BucketRead::Logging | BucketRead::Inventory => {
                v.bucket.bucket_type == Type::Standard || v.bucket.bucket_type == Type::Public
            },
            BucketRead::PublicAccessBlock | BucketRead::Policy => {
                v.bucket.bucket_type == Type::Public
            },
        },
        reads_for(v).no_duplicates(),
{
    let reads = reads_for(v);
    if v.bucket.bucket_type != Type::Internal {
        assert(reads[0] == BucketRead::Tagging && reads[1] == BucketRead::Versioning);
        assert(reads[2] == BucketRead::Lifecycle);
        if v.bucket.bucket_type != Type::Replication {
            let n: int = if v.replica is Some {
                4
            } else {
                3
            };
            assert(v.replica is Some ==> reads[3] == BucketRead::Replication);
            assert(reads[n] == BucketRead::Notifications);
            assert(reads[n + 1] == BucketRead::Logging);
            assert(reads[n + 2] == BucketRead::Inventory);
            if v.bucket.bucket_type == Type::Public {
                assert(reads[n + 3] == BucketRead::PublicAccessBlock);
                assert(reads[n + 4] == BucketRead::Policy);
            }
        }
    }
}

} // verus!
