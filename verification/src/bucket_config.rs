//! The configuration of a bucket, as the storage service takes it and gives it
//! back: the parts that this library writes or reads.
use vstd::prelude::*;

use crate::storage_class::TransitionStorageClass;
use crate::tags::Tag;

verus! {

/// Whether a rule is in force.
#[derive(Debug, Clone, Copy, PartialEq, Eq, Structural)]
pub enum RuleStatus {
    Enabled,
    Disabled,
    Other,
}

/// Whether a bucket keeps the older versions of its objects.
#[derive(Debug, Clone, Copy, PartialEq, Eq, Structural)]
pub enum BucketVersioningStatus {
    Enabled,
    Suspended,
    Other,
}

/// The objects that a lifecycle rule applies to.
#[derive(Debug)]
pub struct LifecycleRuleFilter {
    pub prefix: Option<String>,
    pub tag: Option<Tag>,
}

/// When an upload that was never finished is removed.
#[derive(Debug, Clone, Copy, PartialEq, Eq, Structural)]
pub struct AbortIncompleteMultipartUpload {
    pub days_after_initiation: Option<i32>,
}

/// When objects, or the markers of deleted objects, are removed.
#[derive(Debug, Clone, Copy, PartialEq, Eq, Structural)]
pub struct LifecycleExpiration {
    pub days: Option<i32>,
    pub expired_object_delete_marker: Option<bool>,
}

/// When older versions of objects are removed.
#[derive(Debug, Clone, Copy, PartialEq, Eq, Structural)]
pub struct NoncurrentVersionExpiration {
    pub noncurrent_days: Option<i32>,
}

/// When objects move to another storage class.
#[derive(Debug)]
pub struct Transition {
    pub days: Option<i32>,
    pub storage_class: Option<TransitionStorageClass>,
}

/// What happens to objects with time.
#[derive(Debug)]
pub struct LifecycleRule {
    pub id: Option<String>,
    pub status: RuleStatus,
    pub filter: Option<LifecycleRuleFilter>,
    pub abort_incomplete_multipart_upload: Option<AbortIncompleteMultipartUpload>,
    pub expiration: Option<LifecycleExpiration>,
    pub noncurrent_version_expiration: Option<NoncurrentVersionExpiration>,
    pub transitions: Vec<Transition>,
}

/// The objects that a replication rule applies to.
#[derive(Debug)]
pub struct ReplicationRuleFilter {
    pub prefix: Option<String>,
}

/// Where objects are copied to.
#[derive(Debug)]
pub struct Destination {
    /// The resource name of the bucket.
    pub bucket: String,
    /// Whether the time of the copy is under a service guarantee.
    pub replication_time: bool,
    /// Whether the copies are measured.
    pub metrics: bool,
}

/// Whether the markers of deleted objects are copied.
#[derive(Debug, Clone, Copy, PartialEq, Eq, Structural)]
pub struct DeleteMarkerReplication {
    pub status: Option<RuleStatus>,
}

/// Which objects are copied, and where to.
#[derive(Debug)]
pub struct ReplicationRule {
    pub id: Option<String>,
    pub status: RuleStatus,
    pub priority: Option<i32>,
    pub filter: Option<ReplicationRuleFilter>,
    pub destination: Option<Destination>,
    pub delete_marker_replication: Option<DeleteMarkerReplication>,
}

/// How the objects of a bucket are copied to another one.
#[derive(Debug)]
pub struct ReplicationConfiguration {
    /// The role in whose name objects are copied.
    pub role: String,
    pub rules: Vec<ReplicationRule>,
}

/// Where the events of a bucket are sent.
#[derive(Debug, Clone, Copy, PartialEq, Eq, Structural)]
pub struct NotificationConfiguration {
    /// Whether they go to the event bus.
    pub event_bridge: bool,
}

/// Where the access logs of a bucket are written.
#[derive(Debug)]
pub struct LoggingEnabled {
    pub target_bucket: String,
    pub target_prefix: String,
}

/// The object versions that an inventory lists.
#[derive(Debug, Clone, Copy, PartialEq, Eq, Structural)]
pub enum InventoryIncludedObjectVersions {
    All,
    Current,
    Other,
}

/// How often an inventory is made.
#[derive(Debug, Clone, Copy, PartialEq, Eq, Structural)]
pub enum InventoryFrequency {
    Daily,
    Weekly,
    Other,
}

/// The file format of an inventory.
#[derive(Debug, Clone, Copy, PartialEq, Eq, Structural)]
pub enum InventoryFormat {
    Csv,
    Orc,
    Parquet,
    Other,
}

/// A column of an inventory.
#[derive(Debug, Clone, Copy, PartialEq, Eq, Structural)]
pub enum InventoryOptionalField {
    Size,
    LastModifiedDate,
    StorageClass,
    ReplicationStatus,
    Other,
}

/// The bucket that an inventory is written to.
#[derive(Debug)]
pub struct InventoryS3BucketDestination {
    pub account_id: Option<String>,
    /// The resource name of the bucket.
    pub bucket: String,
    pub format: InventoryFormat,
    pub prefix: Option<String>,
}

/// Where an inventory is written to.
#[derive(Debug)]
pub struct InventoryDestination {
    pub s3_bucket_destination: Option<InventoryS3BucketDestination>,
}

/// When an inventory is made.
#[derive(Debug, Clone, Copy, PartialEq, Eq, Structural)]
pub struct InventorySchedule {
    pub frequency: InventoryFrequency,
}

/// A regular list of the objects of a bucket.
#[derive(Debug)]
pub struct InventoryConfiguration {
    pub id: String,
    pub is_enabled: bool,
    pub included_object_versions: InventoryIncludedObjectVersions,
    pub schedule: Option<InventorySchedule>,
    pub destination: Option<InventoryDestination>,
    pub optional_fields: Vec<InventoryOptionalField>,
}

/// What the storage service does against public access to a bucket.
#[derive(Debug, Clone, Copy, PartialEq, Eq, Structural)]
pub struct PublicAccessBlockConfiguration {
    pub block_public_acls: Option<bool>,
    pub ignore_public_acls: Option<bool>,
    pub block_public_policy: Option<bool>,
    pub restrict_public_buckets: Option<bool>,
}

/// The resource name of a bucket.
pub open spec fn bucket_arn(name: Seq<char>) -> Seq<char> {
    "arn:aws:s3:::"@ + name
}

/// Writes the resource name of a bucket.
pub fn arn_of_bucket(name: &str) -> (r: String)
    ensures
        r@ == bucket_arn(name@),
{
    crate::text::join2("arn:aws:s3:::", name)
}

/// Whether an optional text is present and holds `expected`.
pub open spec fn holds(value: Option<String>, expected: Seq<char>) -> bool {
    value matches Some(s) && s@ == expected
}

} // verus!
