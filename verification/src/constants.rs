//! Names, prefixes and limits shared by the whole library.
use vstd::prelude::*;

verus! {

// Prefixes and suffixes
pub const ARCHIVE_IT_PREFIX: &'static str = "archive-it";
pub const ARCHIVE_IT_SUFFIX: &'static str = "-archive-it";
pub const BATCH_CHECKSUM_PREFIX: &'static str = "batch/reports/checksum";
pub const BATCH_MANIFEST_PREFIX: &'static str = "batch/manifests";
pub const BATCH_POLICY_SUFFIX: &'static str = "-s3-batch-policy";
pub const BATCH_REPORT_PREFIX: &'static str = "batch/reports";
pub const BATCH_ROLE_SUFFIX: &'static str = "-s3-batch-role";
pub const BUCKET_REQUEST_PREFIX: &'static str = "buckets";
pub const CHECKSUM_REQUEST_PREFIX: &'static str = "checksums";
pub const FEEDBACK_PREFIX: &'static str = "feedback";
pub const LOGGING_PREFIX: &'static str = "audit";
pub const MANAGED_SUFFIX: &'static str = "-managed";
pub const MANIFESTS_PREFIX: &'static str = "manifests";
pub const METADATA_PREFIX: &'static str = "metadata";
pub const PUBLIC_SUFFIX: &'static str = "-public";
pub const REPLICATION_POLICY_SUFFIX: &'static str = "-s3-replication-policy";
pub const REPLICATION_ROLE_SUFFIX: &'static str = "-s3-replication-role";
pub const REPLICATION_SUFFIX: &'static str = "-repl";
pub const REPORTS_PREFIX: &'static str = "reports";
pub const REQUEST_SUFFIX: &'static str = "-request";
pub const STORAGE_CAPACITY_SUFFIX: &'static str = "-storage-capacity";
pub const SYNC_USERS_PREFIX: &'static str = "sync-users";

// Inventory
pub const INVENTORY_ID: &'static str = "inventory";

// Bucket naming rules
pub const BUCKET_NAME_MIN_PARTS: usize = 3;
pub const DISALLOWED_AFFIXES: [&'static str; 2] = [".", "-"];
pub const STACK_BUCKET_DELIMITER: &'static str = "-";

// Bucket request rules
pub const MAX_BUCKETS_PER_REQUEST: u8 = 5;
pub const MAX_REQUEST_FILE_SIZE: u16 = 512;
pub const MAX_LEN_FOR_NAME: u8 = 63;

// Bucket tagging
pub const BUCKET_TAG_ORIGIN_KEY: &'static str = "BucketOrigin";
pub const BUCKET_TAG_ORIGIN_VAL: &'static str = "bucket-request";
pub const BUCKET_TAG_STACK_KEY: &'static str = "Stack";
pub const BUCKET_TAG_TRANSITION_STORAGE_CLASS_KEY: &'static str = "TransitionStorageClass";
pub const BUCKET_TAG_TYPE_KEY: &'static str = "BucketType";

// Bucket lifecycle
pub const EXPIRE_ABORTED_MULTIPART_DAYS: u8 = 3;
pub const EXPIRE_LEGACY_DURACLOUD_FILE_DAYS: u8 = 3;
pub const EXPIRE_NONCURRENT_VERSION_DAYS: u8 = 14;
pub const LIFECYCLE_LEGACY_DURACLOUD_FILE_TAG_KEY: &'static str = "ObsoleteDuraCloudFile";
pub const LIFECYCLE_LEGACY_DURACLOUD_FILE_TAG_VAL: &'static str = "true";
pub const STORAGE_TRANSITION_DAYS: u8 = 3;

// Bucket replication
pub const REPLICATION_RULE_ID: &'static str = "ReplicateAll";
pub const REPLICATION_RULE_PRIORITY: i32 = 1;

// Content types
pub const APPLICATION_JSON: &'static str = "application/json";
pub const TEXT_CSV: &'static str = "text/csv";
pub const TEXT_HTML: &'static str = "text/html";
pub const TEXT_PLAIN: &'static str = "text/plain";
pub const TEXT_XML: &'static str = "text/xml";

// Users
pub const SFTPGO_NAMESPACE: &'static str = "/sftpgo/";
pub const SYNC_USERS_FILE: &'static str = "TRIGGER";
pub const USER_ACCESS_KEY_NAMESPACE: &'static str = "/iam/access_key/";
pub const USER_SECRET_KEY_NAMESPACE: &'static str = "/iam/secret_key/";

} // verus!
