//! What the creation and the reconciliation of buckets give for what they are given.
use vstd::prelude::*;

use crate::bucket::{Bucket, BucketPair, Type};
use crate::bucket_config::{
    BucketVersioningStatus, InventoryConfiguration, InventoryFormat, InventoryFrequency,
    InventoryIncludedObjectVersions, InventoryOptionalField, LifecycleRule,
    PublicAccessBlockConfiguration, ReplicationConfiguration, RuleStatus,
};
use crate::bucket_creator;
use crate::bucket_creator::{
    BucketCreator, BucketCreatorParams, BucketPolicy, BucketRequest, BucketWrite,
};
use crate::bucket_reconciliator;
use crate::bucket_reconciliator::{
    BucketRead, BucketReconciliator, BucketReplies, TaggingReply,
};
use crate::errors::{RequestError, ServiceError};
use crate::pair_creation;
use crate::pair_creation::PairCreation;
use crate::reconcile_report;
use crate::reconcile_report::ReconcileReport;
use crate::storage_class;
use crate::storage_class::TransitionStorageClass;

verus! {

/// A reconciliator compares the bucket that it was made for, with its replica, in the installation
/// that it was made for.
pub proof fn reconciliator_is_for_its_bucket<'a>(
    params: &BucketCreatorParams<'a>,
    bucket: &'a Bucket,
    replica: Option<&'a Bucket>,
    r: BucketReconciliator<'a>,
)
    requires
        call_ensures(BucketReconciliator::new, (params, bucket, replica), r),
    ensures
        r@.bucket == bucket@,
        r@.stack == params.stack@,
        r@.account_id == params.account_id@,
        r@.replication_role_arn == params.replication_role_arn@,
        replica is Some ==> r@.replica == Some(replica->0@.name),
        replica is None ==> r@.replica is None,
{
}

/// A report is on the bucket that was compared, and has the steps of its kind under their names:
/// three for every bucket but an internal one, four more for one that takes uploads, and two more
/// for a public one.
pub proof fn report_names_the_bucket_and_its_steps<'a>(
    of: &BucketReconciliator<'a>,
    replies: &BucketReplies,
    r: ReconcileReport,
)
    requires
        call_ensures(BucketReconciliator::reconcile, (of, replies), r),
    ensures
        r.bucket_name@ == of@.bucket.name,
        r.bucket_type == of@.bucket.bucket_type,
        r.bucket_type == Type::Internal ==> r.steps@.len() == 1,
        r.bucket_type == Type::Internal ==> r.steps@[0].name@ == "setup"@
            && r.steps@[0].status is Error,
        r.bucket_type == Type::Replication ==> r.steps@.len() == 3,
        r.bucket_type == Type::Standard ==> r.steps@.len() == 7,
        r.bucket_type == Type::Public ==> r.steps@.len() == 9,
        r.steps@.len() >= 3 ==> r.steps@[0].name@ == "transition-tag"@ && r.steps@[1].name@
            == "versioning"@ && r.steps@[2].name@ == "lifecycle"@,
        r.steps@.len() >= 7 ==> r.steps@[3].name@ == "replication"@ && r.steps@[4].name@
            == "notifications"@ && r.steps@[5].name@ == "logging"@ && r.steps@[6].name@
            == "inventory"@,
        r.steps@.len() >= 9 ==> r.steps@[7].name@ == "public-access"@ && r.steps@[8].name@
            == "bucket-policy"@,
{
    let steps = reconcile_report::step_views(r.steps@);
    bucket_reconciliator::report_has_the_steps_of_the_kind(of@, *replies);
    assert(steps.len() == r.steps@.len());
    assert forall|i: int| 0 <= i < steps.len() implies (#[trigger] steps[i]).name
        == r.steps@[i].name@ && steps[i].status == r.steps@[i].status@ by {
        assert(steps[i] == r.steps@[i]@);
    }
}

proof fn lemma_statuses<'a>(
    of: &BucketReconciliator<'a>,
    replies: &BucketReplies,
    r: ReconcileReport,
)
    requires
        call_ensures(BucketReconciliator::reconcile, (of, replies), r),
        of@.bucket.bucket_type != Type::Internal,
    ensures
        ({
            let kind = of@.bucket.bucket_type;
            let (tag, class) = bucket_reconciliator::resolution(
                kind,
                replies.tagging,
                replies.inference,
            );
            &&& r.steps@[0].status@ == tag
            &&& r.steps@[1].status@ == bucket_reconciliator::versioning_status(replies.versioning)
            &&& r.steps@[2].status@ == bucket_reconciliator::lifecycle_status(
                replies.lifecycle,
                class,
            )
            &&& kind != Type::Replication ==> {
                &&& r.steps@[3].status@ == bucket_reconciliator::replication_status(
                    of@,
                    replies.replication,
                )
                &&& r.steps@[4].status@ == bucket_reconciliator::notifications_status(
                    replies.notifications,
                )
                &&& r.steps@[5].status@ == bucket_reconciliator::logging_status(
                    of@,
                    replies.logging,
                )
                &&& r.steps@[6].status@ == bucket_reconciliator::inventory_status(
                    of@,
                    replies.inventory,
                )
            }
            &&& kind == Type::Public ==> {
                &&& r.steps@[7].status@ == bucket_reconciliator::public_access_status(
                    replies.public_access_block,
                )
                &&& r.steps@[8].status@ == bucket_reconciliator::policy_status(replies.policy)
            }
        }),
{
    let steps = reconcile_report::step_views(r.steps@);
    report_names_the_bucket_and_its_steps(of, replies, r);
    bucket_reconciliator::report_has_the_steps_of_the_kind(of@, *replies);
    assert(steps.len() == r.steps@.len());
    assert forall|i: int| 0 <= i < steps.len() implies #[trigger] r.steps@[i].status@
        == steps[i].status by {
        assert(steps[i] == r.steps@[i]@);
    }
}

/// The replication step passes exactly where the bucket has one replication rule, and that rule is
/// in force and copies the objects under every key, with the markers of deleted ones, to the
/// replica. A rule that was switched off, goes elsewhere or leaves objects out is a difference.
pub proof fn replication_step_finds_what_is_not_copied<'a>(
    of: &BucketReconciliator<'a>,
    replies: &BucketReplies,
    r: ReconcileReport,
    c: ReplicationConfiguration,
    replica: Seq<char>,
)
    requires
        call_ensures(BucketReconciliator::reconcile, (of, replies), r),
        of@.bucket.bucket_type == Type::Standard || of@.bucket.bucket_type == Type::Public,
        of@.replica == Some(replica),
        replies.replication == Ok::<Option<ReplicationConfiguration>, ServiceError>(Some(c)),
    ensures
        r.steps@[3].name@ == "replication"@,
        r.steps@[3].status is Conforms <==> {
            let rule = c.rules@[0];
            &&& c.role@ == of@.replication_role_arn
            &&& c.rules@.len() == 1
            &&& rule.status == RuleStatus::Enabled
            &&& rule.id is Some && rule.id->0@ == "ReplicateAll"@
            &&& rule.priority == Some(1i32)
            &&& rule.filter is Some && rule.filter->0.prefix is Some
            &&& forall|key: Seq<char>| #[trigger] rule.filter->0.prefix->0@.is_prefix_of(key)
            &&& rule.destination is Some
            &&& rule.destination->0.bucket@ == "arn:aws:s3:::"@ + replica
            &&& !rule.destination->0.replication_time
            &&& !rule.destination->0.metrics
            &&& rule.delete_marker_replication is Some
            &&& rule.delete_marker_replication->0.status == Some(RuleStatus::Enabled)
        },
        !(r.steps@[3].status is Conforms) ==> r.steps@[3].status is Drift && r.drifted(),
{
    report_names_the_bucket_and_its_steps(of, replies, r);
    lemma_statuses(of, replies, r);
    bucket_reconciliator::replication_conforms_where_everything_is_copied(of@, replica, c);
}

/// The versioning step passes exactly where older versions are kept, the notifications step where
/// events go to the event bus, and the logging step where access logs go to the place that the
/// managed bucket of the stack has for the bucket.
pub proof fn settings_steps_find_what_is_off<'a>(
    of: &BucketReconciliator<'a>,
    replies: &BucketReplies,
    r: ReconcileReport,
)
    requires
        call_ensures(BucketReconciliator::reconcile, (of, replies), r),
        of@.bucket.bucket_type != Type::Internal,
    ensures
        r.steps@[1].status is Conforms <==> replies.versioning == Ok::<
            Option<BucketVersioningStatus>,
            ServiceError,
        >(Some(BucketVersioningStatus::Enabled)),
        r.steps@[1].status is Error <==> replies.versioning is Err,
        of@.bucket.bucket_type != Type::Replication ==> (r.steps@[4].status is Conforms
            <==> replies.notifications is Ok && replies.notifications->Ok_0.event_bridge),
        of@.bucket.bucket_type != Type::Replication ==> (r.steps@[4].status is Error
            <==> replies.notifications is Err),
        of@.bucket.bucket_type != Type::Replication ==> (r.steps@[5].status is Conforms
            <==> replies.logging is Ok && replies.logging->Ok_0 is Some
            && replies.logging->Ok_0->0.target_bucket@ == of@.stack + "-managed"@
            && replies.logging->Ok_0->0.target_prefix@ == "audit"@ + "/"@ + of@.bucket.name
            + "/"@),
        of@.bucket.bucket_type != Type::Replication ==> (r.steps@[5].status is Error
            <==> replies.logging is Err),
{
    lemma_statuses(of, replies, r);
}

/// The inventory step passes exactly where the inventory is in force, lists the current objects
/// every day with the four expected columns, and is written as Parquet under `manifests` in the
/// managed bucket of the stack.
pub proof fn inventory_step_finds_what_is_not_listed<'a>(
    of: &BucketReconciliator<'a>,
    replies: &BucketReplies,
    r: ReconcileReport,
    inventory: InventoryConfiguration,
)
    requires
        call_ensures(BucketReconciliator::reconcile, (of, replies), r),
        of@.bucket.bucket_type == Type::Standard || of@.bucket.bucket_type == Type::Public,
        replies.inventory == Ok::<Option<InventoryConfiguration>, ServiceError>(Some(inventory)),
    ensures
        r.steps@[6].status is Conforms <==> {
            let d = inventory.destination->0.s3_bucket_destination->0;
            &&& inventory.is_enabled
            &&& inventory.id@ == "inventory"@
            &&& inventory.included_object_versions == InventoryIncludedObjectVersions::Current
            &&& inventory.schedule is Some
            &&& inventory.schedule->0.frequency == InventoryFrequency::Daily
            &&& inventory.destination is Some
            &&& inventory.destination->0.s3_bucket_destination is Some
            &&& d.bucket@ == "arn:aws:s3:::"@ + (of@.stack + "-managed"@)
            &&& d.format == InventoryFormat::Parquet
            &&& d.prefix is Some && d.prefix->0@ == "manifests"@
            &&& d.account_id is Some && d.account_id->0@ == of@.account_id
            &&& forall|field: InventoryOptionalField|
                field != InventoryOptionalField::Other
                    ==> #[trigger] inventory.optional_fields@.contains(field)
        },
        !(r.steps@[6].status is Conforms) ==> r.steps@[6].status is Drift,
{
    lemma_statuses(of, replies, r);
    bucket_reconciliator::inventory_conforms_where_objects_are_listed_daily(of@, inventory);
}

/// The two steps of a public bucket pass exactly where no block on public access is left and where
/// the policy lets everybody read.
pub proof fn public_steps_find_what_is_closed<'a>(
    of: &BucketReconciliator<'a>,
    replies: &BucketReplies,
    r: ReconcileReport,
)
    requires
        call_ensures(BucketReconciliator::reconcile, (of, replies), r),
        of@.bucket.bucket_type == Type::Public,
    ensures
        r.steps@[7].status is Conforms <==> replies.public_access_block is Ok
            && replies.public_access_block->Ok_0 == Some(
            PublicAccessBlockConfiguration {
                block_public_acls: Some(false),
                ignore_public_acls: Some(false),
                block_public_policy: Some(false),
                restrict_public_buckets: Some(false),
            },
        ),
        r.steps@[8].status is Conforms <==> replies.policy is Ok && replies.policy->Ok_0 is Some
            && replies.policy->Ok_0->0 == Ok::<bool, String>(true),
        replies.policy is Ok && replies.policy->Ok_0 is Some && replies.policy->Ok_0->0 is Err
            ==> r.steps@[8].status is Error,
{
    lemma_statuses(of, replies, r);
}

/// The lifecycle step passes exactly where one rule removes what is out of date and one moves the
/// objects to the expected class, both in force and after the expected times. A class in the first
/// tag with the key `TransitionStorageClass` is the expected one.
pub proof fn lifecycle_step_finds_what_does_not_move<'a>(
    of: &BucketReconciliator<'a>,
    replies: &BucketReplies,
    r: ReconcileReport,
    rules: Vec<LifecycleRule>,
    i: int,
)
    requires
        call_ensures(BucketReconciliator::reconcile, (of, replies), r),
        of@.bucket.bucket_type != Type::Internal,
        replies.lifecycle == Ok::<Vec<LifecycleRule>, ServiceError>(rules),
        replies.tagging is Ok,
        0 <= i < replies.tagging->Ok_0@.len(),
        replies.tagging->Ok_0@[i].key@ == "TransitionStorageClass"@,
        forall|n: int|
            0 <= n < i ==> (#[trigger] replies.tagging->Ok_0@[n]).key@
                != "TransitionStorageClass"@,
        storage_class::known_class(replies.tagging->Ok_0@[i].value@) is Some,
    ensures
        r.steps@[0].status is Conforms,
        r.steps@[2].status is Conforms <==> {
            &&& exists|k: int|
                {
                    let rule = #[trigger] rules@[k];
                    &&& 0 <= k < rules@.len()
                    &&& rule.id is Some && rule.id->0@ == "ExpireOldVersions"@
                    &&& rule.status == RuleStatus::Enabled
                    &&& rule.abort_incomplete_multipart_upload is Some
                    &&& rule.abort_incomplete_multipart_upload->0.days_after_initiation == Some(
                        3i32,
                    )
                    &&& rule.noncurrent_version_expiration is Some
                    &&& rule.noncurrent_version_expiration->0.noncurrent_days == Some(14i32)
                    &&& rule.expiration is Some
                    &&& rule.expiration->0.expired_object_delete_marker == Some(true)
                }
            &&& exists|k: int|
                {
                    let rule = #[trigger] rules@[k];
                    &&& 0 <= k < rules@.len()
                    &&& rule.id is Some && rule.id->0@ == replies.tagging->Ok_0@[i].value@
                    &&& rule.status == RuleStatus::Enabled
                    &&& rule.transitions@.len() == 1
                    &&& rule.transitions@[0].days == Some(3i32)
                    &&& rule.transitions@[0].storage_class is Some
                    &&& (rule.transitions@[0].storage_class->0)@
                        == replies.tagging->Ok_0@[i].value@
                }
        },
{
    let name = replies.tagging->Ok_0@[i].value@;
    let class = storage_class::known_class(name)->0;
    storage_class::six_names_are_accepted(name, class);
    bucket_reconciliator::tagged_class_is_expected(
        of@.bucket.bucket_type,
        replies.tagging->Ok_0,
        replies.inference,
        i,
        class,
    );
    lemma_statuses(of, replies, r);
    bucket_reconciliator::lifecycle_conforms_where_objects_move_and_expire(rules, class);
}

/// What could not be read is never reported as a match.
pub proof fn failed_reads_do_not_pass<'a>(
    of: &BucketReconciliator<'a>,
    replies: &BucketReplies,
    r: ReconcileReport,
)
    requires
        call_ensures(BucketReconciliator::reconcile, (of, replies), r),
        of@.bucket.bucket_type != Type::Internal,
    ensures
        replies.tagging is Err ==> !(r.steps@[0].status is Conforms),
        replies.versioning is Err ==> r.steps@[1].status is Error,
        replies.lifecycle is Err ==> !(r.steps@[2].status is Conforms),
        of@.bucket.bucket_type != Type::Replication ==> {
            &&& replies.replication is Err ==> !(r.steps@[3].status is Conforms)
            &&& of@.replica is None ==> r.steps@[3].status is Error
            &&& replies.notifications is Err ==> r.steps@[4].status is Error
            &&& replies.logging is Err ==> r.steps@[5].status is Error
            &&& replies.inventory is Err ==> !(r.steps@[6].status is Conforms)
        },
        of@.bucket.bucket_type == Type::Public ==> {
            &&& replies.public_access_block is Err ==> !(r.steps@[7].status is Conforms)
            &&& replies.policy is Err ==> !(r.steps@[8].status is Conforms)
        },
{
    lemma_statuses(of, replies, r);
}

/// What is read of a bucket is what its kind is compared in, and each thing is read once.
pub proof fn bucket_is_read_as_its_kind_needs<'a>(
    of: &BucketReconciliator<'a>,
    r: Vec<BucketRead>,
    read: BucketRead,
)
    requires
        call_ensures(BucketReconciliator::reads, (of,), r),
    ensures
        r@.no_duplicates(),
        r@.contains(read) <==> match read {
            BucketRead::Tagging | BucketRead::Versioning | BucketRead::Lifecycle => {
                of@.bucket.bucket_type != Type::Internal
            },
            BucketRead::Replication => (of@.bucket.bucket_type == Type::Standard
                || of@.bucket.bucket_type == Type::Public) && of@.replica is Some,
            BucketRead::Notifications | BucketRead::Logging | BucketRead::Inventory => {
                of@.bucket.bucket_type == Type::Standard || of@.bucket.bucket_type == Type::Public
            },
            BucketRead::PublicAccessBlock | BucketRead::Policy => {
                of@.bucket.bucket_type == Type::Public
            },
        },
{
    bucket_reconciliator::reads_are_those_of_the_kind(of@, read);
}

/// The lifecycle rules are read for the class exactly where the tags were read and the first tag
/// with the key `TransitionStorageClass`, if there is one, names no class.
pub proof fn class_is_inferred_where_no_tag_names_it<'a>(
    of: &BucketReconciliator<'a>,
    tagging: &TaggingReply,
    r: bool,
    i: int,
)
    requires
        call_ensures(BucketReconciliator::infers_class, (of, tagging), r),
        tagging is Ok ==> 0 <= i <= tagging->Ok_0@.len(),
        tagging is Ok ==> forall|n: int|
            0 <= n < i ==> (#[trigger] tagging->Ok_0@[n]).key@ != "TransitionStorageClass"@,
        tagging is Ok && i < tagging->Ok_0@.len() ==> tagging->Ok_0@[i].key@
            == "TransitionStorageClass"@,
    ensures
        r <==> tagging is Ok && (i == tagging->Ok_0@.len() || storage_class::known_class(
            tagging->Ok_0@[i].value@,
        ) is None),
{
    if tagging is Ok {
        crate::tags::first_tag_is_found(tagging->Ok_0@, "TransitionStorageClass"@);
    }
}

/// A creator is for the bucket and the installation that it was made for, and moves objects to the
/// class that was asked for, else to the default of the kind.
pub proof fn creator_is_for_its_bucket<'a>(
    params: BucketCreatorParams<'a>,
    bucket: &'a Bucket,
    tier: Option<TransitionStorageClass>,
    r: BucketCreator<'a>,
)
    requires
        call_ensures(BucketCreator::new, (params, bucket, tier), r),
    ensures
        r@.bucket == bucket@,
        r@.stack == params.stack@,
        r@.account_id == params.account_id@,
        r@.replication_role_arn == params.replication_role_arn@,
        tier is Some ==> r@.storage_tier == tier->0,
        tier is None ==> r@.storage_tier == (if bucket@.bucket_type == Type::Replication {
            TransitionStorageClass::DeepArchive
        } else {
            TransitionStorageClass::IntelligentTiering
        }),
{
}

/// A new bucket is created under its name with its four tags, and its region is named unless it is
/// the default one.
pub proof fn creation_tags_the_bucket<'a>(
    creator: &BucketCreator<'a>,
    region: &str,
    r: BucketRequest,
)
    requires
        call_ensures(BucketCreator::create, (creator, region), r),
    ensures
        r.bucket@ == creator@.bucket.name,
        r.write is Create,
        r.write->tags@.len() == 4,
        r.write->tags@[0].key@ == "BucketOrigin"@ && r.write->tags@[0].value@ == "bucket-request"@,
        r.write->tags@[1].key@ == "Stack"@ && r.write->tags@[1].value@ == creator@.stack,
        r.write->tags@[2].key@ == "BucketType"@ && r.write->tags@[2].value@
            == creator@.bucket.bucket_type@,
        r.write->tags@[3].key@ == "TransitionStorageClass"@ && r.write->tags@[3].value@
            == creator@.storage_tier@,
        r.write->location_constraint is None <==> region@ == "us-east-1"@,
        r.write->location_constraint is Some ==> r.write->location_constraint->0@ == region@,
        r.context@ == "failed to create bucket "@ + creator@.bucket.name,
{
    bucket_creator::new_bucket_carries_its_tags(creator@, region@, r);
}

/// The setup of a bucket that is not internal sets lifecycle rules that reach every object: the
/// one that removes what is out of date, after three and fourteen days, and the one that moves
/// objects to the storage class of the bucket after three days.
pub proof fn setup_moves_and_removes_every_object<'a>(
    creator: &BucketCreator<'a>,
    r: Result<Vec<BucketRequest>, RequestError>,
    key: Seq<char>,
)
    requires
        call_ensures(BucketCreator::setup, (creator,), r),
        creator@.bucket.bucket_type != Type::Internal,
    ensures
        r is Ok,
        ({
            let n: int = if creator@.bucket.bucket_type == Type::Replication {
                1
            } else {
                2
            };
            let rules = r->Ok_0@[n].write->PutLifecycle_0@;
            &&& r->Ok_0@[n].write is PutLifecycle
            &&& r->Ok_0@[n].bucket@ == creator@.bucket.name
            &&& rules.len() == 3
            &&& rules[0].status == RuleStatus::Enabled && rules[1].status == RuleStatus::Enabled
            &&& rules[0].filter->0.prefix->0@.is_prefix_of(key)
            &&& rules[1].filter->0.prefix->0@.is_prefix_of(key)
            &&& rules[0].filter->0.tag is None && rules[1].filter->0.tag is None
            &&& rules[0].abort_incomplete_multipart_upload->0.days_after_initiation == Some(3i32)
            &&& rules[0].noncurrent_version_expiration->0.noncurrent_days == Some(14i32)
            &&& rules[0].expiration->0.expired_object_delete_marker == Some(true)
            &&& rules[0].expiration->0.days is None
            &&& rules[1].id->0@ == creator@.storage_tier@
            &&& rules[1].transitions@.len() == 1
            &&& rules[1].transitions@[0].days == Some(3i32)
            &&& rules[1].transitions@[0].storage_class == Some(creator@.storage_tier)
            &&& rules[1].expiration is None
            &&& rules[2].status == RuleStatus::Enabled
            &&& rules[2].filter->0.tag is Some
            &&& rules[2].filter->0.tag->0.key@ == "ObsoleteDuraCloudFile"@
            &&& rules[2].filter->0.tag->0.value@ == "true"@
            &&& rules[2].expiration->0.days == Some(3i32)
        }),
{
    let requests = r->Ok_0@;
    let n: int = if creator@.bucket.bucket_type == Type::Replication {
        1
    } else {
        2
    };
    bucket_creator::setup_has_its_order(creator@, requests);
    bucket_creator::setup_stays_with_its_bucket(creator@, requests, n);
    let rules = requests[n].write->PutLifecycle_0@;
    bucket_creator::lifecycle_applies_to_every_object(rules, creator@.storage_tier, key);
    bucket_creator::lifecycle_moves_and_removes(rules, creator@.storage_tier);
}

/// The setup closes a bucket that takes uploads first and opens it last, with everything else in
/// between; only a public bucket is then made readable by everybody. A replica is set up without
/// any of that, and an internal bucket not at all.
pub proof fn setup_closes_the_bucket_while_it_runs<'a>(
    creator: &BucketCreator<'a>,
    r: Result<Vec<BucketRequest>, RequestError>,
)
    requires
        call_ensures(BucketCreator::setup, (creator,), r),
    ensures
        r is Err <==> creator@.bucket.bucket_type == Type::Internal,
        r is Err ==> r->Err_0 is UnsupportedOperation && r->Err_0->UnsupportedOperation_0@
            == "setup not supported for "@ + "internal"@ + " buckets"@,
        r is Ok ==> forall|i: int|
            0 <= i < r->Ok_0@.len() ==> (#[trigger] r->Ok_0@[i]).bucket@ == creator@.bucket.name,
        creator@.bucket.bucket_type == Type::Replication ==> {
            &&& r->Ok_0@.len() == 2
            &&& r->Ok_0@[0].write == BucketWrite::PutVersioning(BucketVersioningStatus::Enabled)
            &&& r->Ok_0@[1].write is PutLifecycle
        },
        creator@.bucket.bucket_type == Type::Standard ==> r->Ok_0@.len() == 7,
        creator@.bucket.bucket_type == Type::Public ==> r->Ok_0@.len() == 9,
        creator@.bucket.bucket_type == Type::Standard || creator@.bucket.bucket_type
            == Type::Public ==> {
            let requests = r->Ok_0@;
            &&& requests[0].write == BucketWrite::PutPolicy(BucketPolicy::DenyUploads)
            &&& requests[1].write == BucketWrite::PutVersioning(BucketVersioningStatus::Enabled)
            &&& requests[2].write is PutLifecycle
            &&& requests[3].write is PutNotifications
            &&& requests[3].write->PutNotifications_0.event_bridge
            &&& requests[4].write is PutLogging
            &&& requests[4].write->PutLogging_0.target_bucket@ == creator@.stack + "-managed"@
            &&& requests[4].write->PutLogging_0.target_prefix@ == "audit"@ + "/"@
                + creator@.bucket.name + "/"@
            &&& requests[5].write is PutInventory
            &&& requests[6].write is DeletePolicy
        },
        creator@.bucket.bucket_type == Type::Public ==> {
            let requests = r->Ok_0@;
            &&& requests[7].write == BucketWrite::PutPublicAccessBlock(
                PublicAccessBlockConfiguration {
                    block_public_acls: Some(false),
                    ignore_public_acls: Some(false),
                    block_public_policy: Some(false),
                    restrict_public_buckets: Some(false),
                },
            )
            &&& requests[8].write == BucketWrite::PutPolicy(BucketPolicy::PublicRead)
        },
{
    if r is Ok {
        let requests = r->Ok_0@;
        bucket_creator::setup_has_its_order(creator@, requests);
        assert forall|i: int| 0 <= i < requests.len() implies (#[trigger] requests[i]).bucket@
            == creator@.bucket.name by {
            bucket_creator::setup_stays_with_its_bucket(creator@, requests, i);
        }
        if creator@.bucket.bucket_type != Type::Replication {
            bucket_creator::setup_logs_to_the_managed_bucket(creator@, requests);
        }
    }
}

/// The inventory that the setup starts is the one that reconciliation looks for.
pub proof fn setup_starts_the_inventory<'a>(
    creator: &BucketCreator<'a>,
    r: Result<Vec<BucketRequest>, RequestError>,
)
    requires
        call_ensures(BucketCreator::setup, (creator,), r),
        creator@.bucket.bucket_type == Type::Standard || creator@.bucket.bucket_type
            == Type::Public,
    ensures
        ({
            let inventory = r->Ok_0@[5].write->configuration;
            let d = inventory.destination->0.s3_bucket_destination->0;
            &&& r is Ok
            &&& r->Ok_0@[5].write is PutInventory
            &&& r->Ok_0@[5].write->id@ == "inventory"@
            &&& inventory.id@ == "inventory"@
            &&& inventory.is_enabled
            &&& inventory.included_object_versions == InventoryIncludedObjectVersions::Current
            &&& inventory.schedule->0.frequency == InventoryFrequency::Daily
            &&& d.bucket@ == "arn:aws:s3:::"@ + (creator@.stack + "-managed"@)
            &&& d.format == InventoryFormat::Parquet
            &&& d.prefix->0@ == "manifests"@
            &&& d.account_id->0@ == creator@.account_id
            &&& forall|field: InventoryOptionalField|
                field != InventoryOptionalField::Other
                    <==> #[trigger] inventory.optional_fields@.contains(field)
        }),
{
    let requests = r->Ok_0@;
    bucket_creator::setup_lists_the_objects_daily(creator@, requests);
    let fields = requests[5].write->configuration.optional_fields@;
    assert(fields[0] == InventoryOptionalField::Size);
    assert(fields[1] == InventoryOptionalField::LastModifiedDate);
    assert(fields[2] == InventoryOptionalField::StorageClass);
    assert(fields[3] == InventoryOptionalField::ReplicationStatus);
}

/// Replication copies the object under every key to the replica, with the markers of deleted
/// objects and in the name of the role of the installation.
pub proof fn replication_reaches_every_object<'a>(
    creator: &BucketCreator<'a>,
    replica: &Bucket,
    r: BucketRequest,
    key: Seq<char>,
)
    requires
        call_ensures(BucketCreator::enable_replication, (creator, replica), r),
    ensures
        ({
            let configuration = r.write->PutReplication_0;
            let rule = configuration.rules@[0];
            &&& r.bucket@ == creator@.bucket.name
            &&& r.write is PutReplication
            &&& configuration.role@ == creator@.replication_role_arn
            &&& configuration.rules@.len() == 1
            &&& rule.id->0@ == "ReplicateAll"@
            &&& rule.status == RuleStatus::Enabled
            &&& rule.priority == Some(1i32)
            &&& rule.filter->0.prefix->0@.is_prefix_of(key)
            &&& rule.destination->0.bucket@ == "arn:aws:s3:::"@ + replica@.name
            &&& !rule.destination->0.replication_time
            &&& !rule.destination->0.metrics
            &&& rule.delete_marker_replication->0.status == Some(RuleStatus::Enabled)
        }),
{
    bucket_creator::replication_copies_every_object(creator@, replica@.name, r, key);
}

/// What undoes the creation of a bucket deletes that bucket.
pub proof fn rollback_is_of_the_bucket<'a>(creator: &BucketCreator<'a>, r: BucketRequest)
    requires
        call_ensures(BucketCreator::rollback, (creator,), r),
    ensures
        r.bucket@ == creator@.bucket.name,
        r.write is Delete,
{
}

/// The creation of a requested pair creates and sets up the source bucket, then the replica, and
/// then copies the objects of the one to the other. It begins with the first step.
pub proof fn requested_pair_is_created_in_order(
    params: BucketCreatorParams<'_>,
    pair: &BucketPair,
    tier: &TransitionStorageClass,
    region: &str,
    r: PairCreation,
)
    requires
        call_ensures(pair_creation::create_requested_pair, (params, pair, tier, region), r),
        pair.source@.bucket_type == Type::Standard || pair.source@.bucket_type == Type::Public,
        pair.replication@.bucket_type == Type::Replication,
    ensures
        r@.valid(),
        r@.position == 0,
        r@.failure is None,
        ({
            let n: int = if pair.source@.bucket_type == Type::Public {
                9
            } else {
                7
            };
            let steps = r@.steps;
            &&& steps.len() == n + 5
            &&& steps[0].action is Send && steps[0].action->Send_0.write is Create
            &&& steps[0].action->Send_0.bucket@ == pair.source@.name
            &&& steps[0].action->Send_0.write->tags@[3].value@ == (if n == 7 {
                tier@
            } else {
                "INTELLIGENT_TIERING"@
            })
            &&& forall|i: int|
                1 <= i <= n ==> (#[trigger] steps[i]).action is Send
                    && steps[i].action->Send_0.bucket@ == pair.source@.name
                    && !(steps[i].action->Send_0.write is Create)
            &&& steps[n + 1].action is Send && steps[n + 1].action->Send_0.write is Create
            &&& steps[n + 1].action->Send_0.bucket@ == pair.replication@.name
            &&& steps[n + 1].action->Send_0.write->tags@[3].value@ == "DEEP_ARCHIVE"@
            &&& forall|i: int|
                n + 2 <= i < n + 4 ==> (#[trigger] steps[i]).action is Send
                    && steps[i].action->Send_0.bucket@ == pair.replication@.name
                    && !(steps[i].action->Send_0.write is Create)
            &&& steps[n + 4].action is Send && steps[n + 4].action->Send_0.write is PutReplication
            &&& steps[n + 4].action->Send_0.bucket@ == pair.source@.name
            &&& steps[n
                + 4].action->Send_0.write->PutReplication_0.rules@[0].destination->0.bucket@
                == "arn:aws:s3:::"@ + pair.replication@.name
        }),
{
    let p = pair_creation::creator_view(
        params,
        &pair.source,
        pair_creation::tier_for(pair.source@.bucket_type, *tier),
    );
    let q = pair_creation::creator_view(params, &pair.replication, None);
    let steps = r@.steps;
    let n: int = if pair.source@.bucket_type == Type::Public {
        9
    } else {
        7
    };
    pair_creation::pair_is_created_in_order(p, q, region@, steps);
    pair_creation::only_standard_buckets_take_the_tier(params, *pair, *tier);
    bucket_creator::new_bucket_carries_its_tags(p, region@, steps[0].action->Send_0);
    bucket_creator::new_bucket_carries_its_tags(q, region@, steps[n + 1].action->Send_0);
    bucket_creator::replication_copies_every_object(
        p,
        pair.replication@.name,
        steps[n + 4].action->Send_0,
        Seq::empty(),
    );
    let first = Seq::new(n as nat, |i: int| steps[i + 1].action->Send_0);
    let second = Seq::new(2, |i: int| steps[i + n + 2].action->Send_0);
    assert forall|i: int| 1 <= i <= n implies (#[trigger] steps[i]).action is Send
        && steps[i].action->Send_0.bucket@ == pair.source@.name && !(
    steps[i].action->Send_0.write is Create) by {
        bucket_creator::setup_stays_with_its_bucket(p, first, i - 1);
        assert(first[i - 1] == steps[i].action->Send_0);
    }
    assert forall|i: int| n + 2 <= i < n + 4 implies (#[trigger] steps[i]).action is Send
        && steps[i].action->Send_0.bucket@ == pair.replication@.name && !(
    steps[i].action->Send_0.write is Create) by {
        bucket_creator::setup_stays_with_its_bucket(q, second, i - n - 2);
        assert(second[i - n - 2] == steps[i].action->Send_0);
    }
}

/// Whichever step of a requested pair fails, what is sent then deletes exactly the buckets that
/// were created before it.
pub proof fn failed_pair_leaves_nothing_behind(
    params: BucketCreatorParams<'_>,
    pair: &BucketPair,
    tier: &TransitionStorageClass,
    region: &str,
    r: PairCreation,
    k: int,
    name: Seq<char>,
)
    requires
        call_ensures(pair_creation::create_requested_pair, (params, pair, tier, region), r),
        0 <= k < r@.steps.len(),
    ensures
        (exists|i: int|
            0 <= i < r@.steps[k].rollback@.len() && (
            #[trigger] r@.steps[k].rollback@[i]).write is Delete && r@.steps[k].rollback@[i].bucket@
                == name) <==> (exists|i: int|
            0 <= i < k && (#[trigger] r@.steps[i]).action is Send
                && r@.steps[i].action->Send_0.write is Create
                && r@.steps[i].action->Send_0.bucket@ == name),
{
    let p = pair_creation::creator_view(
        params,
        &pair.source,
        pair_creation::tier_for(pair.source@.bucket_type, *tier),
    );
    let q = pair_creation::creator_view(params, &pair.replication, None);
    pair_creation::rollback_deletes_what_was_created(p, q, region@, r@.steps, k, name);
    let steps = r@.steps;
    if exists|i: int|
        0 <= i < k && (#[trigger] steps[i]).action is Send
            && steps[i].action->Send_0.write is Create && steps[i].action->Send_0.bucket@ == name {
        let i = choose|i: int|
            0 <= i < k && (#[trigger] steps[i]).action is Send
                && steps[i].action->Send_0.write is Create && steps[i].action->Send_0.bucket@
                == name;
        assert(pair_creation::creates_bucket(steps[i].action, name));
    }
}

/// The request that a creation waits for is that of its next step, or after a failure the next one
/// of the rollback of the step that failed; where there is none the creation is over.
pub proof fn creation_waits_for_its_next_request(
    creation: &PairCreation,
    r: Option<&BucketRequest>,
)
    requires
        call_ensures(PairCreation::pending, (creation,), r),
        creation@.valid(),
    ensures
        creation@.failure is None && creation@.position < creation@.steps.len() ==> r is Some
            && *(r->0) == creation@.steps[creation@.position].action->Send_0,
        creation@.failure is None && creation@.position == creation@.steps.len() ==> r is None,
        creation@.failure is Some ==> {
            let rollback = creation@.steps[creation@.position].rollback@;
            &&& r is Some <==> creation@.undone < rollback.len()
            &&& r is Some ==> *(r->0) == rollback[creation@.undone]
        },
{
}

/// A creation ends well exactly where nothing failed, and then every step was carried out; else it
/// ends with what failed.
pub proof fn creation_ends_as_it_went(creation: PairCreation, r: Result<(), RequestError>)
    requires
        call_ensures(PairCreation::finish, (creation,), r),
    ensures
        r is Ok <==> creation@.failure is None,
        r is Ok ==> creation@.position == creation@.steps.len(),
        r is Err ==> r->Err_0 == creation@.failure->0,
{
}

/// The storage class of a kind is intelligent tiering, but deep archive for replicas.
pub proof fn kind_has_its_storage_class(bucket_type: &Type, r: TransitionStorageClass)
    requires
        call_ensures(bucket_creator::default_storage_class, (bucket_type,), r),
    ensures
        r is DeepArchive <==> *bucket_type == Type::Replication,
        r is IntelligentTiering <==> *bucket_type != Type::Replication,
{
}

/// The class that rules show is the one that names the first rule that is named after a class.
pub proof fn first_named_rule_shows_the_class(
    rules: &Vec<LifecycleRule>,
    r: Option<TransitionStorageClass>,
    i: int,
)
    requires
        call_ensures(bucket_reconciliator::infer_transition_class, (rules,), r),
        0 <= i <= rules@.len(),
        forall|n: int|
            0 <= n < i ==> (#[trigger] rules@[n]).id is None || storage_class::known_class(
                rules@[n].id->0@,
            ) is None,
        i < rules@.len() ==> rules@[i].id is Some && storage_class::known_class(
            rules@[i].id->0@,
        ) is Some,
    ensures
        i == rules@.len() ==> r is None,
        i < rules@.len() ==> r == storage_class::known_class(rules@[i].id->0@),
{
    bucket_reconciliator::rules_show_the_class_they_are_named_after(rules@, i);
}

/// Each pair whose creation failed is reported, in the order of the pairs.
pub proof fn failed_pairs_are_reported(outcomes: &Vec<Result<(), String>>, r: Vec<String>)
    requires
        call_ensures(pair_creation::create_pairs, (outcomes,), r),
    ensures
        r@.map_values(|issue: String| issue@) == outcomes@.filter(
            |outcome: Result<(), String>| outcome is Err,
        ).map_values(|outcome: Result<(), String>| outcome->Err_0@),
{
    pair_creation::every_failed_pair_is_reported(outcomes@);
    assert(r@.map_values(|issue: String| issue@) =~= crate::text::texts(r@));
}

/// A request that was carried out leads to the next step; one that was refused leads to the
/// rollback of its step, with the reason kept; and during the rollback every answer leads to the
/// next request of the rollback.
pub proof fn answer_leads_to_the_next_request(
    creation: &mut PairCreation,
    outcome: Result<(), ServiceError>,
)
    requires
        call_ensures(PairCreation::record, (creation, outcome), ()),
        old(creation)@.valid(),
        old(creation)@.next_request() is Some,
    ensures
        final(creation)@.steps == old(creation)@.steps,
        old(creation)@.failure is Some ==> final(creation)@.failure == old(creation)@.failure
            && final(creation)@.position == old(creation)@.position && final(creation)@.undone
            == old(creation)@.undone + 1,
        old(creation)@.failure is None && outcome is Ok ==> final(creation)@.position
            == old(creation)@.position + 1 && (final(creation)@.failure is None
            || old(creation)@.steps[old(creation)@.position + 1].action is Refuse),
        old(creation)@.failure is None && outcome is Err ==> {
            let request = old(creation)@.steps[old(creation)@.position].action->Send_0;
            &&& final(creation)@.position == old(creation)@.position
            &&& final(creation)@.undone == 0
            &&& final(creation)@.failure is Some
            &&& final(creation)@.failure->0 is S3
            &&& final(creation)@.failure->0->context@ == request.context@
            &&& final(creation)@.failure->0->source == outcome->Err_0
        },
{
}

} // verus!
