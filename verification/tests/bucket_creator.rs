use dcp::bucket::{Bucket, BucketPair, Type};
use dcp::bucket_config::{
    BucketVersioningStatus, InventoryFrequency, InventoryIncludedObjectVersions,
    InventoryOptionalField, NotificationConfiguration, RuleStatus,
};
use dcp::bucket_creator::{
    BucketCreator, BucketCreatorParams, BucketPolicy, BucketRequest, BucketWrite, INVENTORY_FORMAT,
};
use dcp::bucket_reconciliator::{BucketReconciliator, BucketReplies};
use dcp::constants::{
    EXPIRE_ABORTED_MULTIPART_DAYS, EXPIRE_LEGACY_DURACLOUD_FILE_DAYS,
    EXPIRE_NONCURRENT_VERSION_DAYS, STORAGE_TRANSITION_DAYS,
};
use dcp::errors::{RequestError, ServiceError};
use dcp::pair_creation::{create_pair, create_pairs, create_requested_pair, PairCreation};
use dcp::reconcile_report::StepStatus;
use dcp::stack::Stack;
use dcp::storage_class::TransitionStorageClass;
use dcp::tags::find_tag;

const ACCOUNT_ID: &str = "123456789";
const ROLE_ARN: &str = "arn:aws:iam::123456789:role/test-replication-role";

fn params(stack: &Stack) -> BucketCreatorParams<'_> {
    BucketCreatorParams { account_id: ACCOUNT_ID, replication_role_arn: ROLE_ARN, stack }
}

fn failure(code: &str) -> ServiceError {
    ServiceError { code: Some(code.to_string()), message: None }
}

/// What is kept of a bucket after requests, as the storage service would tell it.
fn keep(replies: &mut BucketReplies, policy: &mut Option<BucketPolicy>, request: BucketRequest) {
    match request.write {
        BucketWrite::Create { tags, .. } => {
            replies.tagging = Ok(tags);
            replies.versioning = Ok(None);
            replies.lifecycle = Err(failure("NoSuchLifecycleConfiguration"));
            replies.replication = Err(failure("ReplicationConfigurationNotFoundError"));
            replies.notifications = Ok(NotificationConfiguration { event_bridge: false });
            replies.logging = Ok(None);
            replies.inventory = Err(failure("NoSuchConfiguration"));
            replies.public_access_block = Ok(None);
            replies.policy = Err(failure("NoSuchBucketPolicy"));
        }
        BucketWrite::Delete => *replies = BucketReplies::unread(),
        BucketWrite::PutPolicy(p) => {
            *policy = Some(p);
            replies.policy = Ok(Some(Ok(p == BucketPolicy::PublicRead)));
        }
        BucketWrite::DeletePolicy => {
            *policy = None;
            replies.policy = Err(failure("NoSuchBucketPolicy"));
        }
        BucketWrite::PutVersioning(status) => replies.versioning = Ok(Some(status)),
        BucketWrite::PutLifecycle(rules) => replies.lifecycle = Ok(rules),
        BucketWrite::PutNotifications(n) => replies.notifications = Ok(n),
        BucketWrite::PutLogging(logging) => replies.logging = Ok(Some(logging)),
        BucketWrite::PutInventory { id, configuration } => {
            assert_eq!(id, "inventory");
            replies.inventory = Ok(Some(configuration));
        }
        BucketWrite::PutPublicAccessBlock(block) => replies.public_access_block = Ok(Some(block)),
        BucketWrite::PutReplication(configuration) => {
            replies.replication = Ok(Some(configuration));
        }
    }
}

fn build(creator: &BucketCreator<'_>) -> (BucketReplies, Option<BucketPolicy>) {
    let mut replies = BucketReplies::unread();
    let mut policy = None;
    keep(&mut replies, &mut policy, creator.create("us-west-2"));
    for request in creator.setup().expect("bucket setup failed") {
        keep(&mut replies, &mut policy, request);
    }
    (replies, policy)
}

fn verify_bucket_tags(replies: &BucketReplies, stack: &str, kind: &str) {
    let tags = replies.tagging.as_ref().unwrap();
    assert_eq!(find_tag(tags, "BucketOrigin"), Some("bucket-request"));
    assert_eq!(find_tag(tags, "Stack"), Some(stack));
    assert_eq!(find_tag(tags, "BucketType"), Some(kind));
}

fn verify_lifecycle_policy(replies: &BucketReplies, expected_class: &str) {
    let rules = replies.lifecycle.as_ref().unwrap();
    let find = |id: &str| rules.iter().find(|r| r.id.as_deref() == Some(id)).unwrap();

    let expire_rule = find("ExpireOldVersions");
    assert_eq!(expire_rule.status, RuleStatus::Enabled);
    assert_eq!(
        expire_rule.abort_incomplete_multipart_upload.unwrap().days_after_initiation,
        Some(EXPIRE_ABORTED_MULTIPART_DAYS as i32)
    );
    assert_eq!(
        expire_rule.noncurrent_version_expiration.unwrap().noncurrent_days,
        Some(EXPIRE_NONCURRENT_VERSION_DAYS as i32)
    );
    assert_eq!(expire_rule.expiration.unwrap().expired_object_delete_marker, Some(true));

    let transition_rule = find(expected_class);
    assert_eq!(transition_rule.status, RuleStatus::Enabled);
    assert_eq!(transition_rule.transitions.len(), 1);
    let transition = &transition_rule.transitions[0];
    assert_eq!(transition.days, Some(STORAGE_TRANSITION_DAYS as i32));
    assert_eq!(transition.storage_class.as_ref().unwrap().as_str(), expected_class);

    let legacy_rule = find("ExpireLegacyDuraCloudFiles");
    assert_eq!(legacy_rule.status, RuleStatus::Enabled);
    assert_eq!(
        legacy_rule.expiration.unwrap().days,
        Some(EXPIRE_LEGACY_DURACLOUD_FILE_DAYS as i32)
    );
    let tag = legacy_rule.filter.as_ref().unwrap().tag.as_ref().unwrap();
    assert_eq!(tag.key, "ObsoleteDuraCloudFile");
    assert_eq!(tag.value, "true");
}

fn verify_inventory_configured(replies: &BucketReplies, stack: &str) {
    let inv = replies.inventory.as_ref().unwrap().as_ref().unwrap();
    assert!(inv.is_enabled);
    assert_eq!(inv.id, "inventory");
    assert_eq!(inv.included_object_versions, InventoryIncludedObjectVersions::Current);
    assert_eq!(inv.schedule.unwrap().frequency, InventoryFrequency::Daily);
    let dest = inv.destination.as_ref().unwrap().s3_bucket_destination.as_ref().unwrap();
    assert_eq!(dest.bucket, format!("arn:aws:s3:::{stack}-managed"));
    assert_eq!(dest.format, INVENTORY_FORMAT);
    assert_eq!(dest.prefix.as_deref(), Some("manifests"));
    assert_eq!(dest.account_id.as_deref(), Some(ACCOUNT_ID));
    for field in [
        InventoryOptionalField::Size,
        InventoryOptionalField::LastModifiedDate,
        InventoryOptionalField::StorageClass,
        InventoryOptionalField::ReplicationStatus,
    ] {
        assert!(inv.optional_fields.contains(&field));
    }
}

fn verify_logging_enabled(replies: &BucketReplies, stack: &str, bucket: &str) {
    let logging = replies.logging.as_ref().unwrap().as_ref().unwrap();
    assert_eq!(logging.target_bucket, format!("{stack}-managed"));
    assert_eq!(logging.target_prefix, format!("audit/{bucket}/"));
}

fn verify_replication_configured(replies: &BucketReplies, dest: &str) {
    let config = replies.replication.as_ref().unwrap().as_ref().unwrap();
    assert_eq!(config.role, ROLE_ARN);
    assert_eq!(config.rules.len(), 1);
    let rule = &config.rules[0];
    assert_eq!(rule.id.as_deref(), Some("ReplicateAll"));
    assert_eq!(rule.status, RuleStatus::Enabled);
    assert_eq!(rule.priority, Some(1));
    assert_eq!(rule.filter.as_ref().unwrap().prefix.as_deref(), Some(""));
    let destination = rule.destination.as_ref().unwrap();
    assert_eq!(destination.bucket, format!("arn:aws:s3:::{dest}"));
    assert!(!destination.replication_time);
    assert!(!destination.metrics);
    assert_eq!(rule.delete_marker_replication.unwrap().status, Some(RuleStatus::Enabled));
}

fn assert_conforms(stack: &Stack, bucket: &Bucket, replica: Option<&Bucket>, replies: &BucketReplies) {
    let reconciliator = BucketReconciliator::new(&params(stack), bucket, replica);
    let report = reconciliator.reconcile(replies);
    for step in &report.steps {
        assert!(matches!(step.status, StepStatus::Conforms), "{}: {:?}", step.name, step.status);
    }
}

#[test]
fn test_setup_unsupported_for_internal_bucket() {
    let stack = Stack::named("test-stack");
    let bucket = Bucket::new("test-internal", Type::Internal);
    let creator = BucketCreator::new(params(&stack), &bucket, None);

    let result = creator.setup();

    assert!(result.is_err());
    match result.unwrap_err() {
        RequestError::UnsupportedOperation(msg) => {
            assert!(msg.contains("setup not supported for internal buckets"))
        }
        e => panic!("Expected UnsupportedOperation, got {:?}", e),
    }
}

#[test]
fn test_create_standard_bucket() {
    let stack = Stack::named("int-test");
    let bucket = Bucket::new("int-test-inttest-std-1", Type::Standard);
    let creator =
        BucketCreator::new(params(&stack), &bucket, Some(TransitionStorageClass::GlacierIr));

    let (replies, policy) = build(&creator);

    verify_bucket_tags(&replies, "int-test", "standard");
    assert_eq!(replies.versioning.as_ref().unwrap(), &Some(BucketVersioningStatus::Enabled));
    verify_lifecycle_policy(&replies, "GLACIER_IR");
    assert!(replies.notifications.as_ref().unwrap().event_bridge);
    verify_inventory_configured(&replies, "int-test");
    verify_logging_enabled(&replies, "int-test", "int-test-inttest-std-1");
    assert!(policy.is_none());
}

#[test]
fn test_create_public_bucket() {
    let stack = Stack::named("int-test");
    let bucket = Bucket::new("int-test-inttest-pub-1-public", Type::Public);
    let creator = BucketCreator::new(params(&stack), &bucket, None);

    let (replies, policy) = build(&creator);

    verify_bucket_tags(&replies, "int-test", "public");
    assert_eq!(replies.versioning.as_ref().unwrap(), &Some(BucketVersioningStatus::Enabled));
    verify_lifecycle_policy(&replies, "INTELLIGENT_TIERING");
    assert!(replies.notifications.as_ref().unwrap().event_bridge);
    verify_inventory_configured(&replies, "int-test");
    verify_logging_enabled(&replies, "int-test", "int-test-inttest-pub-1-public");
    let pab = replies.public_access_block.as_ref().unwrap().unwrap();
    assert_eq!(pab.block_public_acls, Some(false));
    assert_eq!(pab.ignore_public_acls, Some(false));
    assert_eq!(pab.block_public_policy, Some(false));
    assert_eq!(pab.restrict_public_buckets, Some(false));
    assert_eq!(policy, Some(BucketPolicy::PublicRead));
}

#[test]
fn test_create_replication_bucket() {
    let stack = Stack::named("int-test");
    let bucket = Bucket::new("int-test-inttest-repl-1-repl", Type::Replication);
    let creator = BucketCreator::new(params(&stack), &bucket, None);

    let (replies, policy) = build(&creator);

    verify_bucket_tags(&replies, "int-test", "replication");
    assert_eq!(replies.versioning.as_ref().unwrap(), &Some(BucketVersioningStatus::Enabled));
    verify_lifecycle_policy(&replies, "DEEP_ARCHIVE");
    assert!(!replies.notifications.as_ref().unwrap().event_bridge);
    assert!(replies.logging.as_ref().unwrap().is_none());
    assert!(replies.inventory.is_err());
    assert!(policy.is_none());
    assert_conforms(&stack, &bucket, None, &replies);
}

#[test]
fn test_create_standard_bucket_pair_with_replication() {
    let stack = Stack::named("int-test");
    let primary = Bucket::new("int-test-inttest-pair-1", Type::Standard);
    let replication = Bucket::new("int-test-inttest-pair-1-repl", Type::Replication);
    let creator =
        BucketCreator::new(params(&stack), &primary, Some(TransitionStorageClass::GlacierIr));

    let (mut replies, mut policy) = build(&creator);
    keep(&mut replies, &mut policy, creator.enable_replication(&replication));

    verify_replication_configured(&replies, "int-test-inttest-pair-1-repl");
    assert_conforms(&stack, &primary, Some(&replication), &replies);
}

#[test]
fn test_create_public_bucket_pair_with_replication() {
    let stack = Stack::named("int-test");
    let primary = Bucket::new("int-test-inttest-pairpub-1-public", Type::Public);
    let replication = Bucket::new("int-test-inttest-pairpub-1-public-repl", Type::Replication);
    let creator = BucketCreator::new(params(&stack), &primary, None);

    let (mut replies, mut policy) = build(&creator);
    keep(&mut replies, &mut policy, creator.enable_replication(&replication));

    assert_eq!(policy, Some(BucketPolicy::PublicRead));
    verify_replication_configured(&replies, "int-test-inttest-pairpub-1-public-repl");
    assert_conforms(&stack, &primary, Some(&replication), &replies);
}

#[test]
fn test_rollback_deletes_bucket() {
    let stack = Stack::named("int-test");
    let bucket = Bucket::new("int-test-inttest-rollback-1", Type::Standard);
    let creator =
        BucketCreator::new(params(&stack), &bucket, Some(TransitionStorageClass::GlacierIr));
    let request = creator.rollback();
    assert_eq!(request.bucket, "int-test-inttest-rollback-1");
    assert!(matches!(request.write, BucketWrite::Delete));
    assert_eq!(request.context, "failed to delete bucket int-test-inttest-rollback-1");
}

#[test]
fn the_default_region_is_not_named() {
    let stack = Stack::named("s");
    let bucket = Bucket::new("s-a", Type::Standard);
    let creator = BucketCreator::new(params(&stack), &bucket, None);
    match creator.create("us-east-1").write {
        BucketWrite::Create { tags, location_constraint } => {
            assert_eq!(location_constraint, None);
            assert_eq!(tags.len(), 4);
            assert_eq!(tags[3].key, "TransitionStorageClass");
            assert_eq!(tags[3].value, "INTELLIGENT_TIERING");
        }
        other => panic!("{other:?}"),
    }
    match creator.create("us-west-2").write {
        BucketWrite::Create { location_constraint, .. } => {
            assert_eq!(location_constraint.as_deref(), Some("us-west-2"));
        }
        other => panic!("{other:?}"),
    }
    assert_eq!(creator.create("us-west-2").context, "failed to create bucket s-a");
}

#[test]
fn setup_requests_come_in_order() {
    let stack = Stack::named("s");
    let contexts = |bucket: &Bucket| -> Vec<String> {
        let creator = BucketCreator::new(params(&stack), bucket, None);
        creator.setup().unwrap().into_iter().map(|r| r.context).collect()
    };
    let closed = [
        "failed to apply deny upload policy to s-a",
        "failed to enable versioning on s-a",
        "failed to apply lifecycle policy s-a",
        "failed to enable notifications on s-a",
        "failed to enable logging on s-a",
        "failed to enable inventory on s-a",
        "failed to remove deny upload policy from s-a",
    ];
    assert_eq!(contexts(&Bucket::new("s-a", Type::Standard)), closed);
    let mut open = closed.to_vec();
    open.push("failed to enable public access on s-a");
    open.push("failed to apply public access policy to s-a");
    assert_eq!(contexts(&Bucket::new("s-a", Type::Public)), open);
    assert_eq!(
        contexts(&Bucket::new("s-a", Type::Replication)),
        ["failed to enable versioning on s-a", "failed to apply lifecycle policy s-a"]
    );
    let bucket = Bucket::new("s-a", Type::Standard);
    let creator = BucketCreator::new(params(&stack), &bucket, None);
    let replica = Bucket::new("s-a-repl", Type::Replication);
    assert_eq!(
        creator.enable_replication(&replica).context,
        "failed to enable replication from s-a to s-a-repl"
    );
}

/// Runs a creation in which the request number `fails` is refused; gives what was sent and
/// how it ended.
fn run(mut creation: PairCreation, fails: usize) -> (Vec<String>, Result<(), RequestError>) {
    let mut sent = Vec::new();
    while let Some(request) = creation.pending() {
        let word = match &request.write {
            BucketWrite::Create { .. } => "create",
            BucketWrite::Delete => "delete",
            BucketWrite::PutReplication(_) => "replicate",
            _ => "set",
        };
        sent.push(format!("{word} {}", request.bucket));
        let outcome = if sent.len() == fails + 1 { Err(failure("Refused")) } else { Ok(()) };
        creation.record(outcome);
    }
    (sent, creation.finish())
}

fn pair_creation(stack: &Stack) -> PairCreation {
    let primary = Bucket::new("s-a", Type::Standard);
    let replica = Bucket::new("s-a-repl", Type::Replication);
    create_pair(params(stack), &primary, &replica, None, None, "us-west-2")
}

#[test]
fn a_pair_is_created_step_by_step() {
    let stack = Stack::named("s");
    let (sent, result) = run(pair_creation(&stack), 1000);
    assert!(result.is_ok());
    let mut expected = vec!["create s-a".to_string()];
    expected.extend(vec!["set s-a".to_string(); 7]);
    expected.push("create s-a-repl".to_string());
    expected.extend(vec!["set s-a-repl".to_string(); 2]);
    expected.push("replicate s-a".to_string());
    assert_eq!(sent, expected);
}

#[test]
fn a_failed_creation_is_undone() {
    let stack = Stack::named("s");
    let undone = |fails: usize| -> (Vec<String>, String) {
        let (sent, result) = run(pair_creation(&stack), fails);
        let context = match result {
            Err(RequestError::S3 { context, source }) => {
                assert_eq!(source.code.as_deref(), Some("Refused"));
                context
            }
            other => panic!("{other:?}"),
        };
        (sent[fails + 1..].to_vec(), context)
    };
    assert_eq!(undone(0), (vec![], "failed to create bucket s-a".to_string()));
    assert_eq!(
        undone(3),
        (vec!["delete s-a".to_string()], "failed to apply lifecycle policy s-a".to_string())
    );
    assert_eq!(
        undone(8),
        (vec!["delete s-a".to_string()], "failed to create bucket s-a-repl".to_string())
    );
    assert_eq!(
        undone(9),
        (
            vec!["delete s-a-repl".to_string(), "delete s-a".to_string()],
            "failed to enable versioning on s-a-repl".to_string()
        )
    );
    assert_eq!(
        undone(11),
        (
            vec!["delete s-a".to_string(), "delete s-a-repl".to_string()],
            "failed to enable replication from s-a to s-a-repl".to_string()
        )
    );
}

#[test]
fn a_failed_rollback_does_not_hide_the_failure() {
    let stack = Stack::named("s");
    let mut creation = pair_creation(&stack);
    let mut n = 0;
    while creation.pending().is_some() {
        let outcome = if n >= 9 { Err(failure("Refused")) } else { Ok(()) };
        creation.record(outcome);
        n += 1;
    }
    assert_eq!(n, 12);
    assert!(matches!(creation.finish(),
        Err(RequestError::S3 { context, .. }) if context == "failed to enable versioning on s-a-repl"));
}

#[test]
fn an_internal_bucket_is_deleted_again() {
    let stack = Stack::named("s");
    let primary = Bucket::new("s-i", Type::Internal);
    let replica = Bucket::new("s-i-repl", Type::Replication);
    let creation = create_pair(params(&stack), &primary, &replica, None, None, "us-west-2");
    let (sent, result) = run(creation, 1000);
    assert_eq!(sent, ["create s-i", "delete s-i"]);
    assert!(matches!(result,
        Err(RequestError::UnsupportedOperation(m)) if m == "setup not supported for internal buckets"));
}

fn tier_of(creation: &PairCreation) -> String {
    match &creation.pending().unwrap().write {
        BucketWrite::Create { tags, .. } => tags[3].value.clone(),
        other => panic!("{other:?}"),
    }
}

#[test]
fn only_standard_buckets_take_another_tier() {
    let stack = Stack::named("s");
    let tier = TransitionStorageClass::GlacierIr;
    let standard = BucketPair::new(
        Bucket::new("s-a", Type::Standard),
        Bucket::new("s-a-repl", Type::Replication),
    );
    let public = BucketPair::new(
        Bucket::new("s-a-public", Type::Public),
        Bucket::new("s-a-public-repl", Type::Replication),
    );
    let creation = create_requested_pair(params(&stack), &standard, &tier, "us-west-2");
    assert_eq!(tier_of(&creation), "GLACIER_IR");
    let creation = create_requested_pair(params(&stack), &public, &tier, "us-west-2");
    assert_eq!(tier_of(&creation), "INTELLIGENT_TIERING");
}

#[test]
fn issues_are_collected_in_order() {
    let outcomes =
        vec![Err("first".to_string()), Ok(()), Err("second".to_string())];
    assert_eq!(create_pairs(&outcomes), ["first", "second"]);
    assert!(create_pairs(&vec![Ok(()), Ok(())]).is_empty());
}
