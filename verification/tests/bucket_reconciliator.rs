use dcp::bucket::{Bucket, Type};
use dcp::bucket_config::{
    AbortIncompleteMultipartUpload, BucketVersioningStatus, DeleteMarkerReplication, Destination,
    InventoryConfiguration, InventoryDestination, InventoryFormat, InventoryFrequency,
    InventoryIncludedObjectVersions, InventoryOptionalField, InventoryS3BucketDestination,
    InventorySchedule, LifecycleExpiration, LifecycleRule, LifecycleRuleFilter, LoggingEnabled,
    NoncurrentVersionExpiration, NotificationConfiguration, PublicAccessBlockConfiguration,
    ReplicationConfiguration, ReplicationRule, ReplicationRuleFilter, RuleStatus, Transition,
};
use dcp::bucket_creator::{
    default_storage_class, BucketCreatorParams, STORAGE_CLASS_PUBLIC_DEFAULT,
    STORAGE_CLASS_REPLICATION_DEFAULT, STORAGE_CLASS_STANDARD_DEFAULT,
};
use dcp::bucket_reconciliator::{
    infer_transition_class, BucketRead, BucketReconciliator, BucketReplies,
};
use dcp::constants::{
    BUCKET_TAG_TRANSITION_STORAGE_CLASS_KEY, EXPIRE_ABORTED_MULTIPART_DAYS,
    EXPIRE_NONCURRENT_VERSION_DAYS, INVENTORY_ID, MANIFESTS_PREFIX, REPLICATION_RULE_ID,
    REPLICATION_RULE_PRIORITY, STORAGE_TRANSITION_DAYS,
};
use dcp::errors::ServiceError;
use dcp::reconcile_report::{ReconcileReport, StepResult, StepStatus};
use dcp::stack::Stack;
use dcp::storage_class::{parse_storage_class, TransitionStorageClass};
use dcp::tags::Tag;

const TEST_ACCOUNT_ID: &str = "123456789012";
const TEST_REPL_ROLE_ARN: &str = "arn:aws:iam::123456789012:role/test-replication-role";

fn test_stack() -> Stack {
    Stack::named("test-stack")
}

fn service_error(code: &str, message: &str) -> ServiceError {
    ServiceError { code: Some(code.to_string()), message: Some(message.to_string()) }
}

fn lifecycle_full(class: &str) -> Vec<LifecycleRule> {
    let filter = || Some(LifecycleRuleFilter { prefix: Some(String::new()), tag: None });
    vec![
        LifecycleRule {
            id: Some("ExpireOldVersions".to_string()),
            status: RuleStatus::Enabled,
            filter: filter(),
            abort_incomplete_multipart_upload: Some(AbortIncompleteMultipartUpload {
                days_after_initiation: Some(EXPIRE_ABORTED_MULTIPART_DAYS as i32),
            }),
            expiration: Some(LifecycleExpiration {
                days: None,
                expired_object_delete_marker: Some(true),
            }),
            noncurrent_version_expiration: Some(NoncurrentVersionExpiration {
                noncurrent_days: Some(EXPIRE_NONCURRENT_VERSION_DAYS as i32),
            }),
            transitions: vec![],
        },
        LifecycleRule {
            id: Some(class.to_string()),
            status: RuleStatus::Enabled,
            filter: filter(),
            abort_incomplete_multipart_upload: None,
            expiration: None,
            noncurrent_version_expiration: None,
            transitions: vec![Transition {
                days: Some(STORAGE_TRANSITION_DAYS as i32),
                storage_class: parse_storage_class(class),
            }],
        },
    ]
}

fn replication(replica: &str, role: &str, guaranteed: bool) -> ReplicationConfiguration {
    ReplicationConfiguration {
        role: role.to_string(),
        rules: vec![ReplicationRule {
            id: Some(REPLICATION_RULE_ID.to_string()),
            status: RuleStatus::Enabled,
            priority: Some(REPLICATION_RULE_PRIORITY),
            filter: Some(ReplicationRuleFilter { prefix: Some(String::new()) }),
            destination: Some(Destination {
                bucket: format!("arn:aws:s3:::{replica}"),
                replication_time: guaranteed,
                metrics: guaranteed,
            }),
            delete_marker_replication: Some(DeleteMarkerReplication {
                status: Some(RuleStatus::Enabled),
            }),
        }],
    }
}

fn inventory() -> InventoryConfiguration {
    InventoryConfiguration {
        id: INVENTORY_ID.to_string(),
        is_enabled: true,
        included_object_versions: InventoryIncludedObjectVersions::Current,
        schedule: Some(InventorySchedule { frequency: InventoryFrequency::Daily }),
        destination: Some(InventoryDestination {
            s3_bucket_destination: Some(InventoryS3BucketDestination {
                account_id: Some(TEST_ACCOUNT_ID.to_string()),
                bucket: "arn:aws:s3:::test-stack-managed".to_string(),
                format: InventoryFormat::Parquet,
                prefix: Some(MANIFESTS_PREFIX.to_string()),
            }),
        }),
        optional_fields: vec![
            InventoryOptionalField::Size,
            InventoryOptionalField::LastModifiedDate,
            InventoryOptionalField::StorageClass,
            InventoryOptionalField::ReplicationStatus,
        ],
    }
}

fn public_access(blocked: bool) -> PublicAccessBlockConfiguration {
    PublicAccessBlockConfiguration {
        block_public_acls: Some(blocked),
        ignore_public_acls: Some(blocked),
        block_public_policy: Some(blocked),
        restrict_public_buckets: Some(blocked),
    }
}

/// The replies about a bucket that is configured as it should be.
fn all_ok(bucket: &str, replica: &str, class: &str) -> BucketReplies {
    BucketReplies {
        tagging: Ok(vec![Tag::new(BUCKET_TAG_TRANSITION_STORAGE_CLASS_KEY, class)]),
        inference: Err(service_error("Unread", "not read")),
        versioning: Ok(Some(BucketVersioningStatus::Enabled)),
        lifecycle: Ok(lifecycle_full(class)),
        replication: Ok(Some(replication(replica, TEST_REPL_ROLE_ARN, false))),
        notifications: Ok(NotificationConfiguration { event_bridge: true }),
        logging: Ok(Some(LoggingEnabled {
            target_bucket: "test-stack-managed".to_string(),
            target_prefix: format!("audit/{bucket}/"),
        })),
        inventory: Ok(Some(inventory())),
        public_access_block: Ok(Some(public_access(false))),
        policy: Ok(Some(Ok(true))),
    }
}

fn reconcile(name: &str, kind: Type, replica: Option<&str>, replies: &BucketReplies) -> ReconcileReport {
    let stack = test_stack();
    let params = BucketCreatorParams {
        account_id: TEST_ACCOUNT_ID,
        replication_role_arn: TEST_REPL_ROLE_ARN,
        stack: &stack,
    };
    let bucket = Bucket::new(name, kind);
    let replica = replica.map(|name| Bucket::new(name, Type::Replication));
    let reconciliator = BucketReconciliator::new(&params, &bucket, replica.as_ref());
    reconciliator.reconcile(replies)
}

fn standard(replies: &BucketReplies) -> ReconcileReport {
    reconcile("test-stack-example", Type::Standard, Some("test-stack-example-repl"), replies)
}

fn standard_replies() -> BucketReplies {
    let class = STORAGE_CLASS_STANDARD_DEFAULT.as_str();
    all_ok("test-stack-example", "test-stack-example-repl", &class)
}

fn public(replies: &BucketReplies) -> ReconcileReport {
    reconcile(
        "test-stack-data-public",
        Type::Public,
        Some("test-stack-data-public-repl"),
        replies,
    )
}

fn public_replies() -> BucketReplies {
    let class = STORAGE_CLASS_PUBLIC_DEFAULT.as_str();
    all_ok("test-stack-data-public", "test-stack-data-public-repl", &class)
}

fn step<'a>(report: &'a ReconcileReport, name: &str) -> &'a StepStatus {
    &report.steps.iter().find(|s| s.name == name).unwrap().status
}

fn error_text(status: &StepStatus) -> &str {
    match status {
        StepStatus::Error(message) => message,
        other => panic!("expected an error, got {other:?}"),
    }
}

#[test]
fn test_default_storage_class() {
    assert_eq!(
        default_storage_class(&Type::Standard).as_str(),
        STORAGE_CLASS_STANDARD_DEFAULT.as_str()
    );
    assert_eq!(
        default_storage_class(&Type::Public).as_str(),
        STORAGE_CLASS_PUBLIC_DEFAULT.as_str()
    );
    assert_eq!(
        default_storage_class(&Type::Replication).as_str(),
        STORAGE_CLASS_REPLICATION_DEFAULT.as_str()
    );
    assert_eq!(
        default_storage_class(&Type::Internal).as_str(),
        STORAGE_CLASS_STANDARD_DEFAULT.as_str()
    );
}

#[test]
fn test_parse_transition_storage_class() {
    assert!(matches!(
        parse_storage_class("GLACIER_IR"),
        Some(TransitionStorageClass::GlacierIr)
    ));
    assert!(matches!(
        parse_storage_class("DEEP_ARCHIVE"),
        Some(TransitionStorageClass::DeepArchive)
    ));
    assert!(matches!(
        parse_storage_class("INTELLIGENT_TIERING"),
        Some(TransitionStorageClass::IntelligentTiering)
    ));
    assert!(parse_storage_class("not-a-class").is_none());
    assert!(parse_storage_class("").is_none());
}

#[test]
fn storage_classes_have_the_names_of_the_service() {
    for (class, name) in [
        (TransitionStorageClass::DeepArchive, "DEEP_ARCHIVE"),
        (TransitionStorageClass::Glacier, "GLACIER"),
        (TransitionStorageClass::GlacierIr, "GLACIER_IR"),
        (TransitionStorageClass::IntelligentTiering, "INTELLIGENT_TIERING"),
        (TransitionStorageClass::OnezoneIa, "ONEZONE_IA"),
        (TransitionStorageClass::StandardIa, "STANDARD_IA"),
    ] {
        assert_eq!(class.as_str(), name);
        assert_eq!(parse_storage_class(name).unwrap().as_str(), name);
    }
    let other = TransitionStorageClass::Unknown("FROZEN".to_string());
    assert_eq!(other.as_str(), "FROZEN");
    assert!(parse_storage_class("FROZEN").is_none());
    assert!(parse_storage_class("glacier").is_none());
}

#[test]
fn test_reconcile_internal_bucket_unsupported() {
    let report =
        reconcile("test-stack-internal", Type::Internal, None, &BucketReplies::unread());

    assert!(report.has_errors());
    assert_eq!(report.steps.len(), 1);
    assert_eq!(report.steps[0].name, "setup");
    assert!(matches!(report.steps[0].status, StepStatus::Error(_)));
    assert_eq!(
        error_text(&report.steps[0].status),
        "reconciliation not supported for internal buckets"
    );
}

#[test]
fn test_reconcile_public_access_blocked() {
    let mut replies = public_replies();
    replies.public_access_block = Ok(Some(public_access(true)));
    let report = public(&replies);

    assert!(report.has_drift());
    assert!(matches!(step(&report, "public-access"), StepStatus::Drift));
}

#[test]
fn test_reconcile_public_all_ok() {
    let report = public(&public_replies());

    assert_eq!(report.steps.len(), 9);
    assert!(!report.has_errors());
    assert!(!report.has_drift());
}

#[test]
fn test_reconcile_public_missing_policy() {
    let mut replies = public_replies();
    replies.policy = Err(service_error("NoSuchBucketPolicy", "The bucket policy does not exist"));
    let report = public(&replies);

    assert!(report.has_drift());
    assert!(matches!(step(&report, "bucket-policy"), StepStatus::Drift));
}

#[test]
fn test_reconcile_replication_bucket() {
    let class = STORAGE_CLASS_REPLICATION_DEFAULT.as_str();
    let mut replies = BucketReplies::unread();
    replies.tagging = Ok(vec![Tag::new(BUCKET_TAG_TRANSITION_STORAGE_CLASS_KEY, &class)]);
    replies.versioning = Ok(Some(BucketVersioningStatus::Enabled));
    replies.lifecycle = Ok(lifecycle_full(&class));
    let report = reconcile("test-stack-example-repl", Type::Replication, None, &replies);

    assert_eq!(report.steps.len(), 3);
    assert!(!report.has_errors());
    assert!(!report.has_drift());

    let step_names: Vec<&str> = report.steps.iter().map(|s| s.name).collect();
    assert_eq!(step_names, vec!["transition-tag", "versioning", "lifecycle"]);
}

#[test]
fn test_reconcile_report_all_ok() {
    let report = ReconcileReport {
        bucket_name: "test".to_string(),
        bucket_type: Type::Standard,
        steps: vec![StepResult { name: "versioning", status: StepStatus::Conforms }],
    };
    assert!(!report.has_errors());
    assert!(!report.has_drift());
}

#[test]
fn test_reconcile_report_has_drift() {
    let report = ReconcileReport {
        bucket_name: "test".to_string(),
        bucket_type: Type::Standard,
        steps: vec![
            StepResult { name: "versioning", status: StepStatus::Conforms },
            StepResult { name: "lifecycle", status: StepStatus::Drift },
        ],
    };
    assert!(!report.has_errors());
    assert!(report.has_drift());
}

#[test]
fn test_reconcile_report_has_errors() {
    let report = ReconcileReport {
        bucket_name: "test".to_string(),
        bucket_type: Type::Standard,
        steps: vec![
            StepResult { name: "versioning", status: StepStatus::Conforms },
            StepResult { name: "lifecycle", status: StepStatus::Error("fail".to_string()) },
        ],
    };
    assert!(report.has_errors());
    assert!(!report.has_drift());
}

#[test]
fn test_reconcile_standard_all_ok() {
    let report = standard(&standard_replies());

    assert_eq!(report.bucket_name, "test-stack-example");
    assert!(!report.has_errors());
    for step in &report.steps {
        assert!(
            matches!(step.status, StepStatus::Conforms),
            "step '{}' expected Ok, got {:?}",
            step.name,
            step.status,
        );
    }
    assert!(!report.has_drift());
    assert_eq!(report.steps.len(), 7);
}

#[test]
fn test_reconcile_standard_lifecycle_drift_missing_config() {
    let mut replies = standard_replies();
    replies.lifecycle = Err(service_error(
        "NoSuchLifecycleConfiguration",
        "The lifecycle configuration does not exist",
    ));
    let report = standard(&replies);

    assert!(report.has_drift());
    assert!(matches!(step(&report, "lifecycle"), StepStatus::Drift));
}

#[test]
fn test_reconcile_standard_logging_wrong_target() {
    let mut replies = standard_replies();
    replies.logging = Ok(Some(LoggingEnabled {
        target_bucket: "wrong-bucket".to_string(),
        target_prefix: "audit/test-stack-example/".to_string(),
    }));
    let report = standard(&replies);

    assert!(report.has_drift());
    assert!(matches!(step(&report, "logging"), StepStatus::Drift));
}

#[test]
fn test_reconcile_standard_missing_tag_inferred_from_lifecycle() {
    let class = STORAGE_CLASS_STANDARD_DEFAULT.as_str();
    let mut replies = standard_replies();
    replies.tagging = Ok(vec![Tag::new("OtherTag", "value")]);
    replies.inference = Ok(lifecycle_full(&class));
    let report = standard(&replies);

    assert!(report.has_drift());
    assert!(!report.has_errors());

    // Transition tag reports drift (missing).
    assert!(matches!(step(&report, "transition-tag"), StepStatus::Drift));

    // Lifecycle should be Ok (inferred class matches existing rules).
    assert!(matches!(step(&report, "lifecycle"), StepStatus::Conforms));
}

#[test]
fn test_reconcile_standard_missing_tag_no_lifecycle_falls_back_to_default() {
    let mut replies = standard_replies();
    replies.tagging = Err(service_error("NoSuchTagSet", "The TagSet does not exist"));
    let report = standard(&replies);

    // transition-tag drift, everything else ok.
    assert!(matches!(step(&report, "transition-tag"), StepStatus::Drift));
    let lifecycle = step(&report, "lifecycle");
    assert!(
        matches!(lifecycle, StepStatus::Conforms),
        "lifecycle expected Ok with default class, got {:?}",
        lifecycle,
    );
}

#[test]
fn test_reconcile_standard_no_replication_bucket() {
    let report = reconcile("test-stack-example", Type::Standard, None, &standard_replies());

    assert!(report.has_errors());
    assert!(matches!(step(&report, "replication"), StepStatus::Error(_)));
    assert_eq!(error_text(step(&report, "replication")), "no matching replication bucket found");
}

#[test]
fn test_reconcile_standard_notifications_missing_eventbridge() {
    let mut replies = standard_replies();
    replies.notifications = Ok(NotificationConfiguration { event_bridge: false });
    let report = standard(&replies);

    assert!(report.has_drift());
    assert!(matches!(step(&report, "notifications"), StepStatus::Drift));
}

#[test]
fn test_reconcile_standard_replication_drift_wrong_role() {
    let mut replies = standard_replies();
    replies.replication = Ok(Some(replication(
        "test-stack-example-repl",
        "arn:aws:iam::999999999999:role/wrong-role",
        false,
    )));
    let report = standard(&replies);

    assert!(report.has_drift());
    assert!(matches!(step(&report, "replication"), StepStatus::Drift));
}

#[test]
fn test_reconcile_standard_replication_drift_rtc_enabled() {
    let stack = test_stack();
    let params = BucketCreatorParams {
        account_id: TEST_ACCOUNT_ID,
        replication_role_arn: TEST_REPL_ROLE_ARN,
        stack: &stack,
    };
    let bucket = Bucket::new("test-stack-example", Type::Standard);
    let repl_bucket = Bucket::new("test-stack-example-repl", Type::Replication);
    let reconciliator = BucketReconciliator::new(&params, &bucket, Some(&repl_bucket));

    let result = reconciliator.check_replication_config(&Ok(Some(replication(
        "test-stack-example-repl",
        TEST_REPL_ROLE_ARN,
        true,
    ))));

    assert!(matches!(result.status, StepStatus::Drift));
}

#[test]
fn test_reconcile_standard_versioning_suspended() {
    let mut replies = standard_replies();
    replies.versioning = Ok(Some(BucketVersioningStatus::Suspended));
    let report = standard(&replies);

    assert!(report.has_drift());
    assert!(!report.has_errors());
    assert!(matches!(step(&report, "versioning"), StepStatus::Drift));

    // All other steps should be Ok.
    for step in &report.steps {
        if step.name != "versioning" {
            assert!(
                matches!(step.status, StepStatus::Conforms),
                "step '{}' expected Ok, got {:?}",
                step.name,
                step.status,
            );
        }
    }
}

#[test]
fn failed_reads_are_errors_with_code_and_message() {
    let mut replies = public_replies();
    let denied = || service_error("AccessDenied", "not allowed");
    replies.tagging = Err(denied());
    replies.versioning = Err(denied());
    replies.lifecycle = Err(denied());
    replies.replication = Err(denied());
    replies.notifications = Err(denied());
    replies.logging = Err(denied());
    replies.inventory = Err(denied());
    replies.public_access_block = Err(denied());
    replies.policy = Err(denied());
    let report = public(&replies);
    let expected = [
        "get bucket tagging failed (code=AccessDenied): not allowed",
        "get versioning failed (code=AccessDenied): not allowed",
        "get lifecycle configuration failed (code=AccessDenied): not allowed",
        "get replication configuration failed (code=AccessDenied): not allowed",
        "get notifications failed (code=AccessDenied): not allowed",
        "get logging failed (code=AccessDenied): not allowed",
        "get inventory configuration failed (code=AccessDenied): not allowed",
        "get public access block failed (code=AccessDenied): not allowed",
        "get bucket policy failed (code=AccessDenied): not allowed",
    ];
    assert_eq!(report.steps.len(), expected.len());
    for (step, text) in report.steps.iter().zip(expected) {
        assert_eq!(error_text(&step.status), text);
    }
    assert!(!report.has_drift());
}

#[test]
fn a_failed_inference_is_an_error() {
    let mut replies = standard_replies();
    replies.tagging = Ok(vec![]);
    replies.inference = Err(ServiceError { code: None, message: None });
    let report = standard(&replies);
    assert_eq!(
        error_text(step(&report, "transition-tag")),
        "get lifecycle configuration (for transition-tag inference) failed (code=unknown): unknown"
    );
    replies.inference = Err(service_error("NoSuchLifecycleConfiguration", "none"));
    assert!(matches!(step(&standard(&replies), "transition-tag"), StepStatus::Drift));
}

#[test]
fn absent_configuration_is_drift() {
    for code in ["ReplicationConfigurationNotFoundError", "ReplicationConfigurationNotFound"] {
        let mut replies = standard_replies();
        replies.replication = Err(service_error(code, ""));
        assert!(matches!(step(&standard(&replies), "replication"), StepStatus::Drift));
    }
    for code in ["NoSuchConfiguration", "NoSuchInventoryConfiguration"] {
        let mut replies = standard_replies();
        replies.inventory = Err(service_error(code, ""));
        assert!(matches!(step(&standard(&replies), "inventory"), StepStatus::Drift));
    }
    for code in [
        "NoSuchPublicAccessBlockConfiguration",
        "NoSuchPublicAccessBlockConfigurationError",
    ] {
        let mut replies = public_replies();
        replies.public_access_block = Err(service_error(code, ""));
        assert!(matches!(step(&public(&replies), "public-access"), StepStatus::Drift));
    }
    let mut replies = public_replies();
    replies.replication = Ok(None);
    replies.logging = Ok(None);
    replies.inventory = Ok(None);
    replies.public_access_block = Ok(None);
    replies.policy = Ok(None);
    let report = public(&replies);
    for name in ["replication", "logging", "inventory", "public-access", "bucket-policy"] {
        assert!(matches!(step(&report, name), StepStatus::Drift), "{name}");
    }
}

#[test]
fn the_verdict_on_the_policy_is_reported() {
    let mut replies = public_replies();
    replies.policy = Ok(Some(Ok(false)));
    assert!(matches!(step(&public(&replies), "bucket-policy"), StepStatus::Drift));
    replies.policy = Ok(Some(Err("not JSON".to_string())));
    assert_eq!(error_text(step(&public(&replies), "bucket-policy")), "not JSON");
}

#[test]
fn an_invalid_tag_is_drift_and_the_class_is_inferred() {
    let mut replies = standard_replies();
    replies.tagging =
        Ok(vec![Tag::new(BUCKET_TAG_TRANSITION_STORAGE_CLASS_KEY, "not-a-class")]);
    replies.inference = Ok(lifecycle_full("GLACIER"));
    replies.lifecycle = Ok(lifecycle_full("GLACIER"));
    let report = standard(&replies);
    assert!(matches!(step(&report, "transition-tag"), StepStatus::Drift));
    assert!(matches!(step(&report, "lifecycle"), StepStatus::Conforms));
    assert_eq!(infer_transition_class(&lifecycle_full("GLACIER")).unwrap().as_str(), "GLACIER");
    assert!(infer_transition_class(&vec![]).is_none());
}

#[test]
fn rules_for_another_class_are_drift() {
    let mut replies = standard_replies();
    replies.lifecycle = Ok(lifecycle_full("GLACIER"));
    let report = standard(&replies);
    assert!(matches!(step(&report, "transition-tag"), StepStatus::Conforms));
    assert!(matches!(step(&report, "lifecycle"), StepStatus::Drift));
}

#[test]
fn a_missing_column_of_the_inventory_is_drift() {
    let mut replies = standard_replies();
    let mut configuration = inventory();
    configuration.optional_fields.pop();
    replies.inventory = Ok(Some(configuration));
    assert!(matches!(step(&standard(&replies), "inventory"), StepStatus::Drift));
    let mut configuration = inventory();
    configuration.optional_fields.push(InventoryOptionalField::Other);
    replies.inventory = Ok(Some(configuration));
    assert!(matches!(step(&standard(&replies), "inventory"), StepStatus::Conforms));
}

#[test]
fn a_second_replication_rule_is_drift() {
    let mut replies = standard_replies();
    let mut configuration = replication("test-stack-example-repl", TEST_REPL_ROLE_ARN, false);
    let mut other = replication("test-stack-example-repl", TEST_REPL_ROLE_ARN, false);
    configuration.rules.push(other.rules.pop().unwrap());
    replies.replication = Ok(Some(configuration));
    assert!(matches!(step(&standard(&replies), "replication"), StepStatus::Drift));
}

#[test]
fn only_what_is_needed_is_read() {
    let stack = test_stack();
    let params = BucketCreatorParams {
        account_id: TEST_ACCOUNT_ID,
        replication_role_arn: TEST_REPL_ROLE_ARN,
        stack: &stack,
    };
    let replica = Bucket::new("test-stack-a-repl", Type::Replication);
    let standard = Bucket::new("test-stack-a", Type::Standard);
    let internal = Bucket::new("test-stack-i", Type::Internal);
    let public = Bucket::new("test-stack-a-public", Type::Public);
    assert!(BucketReconciliator::new(&params, &internal, None).reads().is_empty());
    assert_eq!(
        BucketReconciliator::new(&params, &replica, None).reads(),
        vec![BucketRead::Tagging, BucketRead::Versioning, BucketRead::Lifecycle]
    );
    assert_eq!(
        BucketReconciliator::new(&params, &standard, None).reads(),
        vec![
            BucketRead::Tagging,
            BucketRead::Versioning,
            BucketRead::Lifecycle,
            BucketRead::Notifications,
            BucketRead::Logging,
            BucketRead::Inventory,
        ]
    );
    let reconciliator = BucketReconciliator::new(&params, &public, Some(&replica));
    assert_eq!(
        reconciliator.reads(),
        vec![
            BucketRead::Tagging,
            BucketRead::Versioning,
            BucketRead::Lifecycle,
            BucketRead::Replication,
            BucketRead::Notifications,
            BucketRead::Logging,
            BucketRead::Inventory,
            BucketRead::PublicAccessBlock,
            BucketRead::Policy,
        ]
    );
    assert!(!reconciliator.infers_class(&Err(service_error("NoSuchTagSet", ""))));
    assert!(reconciliator.infers_class(&Ok(vec![Tag::new("OtherTag", "value")])));
    assert!(!reconciliator
        .infers_class(&Ok(vec![Tag::new(BUCKET_TAG_TRANSITION_STORAGE_CLASS_KEY, "GLACIER")])));
}

#[test]
fn unread_replies_have_no_influence() {
    let class = STORAGE_CLASS_REPLICATION_DEFAULT.as_str();
    let mut full = all_ok("test-stack-x-repl", "other", &class);
    let a = reconcile("test-stack-x-repl", Type::Replication, None, &full);
    full.logging = Err(service_error("AccessDenied", ""));
    full.policy = Ok(None);
    let b = reconcile("test-stack-x-repl", Type::Replication, None, &full);
    assert_eq!(a.steps.len(), 3);
    assert_eq!(b.steps.len(), 3);
    assert!(!a.has_drift() && !a.has_errors() && !b.has_drift() && !b.has_errors());
}

#[test]
fn statuses_have_words() {
    assert_eq!(StepStatus::Conforms.as_str(), "ok");
    assert_eq!(StepStatus::Drift.as_str(), "drift");
    assert_eq!(StepStatus::Error("x".to_string()).as_str(), "error");
}
