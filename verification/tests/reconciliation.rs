use dcp::bucket::{Bucket, Type};
use dcp::bucket_config::{
    AbortIncompleteMultipartUpload, BucketVersioningStatus, DeleteMarkerReplication, Destination,
    InventoryConfiguration, InventoryDestination, InventoryFormat, InventoryFrequency,
    InventoryIncludedObjectVersions, InventoryOptionalField, InventoryS3BucketDestination,
    InventorySchedule, LifecycleExpiration, LifecycleRule, LifecycleRuleFilter, LoggingEnabled,
    NoncurrentVersionExpiration, NotificationConfiguration, ReplicationConfiguration,
    ReplicationRule, ReplicationRuleFilter, RuleStatus, Transition,
};
use dcp::bucket_creator::BucketCreatorParams;
use dcp::bucket_listing::{get_requested, BucketListing};
use dcp::bucket_reconciliator::{BucketReconciliator, BucketReplies};
use dcp::constants::{
    EXPIRE_ABORTED_MULTIPART_DAYS, EXPIRE_NONCURRENT_VERSION_DAYS, STORAGE_TRANSITION_DAYS,
};
use dcp::errors::{BucketReconciliationError, RequestError};
use dcp::reconcile_report::{ReconcileReport, ReconciliationReport, StepResult, StepStatus};
use dcp::reconciliation::{perform, reconcile_targets, PerformArgs};
use dcp::reconciliation_command::{heading, run, Args};
use dcp::stack::Stack;
use dcp::storage_class::parse_storage_class;
use dcp::tags::Tag;

fn report(name: &str, kind: Type, steps: Vec<(&'static str, StepStatus)>) -> ReconcileReport {
    ReconcileReport {
        bucket_name: name.to_string(),
        bucket_type: kind,
        steps: steps.into_iter().map(|(name, status)| StepResult { name, status }).collect(),
    }
}

fn ok(name: &str, kind: Type) -> ReconcileReport {
    report(name, kind, vec![("versioning", StepStatus::Conforms)])
}

fn drift(name: &str, kind: Type) -> ReconcileReport {
    report(name, kind, vec![("versioning", StepStatus::Drift)])
}

fn error(name: &str, kind: Type) -> ReconcileReport {
    report(
        name,
        kind,
        vec![
            ("versioning", StepStatus::Drift),
            ("replication", StepStatus::Error("no matching replication bucket found".to_string())),
        ],
    )
}

fn test_args() -> PerformArgs {
    PerformArgs { fail_on_drift: false }
}

const TEST_STACK: &str = "test-stack";
const TEST_ACCOUNT_ID: &str = "123456789";
const TEST_REPL_ROLE_ARN: &str = "arn:aws:iam::123456789:role/test-replication-role";

/// A bucket of the account that was created on request.
fn requested(name: &str, kind: &str) -> BucketListing {
    BucketListing {
        name: Some(name.to_string()),
        tags: Ok(vec![
            Tag::new("Stack", TEST_STACK),
            Tag::new("BucketType", kind),
            Tag::new("BucketOrigin", "bucket-request"),
        ]),
        naming: Ok(()),
    }
}

fn lifecycle_full(class: &str) -> Vec<LifecycleRule> {
    let filter = || Some(LifecycleRuleFilter { prefix: Some(String::new()), tag: None });
    vec![
        LifecycleRule {
            id: Some("ExpireOldVersions".to_string()),
            status: RuleStatus::Enabled,
            filter: filter(),
            abort_incomplete_multipart_upload: Some(AbortIncompleteMultipartUpload {
                days_after_initiation: Some(EXPIRE_ABORTED_MULTIPART_DAYS as i32),
            }),
            expiration: Some(LifecycleExpiration {
                days: None,
                expired_object_delete_marker: Some(true),
            }),
            noncurrent_version_expiration: Some(NoncurrentVersionExpiration {
                noncurrent_days: Some(EXPIRE_NONCURRENT_VERSION_DAYS as i32),
            }),
            transitions: vec![],
        },
        LifecycleRule {
            id: Some(class.to_string()),
            status: RuleStatus::Enabled,
            filter: filter(),
            abort_incomplete_multipart_upload: None,
            expiration: None,
            noncurrent_version_expiration: None,
            transitions: vec![Transition {
                days: Some(STORAGE_TRANSITION_DAYS as i32),
                storage_class: parse_storage_class(class),
            }],
        },
    ]
}

/// The replies about a standard bucket that is replicated to `replica`, where there is one.
fn standard_replies(
    bucket: &str,
    replica: Option<&str>,
    versioning: BucketVersioningStatus,
) -> BucketReplies {
    let class = "GLACIER_IR";
    let mut replies = BucketReplies::unread();
    replies.tagging = Ok(vec![Tag::new("TransitionStorageClass", class)]);
    replies.versioning = Ok(Some(versioning));
    replies.lifecycle = Ok(lifecycle_full(class));
    if let Some(replica) = replica {
        replies.replication = Ok(Some(ReplicationConfiguration {
            role: TEST_REPL_ROLE_ARN.to_string(),
            rules: vec![ReplicationRule {
                id: Some("ReplicateAll".to_string()),
                status: RuleStatus::Enabled,
                priority: Some(1),
                filter: Some(ReplicationRuleFilter { prefix: Some(String::new()) }),
                destination: Some(Destination {
                    bucket: format!("arn:aws:s3:::{replica}"),
                    replication_time: false,
                    metrics: false,
                }),
                delete_marker_replication: Some(DeleteMarkerReplication {
                    status: Some(RuleStatus::Enabled),
                }),
            }],
        }));
    }
    replies.notifications = Ok(NotificationConfiguration { event_bridge: true });
    replies.logging = Ok(Some(LoggingEnabled {
        target_bucket: format!("{TEST_STACK}-managed"),
        target_prefix: format!("audit/{bucket}/"),
    }));
    replies.inventory = Ok(Some(InventoryConfiguration {
        id: "inventory".to_string(),
        is_enabled: true,
        included_object_versions: InventoryIncludedObjectVersions::Current,
        schedule: Some(InventorySchedule { frequency: InventoryFrequency::Daily }),
        destination: Some(InventoryDestination {
            s3_bucket_destination: Some(InventoryS3BucketDestination {
                account_id: Some(TEST_ACCOUNT_ID.to_string()),
                bucket: format!("arn:aws:s3:::{TEST_STACK}-managed"),
                format: InventoryFormat::Parquet,
                prefix: Some("manifests".to_string()),
            }),
        }),
        optional_fields: vec![
            InventoryOptionalField::Size,
            InventoryOptionalField::LastModifiedDate,
            InventoryOptionalField::StorageClass,
            InventoryOptionalField::ReplicationStatus,
        ],
    }));
    replies
}

/// The replies about a replica.
fn replica_replies() -> BucketReplies {
    let class = "DEEP_ARCHIVE";
    let mut replies = BucketReplies::unread();
    replies.tagging = Ok(vec![Tag::new("TransitionStorageClass", class)]);
    replies.versioning = Ok(Some(BucketVersioningStatus::Enabled));
    replies.lifecycle = Ok(lifecycle_full(class));
    replies
}

/// Lists the account and reconciles the requested buckets of the stack with the replies,
/// which come in the order in which the buckets are reconciled.
fn perform_stack(
    args: &PerformArgs,
    listings: Vec<BucketListing>,
    replies: Vec<(&str, BucketReplies)>,
) -> Result<ReconciliationReport, BucketReconciliationError> {
    let stack = Stack::named(TEST_STACK);
    let params = BucketCreatorParams {
        account_id: TEST_ACCOUNT_ID,
        replication_role_arn: TEST_REPL_ROLE_ARN,
        stack: &stack,
    };
    let buckets = match get_requested(&stack, &Ok(listings)) {
        Ok(buckets) => buckets,
        Err(e) => return perform(args, Err(e)),
    };
    let targets = reconcile_targets(&buckets);
    assert_eq!(targets.len(), replies.len());
    let mut reports = Vec::new();
    for (target, (name, replies)) in targets.iter().zip(replies) {
        assert_eq!(target.bucket.name(), name);
        let reconciliator =
            BucketReconciliator::new(&params, &target.bucket, target.replica.as_ref());
        reports.push(reconciliator.reconcile(&replies));
    }
    perform(args, Ok(reports))
}

#[test]
fn test_perform_aggregates_ok_drift_and_error_counts() {
    let alpha = "test-stack-alpha";
    let alpha_repl = "test-stack-alpha-repl";
    let beta = "test-stack-beta";

    let report = perform_stack(
        &test_args(),
        vec![
            requested(alpha, "standard"),
            requested(alpha_repl, "replication"),
            requested(beta, "standard"),
        ],
        vec![
            (alpha, standard_replies(alpha, Some(alpha_repl), BucketVersioningStatus::Suspended)),
            (beta, standard_replies(beta, None, BucketVersioningStatus::Enabled)),
            (alpha_repl, replica_replies()),
        ],
    )
    .expect("perform should return report even with drift/error");

    assert_eq!(report.processed, 3);
    assert_eq!(report.ok, 1); // alpha-repl
    assert_eq!(report.drift, 1); // alpha (versioning drift)
    assert_eq!(report.errors, 1); // beta (missing repl pair -> replication step error)
    assert!(report.has_drift());
    assert!(report.has_errors());

    // Reports are sorted by bucket name.
    let names: Vec<&str> = report.bucket_reports.iter().map(|r| r.bucket_name.as_str()).collect();
    assert_eq!(names, vec![alpha, alpha_repl, beta]);
}

#[test]
fn test_perform_best_effort_pairing_missing_replication_does_not_crash() {
    let source = "test-stack-alpha";

    let report = perform_stack(
        &test_args(),
        vec![requested(source, "standard")],
        vec![(source, standard_replies(source, None, BucketVersioningStatus::Enabled))],
    )
    .expect("missing replication pair should be reported, not crash perform()");

    assert_eq!(report.processed, 1);
    assert_eq!(report.ok, 0);
    assert_eq!(report.drift, 0);
    assert_eq!(report.errors, 1);
    assert!(report.has_errors());

    let bucket_report = &report.bucket_reports[0];
    assert_eq!(bucket_report.bucket_name, source);
    let repl_step = bucket_report
        .steps
        .iter()
        .find(|s| s.name == "replication")
        .expect("replication step should exist for source bucket");
    assert!(matches!(repl_step.status, StepStatus::Error(_)));
}

#[test]
fn test_perform_empty_stack_returns_empty_report() {
    let report = perform_stack(&test_args(), vec![], vec![]).expect("empty stack should not error");

    assert_eq!(report.processed, 0);
    assert_eq!(report.ok, 0);
    assert_eq!(report.drift, 0);
    assert_eq!(report.errors, 0);
    assert!(report.bucket_reports.is_empty());
    assert!(!report.has_drift());
    assert!(!report.has_errors());
}

#[test]
fn test_perform_fail_on_drift_returns_error() {
    let source = "test-stack-alpha";
    let repl = "test-stack-alpha-repl";
    let args = PerformArgs { fail_on_drift: true };

    let err = perform_stack(
        &args,
        vec![requested(source, "standard"), requested(repl, "replication")],
        vec![
            (source, standard_replies(source, Some(repl), BucketVersioningStatus::Suspended)),
            (repl, replica_replies()),
        ],
    )
    .expect_err("fail_on_drift should return error when drift exists");

    match err {
        BucketReconciliationError::DriftDetected(msg) => {
            assert!(msg.contains("1 bucket(s) have configuration drift"));
        }
        other => panic!("unexpected error: {other:?}"),
    }
}

#[test]
fn errors_alone_do_not_fail_on_drift() {
    let args = PerformArgs { fail_on_drift: true };
    assert!(perform(&args, Ok(vec![error("a", Type::Standard)])).is_ok());
    assert!(!PerformArgs::default().fail_on_drift);
    assert!(matches!(
        perform(&args, Err(RequestError::InvalidContentType)),
        Err(BucketReconciliationError::Request(RequestError::InvalidContentType))
    ));
}

#[test]
fn sources_are_reconciled_first() {
    let buckets = vec![
        Bucket::new("a-repl", Type::Replication),
        Bucket::new("b-public", Type::Public),
        Bucket::new("m", Type::Internal),
        Bucket::new("a", Type::Standard),
    ];
    let targets: Vec<(String, Option<String>)> = reconcile_targets(&buckets)
        .iter()
        .map(|t| {
            let replica = t.replica.as_ref().map(|b| b.name().to_string());
            (t.bucket.name().to_string(), replica)
        })
        .collect();
    let expected = [
        ("b-public", None),
        ("a", Some("a-repl")),
        ("a-repl", None),
        ("m", None),
    ];
    assert_eq!(targets.len(), expected.len());
    for (found, wanted) in targets.iter().zip(expected) {
        assert_eq!(found.0, wanted.0);
        assert_eq!(found.1.as_deref(), wanted.1);
    }
}

fn args(fail_on_drift: bool) -> Args {
    Args { stack: "s".to_string(), fail_on_drift }
}

#[test]
fn the_command_prints_the_report() {
    assert_eq!(heading("s"), "Evaluating buckets for stack: s");
    let report = ReconciliationReport::from_reports(vec![
        report(
            "s-a",
            Type::Standard,
            vec![
                ("transition-tag", StepStatus::Conforms),
                ("versioning", StepStatus::Error("two\n  lines ".to_string())),
            ],
        ),
        drift("s-b-public", Type::Public),
    ]);
    let outcome = run(&args(false), &report);
    let expected = [
        "Found 2 bucket-request bucket(s) for reconciliation\n".to_string(),
        "s-a (standard)".to_string(),
        format!("\t{:18} {}", "transition-tag:", "ok"),
        format!("\t{:18} {}", "versioning:", "error"),
        format!("\t{:18} {}", "", "two lines"),
        format!("\t{:18} {}\n", "result:", "ERROR"),
        "s-b-public (public)".to_string(),
        format!("\t{:18} {}", "versioning:", "drift"),
        format!("\t{:18} {}\n", "result:", "DRIFT"),
        "Summary: 2 buckets processed, 0 ok, 1 drift, 1 errors".to_string(),
    ];
    assert_eq!(outcome.lines, expected);
    assert_eq!(outcome.result.unwrap_err(), "reconciliation reported 1 error(s)");
}

#[test]
fn the_command_fails_on_drift_only_on_demand() {
    let drifted = ReconciliationReport::from_reports(vec![
        ok("s-a", Type::Standard),
        drift("s-b", Type::Standard),
    ]);
    assert!(run(&args(false), &drifted).result.is_ok());
    assert_eq!(
        run(&args(true), &drifted).result.unwrap_err(),
        "reconciliation reported 1 bucket(s) with drift"
    );
    let fine = ReconciliationReport::from_reports(vec![ok("s-a", Type::Standard)]);
    let outcome = run(&args(true), &fine);
    assert!(outcome.result.is_ok());
    assert_eq!(outcome.lines[3], format!("\t{:18} {}\n", "result:", "OK"));
}

#[test]
fn the_command_says_that_there_is_nothing() {
    let outcome = run(&args(true), &ReconciliationReport::from_reports(vec![]));
    assert!(outcome.result.is_ok());
    assert_eq!(outcome.lines, ["No bucket-request buckets found for reconciliation"]);
}
