use dcp::batch::{
    create_checksum_job, create_copy_job, dispatch_bucket_pair_jobs, entry_succeeded, job_id,
    manifest_files, s3control_error, BatchConfig, BatchResultEntry, ChecksumAlgorithm,
    ChecksumJobReceipt, ChecksumType, ControlError, JobOperation, JobReportFormat, JobReportScope,
    ManifestFormat, PairDispatch, S3BatchJobStatusChange, EMPTY_MANIFEST_CODE,
};
use dcp::bucket::{Bucket, BucketPair, Type};
use dcp::constants::REPLICATION_SUFFIX;
use dcp::errors::{BatchError, RequestError};
use dcp::stack::Stack;

fn config(stack: &Stack) -> BatchConfig<'_> {
    BatchConfig {
        account_id: "123456789012",
        role_arn: "arn:aws:iam::123456789012:role/test-batch-role",
        stack,
    }
}

#[test]
fn test_create_checksum_job_serializes_checksum_operation_and_prefixes() {
    let stack = Stack::named("test-stack");
    let request = create_checksum_job(&config(&stack), "source-bucket", 42);

    assert!(matches!(
        request.operation,
        JobOperation::ComputeChecksum {
            algorithm: ChecksumAlgorithm::Sha256,
            checksum_type: ChecksumType::FullObject,
        }
    ));
    assert_eq!(request.manifest_generator.manifest_prefix, "batch/manifests/checksum");
    assert_eq!(request.report.prefix, "batch/reports/checksum/source-bucket");
    assert_eq!(request.manifest_generator.source_bucket, "arn:aws:s3:::source-bucket");
    assert_eq!(request.manifest_generator.manifest_bucket, "arn:aws:s3:::test-stack-managed");
    assert!(request.manifest_generator.enable_manifest_output);
    assert_eq!(request.report.bucket, "arn:aws:s3:::test-stack-managed");
    assert_eq!(request.report.report_scope, JobReportScope::AllTasks);
    assert!(request.report.enabled);
    assert_eq!(
        request.manifest_generator.manifest_format,
        ManifestFormat::S3InventoryReportCsv20211130
    );
    assert_eq!(request.report.format, JobReportFormat::ReportCsv20180820);
    assert_eq!(request.client_request_token, "checksum-job-42");
    assert_eq!(request.description, "Compute object checksums");
    assert_eq!(request.priority, 10);
    assert_eq!(request.account_id, "123456789012");
    assert_eq!(request.role_arn, "arn:aws:iam::123456789012:role/test-batch-role");
    assert!(!request.confirmation_required);
    assert_eq!(job_id(Ok(Some("checksum-job-1".to_string()))).unwrap(), "checksum-job-1");
}

fn refused() -> ControlError {
    ControlError {
        code: Some("BadRequestException".to_string()),
        message: Some("invalid request".to_string()),
        request_id: None,
        context: "service error".to_string(),
    }
}

#[test]
fn test_create_copy_job_maps_create_job_failures_to_batch_error() {
    let err = job_id(Err(refused())).expect_err("create_copy_job should fail");

    match err {
        BatchError::S3Control(inner) => {
            assert!(inner.contains("CreateJob failed"));
        }
        other => panic!("expected S3Control error, got: {other:?}"),
    }
    assert_eq!(
        s3control_error("CreateJob", &refused()),
        "CreateJob failed: code=BadRequestException, message=invalid request, \
         request_id=unknown, context=service error"
    );
    assert!(matches!(job_id(Ok(None)),
        Err(BatchError::S3Control(m)) if m == "missing job_id in response"));
}

#[test]
fn test_create_copy_job_serializes_copy_operation_and_prefixes() {
    let stack = Stack::named("test-stack");
    let request =
        create_copy_job(&config(&stack), "source-bucket", "dest-bucket", None, u128::MAX)
            .expect("create_copy_job should succeed");

    match &request.operation {
        JobOperation::Copy { target_resource, target_key_prefix } => {
            assert_eq!(target_resource, "arn:aws:s3:::dest-bucket");
            assert!(target_key_prefix.is_none());
        }
        other => panic!("{other:?}"),
    }
    assert_eq!(request.manifest_generator.manifest_prefix, "batch/manifests/copy");
    assert_eq!(request.report.prefix, "batch/reports/copy/source-bucket");
    assert_eq!(request.description, "Copy objects to destination bucket");
    assert_eq!(job_id(Ok(Some("copy-job-1".to_string()))).unwrap(), "copy-job-1");
    assert_eq!(
        request.manifest_generator.manifest_format,
        ManifestFormat::S3InventoryReportCsv20211130
    );
    assert_eq!(request.report.format, JobReportFormat::ReportCsv20180820);
    assert_eq!(
        request.client_request_token,
        "copy-job-340282366920938463463374607431768211455"
    );
}

#[test]
fn test_create_copy_job_includes_target_prefix_when_provided() {
    let stack = Stack::named("test-stack");
    let request =
        create_copy_job(&config(&stack), "source-bucket", "dest-bucket", Some("dest-prefix/"), 0)
            .expect("create_copy_job should succeed");

    match request.operation {
        JobOperation::Copy { target_key_prefix, .. } => {
            assert_eq!(target_key_prefix.as_deref(), Some("dest-prefix/"));
        }
        other => panic!("{other:?}"),
    }
    assert_eq!(request.client_request_token, "copy-job-0");
}

#[test]
fn a_bucket_is_not_copied_to_itself() {
    let stack = Stack::named("test-stack");
    match create_copy_job(&config(&stack), "a", "a", None, 1) {
        Err(BatchError::Request(RequestError::ValidationError(message))) => {
            assert_eq!(message, "Source and destination bucket must not be the same");
        }
        other => panic!("{other:?}"),
    }
}

fn bucket_pair(name: &str, bucket_type: Type) -> BucketPair {
    let source = Bucket::new(name, bucket_type);
    let replication =
        Bucket::new(format!("{name}{REPLICATION_SUFFIX}").as_str(), Type::Replication);
    BucketPair::new(source, replication)
}

fn dispatch(name: &str, kind: Type, outcome: Result<Vec<&str>, &str>) -> PairDispatch {
    PairDispatch {
        pair: bucket_pair(name, kind),
        outcome: match outcome {
            Ok(urls) => Ok(urls.into_iter().map(str::to_string).collect()),
            Err(e) => Err(e.to_string()),
        },
    }
}

#[test]
fn test_dispatch_bucket_pair_jobs_aggregates_partial_failures() {
    let dispatches = vec![
        dispatch(
            "test-stack-alpha",
            Type::Standard,
            Ok(vec!["https://example.local/test-stack-alpha/latest"]),
        ),
        dispatch("test-stack-bravo-public", Type::Public, Err("test-stack-bravo-public")),
        dispatch("test-stack-charlie", Type::Standard, Err("test-stack-charlie")),
    ];

    let issues = dispatch_bucket_pair_jobs(&dispatches)
        .expect_err("dispatch should return partial failure");

    assert_eq!(issues.len(), 2);
    assert!(issues.iter().any(|m| m.contains("test-stack-bravo-public")));
    assert!(issues.iter().any(|m| m.contains("test-stack-charlie")));
    assert_eq!(issues[0], "test-stack-bravo-public: test-stack-bravo-public");
}

#[test]
fn test_dispatch_bucket_pair_jobs_does_not_short_circuit_after_failure() {
    let dispatches = vec![
        dispatch("test-stack-alpha", Type::Standard, Err("test-stack-alpha")),
        dispatch(
            "test-stack-bravo-public",
            Type::Public,
            Ok(vec!["https://example.local/test-stack-bravo-public/latest"]),
        ),
        dispatch(
            "test-stack-charlie",
            Type::Standard,
            Ok(vec!["https://example.local/test-stack-charlie/latest"]),
        ),
    ];

    let issues = dispatch_bucket_pair_jobs(&dispatches)
        .expect_err("dispatch should fail due to first bucket");

    assert_eq!(issues.len(), 1);
    assert!(issues[0].contains("test-stack-alpha"));

    // Where each trigger fails, each pair after the first failure is still reported.
    let issues = dispatch_bucket_pair_jobs(&vec![
        dispatch("test-stack-alpha", Type::Standard, Err("test-stack-alpha")),
        dispatch("test-stack-bravo-public", Type::Public, Err("test-stack-bravo-public")),
        dispatch("test-stack-charlie", Type::Standard, Err("test-stack-charlie")),
    ])
    .expect_err("dispatch should fail for each bucket");
    let seen: Vec<String> =
        issues.iter().map(|issue| issue.split(": ").next().unwrap_or("").to_string()).collect();
    assert_eq!(
        seen,
        vec![
            "test-stack-alpha".to_string(),
            "test-stack-bravo-public".to_string(),
            "test-stack-charlie".to_string(),
        ]
    );
}

#[test]
fn a_late_failure_is_reported_beside_an_early_one() {
    let dispatches = vec![
        dispatch("test-stack-alpha", Type::Standard, Err("early")),
        dispatch("test-stack-bravo-public", Type::Public, Ok(vec!["receipt"])),
        dispatch("test-stack-charlie", Type::Standard, Err("late")),
    ];
    let issues = dispatch_bucket_pair_jobs(&dispatches).unwrap_err();
    assert_eq!(issues, ["test-stack-alpha: early", "test-stack-charlie: late"]);
}

#[test]
fn test_dispatch_bucket_pair_jobs_flattens_receipts_in_pair_order() {
    let dispatches = vec![
        dispatch(
            "test-stack-alpha",
            Type::Standard,
            Ok(vec![
                "https://example.local/test-stack-alpha/latest",
                "https://example.local/test-stack-alpha/today",
            ]),
        ),
        dispatch(
            "test-stack-bravo-public",
            Type::Public,
            Ok(vec![
                "https://example.local/test-stack-bravo-public/latest",
                "https://example.local/test-stack-bravo-public/today",
            ]),
        ),
    ];

    let receipts = dispatch_bucket_pair_jobs(&dispatches).expect("dispatch should succeed");

    assert_eq!(
        receipts,
        vec![
            "https://example.local/test-stack-alpha/latest".to_string(),
            "https://example.local/test-stack-alpha/today".to_string(),
            "https://example.local/test-stack-bravo-public/latest".to_string(),
            "https://example.local/test-stack-bravo-public/today".to_string(),
        ]
    );
}

#[test]
fn empty_manifests_are_recognised() {
    let change = |status: &str, codes: &[&str]| S3BatchJobStatusChange {
        job_id: "id".to_string(),
        job_arn: "arn".to_string(),
        status: status.to_string(),
        failure_codes: codes.iter().map(|c| c.to_string()).collect(),
        status_change_reason: vec![],
    };
    assert!(change("Failed", &[EMPTY_MANIFEST_CODE]).is_empty_manifest());
    assert!(change("failed", &[EMPTY_MANIFEST_CODE, EMPTY_MANIFEST_CODE]).is_empty_manifest());
    assert!(change("FAILED", &["InvalidManifestContent"]).is_empty_manifest());
    assert!(!change("Failed", &["Other", EMPTY_MANIFEST_CODE]).is_empty_manifest());
    assert!(!change("Failed", &["InvalidManifestContent", "AccessDenied"]).is_empty_manifest());
    assert!(!change("Failed", &["Other"]).is_empty_manifest());
    assert!(!change("Failed", &[]).is_empty_manifest());
    assert!(!change("Complete", &[EMPTY_MANIFEST_CODE]).is_empty_manifest());
}

#[test]
fn only_results_of_succeeded_tasks_are_downloaded() {
    let entry = |status: &str, key: &str| BatchResultEntry {
        task_execution_status: status.to_string(),
        bucket: "b".to_string(),
        md5_checksum: "m".to_string(),
        key: key.to_string(),
    };
    let files = manifest_files(&vec![
        entry("succeeded", "one"),
        entry("failed", "two"),
        entry("Succeeded", "three"),
    ]);
    let keys: Vec<&str> = files.iter().map(|f| f.key()).collect();
    assert_eq!(keys, ["one", "three"]);
    assert!(entry_succeeded(&entry("SUCCEEDED", "one")));
    assert!(!entry_succeeded(&entry("failed", "two")));
    assert_eq!(files[0].bucket(), "b");
}

#[test]
fn receipts_name_their_jobs_and_the_time() {
    let receipt = ChecksumJobReceipt::new("a", "1", "a-repl", "2");
    assert_eq!(receipt.source_bucket, "a");
    assert_eq!(receipt.source_job_id, "1");
    assert_eq!(receipt.repl_bucket, "a-repl");
    assert_eq!(receipt.repl_job_id, "2");
    assert!(chrono::DateTime::parse_from_rfc3339(&receipt.created_at).is_ok());
    assert!(receipt.created_at.ends_with("+00:00"));
    let receipt = ChecksumJobReceipt::created("a", "1", "a-repl", "2", "now".to_string());
    assert_eq!(receipt.created_at, "now");
}
