//! Batch jobs on all objects of a bucket, and what they report.
use vstd::prelude::*;
use vstd::string::*;

use crate::bucket::BucketPair;
use crate::bucket_config;
use crate::errors;
use crate::errors::{BatchError, RequestError};
use crate::file::File;
use crate::stack;
use crate::stack::{ManagedFile, Stack};
use crate::text;

verus! {

/// S3 Batch failure code when generated manifest produces no entries.
pub const EMPTY_MANIFEST_CODE: &'static str = "InvalidManifestContent";

/// The priority of every job.
pub const JOB_PRIORITY: i32 = 10;

/// What jobs need to know of the installation.
pub struct BatchConfig<'a> {
    pub account_id: &'a str,
    pub role_arn: &'a str,
    pub stack: &'a Stack,
}

/// Batch Manifest
#[derive(Debug)]
pub struct BatchManifest {
    pub format: String,
    pub report_creation_date: String,
    pub results: Vec<BatchResultEntry>,
    pub report_schema: String,
}

/// Batch Result Entry
#[derive(Debug)]
pub struct BatchResultEntry {
    pub task_execution_status: String,
    pub bucket: String,
    pub md5_checksum: String,
    pub key: String,
}

/// The checksum jobs for a bucket and its replica.
#[derive(Debug)]
pub struct ChecksumJobReceipt {
    pub source_bucket: String,
    pub source_job_id: String,
    pub repl_bucket: String,
    pub repl_job_id: String,
    pub created_at: String,
}

/// The results of the jobs on a bucket and on its replica.
#[derive(Debug)]
pub struct ReadyManifests {
    pub source_results: Vec<BatchResultEntry>,
    pub replication_results: Vec<BatchResultEntry>,
}

/// An event about a job.
#[derive(Debug)]
pub struct S3BatchJobDetail {
    pub service_event_details: S3BatchJobStatusChange,
}

/// The new status of a job.
#[derive(Debug)]
pub struct S3BatchJobStatusChange {
    pub job_id: String,
    pub job_arn: String,
    pub status: String,
    pub failure_codes: Vec<String>,
    pub status_change_reason: Vec<String>,
}

/// Calls `chrono::Utc::now` and writes the moment with `DateTime::to_rfc3339`. The text ends in
/// the offset of UTC, which `to_rfc3339` always writes as `+00:00`. Which moment stands before
/// it is left open: it depends on the time. A clock that stands before the epoch makes `now`
/// panic.
#[verifier::external_body]
fn current_time() -> (r: String)
    ensures
        "+00:00"@.is_suffix_of(r@),
{
    chrono::Utc::now().to_rfc3339()
}

impl ChecksumJobReceipt {
    /// Whether the receipt is for these jobs on these buckets.
    pub open spec fn covers(
        self,
        source_bucket: Seq<char>,
        source_job_id: Seq<char>,
        repl_bucket: Seq<char>,
        repl_job_id: Seq<char>,
    ) -> bool {
        &&& self.source_bucket@ == source_bucket
        &&& self.source_job_id@ == source_job_id
        &&& self.repl_bucket@ == repl_bucket
        &&& self.repl_job_id@ == repl_job_id
    }

    /// The receipt for jobs that were created at this moment, which is given in UTC.
    pub fn new(
        source_bucket: &str,
        source_job_id: &str,
        repl_bucket: &str,
        repl_job_id: &str,
    ) -> (r: ChecksumJobReceipt)
        ensures
            r.covers(source_bucket@, source_job_id@, repl_bucket@, repl_job_id@),
            "+00:00"@.is_suffix_of(r.created_at@),
    {
        let created_at = current_time();
        ChecksumJobReceipt::created(
            source_bucket,
            source_job_id,
            repl_bucket,
            repl_job_id,
            created_at,
        )
    }

    /// The receipt for jobs that were created at the moment `created_at`.
    pub fn created(
        source_bucket: &str,
        source_job_id: &str,
        repl_bucket: &str,
        repl_job_id: &str,
        created_at: String,
    ) -> (r: ChecksumJobReceipt)
        ensures
            r.covers(source_bucket@, source_job_id@, repl_bucket@, repl_job_id@),
            r.created_at == created_at,
    {
        ChecksumJobReceipt {
            source_bucket: String::from_str(source_bucket),
            source_job_id: String::from_str(source_job_id),
            repl_bucket: String::from_str(repl_bucket),
            repl_job_id: String::from_str(repl_job_id),
            created_at,
        }
    }
}

impl S3BatchJobStatusChange {
    /// Whether the job failed, and it did so for no other reason than an empty manifest:
    /// there is a failure code, and every one is that of an empty manifest.
    pub open spec fn matched_nothing(self) -> bool {
        &&& text::equal_ignoring_ascii_case(self.status@, "failed"@)
        &&& self.failure_codes@.len() > 0
        &&& forall|i: int|
            0 <= i < self.failure_codes@.len() ==> (#[trigger] self.failure_codes@[i])@
                == EMPTY_MANIFEST_CODE@
    }

    /// True when the job failed only because manifest generation matched no
    /// objects in the source bucket. This is not an error worth alarming or retrying on.
    pub fn is_empty_manifest(&self) -> (r: bool)
        ensures
            r == self.matched_nothing(),
    {
        if !text::same_ignoring_ascii_case(self.status.as_str(), "failed")
            || self.failure_codes.len() == 0 {
            return false;
        }
        let mut i: usize = 0;
        while i < self.failure_codes.len()
            invariant
                text::equal_ignoring_ascii_case(self.status@, "failed"@),
                self.failure_codes@.len() > 0,
                i <= self.failure_codes@.len(),
                forall|j: int|
                    0 <= j < i ==> (#[trigger] self.failure_codes@[j])@ == EMPTY_MANIFEST_CODE@,
            decreases self.failure_codes@.len() - i,
        {
            if !text::same(self.failure_codes[i].as_str(), EMPTY_MANIFEST_CODE) {
                return false;
            }
            i += 1;
        }
        true
    }
}

/// How checksums are computed.
#[derive(Debug, Clone, Copy, PartialEq, Eq, Structural)]
pub enum ChecksumAlgorithm {
    Sha256,
}

/// What a checksum covers.
#[derive(Debug, Clone, Copy, PartialEq, Eq, Structural)]
pub enum ChecksumType {
    FullObject,
}

/// What a job does with every object.
#[derive(Debug)]
pub enum JobOperation {
    ComputeChecksum { algorithm: ChecksumAlgorithm, checksum_type: ChecksumType },
    /// Copies the object to the bucket with this resource name, under a key that begins
    /// with the prefix.
    Copy { target_resource: String, target_key_prefix: Option<String> },
}

/// How the list of objects of a job is written.
#[derive(Debug, Clone, Copy, PartialEq, Eq, Structural)]
pub enum ManifestFormat {
    /// An inventory report in comma-separated values, in the form of November 2021.
    S3InventoryReportCsv20211130,
}

/// How the report of a job is written.
#[derive(Debug, Clone, Copy, PartialEq, Eq, Structural)]
pub enum JobReportFormat {
    /// Comma-separated values, in the form of August 2018.
    ReportCsv20180820,
}

/// The list of objects of a job: all objects of a bucket.
#[derive(Debug)]
pub struct ManifestGenerator {
    pub expected_bucket_owner: String,
    /// The resource name of the bucket.
    pub source_bucket: String,
    pub enable_manifest_output: bool,
    pub expected_manifest_bucket_owner: String,
    /// The resource name of the bucket that the list is kept in.
    pub manifest_bucket: String,
    pub manifest_prefix: String,
    pub manifest_format: ManifestFormat,
}

/// Which tasks a job reports on.
#[derive(Debug, Clone, Copy, PartialEq, Eq, Structural)]
pub enum JobReportScope {
    AllTasks,
    FailedTasksOnly,
}

/// The report of a job.
#[derive(Debug)]
pub struct JobReport {
    pub enabled: bool,
    /// The resource name of the bucket that the report is kept in.
    pub bucket: String,
    pub expected_bucket_owner: String,
    pub prefix: String,
    pub format: JobReportFormat,
    pub report_scope: JobReportScope,
}

/// A request for a new job.
#[derive(Debug)]
pub struct JobRequest {
    pub account_id: String,
    pub operation: JobOperation,
    pub manifest_generator: ManifestGenerator,
    pub report: JobReport,
    pub priority: i32,
    pub role_arn: String,
    /// What tells the request apart from others.
    pub client_request_token: String,
    pub description: String,
    pub confirmation_required: bool,
}

/// The list of all objects of a bucket, kept at `manifest`.
pub open spec fn is_manifest_generator(
    generator: ManifestGenerator,
    account_id: Seq<char>,
    source_bucket: Seq<char>,
    manifest: stack::ObjectView,
) -> bool {
    &&& generator.expected_bucket_owner@ == account_id
    &&& generator.source_bucket@ == bucket_config::bucket_arn(source_bucket)
    &&& generator.enable_manifest_output
    &&& generator.expected_manifest_bucket_owner@ == account_id
    &&& generator.manifest_bucket@ == bucket_config::bucket_arn(manifest.bucket)
    &&& generator.manifest_prefix@ == manifest.key
    &&& generator.manifest_format == ManifestFormat::S3InventoryReportCsv20211130
}

/// The report on all tasks, kept at `location`.
pub open spec fn is_job_report(
    report: JobReport,
    account_id: Seq<char>,
    location: stack::ObjectView,
) -> bool {
    &&& report.enabled
    &&& report.bucket@ == bucket_config::bucket_arn(location.bucket)
    &&& report.expected_bucket_owner@ == account_id
    &&& report.prefix@ == location.key
    &&& report.format == JobReportFormat::ReportCsv20180820
    &&& report.report_scope == JobReportScope::AllTasks
}

/// A request for a job of the kind `job_type` on all objects of a bucket, at the moment
/// `nanos` nanoseconds after the epoch.
pub open spec fn is_job_request(
    request: JobRequest,
    config: BatchConfig<'_>,
    job_type: Seq<char>,
    description: Seq<char>,
    source_bucket: Seq<char>,
    nanos: nat,
) -> bool {
    &&& request.account_id@ == config.account_id@
    &&& is_manifest_generator(
        request.manifest_generator,
        config.account_id@,
        source_bucket,
        stack::batch_manifest_location(config.stack@, job_type),
    )
    &&& is_job_report(
        request.report,
        config.account_id@,
        stack::batch_report_location(config.stack@, job_type, source_bucket),
    )
    &&& request.priority == JOB_PRIORITY
    &&& request.role_arn@ == config.role_arn@
    &&& request.client_request_token@ == job_type + "-job-"@ + text::decimal_digits(nanos)
    &&& request.description@ == description
    &&& !request.confirmation_required
}

fn build_manifest(account_id: &str, source_bucket: &str, manifest: &ManagedFile) -> (r:
    ManifestGenerator)
    ensures
        is_manifest_generator(r, account_id@, source_bucket@, manifest@),
{
    ManifestGenerator {
        expected_bucket_owner: String::from_str(account_id),
        source_bucket: bucket_config::arn_of_bucket(source_bucket),
        enable_manifest_output: true,
        expected_manifest_bucket_owner: String::from_str(account_id),
        manifest_bucket: bucket_config::arn_of_bucket(manifest.bucket()),
        manifest_prefix: String::from_str(manifest.key()),
        manifest_format: ManifestFormat::S3InventoryReportCsv20211130,
    }
}

fn build_report(account_id: &str, report: &ManagedFile) -> (r: JobReport)
    ensures
        is_job_report(r, account_id@, report@),
{
    JobReport {
        enabled: true,
        bucket: bucket_config::arn_of_bucket(report.bucket()),
        expected_bucket_owner: String::from_str(account_id),
        prefix: String::from_str(report.key()),
        format: JobReportFormat::ReportCsv20180820,
        report_scope: JobReportScope::AllTasks,
    }
}

fn job_request(
    config: &BatchConfig<'_>,
    job_type: &str,
    description: &str,
    operation: JobOperation,
    source_bucket: &str,
    nanos: u128,
) -> (r: JobRequest)
    ensures
        is_job_request(r, *config, job_type@, description@, source_bucket@, nanos as nat),
        r.operation == operation,
{
    let manifest_prefix = config.stack.batch_manifest_prefix(job_type);
    let report_prefix = config.stack.batch_report_prefix(job_type, source_bucket);
    let number = text::decimal(nanos);
    JobRequest {
        account_id: String::from_str(config.account_id),
        operation,
        manifest_generator: build_manifest(config.account_id, source_bucket, &manifest_prefix),
        report: build_report(config.account_id, &report_prefix),
        priority: JOB_PRIORITY,
        role_arn: String::from_str(config.role_arn),
        client_request_token: text::join3(job_type, "-job-", number.as_str()),
        description: String::from_str(description),
        confirmation_required: false,
    }
}

/// The request for a job that computes the checksums of all objects of a bucket, at the
/// moment `nanos` nanoseconds after the epoch.
pub fn create_checksum_job(config: &BatchConfig<'_>, source_bucket: &str, nanos: u128) -> (r:
    JobRequest)
    ensures
        is_job_request(
            r,
            *config,
            "checksum"@,
            "Compute object checksums"@,
            source_bucket@,
            nanos as nat,
        ),
        r.operation == (JobOperation::ComputeChecksum {
            algorithm: ChecksumAlgorithm::Sha256,
            checksum_type: ChecksumType::FullObject,
        }),
{
    let operation = JobOperation::ComputeChecksum {
        algorithm: ChecksumAlgorithm::Sha256,
        checksum_type: ChecksumType::FullObject,
    };
    job_request(config, "checksum", "Compute object checksums", operation, source_bucket, nanos)
}

/// Whether an operation copies objects to a bucket, under a prefix where there is one.
pub open spec fn copies_to(
    operation: JobOperation,
    dest_bucket: Seq<char>,
    target_prefix: Option<&str>,
) -> bool {
    &&& operation matches JobOperation::Copy { target_resource, target_key_prefix }
    &&& target_resource@ == bucket_config::bucket_arn(dest_bucket)
    &&& match target_prefix {
        Some(prefix) => bucket_config::holds(target_key_prefix, prefix@),
        None => target_key_prefix is None,
    }
}

/// The request for a job that copies all objects of a bucket to another one, at the moment
/// `nanos` nanoseconds after the epoch.
pub fn create_copy_job(
    config: &BatchConfig<'_>,
    source_bucket: &str,
    dest_bucket: &str,
    target_prefix: Option<&str>,
    nanos: u128,
) -> (r: Result<JobRequest, BatchError>)
    ensures
        if source_bucket@ == dest_bucket@ {
            r matches Err(BatchError::Request(RequestError::ValidationError(message))) && message@
                == "Source and destination bucket must not be the same"@
        } else {
            r matches Ok(request) && is_job_request(
                request,
                *config,
                "copy"@,
                "Copy objects to destination bucket"@,
                source_bucket@,
                nanos as nat,
            ) && copies_to(request.operation, dest_bucket@, target_prefix)
        },
{
    if text::same(source_bucket, dest_bucket) {
        return Err(
            BatchError::Request(
                RequestError::ValidationError(
                    String::from_str("Source and destination bucket must not be the same"),
                ),
            ),
        );
    }
    let target_key_prefix = match target_prefix {
        Some(prefix) => Some(String::from_str(prefix)),
        None => None,
    };
    let operation = JobOperation::Copy {
        target_resource: bucket_config::arn_of_bucket(dest_bucket),
        target_key_prefix,
    };
    Ok(
        job_request(
            config,
            "copy",
            "Copy objects to destination bucket",
            operation,
            source_bucket,
            nanos,
        ),
    )
}

/// What the batch service said about a failed call.
#[derive(Debug)]
pub struct ControlError {
    pub code: Option<String>,
    pub message: Option<String>,
    pub request_id: Option<String>,
    /// The whole chain of causes.
    pub context: String,
}

impl ControlError {
    /// The report of a call that failed.
    pub open spec fn report(self, operation: Seq<char>) -> Seq<char> {
        operation + " failed: code="@ + errors::or_unknown(self.code) + ", message="@
            + errors::or_unknown(self.message) + ", request_id="@ + errors::or_unknown(
            self.request_id,
        ) + ", context="@ + self.context@
    }
}

/// Describes a failed call of the batch service.
pub fn s3control_error(operation: &str, e: &ControlError) -> (r: String)
    ensures
        r@ == e.report(operation@),
{
    let mut out = text::join4(
        operation,
        " failed: code=",
        errors::text_or_unknown(&e.code),
        ", message=",
    );
    out.append(errors::text_or_unknown(&e.message));
    out.append(", request_id=");
    out.append(errors::text_or_unknown(&e.request_id));
    out.append(", context=");
    out.append(e.context.as_str());
    out
}

/// The identifier of a new job, given the reply to the request for it.
pub fn job_id(reply: Result<Option<String>, ControlError>) -> (r: Result<String, BatchError>)
    ensures
        match reply {
            Ok(Some(id)) => r == Ok::<String, BatchError>(id),
            Ok(None) => r matches Err(BatchError::S3Control(message)) && message@
                == "missing job_id in response"@,
            Err(e) => r matches Err(BatchError::S3Control(message)) && message@ == e.report(
                "CreateJob"@,
            ),
        },
{
    match reply {
        Ok(Some(id)) => Ok(id),
        Ok(None) => Err(BatchError::S3Control(String::from_str("missing job_id in response"))),
        Err(e) => Err(BatchError::S3Control(s3control_error("CreateJob", &e))),
    }
}

/// What came of the job for a pair of buckets.
#[derive(Debug)]
pub struct PairDispatch {
    pub pair: BucketPair,
    /// The receipts, or why there are none.
    pub outcome: Result<Vec<String>, String>,
}

/// The receipts of all pairs, in order.
pub open spec fn receipts_of(dispatches: Seq<PairDispatch>) -> Seq<Seq<char>>
    decreases dispatches.len(),
{
    if dispatches.len() == 0 {
        Seq::empty()
    } else {
        match dispatches.last().outcome {
            Ok(receipts) => receipts_of(dispatches.drop_last()) + text::texts(receipts@),
            Err(_) => receipts_of(dispatches.drop_last()),
        }
    }
}

/// What went wrong with which bucket, in order.
pub open spec fn issues_of(dispatches: Seq<PairDispatch>) -> Seq<Seq<char>>
    decreases dispatches.len(),
{
    if dispatches.len() == 0 {
        Seq::empty()
    } else {
        match dispatches.last().outcome {
            Ok(_) => issues_of(dispatches.drop_last()),
            Err(e) => issues_of(dispatches.drop_last()).push(
                dispatches.last().pair.source@.name + ": "@ + e@,
            ),
        }
    }
}

/// Dispatch a job for each bucket pair, collecting all receipts, given what came of each.
/// Returns `Err` with formatted error messages if any pair fails.
pub fn dispatch_bucket_pair_jobs(dispatches: &Vec<PairDispatch>) -> (r: Result<
    Vec<String>,
    Vec<String>,
>)
    ensures
        match r {
            Ok(receipts) => issues_of(dispatches@).len() == 0 && text::texts(receipts@)
                == receipts_of(dispatches@),
            Err(issues) => issues_of(dispatches@).len() > 0 && text::texts(issues@) == issues_of(
                dispatches@,
            ),
        },
{
    let mut receipts: Vec<String> = Vec::new();
    let mut issues: Vec<String> = Vec::new();
    let mut i: usize = 0;
    assert(text::texts(receipts@) =~= Seq::<Seq<char>>::empty());
    assert(text::texts(issues@) =~= Seq::<Seq<char>>::empty());
    while i < dispatches.len()
        invariant
            i <= dispatches@.len(),
            text::texts(receipts@) == receipts_of(dispatches@.take(i as int)),
            text::texts(issues@) == issues_of(dispatches@.take(i as int)),
        decreases dispatches@.len() - i,
    {
        let ghost receipts_before = receipts@;
        let ghost issues_before = issues@;
        assert(dispatches@.take(i + 1).drop_last() =~= dispatches@.take(i as int));
        assert(dispatches@.take(i + 1).last() == dispatches@[i as int]);
        match &dispatches[i].outcome {
            Ok(urls) => {
                let mut more = urls.clone();
                assert(more@ =~= urls@);
                receipts.append(&mut more);
                assert(text::texts(receipts@) =~= text::texts(receipts_before) + text::texts(
                    urls@,
                ));
            },
            Err(e) => {
                let issue = text::join3(dispatches[i].pair.source.name(), ": ", e.as_str());
                issues.push(issue);
                assert(text::texts(issues@) =~= text::texts(issues_before).push(issue@));
            },
        }
        i += 1;
    }
    assert(dispatches@.take(i as int) =~= dispatches@);
    assert(text::texts(issues@).len() == issues@.len());
    if issues.len() == 0 {
        Ok(receipts)
    } else {
        Err(issues)
    }
}

/// A failure of one pair does not keep the others from being dispatched, and none is lost:
/// there is one issue for each pair that failed, and the dispatch fails exactly where
/// there is one.
pub proof fn every_failure_is_an_issue(dispatches: Seq<PairDispatch>)
    ensures
        issues_of(dispatches).len() == 0 <==> forall|i: int|
            0 <= i < dispatches.len() ==> (#[trigger] dispatches[i]).outcome is Ok,
        forall|i: int|
            0 <= i < dispatches.len() && (#[trigger] dispatches[i]).outcome is Err
                ==> issues_of(dispatches).contains(
                dispatches[i].pair.source@.name + ": "@ + dispatches[i].outcome->Err_0@,
            ),
    decreases dispatches.len(),
{
    if dispatches.len() > 0 {
        let rest = dispatches.drop_last();
        every_failure_is_an_issue(rest);
        let issues = issues_of(dispatches);
        let earlier = issues_of(rest);
        assert(dispatches[dispatches.len() - 1] == dispatches.last());
        if earlier.len() > 0 {
            let i = choose|i: int|
                0 <= i < rest.len() && !((#[trigger] rest[i]).outcome is Ok);
            assert(dispatches[i] == rest[i]);
        } else {
            assert forall|i: int| 0 <= i < rest.len() implies (
            #[trigger] dispatches[i]).outcome is Ok by {
                assert(rest[i] == dispatches[i]);
            }
        }
        assert forall|i: int|
            0 <= i < dispatches.len() && (
            #[trigger] dispatches[i]).outcome is Err implies issues.contains(
            dispatches[i].pair.source@.name + ": "@ + dispatches[i].outcome->Err_0@,
        ) by {
            let issue = dispatches[i].pair.source@.name + ": "@ + dispatches[i].outcome->Err_0@;
            if i < rest.len() {
                assert(rest[i] == dispatches[i]);
                let j = choose|j: int| 0 <= j < earlier.len() && earlier[j] == issue;
                assert(issues[j] == issue);
            } else {
                assert(issues.last() == issue);
            }
        }
    }
}

/// Whether a task of a job succeeded.
pub open spec fn succeeded(entry: BatchResultEntry) -> bool {
    text::equal_ignoring_ascii_case(entry.task_execution_status@, "succeeded"@)
}

/// Whether the task that an entry reports on succeeded.
pub fn entry_succeeded(entry: &BatchResultEntry) -> (r: bool)
    ensures
        r == succeeded(*entry),
{
    text::same_ignoring_ascii_case(entry.task_execution_status.as_str(), "succeeded")
}

/// The objects that the tasks that succeeded report on, in order.
pub open spec fn succeeded_objects(results: Seq<BatchResultEntry>) -> Seq<stack::ObjectView>
    decreases results.len(),
{
    if results.len() == 0 {
        Seq::empty()
    } else if succeeded(results.last()) {
        succeeded_objects(results.drop_last()).push(
            stack::ObjectView { bucket: results.last().bucket@, key: results.last().key@ },
        )
    } else {
        succeeded_objects(results.drop_last())
    }
}

/// The objects that files stand for.
pub open spec fn file_views(files: Seq<File>) -> Seq<stack::ObjectView> {
    files.map_values(|file: File| file@)
}

/// The manifest files to download: those of the tasks that succeeded.
pub fn manifest_files(results: &Vec<BatchResultEntry>) -> (r: Vec<File>)
    ensures
        file_views(r@) == succeeded_objects(results@),
{
    let mut files: Vec<File> = Vec::new();
    let mut i: usize = 0;
    assert(file_views(files@) =~= Seq::<stack::ObjectView>::empty());
    while i < results.len()
        invariant
            i <= results@.len(),
            file_views(files@) == succeeded_objects(results@.take(i as int)),
        decreases results@.len() - i,
    {
        let ghost before = files@;
        assert(results@.take(i + 1).drop_last() =~= results@.take(i as int));
        assert(results@.take(i + 1).last() == results@[i as int]);
        let entry = &results[i];
        if entry_succeeded(entry) {
            let file = File::new(entry.bucket.as_str(), entry.key.as_str());
            files.push(file);
            assert(file_views(files@) =~= file_views(before).push(file@));
        }
        i += 1;
    }
    assert(results@.take(i as int) =~= results@);
    files
}

/// Every job is asked for in the name of the installation: its list of objects covers the whole
/// source bucket and is kept in the managed bucket of the stack, and so is its report, which is on
/// all tasks. The job starts without a confirmation.
pub proof fn job_covers_the_whole_bucket(
    request: JobRequest,
    config: BatchConfig<'_>,
    job_type: Seq<char>,
    description: Seq<char>,
    source_bucket: Seq<char>,
    nanos: nat,
)
    requires
        is_job_request(request, config, job_type, description, source_bucket, nanos),
    ensures
        request.account_id@ == config.account_id@,
        request.role_arn@ == config.role_arn@,
        request.description@ == description,
        request.priority == 10,
        !request.confirmation_required,
        request.client_request_token@ == job_type + "-job-"@ + text::decimal_digits(nanos),
        request.manifest_generator.source_bucket@ == "arn:aws:s3:::"@ + source_bucket,
        request.manifest_generator.expected_bucket_owner@ == config.account_id@,
        request.manifest_generator.enable_manifest_output,
        request.manifest_generator.expected_manifest_bucket_owner@ == config.account_id@,
        request.manifest_generator.manifest_bucket@ == "arn:aws:s3:::"@ + (config.stack@
            + "-managed"@),
        request.manifest_generator.manifest_prefix@ == "batch/manifests"@ + "/"@ + job_type,
        request.report.enabled,
        request.report.report_scope == JobReportScope::AllTasks,
        request.report.expected_bucket_owner@ == config.account_id@,
        request.report.bucket@ == "arn:aws:s3:::"@ + (config.stack@ + "-managed"@),
        request.report.prefix@ == "batch/reports"@ + "/"@ + job_type + "/"@ + source_bucket,
{
}

/// Requests for jobs of one kind at different moments can be told apart.
pub proof fn jobs_at_different_moments_differ(
    a: JobRequest,
    b: JobRequest,
    config: BatchConfig<'_>,
    job_type: Seq<char>,
    description: Seq<char>,
    source_bucket: Seq<char>,
    m: nat,
    n: nat,
)
    requires
        is_job_request(a, config, job_type, description, source_bucket, m),
        is_job_request(b, config, job_type, description, source_bucket, n),
        a.client_request_token@ == b.client_request_token@,
    ensures
        m == n,
{
    let head = job_type + "-job-"@;
    let x = a.client_request_token@;
    let y = b.client_request_token@;
    assert(text::decimal_digits(m) =~= x.skip(head.len() as int));
    assert(text::decimal_digits(n) =~= y.skip(head.len() as int));
    text::decimal_digits_stand_for_the_number(m);
    text::decimal_digits_stand_for_the_number(n);
}

/// A copy goes to the destination bucket, and under the prefix that was asked for, if any.
pub proof fn copy_goes_to_the_destination(
    operation: JobOperation,
    dest_bucket: Seq<char>,
    target_prefix: Option<&str>,
)
    requires
        copies_to(operation, dest_bucket, target_prefix),
    ensures
        operation is Copy,
        operation->target_resource@ == "arn:aws:s3:::"@ + dest_bucket,
        target_prefix is None <==> operation->target_key_prefix is None,
        target_prefix is Some ==> operation->target_key_prefix->0@ == target_prefix->0@,
{
}

/// A receipt is for the jobs and the buckets that it names.
pub proof fn receipt_names_its_jobs(
    receipt: ChecksumJobReceipt,
    source_bucket: Seq<char>,
    source_job_id: Seq<char>,
    repl_bucket: Seq<char>,
    repl_job_id: Seq<char>,
)
    requires
        receipt.covers(source_bucket, source_job_id, repl_bucket, repl_job_id),
    ensures
        receipt.source_bucket@ == source_bucket,
        receipt.source_job_id@ == source_job_id,
        receipt.repl_bucket@ == repl_bucket,
        receipt.repl_job_id@ == repl_job_id,
{
}

/// A job matched nothing exactly where it failed, for at least one reason, and no reason is
/// another one than the empty manifest.
pub proof fn job_without_objects_failed_for_nothing_else(change: S3BatchJobStatusChange)
    ensures
        change.matched_nothing() <==> text::equal_ignoring_ascii_case(change.status@, "failed"@)
            && change.failure_codes@.len() > 0 && !exists|i: int|
            0 <= i < change.failure_codes@.len() && (#[trigger] change.failure_codes@[i])@
                != "InvalidManifestContent"@,
{
}

/// The report of a call that failed names the operation and everything that the reply carried,
/// with `unknown` for what it did not.
pub proof fn failed_call_is_reported_in_full(e: ControlError, operation: Seq<char>)
    ensures
        ({
            let code = if e.code is Some {
                e.code->0@
            } else {
                "unknown"@
            };
            let message = if e.message is Some {
                e.message->0@
            } else {
                "unknown"@
            };
            let request_id = if e.request_id is Some {
                e.request_id->0@
            } else {
                "unknown"@
            };
            e.report(operation) == operation + " failed: code="@ + code + ", message="@ + message
                + ", request_id="@ + request_id + ", context="@ + e.context@
        }),
{
}

/// The issues of a dispatch are those of the pairs that failed, in the order of the pairs, each
/// with the name of its source bucket; the receipts are those of the pairs that did not, one pair
/// after the other.
pub proof fn dispatch_reports_every_pair(dispatches: Seq<PairDispatch>)
    ensures
        issues_of(dispatches) == dispatches.filter(
            |d: PairDispatch| d.outcome is Err,
        ).map_values(|d: PairDispatch| d.pair.source@.name + ": "@ + d.outcome->Err_0@),
        receipts_of(dispatches) == dispatches.filter(
            |d: PairDispatch| d.outcome is Ok,
        ).map_values(
            |d: PairDispatch|
                Seq::new(d.outcome->Ok_0@.len(), |i: int| d.outcome->Ok_0@[i]@),
        ).flatten(),
    decreases dispatches.len(),
{
    reveal(Seq::filter);
    let failed = |d: PairDispatch| d.outcome is Err;
    let went = |d: PairDispatch| d.outcome is Ok;
    let issue = |d: PairDispatch| d.pair.source@.name + ": "@ + d.outcome->Err_0@;
    let urls = |d: PairDispatch|
        Seq::new(d.outcome->Ok_0@.len(), |i: int| d.outcome->Ok_0@[i]@);
    let parts = dispatches.filter(went).map_values(urls);
    parts.lemma_flatten_and_flatten_alt_are_equivalent();
    if dispatches.len() > 0 {
        let rest = dispatches.drop_last();
        dispatch_reports_every_pair(rest);
        let earlier = rest.filter(went).map_values(urls);
        earlier.lemma_flatten_and_flatten_alt_are_equivalent();
        if dispatches.last().outcome is Ok {
            assert(parts.drop_last() =~= earlier);
            assert(parts.last() =~= text::texts(dispatches.last().outcome->Ok_0@));
        } else {
            assert(parts =~= earlier);
        }
    }
    assert(issues_of(dispatches) =~= dispatches.filter(failed).map_values(issue));
}

/// The files to download are those of the tasks whose status is `succeeded`, in any case of its
/// letters: all of them, in the order of the results.
pub proof fn files_of_all_succeeded_tasks_are_downloaded(results: Seq<BatchResultEntry>)
    ensures
        succeeded_objects(results) == results.filter(
            |entry: BatchResultEntry|
                text::equal_ignoring_ascii_case(entry.task_execution_status@, "succeeded"@),
        ).map_values(
            |entry: BatchResultEntry|
                stack::ObjectView { bucket: entry.bucket@, key: entry.key@ },
        ),
    decreases results.len(),
{
    reveal(Seq::filter);
    if results.len() > 0 {
        files_of_all_succeeded_tasks_are_downloaded(results.drop_last());
    }
    assert(succeeded_objects(results) =~= results.filter(
        |entry: BatchResultEntry|
            text::equal_ignoring_ascii_case(entry.task_execution_status@, "succeeded"@),
    ).map_values(
        |entry: BatchResultEntry| stack::ObjectView { bucket: entry.bucket@, key: entry.key@ },
    ));
}

/// A task succeeded exactly where its status says so, in any case of its letters.
pub proof fn task_succeeded_by_its_status(entry: BatchResultEntry)
    ensures
        succeeded(entry) <==> text::equal_ignoring_ascii_case(
            entry.task_execution_status@,
            "succeeded"@,
        ),
{
}

} // verus!
