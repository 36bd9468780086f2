//! What reports, user listings, batch jobs and files give for what they are given.
use vstd::prelude::*;

use crate::batch;
use crate::batch::{
    BatchConfig, BatchResultEntry, ChecksumAlgorithm, ChecksumJobReceipt, ChecksumType,
    ControlError, JobOperation, JobReportScope, JobRequest, PairDispatch, S3BatchJobStatusChange,
};
use crate::errors;
use crate::errors::{
    ArchiveItError, BatchError, BucketReconciliationError, RequestError, ServiceError,
    StorageReportError,
};
use crate::expiration;
use crate::expiration::ExpirationPolicy;
use crate::file;
use crate::file::{CopyRequest, File, HeadFailure};
use crate::inventory_stats;
use crate::inventory_stats::{BucketStats, StatsReply};
use crate::reconcile_report;
use crate::reconcile_report::{Outcome, ReconcileReport, ReconciliationReport};
use crate::reconciliation;
use crate::reconciliation::PerformArgs;
use crate::reconciliation_command;
use crate::reconciliation_command::{Args, CommandOutcome};
use crate::sorted_map;
use crate::sorted_map::Entry;
use crate::sorting;
use crate::stack;
use crate::tags::Tag;
use crate::text;
use crate::users;
use crate::users::{UserInfo, UserReplies};

verus! {

/// A user with groups and an address is in the listing, with their name, address and groups.
pub proof fn user_with_groups_is_in_the_listing(
    users: Vec<UserReplies>,
    r: Result<Vec<UserInfo>, ServiceError>,
    j: int,
)
    requires
        call_ensures(users::list_users_with_email_and_groups, (users,), r),
        r is Ok,
        0 <= j < users@.len(),
        users@[j].groups is Ok,
        users@[j].groups->Ok_0@.len() > 0,
        users@[j].email is Ok,
        users@[j].email->Ok_0 is Some,
    ensures
        r->Ok_0@.contains(
            UserInfo {
                user_name: users@[j].user_name,
                email: users@[j].email->Ok_0->0,
                groups: users@[j].groups->Ok_0,
            },
        ),
{
    users::user_with_groups_and_address_is_listed(users@, j);
}

/// The listing holds the users with groups and an address, in their order, and no others.
pub proof fn listing_holds_users_with_groups_only(
    users: Vec<UserReplies>,
    r: Result<Vec<UserInfo>, ServiceError>,
)
    requires
        call_ensures(users::list_users_with_email_and_groups, (users,), r),
        r is Ok,
    ensures
        r->Ok_0@ == users@.filter(
            |u: UserReplies|
                u.groups is Ok && u.groups->Ok_0@.len() > 0 && u.email is Ok
                    && u.email->Ok_0 is Some,
        ).map_values(
            |u: UserReplies|
                UserInfo {
                    user_name: u.user_name,
                    email: u.email->Ok_0->0,
                    groups: u.groups->Ok_0,
                },
        ),
{
    users::listing_holds_the_users_with_groups_and_address(users@);
}

/// The listing succeeds where everything that is of interest was read, and else fails with the
/// error of the first user of whom something was not.
pub proof fn listing_fails_for_the_first_unread_user(
    users: Vec<UserReplies>,
    r: Result<Vec<UserInfo>, ServiceError>,
    k: int,
)
    requires
        call_ensures(users::list_users_with_email_and_groups, (users,), r),
        0 <= k <= users@.len(),
        forall|j: int|
            0 <= j < k ==> (#[trigger] users@[j]).groups is Ok && (
            users@[j].groups->Ok_0@.len() == 0 || users@[j].email is Ok),
        k < users@.len() ==> users@[k].groups is Err || (users@[k].groups->Ok_0@.len() > 0
            && users@[k].email is Err),
    ensures
        k == users@.len() ==> r is Ok,
        k < users@.len() && users@[k].groups is Err ==> r == Err::<Vec<UserInfo>, ServiceError>(
            users@[k].groups->Err_0,
        ),
        k < users@.len() && users@[k].groups is Ok ==> r == Err::<Vec<UserInfo>, ServiceError>(
            users@[k].email->Err_0,
        ),
{
    if k < users@.len() {
        let e = if users@[k].groups is Err {
            users@[k].groups->Err_0
        } else {
            users@[k].email->Err_0
        };
        users::listing_fails_with_the_first_error(users@, k, e);
    } else {
        users::listing_succeeds_where_everything_was_read(users@);
    }
}

/// What is listed of one user.
pub proof fn user_is_listed_with_groups_and_address(
    user: UserReplies,
    r: Result<Option<UserInfo>, ServiceError>,
)
    requires
        call_ensures(users::process_user, (user,), r),
    ensures
        user.groups is Err ==> r == Err::<Option<UserInfo>, ServiceError>(user.groups->Err_0),
        user.groups is Ok && user.groups->Ok_0@.len() == 0 ==> r == Ok::<
            Option<UserInfo>,
            ServiceError,
        >(None),
        user.groups is Ok && user.groups->Ok_0@.len() > 0 ==> {
            &&& user.email is Err ==> r == Err::<Option<UserInfo>, ServiceError>(
                user.email->Err_0,
            )
            &&& user.email is Ok && user.email->Ok_0 is None ==> r == Ok::<
                Option<UserInfo>,
                ServiceError,
            >(None)
            &&& user.email is Ok && user.email->Ok_0 is Some ==> r == Ok::<
                Option<UserInfo>,
                ServiceError,
            >(
                Some(
                    UserInfo {
                        user_name: user.user_name,
                        email: user.email->Ok_0->0,
                        groups: user.groups->Ok_0,
                    },
                ),
            )
        },
{
}

/// The address of a user is asked for exactly where they have groups.
pub proof fn address_is_asked_for_users_with_groups(
    groups: &Result<Vec<String>, ServiceError>,
    r: bool,
)
    requires
        call_ensures(users::reads_email, (groups,), r),
    ensures
        r <==> groups is Ok && groups->Ok_0@.len() > 0,
{
}

/// The users of the account are those of all pages, one page after the other.
pub proof fn all_pages_of_users_are_listed(
    pages: Vec<Result<Vec<String>, ServiceError>>,
    r: Result<Vec<String>, ServiceError>,
)
    requires
        call_ensures(users::list_all_users, (pages,), r),
        forall|i: int| 0 <= i < pages@.len() ==> (#[trigger] pages@[i]) is Ok,
    ensures
        r is Ok,
        r->Ok_0@ == pages@.map_values(
            |page: Result<Vec<String>, ServiceError>| page->Ok_0@,
        ).flatten(),
{
    users::pages_follow_one_another(pages@);
}

/// The groups of a user are those of all pages, in the order of their names.
pub proof fn all_pages_of_groups_are_listed_in_order(
    pages: Vec<Result<Vec<String>, ServiceError>>,
    r: Result<Vec<String>, ServiceError>,
)
    requires
        call_ensures(users::list_group_names_for_user, (pages,), r),
        forall|i: int| 0 <= i < pages@.len() ==> (#[trigger] pages@[i]) is Ok,
    ensures
        r is Ok,
        r->Ok_0@.to_multiset() == pages@.map_values(
            |page: Result<Vec<String>, ServiceError>| page->Ok_0@,
        ).flatten().to_multiset(),
        forall|i: int, j: int|
            0 <= i < j < r->Ok_0@.len() ==> sorting::at_most(
                (#[trigger] r->Ok_0@[i])@,
                (#[trigger] r->Ok_0@[j])@,
            ),
{
    users::pages_follow_one_another(pages@);
    assert forall|i: int, j: int| 0 <= i < j < r->Ok_0@.len() implies sorting::at_most(
        (#[trigger] r->Ok_0@[i])@,
        (#[trigger] r->Ok_0@[j])@,
    ) by {
        assert(sorting::at_most(
            sorting::Named::sort_name(&r->Ok_0@[i]),
            sorting::Named::sort_name(&r->Ok_0@[j]),
        ));
    }
}

/// The first page that could not be read stands for a listing.
pub proof fn unread_page_stands_for_the_listing(
    pages: Vec<Result<Vec<String>, ServiceError>>,
    all: Result<Vec<String>, ServiceError>,
    groups: Result<Vec<String>, ServiceError>,
    k: int,
)
    requires
        call_ensures(users::list_all_users, (pages,), all),
        call_ensures(users::list_group_names_for_user, (pages,), groups),
        0 <= k < pages@.len(),
        pages@[k] is Err,
        forall|j: int| 0 <= j < k ==> (#[trigger] pages@[j]) is Ok,
    ensures
        all == Err::<Vec<String>, ServiceError>(pages@[k]->Err_0),
        groups == Err::<Vec<String>, ServiceError>(pages@[k]->Err_0),
{
    users::first_failed_page_stands_for_all(pages@, k);
}

/// The tag of a user is the first with the key, on whichever page it stands.
pub proof fn tag_of_a_user_is_the_first_with_the_key(
    pages: &Vec<Result<Vec<Tag>, ServiceError>>,
    key: &str,
    r: Result<Option<String>, ServiceError>,
    k: int,
    i: int,
)
    requires
        call_ensures(users::get_user_tag, (pages, key), r),
        0 <= k < pages@.len(),
        forall|j: int| 0 <= j <= k ==> (#[trigger] pages@[j]) is Ok,
        forall|j: int, n: int|
            0 <= j < k && 0 <= n < pages@[j]->Ok_0@.len() ==> (
            #[trigger] pages@[j]->Ok_0@[n]).key@ != key@,
        0 <= i < pages@[k]->Ok_0@.len(),
        pages@[k]->Ok_0@[i].key@ == key@,
        forall|n: int| 0 <= n < i ==> (#[trigger] pages@[k]->Ok_0@[n]).key@ != key@,
    ensures
        r is Ok,
        r->Ok_0 is Some,
        r->Ok_0->0@ == pages@[k]->Ok_0@[i].value@,
{
    users::first_tag_with_the_key_is_found(pages@, key@, k);
}

/// Where no statistics failed to be read, the collection holds for every bucket that has any the
/// last that were read for its name, and nothing for the others.
pub proof fn statistics_of_every_bucket_are_collected<T>(
    replies: Vec<BucketStats<T>>,
    r: Result<Vec<Entry<T>>, StorageReportError>,
    i: int,
)
    requires
        call_ensures(inventory_stats::fetch_latest_inventory_stats::<T>, (replies,), r),
        forall|n: int|
            0 <= n < replies@.len() ==> (#[trigger] replies@[n]).reply is Missing
                || replies@[n].reply is Decoded,
        0 <= i < replies@.len(),
        replies@[i].reply is Decoded,
        forall|n: int|
            i < n < replies@.len() && (#[trigger] replies@[n]).bucket@.name
                == replies@[i].bucket@.name ==> replies@[n].reply is Missing,
    ensures
        r is Ok,
        exists|e: int|
            0 <= e < r->Ok_0@.len() && (#[trigger] r->Ok_0@[e]).key@ == replies@[i].bucket@.name
                && r->Ok_0@[e].value == replies@[i].reply->Decoded_0,
{
    inventory_stats::collection_succeeds_where_nothing_failed(replies@);
    inventory_stats::collection_keeps_the_last_statistics_of_a_name(replies@, i);
    sorted_map::entries_stand_for_their_map(r->Ok_0@);
    let name = replies@[i].bucket@.name;
    assert(sorted_map::as_map(r->Ok_0@).contains_key(name));
    let e = choose|e: int| 0 <= e < r->Ok_0@.len() && (#[trigger] r->Ok_0@[e]).key@ == name;
    assert(sorted_map::as_map(r->Ok_0@)[r->Ok_0@[e].key@] == r->Ok_0@[e].value);
}

/// Every entry of a collection is that of a bucket that has statistics, no name occurs twice, and
/// the names stand in order.
pub proof fn collection_holds_read_statistics_only<T>(
    replies: Vec<BucketStats<T>>,
    r: Result<Vec<Entry<T>>, StorageReportError>,
    e: int,
)
    requires
        call_ensures(inventory_stats::fetch_latest_inventory_stats::<T>, (replies,), r),
        r is Ok,
        0 <= e < r->Ok_0@.len(),
    ensures
        exists|i: int|
            0 <= i < replies@.len() && (#[trigger] replies@[i]).bucket@.name == r->Ok_0@[e].key@
                && replies@[i].reply is Decoded,
        forall|a: int, b: int|
            0 <= a < b < r->Ok_0@.len() ==> (#[trigger] r->Ok_0@[a]).key@ != (
            #[trigger] r->Ok_0@[b]).key@ && sorting::at_most(r->Ok_0@[a].key@, r->Ok_0@[b].key@),
{
    sorted_map::entries_stand_for_their_map(r->Ok_0@);
    assert(sorted_map::as_map(r->Ok_0@).contains_key(r->Ok_0@[e].key@));
    inventory_stats::collection_has_every_name_with_statistics(replies@, r->Ok_0@[e].key@);
}

/// Statistics that could not be read or decoded end the collection with an error that names the
/// first such bucket.
pub proof fn collection_fails_for_the_first_bucket<T>(
    replies: Vec<BucketStats<T>>,
    r: Result<Vec<Entry<T>>, StorageReportError>,
    k: int,
)
    requires
        call_ensures(inventory_stats::fetch_latest_inventory_stats::<T>, (replies,), r),
        0 <= k < replies@.len(),
        replies@[k].reply is Unreadable || replies@[k].reply is Malformed,
        forall|n: int|
            0 <= n < k ==> (#[trigger] replies@[n]).reply is Missing
                || replies@[n].reply is Decoded,
    ensures
        r is Err,
        replies@[k].reply is Unreadable ==> (r->Err_0 matches StorageReportError::DownloadStats {
            bucket,
            source,
        } && bucket@ == replies@[k].bucket@.name && source == replies@[k].reply->Unreadable_0),
        replies@[k].reply is Malformed ==> (r->Err_0 matches StorageReportError::ParseStats {
            bucket,
            source,
        } && bucket@ == replies@[k].bucket@.name && source == replies@[k].reply->Malformed_0),
{
    inventory_stats::first_failure_stands_for_the_collection(replies@, k);
}

/// What came of reading the statistics of a bucket.
pub proof fn statistics_are_told_as_they_were_read<T>(
    present: Result<bool, RequestError>,
    download: Result<Result<T, String>, RequestError>,
    r: StatsReply<T>,
)
    requires
        call_ensures(inventory_stats::stats_reply::<T>, (present, download), r),
    ensures
        r is Missing <==> present == Ok::<bool, RequestError>(false),
        r is Decoded <==> present == Ok::<bool, RequestError>(true) && download is Ok
            && download->Ok_0 is Ok,
        r is Decoded ==> r->Decoded_0 == download->Ok_0->Ok_0,
        r is Malformed <==> present == Ok::<bool, RequestError>(true) && download is Ok
            && download->Ok_0 is Err,
        present is Err ==> r == StatsReply::<T>::Unreadable(present->Err_0),
{
    inventory_stats::reply_tells_how_far_the_reading_got(present, download);
}

/// A report counts the buckets in order, those that differ and those that failed, and keeps their
/// reports in their order.
pub proof fn reports_are_counted(reports: Vec<ReconcileReport>, r: ReconciliationReport)
    requires
        call_ensures(ReconciliationReport::from_reports, (reports,), r),
    ensures
        r.bucket_reports@ == reports@,
        r.processed == reports@.len(),
        r.ok == reports@.filter(|x: ReconcileReport| x.outcome() == Outcome::Conforms).len(),
        r.drift == reports@.filter(|x: ReconcileReport| x.outcome() == Outcome::Drift).len(),
        r.errors == reports@.filter(|x: ReconcileReport| x.outcome() == Outcome::Error).len(),
{
    reconcile_report::tally_is_the_number_of_reports(reports@, Outcome::Conforms);
    reconcile_report::tally_is_the_number_of_reports(reports@, Outcome::Drift);
    reconcile_report::tally_is_the_number_of_reports(reports@, Outcome::Error);
}

/// A bucket differs where one of its steps found a difference, and failed where one failed.
pub proof fn bucket_differs_with_its_steps(report: &ReconcileReport, drift: bool, errors: bool)
    requires
        call_ensures(ReconcileReport::has_drift, (report,), drift),
        call_ensures(ReconcileReport::has_errors, (report,), errors),
    ensures
        drift <==> exists|i: int|
            0 <= i < report.steps@.len() && (#[trigger] report.steps@[i]).status is Drift,
        errors <==> exists|i: int|
            0 <= i < report.steps@.len() && (#[trigger] report.steps@[i]).status is Error,
{
}

/// The reconciliation of a stack ends in an error where its buckets could not be listed, and where
/// one differs and that was to be an error; else it gives the reports on all its buckets in the
/// order of their names, with their counts.
pub proof fn stack_is_reported_on_in_full(
    args: &PerformArgs,
    reports: Result<Vec<ReconcileReport>, RequestError>,
    r: Result<ReconciliationReport, BucketReconciliationError>,
)
    requires
        call_ensures(reconciliation::perform, (args, reports), r),
    ensures
        reports is Err ==> r == Err::<ReconciliationReport, BucketReconciliationError>(
            BucketReconciliationError::Request(reports->Err_0),
        ),
        reports is Ok ==> {
            let drifted = reports->Ok_0@.filter(
                |x: ReconcileReport| x.outcome() == Outcome::Drift,
            ).len();
            &&& r is Err <==> args.fail_on_drift && drifted > 0
            &&& r is Err ==> r->Err_0 is DriftDetected && r->Err_0->DriftDetected_0@
                == text::decimal_digits(drifted) + " bucket(s) have configuration drift"@
            &&& r is Ok ==> {
                &&& r->Ok_0.bucket_reports@.to_multiset() == reports->Ok_0@.to_multiset()
                &&& forall|i: int, j: int|
                    0 <= i < j < r->Ok_0.bucket_reports@.len() ==> sorting::at_most(
                        (#[trigger] r->Ok_0.bucket_reports@[i]).bucket_name@,
                        (#[trigger] r->Ok_0.bucket_reports@[j]).bucket_name@,
                    )
                &&& r->Ok_0.processed == reports->Ok_0@.len()
                &&& r->Ok_0.drift == drifted
                &&& r->Ok_0.ok == reports->Ok_0@.filter(
                    |x: ReconcileReport| x.outcome() == Outcome::Conforms,
                ).len()
                &&& r->Ok_0.errors == reports->Ok_0@.filter(
                    |x: ReconcileReport| x.outcome() == Outcome::Error,
                ).len()
            }
        },
{
    if reports is Ok {
        reconcile_report::tally_is_the_number_of_reports(reports->Ok_0@, Outcome::Drift);
        if r is Ok {
            reconciliation::stack_report_is_sorted_and_counted(r->Ok_0, reports->Ok_0@);
        }
    }
}

/// The command fails where a bucket failed, and on demand where one differs, and says how many. It
/// succeeds on a stack without buckets.
pub proof fn command_ends_as_the_buckets_fared(
    args: &Args,
    report: &ReconciliationReport,
    r: CommandOutcome,
)
    requires
        call_ensures(reconciliation_command::run, (args, report), r),
    ensures
        r.result is Err <==> report.processed > 0 && (report.errors > 0 || (args.fail_on_drift
            && report.drift > 0)),
        report.processed > 0 && report.errors > 0 ==> r.result->Err_0@
            == "reconciliation reported "@ + text::decimal_digits(report.errors as nat)
            + " error(s)"@,
        report.processed > 0 && report.errors == 0 && r.result is Err ==> r.result->Err_0@
            == "reconciliation reported "@ + text::decimal_digits(report.drift as nat)
            + " bucket(s) with drift"@,
        report.processed == 0 ==> text::texts(r.lines@) == seq![
            "No bucket-request buckets found for reconciliation"@,
        ],
        report.processed > 0 ==> text::texts(r.lines@) == seq![
            "Found "@ + text::decimal_digits(report.processed as nat)
                + " bucket-request bucket(s) for reconciliation\n"@,
        ] + report.bucket_reports@.map_values(
            |x: ReconcileReport| reconciliation_command::bucket_lines(x),
        ).flatten() + seq![
            "Summary: "@ + text::decimal_digits(report.processed as nat) + " buckets processed, "@
                + text::decimal_digits(report.ok as nat) + " ok, "@ + text::decimal_digits(
                report.drift as nat,
            ) + " drift, "@ + text::decimal_digits(report.errors as nat) + " errors"@,
        ],
{
    reconciliation_command::stack_is_printed_with_its_counts(*report);
    reconciliation_command::every_bucket_is_printed(report.bucket_reports@);
}

/// A checksum job computes SHA-256 checksums of whole objects, for every object of the bucket.
pub proof fn checksum_job_covers_its_bucket(
    config: &BatchConfig<'_>,
    source_bucket: &str,
    nanos: u128,
    r: JobRequest,
)
    requires
        call_ensures(batch::create_checksum_job, (config, source_bucket, nanos), r),
    ensures
        r.operation == (JobOperation::ComputeChecksum {
            algorithm: ChecksumAlgorithm::Sha256,
            checksum_type: ChecksumType::FullObject,
        }),
        r.account_id@ == config.account_id@,
        r.role_arn@ == config.role_arn@,
        r.priority == 10,
        !r.confirmation_required,
        r.description@ == "Compute object checksums"@,
        r.client_request_token@ == "checksum"@ + "-job-"@ + text::decimal_digits(nanos as nat),
        r.manifest_generator.source_bucket@ == "arn:aws:s3:::"@ + source_bucket@,
        r.manifest_generator.manifest_bucket@ == "arn:aws:s3:::"@ + (config.stack@ + "-managed"@),
        r.manifest_generator.manifest_prefix@ == "batch/manifests"@ + "/"@ + "checksum"@,
        r.report.enabled,
        r.report.report_scope == JobReportScope::AllTasks,
        r.report.bucket@ == "arn:aws:s3:::"@ + (config.stack@ + "-managed"@),
        r.report.prefix@ == "batch/reports"@ + "/"@ + "checksum"@ + "/"@ + source_bucket@,
{
    batch::job_covers_the_whole_bucket(
        r,
        *config,
        "checksum"@,
        "Compute object checksums"@,
        source_bucket@,
        nanos as nat,
    );
}

/// A copy job copies every object of a bucket to another one, and is refused where that is the same
/// bucket.
pub proof fn copy_job_goes_to_another_bucket(
    config: &BatchConfig<'_>,
    source_bucket: &str,
    dest_bucket: &str,
    target_prefix: Option<&str>,
    nanos: u128,
    r: Result<JobRequest, BatchError>,
)
    requires
        call_ensures(
            batch::create_copy_job,
            (config, source_bucket, dest_bucket, target_prefix, nanos),
            r,
        ),
    ensures
        r is Err <==> source_bucket@ == dest_bucket@,
        r is Err ==> (r->Err_0 matches BatchError::Request(
            RequestError::ValidationError(message),
        ) && message@ == "Source and destination bucket must not be the same"@),
        r is Ok ==> {
            &&& r->Ok_0.operation is Copy
            &&& r->Ok_0.operation->target_resource@ == "arn:aws:s3:::"@ + dest_bucket@
            &&& target_prefix is None <==> r->Ok_0.operation->target_key_prefix is None
            &&& target_prefix is Some ==> r->Ok_0.operation->target_key_prefix->0@
                == target_prefix->0@
            &&& r->Ok_0.manifest_generator.source_bucket@ == "arn:aws:s3:::"@ + source_bucket@
            &&& r->Ok_0.account_id@ == config.account_id@
            &&& r->Ok_0.role_arn@ == config.role_arn@
            &&& r->Ok_0.description@ == "Copy objects to destination bucket"@
            &&& r->Ok_0.client_request_token@ == "copy"@ + "-job-"@ + text::decimal_digits(
                nanos as nat,
            )
            &&& r->Ok_0.report.enabled
            &&& r->Ok_0.report.report_scope == JobReportScope::AllTasks
            &&& r->Ok_0.report.prefix@ == "batch/reports"@ + "/"@ + "copy"@ + "/"@ + source_bucket@
        },
{
    if r is Ok {
        batch::job_covers_the_whole_bucket(
            r->Ok_0,
            *config,
            "copy"@,
            "Copy objects to destination bucket"@,
            source_bucket@,
            nanos as nat,
        );
        batch::copy_goes_to_the_destination(r->Ok_0.operation, dest_bucket@, target_prefix);
    }
}

/// The identifier of a job is the one in the reply; a reply without one, and a call that failed,
/// are errors.
pub proof fn job_has_the_identifier_of_the_reply(
    reply: Result<Option<String>, ControlError>,
    r: Result<String, BatchError>,
)
    requires
        call_ensures(batch::job_id, (reply,), r),
    ensures
        r is Ok <==> reply is Ok && reply->Ok_0 is Some,
        r is Ok ==> r->Ok_0 == reply->Ok_0->0,
        r is Err ==> r->Err_0 is S3Control,
        reply is Ok && reply->Ok_0 is None ==> r->Err_0->S3Control_0@
            == "missing job_id in response"@,
        reply is Err ==> r->Err_0->S3Control_0@ == reply->Err_0.report("CreateJob"@),
{
}

/// A receipt names the jobs and the buckets that it was made for.
pub proof fn receipt_is_for_its_jobs(
    source_bucket: &str,
    source_job_id: &str,
    repl_bucket: &str,
    repl_job_id: &str,
    created_at: String,
    made: ChecksumJobReceipt,
    now: ChecksumJobReceipt,
)
    requires
        call_ensures(
            ChecksumJobReceipt::created,
            (source_bucket, source_job_id, repl_bucket, repl_job_id, created_at),
            made,
        ),
        call_ensures(
            ChecksumJobReceipt::new,
            (source_bucket, source_job_id, repl_bucket, repl_job_id),
            now,
        ),
    ensures
        made.source_bucket@ == source_bucket@ && now.source_bucket@ == source_bucket@,
        made.source_job_id@ == source_job_id@ && now.source_job_id@ == source_job_id@,
        made.repl_bucket@ == repl_bucket@ && now.repl_bucket@ == repl_bucket@,
        made.repl_job_id@ == repl_job_id@ && now.repl_job_id@ == repl_job_id@,
        made.created_at == created_at,
        "+00:00"@.is_suffix_of(now.created_at@),
{
}

/// A job had nothing to do where it failed and every reason for it is an empty manifest; any other
/// reason, or none, is a failure to look at.
pub proof fn job_without_objects_is_told_from_a_failure(change: &S3BatchJobStatusChange, r: bool)
    requires
        call_ensures(S3BatchJobStatusChange::is_empty_manifest, (change,), r),
    ensures
        r <==> text::equal_ignoring_ascii_case(change.status@, "failed"@)
            && change.failure_codes@.len() > 0 && !exists|i: int|
            0 <= i < change.failure_codes@.len() && (#[trigger] change.failure_codes@[i])@
                != "InvalidManifestContent"@,
{
    batch::job_without_objects_failed_for_nothing_else(*change);
}

/// A dispatch fails exactly where a pair failed, and then reports each of them; else it gives the
/// receipts of all pairs, one pair after the other.
pub proof fn dispatch_succeeds_where_every_pair_does(
    dispatches: &Vec<PairDispatch>,
    r: Result<Vec<String>, Vec<String>>,
)
    requires
        call_ensures(batch::dispatch_bucket_pair_jobs, (dispatches,), r),
    ensures
        r is Ok <==> forall|i: int|
            0 <= i < dispatches@.len() ==> (#[trigger] dispatches@[i]).outcome is Ok,
        r is Err ==> text::texts(r->Err_0@) == dispatches@.filter(
            |d: PairDispatch| d.outcome is Err,
        ).map_values(|d: PairDispatch| d.pair.source@.name + ": "@ + d.outcome->Err_0@),
        r is Ok ==> text::texts(r->Ok_0@) == dispatches@.filter(
            |d: PairDispatch| d.outcome is Ok,
        ).map_values(
            |d: PairDispatch|
                Seq::new(d.outcome->Ok_0@.len(), |i: int| d.outcome->Ok_0@[i]@),
        ).flatten(),
{
    batch::every_failure_is_an_issue(dispatches@);
    batch::dispatch_reports_every_pair(dispatches@);
}

/// The files to download are those of the tasks that succeeded, in the order of the results.
pub proof fn succeeded_tasks_are_downloaded(results: &Vec<BatchResultEntry>, r: Vec<File>)
    requires
        call_ensures(batch::manifest_files, (results,), r),
    ensures
        r@.map_values(|file: File| file@) == results@.filter(
            |entry: BatchResultEntry|
                text::equal_ignoring_ascii_case(entry.task_execution_status@, "succeeded"@),
        ).map_values(
            |entry: BatchResultEntry|
                stack::ObjectView { bucket: entry.bucket@, key: entry.key@ },
        ),
{
    batch::files_of_all_succeeded_tasks_are_downloaded(results@);
}

/// An object is there where the service has its metadata, and is not where the service says that it
/// knows no such object; every other failure stays one.
pub proof fn absence_is_told_from_failure(
    file: &File,
    reply: Result<(), HeadFailure>,
    r: Result<bool, RequestError>,
    not_found: bool,
    error: ServiceError,
)
    requires
        call_ensures(file::file_exists, (file, reply), r),
    ensures
        reply is Ok <==> r == Ok::<bool, RequestError>(true),
        reply == Err::<(), HeadFailure>(HeadFailure::Service { not_found, error }) && (not_found
            || (error.code is Some && (error.code->0@ == "NotFound"@ || error.code->0@
            == "NoSuchKey"@))) ==> r == Ok::<bool, RequestError>(false),
        reply == Err::<(), HeadFailure>(HeadFailure::Service { not_found, error }) && !(not_found
            || (error.code is Some && (error.code->0@ == "NotFound"@ || error.code->0@
            == "NoSuchKey"@))) || reply == Err::<(), HeadFailure>(HeadFailure::Other(error))
            ==> r is Err && r->Err_0 is S3 && r->Err_0->context@ == "failed to head "@ + (
        "s3://"@ + file@.bucket + "/"@ + file@.key) && r->Err_0->source == error,
{
    file::only_the_service_can_say_that_an_object_is_missing(not_found, error);
}

/// A copy is asked for from the source to the destination.
pub proof fn copy_names_both_objects(src: &File, dest: &File, r: CopyRequest)
    requires
        call_ensures(file::copy, (src, dest), r),
    ensures
        r.bucket@ == dest@.bucket,
        r.key@ == dest@.key,
        r.copy_source@ == src@.bucket + "/"@ + src@.key,
{
}

/// The addresses of a file are those of its bucket and its key.
pub proof fn file_has_its_addresses(file: &File, s3: String, http: String, copy: String)
    requires
        call_ensures(File::s3_url, (file,), s3),
        call_ensures(File::http_url, (file,), http),
        call_ensures(File::copy_source, (file,), copy),
    ensures
        s3@ == "s3://"@ + file@.bucket + "/"@ + file@.key,
        http@ == "https://"@ + file@.bucket + ".s3.amazonaws.com/"@ + file@.key,
        copy@ == file@.bucket + "/"@ + file@.key,
{
}

/// The local copies of two objects have different names wherever their positions differ, and are
/// named after what stands behind the last slash of the key.
pub proof fn local_copies_have_names_of_their_own(
    i: usize,
    a: &File,
    x: String,
    j: usize,
    b: &File,
    y: String,
)
    requires
        call_ensures(file::local_name, (i, a), x),
        call_ensures(file::local_name, (j, b), y),
    ensures
        x@ == y@ ==> i == j,
        !x@.contains('/'),
        x@ == text::padded_digits(i as nat, 5) + "-"@ + text::after_last(a@.key, '/'),
{
    file::local_names_do_not_collide(i as nat, a@.key, j as nat, b@.key);
}

/// A set of tags is made exactly where a policy asks for a tag, and holds that tag alone.
pub proof fn tag_of_the_policy_is_set(
    policy: Option<&ExpirationPolicy>,
    r: Result<Option<aws_sdk_s3::types::Tagging>, ArchiveItError>,
)
    requires
        call_ensures(expiration::build_tagging, (policy,), r),
    ensures
        r is Ok,
        r->Ok_0 is Some <==> policy is Some && policy->0.tag is Some,
        r->Ok_0 is Some ==> (policy->0.tag matches Some((key, value)) && expiration::tag_entries(
            r->Ok_0->0,
        ) == seq![(key@, value@)]),
{
}

/// A tag that could not be set is reported with the address of the object and the reason.
pub proof fn failed_tag_names_the_object(
    bucket: &str,
    key: &str,
    reply: Result<(), ServiceError>,
    r: Result<(), ArchiveItError>,
)
    requires
        call_ensures(expiration::tag_expired, (bucket, key, reply), r),
    ensures
        r is Ok <==> reply is Ok,
        r is Err ==> (r->Err_0 matches ArchiveItError::Request(RequestError::S3 { context, source })
            && context@ == "failed to tag expired object "@ + ("s3://"@ + bucket@ + "/"@ + key@)
            && source == reply->Err_0),
{
}

/// A failed read is described with its operation, its code and its message.
pub proof fn failed_read_is_described(operation: &str, e: &ServiceError, r: String)
    requires
        call_ensures(errors::s3_read_error, (operation, e), r),
        e.code is Some,
        e.message is Some,
    ensures
        r@ == operation@ + " failed (code="@ + e.code->0@ + "): "@ + e.message->0@,
{
}

/// The search for a tag of a user ends with a page exactly where the page could not be read or one
/// of its tags has the key.
pub proof fn search_ends_where_the_tag_stands(
    page: &Result<Vec<Tag>, ServiceError>,
    key: &str,
    r: bool,
)
    requires
        call_ensures(users::ends_search, (page, key), r),
    ensures
        r <==> page is Err || exists|i: int|
            0 <= i < page->Ok_0@.len() && (#[trigger] page->Ok_0@[i]).key@ == key@,
{
    if page is Ok {
        crate::tags::tag_value_is_a_tag(page->Ok_0@, key@);
    }
}

/// Reading statistics failed where they are unreadable or malformed, and not where there are none.
pub proof fn missing_statistics_are_no_failure<T>(reply: &StatsReply<T>, r: bool)
    requires
        call_ensures(StatsReply::<T>::is_failure, (reply,), r),
    ensures
        r <==> reply is Unreadable || reply is Malformed,
{
}

/// A task succeeded where its status says so, in any case of its letters.
pub proof fn status_tells_whether_a_task_succeeded(entry: &BatchResultEntry, r: bool)
    requires
        call_ensures(batch::entry_succeeded, (entry,), r),
    ensures
        r <==> text::equal_ignoring_ascii_case(entry.task_execution_status@, "succeeded"@),
{
}

/// The heading of the command names the stack.
pub proof fn heading_names_the_stack(stack: &str, r: String)
    requires
        call_ensures(reconciliation_command::heading, (stack,), r),
    ensures
        r@ == "Evaluating buckets for stack: "@ + stack@,
{
}

/// The address of a user is in their first tag with the key `Email`.
pub proof fn address_is_in_the_email_tag(
    pages: &Vec<Result<Vec<Tag>, ServiceError>>,
    key: &str,
    r: Result<Option<String>, ServiceError>,
    i: int,
)
    requires
        call_ensures(users::get_user_tag, (pages, key), r),
        key@ == users::EMAIL_TAG_KEY@,
        pages@.len() > 0,
        pages@[0] is Ok,
        0 <= i < pages@[0]->Ok_0@.len(),
        pages@[0]->Ok_0@[i].key@ == "Email"@,
        forall|n: int| 0 <= n < i ==> (#[trigger] pages@[0]->Ok_0@[n]).key@ != "Email"@,
    ensures
        r is Ok,
        r->Ok_0 is Some,
        r->Ok_0->0@ == pages@[0]->Ok_0@[i].value@,
{
    users::first_tag_with_the_key_is_found(pages@, key@, 0);
}

} // verus!
