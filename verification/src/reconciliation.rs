//! Reconciliation of all requested buckets of a stack.
use vstd::prelude::*;
use vstd::string::*;

use crate::bucket;
use crate::bucket::{Bucket, BucketView, Type};
use crate::errors::{BucketReconciliationError, RequestError};
use crate::pairing;
use crate::reconcile_report;
use crate::reconcile_report::{Outcome, ReconcileReport, ReconciliationReport};
use crate::sorting;
use crate::text;

verus! {

#[derive(Debug, Clone, Copy)]
pub struct PerformArgs {
    /// Whether a difference is an error.
    pub fail_on_drift: bool,
}

impl Default for PerformArgs {
    fn default() -> (r: Self)
        ensures
            !r.fail_on_drift,
    {
        PerformArgs { fail_on_drift: false }
    }
}

/// A bucket to reconcile, with its replica where it has one.
#[derive(Debug)]
pub struct ReconcileTarget {
    pub bucket: Bucket,
    pub replica: Option<Bucket>,
}

/// A bucket to reconcile, with its replica where it has one.
pub struct TargetView {
    pub bucket: BucketView,
    pub replica: Option<BucketView>,
}

impl View for ReconcileTarget {
    type V = TargetView;

    open spec fn view(&self) -> TargetView {
        TargetView {
            bucket: self.bucket@,
            replica: match self.replica {
                Some(replica) => Some(replica@),
                None => None,
            },
        }
    }
}

/// The targets.
pub open spec fn target_views(targets: Seq<ReconcileTarget>) -> Seq<TargetView> {
    targets.map_values(|target: ReconcileTarget| target@)
}

/// The buckets that take uploads, each with its replica, in their order.
pub open spec fn source_targets(
    buckets: Seq<BucketView>,
    replicas: Seq<BucketView>,
) -> Seq<TargetView>
    decreases buckets.len(),
{
    if buckets.len() == 0 {
        Seq::empty()
    } else {
        let before = source_targets(buckets.drop_last(), replicas);
        let bucket = buckets.last();
        if pairing::is_source(bucket) {
            before.push(
                TargetView { bucket, replica: pairing::replica_of(replicas, bucket.name) },
            )
        } else {
            before
        }
    }
}

/// The other buckets, in their order.
pub open spec fn other_targets(buckets: Seq<BucketView>) -> Seq<TargetView>
    decreases buckets.len(),
{
    if buckets.len() == 0 {
        Seq::empty()
    } else if pairing::is_source(buckets.last()) {
        other_targets(buckets.drop_last())
    } else {
        other_targets(buckets.drop_last()).push(
            TargetView { bucket: buckets.last(), replica: None },
        )
    }
}

/// The buckets in the order in which they are reconciled: first those that take uploads,
/// with their replicas as far as there are any, then the others.
pub fn reconcile_targets(buckets: &Vec<Bucket>) -> (r: Vec<ReconcileTarget>)
    ensures
        target_views(r@) == source_targets(
            bucket::bucket_views(buckets@),
            pairing::replicas_among(bucket::bucket_views(buckets@)),
        ) + other_targets(bucket::bucket_views(buckets@)),
{
    let ghost views = bucket::bucket_views(buckets@);
    let (_, replicas) = pairing::split_by_role(buckets);
    let mut targets: Vec<ReconcileTarget> = Vec::new();
    let mut others: Vec<ReconcileTarget> = Vec::new();
    let mut i: usize = 0;
    assert(target_views(targets@) =~= Seq::<TargetView>::empty());
    assert(target_views(others@) =~= Seq::<TargetView>::empty());
    while i < buckets.len()
        invariant
            views == bucket::bucket_views(buckets@),
            bucket::bucket_views(replicas@) == pairing::replicas_among(views),
            i <= buckets@.len(),
            target_views(targets@) == source_targets(
                views.take(i as int),
                pairing::replicas_among(views),
            ),
            target_views(others@) == other_targets(views.take(i as int)),
        decreases buckets@.len() - i,
    {
        let ghost targets_before = targets@;
        let ghost others_before = others@;
        assert(views.take(i + 1).drop_last() =~= views.take(i as int));
        assert(views.take(i + 1).last() == buckets@[i as int]@);
        let bucket = buckets[i].clone();
        if *bucket.bucket_type() == Type::Public || *bucket.bucket_type() == Type::Standard {
            let replica = pairing::find_replica(&replicas, bucket.name());
            let target = ReconcileTarget { bucket, replica };
            targets.push(target);
            assert(target_views(targets@) =~= target_views(targets_before).push(target@));
        } else {
            let target = ReconcileTarget { bucket, replica: None };
            others.push(target);
            assert(target_views(others@) =~= target_views(others_before).push(target@));
        }
        i += 1;
    }
    assert(views.take(i as int) =~= views);
    let ghost sources = targets@;
    let ghost rest = others@;
    targets.append(&mut others);
    assert(target_views(targets@) =~= target_views(sources) + target_views(rest));
    targets
}

/// Every bucket is reconciled once.
pub proof fn every_bucket_is_reconciled_once(buckets: Seq<BucketView>, replicas: Seq<BucketView>)
    ensures
        source_targets(buckets, replicas).len() + other_targets(buckets).len() == buckets.len(),
    decreases buckets.len(),
{
    if buckets.len() > 0 {
        every_bucket_is_reconciled_once(buckets.drop_last(), replicas);
    }
}

/// What is said of differences where they are an error.
pub open spec fn drift_text(n: nat) -> Seq<char> {
    text::decimal_digits(n) + " bucket(s) have configuration drift"@
}

/// Whether `report` holds the reports in the order of the names of the buckets, and
/// counts them.
pub open spec fn sums_up_sorted(
    report: ReconciliationReport,
    reports: Seq<ReconcileReport>,
) -> bool {
    &&& report.sums_up(report.bucket_reports@)
    &&& sorting::sorted(report.bucket_reports@)
    &&& report.bucket_reports@.to_multiset() == reports.to_multiset()
    &&& report.processed == reports.len()
    &&& report.ok == reconcile_report::tally(reports, Outcome::Conforms)
    &&& report.drift == reconcile_report::tally(reports, Outcome::Drift)
    &&& report.errors == reconcile_report::tally(reports, Outcome::Error)
}

/// Run bucket reconciliation for all bucket-request buckets in a stack, given the reports
/// of their reconciliation or why they could not be listed.
/// For now this is a reporter-only: reads and compares configuration.
pub fn perform(
    args: &PerformArgs,
    reports: Result<Vec<ReconcileReport>, RequestError>,
) -> (r: Result<ReconciliationReport, BucketReconciliationError>)
    ensures
        match reports {
            Err(e) => r matches Err(BucketReconciliationError::Request(error)) && error == e,
            Ok(all) => if args.fail_on_drift && reconcile_report::tally(all@, Outcome::Drift) > 0 {
                r matches Err(BucketReconciliationError::DriftDetected(message)) && message@
                    == drift_text(reconcile_report::tally(all@, Outcome::Drift))
            } else {
                r matches Ok(report) && sums_up_sorted(report, all@)
            },
        },
{
    let all = match reports {
        Ok(all) => all,
        Err(e) => {
            return Err(BucketReconciliationError::Request(e));
        },
    };
    let ghost given = all@;
    let sorted = sorting::sort_by_name(all);
    let report = ReconciliationReport::from_reports(sorted);
    proof {
        lemma_same_tally(sorted@, given, Outcome::Conforms);
        lemma_same_tally(sorted@, given, Outcome::Drift);
        lemma_same_tally(sorted@, given, Outcome::Error);
    }
    if args.fail_on_drift && report.has_drift() {
        let count = text::decimal(report.drift as u128);
        return Err(
            BucketReconciliationError::DriftDetected(
                text::join2(count.as_str(), " bucket(s) have configuration drift"),
            ),
        );
    }
    Ok(report)
}

proof fn lemma_tally_remove(reports: Seq<ReconcileReport>, i: int, outcome: Outcome)
    requires
        0 <= i < reports.len(),
    ensures
        reconcile_report::tally(reports, outcome) == reconcile_report::tally(
            reports.remove(i),
            outcome,
        ) + if reports[i].outcome() == outcome {
            1nat
        } else {
            0nat
        },
    decreases reports.len(),
{
    let rest = reports.drop_last();
    if i < rest.len() {
        lemma_tally_remove(rest, i, outcome);
        assert(reports.remove(i).drop_last() =~= rest.remove(i));
        assert(reports.remove(i).last() == reports.last());
    } else {
        assert(reports.remove(i) =~= rest);
    }
}

proof fn lemma_same_tally(a: Seq<ReconcileReport>, b: Seq<ReconcileReport>, outcome: Outcome)
    requires
        a.to_multiset() == b.to_multiset(),
    ensures
        reconcile_report::tally(a, outcome) == reconcile_report::tally(b, outcome),
        a.len() == b.len(),
    decreases a.len(),
{
    broadcast use vstd::seq_lib::group_to_multiset_ensures;

    assert(a.len() == a.to_multiset().len());
    assert(b.len() == b.to_multiset().len());
    if a.len() > 0 {
        let x = a.last();
        assert(a[a.len() - 1] == x);
        assert(a.to_multiset().count(x) > 0);
        assert(b.contains(x));
        let i = choose|i: int| 0 <= i < b.len() && b[i] == x;
        vstd::seq_lib::to_multiset_remove(a, a.len() - 1);
        vstd::seq_lib::to_multiset_remove(b, i);
        assert(a.remove(a.len() - 1) =~= a.drop_last());
        lemma_same_tally(a.drop_last(), b.remove(i), outcome);
        lemma_tally_remove(b, i, outcome);
    }
}

/// The buckets to reconcile are all that were given: first the public and the standard ones, each
/// with the replica under its name if there is one, then the others without any, both in their
/// order.
pub proof fn all_given_buckets_are_reconciled(buckets: Seq<BucketView>, replicas: Seq<BucketView>)
    ensures
        source_targets(buckets, replicas) == buckets.filter(
            |b: BucketView| b.bucket_type == Type::Public || b.bucket_type == Type::Standard,
        ).map_values(
            |b: BucketView|
                TargetView { bucket: b, replica: pairing::replica_of(replicas, b.name) },
        ),
        other_targets(buckets) == buckets.filter(
            |b: BucketView| b.bucket_type == Type::Replication || b.bucket_type == Type::Internal,
        ).map_values(|b: BucketView| TargetView { bucket: b, replica: None }),
    decreases buckets.len(),
{
    reveal(Seq::filter);
    let source = |b: BucketView|
        b.bucket_type == Type::Public || b.bucket_type == Type::Standard;
    let other = |b: BucketView|
        b.bucket_type == Type::Replication || b.bucket_type == Type::Internal;
    if buckets.len() > 0 {
        all_given_buckets_are_reconciled(buckets.drop_last(), replicas);
    }
    assert(source_targets(buckets, replicas) =~= buckets.filter(source).map_values(
        |b: BucketView| TargetView { bucket: b, replica: pairing::replica_of(replicas, b.name) },
    ));
    assert(other_targets(buckets) =~= buckets.filter(other).map_values(
        |b: BucketView| TargetView { bucket: b, replica: None },
    ));
}

/// A report on a stack holds the reports on its buckets, each as often as it was given, in the
/// order of their names, and counts them by their outcome.
pub proof fn stack_report_is_sorted_and_counted(
    report: ReconciliationReport,
    reports: Seq<ReconcileReport>,
)
    requires
        sums_up_sorted(report, reports),
    ensures
        forall|i: int, j: int|
            0 <= i < j < report.bucket_reports@.len() ==> sorting::at_most(
                (#[trigger] report.bucket_reports@[i]).bucket_name@,
                (#[trigger] report.bucket_reports@[j]).bucket_name@,
            ),
        report.bucket_reports@.to_multiset() == reports.to_multiset(),
        report.processed == reports.len(),
        report.ok == reports.filter(|r: ReconcileReport| r.outcome() == Outcome::Conforms).len(),
        report.drift == reports.filter(|r: ReconcileReport| r.outcome() == Outcome::Drift).len(),
        report.errors == reports.filter(|r: ReconcileReport| r.outcome() == Outcome::Error).len(),
{
    reconcile_report::tally_is_the_number_of_reports(reports, Outcome::Conforms);
    reconcile_report::tally_is_the_number_of_reports(reports, Outcome::Drift);
    reconcile_report::tally_is_the_number_of_reports(reports, Outcome::Error);
    assert forall|i: int, j: int| 0 <= i < j < report.bucket_reports@.len() implies sorting::at_most(
        (#[trigger] report.bucket_reports@[i]).bucket_name@,
        (#[trigger] report.bucket_reports@[j]).bucket_name@,
    ) by {
        assert(sorting::at_most(
            sorting::Named::sort_name(&report.bucket_reports@[i]),
            sorting::Named::sort_name(&report.bucket_reports@[j]),
        ));
    }
}

/// Differences that are an error are reported with their number.
pub proof fn drift_is_reported_with_its_number(n: nat)
    ensures
        drift_text(n) == text::decimal_digits(n) + " bucket(s) have configuration drift"@,
{
}

} // verus!
