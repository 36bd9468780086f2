//! What a comparison of buckets with their expected configuration found.
use vstd::prelude::*;

use crate::bucket::Type;

verus! {

/// Status of a single reconciliation step.
#[derive(Debug)]
pub enum StepStatus {
    /// Configuration matches expected state.
    Conforms,
    /// Configuration differs from expected state.
    Drift,
    /// An error occurred reading or comparing configuration.
    Error(String),
}

/// The status of a step, with the text of its error.
pub enum StatusView {
    Conforms,
    Drift,
    Error(Seq<char>),
}

impl View for StepStatus {
    type V = StatusView;

    open spec fn view(&self) -> StatusView {
        match self {
            StepStatus::Conforms => StatusView::Conforms,
            StepStatus::Drift => StatusView::Drift,
            StepStatus::Error(message) => StatusView::Error(message@),
        }
    }
}

impl StepStatus {
    /// The word for the status, without the text of an error.
    pub open spec fn word(self) -> Seq<char> {
        match self {
            StepStatus::Conforms => "ok"@,
            StepStatus::Drift => "drift"@,
            StepStatus::Error(_) => "error"@,
        }
    }

    /// The word for the status, without the text of an error.
    pub fn as_str(&self) -> (r: &'static str)
        ensures
            r@ == self.word(),
    {
        match self {
            StepStatus::Conforms => "ok",
            StepStatus::Drift => "drift",
            StepStatus::Error(_) => "error",
        }
    }
}

/// Result of a single reconciliation step.
#[derive(Debug)]
pub struct StepResult {
    pub name: &'static str,
    pub status: StepStatus,
}

/// The name and the status of a step.
pub struct StepView {
    pub name: Seq<char>,
    pub status: StatusView,
}

impl View for StepResult {
    type V = StepView;

    open spec fn view(&self) -> StepView {
        StepView { name: self.name@, status: self.status@ }
    }
}

/// What each step found.
pub open spec fn step_views(steps: Seq<StepResult>) -> Seq<StepView> {
    steps.map_values(|step: StepResult| step@)
}

/// Report for a single bucket's reconciliation.
#[derive(Debug)]
pub struct ReconcileReport {
    pub bucket_name: String,
    pub bucket_type: Type,
    pub steps: Vec<StepResult>,
}

/// How a bucket fared: an error outweighs a drift.
pub enum Outcome {
    Conforms,
    Drift,
    Error,
}

impl ReconcileReport {
    /// Whether a step failed.
    pub open spec fn failed(self) -> bool {
        exists|i: int| 0 <= i < self.steps@.len() && (#[trigger] self.steps@[i]).status is Error
    }

    /// Whether a step found a difference.
    pub open spec fn drifted(self) -> bool {
        exists|i: int| 0 <= i < self.steps@.len() && (#[trigger] self.steps@[i]).status is Drift
    }

    /// How the bucket fared.
    pub open spec fn outcome(self) -> Outcome {
        if self.failed() {
            Outcome::Error
        } else if self.drifted() {
            Outcome::Drift
        } else {
            Outcome::Conforms
        }
    }

    pub fn has_errors(&self) -> (r: bool)
        ensures
            r == self.failed(),
    {
        let mut i: usize = 0;
        while i < self.steps.len()
            invariant
                i <= self.steps@.len(),
                forall|j: int| 0 <= j < i ==> !((#[trigger] self.steps@[j]).status is Error),
            decreases self.steps@.len() - i,
        {
            if let StepStatus::Error(_) = &self.steps[i].status {
                return true;
            }
            i += 1;
        }
        false
    }

    pub fn has_drift(&self) -> (r: bool)
        ensures
            r == self.drifted(),
    {
        let mut i: usize = 0;
        while i < self.steps.len()
            invariant
                i <= self.steps@.len(),
                forall|j: int| 0 <= j < i ==> !((#[trigger] self.steps@[j]).status is Drift),
            decreases self.steps@.len() - i,
        {
            if let StepStatus::Drift = &self.steps[i].status {
                return true;
            }
            i += 1;
        }
        false
    }
}

/// Aggregated report across many reconciled buckets.
#[derive(Debug)]
pub struct ReconciliationReport {
    pub bucket_reports: Vec<ReconcileReport>,
    pub processed: usize,
    pub ok: usize,
    pub drift: usize,
    pub errors: usize,
}

/// How many of the reports have the outcome `outcome`.
pub open spec fn tally(reports: Seq<ReconcileReport>, outcome: Outcome) -> nat
    decreases reports.len(),
{
    if reports.len() == 0 {
        0
    } else if reports.last().outcome() == outcome {
        tally(reports.drop_last(), outcome) + 1
    } else {
        tally(reports.drop_last(), outcome)
    }
}

impl ReconciliationReport {
    /// The reports with their counts.
    pub open spec fn sums_up(self, reports: Seq<ReconcileReport>) -> bool {
        &&& self.bucket_reports@ == reports
        &&& self.processed == reports.len()
        &&& self.ok == tally(reports, Outcome::Conforms)
        &&& self.drift == tally(reports, Outcome::Drift)
        &&& self.errors == tally(reports, Outcome::Error)
    }

    pub fn from_reports(reports: Vec<ReconcileReport>) -> (r: ReconciliationReport)
        ensures
            r.sums_up(reports@),
            r.ok + r.drift + r.errors == r.processed,
    {
        let processed = reports.len();
        let mut ok: usize = 0;
        let mut drift: usize = 0;
        let mut errors: usize = 0;
        let mut i: usize = 0;
        while i < reports.len()
            invariant
                i <= reports@.len(),
                ok == tally(reports@.take(i as int), Outcome::Conforms),
                drift == tally(reports@.take(i as int), Outcome::Drift),
                errors == tally(reports@.take(i as int), Outcome::Error),
                ok + drift + errors == i,
            decreases reports@.len() - i,
        {
            assert(reports@.take(i + 1).drop_last() =~= reports@.take(i as int));
            if reports[i].has_errors() {
                errors += 1;
            } else if reports[i].has_drift() {
                drift += 1;
            } else {
                ok += 1;
            }
            i += 1;
        }
        assert(reports@.take(i as int) =~= reports@);
        ReconciliationReport { bucket_reports: reports, processed, ok, drift, errors }
    }

    pub fn has_drift(&self) -> (r: bool)
        ensures
            r == (self.drift > 0),
    {
        self.drift > 0
    }

    pub fn has_errors(&self) -> (r: bool)
        ensures
            r == (self.errors > 0),
    {
        self.errors > 0
    }
}

/// A count is above zero exactly where a report has the outcome.
pub proof fn tally_counts_reports(reports: Seq<ReconcileReport>, outcome: Outcome)
    ensures
        tally(reports, outcome) <= reports.len(),
        tally(reports, outcome) > 0 <==> exists|i: int|
            0 <= i < reports.len() && (#[trigger] reports[i]).outcome() == outcome,
    decreases reports.len(),
{
    if reports.len() > 0 {
        let rest = reports.drop_last();
        tally_counts_reports(rest, outcome);
        if reports.last().outcome() == outcome {
            assert(reports[reports.len() - 1].outcome() == outcome);
        } else {
            if tally(rest, outcome) > 0 {
                let i = choose|i: int|
                    0 <= i < rest.len() && (#[trigger] rest[i]).outcome() == outcome;
                assert(reports[i].outcome() == outcome);
            }
            if exists|i: int| 0 <= i < reports.len() && (#[trigger] reports[i]).outcome() == outcome {
                let i = choose|i: int|
                    0 <= i < reports.len() && (#[trigger] reports[i]).outcome() == outcome;
                assert(rest[i].outcome() == outcome);
            }
        }
    }
}

/// Every report is counted once.
pub proof fn every_report_is_counted_once(reports: Seq<ReconcileReport>)
    ensures
        tally(reports, Outcome::Conforms) + tally(reports, Outcome::Drift) + tally(
            reports,
            Outcome::Error,
        ) == reports.len(),
    decreases reports.len(),
{
    if reports.len() > 0 {
        every_report_is_counted_once(reports.drop_last());
    }
}

/// The word for a status tells a match from a difference and from an error.
pub proof fn status_has_its_word(status: StepStatus)
    ensures
        status is Conforms ==> status.word() == "ok"@,
        status is Drift ==> status.word() == "drift"@,
        status is Error ==> status.word() == "error"@,
        status is Conforms <==> status@ is Conforms,
        status is Drift <==> status@ is Drift,
        status is Error ==> status@ == StatusView::Error(status->Error_0@),
{
}

/// A bucket is in order exactly where every step found what it should; an error in any step makes
/// it one that failed, and a difference one that differs only where no step failed.
pub proof fn outcome_is_that_of_the_worst_step(report: ReconcileReport)
    ensures
        report.failed() <==> exists|i: int|
            0 <= i < report.steps@.len() && (#[trigger] report.steps@[i]).status is Error,
        report.drifted() <==> exists|i: int|
            0 <= i < report.steps@.len() && (#[trigger] report.steps@[i]).status is Drift,
        report.outcome() == Outcome::Conforms <==> forall|i: int|
            0 <= i < report.steps@.len() ==> (#[trigger] report.steps@[i]).status is Conforms,
        report.outcome() == Outcome::Error <==> report.failed(),
        report.outcome() == Outcome::Drift <==> report.drifted() && !report.failed(),
{
}

/// A count is the number of the reports with the outcome.
pub proof fn tally_is_the_number_of_reports(reports: Seq<ReconcileReport>, outcome: Outcome)
    ensures
        tally(reports, outcome) == reports.filter(
            |report: ReconcileReport| report.outcome() == outcome,
        ).len(),
    decreases reports.len(),
{
    reveal(Seq::filter);
    if reports.len() > 0 {
        tally_is_the_number_of_reports(reports.drop_last(), outcome);
    }
}

/// A summary keeps every report in its place and counts them by their outcome.
pub proof fn summary_counts_the_reports(
    summary: ReconciliationReport,
    reports: Seq<ReconcileReport>,
)
    requires
        summary.sums_up(reports),
    ensures
        summary.bucket_reports@ == reports,
        summary.processed == reports.len(),
        summary.ok == reports.filter(
            |report: ReconcileReport| report.outcome() == Outcome::Conforms,
        ).len(),
        summary.drift == reports.filter(
            |report: ReconcileReport| report.outcome() == Outcome::Drift,
        ).len(),
        summary.errors == reports.filter(
            |report: ReconcileReport| report.outcome() == Outcome::Error,
        ).len(),
{
    tally_is_the_number_of_reports(reports, Outcome::Conforms);
    tally_is_the_number_of_reports(reports, Outcome::Drift);
    tally_is_the_number_of_reports(reports, Outcome::Error);
}

} // verus!
