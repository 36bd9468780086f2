//! The command that reports the state of the buckets of a stack to an operator.
use vstd::prelude::*;
use vstd::string::*;

use crate::reconcile_report::{
    Outcome, ReconcileReport, ReconciliationReport, StepResult, StepStatus,
};
use crate::text;

verus! {

#[derive(Debug)]
pub struct Args {
    /// Stack name (e.g., digipres-dev1)
    pub stack: String,
    /// Return an error when configuration drift is detected
    pub fail_on_drift: bool,
}

/// What the command prints, one line after the other, and how it ends.
#[derive(Debug)]
pub struct CommandOutcome {
    pub lines: Vec<String>,
    pub result: Result<(), String>,
}

/// How wide the first column of a table row is.
pub const LABEL_WIDTH: usize = 18;

/// A row of the table of a bucket.
pub open spec fn row(label: Seq<char>, value: Seq<char>) -> Seq<char> {
    "\t"@ + (label + text::fill(' ', label.len(), LABEL_WIDTH as nat)) + " "@ + value
}

fn format_row(label: &str, value: &str) -> (r: String)
    ensures
        r@ == row(label@, value@),
{
    let padded = text::left_aligned(label, LABEL_WIDTH);
    text::join4("\t", padded.as_str(), " ", value)
}

/// The rows for a step: its status, and the text of an error with single spaces.
pub open spec fn step_rows(step: StepResult) -> Seq<Seq<char>> {
    let status = row(step.name@ + ":"@, step.status.word());
    match step.status {
        StepStatus::Error(message) => seq![status, row(""@, text::compacted(message@))],
        _ => seq![status],
    }
}

/// The rows for steps, in order.
pub open spec fn steps_rows(steps: Seq<StepResult>) -> Seq<Seq<char>>
    decreases steps.len(),
{
    if steps.len() == 0 {
        Seq::empty()
    } else {
        steps_rows(steps.drop_last()) + step_rows(steps.last())
    }
}

/// The word for how a bucket fared.
pub open spec fn outcome_word(outcome: Outcome) -> Seq<char> {
    match outcome {
        Outcome::Error => "ERROR"@,
        Outcome::Drift => "DRIFT"@,
        Outcome::Conforms => "OK"@,
    }
}

/// The lines for a bucket: its name and kind, its steps, and the result.
pub open spec fn bucket_lines(report: ReconcileReport) -> Seq<Seq<char>> {
    seq![report.bucket_name@ + " ("@ + report.bucket_type@ + ")"@] + steps_rows(report.steps@)
        + seq![row("result:"@, outcome_word(report.outcome())) + "\n"@]
}

/// The lines for buckets, in order.
pub open spec fn buckets_lines(reports: Seq<ReconcileReport>) -> Seq<Seq<char>>
    decreases reports.len(),
{
    if reports.len() == 0 {
        Seq::empty()
    } else {
        buckets_lines(reports.drop_last()) + bucket_lines(reports.last())
    }
}

/// The line that says how many buckets there are.
pub open spec fn found_line(n: nat) -> Seq<char> {
    "Found "@ + text::decimal_digits(n) + " bucket-request bucket(s) for reconciliation\n"@
}

/// The line with the counts.
pub open spec fn summary_line(report: ReconciliationReport) -> Seq<char> {
    "Summary: "@ + text::decimal_digits(report.processed as nat) + " buckets processed, "@
        + text::decimal_digits(report.ok as nat) + " ok, "@ + text::decimal_digits(
        report.drift as nat,
    ) + " drift, "@ + text::decimal_digits(report.errors as nat) + " errors"@
}

/// What is printed about a stack.
pub open spec fn printed(report: ReconciliationReport) -> Seq<Seq<char>> {
    if report.processed == 0 {
        seq!["No bucket-request buckets found for reconciliation"@]
    } else {
        seq![found_line(report.processed as nat)] + buckets_lines(report.bucket_reports@)
            + seq![summary_line(report)]
    }
}

/// The line that is printed before the buckets are looked at.
pub fn heading(stack: &str) -> (r: String)
    ensures
        r@ == "Evaluating buckets for stack: "@ + stack@,
{
    text::join2("Evaluating buckets for stack: ", stack)
}

fn push_step(lines: &mut Vec<String>, step: &StepResult)
    ensures
        text::texts(final(lines)@) == text::texts(old(lines)@) + step_rows(*step),
{
    let ghost before = lines@;
    let label = text::join2(step.name, ":");
    let status = format_row(label.as_str(), step.status.as_str());
    lines.push(status);
    if let StepStatus::Error(message) = &step.status {
        let compact_msg = text::compact(message.as_str());
        lines.push(format_row("", compact_msg.as_str()));
    }
    assert(text::texts(lines@) =~= text::texts(before) + step_rows(*step));
}

fn push_bucket(lines: &mut Vec<String>, report: &ReconcileReport)
    ensures
        text::texts(final(lines)@) == text::texts(old(lines)@) + bucket_lines(*report),
{
    let ghost before = lines@;
    let title = text::join4(
        report.bucket_name.as_str(),
        " (",
        report.bucket_type.as_str(),
        ")",
    );
    lines.push(title);
    let ghost titled = lines@;
    assert(text::texts(titled) =~= text::texts(before).push(title@));
    let mut i: usize = 0;
    assert(text::texts(titled) + steps_rows(report.steps@.take(0)) =~= text::texts(titled));
    while i < report.steps.len()
        invariant
            i <= report.steps@.len(),
            text::texts(lines@) == text::texts(titled) + steps_rows(report.steps@.take(i as int)),
        decreases report.steps@.len() - i,
    {
        assert(report.steps@.take(i + 1).drop_last() =~= report.steps@.take(i as int));
        push_step(lines, &report.steps[i]);
        assert(text::texts(lines@) =~= text::texts(titled) + steps_rows(
            report.steps@.take(i + 1),
        ));
        i += 1;
    }
    assert(report.steps@.take(i as int) =~= report.steps@);
    let ghost stepped = lines@;
    let word = if report.has_errors() {
        "ERROR"
    } else if report.has_drift() {
        "DRIFT"
    } else {
        "OK"
    };
    let mut result = format_row("result:", word);
    result.append("\n");
    lines.push(result);
    assert(text::texts(lines@) =~= text::texts(stepped).push(result@));
    assert(text::texts(lines@) =~= text::texts(before) + bucket_lines(*report));
}

fn summary(report: &ReconciliationReport) -> (r: String)
    ensures
        r@ == summary_line(*report),
{
    let processed = text::decimal(report.processed as u128);
    let ok = text::decimal(report.ok as u128);
    let drift = text::decimal(report.drift as u128);
    let errors = text::decimal(report.errors as u128);
    let mut line = text::join4("Summary: ", processed.as_str(), " buckets processed, ", ok.as_str());
    line.append(" ok, ");
    line.append(drift.as_str());
    line.append(" drift, ");
    line.append(errors.as_str());
    line.append(" errors");
    line
}

/// Prints the report on a stack, and ends in an error where a bucket could not be compared
/// or, on demand, where one differs.
pub fn run(args: &Args, report: &ReconciliationReport) -> (r: CommandOutcome)
    ensures
        text::texts(r.lines@) == printed(*report),
        if report.processed == 0 {
            r.result is Ok
        } else if report.errors > 0 {
            r.result matches Err(message) && message@ == "reconciliation reported "@
                + text::decimal_digits(report.errors as nat) + " error(s)"@
        } else if args.fail_on_drift && report.drift > 0 {
            r.result matches Err(message) && message@ == "reconciliation reported "@
                + text::decimal_digits(report.drift as nat) + " bucket(s) with drift"@
        } else {
            r.result is Ok
        },
{
    let mut lines: Vec<String> = Vec::new();
    if report.processed == 0 {
        lines.push(String::from_str("No bucket-request buckets found for reconciliation"));
        assert(text::texts(lines@) =~= printed(*report));
        return CommandOutcome { lines, result: Ok(()) };
    }
    let processed = text::decimal(report.processed as u128);
    lines.push(
        text::join3(
            "Found ",
            processed.as_str(),
            " bucket-request bucket(s) for reconciliation\n",
        ),
    );
    let ghost first = seq![found_line(report.processed as nat)];
    let mut i: usize = 0;
    assert(text::texts(lines@) =~= first + buckets_lines(report.bucket_reports@.take(0)));
    while i < report.bucket_reports.len()
        invariant
            i <= report.bucket_reports@.len(),
            text::texts(lines@) == first + buckets_lines(report.bucket_reports@.take(i as int)),
        decreases report.bucket_reports@.len() - i,
    {
        assert(report.bucket_reports@.take(i + 1).drop_last() =~= report.bucket_reports@.take(
            i as int,
        ));
        push_bucket(&mut lines, &report.bucket_reports[i]);
        assert(text::texts(lines@) =~= first + buckets_lines(report.bucket_reports@.take(i + 1)));
        i += 1;
    }
    assert(report.bucket_reports@.take(i as int) =~= report.bucket_reports@);
    let ghost listed = lines@;
    let line = summary(report);
    lines.push(line);
    assert(text::texts(lines@) =~= text::texts(listed).push(line@));
    assert(text::texts(lines@) =~= printed(*report));
    let result = if report.has_errors() {
        let count = text::decimal(report.errors as u128);
        Err(text::join3("reconciliation reported ", count.as_str(), " error(s)"))
    } else if args.fail_on_drift && report.has_drift() {
        let count = text::decimal(report.drift as u128);
        Err(text::join3("reconciliation reported ", count.as_str(), " bucket(s) with drift"))
    } else {
        Ok(())
    };
    CommandOutcome { lines, result }
}

/// A row begins with a tab and has its value in a column of its own: the label is filled up with
/// spaces to eighteen characters, and one more space follows.
pub proof fn row_has_its_value_in_a_column(label: Seq<char>, value: Seq<char>)
    ensures
        label.len() <= 18 ==> row(label, value) == "\t"@ + label + Seq::new(
            (19 - label.len()) as nat,
            |i: int| ' ',
        ) + value,
        label.len() > 18 ==> row(label, value) == "\t"@ + label + seq![' '] + value,
{
    reveal_strlit(" ");
    if label.len() <= 18 {
        assert(row(label, value) =~= "\t"@ + label + Seq::new(
            (19 - label.len()) as nat,
            |i: int| ' ',
        ) + value);
    } else {
        assert(row(label, value) =~= "\t"@ + label + seq![' '] + value);
    }
}

/// Every step has a row with its name and the word for its status; an error has a further row with
/// its text in one line.
pub proof fn step_is_printed_with_its_status(step: StepResult)
    ensures
        step.status is Conforms ==> step_rows(step) == seq![row(step.name@ + ":"@, "ok"@)],
        step.status is Drift ==> step_rows(step) == seq![row(step.name@ + ":"@, "drift"@)],
        step.status is Error ==> step_rows(step) == seq![
            row(step.name@ + ":"@, "error"@),
            row(""@, text::compacted(step.status->Error_0@)),
        ],
{
}

/// The steps of a bucket are printed one after the other, and none is left out.
pub proof fn every_step_is_printed(steps: Seq<StepResult>)
    ensures
        steps_rows(steps) == steps.map_values(|step: StepResult| step_rows(step)).flatten(),
    decreases steps.len(),
{
    let rows = steps.map_values(|step: StepResult| step_rows(step));
    rows.lemma_flatten_and_flatten_alt_are_equivalent();
    if steps.len() > 0 {
        let rest = steps.drop_last();
        every_step_is_printed(rest);
        let earlier = rest.map_values(|step: StepResult| step_rows(step));
        earlier.lemma_flatten_and_flatten_alt_are_equivalent();
        assert(rows.drop_last() =~= earlier);
    }
}

/// A bucket is printed with its name and kind above its steps and the result below them: `ERROR`
/// where a step failed, else `DRIFT` where one found a difference, else `OK`.
pub proof fn bucket_is_printed_with_its_result(report: ReconcileReport)
    ensures
        bucket_lines(report) == seq![
            report.bucket_name@ + " ("@ + report.bucket_type@ + ")"@,
        ] + steps_rows(report.steps@) + seq![
            row(
                "result:"@,
                if exists|i: int|
                    0 <= i < report.steps@.len() && (#[trigger] report.steps@[i]).status is Error {
                    "ERROR"@
                } else if exists|i: int|
                    0 <= i < report.steps@.len() && (#[trigger] report.steps@[i]).status is Drift {
                    "DRIFT"@
                } else {
                    "OK"@
                },
            ) + "\n"@,
        ],
{
    crate::reconcile_report::outcome_is_that_of_the_worst_step(report);
}

/// The buckets of a stack are printed one after the other, and none is left out.
pub proof fn every_bucket_is_printed(reports: Seq<ReconcileReport>)
    ensures
        buckets_lines(reports) == reports.map_values(
            |report: ReconcileReport| bucket_lines(report),
        ).flatten(),
    decreases reports.len(),
{
    let lines = reports.map_values(|report: ReconcileReport| bucket_lines(report));
    lines.lemma_flatten_and_flatten_alt_are_equivalent();
    if reports.len() > 0 {
        let rest = reports.drop_last();
        every_bucket_is_printed(rest);
        let earlier = rest.map_values(|report: ReconcileReport| bucket_lines(report));
        earlier.lemma_flatten_and_flatten_alt_are_equivalent();
        assert(lines.drop_last() =~= earlier);
    }
}

/// The number of buckets stands above them and the counts below; a stack without buckets has one
/// line that says so.
pub proof fn stack_is_printed_with_its_counts(report: ReconciliationReport)
    ensures
        report.processed == 0 ==> printed(report) == seq![
            "No bucket-request buckets found for reconciliation"@,
        ],
        report.processed > 0 ==> printed(report) == seq![
            "Found "@ + text::decimal_digits(report.processed as nat)
                + " bucket-request bucket(s) for reconciliation\n"@,
        ] + buckets_lines(report.bucket_reports@) + seq![
            "Summary: "@ + text::decimal_digits(report.processed as nat) + " buckets processed, "@
                + text::decimal_digits(report.ok as nat) + " ok, "@ + text::decimal_digits(
                report.drift as nat,
            ) + " drift, "@ + text::decimal_digits(report.errors as nat) + " errors"@,
        ],
{
}

} // verus!
