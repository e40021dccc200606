//! Batch orchestration: planning the work items of a batch, and aggregating
//! per-item outcomes into a summary. A failed item is terminal for that item
//! only; it never aborts the batch.

use vstd::prelude::*;
use vstd::string::StringExecFns;

use crate::compose::RenderError;
use crate::compose::render_error_text;
use crate::naming::certificate_path_spec;
use crate::naming::certificate_file_name;

verus! {

/// Why a batch cannot start. These abort the whole batch before any item is
/// dispatched.
#[derive(Clone, Copy, Debug, PartialEq, Eq, Structural)]
pub enum BatchError {
    /// The list of names is empty.
    EmptyBatch,
    /// The font bytes are not parsable.
    FontLoadError,
    /// The template is unreadable or not a decodable raster image.
    TemplateLoadError,
    /// The output directory cannot be created.
    NoOutputDirectory,
}

/// The description a batch-level failure is reported with.
pub open spec fn batch_error_text(e: BatchError) -> Seq<char> {
    match e {
        BatchError::EmptyBatch => "no names to render"@,
        BatchError::FontLoadError => "failed to parse font bytes"@,
        BatchError::TemplateLoadError => "failed to load template image"@,
        BatchError::NoOutputDirectory => "failed to create output directory"@,
    }
}

impl BatchError {
    /// A short description for reporting.
    pub fn message(&self) -> (r: String)
        ensures
            r@ == batch_error_text(*self),
    {
        match self {
            BatchError::EmptyBatch => String::from_str("no names to render"),
            BatchError::FontLoadError => String::from_str("failed to parse font bytes"),
            BatchError::TemplateLoadError => String::from_str("failed to load template image"),
            BatchError::NoOutputDirectory => String::from_str("failed to create output directory"),
        }
    }
}

/// One unit of work in a batch: a name and the output path derived from it.
pub struct WorkItem {
    pub name: String,
    pub output_path: String,
}

/// Validate a batch and lay out its work: one item per name, in input order,
/// each with the output path `output_dir/certificate_<stem>.png`.
pub fn plan_batch(names: &Vec<String>, output_dir: &str) -> (r: Result<Vec<WorkItem>, BatchError>)
    ensures
        r is Ok <==> names@.len() > 0,
        r is Err ==> r->Err_0 == BatchError::EmptyBatch,
        r is Ok ==> ({
            let items = r->Ok_0@;
            &&& items.len() == names@.len()
            &&& forall|i: int|
                0 <= i < items.len() ==> (#[trigger] items[i]).name@ == names@[i]@
                    && items[i].output_path@ == certificate_path_spec(output_dir@, names@[i]@)
        }),
{
    if names.len() == 0 {
        return Err(BatchError::EmptyBatch);
    }
    let mut items: Vec<WorkItem> = Vec::new();
    let n = names.len();
    for i in 0..n
        invariant
            n == names@.len(),
            items@.len() == i,
            forall|j: int|
                0 <= j < i ==> (#[trigger] items@[j]).name@ == names@[j]@
                    && items@[j].output_path@ == certificate_path_spec(output_dir@, names@[j]@),
    {
        let name = names[i].clone();
        let output_path = certificate_file_name(output_dir, name.as_str());
        items.push(WorkItem { name, output_path });
    }
    Ok(items)
}

/// The result of one item: either the path the certificate was written to,
/// or the failed name with a description of the cause. The original name is
/// always recoverable.
pub enum RenderOutcome {
    Success { name: String, output_path: String },
    Failure { name: String, detail: String },
}

pub open spec fn outcome_name(o: RenderOutcome) -> Seq<char> {
    match o {
        RenderOutcome::Success { name, .. } => name@,
        RenderOutcome::Failure { name, .. } => name@,
    }
}

impl RenderOutcome {
    /// The name the outcome belongs to.
    pub fn name(&self) -> (r: &String)
        ensures
            r@ == outcome_name(*self),
    {
        match self {
            RenderOutcome::Success { name, .. } => name,
            RenderOutcome::Failure { name, .. } => name,
        }
    }
}

/// The output path a successful outcome reports; empty for a failure.
pub open spec fn outcome_path(o: RenderOutcome) -> Seq<char> {
    match o {
        RenderOutcome::Success { output_path, .. } => output_path@,
        RenderOutcome::Failure { .. } => Seq::empty(),
    }
}

/// The cause a failed outcome reports; empty for a success.
pub open spec fn outcome_detail(o: RenderOutcome) -> Seq<char> {
    match o {
        RenderOutcome::Success { .. } => Seq::empty(),
        RenderOutcome::Failure { detail, .. } => detail@,
    }
}

/// Close out one item: a success exactly when the item composed and its file
/// was written; otherwise a failure that names the item and the cause. The
/// failure of one item is recorded here and propagates no further.
pub fn record_outcome(
    item: &WorkItem,
    composed: &Result<Vec<u8>, RenderError>,
    write_ok: bool,
) -> (o: RenderOutcome)
    ensures
        outcome_name(o) == item.name@,
        o is Success <==> (composed is Ok && write_ok),
        o is Success ==> outcome_path(o) == item.output_path@,
        composed matches Err(e) ==> outcome_detail(o) == render_error_text(*e),
        composed is Ok && !write_ok ==> outcome_detail(o) == "failed to write output file"@,
{
    match composed {
        Ok(_) => {
            if write_ok {
                RenderOutcome::Success {
                    name: item.name.clone(),
                    output_path: item.output_path.clone(),
                }
            } else {
                RenderOutcome::Failure {
                    name: item.name.clone(),
                    detail: String::from_str("failed to write output file"),
                }
            }
        },
        Err(e) => RenderOutcome::Failure { name: item.name.clone(), detail: e.message() },
    }
}

pub open spec fn count_successes(s: Seq<RenderOutcome>) -> int
    decreases s.len(),
{
    if s.len() == 0 {
        0
    } else {
        count_successes(s.drop_last()) + if s.last() is Success {
            1int
        } else {
            0int
        }
    }
}

pub open spec fn count_failures(s: Seq<RenderOutcome>) -> int
    decreases s.len(),
{
    if s.len() == 0 {
        0
    } else {
        count_failures(s.drop_last()) + if s.last() is Failure {
            1int
        } else {
            0int
        }
    }
}

/// Every outcome is exactly one of success or failure, so the two counts
/// partition the batch.
pub proof fn lemma_outcome_partition(s: Seq<RenderOutcome>)
    ensures
        count_successes(s) + count_failures(s) == s.len(),
        0 <= count_successes(s),
        0 <= count_failures(s),
    decreases s.len(),
{
    if s.len() > 0 {
        lemma_outcome_partition(s.drop_last());
    }
}

/// The success count is exactly the length of the successes' subsequence,
/// and likewise for failures: no outcome is dropped or double-counted, so a
/// batch with some set of failing items reports at least that many failures.
pub proof fn lemma_counts_match_subsequences(s: Seq<RenderOutcome>)
    ensures
        count_successes(s) == s.filter(|o: RenderOutcome| o is Success).len(),
        count_failures(s) == s.filter(|o: RenderOutcome| o is Failure).len(),
    decreases s.len(),
{
    reveal(Seq::filter);
    if s.len() > 0 {
        lemma_counts_match_subsequences(s.drop_last());
    }
}

/// What a finished batch reports: counts over all outcomes, and where the
/// output went. Computed once all outcomes are known; never mutated
/// afterward.
pub struct BatchSummary {
    pub total: usize,
    pub succeeded: usize,
    pub failed: usize,
    pub output_dir: String,
}

/// Aggregate the outcomes of a finished batch: `total` is the number of
/// items, `succeeded` the number of successes, `failed` the rest, so that
/// `succeeded + failed == total`.
pub fn summarize(outcomes: &Vec<RenderOutcome>, output_dir: &str) -> (r: BatchSummary)
    ensures
        r.total == outcomes@.len(),
        r.succeeded == count_successes(outcomes@),
        r.failed == count_failures(outcomes@),
        r.succeeded + r.failed == r.total,
        r.output_dir@ == output_dir@,
{
    let n = outcomes.len();
    let mut succeeded: usize = 0;
    for i in 0..n
        invariant
            n == outcomes@.len(),
            succeeded as int == count_successes(outcomes@.take(i as int)),
            succeeded <= i,
    {
        proof {
            assert(outcomes@.take(i + 1).drop_last() =~= outcomes@.take(i as int));
            assert(outcomes@.take(i + 1).last() == outcomes@[i as int]);
        }
        match &outcomes[i] {
            RenderOutcome::Success { .. } => {
                succeeded = succeeded + 1;
            },
            RenderOutcome::Failure { .. } => {},
        }
    }
    proof {
        assert(outcomes@.take(n as int) =~= outcomes@);
        lemma_outcome_partition(outcomes@);
    }
    let failed = n - succeeded;
    BatchSummary { total: n, succeeded, failed, output_dir: output_dir.to_owned() }
}

} // verus!
