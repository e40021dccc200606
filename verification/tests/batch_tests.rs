//! Batch planning and outcome aggregation, independent of any rendering.

use certmaker::batch::{
    plan_batch, record_outcome, summarize, BatchError, RenderOutcome, WorkItem,
};
use certmaker::compose::RenderError;

fn names(items: &[&str]) -> Vec<String> {
    items.iter().map(|s| s.to_string()).collect()
}

#[test]
fn an_empty_batch_is_rejected() {
    let none: Vec<String> = Vec::new();
    let r = plan_batch(&none, "out");
    assert!(matches!(r, Err(BatchError::EmptyBatch)));
    assert_eq!(BatchError::EmptyBatch.message(), "no names to render");
}

#[test]
fn planning_keeps_input_order_and_derives_paths() {
    let items = plan_batch(&names(&["B A", "c/d"]), "dir").unwrap();
    assert_eq!(items.len(), 2);
    assert_eq!(items[0].name, "B A");
    assert_eq!(items[0].output_path, "dir/certificate_B_A.png");
    assert_eq!(items[1].name, "c/d");
    assert_eq!(items[1].output_path, "dir/certificate_c_d.png");
}

#[test]
fn colliding_names_are_both_reported() {
    // both items appear in the outcomes even though they share one path
    let items = plan_batch(&names(&["A/B", "A\\B"]), "out").unwrap();
    assert_eq!(items[0].output_path, items[1].output_path);
    let composed: Result<Vec<u8>, RenderError> = Ok(vec![1, 2, 3]);
    let outcomes: Vec<RenderOutcome> =
        items.iter().map(|i| record_outcome(i, &composed, true)).collect();
    let reported: Vec<&str> = outcomes.iter().map(|o| o.name().as_str()).collect();
    assert_eq!(reported, vec!["A/B", "A\\B"]);
    let summary = summarize(&outcomes, "out");
    assert_eq!(summary.succeeded, 2);
}

#[test]
fn outcomes_carry_name_path_and_cause() {
    let item = WorkItem {
        name: "Ann".to_string(),
        output_path: "out/certificate_Ann.png".to_string(),
    };
    let composed_ok: Result<Vec<u8>, RenderError> = Ok(vec![0]);
    let composed_err: Result<Vec<u8>, RenderError> = Err(RenderError::TemplateLoad);

    let success = record_outcome(&item, &composed_ok, true);
    match &success {
        RenderOutcome::Success { name, output_path } => {
            assert_eq!(name, "Ann");
            assert_eq!(output_path, "out/certificate_Ann.png");
        },
        RenderOutcome::Failure { .. } => panic!("expected a success"),
    }

    let failed_render = record_outcome(&item, &composed_err, false);
    match &failed_render {
        RenderOutcome::Failure { name, detail } => {
            assert_eq!(name, "Ann");
            assert_eq!(detail, "failed to load template image");
        },
        RenderOutcome::Success { .. } => panic!("expected a failure"),
    }

    let failed_write = record_outcome(&item, &composed_ok, false);
    match &failed_write {
        RenderOutcome::Failure { name, detail } => {
            assert_eq!(name, "Ann");
            assert_eq!(detail, "failed to write output file");
        },
        RenderOutcome::Success { .. } => panic!("expected a failure"),
    }
}

#[test]
fn summary_counts_partition_the_outcomes() {
    let item = WorkItem { name: "n".to_string(), output_path: "p".to_string() };
    let ok: Result<Vec<u8>, RenderError> = Ok(vec![]);
    let err: Result<Vec<u8>, RenderError> = Err(RenderError::Encode);
    let outcomes = vec![
        record_outcome(&item, &ok, true),
        record_outcome(&item, &err, false),
        record_outcome(&item, &ok, false),
        record_outcome(&item, &ok, true),
    ];
    let s = summarize(&outcomes, "somewhere");
    assert_eq!(s.total, 4);
    assert_eq!(s.succeeded, 2);
    assert_eq!(s.failed, 2);
    assert_eq!(s.succeeded + s.failed, s.total);
    assert_eq!(s.output_dir, "somewhere");
}

#[test]
fn every_error_variant_names_its_cause() {
    assert_eq!(BatchError::FontLoadError.message(), "failed to parse font bytes");
    assert_eq!(BatchError::TemplateLoadError.message(), "failed to load template image");
    assert_eq!(
        BatchError::NoOutputDirectory.message(),
        "failed to create output directory"
    );
    assert_eq!(RenderError::Encode.message(), "failed to encode output image");
    assert_eq!(
        RenderError::TextTooLarge.message(),
        "text too large to render at this scale"
    );
}

#[test]
fn summary_of_no_outcomes_is_empty() {
    let outcomes: Vec<RenderOutcome> = Vec::new();
    let s = summarize(&outcomes, "out");
    assert_eq!((s.total, s.succeeded, s.failed), (0, 0, 0));
}
