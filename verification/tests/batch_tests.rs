use jobflow::analysis::{AnalysisResult, Attribute, ObjectRef, Region};
use jobflow::batch::{
    derive_object_key, needs_resize, plan_annotation, run_batch, ObjectOutcome, LINE_SPACING,
    TARGET_HEIGHT, TARGET_WIDTH,
};
use jobflow::errors::CoreError;
use jobflow::scratch::ScratchArea;

fn stored(container: &str, key: &str) -> ObjectRef {
    ObjectRef::Stored { container: container.to_string(), key: key.to_string() }
}

fn attribute(name: &str, value: &str, confidence_bp: u32) -> Attribute {
    Attribute { name: name.to_string(), value: value.to_string(), confidence_bp }
}

fn single_result(name: &str, value: &str, confidence_bp: u32) -> AnalysisResult {
    AnalysisResult { attributes: vec![attribute(name, value, confidence_bp)], region: None }
}

#[test]
fn run_batch_tolerates_partial_failures() {
    let objects = vec![stored("b", "a.jpg"), stored("b", "broken.jpg"), stored("b", "c.jpg")];
    let outcomes = vec![
        ObjectOutcome::Analyzed(vec![single_result("gender", "Male", 9800)]),
        ObjectOutcome::DownloadFailed,
        ObjectOutcome::Analyzed(vec![single_result("gender", "Female", 9000)]),
    ];
    let records = run_batch(&objects, outcomes);
    assert_eq!(records.len(), 3);
    assert!(!records[0].is_absence());
    assert!(records[1].is_absence());
    assert!(!records[2].is_absence());
    let absences = records.iter().filter(|r| r.is_absence()).count();
    assert_eq!(absences, 1);
}

#[test]
fn run_batch_emits_one_record_per_result() {
    let objects = vec![stored("b", "group.jpg")];
    let outcomes = vec![ObjectOutcome::Analyzed(vec![
        single_result("gender", "Male", 9700),
        single_result("gender", "Female", 9600),
    ])];
    let records = run_batch(&objects, outcomes);
    assert_eq!(records.len(), 2);
    assert!(!records[0].is_absence());
    assert!(!records[1].is_absence());
}

#[test]
fn run_batch_records_absence_for_empty_analysis() {
    let objects = vec![stored("b", "blank.jpg")];
    let outcomes = vec![ObjectOutcome::Analyzed(Vec::new())];
    let records = run_batch(&objects, outcomes);
    assert_eq!(records.len(), 1);
    assert!(records[0].is_absence());
}

#[test]
fn run_batch_keeps_enumeration_order() {
    let objects = vec![stored("b", "first.jpg"), stored("b", "second.jpg")];
    let outcomes = vec![
        ObjectOutcome::Analyzed(vec![single_result("id", "first", 10000)]),
        ObjectOutcome::Analyzed(vec![single_result("id", "second", 10000)]),
    ];
    let records = run_batch(&objects, outcomes);
    match &records[0].object {
        ObjectRef::Stored { key, .. } => assert_eq!(key, "first.jpg"),
        _ => panic!("expected a stored object"),
    }
    match &records[1].object {
        ObjectRef::Stored { key, .. } => assert_eq!(key, "second.jpg"),
        _ => panic!("expected a stored object"),
    }
}

#[test]
fn resize_skipped_only_at_target_dimensions() {
    assert!(!needs_resize(800, 600, TARGET_WIDTH, TARGET_HEIGHT));
    assert!(needs_resize(1024, 768, TARGET_WIDTH, TARGET_HEIGHT));
    assert!(needs_resize(800, 601, TARGET_WIDTH, TARGET_HEIGHT));
}

#[test]
fn annotation_planned_when_required_attributes_present() {
    let result = AnalysisResult {
        attributes: vec![
            attribute("gender", "Male", 9800),
            attribute("age", "20-30", 9500),
        ],
        region: None,
    };
    let required = vec!["gender".to_string(), "age".to_string()];
    let lines = plan_annotation(&result, &required).unwrap();
    assert_eq!(lines.len(), 2);
    assert_eq!(lines[0].text, "gender: Male");
    assert_eq!(lines[0].y_offset, 0);
    assert_eq!(lines[1].text, "age: 20-30");
    assert_eq!(lines[1].y_offset, LINE_SPACING);
}

#[test]
fn annotation_skipped_when_an_attribute_is_missing() {
    let result = single_result("gender", "Male", 9800);
    let required = vec!["gender".to_string(), "smile".to_string()];
    assert!(plan_annotation(&result, &required).is_none());
}

#[test]
fn object_key_derived_from_file_name() {
    assert_eq!(derive_object_key("images/", "local/cat.png"), "images/cat.png");
    assert_eq!(derive_object_key("pre/", "a/b.c.d"), "pre/b.c.d");
    assert_eq!(derive_object_key("modified/", "modified/photo.jpg"), "modified/photo.jpg");
}

#[test]
fn scratch_preflight_refuses_existing_directories() {
    let area = ScratchArea::standard();
    assert!(area.preflight(false, false, false).is_ok());
    assert_eq!(
        area.preflight(true, false, false).unwrap_err(),
        CoreError::ScratchConflict { dir: "read_images/".to_string() }
    );
    assert_eq!(
        area.preflight(false, true, false).unwrap_err(),
        CoreError::ScratchConflict { dir: "face_details_images/".to_string() }
    );
}

#[test]
fn scratch_cleanup_removes_only_raw_downloads() {
    let area = ScratchArea::standard();
    let create = area.dirs_to_create();
    assert_eq!(create, vec!["read_images/", "face_details_images/", "compressed_images/"]);
    let remove = area.dirs_to_remove_after_success();
    assert_eq!(remove, vec!["read_images/"]);
}

#[test]
fn region_bounds_are_checked_but_tolerated() {
    let inside = Region { width_bp: 5000, height_bp: 5000, left_bp: 2500, top_bp: 2500 };
    assert!(inside.in_bounds());
    let outside = Region { width_bp: 9000, height_bp: 5000, left_bp: 2500, top_bp: 2500 };
    assert!(!outside.in_bounds());
    let huge = Region { width_bp: 20000, height_bp: 0, left_bp: 0, top_bp: 0 };
    assert!(!huge.in_bounds());
}
