use jobflow::analysis::{AnalysisResult, Attribute, BatchRecord, ObjectRef, Region};
use jobflow::batch::{run_batch, ObjectOutcome};
use jobflow::errors::CoreError;
use jobflow::numfmt::{dec_string, format_basis_points};
use jobflow::report::{
    aggregate, render_record_block, table_rows, text_preview, text_report, voice_report_headers,
    PREVIEW_CAP,
};
use jobflow::session::Session;

fn stored(container: &str, key: &str) -> ObjectRef {
    ObjectRef::Stored { container: container.to_string(), key: key.to_string() }
}

fn attribute(name: &str, value: &str, confidence_bp: u32) -> Attribute {
    Attribute { name: name.to_string(), value: value.to_string(), confidence_bp }
}

fn full_record(key: &str, value: &str) -> BatchRecord {
    BatchRecord {
        object: stored("b", key),
        result: Some(AnalysisResult {
            attributes: vec![attribute("gender", value, 9800)],
            region: None,
        }),
    }
}

#[test]
fn record_block_holds_every_value_verbatim() {
    let record = BatchRecord {
        object: stored("bucket", "face.jpg"),
        result: Some(AnalysisResult {
            attributes: vec![
                attribute("gender", "Male", 9800),
                attribute("age", "20-30", 9500),
            ],
            region: Some(Region { width_bp: 5000, height_bp: 4000, left_bp: 1000, top_bp: 2000 }),
        }),
    };
    let block = render_record_block(&record);
    assert!(block.contains("Object: bucket/face.jpg"));
    assert!(block.contains("gender: Male (confidence: 0.9800)"));
    assert!(block.contains("age: 20-30 (confidence: 0.9500)"));
    assert!(block.contains("Region: width 0.5000, height 0.4000, left 0.1000, top 0.2000"));
}

#[test]
fn absence_record_renders_the_marker_line() {
    let record = BatchRecord { object: stored("b", "gone.jpg"), result: None };
    let block = render_record_block(&record);
    assert!(block.contains("Object: b/gone.jpg"));
    assert!(block.contains("No analysis result is available for this object"));
}

#[test]
fn table_rows_keep_record_order() {
    let records = vec![full_record("a.jpg", "A"), full_record("b.jpg", "B"), full_record(
        "c.jpg",
        "C",
    )];
    let headers = vec!["gender".to_string()];
    let rows = table_rows(&records, &headers);
    assert_eq!(rows.len(), 3);
    assert_eq!(rows[0], vec!["A"]);
    assert_eq!(rows[1], vec!["B"]);
    assert_eq!(rows[2], vec!["C"]);
}

#[test]
fn table_cells_render_absent_attributes_empty() {
    let records = vec![full_record("a.jpg", "Male"), BatchRecord {
        object: stored("b", "gone.jpg"),
        result: None,
    }];
    let headers = vec!["gender".to_string(), "smile".to_string()];
    let rows = table_rows(&records, &headers);
    assert_eq!(rows.len(), 2);
    assert_eq!(rows[0], vec!["Male", ""]);
    assert_eq!(rows[1], vec!["", ""]);
}

#[test]
fn annotate_run_over_two_objects_aggregates_both() {
    let objects = vec![stored("b", "images/one.jpg"), stored("b", "images/two.jpg")];
    let outcomes = vec![
        ObjectOutcome::Analyzed(vec![AnalysisResult {
            attributes: vec![attribute("gender", "Male", 9800)],
            region: None,
        }]),
        ObjectOutcome::DownloadFailed,
    ];
    let records = run_batch(&objects, outcomes);
    assert_eq!(records.len(), 2);
    assert!(!records[0].is_absence());
    assert!(records[1].is_absence());

    let headers = vec!["gender".to_string()];
    let (text, rows) = aggregate(&records, &headers);
    assert_eq!(text.matches("Object: ").count(), 2);
    assert_eq!(text.matches("gender: Male (confidence: 0.9800)").count(), 1);
    assert_eq!(
        text.matches("No analysis result is available for this object").count(),
        1
    );
    assert_eq!(rows.len(), 2);
    assert_eq!(rows[0], vec!["Male"]);
    assert_eq!(rows[1], vec![""]);
}

#[test]
fn preview_truncates_to_the_cap() {
    let records = vec![
        full_record("a.jpg", "A"),
        full_record("b.jpg", "B"),
        full_record("c.jpg", "C"),
        full_record("d.jpg", "D"),
    ];
    let (preview, truncated) = text_preview(&records, PREVIEW_CAP);
    assert!(truncated);
    assert_eq!(preview.matches("Object: ").count(), 3);
    assert!(!preview.contains("d.jpg"));

    let (whole, truncated2) = text_preview(&records, 10);
    assert!(!truncated2);
    assert_eq!(whole, text_report(&records));
    assert_eq!(whole.matches("Object: ").count(), 4);
}

#[test]
fn voice_headers_match_the_fixed_set() {
    let headers = voice_report_headers();
    assert_eq!(
        headers,
        vec![
            "Gender of Voice",
            "Voice ID",
            "Language Code",
            "Language Name",
            "Voice Name",
            "Supported Engine",
        ]
    );
}

#[test]
fn basis_points_render_as_fixed_point_decimals() {
    assert_eq!(format_basis_points(9800), "0.9800");
    assert_eq!(format_basis_points(0), "0.0000");
    assert_eq!(format_basis_points(12345), "1.2345");
    assert_eq!(format_basis_points(10000), "1.0000");
    assert_eq!(format_basis_points(7), "0.0007");
    assert_eq!(dec_string(9081726354), "9081726354");
}

#[test]
fn errors_describe_their_subject() {
    let err = CoreError::Validation { field: "bucket".to_string() };
    assert_eq!(err.describe(), "required field is empty: bucket");
    let conflict = CoreError::ScratchConflict { dir: "read_images/".to_string() };
    assert_eq!(conflict.describe(), "scratch directory already exists: read_images/");
    let remote = CoreError::RemoteCall { detail: "timeout".to_string() };
    assert_eq!(remote.describe(), "remote call failed: timeout");
    let unknown = CoreError::UnknownState { raw: "SPINNING".to_string() };
    assert_eq!(unknown.describe(), "unknown remote job state: SPINNING");
    let parse = CoreError::Parse { detail: "bad file".to_string() };
    assert_eq!(parse.describe(), "malformed job result: bad file");
}

#[test]
fn empty_batch_aggregates_to_empty_reports() {
    let records: Vec<BatchRecord> = Vec::new();
    let headers = vec!["gender".to_string()];
    let (text, rows) = aggregate(&records, &headers);
    assert_eq!(text, "");
    assert!(rows.is_empty());
    let (preview, truncated) = text_preview(&records, PREVIEW_CAP);
    assert_eq!(preview, "");
    assert!(!truncated);
}

#[test]
fn largest_basis_points_still_render() {
    assert_eq!(format_basis_points(u32::MAX), "429496.7295");
}

#[test]
fn session_reload_and_clear() {
    let session = Session::reload(
        "SECRET-REDACTED".to_string(),
        "SECRET-REDACTED".to_string(),
        Some("us-east-1".to_string()),
    );
    assert!(session.is_configured());
    assert_eq!(session.region.as_deref(), Some("us-east-1"));
    let cleared = Session::cleared();
    assert!(!cleared.is_configured());
    assert_eq!(cleared.access_key, "");
    assert!(cleared.region.is_none());
}
