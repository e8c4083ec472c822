use jobflow::errors::CoreError;
use jobflow::transcript::{extract_transcript, transcript_from_text, JsonValue};

#[test]
fn transcript_retrieved_from_job_result_text() {
    let text = r#"{"jobName":"job1","results":{"transcripts":[{"transcript":"hello "},{"transcript":"world"}],"items":[]},"status":"COMPLETED"}"#;
    let transcript = transcript_from_text(text).unwrap();
    assert_eq!(transcript, "hello world");
}

#[test]
fn transcript_of_empty_array_is_empty() {
    let text = r#"{"results":{"transcripts":[]}}"#;
    assert_eq!(transcript_from_text(text).unwrap(), "");
}

#[test]
fn invalid_json_is_a_parse_error() {
    let err = transcript_from_text("not json at all {").unwrap_err();
    assert_eq!(
        err,
        CoreError::Parse { detail: "the job result is not valid JSON".to_string() }
    );
}

#[test]
fn missing_results_is_a_parse_error() {
    let err = transcript_from_text(r#"{"status":"COMPLETED"}"#).unwrap_err();
    assert_eq!(
        err,
        CoreError::Parse { detail: "the job result does not hold transcripts".to_string() }
    );
}

#[test]
fn non_array_transcripts_is_a_parse_error() {
    let err = transcript_from_text(r#"{"results":{"transcripts":"oops"}}"#).unwrap_err();
    assert_eq!(
        err,
        CoreError::Parse { detail: "the job result does not hold transcripts".to_string() }
    );
}

#[test]
fn malformed_entry_is_a_parse_error() {
    let err =
        transcript_from_text(r#"{"results":{"transcripts":[{"transcript":42}]}}"#).unwrap_err();
    assert_eq!(
        err,
        CoreError::Parse { detail: "the job result does not hold transcripts".to_string() }
    );
}

#[test]
fn extraction_walks_a_hand_built_document() {
    let doc = JsonValue::Object(vec![
        (
            "results".to_string(),
            JsonValue::Object(vec![(
                "transcripts".to_string(),
                JsonValue::Array(vec![JsonValue::Object(vec![(
                    "transcript".to_string(),
                    JsonValue::Text("direct".to_string()),
                )])]),
            )]),
        ),
    ]);
    assert_eq!(extract_transcript(&doc).unwrap(), "direct");

    let wrong_shape = JsonValue::Array(vec![JsonValue::Null]);
    assert!(extract_transcript(&wrong_shape).is_err());
}
