use ai_saved_manager::models::{Binary32, Category};
use ai_saved_manager::processor::llm_client::{
    extract_json_array, not_an_array, validate_analyses, LlmAnalysis, ProcessorError,
    RawAnalysisRecord, ResponseDefect,
};
use serde_json::Value;

/// A field that must be text when present: absent or null reads as
/// `None`; any other JSON type makes the whole reply fail to parse, as a
/// typed parse does.
fn text_field(v: &Value, k: &str) -> Result<Option<String>, String> {
    match v.get(k) {
        None | Some(Value::Null) => Ok(None),
        Some(Value::String(s)) => Ok(Some(s.clone())),
        Some(other) => Err(format!("invalid type: {other}, expected a string")),
    }
}

/// The element of a reply as the program reads it: present, non-null
/// fields; tags as text when they are strings; the score as binary32 when
/// it is a number.  A field of the wrong JSON type, or an element that is
/// not an object, is a parse error.
fn record_of(v: &Value) -> Result<RawAnalysisRecord, String> {
    if !v.is_object() {
        return Err(format!("invalid type: {v}, expected struct RawAnalysis"));
    }
    let tags = match v.get("tags") {
        None | Some(Value::Null) => None,
        Some(Value::Array(ts)) => Some(ts.iter().map(|x| x.as_str().map(|s| s.to_string())).collect()),
        Some(other) => return Err(format!("invalid type: {other}, expected a sequence")),
    };
    Ok(RawAnalysisRecord {
        id: text_field(v, "id")?,
        summary: text_field(v, "summary")?,
        tags,
        category: text_field(v, "category")?,
        score: v
            .get("score")
            .filter(|s| !s.is_null())
            .map(|s| s.as_f64().map(|x| Binary32 { bits: (x as f32).to_bits() })),
    })
}

/// Frame, parse and check a reply; an error is given by its message.
fn validate_response(raw: &str) -> Result<Vec<LlmAnalysis>, String> {
    let cleaned = extract_json_array(raw);
    let items: Vec<Value> =
        serde_json::from_str(cleaned).map_err(|e| not_an_array(&e.to_string()).message())?;
    let records: Vec<RawAnalysisRecord> = items
        .iter()
        .map(record_of)
        .collect::<Result<_, _>>()
        .map_err(|e| not_an_array(&e).message())?;
    validate_analyses(records).map_err(|d| {
        let score_text = match &d {
            ResponseDefect::ScoreOutOfRange { score, .. } => f32::from_bits(score.bits).to_string(),
            _ => String::new(),
        };
        ProcessorError::InvalidResponse { reason: d.reason(&score_text) }.message()
    })
}

fn valid_response_json() -> &'static str {
    r#"[
        {
            "id": "abc123",
            "summary": "A great article about Rust programming.",
            "tags": ["rust", "programming", "systems"],
            "category": "Technology",
            "score": 0.9
        }
    ]"#
}

#[test]
fn test_valid_response_accepted() {
    let result = validate_response(valid_response_json());
    assert!(result.is_ok());
    let analyses = result.unwrap();
    assert_eq!(analyses.len(), 1);
    assert_eq!(analyses[0].id, "abc123");
    assert_eq!(analyses[0].category, Category::Technology);
    assert!((f32::from_bits(analyses[0].score.bits) - 0.9).abs() < 1e-5);
}

#[test]
fn test_missing_id_rejected() {
    let json = r#"[{"summary": "test", "tags": ["a","b","c"], "category": "Technology", "score": 0.5}]"#;
    let result = validate_response(json);
    assert!(result.is_err());
    let msg = result.unwrap_err();
    assert!(msg.contains("missing field 'id'"), "got: {msg}");
}

#[test]
fn test_missing_summary_rejected() {
    let json = r#"[{"id": "x", "tags": ["a","b","c"], "category": "Technology", "score": 0.5}]"#;
    let result = validate_response(json);
    assert!(result.is_err());
    let msg = result.unwrap_err();
    assert!(msg.contains("missing field 'summary'"), "got: {msg}");
}

#[test]
fn test_missing_tags_rejected() {
    let json = r#"[{"id": "x", "summary": "s", "category": "Technology", "score": 0.5}]"#;
    let result = validate_response(json);
    assert!(result.is_err());
    let msg = result.unwrap_err();
    assert!(msg.contains("missing field 'tags'"), "got: {msg}");
}

#[test]
fn test_missing_category_rejected() {
    let json = r#"[{"id": "x", "summary": "s", "tags": ["a","b","c"], "score": 0.5}]"#;
    let result = validate_response(json);
    assert!(result.is_err());
    let msg = result.unwrap_err();
    assert!(msg.contains("missing field 'category'"), "got: {msg}");
}

#[test]
fn test_missing_score_rejected() {
    let json = r#"[{"id": "x", "summary": "s", "tags": ["a","b","c"], "category": "Technology"}]"#;
    let result = validate_response(json);
    assert!(result.is_err());
    let msg = result.unwrap_err();
    assert!(msg.contains("missing field 'score'"), "got: {msg}");
}

#[test]
fn test_invalid_category_mapped_to_other() {
    let json = r#"[{"id": "x", "summary": "s", "tags": ["a","b","c"], "category": "Sports", "score": 0.5}]"#;
    let result = validate_response(json);
    assert!(result.is_ok(), "unknown category should be mapped to Other, got: {:?}", result);
    assert_eq!(result.unwrap()[0].category, Category::Other);
}

#[test]
fn test_score_above_one_rejected() {
    let json = r#"[{"id": "x", "summary": "s", "tags": ["a","b","c"], "category": "Technology", "score": 1.5}]"#;
    let result = validate_response(json);
    assert!(result.is_err());
    let msg = result.unwrap_err();
    assert!(msg.contains("out of range"), "got: {msg}");
}

#[test]
fn test_score_below_zero_rejected() {
    let json = r#"[{"id": "x", "summary": "s", "tags": ["a","b","c"], "category": "Technology", "score": -0.1}]"#;
    let result = validate_response(json);
    assert!(result.is_err());
    let msg = result.unwrap_err();
    assert!(msg.contains("out of range"), "got: {msg}");
}

#[test]
fn test_too_few_tags_rejected() {
    let json = r#"[{"id": "x", "summary": "s", "tags": [], "category": "Technology", "score": 0.5}]"#;
    let result = validate_response(json);
    assert!(result.is_err());
    let msg = result.unwrap_err();
    assert!(msg.contains("tags"), "got: {msg}");
}

#[test]
fn test_too_many_tags_rejected() {
    let json = r#"[{"id": "x", "summary": "s", "tags": ["a","b","c","d","e","f","g","h"], "category": "Technology", "score": 0.5}]"#;
    let result = validate_response(json);
    assert!(result.is_err());
    let msg = result.unwrap_err();
    assert!(msg.contains("tags"), "got: {msg}");
}

#[test]
fn test_uppercase_tag_normalized_to_lowercase() {
    let json = r#"[{"id": "x", "summary": "s", "tags": ["Rust","Programming","Systems"], "category": "Technology", "score": 0.5}]"#;
    let result = validate_response(json);
    assert!(result.is_ok(), "uppercase tags should be normalized, got: {:?}", result);
    let analyses = result.unwrap();
    assert_eq!(analyses[0].tags, vec!["rust", "programming", "systems"]);
}

#[test]
fn test_not_json_array_rejected() {
    let json = r#"{"id": "x", "summary": "s"}"#;
    let result = validate_response(json);
    assert!(result.is_err());
}

#[test]
fn test_all_seven_categories_accepted() {
    for cat in &[
        "Technology",
        "Business",
        "Education",
        "Entertainment",
        "Travel",
        "Personal",
        "Other",
    ] {
        let json = format!(
            r#"[{{"id":"x","summary":"s","tags":["a","b","c"],"category":"{cat}","score":0.5}}]"#
        );
        let result = validate_response(&json);
        assert!(result.is_ok(), "category {cat} should be accepted, got: {:?}", result);
    }
}

#[test]
fn test_score_boundary_values_accepted() {
    for score in &[0.0f32, 1.0f32] {
        let json = format!(
            r#"[{{"id":"x","summary":"s","tags":["a","b","c"],"category":"Technology","score":{score}}}]"#
        );
        let result = validate_response(&json);
        assert!(result.is_ok(), "score {score} should be accepted");
    }
}

#[test]
fn test_processor_error_display() {
    let err = ProcessorError::LlmExhausted { attempts: 4, source: "timeout".to_string() };
    let msg = err.message();
    assert!(msg.contains("4 attempts"), "got: {msg}");

    let err2 = ProcessorError::InvalidResponse { reason: "bad json".to_string() };
    let msg2 = err2.message();
    assert!(msg2.contains("bad json"), "got: {msg2}");
}

#[test]
fn out_of_range_message_names_the_score() {
    let json = r#"[{"id": "x", "summary": "s", "tags": ["a"], "category": "Technology", "score": 1.5}]"#;
    assert_eq!(
        validate_response(json).unwrap_err(),
        "LLM response validation failed: element 0 (id=x) score 1.5 is out of range [0.0, 1.0]"
    );
}

#[test]
fn wrongly_typed_fields_fail_the_parse() {
    let numeric_id = r#"[{"id": 7, "summary": "s", "tags": ["a"], "category": "Travel", "score": 0.5}]"#;
    let msg = validate_response(numeric_id).unwrap_err();
    assert!(msg.contains("response is not a valid JSON array"), "got: {msg}");
    let text_tags = r#"[{"id": "x", "summary": "s", "tags": "a", "category": "Travel", "score": 0.5}]"#;
    let msg = validate_response(text_tags).unwrap_err();
    assert!(msg.contains("response is not a valid JSON array"), "got: {msg}");
}

#[test]
fn fenced_reply_is_accepted() {
    let raw = "Sure!\n```json\n[{\"id\":\"a\",\"summary\":\"s\",\"tags\":[\"T\"],\"category\":\"Travel\",\"score\":0.25}]\n```";
    let out = validate_response(raw).unwrap();
    assert_eq!(out[0].category, Category::Travel);
    assert_eq!(out[0].tags, vec!["t"]);
}
