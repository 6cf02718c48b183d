use ai_saved_manager::config::{
    default_batch_size, default_db_path, default_endpoint, default_log_level,
    default_max_items, default_max_tokens, default_min_content_length, default_model,
    default_output_dir, default_skip_existing, default_temperature, AppConfig, ConfigError,
    LlmProvider, ProcessingConfig,
};
use ai_saved_manager::importer::{
    sha1_hex, strip_utf8_bom, ImportStats, J2TeamRecord, Normalizer, RecordOutcome,
};
use ai_saved_manager::models::{Binary32, Category, Dataset, PostStatus, RawPost};
use ai_saved_manager::processor::llm_client::{
    extract_json_array, http_status_failure, http_status_final, is_non_retryable_status,
    ollama_prompt, ollama_status_action, openai_error_gives_up, should_retry_status,
    validate_analyses, AnalysisField, LlmBatchItem, ProcessorError, RawAnalysisRecord,
    ResponseDefect, RetryState, StatusAction, MAX_ATTEMPTS, AttemptAction, OllamaEvent,
    OpenAiEvent, openai_request,
};
use ai_saved_manager::processor::{
    accepted_analyses, batch_item, chunk_posts, failed_batch_entries, is_known_id,
    plan_processing, processed_post, stamp_analysis, BatchOutcome, ProcessStats,
};
use ai_saved_manager::storage::{
    dataset_not_found_message, duplicate_name_failure, post_from_row, tags_from_json,
    tags_to_json,
};
use ai_saved_manager::text::{contains_str, decimal_string, same_str, trim_str};

fn post(id: &str, title: &str, link: &str) -> RawPost {
    RawPost {
        id: id.to_string(),
        dataset_id: "ds1".to_string(),
        title: title.to_string(),
        link: link.to_string(),
        image_url: None,
        category_raw: None,
        post_type: None,
        status: PostStatus::Pending,
        ignore_reason: None,
    }
}

fn record(id: &str, tags: &[&str], category: &str, score: f32) -> RawAnalysisRecord {
    RawAnalysisRecord {
        id: Some(id.to_string()),
        summary: Some("s".to_string()),
        tags: Some(tags.iter().map(|t| Some(t.to_string())).collect()),
        category: Some(category.to_string()),
        score: Some(Some(Binary32 { bits: score.to_bits() })),
    }
}

// ── text ─────────────────────────────────────────────────────────────────────

#[test]
fn trim_matches_std_trim() {
    for s in ["", "  a b  ", "\t\n x\u{3000}", "\u{2028}\u{85}", "plain"] {
        assert_eq!(trim_str(s), s.trim());
    }
}

#[test]
fn contains_and_same_str() {
    assert!(contains_str("http://localhost:11434", "localhost"));
    assert!(!contains_str("https://api.openai.com/v1", "127.0.0.1"));
    assert!(contains_str("abc", ""));
    assert!(same_str("valid", "valid"));
    assert!(!same_str("valid", "valid "));
}

#[test]
fn decimal_rendering() {
    assert_eq!(decimal_string(0), "0");
    assert_eq!(decimal_string(429), "429");
    assert_eq!(decimal_string(u64::MAX), u64::MAX.to_string());
}

// ── config ───────────────────────────────────────────────────────────────────

#[test]
fn documented_defaults() {
    assert_eq!(default_batch_size(), 10);
    assert_eq!(default_max_tokens(), 2048);
    assert!((f32::from_bits(default_temperature().bits) - 0.3).abs() < 1e-6);
    assert!(default_skip_existing());
    assert_eq!(default_min_content_length(), 20);
    assert_eq!(default_max_items(), 0);
    assert_eq!(default_output_dir(), "output");
    assert_eq!(default_db_path(), "data/ai-saved-manager.db");
    assert_eq!(default_log_level(), "info");
    assert_eq!(default_endpoint(), "http://localhost:11434/api/generate");
    assert_eq!(default_model(), "llama3");
    let cfg = AppConfig::default();
    assert_eq!(cfg.llm.batch.size, 10);
    assert_eq!(cfg.llm.provider, LlmProvider::Ollama);
    assert_eq!(cfg.logging.level, "info");
}

#[test]
fn config_rejects_unknown_log_level() {
    let mut cfg = AppConfig::default();
    cfg.logging.level = "verbose".to_string();
    match cfg.validated(true) {
        Err(ConfigError::InvalidLogLevel { value }) => assert_eq!(value, "verbose"),
        other => panic!("expected InvalidLogLevel, got {other:?}"),
    }
}

#[test]
fn config_openai_key_rules() {
    let mut cfg = AppConfig::default();
    cfg.llm.provider = LlmProvider::OpenAi;
    // The default endpoint is local: no key needed.
    assert!(cfg.clone().validated(false).is_ok());
    cfg.llm.endpoint = "https://api.openai.com/v1".to_string();
    assert!(matches!(cfg.clone().validated(false), Err(ConfigError::MissingApiKey)));
    assert!(cfg.clone().validated(true).is_ok());
    cfg.llm.endpoint = "http://127.0.0.1:1234/v1".to_string();
    assert!(cfg.validated(false).is_ok());
}

#[test]
fn config_error_messages() {
    assert_eq!(
        ConfigError::MissingApiKey.message(),
        "OpenAI provider requires OPENAI_API_KEY environment variable"
    );
    let err = ConfigError::NotFound {
        path: "/nonexistent/config.toml".to_string(),
        source: std::io::Error::new(std::io::ErrorKind::NotFound, "missing"),
    };
    assert_eq!(err.message(), "config file not found at /nonexistent/config.toml: missing");
}

// ── models ───────────────────────────────────────────────────────────────────

#[test]
fn status_labels_round_trip() {
    for s in [PostStatus::Pending, PostStatus::Valid, PostStatus::Ignored] {
        assert_eq!(PostStatus::from_label(&s.label()), s);
    }
    assert_eq!(PostStatus::Valid.label(), "valid");
    assert_eq!(PostStatus::from_label("weird"), PostStatus::Pending);
}

#[test]
fn category_labels_round_trip() {
    for c in [
        Category::Technology,
        Category::Business,
        Category::Education,
        Category::Entertainment,
        Category::Travel,
        Category::Personal,
        Category::Other,
    ] {
        assert_eq!(Category::from_label(&c.label()), Some(c));
    }
    assert_eq!(Category::from_label("Sports"), None);
}

#[test]
fn dataset_create_has_uuid_shape() {
    let ds = Dataset::create("demo", "facebook").unwrap();
    assert_eq!(ds.name, "demo");
    assert_eq!(ds.source, "facebook");
    assert_eq!(ds.id.len(), 36);
    assert_eq!(ds.id.chars().nth(14), Some('4'));
    assert!(matches!(ds.id.chars().nth(19), Some('8' | '9' | 'a' | 'b')));
    assert!(ds.created_at.ends_with("+00:00"));
    assert_eq!(&ds.created_at[10..11], "T");
}

// ── importer ─────────────────────────────────────────────────────────────────

#[test]
fn sha1_hex_known_value() {
    assert_eq!(sha1_hex("abc"), "a9993e364706816aba3e25717850c26c9cd0d89d");
    assert_eq!(sha1_hex(""), "da39a3ee5e6b4b0d3255bfef95601890afd80709");
}

#[test]
fn normalize_maps_fields() {
    let rec = J2TeamRecord {
        title: Some("Post One".to_string()),
        link: Some("https://example.com/1".to_string()),
        image_url: Some("https://img.example.com/1.png".to_string()),
        category: Some("Technology".to_string()),
        post_type: Some("article".to_string()),
    };
    let p = Normalizer::normalize(rec, "ds").unwrap();
    assert_eq!(p.id, sha1_hex("https://example.com/1"));
    assert_eq!(p.link, "https://example.com/1");
    assert_eq!(p.title, "Post One");
    assert_eq!(p.dataset_id, "ds");
    assert_eq!(p.image_url.as_deref(), Some("https://img.example.com/1.png"));
    assert_eq!(p.category_raw.as_deref(), Some("Technology"));
    assert_eq!(p.post_type.as_deref(), Some("article"));
    assert_eq!(p.status, PostStatus::Pending);
    assert!(p.ignore_reason.is_none());
}

#[test]
fn normalize_skips_blank_links() {
    for link in [None, Some(""), Some("   ")] {
        let rec = J2TeamRecord {
            title: Some("t".to_string()),
            link: link.map(|s| s.to_string()),
            image_url: None,
            category: None,
            post_type: None,
        };
        assert!(Normalizer::normalize(rec, "ds").is_none());
    }
    let rec = J2TeamRecord { title: None, link: Some(" x ".to_string()), image_url: None, category: None, post_type: None };
    let p = Normalizer::normalize(rec, "ds").unwrap();
    assert_eq!(p.title, "");
    assert_eq!(p.link, " x ");
}

#[test]
fn import_tally_counts() {
    let outcomes = vec![
        RecordOutcome::NoLink,
        RecordOutcome::NoLink,
        RecordOutcome::NoLink,
        RecordOutcome::Inserted,
        RecordOutcome::Duplicate,
    ];
    let stats = ImportStats::tally(&outcomes);
    assert_eq!(stats.parsed, 5);
    assert_eq!(stats.inserted, 1);
    assert_eq!(stats.skipped, 4);
}

#[test]
fn bom_is_stripped() {
    assert_eq!(strip_utf8_bom(b"\xef\xbb\xbf[1]"), b"[1]");
    assert_eq!(strip_utf8_bom(b"[1]"), b"[1]");
    assert_eq!(strip_utf8_bom(b"\xef\xbb"), b"\xef\xbb");
}

// ── processor ────────────────────────────────────────────────────────────────

#[test]
fn chunk_posts_sizes() {
    let v: Vec<usize> = (0..23).collect();
    let chunks = chunk_posts(v.clone(), 5);
    assert_eq!(chunks.len(), 5);
    assert!(chunks[..4].iter().all(|c| c.len() == 5));
    assert_eq!(chunks[4].len(), 3);
    assert_eq!(chunks.concat(), v);
    assert!(chunk_posts(v.clone(), 0).is_empty());
    assert!(chunk_posts(Vec::<usize>::new(), 3).is_empty());
    assert_eq!(chunk_posts(vec![1, 2, 3], 3), vec![vec![1, 2, 3]]);
}

#[test]
fn plan_screens_and_batches() {
    let posts = vec![
        post("a", "A good title", "https://example.com/a"),
        post("b", "  ", "https://example.com/b"),
        post("c", "Hi", "http://x.co"),
        post("d", "Another good one", "https://example.com/d"),
        post("e", "Third good title", "https://example.com/e"),
        post("f", "Never selected", "https://example.com/f"),
    ];
    let processing = ProcessingConfig { skip_existing: true, min_content_length: 20, max_items: 5 };
    let plan = plan_processing(&posts, &processing, 2);
    let ignored: Vec<(String, String)> =
        plan.ignored.iter().map(|p| (p.post_id.clone(), p.reason.clone())).collect();
    assert_eq!(
        ignored,
        vec![
            ("b".to_string(), "empty_title".to_string()),
            ("c".to_string(), "content_too_short".to_string())
        ]
    );
    assert_eq!(plan.batches.len(), 2);
    assert_eq!(plan.batches[0].len(), 2);
    assert_eq!(plan.batches[1].len(), 1);
    assert_eq!(plan.batches[0][0].id, "a");
    assert_eq!(plan.batches[0][0].content, "A good title https://example.com/a");
    assert_eq!(plan.batches[1][0].id, "e");
}

#[test]
fn max_items_limits_selection() {
    let posts: Vec<RawPost> = (0..10)
        .map(|i| post(&format!("p{i}"), &format!("Title number {i}"), "https://example.com/x"))
        .collect();
    let processing = ProcessingConfig { skip_existing: true, min_content_length: 20, max_items: 3 };
    let plan = plan_processing(&posts, &processing, 10);
    assert_eq!(plan.batches.iter().map(|b| b.len()).sum::<usize>(), 3);
    let unlimited = ProcessingConfig { skip_existing: true, min_content_length: 20, max_items: 0 };
    let plan = plan_processing(&posts, &unlimited, 4);
    assert_eq!(plan.batches.len(), 3);
}

#[test]
fn known_ids_and_batch_items() {
    let item = batch_item(&post("x1", "T", "L"));
    assert_eq!(item, LlmBatchItem { id: "x1".to_string(), content: "T L".to_string() });
    let items = vec![item];
    assert!(is_known_id(&items, "x1"));
    assert!(!is_known_id(&items, "x2"));
}

#[test]
fn unknown_ids_are_dropped() {
    let items = vec![batch_item(&post("a", "T", "L")), batch_item(&post("b", "T", "L"))];
    let analyses = validate_analyses(vec![
        record("b", &["x"], "Travel", 0.5),
        record("ghost", &["x"], "Travel", 0.5),
        record("a", &["y"], "Business", 0.1),
    ])
    .unwrap();
    let kept: Vec<String> = accepted_analyses(&items, analyses).into_iter().map(|a| a.id).collect();
    assert_eq!(kept, vec!["b".to_string(), "a".to_string()]);
}

#[test]
fn failed_batch_marks_every_item() {
    let items = vec![batch_item(&post("a", "T", "L")), batch_item(&post("b", "T", "L"))];
    let entries: Vec<(String, String)> =
        failed_batch_entries(&items).into_iter().map(|e| (e.post_id, e.reason)).collect();
    assert_eq!(
        entries,
        vec![
            ("a".to_string(), "llm_failure".to_string()),
            ("b".to_string(), "llm_failure".to_string())
        ]
    );
}

#[test]
fn stamped_analysis_has_a_timestamp() {
    let a = validate_analyses(vec![record("x", &["a"], "Travel", 0.5)]).unwrap().remove(0);
    let p = stamp_analysis(a).unwrap();
    assert_eq!(p.post_id, "x");
    assert!(p.processed_at.contains('T'));
    assert!(p.processed_at.ends_with("+00:00"));
    assert_eq!(&p.processed_at[4..5], "-");
}

#[test]
fn run_counts_from_outcomes() {
    let outcomes = vec![
        BatchOutcome::Stored { count: 3 },
        BatchOutcome::Failed { count: 2 },
        BatchOutcome::Stored { count: 1 },
    ];
    let s = ProcessStats::of_run(4, &outcomes);
    assert_eq!((s.processed, s.skipped, s.ignored), (4, 0, 6));
    let empty = ProcessStats::of_run(0, &Vec::new());
    assert_eq!((empty.processed, empty.skipped, empty.ignored), (0, 0, 0));
}

#[test]
fn process_stats_counting() {
    let mut s = ProcessStats::new();
    s.count_processed();
    s.count_ignored();
    s.count_ignored();
    assert_eq!((s.processed, s.skipped, s.ignored), (1, 0, 2));
}

#[test]
fn processed_post_carries_fields() {
    let a = validate_analyses(vec![record("x", &["a"], "Travel", 0.5)]).unwrap().remove(0);
    let p = processed_post(a, "2024-01-01T00:00:00Z".to_string());
    assert_eq!(p.post_id, "x");
    assert_eq!(p.category_ai, Category::Travel);
    assert_eq!(p.processed_at, "2024-01-01T00:00:00Z");
    assert_eq!(f32::from_bits(p.score.bits), 0.5);
}

// ── llm client ───────────────────────────────────────────────────────────────

#[test]
fn extract_json_array_cases() {
    assert_eq!(extract_json_array("  [1, 2]  "), "[1, 2]");
    assert_eq!(extract_json_array("```json\n[1]\n```"), "[1]");
    assert_eq!(extract_json_array("```\n[2]\n```"), "[2]");
    assert_eq!(extract_json_array("Here you go: [3] hope it helps"), "[3]");
    assert_eq!(extract_json_array("a ] b [ c"), "a ] b [ c");
    assert_eq!(extract_json_array("no array"), "no array");
}

#[test]
fn validate_accepts_valid_elements() {
    let out = validate_analyses(vec![
        record("abc123", &["Rust", "Programming", "Systems"], "Technology", 0.9),
        record("x", &["a"], "Sports", 0.0),
        record("y", &["a", "b", "c", "d", "e", "f", "g"], "Other", 1.0),
    ])
    .unwrap();
    assert_eq!(out.len(), 3);
    assert_eq!(out[0].id, "abc123");
    assert_eq!(out[0].tags, vec!["rust", "programming", "systems"]);
    assert_eq!(out[0].category, Category::Technology);
    assert!((f32::from_bits(out[0].score.bits) - 0.9).abs() < 1e-5);
    assert_eq!(out[1].category, Category::Other);
}

#[test]
fn validate_reports_first_defect() {
    let mut missing_summary = record("x", &["a"], "Technology", 0.5);
    missing_summary.summary = None;
    match validate_analyses(vec![record("ok", &["a"], "Travel", 0.5), missing_summary]) {
        Err(ResponseDefect::MissingField { index, id, field }) => {
            assert_eq!(index, 1);
            assert_eq!(id.as_deref(), Some("x"));
            assert_eq!(field, AnalysisField::Summary);
        }
        other => panic!("unexpected {other:?}"),
    }
    let mut no_id = record("x", &["a"], "Technology", 0.5);
    no_id.id = None;
    assert!(matches!(
        validate_analyses(vec![no_id]),
        Err(ResponseDefect::MissingField { index: 0, id: None, field: AnalysisField::Id })
    ));
    assert!(matches!(
        validate_analyses(vec![record("x", &[], "Technology", 0.5)]),
        Err(ResponseDefect::TagCount { count: 0, .. })
    ));
    assert!(matches!(
        validate_analyses(vec![record("x", &["a", "b", "c", "d", "e", "f", "g", "h"], "Technology", 0.5)]),
        Err(ResponseDefect::TagCount { count: 8, .. })
    ));
    let mut bad_tag = record("x", &["a", "b"], "Technology", 0.5);
    bad_tag.tags = Some(vec![Some("a".to_string()), None]);
    assert!(matches!(validate_analyses(vec![bad_tag]), Err(ResponseDefect::TagNotString { position: 1, .. })));
    let mut no_category = record("x", &["a"], "Technology", 0.5);
    no_category.category = None;
    assert!(matches!(
        validate_analyses(vec![no_category]),
        Err(ResponseDefect::MissingField { field: AnalysisField::Category, .. })
    ));
    let mut no_score = record("x", &["a"], "Technology", 0.5);
    no_score.score = None;
    assert!(matches!(
        validate_analyses(vec![no_score]),
        Err(ResponseDefect::MissingField { field: AnalysisField::Score, .. })
    ));
    let mut text_score = record("x", &["a"], "Technology", 0.5);
    text_score.score = Some(None);
    assert!(matches!(validate_analyses(vec![text_score]), Err(ResponseDefect::ScoreNotNumber { .. })));
    for bad in [1.5f32, -0.1f32, f32::NAN, f32::INFINITY] {
        assert!(matches!(
            validate_analyses(vec![record("x", &["a"], "Technology", bad)]),
            Err(ResponseDefect::ScoreOutOfRange { .. })
        ));
    }
    assert!(validate_analyses(vec![record("x", &["a"], "Technology", -0.0)]).is_ok());
    assert!(validate_analyses(vec![]).unwrap().is_empty());
}

#[test]
fn retry_policy() {
    assert!(should_retry_status(429));
    assert!(should_retry_status(503));
    assert!(!should_retry_status(404));
    assert!(is_non_retryable_status(401));
    assert!(!is_non_retryable_status(500));
    assert_eq!(ollama_status_action(403), StatusAction::GiveUp);
    assert_eq!(ollama_status_action(500), StatusAction::Retry);
    assert_eq!(ollama_status_action(404), StatusAction::Retry);
    assert_eq!(ollama_status_action(200), StatusAction::ReadBody);
    assert!(openai_error_gives_up("http error: status 401 Unauthorized"));
    assert!(!openai_error_gives_up("connection reset"));
    assert_eq!(http_status_failure(500), "HTTP 500");
    assert_eq!(http_status_final(403), "HTTP 403 — not retrying");

    let mut state = RetryState::new();
    let mut delays = Vec::new();
    while state.may_attempt() {
        delays.push(state.delay_secs());
        state.failed("HTTP 500".to_string());
    }
    assert_eq!(delays, vec![None, Some(1), Some(2), Some(4)]);
    assert_eq!(MAX_ATTEMPTS, 4);
    match state.exhausted() {
        ProcessorError::LlmExhausted { attempts, source } => {
            assert_eq!(attempts, 4);
            assert_eq!(source, "HTTP 500");
        }
        other => panic!("unexpected {other:?}"),
    }
    let fresh = RetryState::new();
    assert!(matches!(fresh.give_up("x".to_string()), ProcessorError::LlmExhausted { attempts: 1, .. }));
}

#[test]
fn ollama_steps() {
    let mut state = RetryState::new();
    assert!(matches!(
        state.ollama_step(OllamaEvent::SendFailed { error: "refused".to_string() }),
        AttemptAction::RetryAfter { secs: 1 }
    ));
    assert!(matches!(
        state.ollama_step(OllamaEvent::Status { status: 503 }),
        AttemptAction::RetryAfter { secs: 2 }
    ));
    assert!(matches!(state.ollama_step(OllamaEvent::Status { status: 200 }), AttemptAction::ReadBody));
    assert_eq!(state.attempt, 2);
    match state.ollama_step(OllamaEvent::Status { status: 401 }) {
        AttemptAction::Fail { error: ProcessorError::LlmExhausted { attempts, source } } => {
            assert_eq!(attempts, 3);
            assert_eq!(source, "HTTP 401 — not retrying");
        }
        other => panic!("unexpected {other:?}"),
    }
    match state.ollama_step(OllamaEvent::BodyUnreadable { detail: "eof".to_string() }) {
        AttemptAction::Fail { error: ProcessorError::InvalidResponse { reason } } => {
            assert_eq!(reason, "failed to parse Ollama response: eof")
        }
        other => panic!("unexpected {other:?}"),
    }
    let ok = validate_analyses(vec![record("x", &["a"], "Travel", 0.5)]).unwrap();
    assert!(matches!(
        state.ollama_step(OllamaEvent::Checked { result: Ok(ok) }),
        AttemptAction::Succeed { analyses } if analyses.len() == 1
    ));
    let bad = ProcessorError::InvalidResponse { reason: "r".to_string() };
    assert!(matches!(
        state.ollama_step(OllamaEvent::Checked { result: Err(bad) }),
        AttemptAction::Fail { error: ProcessorError::InvalidResponse { .. } }
    ));
    assert_eq!(state.attempt, 2);
}

#[test]
fn openai_steps_exhaust_after_four_failures() {
    let mut state = RetryState::new();
    let mut waits = Vec::new();
    loop {
        let bad = ProcessorError::InvalidResponse { reason: "bad json".to_string() };
        match state.openai_step(OpenAiEvent::Checked { result: Err(bad) }) {
            AttemptAction::RetryAfter { secs } => waits.push(secs),
            AttemptAction::Fail { error: ProcessorError::LlmExhausted { attempts, source } } => {
                assert_eq!(attempts, 4);
                assert_eq!(source, "LLM response validation failed: bad json");
                break;
            }
            other => panic!("unexpected {other:?}"),
        }
    }
    assert_eq!(waits, vec![1, 2, 4]);

    let mut fresh = RetryState::new();
    assert!(matches!(
        fresh.openai_step(OpenAiEvent::ClientFailed { error: "status 403 Forbidden".to_string() }),
        AttemptAction::Fail { error: ProcessorError::LlmExhausted { attempts: 1, .. } }
    ));
    assert!(matches!(
        fresh.openai_step(OpenAiEvent::ClientFailed { error: "timed out".to_string() }),
        AttemptAction::RetryAfter { secs: 1 }
    ));
    assert!(matches!(
        fresh.openai_step(OpenAiEvent::NoContent),
        AttemptAction::Fail { error: ProcessorError::InvalidResponse { .. } }
    ));
}

#[test]
fn openai_request_carries_settings() {
    let batch = AppConfig::default().llm.batch;
    let r = openai_request(&"gpt".to_string(), "p".to_string(), &batch);
    assert_eq!(r.model, "gpt");
    assert_eq!(r.prompt, "p");
    assert_eq!(r.max_tokens, 2048);
    assert_eq!(r.temperature, batch.temperature);
}

#[test]
fn processor_error_messages() {
    let err = ProcessorError::LlmExhausted { attempts: 4, source: "timeout".to_string() };
    assert!(err.message().contains("4 attempts"));
    assert_eq!(err.message(), "LLM request failed after 4 attempts: timeout");
    let err2 = ProcessorError::InvalidResponse { reason: "bad json".to_string() };
    assert_eq!(err2.message(), "LLM response validation failed: bad json");
}

#[test]
fn prompt_ends_with_items() {
    let p = ollama_prompt("[{\"id\":\"a\",\"content\":\"c\"}]");
    assert!(p.starts_with("You are a JSON API."));
    assert!(p.ends_with("Posts: [{\"id\":\"a\",\"content\":\"c\"}]"));
    assert!(p.contains("\n- tags: array of 1-7 lowercase keyword strings\n"));
}

// ── storage rules ────────────────────────────────────────────────────────────

#[test]
fn tags_round_trip_through_json() {
    let tags = vec!["alpha".to_string(), "quote\"d".to_string(), "ünï\ncode".to_string()];
    let text = tags_to_json(&tags).unwrap();
    assert_eq!(text, serde_json::to_string(&tags).unwrap());
    assert_eq!(tags_from_json(&text), tags);
    assert!(tags_from_json("not json").is_empty());
}

#[test]
fn stored_rows_read_back() {
    let p = post_from_row(
        "id".to_string(),
        "ds".to_string(),
        "t".to_string(),
        "l".to_string(),
        None,
        None,
        None,
        "ignored",
        Some("empty_title".to_string()),
    );
    assert_eq!(p.status, PostStatus::Ignored);
    assert!(duplicate_name_failure("UNIQUE constraint failed: datasets.name"));
    assert!(!duplicate_name_failure("FOREIGN KEY constraint failed"));
    assert_eq!(dataset_not_found_message("abc"), "dataset 'abc' not found");
}
