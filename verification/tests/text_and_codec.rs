use revolver::codec::{encode_snapshot, parse_snapshot};
use revolver::evaluator::{evaluate_hypothesis, hash_text, noise_from_seed};
use revolver::llm::RigLlm;
use revolver::report::{render_markdown_report, report_file_name, sanitize_filename};
use revolver::task::{
    Heuristics, Hypothesis, TaskDefinition, TaskPhase, TaskSnapshot, TaskStatus,
};
use revolver::text::{
    fixed2_to_string, fixed3_to_string, format_phase, format_status, parse_u64, truncate,
    u64_to_string, u64_to_string_pad2,
};

#[test]
fn decimal_rendering_is_exact() {
    assert_eq!(u64_to_string(0), "0");
    assert_eq!(u64_to_string(7), "7");
    assert_eq!(u64_to_string(1234), "1234");
    assert_eq!(u64_to_string(u64::MAX), "18446744073709551615");
    assert_eq!(u64_to_string_pad2(3), "03");
    assert_eq!(u64_to_string_pad2(42), "42");
}

#[test]
fn decimal_parsing_inverts_rendering() {
    assert_eq!(parse_u64("1234", 0), Some((1234, 4)));
    assert_eq!(parse_u64("42 tail", 0), Some((42, 2)));
    assert_eq!(parse_u64("abc", 0), None);
    assert_eq!(parse_u64("", 0), None);
    // A value beyond u64 is rejected rather than wrapped.
    assert_eq!(parse_u64("18446744073709551616", 0), None);
}

#[test]
fn fixed_point_rendering_matches_scale() {
    assert_eq!(fixed2_to_string(0), "0.00");
    assert_eq!(fixed2_to_string(4200), "0.42");
    assert_eq!(fixed2_to_string(12500), "1.25");
    assert_eq!(fixed2_to_string(8050), "0.81");
    assert_eq!(fixed2_to_string(10000), "1.00");
    assert_eq!(fixed3_to_string(8000), "0.800");
    assert_eq!(fixed3_to_string(10000), "1.000");
}

#[test]
fn status_and_phase_display_strings() {
    assert_eq!(format_status(&TaskStatus::Pending), "Pending");
    assert_eq!(format_status(&TaskStatus::Failed("x".to_string())), "Failed");
    assert_eq!(format_phase(&TaskPhase::GeneratingHypotheses), "Generating");
    assert_eq!(format_phase(&TaskPhase::Finished), "Finished");
}

#[test]
fn truncate_keeps_short_values_and_marks_cut_ones() {
    assert_eq!(truncate("short", 16), "short");
    assert_eq!(truncate("a long task name", 7), "a lo...");
    assert_eq!(truncate("abcdef", 3), "abc");
    assert_eq!(truncate("", 4), "");
}

#[test]
fn sanitize_filename_slugs_names() {
    assert_eq!(sanitize_filename("My Task-1!"), "my_task_1");
    assert_eq!(sanitize_filename("...!!!"), "task");
    assert_eq!(sanitize_filename(""), "task");
    assert_eq!(sanitize_filename("AbC"), "abc");
}

#[test]
fn snapshot_header_round_trips_through_the_codec() {
    let definition = TaskDefinition::mock(7, "alpha beta".to_string());
    let snapshot = TaskSnapshot::from_definition(&definition);
    let encoded = encode_snapshot(&snapshot);
    let parsed = parse_snapshot(encoded.as_str()).expect("well-formed header must parse");
    assert_eq!(parsed.id, snapshot.id);
    assert_eq!(parsed.name, snapshot.name);
    assert_eq!(parsed.max_iters, snapshot.max_iters);
    assert_eq!(parsed.dataset_size, snapshot.dataset_size);
}

#[test]
fn malformed_headers_are_rejected() {
    assert_eq!(parse_snapshot("").is_none(), true);
    assert_eq!(parse_snapshot("1 2 3").is_none(), true);
    assert_eq!(parse_snapshot("1 2 3 4 toolong").is_none(), true);
    assert!(parse_snapshot("9 6 16 2 ab").is_some());
}

#[test]
fn byte_hash_is_the_wrapping_byte_sum() {
    assert_eq!(hash_text(""), 0);
    assert_eq!(hash_text("ab"), 195);
    assert_eq!(hash_text("abc"), 294);
}

#[test]
fn evaluation_is_deterministic_and_on_scale() {
    let heuristics =
        Heuristics { edge_threshold: 4200, min_blob_area: 120, contrast_boost: 12500 };
    let noise = noise_from_seed(99);
    assert!((-500..500).contains(&noise));
    assert_eq!(noise, noise_from_seed(99));
    let a = evaluate_hypothesis("focus on blobs", &heuristics, 16, noise);
    let b = evaluate_hypothesis("focus on blobs", &heuristics, 16, noise);
    assert_eq!(a, b);
    assert!(a <= 10000);
    // The noise term moves the score: widely different noise, different score
    // unless both ends clamp.
    let low = evaluate_hypothesis("x", &heuristics, 0, -10000);
    assert_eq!(low, 0);
}

#[test]
fn mock_source_is_deterministic_and_bounded() {
    let llm = RigLlm::new_mock();
    let definition = TaskDefinition::mock(3, "gen".to_string());
    let first = llm.generate_hypotheses(&definition, 1);
    let second = llm.generate_hypotheses(&definition, 1);
    assert_eq!(first, second);
    assert!((4..=7).contains(&first.len()));
    assert!(first[0].starts_with("Iter 1 hypothesis 0: focus on blobs>=120 and edge 0.42"));
}

#[test]
fn mock_definition_has_generated_dataset() {
    let definition = TaskDefinition::mock(7, "d".to_string());
    assert_eq!(definition.dataset.len(), 16);
    assert_eq!(definition.dataset[0].name, "image_7_00.png");
    assert_eq!(definition.dataset[15].name, "image_7_15.png");
    assert_eq!(definition.max_iters, 6);
}

#[test]
fn report_text_carries_the_task_facts() {
    let definition = TaskDefinition {
        id: 5,
        name: "Edge Study".to_string(),
        dataset: Vec::new(),
        heuristics: Heuristics { edge_threshold: 4200, min_blob_area: 120, contrast_boost: 12500 },
        max_iters: 6,
        created_at: 1700000000,
    };
    let verified = vec![Hypothesis { id: 101, description: "keep edges".to_string(), score: 8000 }];
    let discarded: Vec<Hypothesis> = Vec::new();
    let text = render_markdown_report(&definition, &verified, &discarded, "fn solve() {}", 8000);
    assert!(text.starts_with("# Task Report: Edge Study\n"));
    assert!(text.contains("- Task id: 5\n"));
    assert!(text.contains("- Created (unix): 1700000000\n"));
    assert!(text.contains("- Heuristics: edge_threshold=0.42, min_blob_area=120, contrast_boost=1.25\n"));
    assert!(text.contains("- Best score: 0.800\n"));
    assert!(text.contains("- [101] keep edges (score 0.80)\n"));
    assert!(text.contains("- _empty_\n"));
    assert!(text.contains("- _None_\n"));
    assert!(text.ends_with("```rust\nfn solve() {}\n```\n"));
    assert_eq!(report_file_name(&definition), "task_5_edge_study.md");
}
