use csharp_provider::dedup::deduplicate_results;
use csharp_provider::results::{Location, Position, ResultNode};

fn create_result_node(
    file_uri: &str,
    line_number: usize,
    start_line: usize,
    start_char: usize,
    end_line: usize,
    end_char: usize,
) -> ResultNode {
    ResultNode {
        file_uri: file_uri.to_string(),
        line_number,
        variables: Vec::new(),
        code_location: Location {
            start_position: Position {
                line: start_line,
                character: start_char,
            },
            end_position: Position {
                line: end_line,
                character: end_char,
            },
        },
    }
}

#[test]
fn test_deduplication_keeps_smallest_span() {
    // Create test data with same file+line but different spans
    let results = vec![
        create_result_node("file1.cs", 10, 10, 0, 15, 0), // span=5 lines
        create_result_node("file1.cs", 10, 10, 5, 12, 0), // span=2 lines (should be kept)
        create_result_node("file1.cs", 10, 10, 0, 20, 0), // span=10 lines
        create_result_node("file2.cs", 20, 20, 0, 21, 0), // different location
    ];

    let deduplicated = deduplicate_results(&results);

    // Should have 2 results (one for each unique file+line)
    assert_eq!(deduplicated.len(), 2);

    // Find the result for file1.cs:10
    let file1_result = deduplicated
        .iter()
        .find(|r| r.file_uri == "file1.cs" && r.line_number == 10)
        .expect("Should have result for file1.cs:10");

    // Should be the one with smallest span (2 lines)
    let span = file1_result.code_location.end_position.line
        - file1_result.code_location.start_position.line;
    assert_eq!(span, 2, "Should keep result with smallest span");
    assert_eq!(file1_result.code_location.start_position.character, 5);
}

#[test]
fn test_deduplication_is_deterministic() {
    // Create test data - same input multiple times
    let create_test_data = || {
        vec![
            create_result_node("file1.cs", 10, 10, 0, 15, 0),
            create_result_node("file1.cs", 10, 10, 5, 12, 0),
            create_result_node("file1.cs", 10, 10, 0, 20, 0),
            create_result_node("file1.cs", 10, 10, 8, 13, 0), // Same span as second, different char
        ]
    };

    // Run deduplication 3 times and collect character positions
    let mut char_positions = vec![];
    for _ in 0..3 {
        let results = create_test_data();
        let deduplicated = deduplicate_results(&results);
        assert_eq!(deduplicated.len(), 1, "Should deduplicate to 1 result");
        char_positions.push(deduplicated[0].code_location.start_position.character);
    }

    // All runs should produce the same character position
    assert_eq!(char_positions[0], char_positions[1]);
    assert_eq!(char_positions[1], char_positions[2]);
    assert_eq!(
        char_positions[0], 5,
        "Should consistently pick character position 5"
    );
}

#[test]
fn test_deduplication_prefers_earlier_character_when_same_span() {
    let results = vec![
        create_result_node("file1.cs", 10, 10, 10, 12, 0), // span=2, char=10
        create_result_node("file1.cs", 10, 10, 5, 12, 0),  // span=2, char=5 (should be kept)
        create_result_node("file1.cs", 10, 10, 15, 12, 0), // span=2, char=15
    ];

    let deduplicated = deduplicate_results(&results);

    assert_eq!(deduplicated.len(), 1);
    assert_eq!(
        deduplicated[0].code_location.start_position.character, 5,
        "Should keep result with earliest character when spans are equal"
    );
}

#[test]
fn test_deduplication_is_order_independent() {
    // Create same results in different orders
    let order1 = vec![
        create_result_node("file1.cs", 10, 10, 0, 15, 0), // Large span
        create_result_node("file1.cs", 10, 10, 5, 12, 0), // Small span, char=5 (winner)
        create_result_node("file1.cs", 10, 10, 0, 20, 0), // Huge span
        create_result_node("file2.cs", 20, 20, 0, 21, 0), // Different location
    ];

    let order2 = vec![
        create_result_node("file2.cs", 20, 20, 0, 21, 0), // Different location
        create_result_node("file1.cs", 10, 10, 0, 20, 0), // Huge span
        create_result_node("file1.cs", 10, 10, 5, 12, 0), // Small span, char=5 (winner)
        create_result_node("file1.cs", 10, 10, 0, 15, 0), // Large span
    ];

    let order3 = vec![
        create_result_node("file1.cs", 10, 10, 0, 20, 0), // Huge span
        create_result_node("file2.cs", 20, 20, 0, 21, 0), // Different location
        create_result_node("file1.cs", 10, 10, 0, 15, 0), // Large span
        create_result_node("file1.cs", 10, 10, 5, 12, 0), // Small span, char=5 (winner)
    ];

    // Process all three orderings
    let mut results_from_orders = vec![];
    for results in [&order1, &order2, &order3] {
        let deduplicated = deduplicate_results(results);

        // Extract key properties for comparison
        let mut props: Vec<(String, usize, usize, usize)> = deduplicated
            .iter()
            .map(|r| {
                (
                    r.file_uri.clone(),
                    r.line_number,
                    r.code_location.end_position.line - r.code_location.start_position.line,
                    r.code_location.start_position.character,
                )
            })
            .collect();
        props.sort(); // Sort for consistent comparison
        results_from_orders.push(props);
    }

    // All orderings should produce identical results
    assert_eq!(
        results_from_orders[0], results_from_orders[1],
        "Order 1 and Order 2 should produce identical results"
    );
    assert_eq!(
        results_from_orders[1], results_from_orders[2],
        "Order 2 and Order 3 should produce identical results"
    );

    // Verify the actual chosen values
    let file1_result = &results_from_orders[0]
        .iter()
        .find(|r| r.0 == "file1.cs")
        .unwrap();
    assert_eq!(file1_result.2, 2, "Should choose span of 2 lines");
    assert_eq!(file1_result.3, 5, "Should choose character position 5");
}

#[test]
fn test_deduplication_adjacent_lines_tree_sitter_scenario() {
    // Simulates a scenario where the parser reports multiple nodes for the
    // SAME line_number with different spans due to parsing ambiguities.
    //
    // The same line (e.g., 240) might get reported multiple times with
    // different span information because the parser creates nodes with
    // ambiguous boundaries. The deduplication should keep the tightest span.
    //
    // Note: Results on DIFFERENT line_numbers (240 vs 241) are NOT deduplicated - they're
    // kept as separate results because the grouping key is (file_uri, line_number).
    let results = vec![
        // Scenario 1: Multiple nodes reported for line 179 with different spans
        create_result_node("AccountController.cs", 179, 179, 16, 179, 26), // Tight span on line 179
        create_result_node("AccountController.cs", 179, 179, 16, 181, 17), // Span crossing to line 181
        create_result_node("AccountController.cs", 179, 177, 0, 179, 26), // Span starting earlier
        // Scenario 2: Multiple nodes reported for line 240 with different spans
        create_result_node("AccountController.cs", 240, 240, 0, 240, 94), // Tight span on line 240 (WINNER)
        create_result_node("AccountController.cs", 240, 240, 0, 241, 20), // Span crossing to line 241
        create_result_node("AccountController.cs", 240, 239, 0, 240, 94), // Span starting earlier
        // Scenario 3: Line 241 has its own references (separate from 240)
        create_result_node("AccountController.cs", 241, 241, 16, 241, 23), // ViewBag on line 241
        create_result_node("AccountController.cs", 241, 241, 0, 242, 10), // Wider span for line 241
        // Scenario 4: Different file, should not be affected
        create_result_node("DinnerController.cs", 100, 100, 0, 100, 10),
    ];

    let mut deduplicated = deduplicate_results(&results);
    deduplicated.sort_by_key(|r| (r.file_uri.clone(), r.line_number));

    // Should have 4 results after deduplication:
    // - AccountController.cs:179 (best of 3 results for line 179)
    // - AccountController.cs:240 (best of 3 results for line 240)
    // - AccountController.cs:241 (best of 2 results for line 241)
    // - DinnerController.cs:100
    assert_eq!(
        deduplicated.len(),
        4,
        "Should deduplicate same-line entries but keep distinct line numbers"
    );

    // Check line 179: should keep the one with smallest span
    let line_179 = deduplicated
        .iter()
        .find(|r| r.file_uri == "AccountController.cs" && r.line_number == 179)
        .expect("Should have result for line 179");
    let span_179 =
        line_179.code_location.end_position.line - line_179.code_location.start_position.line;
    assert_eq!(
        span_179, 0,
        "Line 179 should keep single-line span (smallest)"
    );
    assert_eq!(line_179.code_location.start_position.line, 179);
    assert_eq!(line_179.code_location.start_position.character, 16);
    assert_eq!(line_179.code_location.end_position.character, 26);

    // Check line 240: should keep the one with smallest span
    let line_240 = deduplicated
        .iter()
        .find(|r| r.file_uri == "AccountController.cs" && r.line_number == 240)
        .expect("Should have result for line 240");
    let span_240 =
        line_240.code_location.end_position.line - line_240.code_location.start_position.line;
    assert_eq!(span_240, 0, "Line 240 should keep single-line span");
    assert_eq!(line_240.code_location.start_position.line, 240);
    assert_eq!(line_240.code_location.end_position.character, 94);

    // Check line 241: should keep the one with smallest span (separate from 240)
    let line_241 = deduplicated
        .iter()
        .find(|r| r.file_uri == "AccountController.cs" && r.line_number == 241)
        .expect("Should have result for line 241");
    let span_241 =
        line_241.code_location.end_position.line - line_241.code_location.start_position.line;
    assert_eq!(span_241, 0, "Line 241 should keep single-line span");
    assert_eq!(line_241.code_location.start_position.line, 241);
    assert_eq!(line_241.code_location.start_position.character, 16);

    // Verify all AccountController.cs results
    let account_controller_results: Vec<&ResultNode> = deduplicated
        .iter()
        .filter(|r| r.file_uri == "AccountController.cs")
        .collect();
    assert_eq!(
        account_controller_results.len(),
        3,
        "AccountController.cs should have exactly 3 results (lines 179, 240, 241)"
    );
}

#[test]
fn test_deduplication_does_not_merge_different_lines() {
    // Ensure that the deduplication logic does NOT merge results on different line numbers
    // even if they're adjacent. Each line number should be treated as a separate key.
    let results = vec![
        create_result_node("file.cs", 179, 179, 0, 179, 10), // Line 179
        create_result_node("file.cs", 180, 180, 0, 180, 10), // Line 180
        create_result_node("file.cs", 181, 181, 0, 181, 10), // Line 181
    ];

    let deduplicated = deduplicate_results(&results);

    // Should keep all 3 results since they're on different lines
    assert_eq!(
        deduplicated.len(),
        3,
        "Adjacent line numbers should not be merged - each line is a separate key"
    );

    // Verify we have results for all three lines
    assert!(deduplicated.iter().any(|r| r.line_number == 179));
    assert!(deduplicated.iter().any(|r| r.line_number == 180));
    assert!(deduplicated.iter().any(|r| r.line_number == 181));
}

#[test]
fn test_deduplication_single_group_keeps_two_line_span() {
    // Three reports of the same reference at (f, 10): the two-line span wins.
    let results = vec![
        create_result_node("f", 10, 10, 0, 15, 0),
        create_result_node("f", 10, 10, 5, 12, 0),
        create_result_node("f", 10, 10, 0, 20, 0),
    ];

    let deduplicated = deduplicate_results(&results);

    assert_eq!(deduplicated.len(), 1);
    let winner = &deduplicated[0];
    assert_eq!(winner.code_location.start_position.line, 10);
    assert_eq!(winner.code_location.start_position.character, 5);
    assert_eq!(winner.code_location.end_position.line, 12);
    assert_eq!(winner.code_location.end_position.character, 0);
}

#[test]
fn test_deduplication_breaks_ties_by_end_character() {
    // Equal span and start character: the earlier end character wins.
    let results = vec![
        create_result_node("file1.cs", 7, 7, 3, 7, 30),
        create_result_node("file1.cs", 7, 7, 3, 7, 12),
        create_result_node("file1.cs", 7, 7, 3, 7, 21),
    ];

    let deduplicated = deduplicate_results(&results);

    assert_eq!(deduplicated.len(), 1);
    assert_eq!(deduplicated[0].code_location.end_position.character, 12);
}

#[test]
fn test_deduplication_is_idempotent() {
    let results = vec![
        create_result_node("file1.cs", 10, 10, 0, 15, 0),
        create_result_node("file1.cs", 10, 10, 5, 12, 0),
        create_result_node("file2.cs", 20, 20, 0, 21, 0),
        create_result_node("file2.cs", 21, 21, 4, 21, 9),
    ];

    let once = deduplicate_results(&results);
    let twice = deduplicate_results(&once);

    assert_eq!(once.len(), 3);
    assert_eq!(twice.len(), once.len());
    for (a, b) in once.iter().zip(twice.iter()) {
        assert_eq!(a.file_uri, b.file_uri);
        assert_eq!(a.line_number, b.line_number);
        assert_eq!(a.code_location, b.code_location);
    }
}

#[test]
fn test_deduplication_output_is_sorted_by_file_then_line() {
    let results = vec![
        create_result_node("b.cs", 2, 2, 0, 2, 5),
        create_result_node("a.cs", 9, 9, 0, 9, 5),
        create_result_node("b.cs", 1, 1, 0, 1, 5),
        create_result_node("a.cs", 3, 3, 0, 3, 5),
    ];

    let deduplicated = deduplicate_results(&results);

    let keys: Vec<(String, usize)> = deduplicated
        .iter()
        .map(|r| (r.file_uri.clone(), r.line_number))
        .collect();
    assert_eq!(
        keys,
        vec![
            ("a.cs".to_string(), 3),
            ("a.cs".to_string(), 9),
            ("b.cs".to_string(), 1),
            ("b.cs".to_string(), 2),
        ]
    );
}

#[test]
fn test_deduplication_of_empty_input_is_empty() {
    let results: Vec<ResultNode> = Vec::new();
    let deduplicated = deduplicate_results(&results);
    assert!(deduplicated.is_empty());
}
